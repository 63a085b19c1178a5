//! The cryptographic hash behind stealth addressing and the jackpot draw.

use vstd::prelude::*;

verus! {

/// The digest blake2b-256 assigns to a byte string.  No contract of this
/// crate says what the digest is on given bytes; the wrapper below ties
/// the name to the outside implementation.
pub uninterp spec fn blake2_of(input: Seq<u8>) -> Seq<u8>;

/// Relies on `blake2::Blake2b` with a 32-byte output size (blake2b-256):
/// the digest depends on the input bytes alone.
#[verifier::external_body]
pub(crate) fn blake2_256(input: &[u8]) -> (r: [u8; 32])
    ensures
        r@ == blake2_of(input@),
{
    let out = <blake2::Blake2b<blake2::digest::consts::U32> as blake2::Digest>::digest(input);
    let mut r = [0u8; 32];
    r.copy_from_slice(&out);
    r
}

} // verus!
