//! Laws that relate several operations, stated over the operations'
//! postcondition predicates and proved once and for all.

use vstd::prelude::*;

use crate::account::AccountId;
use crate::contract::{fee_of, stealth_of, Balance, NinjaTip, MAX_STREAK, STREAK_WINDOW_MS};
use crate::errors::Error;

verus! {

/// Stealth addressing is deterministic: deriving from equal usernames and
/// equal salts gives equal addresses, in any two calls.
pub proof fn lemma_derive_deterministic(u1: Seq<char>, s1: Seq<u8>, u2: Seq<char>, s2: Seq<u8>)
    requires
        u1 == u2,
        s1 == s2,
    ensures
        stealth_of(u1, s1) == stealth_of(u2, s2),
{
}

/// Balance conservation: a successful tip splits the attached value
/// exactly between the stealth balance and the accumulated fees — the
/// whole value with the fee off, the value less `floor(v * rate / 10000)`
/// with it on — as long as neither running total overflows.
pub proof fn lemma_tip_conservation(
    pre: NinjaTip,
    post: NinjaTip,
    username: Seq<char>,
    salt: Seq<u8>,
    amount: Balance,
    height: u64,
    r: Result<(), Error>,
)
    requires
        NinjaTip::tip_post(pre, post, username, salt, amount, height, r),
        r is Ok,
        pre.bal_of(stealth_of(username, salt)) + amount <= u128::MAX,
        pre.accumulated_fees + amount <= u128::MAX,
    ensures
        !pre.fee_enabled ==> post.bal_of(stealth_of(username, salt)) == pre.bal_of(
            stealth_of(username, salt),
        ) + amount && post.accumulated_fees == pre.accumulated_fees,
        pre.fee_enabled ==> post.bal_of(stealth_of(username, salt)) == pre.bal_of(
            stealth_of(username, salt),
        ) + amount - fee_of(amount, pre.fee_rate) && post.accumulated_fees
            == pre.accumulated_fees + fee_of(amount, pre.fee_rate),
        post.bal_of(stealth_of(username, salt)) + post.accumulated_fees == pre.bal_of(
            stealth_of(username, salt),
        ) + pre.accumulated_fees + amount,
{
    crate::contract::lemma_fee_le_amount(amount, pre.fee_rate);
}

/// Withdraw zeroing: after a successful withdrawal the stealth balance is
/// exactly zero, and a second withdrawal of the same address fails with
/// `NoFunds` and changes nothing.
pub proof fn lemma_withdraw_zeroing(
    s0: NinjaTip,
    s1: NinjaTip,
    s2: NinjaTip,
    username: Seq<char>,
    salt: Seq<u8>,
    h1: u64,
    h2: u64,
    ok1: bool,
    ok2: bool,
    r1: Result<(), Error>,
    r2: Result<(), Error>,
)
    requires
        NinjaTip::withdraw_post(s0, s1, username, salt, h1, ok1, r1),
        r1 is Ok,
        NinjaTip::withdraw_post(s1, s2, username, salt, h2, ok2, r2),
    ensures
        s1.bal_of(stealth_of(username, salt)) == 0,
        r2 == Err::<(), Error>(Error::NoFunds),
        NinjaTip::state_eq(s1, s2),
{
}

/// Registration uniqueness: once a username has been registered, a second
/// registration of the same name fails with `UsernameTaken` and changes
/// nothing, whoever pays and whatever they pay.
pub proof fn lemma_registration_unique(
    s0: NinjaTip,
    s1: NinjaTip,
    s2: NinjaTip,
    username: Seq<char>,
    c1: AccountId,
    c2: AccountId,
    v1: Balance,
    v2: Balance,
    r1: Result<(), Error>,
    r2: Result<(), Error>,
)
    requires
        NinjaTip::register_post(s0, s1, username, c1, v1, r1),
        r1 is Ok,
        NinjaTip::register_post(s1, s2, username, c2, v2, r2),
    ensures
        r2 == Err::<(), Error>(Error::UsernameTaken),
        NinjaTip::state_eq(s1, s2),
{
}

/// Owner gating: each owner-only operation, invoked by any identity other
/// than the owner, fails with `NotOwner` and leaves every part of the
/// state unchanged.
pub proof fn lemma_owner_gating(
    s: NinjaTip,
    caller: AccountId,
    post_toggle: NinjaTip,
    enabled: bool,
    r1: Result<(), Error>,
    post_rate: NinjaTip,
    rate: u8,
    r2: Result<(), Error>,
    post_collect: NinjaTip,
    send_ok: bool,
    r3: Result<(), Error>,
    post_sweep: NinjaTip,
    r4: Result<(), Error>,
)
    requires
        caller@ != s.owner@,
        NinjaTip::set_fee_enabled_post(s, post_toggle, caller, enabled, r1),
        NinjaTip::set_fee_rate_post(s, post_rate, caller, rate, r2),
        NinjaTip::collect_fees_post(s, post_collect, caller, send_ok, r3),
        NinjaTip::sweep_inactive_post(s, post_sweep, caller, r4),
    ensures
        r1 == Err::<(), Error>(Error::NotOwner) && NinjaTip::state_eq(s, post_toggle),
        r2 == Err::<(), Error>(Error::NotOwner) && NinjaTip::state_eq(s, post_rate),
        r3 == Err::<(), Error>(Error::NotOwner) && NinjaTip::state_eq(s, post_collect),
        r4 == Err::<(), Error>(Error::NotOwner) && NinjaTip::state_eq(s, post_sweep),
{
}

/// Streak windowing: across two successful plays by the same caller, the
/// second play extends the streak by one — capped at the maximum — when
/// it comes within the window after the first, and resets it to one when
/// it comes later (or out of order).
pub proof fn lemma_streak_window(
    s0: NinjaTip,
    s1: NinjaTip,
    s2: NinjaTip,
    u1: Seq<char>,
    u2: Seq<char>,
    salt1: Seq<u8>,
    salt2: Seq<u8>,
    caller: AccountId,
    a1: Balance,
    a2: Balance,
    t1: u64,
    t2: u64,
    h1: u64,
    h2: u64,
    direct1: bool,
    direct2: bool,
    pay1: bool,
    pay2: bool,
    r1: Result<(), Error>,
    r2: Result<(), Error>,
)
    requires
        NinjaTip::play_post(s0, s1, u1, salt1, caller, a1, t1, h1, direct1, pay1, r1),
        r1 is Ok,
        NinjaTip::play_post(s1, s2, u2, salt2, caller, a2, t2, h2, direct2, pay2, r2),
        r2 is Ok,
    ensures
        s1.streak_of(caller@).0 == t1,
        s2.streak_of(caller@).0 == t2,
        0 < t1 < t2 && t2 - t1 < STREAK_WINDOW_MS ==> s2.streak_of(caller@).1 == (
        if s1.streak_of(caller@).1 + 1 > MAX_STREAK {
            MAX_STREAK
        } else {
            (s1.streak_of(caller@).1 + 1) as u32
        }),
        t2 <= t1 || t2 - t1 >= STREAK_WINDOW_MS ==> s2.streak_of(caller@).1 == 1,
        1 <= s2.streak_of(caller@).1 <= MAX_STREAK,
{
}

/// Jackpot atomicity: settling a winning draw either pays out — the pool
/// drops to zero, the winner is recorded, and the owner's fee plus the
/// winner's amount add up exactly to the prior pool — or, when the host
/// reports the payout transfer failed, leaves the pool and the last
/// winner exactly as they were.
pub proof fn lemma_jackpot_atomic(
    pre: NinjaTip,
    post: NinjaTip,
    caller: AccountId,
    payout_ok: bool,
    r: Option<(Balance, Balance)>,
)
    requires
        NinjaTip::settle_post(pre, post, caller, payout_ok, r),
        pre.jackpot_pool > 0,
    ensures
        payout_ok ==> post.jackpot_pool == 0 && post.last_jackpot_winner == Some(caller) && (
        r matches Some(split) && split.0 + split.1 == pre.jackpot_pool),
        !payout_ok ==> r is None && NinjaTip::state_eq(pre, post),
{
}

} // verus!
