//! The contract state and its public operations.
//!
//! Every host interaction enters as a plain value: the caller identity,
//! the value attached to a call, clock readings, and — for the operations
//! that pay tokens out — the outcome the host reports for the transfer
//! they request.  An operation that is told the transfer failed leaves the
//! state exactly as it found it, so a failed payout can never strand the
//! books half-updated.

use vstd::arithmetic::div_mod::{
    lemma_div_is_ordered, lemma_fundamental_div_mod, lemma_hoist_over_denominator,
};
use vstd::prelude::*;
use vstd::string::StrSliceExecFns;
use vstd::utf8::encode_utf8;

use crate::account::AccountId;
use crate::errors::Error;
use crate::events::{
    DirectTipSent, Event, FeeCollected, FeeToggled, GamePlayed, JackpotWon, TipReceived,
    UsernameRegistered, Withdrawn,
};
use crate::hashing::{blake2_256, blake2_of};
use crate::table::Table;

verus! {

/// Token amounts, in the chain's minor units.
pub type Balance = u128;

/// Longest accepted username, in bytes of UTF-8.
pub const MAX_USERNAME_BYTES: usize = 64;

/// Price of registering a username: ten whole tokens at 18-decimal precision.
pub const REGISTRATION_COST: Balance = 10_000_000_000_000_000_000;

/// Two gamified plays closer together than this window extend a streak.
pub const STREAK_WINDOW_MS: u64 = 600_000;

/// A streak never grows past this multiplier.
pub const MAX_STREAK: u32 = 5;

/// Share of every gamified tip fed to the jackpot pool, in basis points.
pub const JACKPOT_CONTRIBUTION_BPS: u8 = 100;

/// The fee a basis-point rate takes from an amount: `amount * rate / 10000`,
/// rounded down.
pub open spec fn fee_of(amount: Balance, rate: u8) -> Balance {
    (amount as int * rate as int / 10000) as Balance
}

/// Addition that leaves the left operand unchanged instead of overflowing.
pub open spec fn sat_add(a: Balance, b: Balance) -> Balance {
    if a + b <= u128::MAX {
        (a + b) as Balance
    } else {
        a
    }
}

/// Increment with wraparound.
pub open spec fn wrap_inc(x: u64) -> u64 {
    if x == u64::MAX {
        0u64
    } else {
        (x + 1) as u64
    }
}

/// The eight bytes of a 64-bit value, least significant first.
pub open spec fn le_bytes_8(x: u64) -> Seq<u8> {
    seq![
        (x % 256) as u8,
        ((x / 256) % 256) as u8,
        ((x / 65536) % 256) as u8,
        ((x / 16777216) % 256) as u8,
        ((x / 4294967296) % 256) as u8,
        ((x / 1099511627776) % 256) as u8,
        ((x / 281474976710656) % 256) as u8,
        ((x / 72057594037927936) % 256) as u8,
    ]
}

/// The four bytes of a 32-bit value, least significant first.
pub open spec fn le_bytes_4(x: u32) -> Seq<u8> {
    seq![
        (x % 256) as u8,
        ((x / 256) % 256) as u8,
        ((x / 65536) % 256) as u8,
        ((x / 16777216) % 256) as u8,
    ]
}

/// The value of the first four bytes of a sequence, read little-endian.
pub open spec fn le_val_4(s: Seq<u8>) -> int {
    s[0] + s[1] * 256 + s[2] * 65536 + s[3] * 16777216
}

/// The stealth address of a `(username, salt)` pair: the blake2b-256
/// digest of the username's UTF-8 bytes followed by the raw salt bytes.
pub open spec fn stealth_of(username: Seq<char>, salt: Seq<u8>) -> Seq<u8> {
    blake2_of(encode_utf8(username) + salt)
}

/// The seed material of one jackpot draw: the clock readings, the global
/// play counter, the caller and the streak the play reached, concatenated
/// little-endian.
pub open spec fn seed_of(
    timestamp: u64,
    height: u64,
    play_count: u64,
    caller: Seq<u8>,
    streak: u32,
) -> Seq<u8> {
    le_bytes_8(timestamp) + le_bytes_8(height) + le_bytes_8(play_count) + caller + le_bytes_4(
        streak,
    )
}

/// The draw a seed produces: the low 32 bits of its digest, little-endian,
/// reduced modulo 10000.
pub open spec fn draw_of(seed: Seq<u8>) -> int {
    le_val_4(blake2_of(seed)) % 10000
}

/// The streak a play reaches, given the caller's previous record and the
/// current time: one more than before — capped — when the previous play
/// was recent, and back to one otherwise.
pub open spec fn next_streak(last_played: u64, streak: u32, now: u64) -> u32 {
    if last_played > 0 && now > last_played && now - last_played < STREAK_WINDOW_MS {
        if streak + 1 > MAX_STREAK {
            MAX_STREAK
        } else {
            (streak + 1) as u32
        }
    } else {
        1u32
    }
}

/// The fee never exceeds the amount it is taken from.
pub proof fn lemma_fee_le_amount(amount: Balance, rate: u8)
    ensures
        fee_of(amount, rate) <= amount,
{
    let a = amount as int;
    let r = rate as int;
    assert(a * r <= a * 10000) by (nonlinear_arith)
        requires
            0 <= a,
            0 <= r <= 255,
    ;
    lemma_div_is_ordered(a * r, a * 10000, 10000);
    assert(a * 10000 / 10000 == a) by (nonlinear_arith);
}

/// Computes `fee_of` without overflowing, by splitting the amount at the
/// basis-point denominator.
pub fn compute_fee(amount: Balance, rate: u8) -> (r: Balance)
    ensures
        r == fee_of(amount, rate),
        r <= amount,
{
    let q = amount / 10000;
    let s = amount % 10000;
    proof {
        lemma_fundamental_div_mod(amount as int, 10000);
        assert(q as int * rate as int <= (u128::MAX as int / 10000) * 255) by (nonlinear_arith)
            requires
                0 <= q as int <= u128::MAX as int / 10000,
                0 <= rate as int <= 255,
        ;
        assert((s as int) * (rate as int) < 10000 * 255) by (nonlinear_arith)
            requires
                0 <= s < 10000,
                0 <= rate as int <= 255,
        ;
    }
    let hi = q * (rate as u128);
    let lo = (s * (rate as u128)) / 10000;
    proof {
        let a = amount as int;
        let r = rate as int;
        let qi = q as int;
        let si = s as int;
        assert(a * r == si * r + (qi * r) * 10000) by (nonlinear_arith)
            requires
                a == 10000 * qi + si,
        ;
        lemma_hoist_over_denominator(si * r, qi * r, 10000nat);
        lemma_fee_le_amount(amount, rate);
    }
    hi + lo
}

/// Adds `b` to `a`, leaving `a` unchanged if the sum would overflow.
fn sat_add_exec(a: Balance, b: Balance) -> (r: Balance)
    ensures
        r == sat_add(a, b),
{
    if b <= u128::MAX - a {
        a + b
    } else {
        a
    }
}

/// Appends the eight little-endian bytes of a 64-bit value.
fn push_le_8(out: &mut Vec<u8>, x: u64)
    ensures
        final(out)@ == old(out)@ + le_bytes_8(x),
{
    out.push((x % 256) as u8);
    out.push(((x / 256) % 256) as u8);
    out.push(((x / 65536) % 256) as u8);
    out.push(((x / 16777216) % 256) as u8);
    out.push(((x / 4294967296) % 256) as u8);
    out.push(((x / 1099511627776) % 256) as u8);
    out.push(((x / 281474976710656) % 256) as u8);
    out.push(((x / 72057594037927936) % 256) as u8);
    proof {
        assert(final(out)@ =~= old(out)@ + le_bytes_8(x));
    }
}

/// Appends the four little-endian bytes of a 32-bit value.
fn push_le_4(out: &mut Vec<u8>, x: u32)
    ensures
        final(out)@ == old(out)@ + le_bytes_4(x),
{
    out.push((x % 256) as u8);
    out.push(((x / 256) % 256) as u8);
    out.push(((x / 65536) % 256) as u8);
    out.push(((x / 16777216) % 256) as u8);
    proof {
        assert(final(out)@ =~= old(out)@ + le_bytes_4(x));
    }
}

/// Builds the seed material of one jackpot draw.
fn build_seed(
    timestamp: u64,
    height: u64,
    play_count: u64,
    caller: &AccountId,
    streak: u32,
) -> (r: Vec<u8>)
    ensures
        r@ == seed_of(timestamp, height, play_count, caller@, streak),
{
    let mut out: Vec<u8> = Vec::new();
    push_le_8(&mut out, timestamp);
    push_le_8(&mut out, height);
    push_le_8(&mut out, play_count);
    let mut i: usize = 0;
    while i < 32
        invariant
            i <= 32,
            out@ == le_bytes_8(timestamp) + le_bytes_8(height) + le_bytes_8(play_count)
                + caller@.take(i as int),
        decreases 32 - i,
    {
        out.push(caller.bytes[i]);
        proof {
            assert(caller@.take(i + 1) =~= caller@.take(i as int).push(caller@[i as int]));
            assert(out@ =~= le_bytes_8(timestamp) + le_bytes_8(height) + le_bytes_8(play_count)
                + caller@.take(i + 1));
        }
        i += 1;
    }
    proof {
        assert(caller@.take(32) =~= caller@);
    }
    push_le_4(&mut out, streak);
    proof {
        assert(out@ =~= seed_of(timestamp, height, play_count, caller@, streak));
    }
    out
}

/// Runs one jackpot draw and says whether it wins: the draw seeded by
/// the given readings falls below ten times the streak.
fn run_draw(caller: &AccountId, timestamp: u64, height: u64, play_count: u64, streak: u32) -> (win:
    bool)
    requires
        streak <= MAX_STREAK,
    ensures
        win == (draw_of(seed_of(timestamp, height, play_count, caller@, streak)) < 10 * streak),
{
    let seed = build_seed(timestamp, height, play_count, caller, streak);
    let digest = blake2_256(seed.as_slice());
    let d0 = digest[0] as u32;
    let d1 = digest[1] as u32;
    let d2 = digest[2] as u32;
    let d3 = digest[3] as u32;
    let lucky_draw = (d0 + d1 * 256 + d2 * 65536 + d3 * 16777216) % 10000;
    let threshold = 10 * streak;
    lucky_draw < threshold
}

/// The stealth tip jar: ledger, fee engine, username registry and
/// gamification state, plus the log of notifications not yet handed to
/// the host's event sink.
pub struct NinjaTip {
    /// Stealth address to balance.
    pub balances: Table<AccountId, Balance>,
    /// Stealth address to the height of its last tip or withdrawal.
    pub last_activity: Table<AccountId, u64>,
    /// The deployer; the only identity allowed to manage fees.
    pub owner: AccountId,
    /// Whether the tip fee is taken.
    pub fee_enabled: bool,
    /// Tip fee rate in basis points, always between 50 and 100.
    pub fee_rate: u8,
    /// Fees collected so far and not yet paid out to the owner.
    pub accumulated_fees: Balance,
    /// Username to the identity that registered it.
    pub username_registry: Table<String, AccountId>,
    /// The jackpot pool the gamified tips feed.
    pub jackpot_pool: Balance,
    /// Who won the jackpot last, if anyone ever has.
    pub last_jackpot_winner: Option<AccountId>,
    /// How many gamified plays have happened, with wraparound.
    pub game_play_count: u64,
    /// Caller to `(last play timestamp, streak)`.
    pub streaks: Table<AccountId, (u64, u32)>,
    /// Notifications not yet drained by the host.
    pub events: Vec<Event>,
}

impl NinjaTip {
    /// Well-formedness: the stores are well-formed, the fee rate is in
    /// range, and every recorded streak is between one and the cap.
    pub open spec fn wf(self) -> bool {
        &&& self.balances.wf()
        &&& self.last_activity.wf()
        &&& self.username_registry.wf()
        &&& self.streaks.wf()
        &&& 50 <= self.fee_rate <= 100
        &&& forall|k: Seq<u8>| #[trigger]
            self.streaks@.dom().contains(k) ==> 1 <= self.streaks@[k].1 <= MAX_STREAK
    }

    /// The balance stored for a stealth address, zero if none.
    pub open spec fn bal_of(self, addr: Seq<u8>) -> Balance {
        if self.balances@.dom().contains(addr) {
            self.balances@[addr]
        } else {
            0
        }
    }

    /// The streak record of a caller, `(0, 0)` if none.
    pub open spec fn streak_of(self, who: Seq<u8>) -> (u64, u32) {
        if self.streaks@.dom().contains(who) {
            self.streaks@[who]
        } else {
            (0u64, 0u32)
        }
    }

    /// The identity a username is registered to, if any.
    pub open spec fn registered_owner(self, username: Seq<char>) -> Option<AccountId> {
        if self.username_registry@.dom().contains(username) {
            Some(self.username_registry@[username])
        } else {
            None
        }
    }

    /// Observational equality of two states: every store, every scalar
    /// and the event log agree.
    pub open spec fn state_eq(a: NinjaTip, b: NinjaTip) -> bool {
        &&& a.balances@ == b.balances@
        &&& a.last_activity@ == b.last_activity@
        &&& a.owner@ == b.owner@
        &&& a.fee_enabled == b.fee_enabled
        &&& a.fee_rate == b.fee_rate
        &&& a.accumulated_fees == b.accumulated_fees
        &&& a.username_registry@ == b.username_registry@
        &&& a.jackpot_pool == b.jackpot_pool
        &&& a.last_jackpot_winner == b.last_jackpot_winner
        &&& a.game_play_count == b.game_play_count
        &&& a.streaks@ == b.streaks@
        &&& a.events@ == b.events@
    }

    /// Creates a fresh contract owned by the deployer: empty stores, fee
    /// disabled at the 50 basis-point default, nothing played yet.
    pub fn new(caller: AccountId) -> (r: NinjaTip)
        ensures
            r.wf(),
            r.owner@ == caller@,
            r.fee_enabled == false,
            r.fee_rate == 50,
            r.accumulated_fees == 0,
            r.jackpot_pool == 0,
            r.last_jackpot_winner is None,
            r.game_play_count == 0,
            r.balances@ == Map::<Seq<u8>, Balance>::empty(),
            r.last_activity@ == Map::<Seq<u8>, u64>::empty(),
            r.username_registry@ == Map::<Seq<char>, AccountId>::empty(),
            r.streaks@ == Map::<Seq<u8>, (u64, u32)>::empty(),
            r.events@ == Seq::<Event>::empty(),
    {
        NinjaTip {
            balances: Table::new(),
            last_activity: Table::new(),
            owner: caller,
            fee_enabled: false,
            fee_rate: 50,
            accumulated_fees: 0,
            username_registry: Table::new(),
            jackpot_pool: 0,
            last_jackpot_winner: None,
            game_play_count: 0,
            streaks: Table::new(),
            events: Vec::new(),
        }
    }

    /// Derives the stealth address of a `(username, salt)` pair: the
    /// blake2b-256 digest of the username's UTF-8 bytes followed by the
    /// raw salt bytes.
    pub fn derive_stealth_address(username: &String, salt: &[u8; 32]) -> (r: AccountId)
        ensures
            r@ == stealth_of(username@, salt@),
    {
        let mut input: Vec<u8> = username.as_str().as_bytes_vec();
        let mut i: usize = 0;
        while i < 32
            invariant
                i <= 32,
                input@ == encode_utf8(username@) + salt@.take(i as int),
            decreases 32 - i,
        {
            input.push(salt[i]);
            proof {
                assert(salt@.take(i + 1) =~= salt@.take(i as int).push(salt@[i as int]));
                assert(input@ =~= encode_utf8(username@) + salt@.take(i + 1));
            }
            i += 1;
        }
        proof {
            assert(salt@.take(32) =~= salt@);
            assert(input@ =~= encode_utf8(username@) + salt@);
        }
        let digest = blake2_256(input.as_slice());
        AccountId { bytes: digest }
    }

    /// Whether the fee mechanism is on.
    pub fn get_fee_enabled(&self) -> (r: bool)
        ensures
            r == self.fee_enabled,
    {
        self.fee_enabled
    }

    /// The current fee rate in basis points.
    pub fn get_fee_rate(&self) -> (r: u8)
        ensures
            r == self.fee_rate,
    {
        self.fee_rate
    }

    /// Fees accumulated and not yet collected.
    pub fn get_accumulated_fees(&self) -> (r: Balance)
        ensures
            r == self.accumulated_fees,
    {
        self.accumulated_fees
    }

    /// The current jackpot pool.
    pub fn get_jackpot_pool(&self) -> (r: Balance)
        ensures
            r == self.jackpot_pool,
    {
        self.jackpot_pool
    }

    /// The last jackpot winner, if anyone has won yet.
    pub fn get_last_jackpot_winner(&self) -> (r: Option<AccountId>)
        ensures
            r == self.last_jackpot_winner,
    {
        self.last_jackpot_winner
    }

    /// How many gamified plays have happened.
    pub fn get_game_play_count(&self) -> (r: u64)
        ensures
            r == self.game_play_count,
    {
        self.game_play_count
    }

    /// The `(last played, streak)` record of an account, `(0, 0)` if it
    /// never played.
    pub fn get_streak(&self, account: AccountId) -> (r: (u64, u32))
        requires
            self.wf(),
        ensures
            r == self.streak_of(account@),
    {
        match self.streaks.get(&account) {
            Some(p) => p,
            None => (0, 0),
        }
    }

    /// The identity a username is registered to, if any.
    pub fn get_username_owner(&self, username: String) -> (r: Option<AccountId>)
        requires
            self.wf(),
        ensures
            r == self.registered_owner(username@),
    {
        self.username_registry.get(&username)
    }

    /// The balance held for the stealth address of `(username, salt)`.
    pub fn get_stealth_balance(&self, username: String, salt: [u8; 32]) -> (r: Balance)
        requires
            self.wf(),
        ensures
            r == self.bal_of(stealth_of(username@, salt@)),
    {
        let stealth_address = Self::derive_stealth_address(&username, &salt);
        match self.balances.get(&stealth_address) {
            Some(b) => b,
            None => 0,
        }
    }

    /// What `tip` does: a too-long username or a zero value is rejected
    /// with nothing changed; otherwise the fee — zero while the mechanism
    /// is off — goes to the accumulated fees, the rest is credited to the
    /// stealth address, the address's activity marker is set, and a
    /// `TipReceived` record is appended.
    pub open spec fn tip_post(
        pre: NinjaTip,
        post: NinjaTip,
        username: Seq<char>,
        salt: Seq<u8>,
        amount: Balance,
        height: u64,
        r: Result<(), Error>,
    ) -> bool {
        let addr = stealth_of(username, salt);
        let fee = if pre.fee_enabled {
            fee_of(amount, pre.fee_rate)
        } else {
            0
        };
        let tip_amount = (amount - fee) as Balance;
        if encode_utf8(username).len() > MAX_USERNAME_BYTES {
            r == Err::<(), Error>(Error::UsernameTooLong) && Self::state_eq(pre, post)
        } else if amount == 0 {
            r == Err::<(), Error>(Error::InvalidAmount) && Self::state_eq(pre, post)
        } else {
            &&& r == Ok::<(), Error>(())
            &&& post.balances@ == pre.balances@.insert(addr, sat_add(pre.bal_of(addr), tip_amount))
            &&& post.last_activity@ == pre.last_activity@.insert(addr, height)
            &&& post.accumulated_fees == sat_add(pre.accumulated_fees, fee)
            &&& post.events@.len() == pre.events@.len() + 1
            &&& pre.events@ == post.events@.take(pre.events@.len() as int)
            &&& (post.events@.last() matches Event::Tip(e)
                && e.username@ == username
                && e.amount == tip_amount
                && e.stealth_address@ == addr
                && e.fee == fee)
            &&& post.owner@ == pre.owner@
            &&& post.fee_enabled == pre.fee_enabled
            &&& post.fee_rate == pre.fee_rate
            &&& post.username_registry@ == pre.username_registry@
            &&& post.jackpot_pool == pre.jackpot_pool
            &&& post.last_jackpot_winner == pre.last_jackpot_winner
            &&& post.game_play_count == pre.game_play_count
            &&& post.streaks@ == pre.streaks@
        }
    }

    /// Sends a tip of `amount` to the stealth address of `(username,
    /// salt)`, taking the basis-point fee if the mechanism is on.
    /// `amount` is the value the host received with the call and `height`
    /// the current block height.
    pub fn tip(&mut self, username: String, salt: [u8; 32], amount: Balance, height: u64) -> (r:
        Result<(), Error>)
        requires
            old(self).wf(),
        ensures
            final(self).wf(),
            Self::tip_post(*old(self), *final(self), username@, salt@, amount, height, r),
    {
        if username.as_str().as_bytes().len() > MAX_USERNAME_BYTES {
            return Err(Error::UsernameTooLong);
        }
        if amount == 0 {
            return Err(Error::InvalidAmount);
        }
        let stealth_address = Self::derive_stealth_address(&username, &salt);
        let fee: Balance = if self.fee_enabled {
            compute_fee(amount, self.fee_rate)
        } else {
            0
        };
        let tip_amount = amount - fee;
        let current = match self.balances.get(&stealth_address) {
            Some(b) => b,
            None => 0,
        };
        let new_balance = sat_add_exec(current, tip_amount);
        self.balances.insert(stealth_address, new_balance);
        self.last_activity.insert(stealth_address, height);
        if fee > 0 {
            self.accumulated_fees = sat_add_exec(self.accumulated_fees, fee);
        }
        self.events.push(
            Event::Tip(TipReceived { username, amount: tip_amount, stealth_address, fee }),
        );
        proof {
            assert(self.events@.take(old(self).events@.len() as int) =~= old(self).events@);
        }
        Ok(())
    }

    /// What `set_fee_enabled` does: a non-owner is rejected with nothing
    /// changed; otherwise the flag is set and a `FeeToggled` record is
    /// appended.
    pub open spec fn set_fee_enabled_post(
        pre: NinjaTip,
        post: NinjaTip,
        caller: AccountId,
        enabled: bool,
        r: Result<(), Error>,
    ) -> bool {
        if caller@ != pre.owner@ {
            r == Err::<(), Error>(Error::NotOwner) && Self::state_eq(pre, post)
        } else {
            &&& r == Ok::<(), Error>(())
            &&& post.fee_enabled == enabled
            &&& post.events@.len() == pre.events@.len() + 1
            &&& pre.events@ == post.events@.take(pre.events@.len() as int)
            &&& (post.events@.last() matches Event::FeeToggle(e) && e.enabled == enabled)
            &&& post.balances@ == pre.balances@
            &&& post.last_activity@ == pre.last_activity@
            &&& post.owner@ == pre.owner@
            &&& post.fee_rate == pre.fee_rate
            &&& post.accumulated_fees == pre.accumulated_fees
            &&& post.username_registry@ == pre.username_registry@
            &&& post.jackpot_pool == pre.jackpot_pool
            &&& post.last_jackpot_winner == pre.last_jackpot_winner
            &&& post.game_play_count == pre.game_play_count
            &&& post.streaks@ == pre.streaks@
        }
    }

    /// Turns the fee mechanism on or off.  Owner only.
    pub fn set_fee_enabled(&mut self, caller: AccountId, enabled: bool) -> (r: Result<(), Error>)
        requires
            old(self).wf(),
        ensures
            final(self).wf(),
            Self::set_fee_enabled_post(*old(self), *final(self), caller, enabled, r),
    {
        if !caller.eq_bytes(&self.owner) {
            return Err(Error::NotOwner);
        }
        self.fee_enabled = enabled;
        self.events.push(Event::FeeToggle(FeeToggled { enabled }));
        proof {
            assert(self.events@.take(old(self).events@.len() as int) =~= old(self).events@);
        }
        Ok(())
    }

    /// What `set_fee_rate` does: a non-owner is rejected, a rate outside
    /// 50 to 100 basis points is rejected, and otherwise the rate is set
    /// with nothing else changed.
    pub open spec fn set_fee_rate_post(
        pre: NinjaTip,
        post: NinjaTip,
        caller: AccountId,
        rate: u8,
        r: Result<(), Error>,
    ) -> bool {
        if caller@ != pre.owner@ {
            r == Err::<(), Error>(Error::NotOwner) && Self::state_eq(pre, post)
        } else if rate < 50 || rate > 100 {
            r == Err::<(), Error>(Error::InvalidFeeRate) && Self::state_eq(pre, post)
        } else {
            &&& r == Ok::<(), Error>(())
            &&& post.fee_rate == rate
            &&& post.balances@ == pre.balances@
            &&& post.last_activity@ == pre.last_activity@
            &&& post.owner@ == pre.owner@
            &&& post.fee_enabled == pre.fee_enabled
            &&& post.accumulated_fees == pre.accumulated_fees
            &&& post.username_registry@ == pre.username_registry@
            &&& post.jackpot_pool == pre.jackpot_pool
            &&& post.last_jackpot_winner == pre.last_jackpot_winner
            &&& post.game_play_count == pre.game_play_count
            &&& post.streaks@ == pre.streaks@
            &&& post.events@ == pre.events@
        }
    }

    /// Sets the fee rate in basis points; only rates from 50 to 100 are
    /// accepted.  Owner only.
    pub fn set_fee_rate(&mut self, caller: AccountId, rate: u8) -> (r: Result<(), Error>)
        requires
            old(self).wf(),
        ensures
            final(self).wf(),
            Self::set_fee_rate_post(*old(self), *final(self), caller, rate, r),
    {
        if !caller.eq_bytes(&self.owner) {
            return Err(Error::NotOwner);
        }
        if rate < 50 || rate > 100 {
            return Err(Error::InvalidFeeRate);
        }
        self.fee_rate = rate;
        Ok(())
    }

    /// What `collect_fees` does: a non-owner is rejected; with nothing
    /// accumulated, or when the host reports the payout failed, the call
    /// fails with `NoFunds` and nothing changes; otherwise the
    /// accumulated fees are zeroed and a `FeeCollected` record is
    /// appended.
    pub open spec fn collect_fees_post(
        pre: NinjaTip,
        post: NinjaTip,
        caller: AccountId,
        send_ok: bool,
        r: Result<(), Error>,
    ) -> bool {
        if caller@ != pre.owner@ {
            r == Err::<(), Error>(Error::NotOwner) && Self::state_eq(pre, post)
        } else if pre.accumulated_fees == 0 {
            r == Err::<(), Error>(Error::NoFunds) && Self::state_eq(pre, post)
        } else if !send_ok {
            r == Err::<(), Error>(Error::NoFunds) && Self::state_eq(pre, post)
        } else {
            &&& r == Ok::<(), Error>(())
            &&& post.accumulated_fees == 0
            &&& post.events@.len() == pre.events@.len() + 1
            &&& pre.events@ == post.events@.take(pre.events@.len() as int)
            &&& (post.events@.last() matches Event::FeeCollect(e)
                && e.amount == pre.accumulated_fees)
            &&& post.balances@ == pre.balances@
            &&& post.last_activity@ == pre.last_activity@
            &&& post.owner@ == pre.owner@
            &&& post.fee_enabled == pre.fee_enabled
            &&& post.fee_rate == pre.fee_rate
            &&& post.username_registry@ == pre.username_registry@
            &&& post.jackpot_pool == pre.jackpot_pool
            &&& post.last_jackpot_winner == pre.last_jackpot_winner
            &&& post.game_play_count == pre.game_play_count
            &&& post.streaks@ == pre.streaks@
        }
    }

    /// Pays the accumulated fees out to the owner.  The books are zeroed
    /// before the host transfer is treated as done, and restored whole if
    /// the host reports it failed (`send_ok` is that report).  Owner only.
    pub fn collect_fees(&mut self, caller: AccountId, send_ok: bool) -> (r: Result<(), Error>)
        requires
            old(self).wf(),
        ensures
            final(self).wf(),
            Self::collect_fees_post(*old(self), *final(self), caller, send_ok, r),
    {
        if !caller.eq_bytes(&self.owner) {
            return Err(Error::NotOwner);
        }
        let fees = self.accumulated_fees;
        if fees == 0 {
            return Err(Error::NoFunds);
        }
        if !send_ok {
            return Err(Error::NoFunds);
        }
        self.accumulated_fees = 0;
        self.events.push(Event::FeeCollect(FeeCollected { amount: fees }));
        proof {
            assert(self.events@.take(old(self).events@.len() as int) =~= old(self).events@);
        }
        Ok(())
    }

    /// What `sweep_inactive` does: a non-owner is rejected; for the owner
    /// it is a documented stub that changes nothing, since the host's
    /// keyed storage offers no way to walk all stealth addresses.
    pub open spec fn sweep_inactive_post(
        pre: NinjaTip,
        post: NinjaTip,
        caller: AccountId,
        r: Result<(), Error>,
    ) -> bool {
        if caller@ != pre.owner@ {
            r == Err::<(), Error>(Error::NotOwner) && Self::state_eq(pre, post)
        } else {
            r == Ok::<(), Error>(()) && Self::state_eq(pre, post)
        }
    }

    /// Sweeps long-inactive balances.  Owner only; currently a stub that
    /// performs no sweep, kept so the surface matches its intent.
    pub fn sweep_inactive(&mut self, caller: AccountId) -> (r: Result<(), Error>)
        requires
            old(self).wf(),
        ensures
            final(self).wf(),
            Self::sweep_inactive_post(*old(self), *final(self), caller, r),
    {
        if !caller.eq_bytes(&self.owner) {
            return Err(Error::NotOwner);
        }
        Ok(())
    }

    /// What `register_username` does: a too-long username, a name already
    /// registered, or a payment below the fixed cost is rejected with
    /// nothing changed; otherwise the name is bound to the payer, the
    /// full payment joins the accumulated fees, and a
    /// `UsernameRegistered` record is appended.
    pub open spec fn register_post(
        pre: NinjaTip,
        post: NinjaTip,
        username: Seq<char>,
        caller: AccountId,
        transferred: Balance,
        r: Result<(), Error>,
    ) -> bool {
        if encode_utf8(username).len() > MAX_USERNAME_BYTES {
            r == Err::<(), Error>(Error::UsernameTooLong) && Self::state_eq(pre, post)
        } else if pre.username_registry@.dom().contains(username) {
            r == Err::<(), Error>(Error::UsernameTaken) && Self::state_eq(pre, post)
        } else if transferred < REGISTRATION_COST {
            r == Err::<(), Error>(Error::InsufficientPayment) && Self::state_eq(pre, post)
        } else {
            &&& r == Ok::<(), Error>(())
            &&& post.username_registry@ == pre.username_registry@.insert(username, caller)
            &&& post.accumulated_fees == sat_add(pre.accumulated_fees, transferred)
            &&& post.events@.len() == pre.events@.len() + 1
            &&& pre.events@ == post.events@.take(pre.events@.len() as int)
            &&& (post.events@.last() matches Event::Registration(e)
                && e.username@ == username
                && e.owner@ == caller@
                && e.cost == transferred)
            &&& post.balances@ == pre.balances@
            &&& post.last_activity@ == pre.last_activity@
            &&& post.owner@ == pre.owner@
            &&& post.fee_enabled == pre.fee_enabled
            &&& post.fee_rate == pre.fee_rate
            &&& post.jackpot_pool == pre.jackpot_pool
            &&& post.last_jackpot_winner == pre.last_jackpot_winner
            &&& post.game_play_count == pre.game_play_count
            &&& post.streaks@ == pre.streaks@
        }
    }

    /// Registers `username` to `caller` against a payment of
    /// `transferred` (the value the host received with the call), which
    /// accrues to the owner's fees.
    pub fn register_username(
        &mut self,
        username: String,
        caller: AccountId,
        transferred: Balance,
    ) -> (r: Result<(), Error>)
        requires
            old(self).wf(),
        ensures
            final(self).wf(),
            Self::register_post(*old(self), *final(self), username@, caller, transferred, r),
    {
        if username.as_str().as_bytes().len() > MAX_USERNAME_BYTES {
            return Err(Error::UsernameTooLong);
        }
        if self.username_registry.contains_key(&username) {
            return Err(Error::UsernameTaken);
        }
        if transferred < REGISTRATION_COST {
            return Err(Error::InsufficientPayment);
        }
        self.username_registry.insert(username.clone(), caller);
        self.accumulated_fees = sat_add_exec(self.accumulated_fees, transferred);
        self.events.push(
            Event::Registration(UsernameRegistered { username, owner: caller, cost: transferred }),
        );
        proof {
            assert(self.events@.take(old(self).events@.len() as int) =~= old(self).events@);
        }
        Ok(())
    }

    /// What `withdraw` does: with no balance at the stealth address, or
    /// when the host reports the payout failed, the call fails with
    /// `NoFunds` and nothing changes; otherwise the balance is zeroed,
    /// the activity marker is set and a `Withdrawn` record is appended.
    pub open spec fn withdraw_post(
        pre: NinjaTip,
        post: NinjaTip,
        username: Seq<char>,
        salt: Seq<u8>,
        height: u64,
        send_ok: bool,
        r: Result<(), Error>,
    ) -> bool {
        let addr = stealth_of(username, salt);
        let bal = pre.bal_of(addr);
        if bal == 0 {
            r == Err::<(), Error>(Error::NoFunds) && Self::state_eq(pre, post)
        } else if !send_ok {
            r == Err::<(), Error>(Error::NoFunds) && Self::state_eq(pre, post)
        } else {
            &&& r == Ok::<(), Error>(())
            &&& post.balances@ == pre.balances@.insert(addr, 0)
            &&& post.bal_of(addr) == 0
            &&& post.last_activity@ == pre.last_activity@.insert(addr, height)
            &&& post.events@.len() == pre.events@.len() + 1
            &&& pre.events@ == post.events@.take(pre.events@.len() as int)
            &&& (post.events@.last() matches Event::Withdraw(e)
                && e.username@ == username
                && e.amount == bal
                && e.stealth_address@ == addr)
            &&& post.owner@ == pre.owner@
            &&& post.fee_enabled == pre.fee_enabled
            &&& post.fee_rate == pre.fee_rate
            &&& post.accumulated_fees == pre.accumulated_fees
            &&& post.username_registry@ == pre.username_registry@
            &&& post.jackpot_pool == pre.jackpot_pool
            &&& post.last_jackpot_winner == pre.last_jackpot_winner
            &&& post.game_play_count == pre.game_play_count
            &&& post.streaks@ == pre.streaks@
        }
    }

    /// Withdraws the whole balance of the stealth address of `(username,
    /// salt)` to the caller.  The balance is zeroed before the host
    /// transfer is treated as done, and restored whole if the host
    /// reports it failed (`send_ok` is that report), so a repeated or
    /// failed withdrawal can never pay twice.
    pub fn withdraw(
        &mut self,
        username: String,
        salt: [u8; 32],
        height: u64,
        send_ok: bool,
    ) -> (r: Result<(), Error>)
        requires
            old(self).wf(),
        ensures
            final(self).wf(),
            Self::withdraw_post(*old(self), *final(self), username@, salt@, height, send_ok, r),
    {
        let stealth_address = Self::derive_stealth_address(&username, &salt);
        let balance = match self.balances.get(&stealth_address) {
            Some(b) => b,
            None => 0,
        };
        if balance == 0 {
            return Err(Error::NoFunds);
        }
        if !send_ok {
            return Err(Error::NoFunds);
        }
        self.balances.insert(stealth_address, 0);
        self.last_activity.insert(stealth_address, height);
        self.events.push(
            Event::Withdraw(Withdrawn { username, amount: balance, stealth_address }),
        );
        proof {
            assert(self.events@.take(old(self).events@.len() as int) =~= old(self).events@);
        }
        Ok(())
    }

    /// What `settle_jackpot` does: with an empty pool, or when the host
    /// reports the payout failed, nothing changes and nothing is owed;
    /// otherwise the pool is split — a tenth to the owner's fees, the
    /// rest owed to the winner — the pool is zeroed, the winner is
    /// recorded and a `JackpotWon` record is appended, all in one step,
    /// so the pool and the fee ledger can never drift apart.
    pub open spec fn settle_post(
        pre: NinjaTip,
        post: NinjaTip,
        caller: AccountId,
        payout_ok: bool,
        r: Option<(Balance, Balance)>,
    ) -> bool {
        let pool = pre.jackpot_pool;
        let owner_fee = (pool / 10) as Balance;
        let winner_amount = (pool - owner_fee) as Balance;
        if pool == 0 || !payout_ok {
            r is None && Self::state_eq(pre, post)
        } else {
            &&& r == Some((winner_amount, owner_fee))
            &&& winner_amount + owner_fee == pool
            &&& post.jackpot_pool == 0
            &&& post.last_jackpot_winner == Some(caller)
            &&& post.accumulated_fees == sat_add(pre.accumulated_fees, owner_fee)
            &&& post.events@.len() == pre.events@.len() + 1
            &&& pre.events@ == post.events@.take(pre.events@.len() as int)
            &&& (post.events@.last() matches Event::Jackpot(e)
                && e.winner@ == caller@
                && e.amount == winner_amount
                && e.owner_fee == owner_fee)
            &&& post.balances@ == pre.balances@
            &&& post.last_activity@ == pre.last_activity@
            &&& post.owner@ == pre.owner@
            &&& post.fee_enabled == pre.fee_enabled
            &&& post.fee_rate == pre.fee_rate
            &&& post.username_registry@ == pre.username_registry@
            &&& post.game_play_count == pre.game_play_count
            &&& post.streaks@ == pre.streaks@
        }
    }

    /// Pays the jackpot out to `caller` after a winning draw.  `payout_ok`
    /// is the host's report on the winner's transfer; on failure the pool
    /// and the last-winner record keep their prior values.  Returns the
    /// `(winner amount, owner fee)` split when the payout went through.
    pub fn settle_jackpot(&mut self, caller: AccountId, payout_ok: bool) -> (r: Option<
        (Balance, Balance),
    >)
        requires
            old(self).wf(),
        ensures
            final(self).wf(),
            Self::settle_post(*old(self), *final(self), caller, payout_ok, r),
    {
        let total_jackpot = self.jackpot_pool;
        if total_jackpot == 0 {
            return None;
        }
        if !payout_ok {
            return None;
        }
        let owner_fee = total_jackpot / 10;
        proof {
            assert(total_jackpot / 10 <= total_jackpot) by (nonlinear_arith);
        }
        let winner_amount = total_jackpot - owner_fee;
        self.jackpot_pool = 0;
        self.last_jackpot_winner = Some(caller);
        self.accumulated_fees = sat_add_exec(self.accumulated_fees, owner_fee);
        self.events.push(
            Event::Jackpot(JackpotWon { winner: caller, amount: winner_amount, owner_fee }),
        );
        proof {
            assert(self.events@.take(old(self).events@.len() as int) =~= old(self).events@);
        }
        Some((winner_amount, owner_fee))
    }

    /// Credits `amount` to a stealth address, leaving the balance
    /// unchanged instead of overflowing it.
    fn credit(&mut self, stealth_address: AccountId, amount: Balance)
        requires
            old(self).balances.wf(),
        ensures
            final(self).balances.wf(),
            final(self).balances@ == old(self).balances@.insert(
                stealth_address@,
                sat_add(old(self).bal_of(stealth_address@), amount),
            ),
            final(self).last_activity == old(self).last_activity,
            final(self).owner == old(self).owner,
            final(self).fee_enabled == old(self).fee_enabled,
            final(self).fee_rate == old(self).fee_rate,
            final(self).accumulated_fees == old(self).accumulated_fees,
            final(self).username_registry == old(self).username_registry,
            final(self).jackpot_pool == old(self).jackpot_pool,
            final(self).last_jackpot_winner == old(self).last_jackpot_winner,
            final(self).game_play_count == old(self).game_play_count,
            final(self).streaks == old(self).streaks,
            final(self).events == old(self).events,
    {
        let current = match self.balances.get(&stealth_address) {
            Some(b) => b,
            None => 0,
        };
        let new_balance = sat_add_exec(current, amount);
        self.balances.insert(stealth_address, new_balance);
    }

    /// Renews the caller's streak record for a play at `timestamp` and
    /// returns the streak the play reached.
    fn apply_streak(&mut self, caller: AccountId, timestamp: u64) -> (ns: u32)
        requires
            old(self).wf(),
        ensures
            final(self).wf(),
            ns == next_streak(
                old(self).streak_of(caller@).0,
                old(self).streak_of(caller@).1,
                timestamp,
            ),
            1 <= ns <= MAX_STREAK,
            final(self).streaks@ == old(self).streaks@.insert(caller@, (timestamp, ns)),
            final(self).balances == old(self).balances,
            final(self).last_activity == old(self).last_activity,
            final(self).owner == old(self).owner,
            final(self).fee_enabled == old(self).fee_enabled,
            final(self).fee_rate == old(self).fee_rate,
            final(self).accumulated_fees == old(self).accumulated_fees,
            final(self).username_registry == old(self).username_registry,
            final(self).jackpot_pool == old(self).jackpot_pool,
            final(self).last_jackpot_winner == old(self).last_jackpot_winner,
            final(self).game_play_count == old(self).game_play_count,
            final(self).events == old(self).events,
    {
        let prev = match self.streaks.get(&caller) {
            Some(p) => p,
            None => (0u64, 0u32),
        };
        let last_played = prev.0;
        let current_streak = prev.1;
        let mut new_streak: u32 = 1;
        if last_played > 0 && timestamp > last_played && timestamp - last_played
            < STREAK_WINDOW_MS {
            proof {
                assert(old(self).streaks@.dom().contains(caller@));
            }
            new_streak = current_streak + 1;
            if new_streak > MAX_STREAK {
                new_streak = MAX_STREAK;
            }
        }
        self.streaks.insert(caller, (timestamp, new_streak));
        proof {
            assert forall|k: Seq<u8>| #[trigger] self.streaks@.dom().contains(k) implies 1
                <= self.streaks@[k].1 <= MAX_STREAK by {
                if k != caller@ {
                    assert(old(self).streaks@.dom().contains(k));
                }
            }
        }
        new_streak
    }

    /// What `tip_and_play` does.  A too-long username or a zero value is
    /// rejected with nothing changed, as is a registered recipient whose
    /// direct transfer the host reports failed.  Otherwise one percent of
    /// the value joins the jackpot pool and the rest goes to the
    /// registered recipient directly — or is credited to the stealth
    /// address when the name is unregistered; the caller's streak record
    /// is renewed; the play counter advances with wraparound; the draw
    /// seeded by `(timestamp, height, play counter, caller, streak)` wins
    /// when it falls below ten times the streak, in which case the
    /// jackpot is settled as `settle_jackpot` says; and the records of
    /// what happened are appended in order.
    pub open spec fn play_post(
        pre: NinjaTip,
        post: NinjaTip,
        username: Seq<char>,
        salt: Seq<u8>,
        caller: AccountId,
        amount: Balance,
        timestamp: u64,
        height: u64,
        direct_ok: bool,
        payout_ok: bool,
        r: Result<(), Error>,
    ) -> bool {
        let registered = pre.username_registry@.dom().contains(username);
        if encode_utf8(username).len() > MAX_USERNAME_BYTES {
            r == Err::<(), Error>(Error::UsernameTooLong) && Self::state_eq(pre, post)
        } else if amount == 0 {
            r == Err::<(), Error>(Error::InvalidAmount) && Self::state_eq(pre, post)
        } else if registered && !direct_ok {
            r == Err::<(), Error>(Error::TransferFailed) && Self::state_eq(pre, post)
        } else {
            r == Ok::<(), Error>(()) && Self::play_ok_post(
                pre,
                post,
                username,
                salt,
                caller,
                amount,
                timestamp,
                height,
                payout_ok,
            )
        }
    }

    /// The committed part of `tip_and_play`, once the inputs have passed
    /// validation and any direct transfer has gone through.
    pub open spec fn play_ok_post(
        pre: NinjaTip,
        post: NinjaTip,
        username: Seq<char>,
        salt: Seq<u8>,
        caller: AccountId,
        amount: Balance,
        timestamp: u64,
        height: u64,
        payout_ok: bool,
    ) -> bool {
        let jackpot_fee = fee_of(amount, JACKPOT_CONTRIBUTION_BPS);
        let tip_amount = (amount - jackpot_fee) as Balance;
        let registered = pre.username_registry@.dom().contains(username);
        let addr = stealth_of(username, salt);
        let pool1 = sat_add(pre.jackpot_pool, jackpot_fee);
        let prev = pre.streak_of(caller@);
        let ns = next_streak(prev.0, prev.1, timestamp);
        let seed = seed_of(timestamp, height, pre.game_play_count, caller@, ns);
        let win = draw_of(seed) < 10 * ns && pool1 > 0;
        let paid = win && payout_ok;
        let owner_fee = (pool1 / 10) as Balance;
        let winner_amount = (pool1 - owner_fee) as Balance;
        {
            &&& post.jackpot_pool == (if paid {
                0
            } else {
                pool1
            })
            &&& post.last_jackpot_winner == (if paid {
                Some(caller)
            } else {
                pre.last_jackpot_winner
            })
            &&& post.accumulated_fees == (if paid {
                sat_add(pre.accumulated_fees, owner_fee)
            } else {
                pre.accumulated_fees
            })
            &&& post.balances@ == (if registered {
                pre.balances@
            } else {
                pre.balances@.insert(addr, sat_add(pre.bal_of(addr), tip_amount))
            })
            &&& post.streaks@ == pre.streaks@.insert(caller@, (timestamp, ns))
            &&& post.game_play_count == wrap_inc(pre.game_play_count)
            &&& post.last_activity@ == pre.last_activity@
            &&& post.username_registry@ == pre.username_registry@
            &&& post.owner@ == pre.owner@
            &&& post.fee_enabled == pre.fee_enabled
            &&& post.fee_rate == pre.fee_rate
            &&& post.events@.len() == pre.events@.len() + (if registered {
                1int
            } else {
                0int
            }) + (if paid {
                1int
            } else {
                0int
            }) + 1
            &&& pre.events@ == post.events@.take(pre.events@.len() as int)
            &&& (post.events@.last() matches Event::Play(e)
                && e.caller@ == caller@
                && e.tip_amount == tip_amount
                && e.jackpot_contribution == jackpot_fee
                && e.streak == ns)
            &&& registered ==> (post.events@[pre.events@.len() as int] matches Event::DirectTip(e)
                && e.username@ == username
                && e.amount == tip_amount
                && e.recipient@ == pre.username_registry@[username]@
                && e.fee == jackpot_fee)
            &&& paid ==> (post.events@[post.events@.len() - 2] matches Event::Jackpot(e)
                && e.winner@ == caller@
                && e.amount == winner_amount
                && e.owner_fee == owner_fee)
        }
    }

    /// Sends a gamified tip of `amount` to `(username, salt)` and enters
    /// the jackpot draw.  `caller`, `amount`, `timestamp` and `height`
    /// are the host's readings for the call; `direct_ok` and `payout_ok`
    /// are the host's reports on the direct-tip transfer and the jackpot
    /// payout, each consulted only when that transfer is requested.
    pub fn tip_and_play(
        &mut self,
        username: String,
        salt: [u8; 32],
        caller: AccountId,
        amount: Balance,
        timestamp: u64,
        height: u64,
        direct_ok: bool,
        payout_ok: bool,
    ) -> (r: Result<(), Error>)
        requires
            old(self).wf(),
        ensures
            final(self).wf(),
            Self::play_post(
                *old(self),
                *final(self),
                username@,
                salt@,
                caller,
                amount,
                timestamp,
                height,
                direct_ok,
                payout_ok,
                r,
            ),
    {
        if username.as_str().as_bytes().len() > MAX_USERNAME_BYTES {
            return Err(Error::UsernameTooLong);
        }
        if amount == 0 {
            return Err(Error::InvalidAmount);
        }
        if self.username_registry.contains_key(&username) && !direct_ok {
            return Err(Error::TransferFailed);
        }
        self.do_play(username, salt, caller, amount, timestamp, height, payout_ok);
        Ok(())
    }

    /// The committed part of `tip_and_play`; see `play_ok_post`.
    #[verifier::rlimit(100)]
    fn do_play(
        &mut self,
        username: String,
        salt: [u8; 32],
        caller: AccountId,
        amount: Balance,
        timestamp: u64,
        height: u64,
        payout_ok: bool,
    )
        requires
            old(self).wf(),
            encode_utf8(username@).len() <= MAX_USERNAME_BYTES,
            amount > 0,
        ensures
            final(self).wf(),
            Self::play_ok_post(
                *old(self),
                *final(self),
                username@,
                salt@,
                caller,
                amount,
                timestamp,
                height,
                payout_ok,
            ),
    {
        let ghost pre = *old(self);
        let ghost uname = username@;
        let jackpot_fee = compute_fee(amount, JACKPOT_CONTRIBUTION_BPS);
        let tip_amount = amount - jackpot_fee;
        let new_streak = self.route_play(username, salt, caller, jackpot_fee, tip_amount,
            timestamp);
        let ghost mid = *self;
        self.finish_play(caller, timestamp, height, payout_ok, tip_amount, jackpot_fee,
            new_streak);
        proof {
            let n0 = pre.events@.len() as int;
            assert forall|i: int| 0 <= i < n0 implies self.events@[i] == pre.events@[i] by {
                assert(mid.events@[i] == pre.events@.index(i));
                assert(self.events@[i] == mid.events@.index(i));
            }
            assert(self.events@.take(n0) =~= pre.events@);
            if pre.username_registry@.dom().contains(uname) {
                assert(mid.events@[n0] == mid.events@.last());
                assert(self.events@[n0] == mid.events@.index(n0));
            }
        }
    }

    /// The first half of a committed play: the jackpot contribution, the
    /// routing of the tip — direct to a registered recipient, otherwise
    /// credited to the stealth address — and the streak renewal.
    pub open spec fn route_post(
        pre: NinjaTip,
        post: NinjaTip,
        username: Seq<char>,
        salt: Seq<u8>,
        caller: AccountId,
        jackpot_fee: Balance,
        tip_amount: Balance,
        timestamp: u64,
        ns: u32,
    ) -> bool {
        let registered = pre.username_registry@.dom().contains(username);
        let addr = stealth_of(username, salt);
        {
            &&& ns == next_streak(
                pre.streak_of(caller@).0,
                pre.streak_of(caller@).1,
                timestamp,
            )
            &&& 1 <= ns <= MAX_STREAK
            &&& post.jackpot_pool == sat_add(pre.jackpot_pool, jackpot_fee)
            &&& post.balances@ == (if registered {
                pre.balances@
            } else {
                pre.balances@.insert(addr, sat_add(pre.bal_of(addr), tip_amount))
            })
            &&& post.streaks@ == pre.streaks@.insert(caller@, (timestamp, ns))
            &&& post.events@.len() == pre.events@.len() + (if registered {
                1int
            } else {
                0int
            })
            &&& pre.events@ == post.events@.take(pre.events@.len() as int)
            &&& registered ==> (post.events@.last() matches Event::DirectTip(e)
                && e.username@ == username
                && e.amount == tip_amount
                && e.recipient@ == pre.username_registry@[username]@
                && e.fee == jackpot_fee)
            &&& post.last_activity@ == pre.last_activity@
            &&& post.username_registry@ == pre.username_registry@
            &&& post.owner@ == pre.owner@
            &&& post.fee_enabled == pre.fee_enabled
            &&& post.fee_rate == pre.fee_rate
            &&& post.accumulated_fees == pre.accumulated_fees
            &&& post.last_jackpot_winner == pre.last_jackpot_winner
            &&& post.game_play_count == pre.game_play_count
        }
    }

    /// Performs the first half of a committed play; see `route_post`.
    #[verifier::rlimit(100)]
    fn route_play(
        &mut self,
        username: String,
        salt: [u8; 32],
        caller: AccountId,
        jackpot_fee: Balance,
        tip_amount: Balance,
        timestamp: u64,
    ) -> (ns: u32)
        requires
            old(self).wf(),
        ensures
            final(self).wf(),
            Self::route_post(
                *old(self),
                *final(self),
                username@,
                salt@,
                caller,
                jackpot_fee,
                tip_amount,
                timestamp,
                ns,
            ),
    {
        let registered = self.username_registry.get(&username);

        self.jackpot_pool = sat_add_exec(self.jackpot_pool, jackpot_fee);

        match registered {
            Some(recipient) => {
                self.events.push(
                    Event::DirectTip(
                        DirectTipSent {
                            username: username.clone(),
                            amount: tip_amount,
                            recipient,
                            fee: jackpot_fee,
                        },
                    ),
                );
            },
            None => {
                let stealth_address = Self::derive_stealth_address(&username, &salt);
                self.credit(stealth_address, tip_amount);
            },
        }

        let ns = self.apply_streak(caller, timestamp);
        proof {
            assert(self.events@.take(old(self).events@.len() as int) =~= old(self).events@);
        }
        ns
    }

    /// The second half of a committed play: the draw seeded by the given
    /// readings, the jackpot settlement on a win, the play counter, and
    /// the `GamePlayed` record.
    pub open spec fn finish_post(
        pre: NinjaTip,
        post: NinjaTip,
        caller: AccountId,
        timestamp: u64,
        height: u64,
        payout_ok: bool,
        tip_amount: Balance,
        jackpot_fee: Balance,
        ns: u32,
    ) -> bool {
        let seed = seed_of(timestamp, height, pre.game_play_count, caller@, ns);
        let win = draw_of(seed) < 10 * ns && pre.jackpot_pool > 0;
        let paid = win && payout_ok;
        let owner_fee = (pre.jackpot_pool / 10) as Balance;
        let winner_amount = (pre.jackpot_pool - owner_fee) as Balance;
        {
            &&& post.jackpot_pool == (if paid {
                0
            } else {
                pre.jackpot_pool
            })
            &&& post.last_jackpot_winner == (if paid {
                Some(caller)
            } else {
                pre.last_jackpot_winner
            })
            &&& post.accumulated_fees == (if paid {
                sat_add(pre.accumulated_fees, owner_fee)
            } else {
                pre.accumulated_fees
            })
            &&& post.game_play_count == wrap_inc(pre.game_play_count)
            &&& post.events@.len() == pre.events@.len() + (if paid {
                1int
            } else {
                0int
            }) + 1
            &&& pre.events@ == post.events@.take(pre.events@.len() as int)
            &&& (post.events@.last() matches Event::Play(e)
                && e.caller@ == caller@
                && e.tip_amount == tip_amount
                && e.jackpot_contribution == jackpot_fee
                && e.streak == ns)
            &&& paid ==> (post.events@[post.events@.len() - 2] matches Event::Jackpot(e)
                && e.winner@ == caller@
                && e.amount == winner_amount
                && e.owner_fee == owner_fee)
            &&& post.balances@ == pre.balances@
            &&& post.last_activity@ == pre.last_activity@
            &&& post.username_registry@ == pre.username_registry@
            &&& post.owner@ == pre.owner@
            &&& post.fee_enabled == pre.fee_enabled
            &&& post.fee_rate == pre.fee_rate
            &&& post.streaks@ == pre.streaks@
        }
    }

    /// Performs the second half of a committed play; see `finish_post`.
    #[verifier::rlimit(100)]
    fn finish_play(
        &mut self,
        caller: AccountId,
        timestamp: u64,
        height: u64,
        payout_ok: bool,
        tip_amount: Balance,
        jackpot_fee: Balance,
        ns: u32,
    )
        requires
            old(self).wf(),
            ns <= MAX_STREAK,
        ensures
            final(self).wf(),
            Self::finish_post(
                *old(self),
                *final(self),
                caller,
                timestamp,
                height,
                payout_ok,
                tip_amount,
                jackpot_fee,
                ns,
            ),
    {
        let win = run_draw(&caller, timestamp, height, self.game_play_count, ns);
        if win {
            let _settled = self.settle_jackpot(caller, payout_ok);
        }

        self.game_play_count = if self.game_play_count == u64::MAX {
            0
        } else {
            self.game_play_count + 1
        };

        self.events.push(
            Event::Play(
                GamePlayed {
                    caller,
                    tip_amount,
                    jackpot_contribution: jackpot_fee,
                    streak: ns,
                },
            ),
        );
        proof {
            let pre = *old(self);
            assert forall|i: int| 0 <= i < pre.events@.len() implies self.events@[i]
                == pre.events@[i] by {}
            assert(self.events@.take(pre.events@.len() as int) =~= pre.events@);
        }
    }
}

} // verus!
