//! The notifications a state-changing operation leaves behind.
//!
//! The host's event sink is outside this crate, so each operation appends
//! its notifications to an event log on the contract state; the embedding
//! program drains the log and forwards the records.

use vstd::prelude::*;

use crate::account::AccountId;

verus! {

/// A tip was credited to a stealth address.
#[derive(Debug, Clone)]
pub struct TipReceived {
    pub username: String,
    pub amount: u128,
    pub stealth_address: AccountId,
    pub fee: u128,
}

/// Funds were withdrawn from a stealth address.
#[derive(Debug, Clone)]
pub struct Withdrawn {
    pub username: String,
    pub amount: u128,
    pub stealth_address: AccountId,
}

/// The fee mechanism was toggled.
#[derive(Debug, Clone)]
pub struct FeeToggled {
    pub enabled: bool,
}

/// The owner collected the accumulated fees.
#[derive(Debug, Clone)]
pub struct FeeCollected {
    pub amount: u128,
}

/// A username was registered.
#[derive(Debug, Clone)]
pub struct UsernameRegistered {
    pub username: String,
    pub owner: AccountId,
    pub cost: u128,
}

/// A gamified tip was sent directly to a registered recipient.
#[derive(Debug, Clone)]
pub struct DirectTipSent {
    pub username: String,
    pub amount: u128,
    pub recipient: AccountId,
    pub fee: u128,
}

/// A user played the tipping game.
#[derive(Debug, Clone)]
pub struct GamePlayed {
    pub caller: AccountId,
    pub tip_amount: u128,
    pub jackpot_contribution: u128,
    pub streak: u32,
}

/// A user won the jackpot.
#[derive(Debug, Clone)]
pub struct JackpotWon {
    pub winner: AccountId,
    pub amount: u128,
    pub owner_fee: u128,
}

/// One entry of the event log.
#[derive(Debug, Clone)]
pub enum Event {
    Tip(TipReceived),
    Withdraw(Withdrawn),
    FeeToggle(FeeToggled),
    FeeCollect(FeeCollected),
    Registration(UsernameRegistered),
    DirectTip(DirectTipSent),
    Play(GamePlayed),
    Jackpot(JackpotWon),
}

} // verus!
