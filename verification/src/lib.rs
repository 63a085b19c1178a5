//! Ledger and game engine for anonymous, username-addressed tipping.
//!
//! Tips are routed to a stealth address derived with blake2-256 from
//! `(username, salt)`, so only someone who knows both can withdraw.  On top of
//! the ledger sit an optional basis-point fee, a paid username registry for
//! direct tips, and a gamification layer: a jackpot pool fed by one percent of
//! every gamified tip, a pseudo-random per-tip draw, and a time-windowed
//! streak that raises the win threshold for rapid consecutive plays.
//!
//! The host chain is kept outside this crate: caller identity, attached
//! value, clock readings and the outcome of each outbound token transfer
//! enter the public operations as plain arguments, and the notifications a
//! host would emit are collected in an event log on the contract state.

pub mod account;
pub mod contract;
pub mod errors;
pub mod events;
pub mod hashing;
pub mod laws;
pub mod table;

pub use account::AccountId;
pub use errors::Error;
pub use events::Event;
