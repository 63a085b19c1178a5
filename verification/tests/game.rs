use ninjatip::account::AccountId;
use ninjatip::contract::{NinjaTip, REGISTRATION_COST};
use ninjatip::errors::Error;
use ninjatip::events::Event;

fn acct(b: u8) -> AccountId {
    AccountId { bytes: [b; 32] }
}

#[test]
fn play_on_unregistered_name_credits_stealth_and_feeds_pool() {
    let mut c = NinjaTip::new(acct(0));
    let player = acct(5);
    let r = c.tip_and_play(String::from("alice"), [0u8; 32], player, 1000, 1_000, 1, true, true);
    assert_eq!(r, Ok(()));
    // One percent of 1000 feeds the pool unless this very play won it.
    let pool_fed = c.get_jackpot_pool() == 10;
    let pool_won = c.get_last_jackpot_winner() == Some(player) && c.get_jackpot_pool() == 0;
    assert!(pool_fed || pool_won);
    assert_eq!(c.get_stealth_balance(String::from("alice"), [0u8; 32]), 990);
    assert_eq!(c.get_game_play_count(), 1);
    match c.events.last() {
        Some(Event::Play(e)) => {
            assert_eq!(e.caller, player);
            assert_eq!(e.tip_amount, 990);
            assert_eq!(e.jackpot_contribution, 10);
            assert_eq!(e.streak, 1);
        }
        other => panic!("expected a play event, got {:?}", other),
    }
}

#[test]
fn play_on_registered_name_routes_directly() {
    let mut c = NinjaTip::new(acct(0));
    let bob = acct(2);
    let player = acct(5);
    assert_eq!(c.register_username(String::from("bob"), bob, REGISTRATION_COST), Ok(()));
    let r = c.tip_and_play(String::from("bob"), [0u8; 32], player, 2000, 1_000, 1, true, true);
    assert_eq!(r, Ok(()));
    // Nothing lands on the stealth ledger: the tip went to bob directly.
    assert_eq!(c.get_stealth_balance(String::from("bob"), [0u8; 32]), 0);
    let direct = c
        .events
        .iter()
        .find(|e| matches!(e, Event::DirectTip(_)))
        .expect("expected a direct-tip event");
    match direct {
        Event::DirectTip(e) => {
            assert_eq!(e.recipient, bob);
            assert_eq!(e.amount, 1980);
            assert_eq!(e.fee, 20);
        }
        _ => unreachable!(),
    }
}

#[test]
fn play_to_registered_name_fails_whole_when_transfer_fails() {
    let mut c = NinjaTip::new(acct(0));
    let bob = acct(2);
    assert_eq!(c.register_username(String::from("bob"), bob, REGISTRATION_COST), Ok(()));
    let pool_before = c.get_jackpot_pool();
    let count_before = c.get_game_play_count();
    let r = c.tip_and_play(String::from("bob"), [0u8; 32], acct(5), 2000, 1_000, 1, false, true);
    assert_eq!(r, Err(Error::TransferFailed));
    assert_eq!(c.get_jackpot_pool(), pool_before);
    assert_eq!(c.get_game_play_count(), count_before);
}

#[test]
fn play_validates_inputs() {
    let mut c = NinjaTip::new(acct(0));
    let r = c.tip_and_play(String::from("alice"), [0u8; 32], acct(5), 0, 1_000, 1, true, true);
    assert_eq!(r, Err(Error::InvalidAmount));
    let long = "x".repeat(65);
    let r2 = c.tip_and_play(long, [0u8; 32], acct(5), 100, 1_000, 1, true, true);
    assert_eq!(r2, Err(Error::UsernameTooLong));
}

#[test]
fn streak_grows_within_window_and_caps() {
    let mut c = NinjaTip::new(acct(0));
    let player = acct(5);
    let mut t: u64 = 1_000;
    for expected in [1u32, 2, 3, 4, 5, 5] {
        let r = c.tip_and_play(String::from("alice"), [0u8; 32], player, 100, t, 1, true, true);
        assert_eq!(r, Ok(()));
        let (last_played, streak) = c.get_streak(player);
        assert_eq!(last_played, t);
        assert_eq!(streak, expected);
        t += 100_000; // within the 600000 ms window
    }
}

#[test]
fn streak_resets_after_window() {
    let mut c = NinjaTip::new(acct(0));
    let player = acct(5);
    assert_eq!(
        c.tip_and_play(String::from("alice"), [0u8; 32], player, 100, 1_000, 1, true, true),
        Ok(())
    );
    assert_eq!(
        c.tip_and_play(String::from("alice"), [0u8; 32], player, 100, 101_000, 1, true, true),
        Ok(())
    );
    assert_eq!(c.get_streak(player).1, 2);
    // The next play comes 600000 ms after the previous one: reset to 1.
    assert_eq!(
        c.tip_and_play(String::from("alice"), [0u8; 32], player, 100, 701_000, 1, true, true),
        Ok(())
    );
    assert_eq!(c.get_streak(player).1, 1);
}

#[test]
fn streaks_are_tracked_per_caller() {
    let mut c = NinjaTip::new(acct(0));
    assert_eq!(
        c.tip_and_play(String::from("alice"), [0u8; 32], acct(5), 100, 1_000, 1, true, true),
        Ok(())
    );
    assert_eq!(
        c.tip_and_play(String::from("alice"), [0u8; 32], acct(6), 100, 2_000, 1, true, true),
        Ok(())
    );
    assert_eq!(c.get_streak(acct(5)).1, 1);
    assert_eq!(c.get_streak(acct(6)).1, 1);
    assert_eq!(c.get_streak(acct(7)), (0, 0));
}

#[test]
fn jackpot_payout_is_atomic() {
    let mut c = NinjaTip::new(acct(0));
    let player = acct(5);
    // Feed the pool, then settle a simulated winning draw.
    assert_eq!(
        c.tip_and_play(String::from("alice"), [0u8; 32], player, 10_000, 1_000, 1, true, false),
        Ok(())
    );
    let pool_before = c.get_jackpot_pool();
    assert_eq!(pool_before, 100);
    let fees_before = c.get_accumulated_fees();
    let settled = c.settle_jackpot(player, true);
    let (winner_amount, owner_fee) = settled.expect("a funded win pays out");
    assert_eq!(owner_fee, pool_before / 10);
    assert_eq!(winner_amount + owner_fee, pool_before);
    assert_eq!(c.get_jackpot_pool(), 0);
    assert_eq!(c.get_last_jackpot_winner(), Some(player));
    assert_eq!(c.get_accumulated_fees(), fees_before + owner_fee);
    match c.events.last() {
        Some(Event::Jackpot(e)) => {
            assert_eq!(e.winner, player);
            assert_eq!(e.amount, winner_amount);
            assert_eq!(e.owner_fee, owner_fee);
        }
        other => panic!("expected a jackpot event, got {:?}", other),
    }
}

#[test]
fn failed_jackpot_payout_restores_everything() {
    let mut c = NinjaTip::new(acct(0));
    let player = acct(5);
    assert_eq!(
        c.tip_and_play(String::from("alice"), [0u8; 32], player, 10_000, 1_000, 1, true, false),
        Ok(())
    );
    let pool_before = c.get_jackpot_pool();
    let fees_before = c.get_accumulated_fees();
    let events_before = c.events.len();
    assert_eq!(c.settle_jackpot(player, false), None);
    assert_eq!(c.get_jackpot_pool(), pool_before);
    assert_eq!(c.get_last_jackpot_winner(), None);
    assert_eq!(c.get_accumulated_fees(), fees_before);
    assert_eq!(c.events.len(), events_before);
}

#[test]
fn empty_pool_cannot_be_won() {
    let mut c = NinjaTip::new(acct(0));
    assert_eq!(c.settle_jackpot(acct(5), true), None);
    assert_eq!(c.get_last_jackpot_winner(), None);
}
