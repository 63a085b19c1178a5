use ninjatip::account::AccountId;
use ninjatip::contract::NinjaTip;
use ninjatip::errors::Error;
use ninjatip::events::Event;

fn acct(b: u8) -> AccountId {
    AccountId { bytes: [b; 32] }
}

#[test]
fn fee_rate_bounds_are_enforced() {
    let owner = acct(0);
    let mut c = NinjaTip::new(owner);
    assert_eq!(c.get_fee_rate(), 50);
    assert_eq!(c.set_fee_rate(owner, 49), Err(Error::InvalidFeeRate));
    assert_eq!(c.set_fee_rate(owner, 101), Err(Error::InvalidFeeRate));
    assert_eq!(c.get_fee_rate(), 50);
    assert_eq!(c.set_fee_rate(owner, 75), Ok(()));
    assert_eq!(c.get_fee_rate(), 75);
    assert_eq!(c.set_fee_rate(owner, 100), Ok(()));
    assert_eq!(c.get_fee_rate(), 100);
}

#[test]
fn owner_gating_rejects_non_owner_and_changes_nothing() {
    let owner = acct(0);
    let stranger = acct(9);
    let mut c = NinjaTip::new(owner);
    assert_eq!(c.set_fee_enabled(stranger, true), Err(Error::NotOwner));
    assert_eq!(c.set_fee_rate(stranger, 75), Err(Error::NotOwner));
    assert_eq!(c.collect_fees(stranger, true), Err(Error::NotOwner));
    assert_eq!(c.sweep_inactive(stranger), Err(Error::NotOwner));
    assert_eq!(c.get_fee_enabled(), false);
    assert_eq!(c.get_fee_rate(), 50);
    assert_eq!(c.get_accumulated_fees(), 0);
    assert_eq!(c.events.len(), 0);
}

#[test]
fn sweep_inactive_is_a_stub_for_the_owner() {
    let owner = acct(0);
    let mut c = NinjaTip::new(owner);
    assert_eq!(c.sweep_inactive(owner), Ok(()));
    assert_eq!(c.events.len(), 0);
}

#[test]
fn fee_toggle_emits_event() {
    let owner = acct(0);
    let mut c = NinjaTip::new(owner);
    assert_eq!(c.set_fee_enabled(owner, true), Ok(()));
    assert_eq!(c.get_fee_enabled(), true);
    match c.events.last() {
        Some(Event::FeeToggle(e)) => assert!(e.enabled),
        other => panic!("expected a toggle event, got {:?}", other),
    }
}

#[test]
fn collect_fees_zeroes_and_pays_once() {
    let owner = acct(0);
    let mut c = NinjaTip::new(owner);
    assert_eq!(c.collect_fees(owner, true), Err(Error::NoFunds));
    assert_eq!(c.set_fee_enabled(owner, true), Ok(()));
    assert_eq!(c.tip(String::from("alice"), [0u8; 32], 10_000, 1), Ok(()));
    assert_eq!(c.get_accumulated_fees(), 50);
    // A failed payout leaves the books untouched.
    assert_eq!(c.collect_fees(owner, false), Err(Error::NoFunds));
    assert_eq!(c.get_accumulated_fees(), 50);
    // A successful payout zeroes them.
    assert_eq!(c.collect_fees(owner, true), Ok(()));
    assert_eq!(c.get_accumulated_fees(), 0);
    match c.events.last() {
        Some(Event::FeeCollect(e)) => assert_eq!(e.amount, 50),
        other => panic!("expected a collection event, got {:?}", other),
    }
    // Nothing left to collect.
    assert_eq!(c.collect_fees(owner, true), Err(Error::NoFunds));
}
