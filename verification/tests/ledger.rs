use ninjatip::account::AccountId;
use ninjatip::contract::NinjaTip;
use ninjatip::errors::Error;
use ninjatip::events::Event;

fn acct(b: u8) -> AccountId {
    AccountId { bytes: [b; 32] }
}

#[test]
fn tip_with_fee_disabled_credits_full_value() {
    // username "alice", salt of 32 zero bytes, value 1000, fee off:
    // the stealth balance becomes exactly 1000 and no fee accrues.
    let mut c = NinjaTip::new(acct(0));
    let r = c.tip(String::from("alice"), [0u8; 32], 1000, 5);
    assert_eq!(r, Ok(()));
    assert_eq!(c.get_stealth_balance(String::from("alice"), [0u8; 32]), 1000);
    assert_eq!(c.get_accumulated_fees(), 0);
    match c.events.last() {
        Some(Event::Tip(e)) => {
            assert_eq!(e.username, String::from("alice"));
            assert_eq!(e.amount, 1000);
            assert_eq!(e.fee, 0);
        }
        other => panic!("expected a tip event, got {:?}", other),
    }
}

#[test]
fn tip_with_fee_enabled_splits_value() {
    // Same tip with the fee on at 50 basis points: 995 to the balance,
    // 5 to the accumulated fees.
    let owner = acct(0);
    let mut c = NinjaTip::new(owner);
    assert_eq!(c.set_fee_enabled(owner, true), Ok(()));
    let r = c.tip(String::from("alice"), [0u8; 32], 1000, 5);
    assert_eq!(r, Ok(()));
    assert_eq!(c.get_stealth_balance(String::from("alice"), [0u8; 32]), 995);
    assert_eq!(c.get_accumulated_fees(), 5);
}

#[test]
fn tips_accumulate_per_address() {
    let mut c = NinjaTip::new(acct(0));
    assert_eq!(c.tip(String::from("alice"), [0u8; 32], 300, 1), Ok(()));
    assert_eq!(c.tip(String::from("alice"), [0u8; 32], 700, 2), Ok(()));
    assert_eq!(c.tip(String::from("alice"), [1u8; 32], 40, 3), Ok(()));
    assert_eq!(c.get_stealth_balance(String::from("alice"), [0u8; 32]), 1000);
    assert_eq!(c.get_stealth_balance(String::from("alice"), [1u8; 32]), 40);
}

#[test]
fn tip_rejects_zero_value() {
    let mut c = NinjaTip::new(acct(0));
    assert_eq!(c.tip(String::from("alice"), [0u8; 32], 0, 1), Err(Error::InvalidAmount));
}

#[test]
fn tip_rejects_long_username() {
    let mut c = NinjaTip::new(acct(0));
    let long = "x".repeat(65);
    assert_eq!(c.tip(long, [0u8; 32], 10, 1), Err(Error::UsernameTooLong));
}

#[test]
fn username_limit_counts_bytes_not_chars() {
    // 33 two-byte characters: 33 chars but 66 bytes of UTF-8.
    let mut c = NinjaTip::new(acct(0));
    let wide = "é".repeat(33);
    assert_eq!(wide.chars().count(), 33);
    assert_eq!(c.tip(wide, [0u8; 32], 10, 1), Err(Error::UsernameTooLong));
}

#[test]
fn withdraw_zeroes_balance_and_second_fails() {
    let mut c = NinjaTip::new(acct(0));
    assert_eq!(c.tip(String::from("alice"), [0u8; 32], 1000, 1), Ok(()));
    let r = c.withdraw(String::from("alice"), [0u8; 32], 2, true);
    assert_eq!(r, Ok(()));
    assert_eq!(c.get_stealth_balance(String::from("alice"), [0u8; 32]), 0);
    match c.events.last() {
        Some(Event::Withdraw(e)) => assert_eq!(e.amount, 1000),
        other => panic!("expected a withdrawal event, got {:?}", other),
    }
    // A second withdrawal finds nothing.
    let r2 = c.withdraw(String::from("alice"), [0u8; 32], 3, true);
    assert_eq!(r2, Err(Error::NoFunds));
}

#[test]
fn withdraw_of_empty_address_fails() {
    let mut c = NinjaTip::new(acct(0));
    assert_eq!(c.withdraw(String::from("nobody"), [0u8; 32], 1, true), Err(Error::NoFunds));
}

#[test]
fn failed_withdraw_transfer_restores_balance() {
    let mut c = NinjaTip::new(acct(0));
    assert_eq!(c.tip(String::from("alice"), [0u8; 32], 1000, 1), Ok(()));
    let n_events = c.events.len();
    let r = c.withdraw(String::from("alice"), [0u8; 32], 2, false);
    assert_eq!(r, Err(Error::NoFunds));
    assert_eq!(c.get_stealth_balance(String::from("alice"), [0u8; 32]), 1000);
    assert_eq!(c.events.len(), n_events);
}
