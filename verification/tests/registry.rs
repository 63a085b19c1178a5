use ninjatip::account::AccountId;
use ninjatip::contract::{NinjaTip, REGISTRATION_COST};
use ninjatip::errors::Error;
use ninjatip::events::Event;

fn acct(b: u8) -> AccountId {
    AccountId { bytes: [b; 32] }
}

#[test]
fn registration_binds_name_to_payer() {
    let mut c = NinjaTip::new(acct(0));
    let bob = acct(2);
    assert_eq!(c.get_username_owner(String::from("bob")), None);
    assert_eq!(c.register_username(String::from("bob"), bob, REGISTRATION_COST), Ok(()));
    assert_eq!(c.get_username_owner(String::from("bob")), Some(bob));
    // The whole payment accrues to the owner's fees.
    assert_eq!(c.get_accumulated_fees(), REGISTRATION_COST);
    match c.events.last() {
        Some(Event::Registration(e)) => {
            assert_eq!(e.username, String::from("bob"));
            assert_eq!(e.owner, bob);
            assert_eq!(e.cost, REGISTRATION_COST);
        }
        other => panic!("expected a registration event, got {:?}", other),
    }
}

#[test]
fn registering_twice_fails_the_second_time() {
    let mut c = NinjaTip::new(acct(0));
    assert_eq!(c.register_username(String::from("bob"), acct(2), REGISTRATION_COST), Ok(()));
    assert_eq!(
        c.register_username(String::from("bob"), acct(3), REGISTRATION_COST),
        Err(Error::UsernameTaken)
    );
    // The first registration stands.
    assert_eq!(c.get_username_owner(String::from("bob")), Some(acct(2)));
}

#[test]
fn registration_requires_full_payment() {
    let mut c = NinjaTip::new(acct(0));
    assert_eq!(
        c.register_username(String::from("bob"), acct(2), REGISTRATION_COST - 1),
        Err(Error::InsufficientPayment)
    );
    assert_eq!(c.get_username_owner(String::from("bob")), None);
    // Overpayment is accepted and kept in full.
    assert_eq!(c.register_username(String::from("bob"), acct(2), REGISTRATION_COST + 7), Ok(()));
    assert_eq!(c.get_accumulated_fees(), REGISTRATION_COST + 7);
}

#[test]
fn registration_rejects_long_username() {
    let mut c = NinjaTip::new(acct(0));
    let long = "x".repeat(65);
    assert_eq!(
        c.register_username(long, acct(2), REGISTRATION_COST),
        Err(Error::UsernameTooLong)
    );
}
