use ninjatip::account::AccountId;
use ninjatip::contract::NinjaTip;

#[test]
fn test_stealth_address_derivation() {
    let username = String::from("alice");
    let salt = [1u8; 32];
    let stealth = NinjaTip::derive_stealth_address(&username, &salt);
    // Same inputs should produce same output
    let stealth2 = NinjaTip::derive_stealth_address(&username, &salt);
    assert_eq!(stealth, stealth2);
}

#[test]
fn test_different_salts_produce_different_addresses() {
    let username = String::from("alice");
    let salt1 = [1u8; 32];
    let salt2 = [2u8; 32];
    let stealth1 = NinjaTip::derive_stealth_address(&username, &salt1);
    let stealth2 = NinjaTip::derive_stealth_address(&username, &salt2);
    assert_ne!(stealth1, stealth2);
}

#[test]
fn test_different_usernames_produce_different_addresses() {
    let salt = [7u8; 32];
    let a = NinjaTip::derive_stealth_address(&String::from("alice"), &salt);
    let b = NinjaTip::derive_stealth_address(&String::from("bob"), &salt);
    assert_ne!(a, b);
}

#[test]
fn test_derivation_actually_hashes() {
    // The address is a digest, not the salt or the username handed back.
    let salt = [9u8; 32];
    let a = NinjaTip::derive_stealth_address(&String::from("alice"), &salt);
    assert_ne!(a, AccountId { bytes: salt });
    assert_ne!(a, AccountId { bytes: [0u8; 32] });
}
