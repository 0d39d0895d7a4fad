use crowdfunding::address::{derive_address, keys_equal, verify_address, Key};
use solana_program::pubkey::Pubkey;

const TAG: &[u8] = b"CAMPAIGN_DEMO";

fn program() -> Key {
    [7u8; 32]
}

fn owner() -> Key {
    [1u8; 32]
}

#[test]
fn derive_is_repeatable() {
    let first = derive_address(TAG, &owner(), b"Help", &program());
    let second = derive_address(TAG, &owner(), b"Help", &program());
    assert!(first.is_some());
    assert_eq!(first, second);
}

#[test]
fn derive_matches_ledger_search() {
    let (address, nonce) = derive_address(TAG, &owner(), b"Help", &program()).unwrap();
    let owner_key = Pubkey::new_from_array(owner());
    let seeds: [&[u8]; 3] = [TAG, owner_key.as_ref(), b"Help"];
    let (expected, expected_nonce) = Pubkey::find_program_address(&seeds, &Pubkey::new_from_array(program()));
    assert_eq!(address, expected.to_bytes());
    assert_eq!(nonce, expected_nonce);
}

#[test]
fn derive_depends_on_name_and_owner() {
    let a = derive_address(TAG, &owner(), b"Help", &program()).unwrap();
    let b = derive_address(TAG, &owner(), b"Other", &program()).unwrap();
    let c = derive_address(TAG, &[2u8; 32], b"Help", &program()).unwrap();
    assert_ne!(a.0, b.0);
    assert_ne!(a.0, c.0);
}

#[test]
fn derive_rejects_long_name() {
    let name = [b'x'; 33];
    assert_eq!(derive_address(TAG, &owner(), &name, &program()), None);
    let name = [b'x'; 32];
    assert!(derive_address(TAG, &owner(), &name, &program()).is_some());
}

#[test]
fn verify_address_checks_nonce_and_address() {
    let (address, nonce) = derive_address(TAG, &owner(), b"Help", &program()).unwrap();
    assert!(verify_address(TAG, &owner(), b"Help", nonce, &program(), &address));
    assert!(!verify_address(TAG, &owner(), b"Help", nonce, &program(), &[9u8; 32]));
    assert!(!verify_address(TAG, &[2u8; 32], b"Help", nonce, &program(), &address));
}

#[test]
fn keys_equal_compares_bytes() {
    let mut other = owner();
    assert!(keys_equal(&owner(), &other));
    other[31] = 0;
    assert!(!keys_equal(&owner(), &other));
}
