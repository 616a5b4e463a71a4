use anchor_lang::prelude::Pubkey;
use counter_dapp::address::{COUNTER_SEED, PROGRAM_ID};
use counter_dapp::{derive_address, find_address, id, Identity};
use std::collections::HashSet;
use std::str::FromStr;

fn owner_number(n: u32) -> Identity {
    let mut bytes = [0u8; 32];
    bytes[..4].copy_from_slice(&n.to_le_bytes());
    bytes[4] = 0xa5;
    bytes[31] = (n % 251) as u8;
    Identity::new_from_array(bytes)
}

#[test]
fn the_seed_spells_counter() {
    assert_eq!(&COUNTER_SEED, b"counter");
}

#[test]
fn the_program_identity_is_the_declared_one() {
    let declared = Pubkey::from_str("BoXtsmHoq4ozCanyCUKuPMqPHJF3ddCNSkAzA7y18tSN").unwrap();
    assert_eq!(PROGRAM_ID, declared.to_bytes());
    assert_eq!(id().to_bytes(), declared.to_bytes());
    assert_eq!(id(), Identity::new_from_array(PROGRAM_ID));
}

#[test]
fn derive_address_is_stable() {
    let owner = owner_number(1);
    let first = derive_address(&owner);
    let second = derive_address(&owner);
    assert!(first.is_some());
    assert_eq!(first, second);
    let copy = Identity::new_from_array(owner.to_bytes());
    assert_eq!(derive_address(&copy), first);
}

#[test]
fn derive_address_is_the_program_address_of_tag_and_owner() {
    let program = Pubkey::from_str("BoXtsmHoq4ozCanyCUKuPMqPHJF3ddCNSkAzA7y18tSN").unwrap();
    for n in [0u32, 1, 2, 77, 4096, u32::MAX] {
        let owner = owner_number(n);
        let key = Pubkey::new_from_array(owner.to_bytes());
        let (expected, _bump) = Pubkey::find_program_address(&[b"counter", key.as_ref()], &program);
        let derived = derive_address(&owner).unwrap();
        assert_eq!(derived.to_bytes(), expected.to_bytes());
        assert_ne!(derived, owner);
    }
}

#[test]
fn find_address_gives_the_bump_seed_of_the_address() {
    let program = Pubkey::from_str("BoXtsmHoq4ozCanyCUKuPMqPHJF3ddCNSkAzA7y18tSN").unwrap();
    for n in [3u32, 5, 8, 13, 21, 34] {
        let owner = owner_number(n);
        let (address, bump) = find_address(&owner).unwrap();
        assert_eq!(Some(address), derive_address(&owner));
        let key = Pubkey::new_from_array(owner.to_bytes());
        let made =
            Pubkey::create_program_address(&[b"counter", key.as_ref(), &[bump]], &program).unwrap();
        assert_eq!(address.to_bytes(), made.to_bytes());
    }
}

#[test]
fn find_address_agrees_with_a_second_derivation() {
    for n in 0..200u32 {
        let owner = owner_number(n.wrapping_mul(40_503));
        let (address, bump) =
            anchor_lang::derive_program_address(&[b"counter", &owner.to_bytes()], &PROGRAM_ID);
        assert_eq!(find_address(&owner), Some((Identity::new_from_array(address), bump)));
    }
}

#[test]
fn derive_address_depends_on_the_owner() {
    let a = derive_address(&owner_number(10)).unwrap();
    let b = derive_address(&owner_number(11)).unwrap();
    assert_ne!(a, b);
}

#[test]
fn derived_addresses_are_off_the_curve() {
    for n in 0..64u32 {
        let address = derive_address(&owner_number(n)).unwrap();
        assert!(!address.is_on_curve());
    }
}

#[test]
fn the_base_point_is_on_the_curve() {
    let mut bytes = [0x66u8; 32];
    bytes[0] = 0x58;
    assert!(Identity::new_from_array(bytes).is_on_curve());
    assert!(Pubkey::new_from_array(bytes).is_on_curve());
}

#[test]
fn is_on_curve_agrees_with_the_public_key() {
    for n in 0..64u32 {
        let id = owner_number(n);
        assert_eq!(id.is_on_curve(), Pubkey::new_from_array(id.to_bytes()).is_on_curve());
    }
}

#[test]
fn ten_thousand_owners_have_ten_thousand_addresses() {
    let mut owners = HashSet::new();
    let mut addresses = HashSet::new();
    for n in 0..10_000u32 {
        let owner = owner_number(n.wrapping_mul(2_654_435_761));
        assert!(owners.insert(owner.to_bytes()));
        let address = derive_address(&owner).expect("an address");
        assert!(addresses.insert(address.to_bytes()), "owner {} collides", n);
    }
    assert_eq!(owners.len(), 10_000);
    assert_eq!(addresses.len(), 10_000);
}

#[test]
fn identities_compare_by_their_bytes() {
    let a = Identity::new_from_array([3; 32]);
    let mut bytes = [3u8; 32];
    assert_eq!(a, Identity::new_from_array(bytes));
    for i in 0..32 {
        bytes[i] = 4;
        assert_ne!(a, Identity::new_from_array(bytes));
        bytes[i] = 3;
    }
    assert_eq!(a.to_bytes(), [3; 32]);
}
