use anchor_lang::prelude::{borsh, Pubkey};
use counter_dapp::layout::{DISCRIMINATOR, RECORD_LEN};
use counter_dapp::{Counter, CounterAccount, Identity};
use sha2::{Digest, Sha256};

fn owner() -> Identity {
    let mut bytes = [0u8; 32];
    for i in 0..32 {
        bytes[i] = 100 + i as u8;
    }
    Identity::new_from_array(bytes)
}

#[test]
fn a_record_is_48_bytes() {
    assert_eq!(RECORD_LEN, 48);
    assert_eq!(RECORD_LEN, 8 + 32 + 8);
    assert_eq!(Counter { authority: owner(), count: 0 }.encode().len(), 48);
}

#[test]
fn the_tag_is_the_digest_of_the_record_kind() {
    let digest = Sha256::digest(b"account:Counter");
    assert_eq!(DISCRIMINATOR, digest[..8]);
}

#[test]
fn encode_lays_out_tag_owner_and_value() {
    let data = Counter { authority: owner(), count: 0x0102_0304_0506_0708 }.encode();
    assert_eq!(data[0..8], [255, 176, 4, 245, 188, 253, 124, 25]);
    assert_eq!(data[0..8], DISCRIMINATOR);
    assert_eq!(data[8..40], owner().to_bytes());
    assert_eq!(data[40..48], [8, 7, 6, 5, 4, 3, 2, 1]);
}

#[test]
fn encode_writes_the_value_least_significant_byte_first() {
    let cases: [(u64, [u8; 8]); 5] = [
        (0, [0; 8]),
        (1, [1, 0, 0, 0, 0, 0, 0, 0]),
        (258, [2, 1, 0, 0, 0, 0, 0, 0]),
        (1 << 56, [0, 0, 0, 0, 0, 0, 0, 1]),
        (u64::MAX, [255; 8]),
    ];
    for (count, bytes) in cases {
        let data = Counter { authority: owner(), count }.encode();
        assert_eq!(data[40..48], bytes);
        assert_eq!(data[40..48], count.to_le_bytes());
    }
}

#[test]
fn encode_agrees_with_borsh() {
    let counter = Counter { authority: owner(), count: 9_876_543_210 };
    let data = counter.encode();
    let key = Pubkey::new_from_array(owner().to_bytes());
    assert_eq!(data[8..40], borsh::to_vec(&key).unwrap()[..]);
    assert_eq!(data[40..48], borsh::to_vec(&counter.count).unwrap()[..]);
}

#[test]
fn decode_reads_what_encode_wrote() {
    for count in [0u64, 1, 3, 255, 256, 1 << 32, u64::MAX - 1, u64::MAX] {
        let counter = Counter { authority: owner(), count };
        assert_eq!(Counter::decode(&counter.encode()), Some(counter));
    }
}

#[test]
fn decode_reads_the_fields_at_their_offsets() {
    let mut data = [0u8; 48];
    data[..8].copy_from_slice(&[255, 176, 4, 245, 188, 253, 124, 25]);
    data[8] = 9;
    data[39] = 7;
    data[40] = 0x34;
    data[41] = 0x12;
    let mut authority = [0u8; 32];
    authority[0] = 9;
    authority[31] = 7;
    assert_eq!(
        Counter::decode(&data),
        Some(Counter { authority: Identity::new_from_array(authority), count: 0x1234 })
    );
}

#[test]
fn decode_wants_48_bytes() {
    let data = Counter { authority: owner(), count: 5 }.encode();
    assert_eq!(Counter::decode(&data[..47]), None);
    assert_eq!(Counter::decode(&data[..8]), None);
    assert_eq!(Counter::decode(&[]), None);
    let mut longer = data.to_vec();
    longer.push(0);
    assert_eq!(Counter::decode(&longer), None);
}

#[test]
fn decode_wants_the_tag() {
    let data = Counter { authority: owner(), count: 5 }.encode();
    for i in 0..8 {
        let mut other = data;
        other[i] ^= 1;
        assert_eq!(Counter::decode(&other), None);
    }
    assert_eq!(Counter::decode(&[0u8; 48]), None);
}

#[test]
fn load_reads_an_empty_slot_from_empty_storage() {
    let address = Identity::new_from_array([5; 32]);
    assert_eq!(CounterAccount::load(address, &[]), Some(CounterAccount { address, record: None }));
}

#[test]
fn load_reads_the_stored_counter() {
    let address = Identity::new_from_array([5; 32]);
    let counter = Counter { authority: owner(), count: 77 };
    assert_eq!(
        CounterAccount::load(address, &counter.encode()),
        Some(CounterAccount { address, record: Some(counter) })
    );
}

#[test]
fn load_refuses_other_bytes() {
    let address = Identity::new_from_array([5; 32]);
    assert_eq!(CounterAccount::load(address, &[0u8; 48]), None);
    assert_eq!(CounterAccount::load(address, &[0u8; 1]), None);
    let data = Counter { authority: owner(), count: 77 }.encode();
    assert_eq!(CounterAccount::load(address, &data[..40]), None);
}
