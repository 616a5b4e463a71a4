use crate::identity::{Address, Identity};
use crate::record::{Counter, Record};
use crate::registry::CounterAccount;
use vstd::arithmetic::div_mod::lemma_div_denominator;
use vstd::prelude::*;

verus! {

/// The size of a stored record in bytes: the tag, the owner and the value.
pub const RECORD_LEN: usize = 48;

/// The tag that opens every stored counter record: the first eight bytes of the SHA-256
/// digest of the text `account:Counter`, by which the host tells the kinds of record apart.
pub const DISCRIMINATOR: [u8; 8] = [255, 176, 4, 245, 188, 253, 124, 25];

/// The eight bytes that spell a 64-bit value, least significant first.
pub open spec fn le_bytes(value: nat) -> Seq<u8> {
    seq![
        (value % 0x100) as u8,
        (value / 0x100 % 0x100) as u8,
        (value / 0x1_0000 % 0x100) as u8,
        (value / 0x100_0000 % 0x100) as u8,
        (value / 0x1_0000_0000 % 0x100) as u8,
        (value / 0x100_0000_0000 % 0x100) as u8,
        (value / 0x1_0000_0000_0000 % 0x100) as u8,
        (value / 0x100_0000_0000_0000 % 0x100) as u8,
    ]
}

/// The value that eight bytes spell, least significant first.
pub open spec fn le_value(bytes: Seq<u8>) -> nat {
    (bytes[0] as nat) + (bytes[1] as nat) * 0x100 + (bytes[2] as nat) * 0x1_0000
        + (bytes[3] as nat) * 0x100_0000 + (bytes[4] as nat) * 0x1_0000_0000
        + (bytes[5] as nat) * 0x100_0000_0000 + (bytes[6] as nat) * 0x1_0000_0000_0000
        + (bytes[7] as nat) * 0x100_0000_0000_0000
}

/// The stored form of a record: the tag at offset 0, the owner at offset 8 and the value
/// at offset 40.
pub open spec fn record_bytes(record: Record) -> Seq<u8> {
    DISCRIMINATOR@ + record.owner + le_bytes(record.value)
}

/// The record that stored bytes hold, if they hold one: they must be 48 bytes that open
/// with the tag.
pub open spec fn parse_record(data: Seq<u8>) -> Option<Record> {
    if data.len() == 48 && data.subrange(0, 8) == DISCRIMINATOR@ {
        Some(Record { owner: data.subrange(8, 40), value: le_value(data.subrange(40, 48)) })
    } else {
        None
    }
}

/// Dividing by a power of 256 is dividing by 256 that many times.
proof fn lemma_shifts(value: nat)
    ensures
        value / 0x1_0000 == value / 0x100 / 0x100,
        value / 0x100_0000 == value / 0x1_0000 / 0x100,
        value / 0x1_0000_0000 == value / 0x100_0000 / 0x100,
        value / 0x100_0000_0000 == value / 0x1_0000_0000 / 0x100,
        value / 0x1_0000_0000_0000 == value / 0x100_0000_0000 / 0x100,
        value / 0x100_0000_0000_0000 == value / 0x1_0000_0000_0000 / 0x100,
{
    lemma_div_denominator(value as int, 0x100, 0x100);
    lemma_div_denominator(value as int, 0x1_0000, 0x100);
    lemma_div_denominator(value as int, 0x100_0000, 0x100);
    lemma_div_denominator(value as int, 0x1_0000_0000, 0x100);
    lemma_div_denominator(value as int, 0x100_0000_0000, 0x100);
    lemma_div_denominator(value as int, 0x1_0000_0000_0000, 0x100);
}

/// The bytes of a 64-bit value spell that value.
pub proof fn lemma_le_bytes_value(value: nat)
    requires
        value <= u64::MAX,
    ensures
        le_bytes(value).len() == 8,
        le_value(le_bytes(value)) == value,
{
    lemma_shifts(value);
}

/// Eight bytes spell a 64-bit value, and the bytes of that value are the same eight.
pub proof fn lemma_le_value_bytes(bytes: Seq<u8>)
    requires
        bytes.len() == 8,
    ensures
        le_value(bytes) <= u64::MAX,
        le_bytes(le_value(bytes)) == bytes,
{
    let value = le_value(bytes);
    lemma_shifts(value);
    let r7 = bytes[7] as nat;
    let r6 = bytes[6] as nat + 0x100 * r7;
    let r5 = bytes[5] as nat + 0x100 * r6;
    let r4 = bytes[4] as nat + 0x100 * r5;
    let r3 = bytes[3] as nat + 0x100 * r4;
    let r2 = bytes[2] as nat + 0x100 * r3;
    let r1 = bytes[1] as nat + 0x100 * r2;
    assert(value == bytes[0] as nat + 0x100 * r1);
    assert(value / 0x100 == r1);
    assert(r1 / 0x100 == r2);
    assert(r2 / 0x100 == r3);
    assert(r3 / 0x100 == r4);
    assert(r4 / 0x100 == r5);
    assert(r5 / 0x100 == r6);
    assert(r6 / 0x100 == r7);
    assert(le_bytes(value) =~= bytes);
}

/// Reading the stored form of a record gives the record back.
pub proof fn lemma_parse_record_bytes(record: Record)
    requires
        record.wf(),
    ensures
        record_bytes(record).len() == 48,
        parse_record(record_bytes(record)) == Some(record),
{
    let data = record_bytes(record);
    lemma_le_bytes_value(record.value);
    assert(data.subrange(0, 8) =~= DISCRIMINATOR@);
    assert(data.subrange(8, 40) =~= record.owner);
    assert(data.subrange(40, 48) =~= le_bytes(record.value));
}

/// Stored bytes that hold a record are the stored form of that record.
pub proof fn lemma_record_bytes_parse(data: Seq<u8>)
    requires
        parse_record(data) is Some,
    ensures
        parse_record(data).unwrap().wf(),
        record_bytes(parse_record(data).unwrap()) == data,
{
    let record = parse_record(data).unwrap();
    lemma_le_value_bytes(data.subrange(40, 48));
    assert(record_bytes(record) =~= data);
}

impl Counter {
    /// The stored form of the counter: 48 bytes.
    pub fn encode(&self) -> (data: [u8; 48])
        ensures
            data@ == record_bytes(self@),
    {
        let mut data = [0u8; 48];
        let mut i: usize = 0;
        while i < 8
            invariant
                i <= 8,
                forall|j: int| 0 <= j < i ==> data@[j] == DISCRIMINATOR@[j],
            decreases 8 - i,
        {
            data[i] = DISCRIMINATOR[i];
            i += 1;
        }
        let mut k: usize = 0;
        while k < 32
            invariant
                k <= 32,
                forall|j: int| 0 <= j < 8 ==> data@[j] == DISCRIMINATOR@[j],
                forall|j: int| 0 <= j < k ==> data@[8 + j] == self.authority@[j],
            decreases 32 - k,
        {
            data[8 + k] = self.authority.bytes[k];
            k += 1;
        }
        let value = self.count;
        data[40] = (value % 0x100) as u8;
        data[41] = (value / 0x100 % 0x100) as u8;
        data[42] = (value / 0x1_0000 % 0x100) as u8;
        data[43] = (value / 0x100_0000 % 0x100) as u8;
        data[44] = (value / 0x1_0000_0000 % 0x100) as u8;
        data[45] = (value / 0x100_0000_0000 % 0x100) as u8;
        data[46] = (value / 0x1_0000_0000_0000 % 0x100) as u8;
        data[47] = (value / 0x100_0000_0000_0000 % 0x100) as u8;
        assert(data@ =~= record_bytes(self@));
        data
    }

    /// Reads a counter from its stored form. Bytes of another length, or that open with
    /// another tag, hold no counter.
    pub fn decode(data: &[u8]) -> (record: Option<Counter>)
        ensures
            match record {
                Some(counter) => parse_record(data@) == Some(counter@),
                None => parse_record(data@) is None,
            },
    {
        if data.len() != RECORD_LEN {
            return None;
        }
        let mut i: usize = 0;
        while i < 8
            invariant
                i <= 8,
                data@.len() == 48,
                forall|j: int| 0 <= j < i ==> data@[j] == DISCRIMINATOR@[j],
            decreases 8 - i,
        {
            if data[i] != DISCRIMINATOR[i] {
                assert(data@.subrange(0, 8)[i as int] != DISCRIMINATOR@[i as int]);
                return None;
            }
            i += 1;
        }
        assert(data@.subrange(0, 8) =~= DISCRIMINATOR@);
        let mut owner = [0u8; 32];
        let mut k: usize = 0;
        while k < 32
            invariant
                k <= 32,
                data@.len() == 48,
                forall|j: int| 0 <= j < k ==> owner@[j] == data@[8 + j],
            decreases 32 - k,
        {
            owner[k] = data[8 + k];
            k += 1;
        }
        assert(owner@ =~= data@.subrange(8, 40));
        let count: u64 = (data[40] as u64) + (data[41] as u64) * 0x100 + (data[42] as u64)
            * 0x1_0000 + (data[43] as u64) * 0x100_0000 + (data[44] as u64) * 0x1_0000_0000
            + (data[45] as u64) * 0x100_0000_0000 + (data[46] as u64) * 0x1_0000_0000_0000
            + (data[47] as u64) * 0x100_0000_0000_0000;
        Some(Counter { authority: Identity::new_from_array(owner), count })
    }
}

/// What the storage of a slot says of it: storage without bytes is an empty slot, the
/// stored form of a record is that record, and any other bytes are no slot of a counter.
pub open spec fn parse_slot(data: Seq<u8>) -> Option<Option<Record>> {
    if data.len() == 0 {
        Some(None)
    } else if parse_record(data) is Some {
        Some(parse_record(data))
    } else {
        None
    }
}

impl CounterAccount {
    /// The slot at `address` as its storage `data` shows it, or `None` where the storage
    /// holds bytes that are no counter.
    pub fn load(address: Address, data: &[u8]) -> (slot: Option<CounterAccount>)
        ensures
            match slot {
                Some(slot) => slot.address == address && parse_slot(data@) == Some(
                    slot.record_view(),
                ),
                None => parse_slot(data@) is None,
            },
    {
        if data.len() == 0 {
            return Some(CounterAccount { address, record: None });
        }
        match Counter::decode(data) {
            Some(counter) => Some(CounterAccount { address, record: Some(counter) }),
            None => None,
        }
    }
}

} // verus!
