use crate::identity::Identity;
use vstd::prelude::*;

verus! {

/// A counter record as a mathematical value: who owns it and what it counts.
pub struct Record {
    pub owner: Seq<u8>,
    pub value: nat,
}

impl Record {
    /// A record that storage can hold: a 32-byte owner and a value of 64 bits.
    pub open spec fn wf(self) -> bool {
        &&& self.owner.len() == 32
        &&& self.value <= u64::MAX
    }
}

/// The counter of one wallet, as it is stored.
#[derive(Clone, Copy, Debug, PartialEq, Eq, Hash)]
pub struct Counter {
    /// The only identity that may change the counter. It is set when the counter is created.
    pub authority: Identity,
    /// The current value.
    pub count: u64,
}

impl View for Counter {
    type V = Record;

    open spec fn view(&self) -> Record {
        Record { owner: self.authority@, value: self.count as nat }
    }
}

impl Counter {
    /// Every stored counter is a record that storage can hold, and its view tells it apart
    /// from every other counter.
    pub proof fn lemma_view(self, other: Counter)
        ensures
            self@.wf(),
            self@ == other@ <==> self == other,
    {
        self.authority.lemma_view_injective(other.authority);
    }
}

} // verus!
