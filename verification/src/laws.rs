use crate::address::derived_address;
use crate::error::CustomError;
use crate::identity::Identity;
use crate::record::Record;
use crate::registry::{
    accepted, increment_step, initialize_step, rejected, reset_step, Request,
};
use vstd::prelude::*;

verus! {

/// A stored counter sits at the address derived from its owner.
pub open spec fn well_placed(state: Request) -> bool {
    state.record matches Some(record) ==> derived_address(record.owner) == Some(state.address)
}

/// Deriving the address of the same owner twice gives the same address.
pub proof fn lemma_derivation_is_stable(owner: Identity, again: Identity)
    requires
        owner@ == again@,
    ensures
        derived_address(owner@) == derived_address(again@),
{
}

/// A counter is created once. A request to create a counter at the derived address
/// leaves a counter there: the caller's own, at 0, if the slot was empty. The same request
/// is then turned down with `AddressAlreadyInitialized`, and owner and value stay as they
/// are.
pub proof fn lemma_initialize_once(pre: Request, derived: Option<Seq<u8>>)
    requires
        derived == Some(pre.address),
    ensures
        pre.record is None ==> initialize_step(pre, derived) == accepted(
            Request {
                address: pre.address,
                record: Some(Record { owner: pre.caller, value: 0 }),
                caller: pre.caller,
            },
        ),
        initialize_step(initialize_step(pre, derived).state, derived) == rejected(
            initialize_step(pre, derived).state,
            CustomError::AddressAlreadyInitialized,
        ),
{
}

/// Whoever is not the owner of a counter can neither increment nor reset it: the request
/// is turned down with `Unauthorized`, and the counter stays as it is.
pub proof fn lemma_strangers_are_turned_down(
    pre: Request,
    record: Record,
    derived: Option<Seq<u8>>,
)
    requires
        pre.record == Some(record),
        pre.caller != record.owner,
    ensures
        increment_step(pre, derived) == rejected(pre, CustomError::Unauthorized),
        reset_step(pre, derived) == rejected(pre, CustomError::Unauthorized),
{
}

/// The owner's request to increment a counter below the largest value is carried out if
/// it names the derived address. Whenever such a request is carried out, the value has
/// grown by exactly one and nothing else has changed.
pub proof fn lemma_increment_adds_one(pre: Request, record: Record, derived: Option<Seq<u8>>)
    requires
        pre.record == Some(record),
        record.value < u64::MAX,
    ensures
        pre.caller == record.owner && derived == Some(pre.address) ==> increment_step(
            pre,
            derived,
        ).verdict is Ok,
        increment_step(pre, derived).verdict is Ok ==> increment_step(pre, derived) == accepted(
            Request {
                address: pre.address,
                record: Some(Record { owner: record.owner, value: record.value + 1 }),
                caller: pre.caller,
            },
        ),
{
}

/// A counter at the largest value does not wrap: the owner's request to increment it is
/// turned down with `Overflow`, and the value stays the largest.
pub proof fn lemma_increment_stops_at_max(
    pre: Request,
    record: Record,
    derived: Option<Seq<u8>>,
)
    requires
        pre.record == Some(record),
        record.value == u64::MAX,
        pre.caller == record.owner,
        derived == Some(pre.address),
    ensures
        increment_step(pre, derived) == rejected(pre, CustomError::Overflow),
{
}

/// The owner's request to reset a counter is carried out whatever the value, also when it
/// is 0 already, and leaves the value 0 and everything else as it was.
pub proof fn lemma_reset_zeroes(pre: Request, record: Record, derived: Option<Seq<u8>>)
    requires
        pre.record == Some(record),
        pre.caller == record.owner,
        derived == Some(pre.address),
    ensures
        reset_step(pre, derived) == accepted(
            Request {
                address: pre.address,
                record: Some(Record { owner: record.owner, value: 0 }),
                caller: pre.caller,
            },
        ),
        record.value == 0 ==> reset_step(pre, derived).state == pre,
{
}

/// The owner of a counter is set when it is created and never changes, and its value
/// changes only at its owner's request: by one, or to 0.
pub proof fn lemma_only_the_owner_changes_a_counter(
    pre: Request,
    record: Record,
    derived: Option<Seq<u8>>,
)
    requires
        pre.record == Some(record),
    ensures
        initialize_step(pre, derived).state == pre,
        increment_step(pre, derived).state.record matches Some(after) && after.owner
            == record.owner && (after.value == record.value || (pre.caller == record.owner
            && after.value == record.value + 1)),
        reset_step(pre, derived).state.record matches Some(after) && after.owner == record.owner
            && (after.value == record.value || (pre.caller == record.owner && after.value == 0)),
{
}

/// Counters stay where they belong: if the slot of a request is empty or holds a counter
/// at the address derived from its owner, the same is true after the request, whichever of
/// the three it is.
pub proof fn lemma_counters_stay_well_placed(pre: Request)
    requires
        well_placed(pre),
    ensures
        well_placed(initialize_step(pre, derived_address(pre.caller)).state),
        well_placed(increment_step(pre, derived_address(pre.caller)).state),
        well_placed(reset_step(pre, derived_address(pre.caller)).state),
{
}

} // verus!
