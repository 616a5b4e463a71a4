use crate::address::{derive_address, derived_address};
use crate::error::CustomError;
use crate::identity::{view_of, Address, Identity};
use crate::record::{Counter, Record};
use vstd::prelude::*;

verus! {

/// A request as a mathematical value: the storage address it names, what that address
/// holds (nothing, or a record), and the identity of the caller.
pub struct Request {
    pub address: Seq<u8>,
    pub record: Option<Record>,
    pub caller: Seq<u8>,
}

/// The storage slot that a request names: its address, and the counter it holds once one
/// has been created there.
#[derive(Clone, Copy, Debug, PartialEq, Eq)]
pub struct CounterAccount {
    pub address: Address,
    pub record: Option<Counter>,
}

/// What a request to create a counter brings: the slot to create it in, and the caller,
/// who becomes its owner.
#[derive(Clone, Copy, Debug, PartialEq, Eq)]
pub struct Initialize {
    pub counter: CounterAccount,
    pub user: Identity,
}

/// What a request to change a counter brings: the slot that holds it, and the caller.
#[derive(Clone, Copy, Debug, PartialEq, Eq)]
pub struct Increment {
    pub counter: CounterAccount,
    pub user: Identity,
}

impl CounterAccount {
    /// The record in the slot as a mathematical value.
    pub open spec fn record_view(self) -> Option<Record> {
        match self.record {
            Some(counter) => Some(counter@),
            None => None,
        }
    }

    /// The address of a slot and the view of its record tell it apart from every other
    /// slot.
    pub proof fn lemma_view_injective(self, other: CounterAccount)
        ensures
            (self.address@ == other.address@ && self.record_view() == other.record_view())
                <==> self == other,
    {
        self.address.lemma_view_injective(other.address);
        if let Some(counter) = self.record {
            if let Some(second) = other.record {
                counter.lemma_view(second);
            }
        }
    }
}

impl View for Initialize {
    type V = Request;

    open spec fn view(&self) -> Request {
        Request {
            address: self.counter.address@,
            record: self.counter.record_view(),
            caller: self.user@,
        }
    }
}

impl View for Increment {
    type V = Request;

    open spec fn view(&self) -> Request {
        Request {
            address: self.counter.address@,
            record: self.counter.record_view(),
            caller: self.user@,
        }
    }
}

impl Initialize {
    /// The view of a request tells it apart from every other request.
    pub proof fn lemma_view_injective(self, other: Initialize)
        ensures
            self@ == other@ <==> self == other,
    {
        self.user.lemma_view_injective(other.user);
        self.counter.lemma_view_injective(other.counter);
    }
}

impl Increment {
    /// The view of a request tells it apart from every other request.
    pub proof fn lemma_view_injective(self, other: Increment)
        ensures
            self@ == other@ <==> self == other,
    {
        self.user.lemma_view_injective(other.user);
        self.counter.lemma_view_injective(other.counter);
    }
}

/// What a request leaves behind: the state afterwards, and the verdict the caller gets.
pub struct Outcome {
    pub state: Request,
    pub verdict: Result<(), CustomError>,
}

/// The request is carried out and leaves the state `post`.
pub open spec fn accepted(post: Request) -> Outcome {
    Outcome { state: post, verdict: Ok(()) }
}

/// The request is turned down for the reason `error`, and nothing changes.
pub open spec fn rejected(pre: Request, error: CustomError) -> Outcome {
    Outcome { state: pre, verdict: Err(error) }
}

/// Creating a counter. The request must name the address derived from the caller, and
/// nothing may be there yet. The new record belongs to the caller and counts from 0.
pub open spec fn initialize_step(pre: Request, derived: Option<Seq<u8>>) -> Outcome {
    if derived != Some(pre.address) {
        rejected(pre, CustomError::AddressMismatch)
    } else if pre.record is Some {
        rejected(pre, CustomError::AddressAlreadyInitialized)
    } else {
        accepted(Request { record: Some(Record { owner: pre.caller, value: 0 }), ..pre })
    }
}

/// What every change of a counter checks first: a record is there, the caller owns it,
/// and it sits at the address derived from the caller.
pub open spec fn owned_record(pre: Request, derived: Option<Seq<u8>>) -> Result<
    Record,
    CustomError,
> {
    match pre.record {
        None => Err(CustomError::AddressNotInitialized),
        Some(record) => if record.owner != pre.caller {
            Err(CustomError::Unauthorized)
        } else if derived != Some(pre.address) {
            Err(CustomError::AddressMismatch)
        } else {
            Ok(record)
        },
    }
}

/// Adding one to a counter, unless it holds the largest 64-bit value.
pub open spec fn increment_step(pre: Request, derived: Option<Seq<u8>>) -> Outcome {
    match owned_record(pre, derived) {
        Err(error) => rejected(pre, error),
        Ok(record) => if record.value < u64::MAX {
            accepted(Request { record: Some(Record { value: record.value + 1, ..record }), ..pre })
        } else {
            rejected(pre, CustomError::Overflow)
        },
    }
}

/// Setting a counter back to 0.
pub open spec fn reset_step(pre: Request, derived: Option<Seq<u8>>) -> Outcome {
    match owned_record(pre, derived) {
        Err(error) => rejected(pre, error),
        Ok(record) => accepted(Request { record: Some(Record { value: 0, ..record }), ..pre }),
    }
}

/// Whether `derived` is the address `address`.
fn is_address(derived: Option<Address>, address: &Address) -> (same: bool)
    ensures
        same == (view_of(derived) == Some(address@)),
{
    match derived {
        Some(expected) => expected == *address,
        None => false,
    }
}

/// The counter that the caller may change, or why there is none.
fn owned_counter(accounts: &Increment, derived: Option<Address>) -> (found: Result<
    Counter,
    CustomError,
>)
    ensures
        match owned_record(accounts@, view_of(derived)) {
            Ok(record) => found is Ok && accounts.counter.record == Some(found.unwrap())
                && found.unwrap()@ == record,
            Err(error) => found == Err::<Counter, CustomError>(error),
        },
{
    match accounts.counter.record {
        None => Err(CustomError::AddressNotInitialized),
        Some(counter) => if counter.authority != accounts.user {
            Err(CustomError::Unauthorized)
        } else if !is_address(derived, &accounts.counter.address) {
            Err(CustomError::AddressMismatch)
        } else {
            Ok(counter)
        },
    }
}

/// Creates the caller's counter, given the address that `derive_address` returned for the
/// caller.
pub fn initialize_with(accounts: &mut Initialize, derived: Option<Address>) -> (result: Result<
    (),
    CustomError,
>)
    ensures
        result == initialize_step(old(accounts)@, view_of(derived)).verdict,
        final(accounts)@ == initialize_step(old(accounts)@, view_of(derived)).state,
        result is Err ==> *final(accounts) == *old(accounts),
{
    if !is_address(derived, &accounts.counter.address) {
        return Err(CustomError::AddressMismatch);
    }
    if accounts.counter.record.is_some() {
        return Err(CustomError::AddressAlreadyInitialized);
    }
    accounts.counter.record = Some(Counter { authority: accounts.user, count: 0 });
    Ok(())
}

/// Adds one to the caller's counter, given the address that `derive_address` returned for
/// the caller.
pub fn increment_with(accounts: &mut Increment, derived: Option<Address>) -> (result: Result<
    (),
    CustomError,
>)
    ensures
        result == increment_step(old(accounts)@, view_of(derived)).verdict,
        final(accounts)@ == increment_step(old(accounts)@, view_of(derived)).state,
        result is Err ==> *final(accounts) == *old(accounts),
{
    let counter = match owned_counter(accounts, derived) {
        Ok(counter) => counter,
        Err(error) => {
            return Err(error);
        },
    };
    match counter.count.checked_add(1) {
        Some(count) => {
            accounts.counter.record = Some(Counter { authority: counter.authority, count });
            Ok(())
        },
        None => Err(CustomError::Overflow),
    }
}

/// Sets the caller's counter back to 0, given the address that `derive_address` returned
/// for the caller.
pub fn reset_with(accounts: &mut Increment, derived: Option<Address>) -> (result: Result<
    (),
    CustomError,
>)
    ensures
        result == reset_step(old(accounts)@, view_of(derived)).verdict,
        final(accounts)@ == reset_step(old(accounts)@, view_of(derived)).state,
        result is Err ==> *final(accounts) == *old(accounts),
{
    let counter = match owned_counter(accounts, derived) {
        Ok(counter) => counter,
        Err(error) => {
            return Err(error);
        },
    };
    accounts.counter.record = Some(Counter { authority: counter.authority, count: 0 });
    Ok(())
}

/// Creates the counter of the caller at the address derived from the caller's identity.
///
/// Fails with `AddressMismatch` unless the request names that address, and with
/// `AddressAlreadyInitialized` if a counter is there already. The new counter belongs to
/// the caller and holds 0.
pub fn initialize(accounts: &mut Initialize) -> (result: Result<(), CustomError>)
    ensures
        result == initialize_step(old(accounts)@, derived_address(old(accounts).user@)).verdict,
        final(accounts)@ == initialize_step(old(accounts)@, derived_address(old(accounts).user@)).state,
        result is Err ==> *final(accounts) == *old(accounts),
{
    let derived = derive_address(&accounts.user);
    initialize_with(accounts, derived)
}

/// Adds one to the counter of the caller.
///
/// Fails with `AddressNotInitialized` if the slot is empty, with `Unauthorized` unless the
/// caller owns the counter, with `AddressMismatch` unless the request names the address
/// derived from the caller, and with `Overflow` if the counter holds the largest value.
pub fn increment(accounts: &mut Increment) -> (result: Result<(), CustomError>)
    ensures
        result == increment_step(old(accounts)@, derived_address(old(accounts).user@)).verdict,
        final(accounts)@ == increment_step(old(accounts)@, derived_address(old(accounts).user@)).state,
        result is Err ==> *final(accounts) == *old(accounts),
{
    let derived = derive_address(&accounts.user);
    increment_with(accounts, derived)
}

/// Sets the counter of the caller back to 0.
///
/// Fails as `increment` does, but never with `Overflow`.
pub fn reset(accounts: &mut Increment) -> (result: Result<(), CustomError>)
    ensures
        result == reset_step(old(accounts)@, derived_address(old(accounts).user@)).verdict,
        final(accounts)@ == reset_step(old(accounts)@, derived_address(old(accounts).user@)).state,
        result is Err ==> *final(accounts) == *old(accounts),
{
    let derived = derive_address(&accounts.user);
    reset_with(accounts, derived)
}

} // verus!
