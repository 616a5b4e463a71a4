use vstd::prelude::*;

verus! {

/// Why a request on a counter was rejected. A rejected request changes nothing.
#[derive(Clone, Copy, Debug, PartialEq, Eq, Structural, Hash)]
pub enum CustomError {
    /// The caller is not the owner recorded in the counter.
    Unauthorized,
    /// The counter holds the largest value it can hold.
    Overflow,
    /// A counter already exists at the address.
    AddressAlreadyInitialized,
    /// No counter exists at the address yet.
    AddressNotInitialized,
    /// The address of the request is not the one derived from the caller.
    AddressMismatch,
}

/// The text shown to a user for each kind of rejection.
pub open spec fn error_message(error: CustomError) -> Seq<char> {
    match error {
        CustomError::Unauthorized => "Only the authority can modify this counter."@,
        CustomError::Overflow => "Counter overflow."@,
        CustomError::AddressAlreadyInitialized => "A counter already exists at this address."@,
        CustomError::AddressNotInitialized => "No counter exists at this address yet."@,
        CustomError::AddressMismatch => "The address is not the one derived for this wallet."@,
    }
}

/// The number by which a client tells the kinds of rejection apart.
pub open spec fn error_code(error: CustomError) -> u32 {
    match error {
        CustomError::Unauthorized => 6000,
        CustomError::Overflow => 6001,
        CustomError::AddressAlreadyInitialized => 6002,
        CustomError::AddressNotInitialized => 6003,
        CustomError::AddressMismatch => 6004,
    }
}

impl CustomError {
    /// The number that the host reports to a client for this rejection.
    pub fn code(&self) -> (code: u32)
        ensures
            code == error_code(*self),
    {
        match self {
            CustomError::Unauthorized => 6000,
            CustomError::Overflow => 6001,
            CustomError::AddressAlreadyInitialized => 6002,
            CustomError::AddressNotInitialized => 6003,
            CustomError::AddressMismatch => 6004,
        }
    }

    /// The text shown to a user for this rejection.
    pub fn message(&self) -> (text: &'static str)
        ensures
            text@ == error_message(*self),
    {
        match self {
            CustomError::Unauthorized => "Only the authority can modify this counter.",
            CustomError::Overflow => "Counter overflow.",
            CustomError::AddressAlreadyInitialized => "A counter already exists at this address.",
            CustomError::AddressNotInitialized => "No counter exists at this address yet.",
            CustomError::AddressMismatch => "The address is not the one derived for this wallet.",
        }
    }
}

} // verus!
