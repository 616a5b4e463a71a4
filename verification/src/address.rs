use crate::identity::{Address, Identity};
use anchor_lang::prelude::Pubkey;
use vstd::prelude::*;

verus! {

/// The domain tag under which counter addresses are derived: the ASCII text `counter`.
pub const COUNTER_SEED: [u8; 7] = [99, 111, 117, 110, 116, 101, 114];

/// The bytes of the program's own identity, `BoXtsmHoq4ozCanyCUKuPMqPHJF3ddCNSkAzA7y18tSN`
/// in base 58.
pub const PROGRAM_ID: [u8; 32] = [
    160, 128, 132, 214, 12, 16, 87, 19, 198, 144, 5, 152, 14, 122, 44, 102,
    88, 245, 25, 40, 65, 130, 113, 125, 32, 156, 165, 18, 169, 190, 225, 3,
];

/// What `Pubkey::try_find_program_address` returns for the seeds `seeds` under the program
/// `program_id`: the address derived from them together with its bump seed, or `None`
/// where no bump seed yields an address.
pub uninterp spec fn program_address(seeds: Seq<Seq<u8>>, program_id: Seq<u8>) -> Option<(Seq<u8>, u8)>;

/// Whether `Pubkey::is_on_curve` holds of the 32 bytes: whether they are a point of the
/// ed25519 curve, and so the public key of some key pair.
pub uninterp spec fn on_curve(bytes: Seq<u8>) -> bool;

/// The storage address of the counter that belongs to `owner`, where one can be derived.
pub open spec fn derived_address(owner: Seq<u8>) -> Option<Seq<u8>> {
    match program_address(seq![COUNTER_SEED@, owner], PROGRAM_ID@) {
        Some((address, _)) => Some(address),
        None => None,
    }
}

/// Calls `Pubkey::try_find_program_address` with the seeds `tag` and `owner`. The contract
/// names the result, and claims of it what the outside crate documents of every program
/// address: it is not a point of the curve.
#[verifier::external_body]
fn try_find_program_address(tag: &[u8], owner: &Identity, program_id: &Identity) -> (found: Option<
    (Identity, u8),
>)
    ensures
        match found {
            Some((address, bump)) => program_address(seq![tag@, owner@], program_id@) == Some(
                (address@, bump),
            ),
            None => program_address(seq![tag@, owner@], program_id@) is None,
        },
        found matches Some((address, _)) ==> !on_curve(address@),
{
    let program = Pubkey::new_from_array(program_id.bytes);
    match Pubkey::try_find_program_address(&[tag, &owner.bytes], &program) {
        Some((key, bump)) => Some((Identity { bytes: key.to_bytes() }, bump)),
        None => None,
    }
}

/// Calls `Pubkey::is_on_curve` on the identity's bytes.
#[verifier::external_body]
fn pubkey_is_on_curve(id: &Identity) -> (on: bool)
    ensures
        on == on_curve(id@),
{
    Pubkey::new_from_array(id.bytes).is_on_curve()
}

/// The program's own identity.
pub fn id() -> (program: Identity)
    ensures
        program@ == PROGRAM_ID@,
{
    Identity::new_from_array(PROGRAM_ID)
}

/// Derives the storage address of the counter that belongs to `owner`, together with the
/// bump seed that the host needs to sign for that address.
pub fn find_address(owner: &Identity) -> (found: Option<(Address, u8)>)
    ensures
        match found {
            Some((address, bump)) => program_address(seq![COUNTER_SEED@, owner@], PROGRAM_ID@)
                == Some((address@, bump)) && !on_curve(address@),
            None => program_address(seq![COUNTER_SEED@, owner@], PROGRAM_ID@) is None,
        },
{
    let program = id();
    try_find_program_address(&COUNTER_SEED, owner, &program)
}

/// Derives the storage address of the counter that belongs to `owner`.
///
/// The address depends on the domain tag, the owner and the program alone. It is never a
/// point of the curve, so no wallet has it as its own identity.
pub fn derive_address(owner: &Identity) -> (address: Option<Address>)
    ensures
        match address {
            Some(a) => derived_address(owner@) == Some(a@) && !on_curve(a@),
            None => derived_address(owner@) is None,
        },
{
    match find_address(owner) {
        Some((address, _)) => Some(address),
        None => None,
    }
}

impl Identity {
    /// Whether the identity is a point of the curve, as the public key of a wallet is.
    pub fn is_on_curve(&self) -> (on: bool)
        ensures
            on == on_curve(self@),
    {
        pubkey_is_on_curve(self)
    }
}

} // verus!
