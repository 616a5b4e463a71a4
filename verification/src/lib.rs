//! A counter for every wallet, kept on a ledger.
//!
//! Each wallet owns one counter. The counter lives at a storage address that is derived
//! from the wallet's identity, so anyone can find it without an index, and only its owner
//! may increment or reset it. This library holds the rules: how the address is derived
//! (`address`), how a counter is laid out in storage (`layout`), what each request does to
//! a counter and when it is turned down (`registry`), and what follows from these rules
//! (`laws`). The host hands each request over as plain values and stores what comes back.

pub mod address;
pub mod error;
pub mod identity;
pub mod laws;
pub mod layout;
pub mod record;
pub mod registry;

pub use address::{derive_address, find_address, id};
pub use error::CustomError;
pub use identity::{Address, Identity};
pub use record::Counter;
pub use registry::{
    increment, increment_with, initialize, initialize_with, reset, reset_with, CounterAccount,
    Increment, Initialize,
};
