//! Provisioning of a program-owned vault account at a derived address.
//!
//! The library decides every step of a provisioning request: who may ask,
//! how the seeds are read from the instruction payload, whether the claimed
//! address and bump are the canonical derivation, and what record a new
//! vault holds. The host that runs the program performs the account creation
//! that the library asks for.
pub mod address;
pub mod error;
pub mod decoder;
pub mod derivation;
pub mod processor;
pub mod record;
