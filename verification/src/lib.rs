//! Client-side protocol for a legacy-identifier mapping registry on an
//! Ethereum-compatible ledger: validated identifier types, contract call-data
//! encoding, endorsement payload derivation, and result decoding.

pub mod abi;
pub mod errors;
pub mod hash;
pub mod identifiers;
pub mod parse;
pub mod transaction;

pub use errors::VdrError;
