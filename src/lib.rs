//! Issuance, verification, update and revocation of soulbound credentials
//! and transferable proof-of-work records, each stored once at an address
//! derived from its logical key.

pub mod accounts;
pub mod address;
pub mod error;
pub mod key;
pub mod laws;
pub mod store;
pub mod token;
pub mod vault;
