//! Verified core of a set of command-line tools that drive four smart
//! contracts (a lottery, an NFT escrow, a donation pot and an NFT whose
//! attributes can be replaced), together with the decisions that the
//! attribute contract itself takes on each call.
//!
//! Everything here works on plain values. Sending transactions, reading
//! files and talking to the chain are left to the caller.

pub mod address;
pub mod biguint;
pub mod custom_callbacks;
pub mod esdt;
pub mod potlock;
pub mod properties;
pub mod state;
pub mod storage;
pub mod update_attributes;
