//! A two-party token escrow: instruction decoding, the stored offer record,
//! derived addresses, and the verified Make / Take / Refund transitions.

pub mod address;
pub mod codec;
pub mod derive;
pub mod error;
pub mod instruction;
pub mod instructions;
pub mod laws;
pub mod ledger;
pub mod processor;
pub mod state;
pub mod token;
