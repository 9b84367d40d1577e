//! Value movement on an account-based ledger: handlers that check the
//! accounts of a native-currency or token transfer and build the
//! instruction to delegate, an in-memory model of the modules that settle
//! those instructions, and the laws that tie the two together.

pub mod account;
pub mod native;
pub mod token;
pub mod ledger;
pub mod laws;
