//! Verified rules of the Dabra governance program: its accounts, the checks
//! that its instructions make and the changes that they make to the accounts.
pub mod account;
pub mod error;
pub mod laws;
pub mod processor;
pub mod pubkey;
pub mod state;
