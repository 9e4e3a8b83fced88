//! A custody ledger for token vaults. One owner operates a vault of one
//! mint; users deposit into it and withdraw from it; the owner may sweep it
//! or close it. The ledger keeps two records, the vault's and each user's,
//! at addresses derived from their seeds.
//!
//! The ledger moves no tokens and allocates no storage itself. An
//! instruction runs in three steps:
//!
//! 1. [`processor::process_instruction`] validates the instruction against
//!    snapshots of its accounts and returns a [`processor::Plan`], or the
//!    first fault it finds. Nothing has changed yet.
//! 2. The host does what the plan asks for: it lets the system program
//!    allocate a record's account and the token program make the transfer.
//!    If either fails, the instruction is over.
//! 3. The plan's `commit` computes the new records with checked arithmetic
//!    and stores them in the record accounts. If it fails, no byte has
//!    changed.
//!
//! What holds of a vault across instructions is stated in [`ledger`].

pub mod account;
pub mod action;
pub mod bytes;
pub mod error;
pub mod instruction;
pub mod key;
pub mod ledger;
pub mod processor;
pub mod state;
pub mod token;
pub mod utils;

pub use error::VaultError;
pub use instruction::VaultInstruction;
pub use processor::process_instruction;
pub use state::{UserBalance, VaultState};
