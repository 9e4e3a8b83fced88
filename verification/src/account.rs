//! Accounts as the ledger sees them: plain values taken at the start of an
//! instruction.

use vstd::prelude::*;
use crate::key::Key;

verus! {

/// One account handed to an instruction: who it is, who owns it, how the
/// caller may use it, and what it holds.
#[derive(Debug, Clone, PartialEq, Eq)]
pub struct AccountSnapshot {
    /// The account's own address.
    pub key: Key,
    /// The program that owns the account. Unallocated accounts belong to
    /// the system program.
    pub owner: Key,
    /// Whether the account signed the request.
    pub is_signer: bool,
    /// Whether the request may change the account.
    pub is_writable: bool,
    /// The native funds of the account.
    pub lamports: u64,
    /// The bytes stored in the account.
    pub data: Vec<u8>,
}

impl AccountSnapshot {
    /// Number of bytes stored in the account.
    pub fn data_len(&self) -> (n: usize)
        ensures
            n == self.data@.len(),
    {
        self.data.len()
    }
}

} // verus!
