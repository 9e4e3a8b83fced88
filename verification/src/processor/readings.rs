//! What the host's programs say of the accounts of an instruction: what
//! the token program reads in a custody account or a mint, and which
//! address the host derives for a record. The handlers decide on these
//! readings; [`read_user_accounts`] and its like take them.

use vstd::prelude::*;
use crate::account::AccountSnapshot;
use crate::action::view_of;
use crate::key::Key;
use crate::token::{mint_in, reads_as_mint, token_account_in, token_account_of, TokenAccount};
use crate::utils::{derived_address, find_address, USER_BALANCE_SEED, VAULT_SEED};

verus! {

/// The view of an optional address with its bump.
pub open spec fn address_view(found: Option<(Key, u8)>) -> Option<(Seq<u8>, u8)> {
    match found {
        Some((address, bump)) => Some((address@, bump)),
        None => None,
    }
}

/// What the host's programs say of the accounts of an initialization.
#[derive(Debug, Clone, Copy, PartialEq, Eq)]
pub struct InitializeReadings {
    /// Whether the token program reads a mint in the mint account.
    pub reads_as_mint: bool,
    /// What the token program reads in the vault's custody account.
    pub vault_custody: Option<TokenAccount>,
    /// The derived address and bump of the vault record.
    pub record_address: Option<(Key, u8)>,
}

/// The mathematical value of [`InitializeReadings`].
pub struct InitializeReadingsView {
    pub reads_as_mint: bool,
    pub vault_custody: Option<(Seq<u8>, u64)>,
    pub record_address: Option<(Seq<u8>, u8)>,
}

impl View for InitializeReadings {
    type V = InitializeReadingsView;

    open spec fn view(&self) -> InitializeReadingsView {
        InitializeReadingsView {
            reads_as_mint: self.reads_as_mint,
            vault_custody: view_of(self.vault_custody),
            record_address: address_view(self.record_address),
        }
    }
}

/// What the host's programs say of the accounts of an initialization:
/// owner, vault record, vault custody account, mint.
pub open spec fn initialize_readings(
    program_id: Seq<u8>,
    accounts: Seq<AccountSnapshot>,
) -> InitializeReadingsView {
    InitializeReadingsView {
        reads_as_mint: mint_in(accounts[3].data@),
        vault_custody: token_account_in(accounts[2].data@),
        record_address: derived_address(
            VAULT_SEED@,
            accounts[0].key@,
            accounts[3].key@,
            program_id,
        ),
    }
}

/// Asks the host's programs about the accounts of an initialization.
pub(crate) fn read_initialize_accounts(program_id: &Key, accounts: &[AccountSnapshot]) -> (readings:
    InitializeReadings)
    requires
        accounts@.len() >= 4,
    ensures
        readings@ == initialize_readings(program_id@, accounts@),
{
    InitializeReadings {
        reads_as_mint: reads_as_mint(&accounts[3]),
        vault_custody: token_account_of(&accounts[2]),
        record_address: find_address(&VAULT_SEED, &accounts[0].key, &accounts[3].key, program_id),
    }
}

/// What the host's programs say of the accounts of a deposit or of a
/// withdrawal.
#[derive(Debug, Clone, Copy, PartialEq, Eq)]
pub struct UserReadings {
    /// What the token program reads in the user's custody account.
    pub user_custody: Option<TokenAccount>,
    /// What the token program reads in the vault's custody account.
    pub vault_custody: Option<TokenAccount>,
    /// The derived address and bump of the user's balance record.
    pub balance_address: Option<(Key, u8)>,
}

/// The mathematical value of [`UserReadings`].
pub struct UserReadingsView {
    pub user_custody: Option<(Seq<u8>, u64)>,
    pub vault_custody: Option<(Seq<u8>, u64)>,
    pub balance_address: Option<(Seq<u8>, u8)>,
}

impl View for UserReadings {
    type V = UserReadingsView;

    open spec fn view(&self) -> UserReadingsView {
        UserReadingsView {
            user_custody: view_of(self.user_custody),
            vault_custody: view_of(self.vault_custody),
            balance_address: address_view(self.balance_address),
        }
    }
}

/// What the host's programs say of the accounts of a deposit or of a
/// withdrawal: user, user custody account, vault custody account, vault
/// record.
pub open spec fn user_readings(
    program_id: Seq<u8>,
    accounts: Seq<AccountSnapshot>,
) -> UserReadingsView {
    UserReadingsView {
        user_custody: token_account_in(accounts[1].data@),
        vault_custody: token_account_in(accounts[2].data@),
        balance_address: derived_address(
            USER_BALANCE_SEED@,
            accounts[0].key@,
            accounts[3].key@,
            program_id,
        ),
    }
}

/// Asks the host's programs about the accounts of a deposit or of a
/// withdrawal.
pub(crate) fn read_user_accounts(program_id: &Key, accounts: &[AccountSnapshot]) -> (readings:
    UserReadings)
    requires
        accounts@.len() >= 4,
    ensures
        readings@ == user_readings(program_id@, accounts@),
{
    UserReadings {
        user_custody: token_account_of(&accounts[1]),
        vault_custody: token_account_of(&accounts[2]),
        balance_address: find_address(
            &USER_BALANCE_SEED,
            &accounts[0].key,
            &accounts[3].key,
            program_id,
        ),
    }
}

/// What the token program says of the two custody accounts of an
/// owner-only instruction.
#[derive(Debug, Clone, Copy, PartialEq, Eq)]
pub struct OwnerReadings {
    /// What the token program reads in the owner's custody account.
    pub owner_custody: Option<TokenAccount>,
    /// What the token program reads in the vault's custody account.
    pub vault_custody: Option<TokenAccount>,
}

/// The mathematical value of [`OwnerReadings`].
pub struct OwnerReadingsView {
    pub owner_custody: Option<(Seq<u8>, u64)>,
    pub vault_custody: Option<(Seq<u8>, u64)>,
}

impl View for OwnerReadings {
    type V = OwnerReadingsView;

    open spec fn view(&self) -> OwnerReadingsView {
        OwnerReadingsView {
            owner_custody: view_of(self.owner_custody),
            vault_custody: view_of(self.vault_custody),
        }
    }
}

/// What the token program says of the two custody accounts of an
/// owner-only instruction.
pub open spec fn owner_readings(accounts: Seq<AccountSnapshot>) -> OwnerReadingsView {
    OwnerReadingsView {
        owner_custody: token_account_in(accounts[1].data@),
        vault_custody: token_account_in(accounts[2].data@),
    }
}

/// Asks the token program about the two custody accounts of an owner-only
/// instruction.
pub(crate) fn read_owner_accounts(accounts: &[AccountSnapshot]) -> (readings: OwnerReadings)
    requires
        accounts@.len() >= 3,
    ensures
        readings@ == owner_readings(accounts@),
{
    OwnerReadings {
        owner_custody: token_account_of(&accounts[1]),
        vault_custody: token_account_of(&accounts[2]),
    }
}

} // verus!
