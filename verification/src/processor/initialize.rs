//! Initialize: an owner creates the vault record of a mint.

use vstd::prelude::*;
use crate::account::AccountSnapshot;
use crate::action::{Allocation, AllocationView, SeedTag, Seeds, SeedsView};
use crate::error::VaultError;
use crate::key::{zero_key, Key};
use crate::processor::readings::{address_view, initialize_readings, read_initialize_accounts,
    InitializeReadings, InitializeReadingsView};
use crate::processor::{agrees, custody_amount, custody_of, lemma_vault_state_reads_back,
    serialize_vault_state_safe, stored_vault_state, stores_vault_state, with_vault_state};
use crate::state::{VaultState, VaultStateView};
use crate::token::{rent_sysvar_id, rent_sysvar_key, system_program_id, token_program_id,
    token_program_key};
use crate::utils::{address_or_invalid, uninitialized_check, verify_signer,
    verify_uninitialized_account, verify_writable};

verus! {

/// A validated initialization: who pays for the record and with how much,
/// where the record goes, and what it will say.
#[derive(Debug, Clone, Copy, PartialEq, Eq)]
pub struct InitializePlan {
    /// The program that will own the record.
    pub program_id: Key,
    /// The vault's owner, who pays for the record.
    pub owner: Key,
    /// The funds of the owner's account.
    pub owner_lamports: u64,
    /// The derived address of the record.
    pub vault_state: Key,
    /// The mint of the vault.
    pub token_mint: Key,
    /// The custody account of the vault.
    pub token_account: Key,
    /// The bump of the derived address.
    pub bump: u8,
}

/// The mathematical value of an [`InitializePlan`].
pub struct InitializePlanView {
    pub program_id: Seq<u8>,
    pub owner: Seq<u8>,
    pub owner_lamports: u64,
    pub vault_state: Seq<u8>,
    pub token_mint: Seq<u8>,
    pub token_account: Seq<u8>,
    pub bump: u8,
}

impl View for InitializePlan {
    type V = InitializePlanView;

    open spec fn view(&self) -> InitializePlanView {
        InitializePlanView {
            program_id: self.program_id@,
            owner: self.owner@,
            owner_lamports: self.owner_lamports,
            vault_state: self.vault_state@,
            token_mint: self.token_mint@,
            token_account: self.token_account@,
            bump: self.bump,
        }
    }
}

/// The checks of an initialization on the flags and owners of its accounts:
/// seven accounts (`InvalidInput`), the owner's signature
/// (`UnauthorizedAccess`), three writable accounts (`InvalidInput`), a
/// custody account of the token program (`InvalidTokenAccount`) and a mint
/// of the token program (`InvalidMint`).
pub open spec fn initialize_envelope(accounts: Seq<AccountSnapshot>) -> Result<(), VaultError> {
    if accounts.len() < 7 {
        Err(VaultError::InvalidInput)
    } else if !accounts[0].is_signer {
        Err(VaultError::UnauthorizedAccess)
    } else if !(accounts[0].is_writable && accounts[1].is_writable && accounts[2].is_writable) {
        Err(VaultError::InvalidInput)
    } else if accounts[2].owner@ != token_program_key() {
        Err(VaultError::InvalidTokenAccount)
    } else if accounts[3].owner@ != token_program_key() {
        Err(VaultError::InvalidMint)
    } else {
        Ok(())
    }
}

/// The checks of an initialization on the three well-known accounts: the
/// token program (`InvalidTokenAccount`), the system program and the rent
/// schedule (`InvalidInput`).
pub open spec fn initialize_programs(accounts: Seq<AccountSnapshot>) -> Result<(), VaultError> {
    if accounts[4].key@ != token_program_key() {
        Err(VaultError::InvalidTokenAccount)
    } else if accounts[5].key@ != zero_key() {
        Err(VaultError::InvalidInput)
    } else if accounts[6].key@ != rent_sysvar_key() {
        Err(VaultError::InvalidInput)
    } else {
        Ok(())
    }
}

/// The bump of the record to create, given the derived address of owner
/// and mint: the record's account must sit at that address (`InvalidInput`)
/// and must still be unallocated (`AccountNotInitialized`).
pub open spec fn initialize_target(
    accounts: Seq<AccountSnapshot>,
    derived: Option<(Seq<u8>, u8)>,
) -> Result<u8, VaultError> {
    match derived {
        None => Err(VaultError::InvalidInput),
        Some((address, bump)) => if address != accounts[1].key@ {
            Err(VaultError::InvalidInput)
        } else {
            match uninitialized_check(accounts[1]) {
                Err(e) => Err(e),
                Ok(_) => Ok(bump),
            }
        },
    }
}

/// What [`plan_initialize`] returns: the first check that fails, in the
/// order flags and owners, mint (`InvalidMint` where it does not read as
/// one), custody account (which must be one of the mint), well-known
/// accounts, record address; or the plan.
pub open spec fn initialize_plan_given(
    program_id: Seq<u8>,
    accounts: Seq<AccountSnapshot>,
    readings: InitializeReadingsView,
) -> Result<InitializePlanView, VaultError> {
    match initialize_envelope(accounts) {
        Err(e) => Err(e),
        Ok(_) => if !readings.reads_as_mint {
            Err(VaultError::InvalidMint)
        } else {
            match custody_of(readings.vault_custody, accounts[3].key@) {
                Err(e) => Err(e),
                Ok(_) => match initialize_programs(accounts) {
                    Err(e) => Err(e),
                    Ok(_) => match initialize_target(accounts, readings.record_address) {
                        Err(e) => Err(e),
                        Ok(bump) => Ok(
                            InitializePlanView {
                                program_id,
                                owner: accounts[0].key@,
                                owner_lamports: accounts[0].lamports,
                                vault_state: accounts[1].key@,
                                token_mint: accounts[3].key@,
                                token_account: accounts[2].key@,
                                bump,
                            },
                        ),
                    },
                },
            }
        },
    }
}

/// What [`process_initialize`] returns: [`initialize_plan_given`] on what
/// the host's programs say of the accounts.
pub open spec fn initialize_plan(program_id: Seq<u8>, accounts: Seq<AccountSnapshot>) -> Result<
    InitializePlanView,
    VaultError,
> {
    initialize_plan_given(program_id, accounts, initialize_readings(program_id, accounts))
}

fn check_initialize_envelope(accounts: &[AccountSnapshot]) -> (r: Result<(), VaultError>)
    ensures
        r == initialize_envelope(accounts@),
{
    if accounts.len() < 7 {
        return Err(VaultError::InvalidInput);
    }
    verify_signer(&accounts[0])?;
    verify_writable(&accounts[0])?;
    verify_writable(&accounts[1])?;
    verify_writable(&accounts[2])?;
    let token_program = token_program_id();
    if accounts[2].owner != token_program {
        return Err(VaultError::InvalidTokenAccount);
    }
    if accounts[3].owner != token_program {
        return Err(VaultError::InvalidMint);
    }
    Ok(())
}

fn check_initialize_programs(accounts: &[AccountSnapshot]) -> (r: Result<(), VaultError>)
    requires
        accounts@.len() >= 7,
    ensures
        r == initialize_programs(accounts@),
{
    if accounts[4].key != token_program_id() {
        return Err(VaultError::InvalidTokenAccount);
    }
    if accounts[5].key != system_program_id() {
        return Err(VaultError::InvalidInput);
    }
    if accounts[6].key != rent_sysvar_id() {
        return Err(VaultError::InvalidInput);
    }
    Ok(())
}

fn find_initialize_target(accounts: &[AccountSnapshot], derived: Option<(Key, u8)>) -> (r: Result<
    u8,
    VaultError,
>)
    requires
        accounts@.len() >= 7,
    ensures
        r == initialize_target(
            accounts@,
            address_view(derived),
        ),
{
    let (address, bump) = address_or_invalid(derived)?;
    if address != accounts[1].key {
        return Err(VaultError::InvalidInput);
    }
    verify_uninitialized_account(&accounts[1])?;
    Ok(bump)
}

/// Decides an initialization, given its accounts (owner, vault record,
/// vault custody account, mint, token program, system program, rent
/// schedule) and what the host's programs say of them. Nothing is changed;
/// the plan says what the host has to do before the initialization is
/// committed.
pub fn plan_initialize(
    program_id: &Key,
    accounts: &[AccountSnapshot],
    readings: &InitializeReadings,
) -> (r: Result<InitializePlan, VaultError>)
    ensures
        agrees(r, initialize_plan_given(program_id@, accounts@, readings@)),
{
    check_initialize_envelope(accounts)?;
    let owner = &accounts[0];
    let vault_state_account = &accounts[1];
    let vault_token_account = &accounts[2];
    let token_mint = &accounts[3];
    if !readings.reads_as_mint {
        return Err(VaultError::InvalidMint);
    }
    let _ = custody_amount(readings.vault_custody, &token_mint.key)?;
    check_initialize_programs(accounts)?;
    let bump = find_initialize_target(accounts, readings.record_address)?;
    Ok(
        InitializePlan {
            program_id: *program_id,
            owner: owner.key,
            owner_lamports: owner.lamports,
            vault_state: vault_state_account.key,
            token_mint: token_mint.key,
            token_account: vault_token_account.key,
            bump,
        },
    )
}

/// Validates an initialization against its accounts: owner, vault record,
/// vault custody account, mint, token program, system program, rent
/// schedule. Nothing is changed; the plan says what the host has to do
/// before the initialization is committed.
pub fn process_initialize(program_id: &Key, accounts: &[AccountSnapshot]) -> (r: Result<
    InitializePlan,
    VaultError,
>)
    ensures
        agrees(r, initialize_plan(program_id@, accounts@)),
{
    if accounts.len() < 7 {
        return Err(VaultError::InvalidInput);
    }
    let readings = read_initialize_accounts(program_id, accounts);
    plan_initialize(program_id, accounts, &readings)
}

impl InitializePlanView {
    /// The request to the storage allocator, or `InvalidInput` where the
    /// owner's funds are below `rent_minimum`, the least that the host's
    /// rent schedule asks for an account of the record's size.
    pub open spec fn allocation(self, rent_minimum: u64) -> Result<AllocationView, VaultError> {
        if self.owner_lamports < rent_minimum {
            Err(VaultError::InvalidInput)
        } else {
            Ok(
                AllocationView {
                    payer: self.owner,
                    address: self.vault_state,
                    space: 106,
                    owner: self.program_id,
                    seeds: SeedsView {
                        tag: SeedTag::Vault,
                        key_a: self.owner,
                        key_b: self.token_mint,
                        bump: self.bump,
                    },
                },
            )
        }
    }

    /// The record of the new vault: open, with nothing in it.
    pub open spec fn record(self) -> VaultStateView {
        VaultStateView {
            owner: self.owner,
            token_mint: self.token_mint,
            token_account: self.token_account,
            total_deposited: 0,
            is_closed: false,
            bump: self.bump,
        }
    }

    /// What the record's buffer holds after the initialization is
    /// committed. The record must have no zero key and fit the buffer
    /// (`InvalidInput`).
    pub open spec fn committed(self, vault_state_data: Seq<u8>) -> Result<Seq<u8>, VaultError> {
        with_vault_state(vault_state_data, self.record())
    }
}

impl InitializePlan {
    /// Checks that the owner can fund the record, and gives the request to
    /// the storage allocator.
    pub fn allocation(&self, rent_minimum: u64) -> (r: Result<Allocation, VaultError>)
        ensures
            agrees(r, self@.allocation(rent_minimum)),
    {
        if self.owner_lamports < rent_minimum {
            return Err(VaultError::InvalidInput);
        }
        Ok(
            Allocation {
                payer: self.owner,
                address: self.vault_state,
                space: 106,
                owner: self.program_id,
                seeds: Seeds {
                    tag: SeedTag::Vault,
                    key_a: self.owner,
                    key_b: self.token_mint,
                    bump: self.bump,
                },
            },
        )
    }

    /// Commits the initialization once the host has allocated the account:
    /// stores the record of the new vault. On failure the buffer stays as
    /// it is.
    pub fn commit(&self, vault_state_data: &mut [u8]) -> (r: Result<(), VaultError>)
        ensures
            match self@.committed(old(vault_state_data)@) {
                Ok(new_vault_data) => r is Ok && final(vault_state_data)@ == new_vault_data,
                Err(e) => r == Err::<(), VaultError>(e) && final(vault_state_data)@ == old(
                    vault_state_data,
                )@,
            },
            r is Ok ==> stores_vault_state(final(vault_state_data)@, self@.record()),
    {
        let vault_state = VaultState::new(
            self.owner,
            self.token_mint,
            self.token_account,
            self.bump,
        );
        serialize_vault_state_safe(&vault_state, vault_state_data)
    }
}

/// What a committed initialization stores, in an account of the record's
/// size: an open vault of the owner and the mint, with nothing in it. From
/// then on the account counts as initialized.
pub proof fn lemma_initialize_stores_open_vault(plan: InitializePlanView, vault_state_data: Seq<u8>)
    requires
        plan.owner.len() == 32,
        plan.token_mint.len() == 32,
        plan.token_account.len() == 32,
        vault_state_data.len() == 106,
        plan.committed(vault_state_data) is Ok,
    ensures
        stored_vault_state(plan.committed(vault_state_data)->Ok_0) == Ok::<
            VaultStateView,
            VaultError,
        >(plan.record()),
        plan.record().total_deposited == 0,
        !plan.record().is_closed,
{
    lemma_vault_state_reads_back(vault_state_data, plan.record());
}

} // verus!
