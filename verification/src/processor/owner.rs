//! What the two owner-only instructions share: the owner's claim on all
//! that the vault's custody account holds.

use vstd::prelude::*;
use crate::account::AccountSnapshot;
use crate::action::view_of;
use crate::action::{Authority, AuthorityView, Transfer, TransferView};
use crate::error::VaultError;
use crate::key::Key;
use crate::processor::close::{close_plan, close_plan_given, ClosePlanView};
use crate::processor::readings::{OwnerReadings, OwnerReadingsView};
use crate::processor::withdraw::{seeds_of_vault, vault_seeds};
use crate::processor::withdraw_all::{withdraw_all_plan, withdraw_all_plan_given,
    WithdrawAllPlanView};
use crate::processor::{custody_amount, custody_of, load_open_vault, open_vault,
    stored_vault_state};
use crate::state::{VaultState, VaultStateView};
use crate::token::{token_program_id, token_program_key};
use crate::utils::{verify_signer, verify_writable};

verus! {

/// The checks of an owner-only instruction that look at the request alone:
/// five accounts (`InvalidInput`), the caller's signature
/// (`UnauthorizedAccess`), three writable accounts (`InvalidInput`) and the
/// token program (`InvalidTokenAccount`).
pub open spec fn owner_envelope(accounts: Seq<AccountSnapshot>) -> Result<(), VaultError> {
    if accounts.len() < 5 {
        Err(VaultError::InvalidInput)
    } else if !accounts[0].is_signer {
        Err(VaultError::UnauthorizedAccess)
    } else if !(accounts[1].is_writable && accounts[2].is_writable && accounts[3].is_writable) {
        Err(VaultError::InvalidInput)
    } else if accounts[4].key@ != token_program_key() {
        Err(VaultError::InvalidTokenAccount)
    } else {
        Ok(())
    }
}

/// The transfer that empties a custody account which holds `held`: none
/// where it holds nothing.
pub open spec fn emptying_transfer(
    accounts: Seq<AccountSnapshot>,
    vault: VaultStateView,
    held: u64,
) -> Option<TransferView> {
    if held == 0 {
        None
    } else {
        Some(
            TransferView {
                source: accounts[2].key@,
                destination: accounts[1].key@,
                authority: AuthorityView::Derived {
                    address: accounts[3].key@,
                    seeds: vault_seeds(vault),
                },
                amount: held,
            },
        )
    }
}

/// The checks of an owner-only instruction on an open vault, and the
/// transfer of all that the vault holds where all pass. The caller must be
/// the vault's owner (`UnauthorizedAccess`); both custody accounts must
/// belong to the token program (`InvalidTokenAccount`) and be ones of the
/// vault's mint.
pub open spec fn claim_of(
    accounts: Seq<AccountSnapshot>,
    readings: OwnerReadingsView,
    vault: VaultStateView,
) -> Result<Option<TransferView>, VaultError> {
    if accounts[0].key@ != vault.owner {
        Err(VaultError::UnauthorizedAccess)
    } else if accounts[1].owner@ != token_program_key() || accounts[2].owner@
        != token_program_key() {
        Err(VaultError::InvalidTokenAccount)
    } else {
        match custody_of(readings.owner_custody, vault.token_mint) {
            Err(e) => Err(e),
            Ok(_) => match custody_of(readings.vault_custody, vault.token_mint) {
                Err(e) => Err(e),
                Ok(held) => Ok(emptying_transfer(accounts, vault, held)),
            },
        }
    }
}

/// The vault of an owner-only instruction and the transfer of all that it
/// holds, or the first check that fails, in the order request, vault,
/// caller, custody accounts.
pub open spec fn owner_claim(
    program_id: Seq<u8>,
    accounts: Seq<AccountSnapshot>,
    readings: OwnerReadingsView,
) -> Result<(VaultStateView, Option<TransferView>), VaultError> {
    match owner_envelope(accounts) {
        Err(e) => Err(e),
        Ok(_) => match open_vault(program_id, accounts[3]) {
            Err(e) => Err(e),
            Ok(vault) => match claim_of(accounts, readings, vault) {
                Err(e) => Err(e),
                Ok(transfer) => Ok((vault, transfer)),
            },
        },
    }
}

fn check_owner_envelope(accounts: &[AccountSnapshot]) -> (r: Result<(), VaultError>)
    ensures
        r == owner_envelope(accounts@),
{
    if accounts.len() < 5 {
        return Err(VaultError::InvalidInput);
    }
    verify_signer(&accounts[0])?;
    verify_writable(&accounts[1])?;
    verify_writable(&accounts[2])?;
    verify_writable(&accounts[3])?;
    if accounts[4].key != token_program_id() {
        return Err(VaultError::InvalidTokenAccount);
    }
    Ok(())
}

/// Decides an owner-only instruction, given its accounts (owner, owner
/// custody account, vault custody account, vault record, token program)
/// and what the token program says of the custody accounts.
pub(crate) fn plan_owner_claim(
    program_id: &Key,
    accounts: &[AccountSnapshot],
    readings: &OwnerReadings,
) -> (r: Result<(VaultState, Option<Transfer>), VaultError>)
    ensures
        match r {
            Ok((vault_state, transfer)) => owner_claim(program_id@, accounts@, readings@) == Ok::<
                (VaultStateView, Option<TransferView>),
                VaultError,
            >((vault_state@, view_of(transfer))),
            Err(e) => owner_claim(program_id@, accounts@, readings@) == Err::<
                (VaultStateView, Option<TransferView>),
                VaultError,
            >(e),
        },
{
    check_owner_envelope(accounts)?;
    let owner = &accounts[0];
    let owner_token_account = &accounts[1];
    let vault_token_account = &accounts[2];
    let vault_state_account = &accounts[3];
    let vault_state = load_open_vault(program_id, vault_state_account)?;
    if owner.key != vault_state.owner {
        return Err(VaultError::UnauthorizedAccess);
    }
    let token_program = token_program_id();
    if owner_token_account.owner != token_program {
        return Err(VaultError::InvalidTokenAccount);
    }
    if vault_token_account.owner != token_program {
        return Err(VaultError::InvalidTokenAccount);
    }
    let _ = custody_amount(readings.owner_custody, &vault_state.token_mint)?;
    let held = custody_amount(readings.vault_custody, &vault_state.token_mint)?;
    let transfer = if held == 0 {
        None
    } else {
        Some(
            Transfer {
                source: vault_token_account.key,
                destination: owner_token_account.key,
                authority: Authority::Derived {
                    address: vault_state_account.key,
                    seeds: seeds_of_vault(&vault_state),
                },
                amount: held,
            },
        )
    };
    Ok((vault_state, transfer))
}

/// What a custody account that held `held` holds after the transfer was
/// made, if there was one.
pub open spec fn left_after(held: u64, transfer: Option<TransferView>) -> int {
    match transfer {
        None => held as int,
        Some(t) => held - t.amount,
    }
}

/// Only the vault's owner is served: a caller with another key gets no
/// plan, whatever else holds of the request, and where the request and the
/// vault pass their checks the refusal is `UnauthorizedAccess`.
pub proof fn lemma_owner_only(
    program_id: Seq<u8>,
    accounts: Seq<AccountSnapshot>,
    readings: OwnerReadingsView,
)
    requires
        stored_vault_state(accounts[3].data@) matches Ok(vault) && accounts[0].key@ != vault.owner,
    ensures
        withdraw_all_plan_given(program_id, accounts, readings) is Err,
        close_plan_given(program_id, accounts, readings) is Err,
        withdraw_all_plan(program_id, accounts) is Err,
        close_plan(program_id, accounts) is Err,
        owner_envelope(accounts) is Ok && open_vault(program_id, accounts[3]) is Ok ==> {
            &&& withdraw_all_plan_given(program_id, accounts, readings) == Err::<
                WithdrawAllPlanView,
                VaultError,
            >(VaultError::UnauthorizedAccess)
            &&& close_plan_given(program_id, accounts, readings) == Err::<
                ClosePlanView,
                VaultError,
            >(VaultError::UnauthorizedAccess)
        },
{
}

/// The transfer of an owner-only instruction takes all that the vault's
/// custody account holds, out of that account and into the owner's:
/// nothing is left once the host has made it.
pub proof fn lemma_owner_claim_empties_custody(
    program_id: Seq<u8>,
    accounts: Seq<AccountSnapshot>,
    readings: OwnerReadingsView,
)
    requires
        owner_claim(program_id, accounts, readings) is Ok,
    ensures
        ({
            let (vault, transfer) = owner_claim(program_id, accounts, readings)->Ok_0;
            &&& readings.vault_custody matches Some((_, held)) && left_after(held, transfer) == 0
            &&& transfer matches Some(t) ==> t.source == accounts[2].key@ && t.destination
                == accounts[1].key@
        }),
{
}

} // verus!
