//! WithdrawAll: the owner takes all that the vault's custody account holds.
//! The depositors' balance records are not touched.

use vstd::prelude::*;
use crate::account::AccountSnapshot;
use crate::action::{view_of, Transfer, TransferView};
use crate::error::VaultError;
use crate::key::Key;
use crate::processor::owner::{owner_claim, plan_owner_claim};
use crate::processor::readings::{owner_readings, read_owner_accounts, OwnerReadings,
    OwnerReadingsView};
use crate::processor::{agrees, serialize_vault_state_safe, stores_vault_state, with_vault_state};
use crate::state::{VaultState, VaultStateView};

verus! {

/// A validated owner sweep: the vault record as it stands, and the transfer
/// of all that the vault's custody account holds to the owner's, which
/// the vault record's address authorizes by its seeds. There is no
/// transfer where the vault holds nothing.
#[derive(Debug, Clone, Copy, PartialEq, Eq)]
pub struct WithdrawAllPlan {
    pub vault_state: VaultState,
    pub transfer: Option<Transfer>,
}

/// The mathematical value of a [`WithdrawAllPlan`].
pub struct WithdrawAllPlanView {
    pub vault_state: VaultStateView,
    pub transfer: Option<TransferView>,
}

impl View for WithdrawAllPlan {
    type V = WithdrawAllPlanView;

    open spec fn view(&self) -> WithdrawAllPlanView {
        WithdrawAllPlanView { vault_state: self.vault_state@, transfer: view_of(self.transfer) }
    }
}

/// What [`plan_withdraw_all`] returns: the first check that fails, or the
/// plan.
pub open spec fn withdraw_all_plan_given(
    program_id: Seq<u8>,
    accounts: Seq<AccountSnapshot>,
    readings: OwnerReadingsView,
) -> Result<WithdrawAllPlanView, VaultError> {
    match owner_claim(program_id, accounts, readings) {
        Err(e) => Err(e),
        Ok((vault, transfer)) => Ok(WithdrawAllPlanView { vault_state: vault, transfer }),
    }
}

/// What [`process_withdraw_all`] returns: [`withdraw_all_plan_given`] on
/// what the token program says of the custody accounts.
pub open spec fn withdraw_all_plan(program_id: Seq<u8>, accounts: Seq<AccountSnapshot>) -> Result<
    WithdrawAllPlanView,
    VaultError,
> {
    withdraw_all_plan_given(program_id, accounts, owner_readings(accounts))
}

/// Decides an owner sweep, given its accounts (owner, owner custody
/// account, vault custody account, vault record, token program) and what
/// the token program says of the custody accounts. Nothing is changed; the
/// plan says what the host has to do before the sweep is committed.
pub fn plan_withdraw_all(
    program_id: &Key,
    accounts: &[AccountSnapshot],
    readings: &OwnerReadings,
) -> (r: Result<WithdrawAllPlan, VaultError>)
    ensures
        agrees(r, withdraw_all_plan_given(program_id@, accounts@, readings@)),
{
    let (vault_state, transfer) = plan_owner_claim(program_id, accounts, readings)?;
    Ok(WithdrawAllPlan { vault_state, transfer })
}

/// Validates an owner sweep against its accounts: owner, owner custody
/// account, vault custody account, vault record, token program. Nothing is
/// changed; the plan says what the host has to do before the sweep is
/// committed.
pub fn process_withdraw_all(program_id: &Key, accounts: &[AccountSnapshot]) -> (r: Result<
    WithdrawAllPlan,
    VaultError,
>)
    ensures
        agrees(r, withdraw_all_plan(program_id@, accounts@)),
{
    if accounts.len() < 5 {
        return Err(VaultError::InvalidInput);
    }
    let readings = read_owner_accounts(accounts);
    plan_withdraw_all(program_id, accounts, &readings)
}

/// The vault record after an owner sweep: the total is zero.
pub open spec fn swept_record(vault: VaultStateView) -> VaultStateView {
    VaultStateView { total_deposited: 0, ..vault }
}

impl WithdrawAllPlanView {
    /// What the vault record's buffer holds after the sweep is committed.
    /// The vault must be open (`VaultClosed`) and the record must fit the
    /// buffer (`InvalidInput`).
    pub open spec fn committed(self, vault_state_data: Seq<u8>) -> Result<Seq<u8>, VaultError> {
        if self.vault_state.is_closed {
            Err(VaultError::VaultClosed)
        } else {
            with_vault_state(vault_state_data, swept_record(self.vault_state))
        }
    }
}

impl WithdrawAllPlan {
    /// Commits the sweep once the host has made the transfer: sets the
    /// vault's total to zero and stores the record. On failure the buffer
    /// stays as it is.
    pub fn commit(&self, vault_state_data: &mut [u8]) -> (r: Result<(), VaultError>)
        ensures
            match self@.committed(old(vault_state_data)@) {
                Ok(new_vault_data) => r is Ok && final(vault_state_data)@ == new_vault_data,
                Err(e) => r == Err::<(), VaultError>(e) && final(vault_state_data)@ == old(
                    vault_state_data,
                )@,
            },
            r is Ok ==> stores_vault_state(
                final(vault_state_data)@,
                swept_record(self.vault_state@),
            ),
    {
        let mut vault_state = self.vault_state;
        if !vault_state.is_operational() {
            return Err(VaultError::VaultClosed);
        }
        vault_state.reset_total_deposited();
        serialize_vault_state_safe(&vault_state, vault_state_data)
    }
}

} // verus!
