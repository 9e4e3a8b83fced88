//! Close: the owner takes all that the vault's custody account holds and
//! the vault accepts no instruction any more.

use vstd::prelude::*;
use crate::account::AccountSnapshot;
use crate::action::{view_of, Transfer, TransferView};
use crate::error::VaultError;
use crate::key::Key;
use crate::processor::deposit::{deposit_envelope, deposit_plan, deposit_plan_given,
    DepositPlanView};
use crate::processor::owner::{owner_claim, owner_envelope, plan_owner_claim};
use crate::processor::readings::{owner_readings, read_owner_accounts, user_readings,
    OwnerReadings, OwnerReadingsView, UserReadingsView};
use crate::processor::withdraw::{withdraw_envelope, withdraw_plan, withdraw_plan_given,
    WithdrawPlanView};
use crate::processor::withdraw_all::{withdraw_all_plan, withdraw_all_plan_given,
    WithdrawAllPlanView};
use crate::processor::{agrees, lemma_vault_state_reads_back, serialize_vault_state_safe,
    stored_vault_state, stores_vault_state, with_vault_state};
use crate::state::{VaultState, VaultStateView};

verus! {

/// A validated close: the vault record as it stands, and the transfer of
/// all that the vault's custody account holds to the owner's, which the
/// vault record's address authorizes by its seeds. There is no transfer
/// where the vault holds nothing.
#[derive(Debug, Clone, Copy, PartialEq, Eq)]
pub struct ClosePlan {
    pub vault_state: VaultState,
    pub transfer: Option<Transfer>,
}

/// The mathematical value of a [`ClosePlan`].
pub struct ClosePlanView {
    pub vault_state: VaultStateView,
    pub transfer: Option<TransferView>,
}

impl View for ClosePlan {
    type V = ClosePlanView;

    open spec fn view(&self) -> ClosePlanView {
        ClosePlanView { vault_state: self.vault_state@, transfer: view_of(self.transfer) }
    }
}

/// What [`plan_close`] returns: the first check that fails, or the plan.
pub open spec fn close_plan_given(
    program_id: Seq<u8>,
    accounts: Seq<AccountSnapshot>,
    readings: OwnerReadingsView,
) -> Result<ClosePlanView, VaultError> {
    match owner_claim(program_id, accounts, readings) {
        Err(e) => Err(e),
        Ok((vault, transfer)) => Ok(ClosePlanView { vault_state: vault, transfer }),
    }
}

/// What [`process_close`] returns: [`close_plan_given`] on what the token
/// program says of the custody accounts.
pub open spec fn close_plan(program_id: Seq<u8>, accounts: Seq<AccountSnapshot>) -> Result<
    ClosePlanView,
    VaultError,
> {
    close_plan_given(program_id, accounts, owner_readings(accounts))
}

/// Decides a close, given its accounts (owner, owner custody account,
/// vault custody account, vault record, token program) and what the token
/// program says of the custody accounts. Nothing is changed; the plan says
/// what the host has to do before the close is committed.
pub fn plan_close(program_id: &Key, accounts: &[AccountSnapshot], readings: &OwnerReadings) -> (r:
    Result<ClosePlan, VaultError>)
    ensures
        agrees(r, close_plan_given(program_id@, accounts@, readings@)),
{
    let (vault_state, transfer) = plan_owner_claim(program_id, accounts, readings)?;
    Ok(ClosePlan { vault_state, transfer })
}

/// Validates a close against its accounts: owner, owner custody account,
/// vault custody account, vault record, token program. Nothing is changed;
/// the plan says what the host has to do before the close is committed.
pub fn process_close(program_id: &Key, accounts: &[AccountSnapshot]) -> (r: Result<
    ClosePlan,
    VaultError,
>)
    ensures
        agrees(r, close_plan(program_id@, accounts@)),
{
    if accounts.len() < 5 {
        return Err(VaultError::InvalidInput);
    }
    let readings = read_owner_accounts(accounts);
    plan_close(program_id, accounts, &readings)
}

/// The vault record after it was closed.
pub open spec fn closed_record(vault: VaultStateView) -> VaultStateView {
    VaultStateView { is_closed: true, ..vault }
}

impl ClosePlanView {
    /// What the vault record's buffer holds after the close is committed.
    /// The vault must be open (`VaultClosed`) and the record must fit the
    /// buffer (`InvalidInput`).
    pub open spec fn committed(self, vault_state_data: Seq<u8>) -> Result<Seq<u8>, VaultError> {
        if self.vault_state.is_closed {
            Err(VaultError::VaultClosed)
        } else {
            with_vault_state(vault_state_data, closed_record(self.vault_state))
        }
    }
}

impl ClosePlan {
    /// Commits the close once the host has made the transfer, if there was
    /// one: marks the vault closed and stores the record. On failure the
    /// buffer stays as it is.
    pub fn commit(&self, vault_state_data: &mut [u8]) -> (r: Result<(), VaultError>)
        ensures
            match self@.committed(old(vault_state_data)@) {
                Ok(new_vault_data) => r is Ok && final(vault_state_data)@ == new_vault_data,
                Err(e) => r == Err::<(), VaultError>(e) && final(vault_state_data)@ == old(
                    vault_state_data,
                )@,
            },
            r is Ok ==> stores_vault_state(
                final(vault_state_data)@,
                closed_record(self.vault_state@),
            ),
    {
        let mut vault_state = self.vault_state;
        if !vault_state.is_operational() {
            return Err(VaultError::VaultClosed);
        }
        vault_state.close();
        serialize_vault_state_safe(&vault_state, vault_state_data)
    }
}

/// A closed vault serves nobody: whatever the request and whatever the
/// host's programs say of its accounts, no instruction on it gets a plan,
/// and a request that passes the checks on the request alone is refused
/// with `VaultClosed`.
pub proof fn lemma_closed_vault_refuses(
    program_id: Seq<u8>,
    accounts: Seq<AccountSnapshot>,
    amount: u64,
    user: UserReadingsView,
    owner: OwnerReadingsView,
)
    requires
        stored_vault_state(accounts[3].data@) matches Ok(vault) && vault.is_closed,
    ensures
        deposit_plan_given(program_id, accounts, amount, user) is Err,
        withdraw_plan_given(program_id, accounts, amount, user) is Err,
        withdraw_all_plan_given(program_id, accounts, owner) is Err,
        close_plan_given(program_id, accounts, owner) is Err,
        deposit_envelope(accounts, amount) is Ok ==> deposit_plan_given(
            program_id,
            accounts,
            amount,
            user,
        ) == Err::<DepositPlanView, VaultError>(VaultError::VaultClosed),
        withdraw_envelope(accounts, amount) is Ok ==> withdraw_plan_given(
            program_id,
            accounts,
            amount,
            user,
        ) == Err::<WithdrawPlanView, VaultError>(VaultError::VaultClosed),
        owner_envelope(accounts) is Ok ==> withdraw_all_plan_given(program_id, accounts, owner)
            == Err::<WithdrawAllPlanView, VaultError>(VaultError::VaultClosed),
        owner_envelope(accounts) is Ok ==> close_plan_given(program_id, accounts, owner) == Err::<
            ClosePlanView,
            VaultError,
        >(VaultError::VaultClosed),
{
}

/// Closing is final. Once a close was committed to the vault record's
/// account, every instruction that finds this record in its vault account
/// is refused, a well-formed request with `VaultClosed`.
pub proof fn lemma_close_is_terminal(
    plan: ClosePlanView,
    vault_state_data: Seq<u8>,
    program_id: Seq<u8>,
    accounts: Seq<AccountSnapshot>,
    amount: u64,
)
    requires
        plan.vault_state.well_formed(),
        vault_state_data.len() == 106,
        plan.committed(vault_state_data) == Ok::<Seq<u8>, VaultError>(accounts[3].data@),
    ensures
        stored_vault_state(accounts[3].data@) == Ok::<VaultStateView, VaultError>(
            closed_record(plan.vault_state),
        ),
        deposit_plan(program_id, accounts, amount) is Err,
        withdraw_plan(program_id, accounts, amount) is Err,
        withdraw_all_plan(program_id, accounts) is Err,
        close_plan(program_id, accounts) is Err,
        deposit_envelope(accounts, amount) is Ok ==> deposit_plan(program_id, accounts, amount)
            == Err::<DepositPlanView, VaultError>(VaultError::VaultClosed),
        withdraw_envelope(accounts, amount) is Ok ==> withdraw_plan(program_id, accounts, amount)
            == Err::<WithdrawPlanView, VaultError>(VaultError::VaultClosed),
        owner_envelope(accounts) is Ok ==> withdraw_all_plan(program_id, accounts) == Err::<
            WithdrawAllPlanView,
            VaultError,
        >(VaultError::VaultClosed),
        owner_envelope(accounts) is Ok ==> close_plan(program_id, accounts) == Err::<
            ClosePlanView,
            VaultError,
        >(VaultError::VaultClosed),
{
    lemma_vault_state_reads_back(vault_state_data, closed_record(plan.vault_state));
    lemma_closed_vault_refuses(
        program_id,
        accounts,
        amount,
        user_readings(program_id, accounts),
        owner_readings(accounts),
    );
}

/// A closed record is never written again: no plan that holds a closed
/// vault is committed, whatever the buffers are.
pub proof fn lemma_closed_vault_is_not_committed(
    deposit: DepositPlanView,
    withdrawal: WithdrawPlanView,
    sweep: WithdrawAllPlanView,
    close: ClosePlanView,
    user_balance_data: Seq<u8>,
    vault_state_data: Seq<u8>,
)
    ensures
        deposit.vault_state.is_closed ==> deposit.committed(user_balance_data, vault_state_data)
            == Err::<(Seq<u8>, Seq<u8>), VaultError>(VaultError::VaultClosed),
        withdrawal.vault_state.is_closed ==> withdrawal.committed(
            user_balance_data,
            vault_state_data,
        ) == Err::<(Seq<u8>, Seq<u8>), VaultError>(VaultError::VaultClosed),
        sweep.vault_state.is_closed ==> sweep.committed(vault_state_data) == Err::<
            Seq<u8>,
            VaultError,
        >(VaultError::VaultClosed),
        close.vault_state.is_closed ==> close.committed(vault_state_data) == Err::<
            Seq<u8>,
            VaultError,
        >(VaultError::VaultClosed),
{
}

} // verus!
