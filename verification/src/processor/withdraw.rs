//! Withdraw: a user takes tokens back out of the vault.

use vstd::prelude::*;
use crate::account::AccountSnapshot;
use crate::action::{Authority, AuthorityView, SeedTag, Seeds, SeedsView, Transfer, TransferView};
use crate::error::VaultError;
use crate::key::Key;
use crate::processor::readings::{address_view, read_user_accounts, user_readings, UserReadings,
    UserReadingsView};
use crate::processor::{agrees, custody_amount, custody_of, deserialize_user_balance_safe,
    lemma_user_balance_reads_back, lemma_vault_state_reads_back, load_open_vault, open_vault,
    serialize_user_balance_safe, serialize_vault_state_safe, stored_user_balance,
    stored_vault_state, stores_user_balance, stores_vault_state, with_user_balance,
    with_vault_state};
use crate::state::{UserBalance, UserBalanceView, VaultState, VaultStateView};
use crate::token::{token_program_id, token_program_key};
use crate::utils::{address_or_invalid, verify_signer, verify_writable};

verus! {

/// A validated withdrawal: the records as they stand, and the transfer from
/// the vault's custody account to the user's, which the vault record's
/// address authorizes by its seeds.
#[derive(Debug, Clone, Copy, PartialEq, Eq)]
pub struct WithdrawPlan {
    pub vault_state: VaultState,
    pub user_balance: UserBalance,
    pub transfer: Transfer,
}

/// The mathematical value of a [`WithdrawPlan`].
pub struct WithdrawPlanView {
    pub vault_state: VaultStateView,
    pub user_balance: UserBalanceView,
    pub transfer: TransferView,
}

impl View for WithdrawPlan {
    type V = WithdrawPlanView;

    open spec fn view(&self) -> WithdrawPlanView {
        WithdrawPlanView {
            vault_state: self.vault_state@,
            user_balance: self.user_balance@,
            transfer: self.transfer@,
        }
    }
}

/// The seeds by which a vault record's address authorizes a transfer out of
/// the vault.
pub open spec fn vault_seeds(vault: VaultStateView) -> SeedsView {
    SeedsView {
        tag: SeedTag::Vault,
        key_a: vault.owner,
        key_b: vault.token_mint,
        bump: vault.bump,
    }
}

/// The seeds by which a vault record's address authorizes a transfer out of
/// the vault.
pub fn seeds_of_vault(vault_state: &VaultState) -> (seeds: Seeds)
    ensures
        seeds@ == vault_seeds(vault_state@),
{
    Seeds {
        tag: SeedTag::Vault,
        key_a: vault_state.owner,
        key_b: vault_state.token_mint,
        bump: vault_state.bump,
    }
}

/// The checks of a withdrawal that look at the request alone: six accounts
/// and an amount (`InvalidInput`), the user's signature
/// (`UnauthorizedAccess`), four writable accounts (`InvalidInput`) and the
/// token program (`InvalidTokenAccount`).
pub open spec fn withdraw_envelope(accounts: Seq<AccountSnapshot>, amount: u64) -> Result<
    (),
    VaultError,
> {
    if accounts.len() < 6 {
        Err(VaultError::InvalidInput)
    } else if amount == 0 {
        Err(VaultError::InvalidInput)
    } else if !accounts[0].is_signer {
        Err(VaultError::UnauthorizedAccess)
    } else if !(accounts[1].is_writable && accounts[2].is_writable && accounts[3].is_writable
        && accounts[4].is_writable) {
        Err(VaultError::InvalidInput)
    } else if accounts[5].key@ != token_program_key() {
        Err(VaultError::InvalidTokenAccount)
    } else {
        Ok(())
    }
}

/// The balance record that a withdrawal of `user` from the vault at
/// `vault_state` works on, given the derived address of the record: the
/// stored record of the account at the derived address, which this program
/// must own (`InvalidInput`).
pub open spec fn withdrawer_record(
    program_id: Seq<u8>,
    user_balance: AccountSnapshot,
    derived: Option<(Seq<u8>, u8)>,
) -> Result<UserBalanceView, VaultError> {
    match derived {
        None => Err(VaultError::InvalidInput),
        Some((address, _)) => if address != user_balance.key@ {
            Err(VaultError::InvalidInput)
        } else if user_balance.owner@ != program_id {
            Err(VaultError::InvalidInput)
        } else {
            stored_user_balance(user_balance.data@)
        },
    }
}

/// The checks of a withdrawal from an open vault, and the plan where all
/// pass. Both custody accounts must belong to the token program
/// (`InvalidTokenAccount`) and be ones of the vault's mint; the vault's
/// must hold the amount, and so must the user's balance record
/// (`InsufficientFunds`).
pub open spec fn withdraw_from(
    program_id: Seq<u8>,
    accounts: Seq<AccountSnapshot>,
    amount: u64,
    readings: UserReadingsView,
    vault: VaultStateView,
) -> Result<WithdrawPlanView, VaultError> {
    if accounts[1].owner@ != token_program_key() || accounts[2].owner@ != token_program_key() {
        Err(VaultError::InvalidTokenAccount)
    } else {
        match custody_of(readings.user_custody, vault.token_mint) {
            Err(e) => Err(e),
            Ok(_) => match custody_of(readings.vault_custody, vault.token_mint) {
                Err(e) => Err(e),
                Ok(held) => if held < amount {
                    Err(VaultError::InsufficientFunds)
                } else {
                    match withdrawer_record(program_id, accounts[4], readings.balance_address) {
                        Err(e) => Err(e),
                        Ok(record) => if record.balance < amount {
                            Err(VaultError::InsufficientFunds)
                        } else {
                            Ok(
                                WithdrawPlanView {
                                    vault_state: vault,
                                    user_balance: record,
                                    transfer: TransferView {
                                        source: accounts[2].key@,
                                        destination: accounts[1].key@,
                                        authority: AuthorityView::Derived {
                                            address: accounts[3].key@,
                                            seeds: vault_seeds(vault),
                                        },
                                        amount,
                                    },
                                },
                            )
                        },
                    }
                },
            },
        }
    }
}

/// What [`plan_withdraw`] returns: the first check that fails, in the
/// order request, vault, custody accounts, balance record; or the plan.
pub open spec fn withdraw_plan_given(
    program_id: Seq<u8>,
    accounts: Seq<AccountSnapshot>,
    amount: u64,
    readings: UserReadingsView,
) -> Result<WithdrawPlanView, VaultError> {
    match withdraw_envelope(accounts, amount) {
        Err(e) => Err(e),
        Ok(_) => match open_vault(program_id, accounts[3]) {
            Err(e) => Err(e),
            Ok(vault) => withdraw_from(program_id, accounts, amount, readings, vault),
        },
    }
}

/// What [`process_withdraw`] returns: [`withdraw_plan_given`] on what the
/// host's programs say of the accounts.
pub open spec fn withdraw_plan(
    program_id: Seq<u8>,
    accounts: Seq<AccountSnapshot>,
    amount: u64,
) -> Result<WithdrawPlanView, VaultError> {
    withdraw_plan_given(program_id, accounts, amount, user_readings(program_id, accounts))
}

fn check_withdraw_envelope(accounts: &[AccountSnapshot], amount: u64) -> (r: Result<(), VaultError>)
    ensures
        r == withdraw_envelope(accounts@, amount),
{
    if accounts.len() < 6 {
        return Err(VaultError::InvalidInput);
    }
    if amount == 0 {
        return Err(VaultError::InvalidInput);
    }
    verify_signer(&accounts[0])?;
    verify_writable(&accounts[1])?;
    verify_writable(&accounts[2])?;
    verify_writable(&accounts[3])?;
    verify_writable(&accounts[4])?;
    if accounts[5].key != token_program_id() {
        return Err(VaultError::InvalidTokenAccount);
    }
    Ok(())
}

fn load_withdrawer_record(
    program_id: &Key,
    user_balance: &AccountSnapshot,
    derived: Option<(Key, u8)>,
) -> (r: Result<UserBalance, VaultError>)
    ensures
        agrees(
            r,
            withdrawer_record(
                program_id@,
                *user_balance,
                address_view(derived),
            ),
        ),
{
    let (address, _) = address_or_invalid(derived)?;
    if address != user_balance.key {
        return Err(VaultError::InvalidInput);
    }
    if user_balance.owner != *program_id {
        return Err(VaultError::InvalidInput);
    }
    deserialize_user_balance_safe(user_balance.data.as_slice())
}

/// Decides a withdrawal of `amount`, given its accounts (user, user
/// custody account, vault custody account, vault record, user balance
/// record, token program) and what the host's programs say of them. Nothing
/// is changed; the plan says what the host has to do before the withdrawal
/// is committed.
pub fn plan_withdraw(
    program_id: &Key,
    accounts: &[AccountSnapshot],
    amount: u64,
    readings: &UserReadings,
) -> (r: Result<WithdrawPlan, VaultError>)
    ensures
        agrees(r, withdraw_plan_given(program_id@, accounts@, amount, readings@)),
{
    check_withdraw_envelope(accounts, amount)?;
    let user_token_account = &accounts[1];
    let vault_token_account = &accounts[2];
    let vault_state_account = &accounts[3];
    let user_balance_account = &accounts[4];
    let vault_state = load_open_vault(program_id, vault_state_account)?;
    let token_program = token_program_id();
    if user_token_account.owner != token_program {
        return Err(VaultError::InvalidTokenAccount);
    }
    if vault_token_account.owner != token_program {
        return Err(VaultError::InvalidTokenAccount);
    }
    let _ = custody_amount(readings.user_custody, &vault_state.token_mint)?;
    let held = custody_amount(readings.vault_custody, &vault_state.token_mint)?;
    if held < amount {
        return Err(VaultError::InsufficientFunds);
    }
    let user_balance = load_withdrawer_record(
        program_id,
        user_balance_account,
        readings.balance_address,
    )?;
    if !user_balance.has_sufficient_balance(amount) {
        return Err(VaultError::InsufficientFunds);
    }
    Ok(
        WithdrawPlan {
            vault_state,
            user_balance,
            transfer: Transfer {
                source: vault_token_account.key,
                destination: user_token_account.key,
                authority: Authority::Derived {
                    address: vault_state_account.key,
                    seeds: seeds_of_vault(&vault_state),
                },
                amount,
            },
        },
    )
}

/// Validates a withdrawal of `amount` against its accounts: user, user
/// custody account, vault custody account, vault record, user balance
/// record, token program. Nothing is changed; the plan says what the host
/// has to do before the withdrawal is committed.
pub fn process_withdraw(program_id: &Key, accounts: &[AccountSnapshot], amount: u64) -> (r: Result<
    WithdrawPlan,
    VaultError,
>)
    ensures
        agrees(r, withdraw_plan(program_id@, accounts@, amount)),
{
    if accounts.len() < 6 {
        return Err(VaultError::InvalidInput);
    }
    let readings = read_user_accounts(program_id, accounts);
    plan_withdraw(program_id, accounts, amount, &readings)
}

/// The two records after `amount` was debited, or `InsufficientFunds` where
/// the balance or the total is smaller than the amount.
pub open spec fn debited(vault: VaultStateView, balance: UserBalanceView, amount: u64) -> Result<
    (VaultStateView, UserBalanceView),
    VaultError,
> {
    if balance.balance < amount || vault.total_deposited < amount {
        Err(VaultError::InsufficientFunds)
    } else {
        Ok(
            (
                VaultStateView {
                    total_deposited: (vault.total_deposited - amount) as u64,
                    ..vault
                },
                UserBalanceView { balance: (balance.balance - amount) as u64, ..balance },
            ),
        )
    }
}

impl WithdrawPlanView {
    /// What the two record buffers hold after the withdrawal is committed:
    /// first the balance record's, then the vault record's. The vault must
    /// be open (`VaultClosed`), the amount is debited from both records
    /// (`InsufficientFunds`), and both must fit their buffers
    /// (`InvalidInput`).
    pub open spec fn committed(
        self,
        user_balance_data: Seq<u8>,
        vault_state_data: Seq<u8>,
    ) -> Result<(Seq<u8>, Seq<u8>), VaultError> {
        if self.vault_state.is_closed {
            Err(VaultError::VaultClosed)
        } else {
            match debited(self.vault_state, self.user_balance, self.transfer.amount) {
                Err(e) => Err(e),
                Ok((vault, balance)) => match with_user_balance(user_balance_data, balance) {
                    Err(e) => Err(e),
                    Ok(new_balance_data) => match with_vault_state(vault_state_data, vault) {
                        Err(e) => Err(e),
                        Ok(new_vault_data) => Ok((new_balance_data, new_vault_data)),
                    },
                },
            }
        }
    }
}

impl WithdrawPlan {
    /// Commits the withdrawal once the host has made the transfer: debits
    /// the amount from the user's balance and from the vault's total and
    /// stores both records. On any failure both buffers stay as they are.
    /// Buffers of the records' sizes then read back as the debited
    /// records.
    pub fn commit(&self, user_balance_data: &mut [u8], vault_state_data: &mut [u8]) -> (r: Result<
        (),
        VaultError,
    >)
        ensures
            match self@.committed(old(user_balance_data)@, old(vault_state_data)@) {
                Ok((new_balance_data, new_vault_data)) => {
                    &&& r is Ok
                    &&& final(user_balance_data)@ == new_balance_data
                    &&& final(vault_state_data)@ == new_vault_data
                },
                Err(e) => {
                    &&& r == Err::<(), VaultError>(e)
                    &&& final(user_balance_data)@ == old(user_balance_data)@
                    &&& final(vault_state_data)@ == old(vault_state_data)@
                },
            },
            r is Ok ==> {
                let (vault, balance) = debited(
                    self.vault_state@,
                    self.user_balance@,
                    self.transfer.amount,
                )->Ok_0;
                &&& stores_user_balance(final(user_balance_data)@, balance)
                &&& stores_vault_state(final(vault_state_data)@, vault)
            },
    {
        let mut user_balance = self.user_balance;
        let mut vault_state = self.vault_state;
        if !vault_state.is_operational() {
            return Err(VaultError::VaultClosed);
        }
        if user_balance.subtract_balance(self.transfer.amount).is_err() {
            return Err(VaultError::InsufficientFunds);
        }
        if vault_state.subtract_withdrawal(self.transfer.amount).is_err() {
            return Err(VaultError::InsufficientFunds);
        }
        if vault_state.validate().is_err() || vault_state_data.len() < VaultState::SIZE {
            return Err(VaultError::InvalidInput);
        }
        serialize_user_balance_safe(&user_balance, user_balance_data)?;
        serialize_vault_state_safe(&vault_state, vault_state_data)?;
        Ok(())
    }
}

/// Everything about a withdrawal is in order, but for the funds: the
/// request, the vault, the custody accounts and the balance record pass
/// their checks.
pub open spec fn withdraw_in_order(
    program_id: Seq<u8>,
    accounts: Seq<AccountSnapshot>,
    amount: u64,
    readings: UserReadingsView,
) -> bool {
    &&& withdraw_envelope(accounts, amount) is Ok
    &&& open_vault(program_id, accounts[3]) matches Ok(vault)
    &&& accounts[1].owner@ == token_program_key()
    &&& accounts[2].owner@ == token_program_key()
    &&& custody_of(readings.user_custody, vault.token_mint) is Ok
    &&& custody_of(readings.vault_custody, vault.token_mint) is Ok
    &&& withdrawer_record(program_id, accounts[4], readings.balance_address) is Ok
}

/// A withdrawal that is in order is accepted exactly when both the vault's
/// custody account and the user's balance record cover the amount, and is
/// refused with `InsufficientFunds` otherwise.
pub proof fn lemma_withdraw_needs_funds(
    program_id: Seq<u8>,
    accounts: Seq<AccountSnapshot>,
    amount: u64,
    readings: UserReadingsView,
)
    requires
        withdraw_in_order(program_id, accounts, amount, readings),
    ensures
        ({
            let vault = open_vault(program_id, accounts[3])->Ok_0;
            let held = custody_of(readings.vault_custody, vault.token_mint)->Ok_0;
            let record = withdrawer_record(program_id, accounts[4], readings.balance_address)->Ok_0;
            let plan = withdraw_plan_given(program_id, accounts, amount, readings);
            &&& plan is Ok <==> amount <= held && amount <= record.balance
            &&& plan is Err ==> plan == Err::<WithdrawPlanView, VaultError>(
                VaultError::InsufficientFunds,
            )
        }),
{
}

/// No withdrawal beyond the recorded balance is ever accepted, whatever
/// else holds of the request.
pub proof fn lemma_withdraw_beyond_balance_refused(
    program_id: Seq<u8>,
    accounts: Seq<AccountSnapshot>,
    amount: u64,
    readings: UserReadingsView,
)
    requires
        stored_user_balance(accounts[4].data@) matches Ok(record) && record.balance < amount,
    ensures
        withdraw_plan_given(program_id, accounts, amount, readings) is Err,
        withdraw_plan(program_id, accounts, amount) is Err,
{
}

/// A withdrawal beyond what the records say is not committed: it fails with
/// `InsufficientFunds`, whatever the buffers are, and a commit that fails
/// changes no byte.
pub proof fn lemma_withdraw_underflow_refused(
    plan: WithdrawPlanView,
    user_balance_data: Seq<u8>,
    vault_state_data: Seq<u8>,
)
    requires
        !plan.vault_state.is_closed,
        plan.user_balance.balance < plan.transfer.amount || plan.vault_state.total_deposited
            < plan.transfer.amount,
    ensures
        plan.committed(user_balance_data, vault_state_data) == Err::<
            (Seq<u8>, Seq<u8>),
            VaultError,
        >(VaultError::InsufficientFunds),
{
}

/// What a committed withdrawal stores, in accounts of the records' sizes:
/// the two records with the amount debited.
pub proof fn lemma_withdraw_stores_debit(
    plan: WithdrawPlanView,
    user_balance_data: Seq<u8>,
    vault_state_data: Seq<u8>,
)
    requires
        plan.vault_state.well_formed(),
        plan.user_balance.well_formed(),
        user_balance_data.len() == 73,
        vault_state_data.len() == 106,
        plan.committed(user_balance_data, vault_state_data) is Ok,
    ensures
        debited(plan.vault_state, plan.user_balance, plan.transfer.amount) is Ok,
        stored_user_balance(plan.committed(user_balance_data, vault_state_data)->Ok_0.0) == Ok::<
            UserBalanceView,
            VaultError,
        >(debited(plan.vault_state, plan.user_balance, plan.transfer.amount)->Ok_0.1),
        stored_vault_state(
            plan.committed(user_balance_data, vault_state_data)->Ok_0.1,
        ) == Ok::<VaultStateView, VaultError>(
            debited(plan.vault_state, plan.user_balance, plan.transfer.amount)->Ok_0.0,
        ),
{
    let (vault, balance) = debited(
        plan.vault_state,
        plan.user_balance,
        plan.transfer.amount,
    )->Ok_0;
    lemma_user_balance_reads_back(user_balance_data, balance);
    lemma_vault_state_reads_back(vault_state_data, vault);
}

/// What an accepted withdrawal asks of the token program: to move the
/// amount, which is not zero and which both the vault's custody account
/// and the user's balance record cover, from the account given as the
/// vault's custody account to the user's, on the authority of the vault
/// record's address. The plan holds the two records as their accounts
/// store them.
pub proof fn lemma_withdraw_plan_transfer(
    program_id: Seq<u8>,
    accounts: Seq<AccountSnapshot>,
    amount: u64,
    readings: UserReadingsView,
)
    requires
        withdraw_plan_given(program_id, accounts, amount, readings) is Ok,
    ensures
        ({
            let plan = withdraw_plan_given(program_id, accounts, amount, readings)->Ok_0;
            &&& plan.transfer == (TransferView {
                source: accounts[2].key@,
                destination: accounts[1].key@,
                authority: AuthorityView::Derived {
                    address: accounts[3].key@,
                    seeds: vault_seeds(plan.vault_state),
                },
                amount,
            })
            &&& amount > 0
            &&& readings.vault_custody matches Some((_, held)) && amount <= held
            &&& amount <= plan.user_balance.balance
            &&& stored_vault_state(accounts[3].data@) == Ok::<
                VaultStateView,
                VaultError,
            >(plan.vault_state)
            &&& !plan.vault_state.is_closed
            &&& stored_user_balance(accounts[4].data@) == Ok::<UserBalanceView, VaultError>(
                plan.user_balance,
            )
        }),
{
}

} // verus!
