//! Deposit: a user moves tokens into the vault and is credited for them.

use vstd::prelude::*;
use crate::account::AccountSnapshot;
use crate::action::{view_of, Allocation, AllocationView, Authority, AuthorityView, SeedTag, Seeds,
    SeedsView, Transfer, TransferView};
use crate::error::VaultError;
use crate::key::{zero_key, Key};
use crate::processor::readings::{address_view, user_readings, read_user_accounts, UserReadings,
    UserReadingsView};
use crate::processor::{agrees, custody_amount, custody_of, deserialize_user_balance_safe,
    lemma_user_balance_reads_back, lemma_vault_state_reads_back, load_open_vault, open_vault,
    serialize_user_balance_safe, serialize_vault_state_safe, stored_user_balance,
    stored_vault_state, stores_user_balance, stores_vault_state, with_user_balance,
    with_vault_state};
use crate::state::{UserBalance, UserBalanceView, VaultState, VaultStateView};
use crate::token::{system_program_id, token_program_id, token_program_key};
use crate::utils::{address_or_invalid, verify_signer, verify_writable};

verus! {

/// A validated deposit: the records as they stand, the allocation of the
/// user's balance record where it does not exist yet, and the transfer
/// from the user's custody account to the vault's.
#[derive(Debug, Clone, Copy, PartialEq, Eq)]
pub struct DepositPlan {
    pub vault_state: VaultState,
    pub user_balance: UserBalance,
    pub allocation: Option<Allocation>,
    pub transfer: Transfer,
}

/// The mathematical value of a [`DepositPlan`].
pub struct DepositPlanView {
    pub vault_state: VaultStateView,
    pub user_balance: UserBalanceView,
    pub allocation: Option<AllocationView>,
    pub transfer: TransferView,
}

impl View for DepositPlan {
    type V = DepositPlanView;

    open spec fn view(&self) -> DepositPlanView {
        DepositPlanView {
            vault_state: self.vault_state@,
            user_balance: self.user_balance@,
            allocation: view_of(self.allocation),
            transfer: self.transfer@,
        }
    }
}

/// The checks of a deposit that look at the request alone: seven accounts
/// and an amount (`InvalidInput`), the user's signature
/// (`UnauthorizedAccess`), four writable accounts (`InvalidInput`), the
/// token program (`InvalidTokenAccount`) and the system program
/// (`InvalidInput`).
pub open spec fn deposit_envelope(accounts: Seq<AccountSnapshot>, amount: u64) -> Result<
    (),
    VaultError,
> {
    if accounts.len() < 7 {
        Err(VaultError::InvalidInput)
    } else if amount == 0 {
        Err(VaultError::InvalidInput)
    } else if !accounts[0].is_signer {
        Err(VaultError::UnauthorizedAccess)
    } else if !(accounts[1].is_writable && accounts[2].is_writable && accounts[3].is_writable
        && accounts[4].is_writable) {
        Err(VaultError::InvalidInput)
    } else if accounts[5].key@ != token_program_key() {
        Err(VaultError::InvalidTokenAccount)
    } else if accounts[6].key@ != zero_key() {
        Err(VaultError::InvalidInput)
    } else {
        Ok(())
    }
}

/// The balance record that a deposit of `user` into the vault at
/// `vault_state` works on, given the derived address of the record. The
/// account must sit at the derived address (`InvalidInput`). Where the
/// system program still owns it, the record is a fresh one and the account
/// has to be allocated; where this program owns it, the record is the
/// stored one; any other owner is `InvalidInput`.
pub open spec fn depositor_record(
    program_id: Seq<u8>,
    user: AccountSnapshot,
    vault_state: AccountSnapshot,
    user_balance: AccountSnapshot,
    derived: Option<(Seq<u8>, u8)>,
) -> Result<(UserBalanceView, Option<AllocationView>), VaultError> {
    match derived {
        None => Err(VaultError::InvalidInput),
        Some((address, bump)) => if address != user_balance.key@ {
            Err(VaultError::InvalidInput)
        } else if user_balance.owner@ == zero_key() {
            let fresh = UserBalanceView {
                user: user.key@,
                vault: vault_state.key@,
                balance: 0,
                bump,
            };
            if fresh.valid() {
                Ok(
                    (
                        fresh,
                        Some(
                            AllocationView {
                                payer: user.key@,
                                address: user_balance.key@,
                                space: 73,
                                owner: program_id,
                                seeds: SeedsView {
                                    tag: SeedTag::UserBalance,
                                    key_a: user.key@,
                                    key_b: vault_state.key@,
                                    bump,
                                },
                            },
                        ),
                    ),
                )
            } else {
                Err(VaultError::InvalidInput)
            }
        } else if user_balance.owner@ == program_id {
            match stored_user_balance(user_balance.data@) {
                Err(e) => Err(e),
                Ok(stored) => Ok((stored, None)),
            }
        } else {
            Err(VaultError::InvalidInput)
        },
    }
}

/// The checks of a deposit into an open vault, and the plan where all pass.
/// Both custody accounts must belong to the token program
/// (`InvalidTokenAccount`) and be ones of the vault's mint; the user's must
/// hold the amount (`InsufficientFunds`).
pub open spec fn deposit_into(
    program_id: Seq<u8>,
    accounts: Seq<AccountSnapshot>,
    amount: u64,
    readings: UserReadingsView,
    vault: VaultStateView,
) -> Result<DepositPlanView, VaultError> {
    if accounts[1].owner@ != token_program_key() || accounts[2].owner@ != token_program_key() {
        Err(VaultError::InvalidTokenAccount)
    } else {
        match custody_of(readings.user_custody, vault.token_mint) {
            Err(e) => Err(e),
            Ok(held) => if held < amount {
                Err(VaultError::InsufficientFunds)
            } else {
                match custody_of(readings.vault_custody, vault.token_mint) {
                    Err(e) => Err(e),
                    Ok(_) => match depositor_record(
                        program_id,
                        accounts[0],
                        accounts[3],
                        accounts[4],
                        readings.balance_address,
                    ) {
                        Err(e) => Err(e),
                        Ok((record, allocation)) => Ok(
                            DepositPlanView {
                                vault_state: vault,
                                user_balance: record,
                                allocation,
                                transfer: TransferView {
                                    source: accounts[1].key@,
                                    destination: accounts[2].key@,
                                    authority: AuthorityView::Signer { key: accounts[0].key@ },
                                    amount,
                                },
                            },
                        ),
                    },
                }
            },
        }
    }
}

/// What [`plan_deposit`] returns: the first check that fails, in the order
/// request, vault, custody accounts, balance record; or the plan.
pub open spec fn deposit_plan_given(
    program_id: Seq<u8>,
    accounts: Seq<AccountSnapshot>,
    amount: u64,
    readings: UserReadingsView,
) -> Result<DepositPlanView, VaultError> {
    match deposit_envelope(accounts, amount) {
        Err(e) => Err(e),
        Ok(_) => match open_vault(program_id, accounts[3]) {
            Err(e) => Err(e),
            Ok(vault) => deposit_into(program_id, accounts, amount, readings, vault),
        },
    }
}

/// What [`process_deposit`] returns: [`deposit_plan_given`] on what the
/// host's programs say of the accounts.
pub open spec fn deposit_plan(
    program_id: Seq<u8>,
    accounts: Seq<AccountSnapshot>,
    amount: u64,
) -> Result<DepositPlanView, VaultError> {
    deposit_plan_given(program_id, accounts, amount, user_readings(program_id, accounts))
}

fn check_deposit_envelope(accounts: &[AccountSnapshot], amount: u64) -> (r: Result<(), VaultError>)
    ensures
        r == deposit_envelope(accounts@, amount),
{
    if accounts.len() < 7 {
        return Err(VaultError::InvalidInput);
    }
    if amount == 0 {
        return Err(VaultError::InvalidInput);
    }
    verify_signer(&accounts[0])?;
    verify_writable(&accounts[1])?;
    verify_writable(&accounts[2])?;
    verify_writable(&accounts[3])?;
    verify_writable(&accounts[4])?;
    if accounts[5].key != token_program_id() {
        return Err(VaultError::InvalidTokenAccount);
    }
    if accounts[6].key != system_program_id() {
        return Err(VaultError::InvalidInput);
    }
    Ok(())
}

fn load_depositor_record(
    program_id: &Key,
    user: &AccountSnapshot,
    vault_state: &AccountSnapshot,
    user_balance: &AccountSnapshot,
    derived: Option<(Key, u8)>,
) -> (r: Result<(UserBalance, Option<Allocation>), VaultError>)
    ensures
        match r {
            Ok((record, allocation)) => depositor_record(
                program_id@,
                *user,
                *vault_state,
                *user_balance,
                address_view(derived),
            ) == Ok::<(UserBalanceView, Option<AllocationView>), VaultError>(
                (record@, view_of(allocation)),
            ),
            Err(e) => depositor_record(
                program_id@,
                *user,
                *vault_state,
                *user_balance,
                address_view(derived),
            ) == Err::<(UserBalanceView, Option<AllocationView>), VaultError>(e),
        },
{
    let (address, bump) = address_or_invalid(derived)?;
    if address != user_balance.key {
        return Err(VaultError::InvalidInput);
    }
    if user_balance.owner == system_program_id() {
        let fresh = UserBalance::new(user.key, vault_state.key, bump);
        if fresh.validate().is_err() {
            return Err(VaultError::InvalidInput);
        }
        let allocation = Allocation {
            payer: user.key,
            address: user_balance.key,
            space: 73,
            owner: *program_id,
            seeds: Seeds {
                tag: SeedTag::UserBalance,
                key_a: user.key,
                key_b: vault_state.key,
                bump,
            },
        };
        Ok((fresh, Some(allocation)))
    } else if user_balance.owner == *program_id {
        let stored = deserialize_user_balance_safe(user_balance.data.as_slice())?;
        Ok((stored, None))
    } else {
        Err(VaultError::InvalidInput)
    }
}

/// Decides a deposit of `amount`, given its accounts (user, user custody
/// account, vault custody account, vault record, user balance record, token
/// program, system program) and what the host's programs say of them.
/// Nothing is changed; the plan says what the host has to do before the
/// deposit is committed.
pub fn plan_deposit(
    program_id: &Key,
    accounts: &[AccountSnapshot],
    amount: u64,
    readings: &UserReadings,
) -> (r: Result<DepositPlan, VaultError>)
    ensures
        agrees(r, deposit_plan_given(program_id@, accounts@, amount, readings@)),
{
    check_deposit_envelope(accounts, amount)?;
    let user = &accounts[0];
    let user_token_account = &accounts[1];
    let vault_token_account = &accounts[2];
    let vault_state_account = &accounts[3];
    let user_balance_account = &accounts[4];
    let vault_state = load_open_vault(program_id, vault_state_account)?;
    let token_program = token_program_id();
    if user_token_account.owner != token_program {
        return Err(VaultError::InvalidTokenAccount);
    }
    if vault_token_account.owner != token_program {
        return Err(VaultError::InvalidTokenAccount);
    }
    let held = custody_amount(readings.user_custody, &vault_state.token_mint)?;
    if held < amount {
        return Err(VaultError::InsufficientFunds);
    }
    let _ = custody_amount(readings.vault_custody, &vault_state.token_mint)?;
    let (user_balance, allocation) = load_depositor_record(
        program_id,
        user,
        vault_state_account,
        user_balance_account,
        readings.balance_address,
    )?;
    Ok(
        DepositPlan {
            vault_state,
            user_balance,
            allocation,
            transfer: Transfer {
                source: user_token_account.key,
                destination: vault_token_account.key,
                authority: Authority::Signer { key: user.key },
                amount,
            },
        },
    )
}

/// Validates a deposit of `amount` against its accounts: user, user
/// custody account, vault custody account, vault record, user balance
/// record, token program, system program. Nothing is changed; the plan says
/// what the host has to do before the deposit is committed.
pub fn process_deposit(program_id: &Key, accounts: &[AccountSnapshot], amount: u64) -> (r: Result<
    DepositPlan,
    VaultError,
>)
    ensures
        agrees(r, deposit_plan(program_id@, accounts@, amount)),
{
    if accounts.len() < 7 {
        return Err(VaultError::InvalidInput);
    }
    let readings = read_user_accounts(program_id, accounts);
    plan_deposit(program_id, accounts, amount, &readings)
}

/// The two records after `amount` was credited, or `ArithmeticOverflow`
/// where the balance or the total would leave the 64-bit range.
pub open spec fn credited(vault: VaultStateView, balance: UserBalanceView, amount: u64) -> Result<
    (VaultStateView, UserBalanceView),
    VaultError,
> {
    if balance.balance + amount > u64::MAX || vault.total_deposited + amount > u64::MAX {
        Err(VaultError::ArithmeticOverflow)
    } else {
        Ok(
            (
                VaultStateView {
                    total_deposited: (vault.total_deposited + amount) as u64,
                    ..vault
                },
                UserBalanceView { balance: (balance.balance + amount) as u64, ..balance },
            ),
        )
    }
}

impl DepositPlanView {
    /// What the two record buffers hold after the deposit is committed:
    /// first the balance record's, then the vault record's. The vault must
    /// be open (`VaultClosed`), the amount is credited to both records
    /// (`ArithmeticOverflow`), and both must fit their buffers
    /// (`InvalidInput`).
    pub open spec fn committed(
        self,
        user_balance_data: Seq<u8>,
        vault_state_data: Seq<u8>,
    ) -> Result<(Seq<u8>, Seq<u8>), VaultError> {
        if self.vault_state.is_closed {
            Err(VaultError::VaultClosed)
        } else {
            match credited(self.vault_state, self.user_balance, self.transfer.amount) {
                Err(e) => Err(e),
                Ok((vault, balance)) => match with_user_balance(user_balance_data, balance) {
                    Err(e) => Err(e),
                    Ok(new_balance_data) => match with_vault_state(vault_state_data, vault) {
                        Err(e) => Err(e),
                        Ok(new_vault_data) => Ok((new_balance_data, new_vault_data)),
                    },
                },
            }
        }
    }
}

impl DepositPlan {
    /// Commits the deposit once the host has made the transfer: credits
    /// the amount to the user's balance and to the vault's total and
    /// stores both records. On any failure both buffers stay as they are.
    /// Buffers of the records' sizes then read back as the credited
    /// records.
    pub fn commit(&self, user_balance_data: &mut [u8], vault_state_data: &mut [u8]) -> (r: Result<
        (),
        VaultError,
    >)
        ensures
            match self@.committed(old(user_balance_data)@, old(vault_state_data)@) {
                Ok((new_balance_data, new_vault_data)) => {
                    &&& r is Ok
                    &&& final(user_balance_data)@ == new_balance_data
                    &&& final(vault_state_data)@ == new_vault_data
                },
                Err(e) => {
                    &&& r == Err::<(), VaultError>(e)
                    &&& final(user_balance_data)@ == old(user_balance_data)@
                    &&& final(vault_state_data)@ == old(vault_state_data)@
                },
            },
            r is Ok ==> {
                let (vault, balance) = credited(
                    self.vault_state@,
                    self.user_balance@,
                    self.transfer.amount,
                )->Ok_0;
                &&& stores_user_balance(final(user_balance_data)@, balance)
                &&& stores_vault_state(final(vault_state_data)@, vault)
            },
    {
        let mut user_balance = self.user_balance;
        let mut vault_state = self.vault_state;
        if !vault_state.is_operational() {
            return Err(VaultError::VaultClosed);
        }
        if user_balance.add_balance(self.transfer.amount).is_err() {
            return Err(VaultError::ArithmeticOverflow);
        }
        if vault_state.add_deposit(self.transfer.amount).is_err() {
            return Err(VaultError::ArithmeticOverflow);
        }
        if vault_state.validate().is_err() || vault_state_data.len() < VaultState::SIZE {
            return Err(VaultError::InvalidInput);
        }
        serialize_user_balance_safe(&user_balance, user_balance_data)?;
        serialize_vault_state_safe(&vault_state, vault_state_data)?;
        Ok(())
    }
}

/// A deposit that would push the user's balance or the vault's total past
/// the 64-bit range is not committed: it fails with `ArithmeticOverflow`,
/// whatever the buffers are, and a commit that fails changes no byte.
pub proof fn lemma_deposit_overflow_refused(
    plan: DepositPlanView,
    user_balance_data: Seq<u8>,
    vault_state_data: Seq<u8>,
)
    requires
        !plan.vault_state.is_closed,
        plan.user_balance.balance + plan.transfer.amount > u64::MAX
            || plan.vault_state.total_deposited + plan.transfer.amount > u64::MAX,
    ensures
        plan.committed(user_balance_data, vault_state_data) == Err::<
            (Seq<u8>, Seq<u8>),
            VaultError,
        >(VaultError::ArithmeticOverflow),
{
}

/// What a committed deposit stores, in accounts of the records' sizes: the
/// two records with the amount credited.
pub proof fn lemma_deposit_stores_credit(
    plan: DepositPlanView,
    user_balance_data: Seq<u8>,
    vault_state_data: Seq<u8>,
)
    requires
        plan.vault_state.well_formed(),
        plan.user_balance.well_formed(),
        user_balance_data.len() == 73,
        vault_state_data.len() == 106,
        plan.committed(user_balance_data, vault_state_data) is Ok,
    ensures
        credited(plan.vault_state, plan.user_balance, plan.transfer.amount) is Ok,
        stored_user_balance(plan.committed(user_balance_data, vault_state_data)->Ok_0.0) == Ok::<
            UserBalanceView,
            VaultError,
        >(credited(plan.vault_state, plan.user_balance, plan.transfer.amount)->Ok_0.1),
        stored_vault_state(
            plan.committed(user_balance_data, vault_state_data)->Ok_0.1,
        ) == Ok::<VaultStateView, VaultError>(
            credited(plan.vault_state, plan.user_balance, plan.transfer.amount)->Ok_0.0,
        ),
{
    let (vault, balance) = credited(
        plan.vault_state,
        plan.user_balance,
        plan.transfer.amount,
    )->Ok_0;
    lemma_user_balance_reads_back(user_balance_data, balance);
    lemma_vault_state_reads_back(vault_state_data, vault);
}

/// What an accepted deposit asks of the token program: to move the amount,
/// which is not zero and which the user's custody account covers, from the
/// user's custody account to the one given as the vault's, on the user's
/// own authority. The plan holds the vault record as the vault account
/// stores it.
pub proof fn lemma_deposit_plan_transfer(
    program_id: Seq<u8>,
    accounts: Seq<AccountSnapshot>,
    amount: u64,
    readings: UserReadingsView,
)
    requires
        deposit_plan_given(program_id, accounts, amount, readings) is Ok,
    ensures
        ({
            let plan = deposit_plan_given(program_id, accounts, amount, readings)->Ok_0;
            &&& plan.transfer == (TransferView {
                source: accounts[1].key@,
                destination: accounts[2].key@,
                authority: AuthorityView::Signer { key: accounts[0].key@ },
                amount,
            })
            &&& amount > 0
            &&& readings.user_custody matches Some((_, held)) && amount <= held
            &&& stored_vault_state(accounts[3].data@) == Ok::<
                VaultStateView,
                VaultError,
            >(plan.vault_state)
            &&& !plan.vault_state.is_closed
            &&& plan.allocation is None ==> stored_user_balance(accounts[4].data@) == Ok::<
                UserBalanceView,
                VaultError,
            >(plan.user_balance)
            &&& plan.allocation is Some ==> plan.user_balance.balance == 0
        }),
{
}

} // verus!
