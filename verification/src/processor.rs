//! The transition engine. Each instruction is validated against the accounts
//! it was given and turned into a plan: what the host has to do (allocate a
//! record, move tokens) and what the ledger records become once the host
//! has done it. Committing a plan writes the records.

use vstd::prelude::*;
use crate::account::AccountSnapshot;
use crate::action::view_of;
use crate::bytes::{overwrite, write_at};
use crate::error::VaultError;
use crate::instruction::{unpack, VaultInstruction};
use crate::key::Key;
use crate::state::{lemma_user_balance_round_trip, lemma_vault_state_round_trip, UserBalance,
    UserBalanceView, VaultState, VaultStateView};
use crate::token::TokenAccount;

pub mod close;
pub mod deposit;
pub mod initialize;
pub mod owner;
pub mod readings;
pub mod withdraw;
pub mod withdraw_all;

pub use close::{close_plan, plan_close, process_close, ClosePlan, ClosePlanView};
pub use deposit::{deposit_plan, plan_deposit, process_deposit, DepositPlan, DepositPlanView};
pub use initialize::{initialize_plan, plan_initialize, process_initialize, InitializePlan,
    InitializePlanView};
pub use readings::{InitializeReadings, OwnerReadings, UserReadings};
pub use withdraw::{plan_withdraw, process_withdraw, withdraw_plan, WithdrawPlan,
    WithdrawPlanView};
pub use withdraw_all::{plan_withdraw_all, process_withdraw_all, withdraw_all_plan,
    WithdrawAllPlan, WithdrawAllPlanView};

verus! {

/// A result is the expected one: the same error, or a value with the
/// expected view.
pub open spec fn agrees<T: View>(
    r: Result<T, VaultError>,
    expected: Result<T::V, VaultError>,
) -> bool {
    match r {
        Ok(value) => expected == Ok::<T::V, VaultError>(value@),
        Err(e) => expected == Err::<T::V, VaultError>(e),
    }
}

/// The vault record that an account stores. A buffer of another size than
/// the record's is `InvalidInput`, one whose flag byte is no flag is
/// `AccountNotInitialized`, and a record with a zero key is `InvalidInput`.
pub open spec fn stored_vault_state(data: Seq<u8>) -> Result<VaultStateView, VaultError> {
    if data.len() != 106 {
        Err(VaultError::InvalidInput)
    } else {
        match VaultStateView::parse(data) {
            None => Err(VaultError::AccountNotInitialized),
            Some(vault) => if vault.valid() {
                Ok(vault)
            } else {
                Err(VaultError::InvalidInput)
            },
        }
    }
}

/// The balance record that an account stores. A buffer of another size than
/// the record's is `AccountNotInitialized`, and a record with a zero key
/// is `InvalidInput`.
pub open spec fn stored_user_balance(data: Seq<u8>) -> Result<UserBalanceView, VaultError> {
    match UserBalanceView::parse(data) {
        None => Err(VaultError::AccountNotInitialized),
        Some(balance) => if balance.valid() {
            Ok(balance)
        } else {
            Err(VaultError::InvalidInput)
        },
    }
}

/// What a buffer holds after a vault record was stored in it, or
/// `InvalidInput` where the record has a zero key or the buffer is too
/// small for it.
pub open spec fn with_vault_state(data: Seq<u8>, vault: VaultStateView) -> Result<
    Seq<u8>,
    VaultError,
> {
    if vault.valid() && data.len() >= 106 {
        Ok(overwrite(data, 0, vault.bytes()))
    } else {
        Err(VaultError::InvalidInput)
    }
}

/// What a buffer holds after a balance record was stored in it, or
/// `InvalidInput` where the record has a zero key or the buffer is too
/// small for it.
pub open spec fn with_user_balance(data: Seq<u8>, balance: UserBalanceView) -> Result<
    Seq<u8>,
    VaultError,
> {
    if balance.valid() && data.len() >= 73 {
        Ok(overwrite(data, 0, balance.bytes()))
    } else {
        Err(VaultError::InvalidInput)
    }
}

/// Where the buffer has exactly the size of a vault record, it stores the
/// given record.
pub open spec fn stores_vault_state(data: Seq<u8>, vault: VaultStateView) -> bool {
    data.len() == 106 ==> stored_vault_state(data) == Ok::<VaultStateView, VaultError>(vault)
}

/// Where the buffer has exactly the size of a balance record, it stores the
/// given record.
pub open spec fn stores_user_balance(data: Seq<u8>, balance: UserBalanceView) -> bool {
    data.len() == 73 ==> stored_user_balance(data) == Ok::<UserBalanceView, VaultError>(balance)
}

/// Refuses a buffer whose size is not the expected one, with `InvalidInput`.
pub fn validate_vault_buffer(account_data: &[u8], expected_size: usize) -> (r: Result<
    (),
    VaultError,
>)
    ensures
        r is Ok <==> account_data@.len() == expected_size,
        r is Err ==> r == Err::<(), VaultError>(VaultError::InvalidInput),
{
    if account_data.len() != expected_size {
        return Err(VaultError::InvalidInput);
    }
    Ok(())
}

/// Reads and validates the vault record that a buffer stores.
pub fn deserialize_vault_state_safe(vault_state_data: &[u8]) -> (r: Result<VaultState, VaultError>)
    ensures
        agrees(r, stored_vault_state(vault_state_data@)),
{
    validate_vault_buffer(vault_state_data, VaultState::SIZE)?;
    let vault_state = match VaultState::unpack(vault_state_data) {
        Some(vault_state) => vault_state,
        None => {
            return Err(VaultError::AccountNotInitialized);
        },
    };
    match vault_state.validate() {
        Ok(_) => Ok(vault_state),
        Err(_) => Err(VaultError::InvalidInput),
    }
}

/// Reads and validates the balance record that a buffer stores.
pub fn deserialize_user_balance_safe(user_balance_data: &[u8]) -> (r: Result<
    UserBalance,
    VaultError,
>)
    ensures
        agrees(r, stored_user_balance(user_balance_data@)),
{
    if user_balance_data.len() != UserBalance::SIZE {
        return Err(VaultError::AccountNotInitialized);
    }
    let user_balance = match UserBalance::unpack(user_balance_data) {
        Some(user_balance) => user_balance,
        None => {
            return Err(VaultError::AccountNotInitialized);
        },
    };
    match user_balance.validate() {
        Ok(_) => Ok(user_balance),
        Err(_) => Err(VaultError::InvalidInput),
    }
}

/// Validates a vault record and stores it at the start of a buffer. Bytes
/// behind the record stay; on failure every byte stays. A buffer of the
/// record's size then reads back as the record.
pub fn serialize_vault_state_safe(vault_state: &VaultState, vault_state_data: &mut [u8]) -> (r:
    Result<(), VaultError>)
    ensures
        match with_vault_state(old(vault_state_data)@, vault_state@) {
            Ok(stored) => r is Ok && final(vault_state_data)@ == stored,
            Err(e) => r == Err::<(), VaultError>(e) && final(vault_state_data)@ == old(
                vault_state_data,
            )@,
        },
        r is Ok ==> stores_vault_state(final(vault_state_data)@, vault_state@),
{
    proof {
        if with_vault_state(vault_state_data@, vault_state@) is Ok && vault_state_data@.len()
            == 106 {
            lemma_vault_state_reads_back(vault_state_data@, vault_state@);
        }
    }
    if vault_state.validate().is_err() {
        return Err(VaultError::InvalidInput);
    }
    let serialized_data = vault_state.pack();
    if vault_state_data.len() < serialized_data.len() {
        return Err(VaultError::InvalidInput);
    }
    write_at(vault_state_data, 0, serialized_data.as_slice());
    Ok(())
}

/// Validates a balance record and stores it at the start of a buffer. Bytes
/// behind the record stay; on failure every byte stays. A buffer of the
/// record's size then reads back as the record.
pub fn serialize_user_balance_safe(user_balance: &UserBalance, user_balance_data: &mut [u8]) -> (r:
    Result<(), VaultError>)
    ensures
        match with_user_balance(old(user_balance_data)@, user_balance@) {
            Ok(stored) => r is Ok && final(user_balance_data)@ == stored,
            Err(e) => r == Err::<(), VaultError>(e) && final(user_balance_data)@ == old(
                user_balance_data,
            )@,
        },
        r is Ok ==> stores_user_balance(final(user_balance_data)@, user_balance@),
{
    proof {
        if with_user_balance(user_balance_data@, user_balance@) is Ok && user_balance_data@.len()
            == 73 {
            lemma_user_balance_reads_back(user_balance_data@, user_balance@);
        }
    }
    if user_balance.validate().is_err() {
        return Err(VaultError::InvalidInput);
    }
    let serialized_data = user_balance.pack();
    if user_balance_data.len() < serialized_data.len() {
        return Err(VaultError::InvalidInput);
    }
    write_at(user_balance_data, 0, serialized_data.as_slice());
    Ok(())
}

/// The vault that an instruction works on: the record that the account
/// stores, which must be open (`VaultClosed`) and in an account that this
/// program owns (`InvalidInput`).
pub open spec fn open_vault(program_id: Seq<u8>, account: AccountSnapshot) -> Result<
    VaultStateView,
    VaultError,
> {
    match stored_vault_state(account.data@) {
        Err(e) => Err(e),
        Ok(vault) => if vault.is_closed {
            Err(VaultError::VaultClosed)
        } else if account.owner@ != program_id {
            Err(VaultError::InvalidInput)
        } else {
            Ok(vault)
        },
    }
}

/// Loads the vault that an instruction works on.
pub fn load_open_vault(program_id: &Key, account: &AccountSnapshot) -> (r: Result<
    VaultState,
    VaultError,
>)
    ensures
        agrees(r, open_vault(program_id@, *account)),
{
    let vault_state = deserialize_vault_state_safe(account.data.as_slice())?;
    if !vault_state.is_operational() {
        return Err(VaultError::VaultClosed);
    }
    if account.owner != *program_id {
        return Err(VaultError::InvalidInput);
    }
    Ok(vault_state)
}

/// What a custody account of the given mint holds, given what the token
/// program reads in it. An account that does not read as a custody account
/// is `InvalidTokenAccount`, one of another mint `InvalidMint`.
pub open spec fn custody_of(reading: Option<(Seq<u8>, u64)>, mint: Seq<u8>) -> Result<
    u64,
    VaultError,
> {
    match reading {
        None => Err(VaultError::InvalidTokenAccount),
        Some((found, amount)) => if found == mint {
            Ok(amount)
        } else {
            Err(VaultError::InvalidMint)
        },
    }
}

/// What a custody account of the given mint holds, given what the token
/// program reads in it.
pub fn custody_amount(reading: Option<TokenAccount>, mint: &Key) -> (r: Result<u64, VaultError>)
    ensures
        r == custody_of(view_of(reading), mint@),
{
    match reading {
        Some(token_account) => {
            if token_account.mint != *mint {
                return Err(VaultError::InvalidMint);
            }
            Ok(token_account.amount)
        },
        None => Err(VaultError::InvalidTokenAccount),
    }
}

/// A validated instruction.
#[derive(Debug, Clone, Copy, PartialEq, Eq)]
pub enum Plan {
    Initialize(InitializePlan),
    Deposit(DepositPlan),
    Withdraw(WithdrawPlan),
    WithdrawAll(WithdrawAllPlan),
    Close(ClosePlan),
}

/// The mathematical value of a [`Plan`].
pub enum PlanView {
    Initialize(InitializePlanView),
    Deposit(DepositPlanView),
    Withdraw(WithdrawPlanView),
    WithdrawAll(WithdrawAllPlanView),
    Close(ClosePlanView),
}

impl View for Plan {
    type V = PlanView;

    open spec fn view(&self) -> PlanView {
        match *self {
            Plan::Initialize(plan) => PlanView::Initialize(plan@),
            Plan::Deposit(plan) => PlanView::Deposit(plan@),
            Plan::Withdraw(plan) => PlanView::Withdraw(plan@),
            Plan::WithdrawAll(plan) => PlanView::WithdrawAll(plan@),
            Plan::Close(plan) => PlanView::Close(plan@),
        }
    }
}

/// The plan of an instruction on the given accounts, or the first check of
/// its handler that fails.
pub open spec fn plan_of_instruction(
    program_id: Seq<u8>,
    accounts: Seq<AccountSnapshot>,
    instruction: VaultInstruction,
) -> Result<PlanView, VaultError> {
    match instruction {
        VaultInstruction::Initialize => match initialize_plan(program_id, accounts) {
            Ok(plan) => Ok(PlanView::Initialize(plan)),
            Err(e) => Err(e),
        },
        VaultInstruction::Deposit { amount } => match deposit_plan(program_id, accounts, amount) {
            Ok(plan) => Ok(PlanView::Deposit(plan)),
            Err(e) => Err(e),
        },
        VaultInstruction::Withdraw { amount } => match withdraw_plan(program_id, accounts, amount) {
            Ok(plan) => Ok(PlanView::Withdraw(plan)),
            Err(e) => Err(e),
        },
        VaultInstruction::WithdrawAll => match withdraw_all_plan(program_id, accounts) {
            Ok(plan) => Ok(PlanView::WithdrawAll(plan)),
            Err(e) => Err(e),
        },
        VaultInstruction::Close => match close_plan(program_id, accounts) {
            Ok(plan) => Ok(PlanView::Close(plan)),
            Err(e) => Err(e),
        },
    }
}

/// What [`process_instruction`] returns: `InvalidInput` where the data
/// holds no instruction, else what the instruction's handler returns.
pub open spec fn plan_of(
    program_id: Seq<u8>,
    accounts: Seq<AccountSnapshot>,
    data: Seq<u8>,
) -> Result<PlanView, VaultError> {
    match VaultInstruction::parse(data) {
        None => Err(VaultError::InvalidInput),
        Some(instruction) => plan_of_instruction(program_id, accounts, instruction),
    }
}

/// Reads the instruction and validates it against its accounts. Nothing is
/// changed; the plan says what the host has to do before the instruction
/// is committed.
pub fn process_instruction(
    program_id: &Key,
    accounts: &[AccountSnapshot],
    instruction_data: &[u8],
) -> (r: Result<Plan, VaultError>)
    ensures
        agrees(r, plan_of(program_id@, accounts@, instruction_data@)),
{
    let instruction = unpack(instruction_data)?;
    match instruction {
        VaultInstruction::Initialize => {
            let plan = process_initialize(program_id, accounts)?;
            Ok(Plan::Initialize(plan))
        },
        VaultInstruction::Deposit { amount } => {
            let plan = process_deposit(program_id, accounts, amount)?;
            Ok(Plan::Deposit(plan))
        },
        VaultInstruction::Withdraw { amount } => {
            let plan = process_withdraw(program_id, accounts, amount)?;
            Ok(Plan::Withdraw(plan))
        },
        VaultInstruction::WithdrawAll => {
            let plan = process_withdraw_all(program_id, accounts)?;
            Ok(Plan::WithdrawAll(plan))
        },
        VaultInstruction::Close => {
            let plan = process_close(program_id, accounts)?;
            Ok(Plan::Close(plan))
        },
    }
}

/// A vault record stored in an account of the record's size is the record
/// that the account then stores.
pub proof fn lemma_vault_state_reads_back(data: Seq<u8>, vault: VaultStateView)
    requires
        vault.well_formed(),
        data.len() == 106,
        with_vault_state(data, vault) is Ok,
    ensures
        with_vault_state(data, vault)->Ok_0 == vault.bytes(),
        stored_vault_state(with_vault_state(data, vault)->Ok_0) == Ok::<
            VaultStateView,
            VaultError,
        >(vault),
{
    lemma_vault_state_round_trip(vault);
    assert(overwrite(data, 0, vault.bytes()) =~= vault.bytes());
}

/// A balance record stored in an account of the record's size is the
/// record that the account then stores.
pub proof fn lemma_user_balance_reads_back(data: Seq<u8>, balance: UserBalanceView)
    requires
        balance.well_formed(),
        data.len() == 73,
        with_user_balance(data, balance) is Ok,
    ensures
        with_user_balance(data, balance)->Ok_0 == balance.bytes(),
        stored_user_balance(with_user_balance(data, balance)->Ok_0) == Ok::<
            UserBalanceView,
            VaultError,
        >(balance),
{
    lemma_user_balance_round_trip(balance);
    assert(overwrite(data, 0, balance.bytes()) =~= balance.bytes());
}

} // verus!
