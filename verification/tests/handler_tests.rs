use solana_vault_contract::account::AccountSnapshot;
use solana_vault_contract::action::{Allocation, Authority, SeedTag, Seeds, Transfer};
use solana_vault_contract::error::VaultError;
use solana_vault_contract::key::Key;
use solana_vault_contract::processor::{
    deserialize_user_balance_safe, deserialize_vault_state_safe, load_open_vault, plan_close,
    plan_deposit, plan_initialize, plan_withdraw, plan_withdraw_all, process_close,
    process_deposit, process_initialize, process_withdraw, process_withdraw_all,
    serialize_user_balance_safe, serialize_vault_state_safe, validate_vault_buffer, ClosePlan,
    DepositPlan, InitializePlan, InitializeReadings, OwnerReadings, UserReadings, WithdrawAllPlan,
    WithdrawPlan,
};
use solana_vault_contract::processor::custody_amount;
use solana_vault_contract::state::{UserBalance, VaultState};
use solana_vault_contract::token::TokenAccount;
use solana_vault_contract::utils::{address_or_invalid, match_address};

const PROGRAM: Key = Key { bytes: [7; 32] };
const TOKEN_PROGRAM: Key = Key {
    bytes: [
        6, 221, 246, 225, 215, 101, 161, 147, 217, 203, 225, 70, 206, 235, 121, 172, 28, 180, 133,
        237, 95, 91, 55, 145, 58, 140, 245, 133, 126, 255, 0, 169,
    ],
};
const SYSTEM_PROGRAM: Key = Key { bytes: [0; 32] };
const RENT: Key = Key {
    bytes: [
        6, 167, 213, 23, 25, 44, 92, 81, 33, 140, 201, 76, 61, 74, 241, 127, 88, 218, 238, 8, 155,
        161, 253, 68, 227, 219, 217, 138, 0, 0, 0, 0,
    ],
};
const OWNER: Key = Key { bytes: [1; 32] };
const USER: Key = Key { bytes: [2; 32] };
const MINT: Key = Key { bytes: [3; 32] };
const VAULT_STATE: Key = Key { bytes: [4; 32] };
const VAULT_TOKENS: Key = Key { bytes: [5; 32] };
const USER_TOKENS: Key = Key { bytes: [6; 32] };
const OWNER_TOKENS: Key = Key { bytes: [8; 32] };
const USER_BALANCE: Key = Key { bytes: [9; 32] };
const OTHER: Key = Key { bytes: [10; 32] };

fn account(key: Key, owner: Key, is_signer: bool, is_writable: bool, data: Vec<u8>) -> AccountSnapshot {
    AccountSnapshot { key, owner, is_signer, is_writable, lamports: 1_000_000, data }
}

fn vault(total_deposited: u64, is_closed: bool) -> VaultState {
    VaultState {
        owner: OWNER,
        token_mint: MINT,
        token_account: VAULT_TOKENS,
        total_deposited,
        is_closed,
        bump: 254,
    }
}

fn balance(amount: u64) -> UserBalance {
    UserBalance { user: USER, vault: VAULT_STATE, balance: amount, bump: 253 }
}

fn vault_seeds() -> Seeds {
    Seeds { tag: SeedTag::Vault, key_a: OWNER, key_b: MINT, bump: 254 }
}

fn held(mint: Key, amount: u64) -> Option<TokenAccount> {
    Some(TokenAccount { mint, amount })
}

fn user_accounts(total: u64, recorded: u64) -> Vec<AccountSnapshot> {
    vec![
        account(USER, SYSTEM_PROGRAM, true, true, vec![]),
        account(USER_TOKENS, TOKEN_PROGRAM, false, true, vec![0xaa; 165]),
        account(VAULT_TOKENS, TOKEN_PROGRAM, false, true, vec![0xbb; 165]),
        account(VAULT_STATE, PROGRAM, false, true, vault(total, false).pack()),
        account(USER_BALANCE, PROGRAM, false, true, balance(recorded).pack()),
        account(TOKEN_PROGRAM, OTHER, false, false, vec![]),
        account(SYSTEM_PROGRAM, OTHER, false, false, vec![]),
    ]
}

fn user_readings(user_amount: u64, vault_amount: u64) -> UserReadings {
    UserReadings {
        user_custody: held(MINT, user_amount),
        vault_custody: held(MINT, vault_amount),
        balance_address: Some((USER_BALANCE, 253)),
    }
}

fn owner_accounts(total: u64) -> Vec<AccountSnapshot> {
    vec![
        account(OWNER, SYSTEM_PROGRAM, true, true, vec![]),
        account(OWNER_TOKENS, TOKEN_PROGRAM, false, true, vec![0xaa; 165]),
        account(VAULT_TOKENS, TOKEN_PROGRAM, false, true, vec![0xbb; 165]),
        account(VAULT_STATE, PROGRAM, false, true, vault(total, false).pack()),
        account(TOKEN_PROGRAM, OTHER, false, false, vec![]),
    ]
}

fn owner_readings(vault_amount: u64) -> OwnerReadings {
    OwnerReadings { owner_custody: held(MINT, 0), vault_custody: held(MINT, vault_amount) }
}

fn initialize_accounts() -> Vec<AccountSnapshot> {
    vec![
        account(OWNER, SYSTEM_PROGRAM, true, true, vec![]),
        account(VAULT_STATE, SYSTEM_PROGRAM, false, true, vec![]),
        account(VAULT_TOKENS, TOKEN_PROGRAM, false, true, vec![0xbb; 165]),
        account(MINT, TOKEN_PROGRAM, false, false, vec![0xcc; 82]),
        account(TOKEN_PROGRAM, OTHER, false, false, vec![]),
        account(SYSTEM_PROGRAM, OTHER, false, false, vec![]),
        account(RENT, OTHER, false, false, vec![]),
    ]
}

fn initialize_readings() -> InitializeReadings {
    InitializeReadings {
        reads_as_mint: true,
        vault_custody: held(MINT, 0),
        record_address: Some((VAULT_STATE, 254)),
    }
}

fn with<F: FnOnce(&mut AccountSnapshot)>(
    mut accounts: Vec<AccountSnapshot>,
    index: usize,
    change: F,
) -> Vec<AccountSnapshot> {
    change(&mut accounts[index]);
    accounts
}

#[test]
fn deposit_plan_of_a_known_depositor() {
    let accounts = user_accounts(500, 20);
    let plan = plan_deposit(&PROGRAM, &accounts, 100, &user_readings(100, 500)).unwrap();
    assert_eq!(
        plan,
        DepositPlan {
            vault_state: vault(500, false),
            user_balance: balance(20),
            allocation: None,
            transfer: Transfer {
                source: USER_TOKENS,
                destination: VAULT_TOKENS,
                authority: Authority::Signer { key: USER },
                amount: 100,
            },
        }
    );
}

#[test]
fn deposit_plan_of_a_new_depositor() {
    let accounts = with(user_accounts(0, 0), 4, |a| {
        a.owner = SYSTEM_PROGRAM;
        a.data = vec![];
    });
    let plan = plan_deposit(&PROGRAM, &accounts, 100, &user_readings(100, 0)).unwrap();
    assert_eq!(plan.user_balance, UserBalance::new(USER, VAULT_STATE, 253));
    assert_eq!(
        plan.allocation,
        Some(Allocation {
            payer: USER,
            address: USER_BALANCE,
            space: 73,
            owner: PROGRAM,
            seeds: Seeds { tag: SeedTag::UserBalance, key_a: USER, key_b: VAULT_STATE, bump: 253 },
        })
    );
}

#[test]
fn deposit_checks_come_in_order() {
    let good = user_readings(100, 0);
    let check = |accounts: &[AccountSnapshot], amount: u64, readings: &UserReadings| {
        plan_deposit(&PROGRAM, accounts, amount, readings).map(|_| ())
    };
    let accounts = user_accounts(0, 0);
    assert_eq!(check(&accounts, 100, &good), Ok(()));
    assert_eq!(check(&accounts[..6], 100, &good), Err(VaultError::InvalidInput));
    assert_eq!(check(&[], 100, &good), Err(VaultError::InvalidInput));
    assert_eq!(check(&accounts, 0, &good), Err(VaultError::InvalidInput));

    let unsigned = with(user_accounts(0, 0), 0, |a| a.is_signer = false);
    assert_eq!(check(&unsigned, 100, &good), Err(VaultError::UnauthorizedAccess));
    assert_eq!(check(&unsigned, 0, &good), Err(VaultError::InvalidInput));
    for index in 1..=4 {
        let read_only = with(user_accounts(0, 0), index, |a| a.is_writable = false);
        assert_eq!(check(&read_only, 100, &good), Err(VaultError::InvalidInput));
    }
    let wrong_token_program = with(user_accounts(0, 0), 5, |a| a.key = OTHER);
    assert_eq!(check(&wrong_token_program, 100, &good), Err(VaultError::InvalidTokenAccount));
    let wrong_system_program = with(user_accounts(0, 0), 6, |a| a.key = OTHER);
    assert_eq!(check(&wrong_system_program, 100, &good), Err(VaultError::InvalidInput));

    let short_vault = with(user_accounts(0, 0), 3, |a| a.data.truncate(105));
    assert_eq!(check(&short_vault, 100, &good), Err(VaultError::InvalidInput));
    let bad_flag = with(user_accounts(0, 0), 3, |a| a.data[104] = 2);
    assert_eq!(check(&bad_flag, 100, &good), Err(VaultError::AccountNotInitialized));
    let zero_owner = with(user_accounts(0, 0), 3, |a| a.data[..32].fill(0));
    assert_eq!(check(&zero_owner, 100, &good), Err(VaultError::InvalidInput));
    let closed = with(user_accounts(0, 0), 3, |a| a.data = vault(0, true).pack());
    assert_eq!(check(&closed, 100, &good), Err(VaultError::VaultClosed));
    let foreign_vault = with(user_accounts(0, 0), 3, |a| a.owner = OTHER);
    assert_eq!(check(&foreign_vault, 100, &good), Err(VaultError::InvalidInput));
    let closed_and_foreign = with(closed.clone(), 3, |a| a.owner = OTHER);
    assert_eq!(check(&closed_and_foreign, 100, &good), Err(VaultError::VaultClosed));

    let foreign_user_tokens = with(user_accounts(0, 0), 1, |a| a.owner = OTHER);
    assert_eq!(check(&foreign_user_tokens, 100, &good), Err(VaultError::InvalidTokenAccount));
    let foreign_vault_tokens = with(user_accounts(0, 0), 2, |a| a.owner = OTHER);
    assert_eq!(check(&foreign_vault_tokens, 100, &good), Err(VaultError::InvalidTokenAccount));

    let unreadable_user = UserReadings { user_custody: None, ..good };
    assert_eq!(check(&accounts, 100, &unreadable_user), Err(VaultError::InvalidTokenAccount));
    let other_mint_user = UserReadings { user_custody: held(OTHER, 100), ..good };
    assert_eq!(check(&accounts, 100, &other_mint_user), Err(VaultError::InvalidMint));
    let poor = UserReadings { user_custody: held(MINT, 99), vault_custody: None, ..good };
    assert_eq!(check(&accounts, 100, &poor), Err(VaultError::InsufficientFunds));
    let unreadable_vault = UserReadings { vault_custody: None, ..good };
    assert_eq!(check(&accounts, 100, &unreadable_vault), Err(VaultError::InvalidTokenAccount));
    let other_mint_vault = UserReadings { vault_custody: held(OTHER, 0), ..good };
    assert_eq!(check(&accounts, 100, &other_mint_vault), Err(VaultError::InvalidMint));

    let no_address = UserReadings { balance_address: None, ..good };
    assert_eq!(check(&accounts, 100, &no_address), Err(VaultError::InvalidInput));
    let other_address = UserReadings { balance_address: Some((OTHER, 253)), ..good };
    assert_eq!(check(&accounts, 100, &other_address), Err(VaultError::InvalidInput));
    let foreign_record = with(user_accounts(0, 0), 4, |a| a.owner = OTHER);
    assert_eq!(check(&foreign_record, 100, &good), Err(VaultError::InvalidInput));
    let short_record = with(user_accounts(0, 0), 4, |a| a.data.truncate(72));
    assert_eq!(check(&short_record, 100, &good), Err(VaultError::AccountNotInitialized));
    let zero_user_record = with(user_accounts(0, 0), 4, |a| a.data[..32].fill(0));
    assert_eq!(check(&zero_user_record, 100, &good), Err(VaultError::InvalidInput));
}

#[test]
fn a_new_depositor_needs_no_stored_record() {
    let accounts = with(user_accounts(0, 0), 4, |a| {
        a.owner = SYSTEM_PROGRAM;
        a.data = vec![1, 2, 3];
    });
    let plan = plan_deposit(&PROGRAM, &accounts, 5, &user_readings(5, 0)).unwrap();
    assert_eq!(plan.user_balance.balance, 0);
    assert!(plan.allocation.is_some());

    let zero_user = with(accounts.clone(), 0, |a| a.key = Key::zero());
    assert_eq!(
        plan_deposit(&PROGRAM, &zero_user, 5, &user_readings(5, 0)),
        Err(VaultError::InvalidInput)
    );
}

#[test]
fn withdraw_plan_names_the_vault_as_authority() {
    let accounts = user_accounts(500, 60);
    let plan = plan_withdraw(&PROGRAM, &accounts[..6], 40, &user_readings(0, 500)).unwrap();
    assert_eq!(
        plan,
        WithdrawPlan {
            vault_state: vault(500, false),
            user_balance: balance(60),
            transfer: Transfer {
                source: VAULT_TOKENS,
                destination: USER_TOKENS,
                authority: Authority::Derived { address: VAULT_STATE, seeds: vault_seeds() },
                amount: 40,
            },
        }
    );
}

#[test]
fn withdraw_checks_come_in_order() {
    let good = user_readings(0, 100);
    let check = |accounts: &[AccountSnapshot], amount: u64, readings: &UserReadings| {
        plan_withdraw(&PROGRAM, accounts, amount, readings).map(|_| ())
    };
    let accounts = user_accounts(100, 100);
    assert_eq!(check(&accounts, 100, &good), Ok(()));
    assert_eq!(check(&accounts[..6], 100, &good), Ok(()));
    assert_eq!(check(&accounts[..5], 100, &good), Err(VaultError::InvalidInput));
    assert_eq!(check(&accounts, 0, &good), Err(VaultError::InvalidInput));
    let unsigned = with(user_accounts(100, 100), 0, |a| a.is_signer = false);
    assert_eq!(check(&unsigned, 100, &good), Err(VaultError::UnauthorizedAccess));
    for index in 1..=4 {
        let read_only = with(user_accounts(100, 100), index, |a| a.is_writable = false);
        assert_eq!(check(&read_only, 100, &good), Err(VaultError::InvalidInput));
    }
    let wrong_token_program = with(user_accounts(100, 100), 5, |a| a.key = OTHER);
    assert_eq!(check(&wrong_token_program, 100, &good), Err(VaultError::InvalidTokenAccount));
    let closed = with(user_accounts(100, 100), 3, |a| a.data = vault(100, true).pack());
    assert_eq!(check(&closed, 100, &good), Err(VaultError::VaultClosed));
    let foreign_vault = with(user_accounts(100, 100), 3, |a| a.owner = OTHER);
    assert_eq!(check(&foreign_vault, 100, &good), Err(VaultError::InvalidInput));
    let foreign_tokens = with(user_accounts(100, 100), 2, |a| a.owner = OTHER);
    assert_eq!(check(&foreign_tokens, 100, &good), Err(VaultError::InvalidTokenAccount));

    let unreadable_user = UserReadings { user_custody: None, ..good };
    assert_eq!(check(&accounts, 100, &unreadable_user), Err(VaultError::InvalidTokenAccount));
    let other_mint_user = UserReadings { user_custody: held(OTHER, 0), ..good };
    assert_eq!(check(&accounts, 100, &other_mint_user), Err(VaultError::InvalidMint));
    let other_mint_vault = UserReadings { vault_custody: held(OTHER, 100), ..good };
    assert_eq!(check(&accounts, 100, &other_mint_vault), Err(VaultError::InvalidMint));
    let empty_vault = UserReadings { vault_custody: held(MINT, 99), balance_address: None, ..good };
    assert_eq!(check(&accounts, 100, &empty_vault), Err(VaultError::InsufficientFunds));

    let no_address = UserReadings { balance_address: None, ..good };
    assert_eq!(check(&accounts, 100, &no_address), Err(VaultError::InvalidInput));
    let other_address = UserReadings { balance_address: Some((OTHER, 1)), ..good };
    assert_eq!(check(&accounts, 100, &other_address), Err(VaultError::InvalidInput));
    let unallocated = with(user_accounts(100, 100), 4, |a| {
        a.owner = SYSTEM_PROGRAM;
        a.data = vec![];
    });
    assert_eq!(check(&unallocated, 100, &good), Err(VaultError::InvalidInput));
    let short_record = with(user_accounts(100, 100), 4, |a| a.data.push(0));
    assert_eq!(check(&short_record, 100, &good), Err(VaultError::AccountNotInitialized));
    let zero_vault_record = with(user_accounts(100, 100), 4, |a| a.data[32..64].fill(0));
    assert_eq!(check(&zero_vault_record, 100, &good), Err(VaultError::InvalidInput));

    assert_eq!(check(&accounts, 101, &user_readings(0, 500)), Err(VaultError::InsufficientFunds));
    assert_eq!(check(&accounts, 100, &user_readings(0, 500)), Ok(()));
    assert_eq!(check(&user_accounts(0, 100), 100, &good), Ok(()));
}

#[test]
fn owner_plans_take_all_that_custody_holds() {
    let accounts = owner_accounts(100);
    let claim = Transfer {
        source: VAULT_TOKENS,
        destination: OWNER_TOKENS,
        authority: Authority::Derived { address: VAULT_STATE, seeds: vault_seeds() },
        amount: 130,
    };
    assert_eq!(
        plan_withdraw_all(&PROGRAM, &accounts, &owner_readings(130)),
        Ok(WithdrawAllPlan { vault_state: vault(100, false), transfer: Some(claim) })
    );
    assert_eq!(
        plan_close(&PROGRAM, &accounts, &owner_readings(130)),
        Ok(ClosePlan { vault_state: vault(100, false), transfer: Some(claim) })
    );
    assert_eq!(
        plan_withdraw_all(&PROGRAM, &accounts, &owner_readings(0)),
        Ok(WithdrawAllPlan { vault_state: vault(100, false), transfer: None })
    );
    assert_eq!(
        plan_close(&PROGRAM, &accounts, &owner_readings(0)),
        Ok(ClosePlan { vault_state: vault(100, false), transfer: None })
    );
}

#[test]
fn owner_checks_come_in_order() {
    let good = owner_readings(100);
    let check = |accounts: &[AccountSnapshot], readings: &OwnerReadings| {
        let sweep = plan_withdraw_all(&PROGRAM, accounts, readings).map(|_| ());
        let close = plan_close(&PROGRAM, accounts, readings).map(|_| ());
        assert_eq!(sweep, close);
        sweep
    };
    let accounts = owner_accounts(100);
    assert_eq!(check(&accounts, &good), Ok(()));
    assert_eq!(check(&accounts[..4], &good), Err(VaultError::InvalidInput));
    let unsigned = with(owner_accounts(100), 0, |a| a.is_signer = false);
    assert_eq!(check(&unsigned, &good), Err(VaultError::UnauthorizedAccess));
    for index in 1..=3 {
        let read_only = with(owner_accounts(100), index, |a| a.is_writable = false);
        assert_eq!(check(&read_only, &good), Err(VaultError::InvalidInput));
    }
    let wrong_token_program = with(owner_accounts(100), 4, |a| a.key = OTHER);
    assert_eq!(check(&wrong_token_program, &good), Err(VaultError::InvalidTokenAccount));
    let long_vault = with(owner_accounts(100), 3, |a| a.data.push(0));
    assert_eq!(check(&long_vault, &good), Err(VaultError::InvalidInput));
    let closed = with(owner_accounts(100), 3, |a| a.data = vault(100, true).pack());
    assert_eq!(check(&closed, &good), Err(VaultError::VaultClosed));
    let foreign_vault = with(owner_accounts(100), 3, |a| a.owner = OTHER);
    assert_eq!(check(&foreign_vault, &good), Err(VaultError::InvalidInput));

    let stranger = with(owner_accounts(100), 0, |a| a.key = USER);
    assert_eq!(check(&stranger, &good), Err(VaultError::UnauthorizedAccess));
    let stranger_on_closed = with(closed.clone(), 0, |a| a.key = USER);
    assert_eq!(check(&stranger_on_closed, &good), Err(VaultError::VaultClosed));
    let stranger_with_bad_tokens = with(stranger.clone(), 1, |a| a.owner = OTHER);
    assert_eq!(check(&stranger_with_bad_tokens, &good), Err(VaultError::UnauthorizedAccess));

    let foreign_owner_tokens = with(owner_accounts(100), 1, |a| a.owner = OTHER);
    assert_eq!(check(&foreign_owner_tokens, &good), Err(VaultError::InvalidTokenAccount));
    let foreign_vault_tokens = with(owner_accounts(100), 2, |a| a.owner = OTHER);
    assert_eq!(check(&foreign_vault_tokens, &good), Err(VaultError::InvalidTokenAccount));
    let unreadable_owner = OwnerReadings { owner_custody: None, ..good };
    assert_eq!(check(&accounts, &unreadable_owner), Err(VaultError::InvalidTokenAccount));
    let other_mint_owner = OwnerReadings { owner_custody: held(OTHER, 0), ..good };
    assert_eq!(check(&accounts, &other_mint_owner), Err(VaultError::InvalidMint));
    let unreadable_vault = OwnerReadings { vault_custody: None, ..good };
    assert_eq!(check(&accounts, &unreadable_vault), Err(VaultError::InvalidTokenAccount));
    let other_mint_vault = OwnerReadings { vault_custody: held(OTHER, 100), ..good };
    assert_eq!(check(&accounts, &other_mint_vault), Err(VaultError::InvalidMint));
}

#[test]
fn initialize_plan_holds_what_the_record_will_say() {
    let accounts = initialize_accounts();
    assert_eq!(
        plan_initialize(&PROGRAM, &accounts, &initialize_readings()),
        Ok(InitializePlan {
            program_id: PROGRAM,
            owner: OWNER,
            owner_lamports: 1_000_000,
            vault_state: VAULT_STATE,
            token_mint: MINT,
            token_account: VAULT_TOKENS,
            bump: 254,
        })
    );
}

#[test]
fn initialize_checks_come_in_order() {
    let good = initialize_readings();
    let check = |accounts: &[AccountSnapshot], readings: &InitializeReadings| {
        plan_initialize(&PROGRAM, accounts, readings).map(|_| ())
    };
    let accounts = initialize_accounts();
    assert_eq!(check(&accounts, &good), Ok(()));
    assert_eq!(check(&accounts[..6], &good), Err(VaultError::InvalidInput));
    let unsigned = with(initialize_accounts(), 0, |a| a.is_signer = false);
    assert_eq!(check(&unsigned, &good), Err(VaultError::UnauthorizedAccess));
    for index in 0..=2 {
        let read_only = with(initialize_accounts(), index, |a| a.is_writable = false);
        assert_eq!(check(&read_only, &good), Err(VaultError::InvalidInput));
    }
    let foreign_tokens = with(initialize_accounts(), 2, |a| a.owner = OTHER);
    assert_eq!(check(&foreign_tokens, &good), Err(VaultError::InvalidTokenAccount));
    let foreign_mint = with(initialize_accounts(), 3, |a| a.owner = OTHER);
    assert_eq!(check(&foreign_mint, &good), Err(VaultError::InvalidMint));
    let no_mint = InitializeReadings { reads_as_mint: false, vault_custody: None, ..good };
    assert_eq!(check(&accounts, &no_mint), Err(VaultError::InvalidMint));
    let unreadable = InitializeReadings { vault_custody: None, ..good };
    assert_eq!(check(&accounts, &unreadable), Err(VaultError::InvalidTokenAccount));
    let other_mint = InitializeReadings { vault_custody: held(OTHER, 0), ..good };
    assert_eq!(check(&accounts, &other_mint), Err(VaultError::InvalidMint));
    let wrong_token_program = with(initialize_accounts(), 4, |a| a.key = OTHER);
    assert_eq!(check(&wrong_token_program, &good), Err(VaultError::InvalidTokenAccount));
    let wrong_system_program = with(initialize_accounts(), 5, |a| a.key = OTHER);
    assert_eq!(check(&wrong_system_program, &good), Err(VaultError::InvalidInput));
    let wrong_rent = with(initialize_accounts(), 6, |a| a.key = OTHER);
    assert_eq!(check(&wrong_rent, &good), Err(VaultError::InvalidInput));
    let no_address = InitializeReadings { record_address: None, ..good };
    assert_eq!(check(&accounts, &no_address), Err(VaultError::InvalidInput));
    let other_address = InitializeReadings { record_address: Some((OTHER, 254)), ..good };
    assert_eq!(check(&accounts, &other_address), Err(VaultError::InvalidInput));
    let allocated = with(initialize_accounts(), 1, |a| a.owner = PROGRAM);
    assert_eq!(check(&allocated, &good), Err(VaultError::AccountNotInitialized));
    let filled = with(initialize_accounts(), 1, |a| a.data = vec![0]);
    assert_eq!(check(&filled, &good), Err(VaultError::AccountNotInitialized));
}

#[test]
fn initialize_asks_the_owner_to_fund_the_record() {
    let plan = plan_initialize(&PROGRAM, &initialize_accounts(), &initialize_readings()).unwrap();
    let allocation = Allocation {
        payer: OWNER,
        address: VAULT_STATE,
        space: 106,
        owner: PROGRAM,
        seeds: vault_seeds(),
    };
    assert_eq!(plan.allocation(1_000_000), Ok(allocation));
    assert_eq!(plan.allocation(0), Ok(allocation));
    assert_eq!(plan.allocation(1_000_001), Err(VaultError::InvalidInput));
}

#[test]
fn initialize_commit_stores_a_fresh_record() {
    let plan = plan_initialize(&PROGRAM, &initialize_accounts(), &initialize_readings()).unwrap();
    let mut data = vec![0xffu8; 106];
    assert_eq!(plan.commit(&mut data), Ok(()));
    assert_eq!(data, VaultState::new(OWNER, MINT, VAULT_TOKENS, 254).pack());
    assert_eq!(deserialize_vault_state_safe(&data), Ok(vault(0, false)));

    let mut short = vec![0xffu8; 105];
    assert_eq!(plan.commit(&mut short), Err(VaultError::InvalidInput));
    assert_eq!(short, vec![0xffu8; 105]);
    let mut empty: Vec<u8> = vec![];
    assert_eq!(plan.commit(&mut empty), Err(VaultError::InvalidInput));

    let zero_mint = InitializePlan { token_mint: Key::zero(), ..plan };
    let mut untouched = vec![0xffu8; 106];
    assert_eq!(zero_mint.commit(&mut untouched), Err(VaultError::InvalidInput));
    assert_eq!(untouched, vec![0xffu8; 106]);
}

fn deposit_plan(total: u64, recorded: u64, amount: u64) -> DepositPlan {
    plan_deposit(&PROGRAM, &user_accounts(total, recorded), amount, &user_readings(amount, total))
        .unwrap()
}

#[test]
fn deposit_commit_credits_both_records() {
    let mut balance_data = balance(20).pack();
    let mut vault_data = vault(500, false).pack();
    assert_eq!(deposit_plan(500, 20, 100).commit(&mut balance_data, &mut vault_data), Ok(()));
    assert_eq!(balance_data, balance(120).pack());
    assert_eq!(vault_data, vault(600, false).pack());
}

#[test]
fn deposit_commit_guards_against_overflow() {
    let balance_before = balance(u64::MAX - 99).pack();
    let vault_before = vault(500, false).pack();
    let mut balance_data = balance_before.clone();
    let mut vault_data = vault_before.clone();
    assert_eq!(
        deposit_plan(500, u64::MAX - 99, 100).commit(&mut balance_data, &mut vault_data),
        Err(VaultError::ArithmeticOverflow)
    );
    assert_eq!(balance_data, balance_before);
    assert_eq!(vault_data, vault_before);

    let balance_before = balance(20).pack();
    let vault_before = vault(u64::MAX, false).pack();
    let mut balance_data = balance_before.clone();
    let mut vault_data = vault_before.clone();
    assert_eq!(
        deposit_plan(u64::MAX, 20, 1).commit(&mut balance_data, &mut vault_data),
        Err(VaultError::ArithmeticOverflow)
    );
    assert_eq!(balance_data, balance_before);
    assert_eq!(vault_data, vault_before);

    let mut balance_data = balance(0).pack();
    let mut vault_data = vault(u64::MAX - 1, false).pack();
    assert_eq!(
        deposit_plan(u64::MAX - 1, 0, 1).commit(&mut balance_data, &mut vault_data),
        Ok(())
    );
    assert_eq!(vault_data, vault(u64::MAX, false).pack());
    assert_eq!(balance_data, balance(1).pack());
}

#[test]
fn commit_needs_room_and_keeps_what_lies_behind_the_record() {
    let plan = deposit_plan(500, 20, 100);
    let mut balance_data = vec![0xeeu8; 80];
    let mut vault_data = vec![0xddu8; 110];
    assert_eq!(plan.commit(&mut balance_data, &mut vault_data), Ok(()));
    assert_eq!(&balance_data[..73], &balance(120).pack()[..]);
    assert_eq!(&balance_data[73..], &[0xeeu8; 7]);
    assert_eq!(&vault_data[..106], &vault(600, false).pack()[..]);
    assert_eq!(&vault_data[106..], &[0xddu8; 4]);

    let mut short_balance = vec![0xeeu8; 72];
    let mut vault_data = vec![0xddu8; 106];
    assert_eq!(plan.commit(&mut short_balance, &mut vault_data), Err(VaultError::InvalidInput));
    assert_eq!(short_balance, vec![0xeeu8; 72]);
    assert_eq!(vault_data, vec![0xddu8; 106]);

    let mut balance_data = vec![0xeeu8; 73];
    let mut short_vault = vec![0xddu8; 105];
    assert_eq!(plan.commit(&mut balance_data, &mut short_vault), Err(VaultError::InvalidInput));
    assert_eq!(balance_data, vec![0xeeu8; 73]);
    assert_eq!(short_vault, vec![0xddu8; 105]);

    let zero_user = DepositPlan { user_balance: UserBalance::new(Key::zero(), OTHER, 1), ..plan };
    let mut balance_data = vec![0xeeu8; 73];
    let mut vault_data = vec![0xddu8; 106];
    assert_eq!(zero_user.commit(&mut balance_data, &mut vault_data), Err(VaultError::InvalidInput));
    assert_eq!(balance_data, vec![0xeeu8; 73]);
    assert_eq!(vault_data, vec![0xddu8; 106]);
}

#[test]
fn withdraw_commit_debits_both_records() {
    let plan = plan_withdraw(&PROGRAM, &user_accounts(100, 100), 40, &user_readings(0, 100)).unwrap();
    let mut balance_data = balance(100).pack();
    let mut vault_data = vault(100, false).pack();
    assert_eq!(plan.commit(&mut balance_data, &mut vault_data), Ok(()));
    assert_eq!(balance_data, balance(60).pack());
    assert_eq!(vault_data, vault(60, false).pack());
}

#[test]
fn withdraw_commit_refuses_to_go_below_zero() {
    let plan = plan_withdraw(&PROGRAM, &user_accounts(30, 100), 40, &user_readings(0, 100)).unwrap();
    let balance_before = balance(100).pack();
    let vault_before = vault(30, false).pack();
    let mut balance_data = balance_before.clone();
    let mut vault_data = vault_before.clone();
    assert_eq!(
        plan.commit(&mut balance_data, &mut vault_data),
        Err(VaultError::InsufficientFunds)
    );
    assert_eq!(balance_data, balance_before);
    assert_eq!(vault_data, vault_before);

    let beyond = WithdrawPlan { user_balance: balance(39), vault_state: vault(100, false), ..plan };
    assert_eq!(
        beyond.commit(&mut balance_data, &mut vault_data),
        Err(VaultError::InsufficientFunds)
    );
    assert_eq!(balance_data, balance_before);
    assert_eq!(vault_data, vault_before);
}

#[test]
fn sweep_commit_zeroes_the_total() {
    let plan = plan_withdraw_all(&PROGRAM, &owner_accounts(250), &owner_readings(250)).unwrap();
    let mut data = vault(250, false).pack();
    assert_eq!(plan.commit(&mut data), Ok(()));
    assert_eq!(data, vault(0, false).pack());
    let mut short = vec![1u8; 10];
    assert_eq!(plan.commit(&mut short), Err(VaultError::InvalidInput));
    assert_eq!(short, vec![1u8; 10]);
}

#[test]
fn close_commit_sets_the_flag() {
    let plan = plan_close(&PROGRAM, &owner_accounts(250), &owner_readings(250)).unwrap();
    let mut data = vault(250, false).pack();
    assert_eq!(plan.commit(&mut data), Ok(()));
    assert_eq!(data, vault(250, true).pack());
    assert_eq!(load_open_vault(&PROGRAM, &account(VAULT_STATE, PROGRAM, false, true, data)),
        Err(VaultError::VaultClosed));
    let mut short = vec![1u8; 10];
    assert_eq!(plan.commit(&mut short), Err(VaultError::InvalidInput));
    assert_eq!(short, vec![1u8; 10]);
}

#[test]
fn handlers_refuse_too_few_accounts_before_they_read_any() {
    assert_eq!(process_initialize(&PROGRAM, &initialize_accounts()[..6]), Err(VaultError::InvalidInput));
    assert_eq!(process_deposit(&PROGRAM, &user_accounts(0, 0)[..6], 1), Err(VaultError::InvalidInput));
    assert_eq!(process_withdraw(&PROGRAM, &user_accounts(0, 0)[..5], 1), Err(VaultError::InvalidInput));
    assert_eq!(process_withdraw_all(&PROGRAM, &owner_accounts(0)[..4]), Err(VaultError::InvalidInput));
    assert_eq!(process_close(&PROGRAM, &owner_accounts(0)[..4]), Err(VaultError::InvalidInput));
    assert_eq!(process_close(&PROGRAM, &[]), Err(VaultError::InvalidInput));
}

#[test]
fn handlers_read_the_custody_accounts_themselves() {
    assert_eq!(
        process_deposit(&PROGRAM, &user_accounts(0, 0), 1),
        Err(VaultError::InvalidTokenAccount)
    );
    assert_eq!(
        process_withdraw(&PROGRAM, &user_accounts(0, 0), 1),
        Err(VaultError::InvalidTokenAccount)
    );
    assert_eq!(
        process_withdraw_all(&PROGRAM, &owner_accounts(0)),
        Err(VaultError::InvalidTokenAccount)
    );
    assert_eq!(process_close(&PROGRAM, &owner_accounts(0)), Err(VaultError::InvalidTokenAccount));
    assert_eq!(process_initialize(&PROGRAM, &initialize_accounts()), Err(VaultError::InvalidMint));
}

#[test]
fn stored_records_are_read_strictly() {
    assert_eq!(validate_vault_buffer(&[0; 106], 106), Ok(()));
    assert_eq!(validate_vault_buffer(&[0; 105], 106), Err(VaultError::InvalidInput));
    assert_eq!(validate_vault_buffer(&[], 0), Ok(()));

    let stored = vault(77, false).pack();
    assert_eq!(deserialize_vault_state_safe(&stored), Ok(vault(77, false)));
    assert_eq!(deserialize_vault_state_safe(&stored[..105]), Err(VaultError::InvalidInput));
    assert_eq!(deserialize_vault_state_safe(&[]), Err(VaultError::InvalidInput));
    let mut bad_flag = stored.clone();
    bad_flag[104] = 0xff;
    assert_eq!(deserialize_vault_state_safe(&bad_flag), Err(VaultError::AccountNotInitialized));
    assert_eq!(deserialize_vault_state_safe(&[0; 106]), Err(VaultError::InvalidInput));
    let mut zero_account = stored.clone();
    zero_account[64..96].fill(0);
    assert_eq!(deserialize_vault_state_safe(&zero_account), Err(VaultError::InvalidInput));

    let stored = balance(5).pack();
    assert_eq!(deserialize_user_balance_safe(&stored), Ok(balance(5)));
    assert_eq!(
        deserialize_user_balance_safe(&stored[..72]),
        Err(VaultError::AccountNotInitialized)
    );
    assert_eq!(deserialize_user_balance_safe(&[]), Err(VaultError::AccountNotInitialized));
    assert_eq!(deserialize_user_balance_safe(&[0; 73]), Err(VaultError::InvalidInput));
}

#[test]
fn records_are_stored_at_the_start_of_the_buffer() {
    let mut buffer = vec![9u8; 108];
    assert_eq!(serialize_vault_state_safe(&vault(1, true), &mut buffer), Ok(()));
    assert_eq!(&buffer[..106], &vault(1, true).pack()[..]);
    assert_eq!(&buffer[106..], &[9u8, 9]);
    let mut short = vec![9u8; 105];
    assert_eq!(serialize_vault_state_safe(&vault(1, true), &mut short), Err(VaultError::InvalidInput));
    assert_eq!(short, vec![9u8; 105]);
    let unowned = VaultState { owner: Key::zero(), ..vault(1, false) };
    assert_eq!(serialize_vault_state_safe(&unowned, &mut buffer), Err(VaultError::InvalidInput));
    assert_eq!(&buffer[..106], &vault(1, true).pack()[..]);

    let mut buffer = vec![9u8; 73];
    assert_eq!(serialize_user_balance_safe(&balance(3), &mut buffer), Ok(()));
    assert_eq!(buffer, balance(3).pack());
    let mut short = vec![9u8; 1];
    assert_eq!(serialize_user_balance_safe(&balance(3), &mut short), Err(VaultError::InvalidInput));
    assert_eq!(short, vec![9u8]);
    let nowhere = UserBalance { vault: Key::zero(), ..balance(3) };
    assert_eq!(serialize_user_balance_safe(&nowhere, &mut buffer), Err(VaultError::InvalidInput));
    assert_eq!(buffer, balance(3).pack());
}

#[test]
fn custody_readings_are_held_against_the_mint() {
    assert_eq!(custody_amount(held(MINT, 12), &MINT), Ok(12));
    assert_eq!(custody_amount(held(MINT, 12), &OTHER), Err(VaultError::InvalidMint));
    assert_eq!(custody_amount(None, &MINT), Err(VaultError::InvalidTokenAccount));
}

#[test]
fn derived_addresses_are_held_against_the_claim() {
    assert_eq!(address_or_invalid(Some((MINT, 3))), Ok((MINT, 3)));
    assert_eq!(address_or_invalid(None), Err(VaultError::InvalidInput));
    assert_eq!(match_address(Some((MINT, 254)), &MINT, 254), Ok(()));
    assert_eq!(match_address(Some((MINT, 254)), &OTHER, 254), Err(VaultError::InvalidInput));
    assert_eq!(match_address(Some((MINT, 254)), &MINT, 253), Err(VaultError::InvalidInput));
    assert_eq!(match_address(Some((MINT, 254)), &MINT, 255), Err(VaultError::InvalidInput));
    assert_eq!(match_address(None, &MINT, 254), Err(VaultError::InvalidInput));
}

#[test]
fn no_plan_on_a_closed_vault_is_committed() {
    let balance_before = balance(50).pack();
    let vault_before = vault(50, true).pack();
    let mut balance_data = balance_before.clone();
    let mut vault_data = vault_before.clone();

    let deposit = DepositPlan { vault_state: vault(50, true), ..deposit_plan(50, 50, 10) };
    assert_eq!(deposit.commit(&mut balance_data, &mut vault_data), Err(VaultError::VaultClosed));
    let withdrawal = WithdrawPlan {
        vault_state: vault(50, true),
        ..plan_withdraw(&PROGRAM, &user_accounts(50, 50), 10, &user_readings(0, 50)).unwrap()
    };
    assert_eq!(withdrawal.commit(&mut balance_data, &mut vault_data), Err(VaultError::VaultClosed));
    let sweep = WithdrawAllPlan { vault_state: vault(50, true), transfer: None };
    assert_eq!(sweep.commit(&mut vault_data), Err(VaultError::VaultClosed));
    let close = ClosePlan { vault_state: vault(50, true), transfer: None };
    assert_eq!(close.commit(&mut vault_data), Err(VaultError::VaultClosed));

    assert_eq!(balance_data, balance_before);
    assert_eq!(vault_data, vault_before);
}
