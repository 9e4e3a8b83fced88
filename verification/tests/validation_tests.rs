use solana_program::program_option::COption;
use solana_program::program_pack::Pack;
use solana_program::pubkey::Pubkey;
use solana_program::system_program;
use solana_vault_contract::account::AccountSnapshot;
use solana_vault_contract::error::VaultError;
use solana_vault_contract::key::Key;
use solana_vault_contract::token::{reads_as_mint, token_account_of, TokenAccount};
use solana_vault_contract::utils::{
    validate_user_accounts, validate_vault_accounts, verify_account_owner, verify_rent_exempt,
    verify_signer, verify_token_account, verify_token_mint, verify_uninitialized_account,
    verify_writable,
};
use spl_token::state::{Account, AccountState, Mint};

fn key(pubkey: &Pubkey) -> Key {
    Key::new(pubkey.to_bytes())
}

fn create_test_account_info(
    key: &Pubkey,
    is_signer: bool,
    is_writable: bool,
    lamports: u64,
    data: &[u8],
    owner: &Pubkey,
) -> AccountSnapshot {
    AccountSnapshot {
        key: Key::new(key.to_bytes()),
        owner: Key::new(owner.to_bytes()),
        is_signer,
        is_writable,
        lamports,
        data: data.to_vec(),
    }
}

fn token_account_data(mint: &Pubkey, owner: &Pubkey, amount: u64) -> Vec<u8> {
    let account = Account {
        mint: *mint,
        owner: *owner,
        amount,
        delegate: COption::None,
        state: AccountState::Initialized,
        is_native: COption::None,
        delegated_amount: 0,
        close_authority: COption::None,
    };
    let mut data = vec![0u8; Account::LEN];
    Account::pack(account, &mut data).unwrap();
    data
}

fn mint_data(supply: u64) -> Vec<u8> {
    let mint = Mint {
        mint_authority: COption::None,
        supply,
        decimals: 6,
        is_initialized: true,
        freeze_authority: COption::None,
    };
    let mut data = vec![0u8; Mint::LEN];
    Mint::pack(mint, &mut data).unwrap();
    data
}

#[test]
fn test_verify_signer_success() {
    let key = Pubkey::new_unique();
    let owner = system_program::id();

    let account = create_test_account_info(&key, true, false, 0, &[], &owner);
    assert!(verify_signer(&account).is_ok());
}

#[test]
fn test_verify_signer_failure() {
    let key = Pubkey::new_unique();
    let owner = system_program::id();

    let account = create_test_account_info(&key, false, false, 0, &[], &owner);
    assert!(verify_signer(&account).is_err());
}

#[test]
fn test_verify_writable_success() {
    let key = Pubkey::new_unique();
    let owner = system_program::id();

    let account = create_test_account_info(&key, false, true, 0, &[], &owner);
    assert!(verify_writable(&account).is_ok());
}

#[test]
fn test_verify_writable_failure() {
    let key = Pubkey::new_unique();
    let owner = system_program::id();

    let account = create_test_account_info(&key, false, false, 0, &[], &owner);
    assert!(verify_writable(&account).is_err());
}

#[test]
fn test_verify_account_owner_success() {
    let key = Pubkey::new_unique();
    let owner = system_program::id();

    let account = create_test_account_info(&key, false, false, 0, &[], &owner);
    assert!(verify_account_owner(&account, &Key::new(system_program::id().to_bytes())).is_ok());
}

#[test]
fn test_verify_account_owner_failure() {
    let key = Pubkey::new_unique();
    let owner = system_program::id();
    let wrong_owner = Pubkey::new_unique();

    let account = create_test_account_info(&key, false, false, 0, &[], &owner);
    assert!(verify_account_owner(&account, &Key::new(wrong_owner.to_bytes())).is_err());
}

#[test]
fn each_check_reports_its_own_error() {
    let address = Pubkey::new_unique();
    let owner = Pubkey::new_unique();
    let plain = create_test_account_info(&address, false, false, 0, &[], &owner);
    assert_eq!(verify_signer(&plain), Err(VaultError::UnauthorizedAccess));
    assert_eq!(verify_writable(&plain), Err(VaultError::InvalidInput));
    assert_eq!(
        verify_account_owner(&plain, &key(&address)),
        Err(VaultError::InvalidTokenAccount)
    );
    assert_eq!(verify_account_owner(&plain, &key(&owner)), Ok(()));
    assert_eq!(plain.data_len(), 0);
}

#[test]
fn token_account_check() {
    let mint = Pubkey::new_unique();
    let other_mint = Pubkey::new_unique();
    let holder = Pubkey::new_unique();
    let address = Pubkey::new_unique();
    let data = token_account_data(&mint, &holder, 500);
    let good = create_test_account_info(&address, false, true, 1, &data, &spl_token::id());
    assert_eq!(verify_token_account(&good, Some(&key(&mint))), Ok(()));
    assert_eq!(verify_token_account(&good, None), Ok(()));
    assert_eq!(
        verify_token_account(&good, Some(&key(&other_mint))),
        Err(VaultError::InvalidMint)
    );

    let foreign = create_test_account_info(&address, false, true, 1, &data, &holder);
    assert_eq!(
        verify_token_account(&foreign, Some(&key(&mint))),
        Err(VaultError::InvalidTokenAccount)
    );
    assert_eq!(verify_token_account(&foreign, None), Err(VaultError::InvalidTokenAccount));

    let short = create_test_account_info(&address, false, true, 1, &data[..164], &spl_token::id());
    assert_eq!(
        verify_token_account(&short, Some(&key(&mint))),
        Err(VaultError::InvalidTokenAccount)
    );
    assert_eq!(verify_token_account(&short, None), Ok(()));

    let blank = vec![0u8; Account::LEN];
    let uninitialized =
        create_test_account_info(&address, false, true, 1, &blank, &spl_token::id());
    assert_eq!(
        verify_token_account(&uninitialized, Some(&key(&Pubkey::default()))),
        Err(VaultError::InvalidTokenAccount)
    );

    let mut bad_state = data.clone();
    bad_state[108] = 3;
    let corrupt = create_test_account_info(&address, false, true, 1, &bad_state, &spl_token::id());
    assert_eq!(
        verify_token_account(&corrupt, Some(&key(&mint))),
        Err(VaultError::InvalidTokenAccount)
    );
}

#[test]
fn token_mint_check() {
    let address = Pubkey::new_unique();
    let data = mint_data(1_000_000);
    let good = create_test_account_info(&address, false, false, 1, &data, &spl_token::id());
    assert_eq!(verify_token_mint(&good), Ok(()));

    let foreign = create_test_account_info(&address, false, false, 1, &data, &address);
    assert_eq!(verify_token_mint(&foreign), Err(VaultError::InvalidTokenAccount));

    let blank = vec![0u8; Mint::LEN];
    let uninitialized =
        create_test_account_info(&address, false, false, 1, &blank, &spl_token::id());
    assert_eq!(verify_token_mint(&uninitialized), Err(VaultError::InvalidMint));

    let short = create_test_account_info(&address, false, false, 1, &data[..81], &spl_token::id());
    assert_eq!(verify_token_mint(&short), Err(VaultError::InvalidMint));

    let account_data = token_account_data(&address, &address, 1);
    let not_a_mint =
        create_test_account_info(&address, false, false, 1, &account_data, &spl_token::id());
    assert_eq!(verify_token_mint(&not_a_mint), Err(VaultError::InvalidMint));
}

#[test]
fn uninitialized_account_check() {
    let address = Pubkey::new_unique();
    let fresh = create_test_account_info(&address, false, true, 0, &[], &system_program::id());
    assert_eq!(verify_uninitialized_account(&fresh), Ok(()));
    let owned = create_test_account_info(&address, false, true, 0, &[], &address);
    assert_eq!(verify_uninitialized_account(&owned), Err(VaultError::AccountNotInitialized));
    let filled = create_test_account_info(&address, false, true, 0, &[0], &system_program::id());
    assert_eq!(verify_uninitialized_account(&filled), Err(VaultError::AccountNotInitialized));
}

#[test]
fn rent_exempt_check() {
    let address = Pubkey::new_unique();
    let rent = solana_program::rent::Rent::default();
    let data = [0u8; 106];
    let minimum = rent.minimum_balance(data.len());
    let funded =
        create_test_account_info(&address, false, true, minimum, &data, &system_program::id());
    assert_eq!(verify_rent_exempt(&funded, minimum), Ok(()));
    assert!(rent.is_exempt(funded.lamports, funded.data_len()));
    let poor =
        create_test_account_info(&address, false, true, minimum - 1, &data, &system_program::id());
    assert_eq!(verify_rent_exempt(&poor, minimum), Err(VaultError::InvalidInput));
    assert!(!rent.is_exempt(poor.lamports, poor.data_len()));
    assert_eq!(verify_rent_exempt(&poor, 0), Ok(()));
}

#[test]
fn vault_accounts_are_checked_in_order() {
    let program = Pubkey::new_unique();
    let mint_address = Pubkey::new_unique();
    let owner_address = Pubkey::new_unique();
    let owner = create_test_account_info(&owner_address, true, true, 0, &[], &system_program::id());
    let vault_state =
        create_test_account_info(&Pubkey::new_unique(), false, true, 0, &[0; 106], &program);
    let custody = create_test_account_info(
        &Pubkey::new_unique(),
        false,
        true,
        0,
        &token_account_data(&mint_address, &owner_address, 0),
        &spl_token::id(),
    );
    let mint = create_test_account_info(&mint_address, false, false, 0, &mint_data(10), &spl_token::id());
    let program_id = key(&program);
    assert_eq!(validate_vault_accounts(&owner, &vault_state, &custody, &mint, &program_id), Ok(()));

    let unsigned = AccountSnapshot { is_signer: false, ..owner.clone() };
    let foreign_state = AccountSnapshot { owner: key(&owner_address), ..vault_state.clone() };
    let bad_mint = AccountSnapshot { data: vec![0; 82], ..mint.clone() };
    let other_mint = AccountSnapshot { key: key(&Pubkey::new_unique()), ..mint.clone() };
    assert_eq!(
        validate_vault_accounts(&unsigned, &foreign_state, &custody, &bad_mint, &program_id),
        Err(VaultError::UnauthorizedAccess)
    );
    assert_eq!(
        validate_vault_accounts(&owner, &foreign_state, &custody, &other_mint, &program_id),
        Err(VaultError::InvalidTokenAccount)
    );
    assert_eq!(
        validate_vault_accounts(&owner, &vault_state, &custody, &other_mint, &program_id),
        Err(VaultError::InvalidMint)
    );
    assert_eq!(
        validate_vault_accounts(&owner, &vault_state, &custody, &bad_mint, &program_id),
        Err(VaultError::InvalidMint)
    );
}

#[test]
fn user_accounts_are_checked_in_order() {
    let program = Pubkey::new_unique();
    let mint = Pubkey::new_unique();
    let user_address = Pubkey::new_unique();
    let user = create_test_account_info(&user_address, true, true, 0, &[], &system_program::id());
    let user_custody = create_test_account_info(
        &Pubkey::new_unique(),
        false,
        true,
        0,
        &token_account_data(&mint, &user_address, 5),
        &spl_token::id(),
    );
    let vault_custody = create_test_account_info(
        &Pubkey::new_unique(),
        false,
        true,
        0,
        &token_account_data(&mint, &program, 0),
        &spl_token::id(),
    );
    let vault_state =
        create_test_account_info(&Pubkey::new_unique(), false, true, 0, &[0; 106], &program);
    let balance =
        create_test_account_info(&Pubkey::new_unique(), false, true, 0, &[0; 73], &program);
    let program_id = key(&program);
    let mint_key = key(&mint);
    assert_eq!(
        validate_user_accounts(
            &user,
            &user_custody,
            &vault_custody,
            &vault_state,
            &balance,
            &program_id,
            &mint_key
        ),
        Ok(())
    );
    let unsigned = AccountSnapshot { is_signer: false, ..user.clone() };
    assert_eq!(
        validate_user_accounts(
            &unsigned,
            &user_custody,
            &vault_custody,
            &vault_state,
            &balance,
            &program_id,
            &key(&program)
        ),
        Err(VaultError::UnauthorizedAccess)
    );
    assert_eq!(
        validate_user_accounts(
            &user,
            &user_custody,
            &vault_custody,
            &vault_state,
            &balance,
            &program_id,
            &key(&program)
        ),
        Err(VaultError::InvalidMint)
    );
    let other_custody = AccountSnapshot {
        data: token_account_data(&program, &program, 0),
        ..vault_custody.clone()
    };
    assert_eq!(
        validate_user_accounts(
            &user,
            &user_custody,
            &other_custody,
            &vault_state,
            &user,
            &program_id,
            &mint_key
        ),
        Err(VaultError::InvalidMint)
    );
    assert_eq!(
        validate_user_accounts(
            &user,
            &user_custody,
            &vault_custody,
            &user,
            &balance,
            &program_id,
            &mint_key
        ),
        Err(VaultError::InvalidTokenAccount)
    );
    assert_eq!(
        validate_user_accounts(
            &user,
            &user_custody,
            &vault_custody,
            &vault_state,
            &user,
            &program_id,
            &mint_key
        ),
        Err(VaultError::InvalidTokenAccount)
    );
}

#[test]
fn custody_reading_takes_mint_and_amount_from_their_places() {
    let address = Pubkey::new_unique();
    let mut data = vec![0u8; 165];
    for (index, byte) in data[..32].iter_mut().enumerate() {
        *byte = 0x40 + index as u8;
    }
    data[32..64].fill(0x77);
    data[64..72].copy_from_slice(&[8, 7, 6, 5, 4, 3, 2, 1]);
    data[108] = 1;
    let account = create_test_account_info(&address, false, true, 1, &data, &spl_token::id());
    let mut mint = [0u8; 32];
    mint.copy_from_slice(&data[..32]);
    assert_eq!(
        token_account_of(&account),
        Some(TokenAccount { mint: Key::new(mint), amount: 0x0102_0304_0506_0708 })
    );
    assert_eq!(verify_token_account(&account, Some(&Key::new(mint))), Ok(()));
    assert_eq!(
        verify_token_account(&account, Some(&Key::new([0x77; 32]))),
        Err(VaultError::InvalidMint)
    );

    let packed = token_account_data(&Pubkey::new_from_array(mint), &address, 1000);
    assert_eq!(&packed[..32], &mint);
    assert_eq!(&packed[64..72], &[0xe8u8, 0x03, 0, 0, 0, 0, 0, 0]);
    assert_eq!(packed.len(), 165);

    for length in [0usize, 72, 164, 166] {
        let mut other = data.clone();
        other.resize(length, 0);
        let wrong = create_test_account_info(&address, false, true, 1, &other, &spl_token::id());
        assert_eq!(token_account_of(&wrong), None);
    }
}

#[test]
fn mint_reading_needs_the_mints_size() {
    let address = Pubkey::new_unique();
    let data = mint_data(5);
    assert_eq!(data.len(), 82);
    let mint = create_test_account_info(&address, false, false, 1, &data, &spl_token::id());
    assert!(reads_as_mint(&mint));
    for length in [0usize, 81, 83, 165] {
        let mut other = data.clone();
        other.resize(length, 0);
        let wrong = create_test_account_info(&address, false, false, 1, &other, &spl_token::id());
        assert!(!reads_as_mint(&wrong));
    }
}
