//! Derived addresses, where the ledger records live and how a claimed
//! address is checked; and the checks on single accounts that every
//! instruction starts with.

use vstd::prelude::*;
use solana_program::pubkey::Pubkey;
use crate::account::AccountSnapshot;
use crate::action::view_of;
use crate::error::VaultError;
use crate::key::{zero_key, Key};
use crate::token::{mint_in, reads_as_mint, system_program_id, token_account_in, token_account_of,
    token_program_id, token_program_key, TokenAccount};

verus! {

/// Seed tag of the vault record's address: the text `vault`.
pub const VAULT_SEED: [u8; 5] = [118, 97, 117, 108, 116];

/// Seed tag of a user balance record's address: the text `user_balance`.
pub const USER_BALANCE_SEED: [u8; 12] = [117, 115, 101, 114, 95, 98, 97, 108, 97, 110, 99, 101];

/// What `Pubkey::create_program_address` of solana-program makes of the
/// four seeds tag, first key, second key and bump under a program: the
/// derived address, or `None` where these seeds give no usable address.
pub uninterp spec fn program_address(
    tag: Seq<u8>,
    key_a: Seq<u8>,
    key_b: Seq<u8>,
    bump: u8,
    program_id: Seq<u8>,
) -> Option<Seq<u8>>;

/// What `bytes_are_curve_point` of solana-program makes of thirty-two
/// bytes: whether they are a point of the ed25519 curve, and so the public
/// half of a key pair that could sign.
pub uninterp spec fn on_curve(bytes: Seq<u8>) -> bool;

/// `Pubkey::try_find_program_address` of solana-program, on the three seeds
/// tag, first key and second key. It tries the bumps from 255 down to 1 with
/// `Pubkey::create_program_address` and returns the first address that
/// comes out, with its bump; bump 0 is never tried. The contract says so
/// over the name of what `create_program_address` gives, and that the
/// address is no point of the curve: `create_program_address` refuses
/// seeds whose hash is one.
#[verifier::external_body]
fn try_find_program_address(tag: &[u8], key_a: &Key, key_b: &Key, program_id: &Key) -> (r: Option<
    (Key, u8),
>)
    ensures
        match r {
            Some((address, bump)) => {
                &&& bump >= 1
                &&& program_address(tag@, key_a@, key_b@, bump, program_id@) == Some(address@)
                &&& !on_curve(address@)
                &&& forall|higher: u8|
                    bump < higher ==> #[trigger] program_address(
                        tag@,
                        key_a@,
                        key_b@,
                        higher,
                        program_id@,
                    ) is None
            },
            None => forall|bump: u8|
                bump >= 1 ==> #[trigger] program_address(
                    tag@,
                    key_a@,
                    key_b@,
                    bump,
                    program_id@,
                ) is None,
        },
{
    let program = Pubkey::new_from_array(program_id.bytes);
    let seeds: [&[u8]; 3] = [tag, &key_a.bytes, &key_b.bytes];
    match Pubkey::try_find_program_address(&seeds, &program) {
        Some((address, bump)) => Some((Key { bytes: address.to_bytes() }, bump)),
        None => None,
    }
}

/// `bump` is the one that derivation settles on: the highest bump, not
/// zero, for which the seeds give an address.
pub open spec fn is_canonical_bump(
    tag: Seq<u8>,
    key_a: Seq<u8>,
    key_b: Seq<u8>,
    bump: u8,
    program_id: Seq<u8>,
) -> bool {
    &&& bump >= 1
    &&& program_address(tag, key_a, key_b, bump, program_id) is Some
    &&& forall|higher: u8|
        bump < higher ==> #[trigger] program_address(tag, key_a, key_b, higher, program_id) is None
}

/// The derived address of a seed tag and two keys under a program, with its
/// bump; `None` where no bump from 255 down to 1 gives an address.
pub open spec fn derived_address(
    tag: Seq<u8>,
    key_a: Seq<u8>,
    key_b: Seq<u8>,
    program_id: Seq<u8>,
) -> Option<(Seq<u8>, u8)> {
    if exists|bump: u8| is_canonical_bump(tag, key_a, key_b, bump, program_id) {
        let bump = choose|bump: u8| is_canonical_bump(tag, key_a, key_b, bump, program_id);
        Some((program_address(tag, key_a, key_b, bump, program_id)->0, bump))
    } else {
        None
    }
}

/// At most one bump is canonical.
pub proof fn lemma_canonical_bump_unique(
    tag: Seq<u8>,
    key_a: Seq<u8>,
    key_b: Seq<u8>,
    program_id: Seq<u8>,
    one: u8,
    other: u8,
)
    requires
        is_canonical_bump(tag, key_a, key_b, one, program_id),
        is_canonical_bump(tag, key_a, key_b, other, program_id),
    ensures
        one == other,
{
}

/// What a search for a derived address is worth: the address and its bump,
/// or `InvalidInput` where the search found none.
pub fn address_or_invalid(found: Option<(Key, u8)>) -> (r: Result<(Key, u8), VaultError>)
    ensures
        r == match found {
            Some(pair) => Ok::<(Key, u8), VaultError>(pair),
            None => Err::<(Key, u8), VaultError>(VaultError::InvalidInput),
        },
{
    match found {
        Some(pair) => Ok(pair),
        None => Err(VaultError::InvalidInput),
    }
}

/// Accepts a claimed address and bump exactly when the search found an
/// address and they are what it found; otherwise `InvalidInput`.
pub fn match_address(found: Option<(Key, u8)>, claimed: &Key, bump: u8) -> (r: Result<
    (),
    VaultError,
>)
    ensures
        r is Ok <==> (found matches Some((address, canonical)) && address@ == claimed@
            && canonical == bump),
        r is Err ==> r == Err::<(), VaultError>(VaultError::InvalidInput),
{
    match found {
        Some((address, canonical)) => {
            if address != *claimed {
                return Err(VaultError::InvalidInput);
            }
            if canonical != bump {
                return Err(VaultError::InvalidInput);
            }
            Ok(())
        },
        None => Err(VaultError::InvalidInput),
    }
}

/// Searches the address of a seed tag and two keys under a program.
pub(crate) fn find_address(tag: &[u8], key_a: &Key, key_b: &Key, program_id: &Key) -> (r: Option<
    (Key, u8),
>)
    ensures
        match r {
            Some((address, bump)) => {
                &&& derived_address(tag@, key_a@, key_b@, program_id@) == Some((address@, bump))
                &&& !on_curve(address@)
            },
            None => derived_address(tag@, key_a@, key_b@, program_id@) is None,
        },
{
    let found = try_find_program_address(tag, key_a, key_b, program_id);
    proof {
        if let Some((address, bump)) = found {
            assert(is_canonical_bump(tag@, key_a@, key_b@, bump, program_id@));
            let chosen = choose|b: u8| is_canonical_bump(tag@, key_a@, key_b@, b, program_id@);
            lemma_canonical_bump_unique(tag@, key_a@, key_b@, program_id@, bump, chosen);
        }
    }
    found
}

/// The address and bump of the vault record of `owner` and `token_mint`.
/// The address is no point of the curve, so that no key pair can sign for
/// it. Fails with `InvalidInput` where the seeds have no address.
pub fn derive_vault_state_pda(program_id: &Key, owner: &Key, token_mint: &Key) -> (r: Result<
    (Key, u8),
    VaultError,
>)
    ensures
        match r {
            Ok((address, bump)) => derived_address(
                VAULT_SEED@,
                owner@,
                token_mint@,
                program_id@,
            ) == Some((address@, bump)) && !on_curve(address@),
            Err(e) => e == VaultError::InvalidInput && derived_address(
                VAULT_SEED@,
                owner@,
                token_mint@,
                program_id@,
            ) is None,
        },
{
    address_or_invalid(find_address(&VAULT_SEED, owner, token_mint, program_id))
}

/// The address and bump of the balance record of `user` in the vault whose
/// record lives at `vault_state`. The address is no point of the curve, so
/// that no key pair can sign for it. Fails with `InvalidInput` where the
/// seeds have no address.
pub fn derive_user_balance_pda(program_id: &Key, user: &Key, vault_state: &Key) -> (r: Result<
    (Key, u8),
    VaultError,
>)
    ensures
        match r {
            Ok((address, bump)) => derived_address(
                USER_BALANCE_SEED@,
                user@,
                vault_state@,
                program_id@,
            ) == Some((address@, bump)) && !on_curve(address@),
            Err(e) => e == VaultError::InvalidInput && derived_address(
                USER_BALANCE_SEED@,
                user@,
                vault_state@,
                program_id@,
            ) is None,
        },
{
    address_or_invalid(find_address(&USER_BALANCE_SEED, user, vault_state, program_id))
}

/// Accepts `vault_state` and `bump` exactly when they are the address and
/// the bump that [`derive_vault_state_pda`] returns for `owner` and
/// `token_mint`; otherwise `InvalidInput`. An address that the seeds give
/// with another bump than the derived one is refused.
pub fn verify_vault_state_pda(
    program_id: &Key,
    vault_state: &Key,
    owner: &Key,
    token_mint: &Key,
    bump: u8,
) -> (r: Result<(), VaultError>)
    ensures
        r is Ok <==> derived_address(VAULT_SEED@, owner@, token_mint@, program_id@) == Some(
            (vault_state@, bump),
        ),
        r is Err ==> r == Err::<(), VaultError>(VaultError::InvalidInput),
{
    match_address(find_address(&VAULT_SEED, owner, token_mint, program_id), vault_state, bump)
}

/// Accepts `user_balance` and `bump` exactly when they are the address and
/// the bump that [`derive_user_balance_pda`] returns for `user` and
/// `vault_state`; otherwise `InvalidInput`. An address that the seeds give
/// with another bump than the derived one is refused.
pub fn verify_user_balance_pda(
    program_id: &Key,
    user_balance: &Key,
    user: &Key,
    vault_state: &Key,
    bump: u8,
) -> (r: Result<(), VaultError>)
    ensures
        r is Ok <==> derived_address(USER_BALANCE_SEED@, user@, vault_state@, program_id@)
            == Some((user_balance@, bump)),
        r is Err ==> r == Err::<(), VaultError>(VaultError::InvalidInput),
{
    match_address(
        find_address(&USER_BALANCE_SEED, user, vault_state, program_id),
        user_balance,
        bump,
    )
}

/// The derived pair is the address that the seeds give with the canonical
/// bump, and no other pair is: an address that the seeds give with a lower
/// bump is not the derived one, and verification refuses it.
pub proof fn lemma_derived_address_is_canonical(
    tag: Seq<u8>,
    key_a: Seq<u8>,
    key_b: Seq<u8>,
    program_id: Seq<u8>,
    address: Seq<u8>,
    bump: u8,
)
    ensures
        derived_address(tag, key_a, key_b, program_id) == Some((address, bump)) <==> {
            &&& program_address(tag, key_a, key_b, bump, program_id) == Some(address)
            &&& is_canonical_bump(tag, key_a, key_b, bump, program_id)
        },
{
    if is_canonical_bump(tag, key_a, key_b, bump, program_id) {
        let chosen = choose|b: u8| is_canonical_bump(tag, key_a, key_b, b, program_id);
        lemma_canonical_bump_unique(tag, key_a, key_b, program_id, bump, chosen);
    }
}

/// What [`verify_signer`] returns.
pub open spec fn signer_check(account: AccountSnapshot) -> Result<(), VaultError> {
    if account.is_signer {
        Ok(())
    } else {
        Err(VaultError::UnauthorizedAccess)
    }
}

/// What [`verify_writable`] returns.
pub open spec fn writable_check(account: AccountSnapshot) -> Result<(), VaultError> {
    if account.is_writable {
        Ok(())
    } else {
        Err(VaultError::InvalidInput)
    }
}

/// What [`verify_account_owner`] returns.
pub open spec fn owner_check(account: AccountSnapshot, expected_owner: Seq<u8>) -> Result<
    (),
    VaultError,
> {
    if account.owner@ == expected_owner {
        Ok(())
    } else {
        Err(VaultError::InvalidTokenAccount)
    }
}

/// What [`check_token_account`] returns: the account must belong to the
/// token program (`InvalidTokenAccount`) and, where a mint is expected,
/// read as a custody account (`InvalidTokenAccount`) of that mint
/// (`InvalidMint`). `unpacked` is what the token program reads in the
/// account.
pub open spec fn token_account_check_given(
    account: AccountSnapshot,
    expected_mint: Option<Seq<u8>>,
    unpacked: Option<(Seq<u8>, u64)>,
) -> Result<(), VaultError> {
    if account.owner@ != token_program_key() {
        Err(VaultError::InvalidTokenAccount)
    } else {
        match expected_mint {
            None => Ok(()),
            Some(mint) => match unpacked {
                None => Err(VaultError::InvalidTokenAccount),
                Some((found, _)) => if found == mint {
                    Ok(())
                } else {
                    Err(VaultError::InvalidMint)
                },
            },
        }
    }
}

/// What [`verify_token_account`] returns: [`token_account_check_given`] on
/// what the token program reads in the account.
pub open spec fn token_account_check(
    account: AccountSnapshot,
    expected_mint: Option<Seq<u8>>,
) -> Result<(), VaultError> {
    token_account_check_given(account, expected_mint, token_account_in(account.data@))
}

/// What [`check_token_mint`] returns: the account must belong to the token
/// program (`InvalidTokenAccount`) and read as a mint (`InvalidMint`).
/// `reads_as_mint` is whether the token program reads a mint in the
/// account.
pub open spec fn token_mint_check_given(account: AccountSnapshot, reads_as_mint: bool) -> Result<
    (),
    VaultError,
> {
    if account.owner@ != token_program_key() {
        Err(VaultError::InvalidTokenAccount)
    } else if !reads_as_mint {
        Err(VaultError::InvalidMint)
    } else {
        Ok(())
    }
}

/// What [`verify_token_mint`] returns: [`token_mint_check_given`] on
/// whether the token program reads a mint in the account.
pub open spec fn token_mint_check(account: AccountSnapshot) -> Result<(), VaultError> {
    token_mint_check_given(account, mint_in(account.data@))
}

/// What [`verify_uninitialized_account`] returns: the account must belong to
/// the system program and store nothing.
pub open spec fn uninitialized_check(account: AccountSnapshot) -> Result<(), VaultError> {
    if account.owner@ == zero_key() && account.data@.len() == 0 {
        Ok(())
    } else {
        Err(VaultError::AccountNotInitialized)
    }
}

/// What [`verify_rent_exempt`] returns.
pub open spec fn rent_exempt_check(account: AccountSnapshot, minimum_balance: u64) -> Result<
    (),
    VaultError,
> {
    if account.lamports >= minimum_balance {
        Ok(())
    } else {
        Err(VaultError::InvalidInput)
    }
}

/// Two checks in turn: the failure of the first, else what the second
/// gives.
pub open spec fn in_turn(first: Result<(), VaultError>, second: Result<(), VaultError>) -> Result<
    (),
    VaultError,
> {
    if first is Err {
        first
    } else {
        second
    }
}

/// Refuses an account that did not sign, with `UnauthorizedAccess`.
pub fn verify_signer(account: &AccountSnapshot) -> (r: Result<(), VaultError>)
    ensures
        r == signer_check(*account),
{
    if !account.is_signer {
        return Err(VaultError::UnauthorizedAccess);
    }
    Ok(())
}

/// Refuses an account that may not be changed, with `InvalidInput`.
pub fn verify_writable(account: &AccountSnapshot) -> (r: Result<(), VaultError>)
    ensures
        r == writable_check(*account),
{
    if !account.is_writable {
        return Err(VaultError::InvalidInput);
    }
    Ok(())
}

/// Refuses an account that another program than `expected_owner` owns, with
/// `InvalidTokenAccount`.
pub fn verify_account_owner(account: &AccountSnapshot, expected_owner: &Key) -> (r: Result<
    (),
    VaultError,
>)
    ensures
        r == owner_check(*account, expected_owner@),
{
    if account.owner != *expected_owner {
        return Err(VaultError::InvalidTokenAccount);
    }
    Ok(())
}

/// Checks a custody account, given what the token program reads in it: the
/// token program must own the account (`InvalidTokenAccount`), and where
/// `expected_mint` is given, the account must read as a custody account
/// (`InvalidTokenAccount`) of that mint (`InvalidMint`).
pub fn check_token_account(
    account: &AccountSnapshot,
    expected_mint: Option<&Key>,
    unpacked: Option<TokenAccount>,
) -> (r: Result<(), VaultError>)
    ensures
        r == token_account_check_given(
            *account,
            match expected_mint {
                Some(mint) => Some(mint@),
                None => None,
            },
            view_of(unpacked),
        ),
{
    let token_program = token_program_id();
    verify_account_owner(account, &token_program)?;
    if let Some(mint) = expected_mint {
        match unpacked {
            Some(token_account) => {
                if token_account.mint != *mint {
                    return Err(VaultError::InvalidMint);
                }
            },
            None => {
                return Err(VaultError::InvalidTokenAccount);
            },
        }
    }
    Ok(())
}

/// Checks a custody account: the token program must own it
/// (`InvalidTokenAccount`), and where `expected_mint` is given, its bytes
/// must read as a custody account (`InvalidTokenAccount`) of that mint
/// (`InvalidMint`).
pub fn verify_token_account(account: &AccountSnapshot, expected_mint: Option<&Key>) -> (r: Result<
    (),
    VaultError,
>)
    ensures
        r == token_account_check(
            *account,
            match expected_mint {
                Some(mint) => Some(mint@),
                None => None,
            },
        ),
{
    check_token_account(account, expected_mint, token_account_of(account))
}

/// Checks a mint, given whether the token program reads one in the
/// account: the token program must own the account (`InvalidTokenAccount`)
/// and the account must read as a mint (`InvalidMint`).
pub fn check_token_mint(account: &AccountSnapshot, reads_as_mint: bool) -> (r: Result<
    (),
    VaultError,
>)
    ensures
        r == token_mint_check_given(*account, reads_as_mint),
{
    let token_program = token_program_id();
    verify_account_owner(account, &token_program)?;
    if !reads_as_mint {
        return Err(VaultError::InvalidMint);
    }
    Ok(())
}

/// Checks a mint: the token program must own it (`InvalidTokenAccount`) and
/// its bytes must read as a mint (`InvalidMint`).
pub fn verify_token_mint(account: &AccountSnapshot) -> (r: Result<(), VaultError>)
    ensures
        r == token_mint_check(*account),
{
    check_token_mint(account, reads_as_mint(account))
}

/// Accepts an account that is still unallocated: the system program owns it
/// and it stores nothing. Anything else is `AccountNotInitialized`.
pub fn verify_uninitialized_account(account: &AccountSnapshot) -> (r: Result<(), VaultError>)
    ensures
        r == uninitialized_check(*account),
{
    let system_program = system_program_id();
    if account.owner != system_program {
        return Err(VaultError::AccountNotInitialized);
    }
    if account.data_len() != 0 {
        return Err(VaultError::AccountNotInitialized);
    }
    Ok(())
}

/// Refuses an account whose funds are below `minimum_balance`, the least
/// that the host's rent schedule asks for an account of its size, with
/// `InvalidInput`.
pub fn verify_rent_exempt(account: &AccountSnapshot, minimum_balance: u64) -> (r: Result<
    (),
    VaultError,
>)
    ensures
        r == rent_exempt_check(*account, minimum_balance),
{
    if account.lamports < minimum_balance {
        return Err(VaultError::InvalidInput);
    }
    Ok(())
}

/// The checks on the accounts of a vault, in this order: the owner signed,
/// this program owns the vault record, the custody account is one of the
/// mint, and the mint is a mint. The first failure is reported.
pub fn validate_vault_accounts(
    owner: &AccountSnapshot,
    vault_state: &AccountSnapshot,
    vault_token_account: &AccountSnapshot,
    token_mint: &AccountSnapshot,
    program_id: &Key,
) -> (r: Result<(), VaultError>)
    ensures
        r == in_turn(
            signer_check(*owner),
            in_turn(
                owner_check(*vault_state, program_id@),
                in_turn(
                    token_account_check(*vault_token_account, Some(token_mint.key@)),
                    token_mint_check(*token_mint),
                ),
            ),
        ),
{
    verify_signer(owner)?;
    verify_account_owner(vault_state, program_id)?;
    verify_token_account(vault_token_account, Some(&token_mint.key))?;
    verify_token_mint(token_mint)?;
    Ok(())
}

/// The checks on the accounts of a depositor, in this order: the user
/// signed, both custody accounts are ones of the mint, and this program owns
/// the vault record and the balance record. The first failure is reported.
pub fn validate_user_accounts(
    user: &AccountSnapshot,
    user_token_account: &AccountSnapshot,
    vault_token_account: &AccountSnapshot,
    vault_state: &AccountSnapshot,
    user_balance: &AccountSnapshot,
    program_id: &Key,
    token_mint: &Key,
) -> (r: Result<(), VaultError>)
    ensures
        r == in_turn(
            signer_check(*user),
            in_turn(
                token_account_check(*user_token_account, Some(token_mint@)),
                in_turn(
                    token_account_check(*vault_token_account, Some(token_mint@)),
                    in_turn(
                        owner_check(*vault_state, program_id@),
                        owner_check(*user_balance, program_id@),
                    ),
                ),
            ),
        ),
{
    verify_signer(user)?;
    verify_token_account(user_token_account, Some(token_mint))?;
    verify_token_account(vault_token_account, Some(token_mint))?;
    verify_account_owner(vault_state, program_id)?;
    verify_account_owner(user_balance, program_id)?;
    Ok(())
}

} // verus!
