//! What the ledger reads of the token program's accounts, and the three
//! well-known identities of the host.

use vstd::prelude::*;
use solana_program::program_error::ProgramError;
use solana_program::program_pack::Pack;
use crate::account::AccountSnapshot;
use crate::action::view_of;
use crate::bytes::u64_le_at;
use crate::key::{zero_key, Key};

verus! {

#[verifier::external_type_specification]
#[verifier::external_body]
pub struct ExProgramError(ProgramError);

/// What the ledger reads of a custody account: its mint and what it holds.
#[derive(Debug, Clone, Copy, PartialEq, Eq)]
pub struct TokenAccount {
    pub mint: Key,
    pub amount: u64,
}

impl View for TokenAccount {
    type V = (Seq<u8>, u64);

    open spec fn view(&self) -> (Seq<u8>, u64) {
        (self.mint@, self.amount)
    }
}

/// What `Account::unpack` of spl-token makes of a buffer: the mint and the
/// amount of the custody account that it reads, or `None` where it reads
/// no initialized custody account.
pub uninterp spec fn token_account_in(data: Seq<u8>) -> Option<(Seq<u8>, u64)>;

/// What `Mint::unpack` of spl-token makes of a buffer: whether it reads an
/// initialized mint.
pub uninterp spec fn mint_in(data: Seq<u8>) -> bool;

/// Where the bytes of a custody account keep what the ledger reads of it:
/// the account has 165 bytes, the first thirty-two are the mint, and the
/// eight from byte 64 on are the amount, least significant byte first.
pub open spec fn custody_layout(data: Seq<u8>, reading: (Seq<u8>, u64)) -> bool {
    &&& data.len() == 165
    &&& reading.0 == data.subrange(0, 32)
    &&& reading.1 == u64_le_at(data, 64)
}

/// `Account::unpack` of spl-token (the `Pack` trait of solana-program): the
/// mint and the amount of the account that it reads, or its error. The
/// contract gives the outcome its name, and says of an account that was
/// read where its mint and amount stand: `unpack` refuses any other
/// length than 165 and takes the two fields from these places. Which
/// buffers of that length it refuses is not said.
#[verifier::external_body]
fn unpack_token_account(data: &[u8]) -> (r: Result<TokenAccount, ProgramError>)
    ensures
        match r {
            Ok(account) => token_account_in(data@) == Some(account@) && custody_layout(
                data@,
                account@,
            ),
            Err(_) => token_account_in(data@) is None,
        },
{
    match spl_token::state::Account::unpack(data) {
        Ok(account) => Ok(
            TokenAccount { mint: Key { bytes: account.mint.to_bytes() }, amount: account.amount },
        ),
        Err(e) => Err(e),
    }
}

/// `Mint::unpack` of spl-token (the `Pack` trait of solana-program): whether
/// it reads a mint, or its error. The contract gives the outcome its name,
/// and says that a mint that was read has 82 bytes: `unpack` refuses any
/// other length. Which buffers of that length it refuses is not said.
#[verifier::external_body]
fn unpack_mint(data: &[u8]) -> (r: Result<(), ProgramError>)
    ensures
        r is Ok <==> mint_in(data@),
        r is Ok ==> data@.len() == 82,
{
    match spl_token::state::Mint::unpack(data) {
        Ok(_) => Ok(()),
        Err(e) => Err(e),
    }
}

/// What the token program reads in a custody account: its mint and what it
/// holds, if the account's bytes are those of an initialized custody
/// account. The two stand in the bytes as [`custody_layout`] says.
pub fn token_account_of(account: &AccountSnapshot) -> (r: Option<TokenAccount>)
    ensures
        view_of(r) == token_account_in(account.data@),
        r matches Some(reading) ==> custody_layout(account.data@, reading@),
{
    match unpack_token_account(account.data.as_slice()) {
        Ok(token_account) => Some(token_account),
        Err(_) => None,
    }
}

/// Whether the token program reads an initialized mint in an account. It
/// reads none in an account of another size than 82 bytes.
pub fn reads_as_mint(account: &AccountSnapshot) -> (r: bool)
    ensures
        r == mint_in(account.data@),
        r ==> account.data@.len() == 82,
{
    unpack_mint(account.data.as_slice()).is_ok()
}

/// The bytes of the token program's identity, which in text is
/// `TokenkegQfeZyiNwAJbNbGKPFXCWuBvf9Ss623VQ5DA`.
pub open spec fn token_program_key() -> Seq<u8> {
    seq![
        6u8, 221, 246, 225, 215, 101, 161, 147, 217, 203, 225, 70, 206, 235, 121, 172,
        28, 180, 133, 237, 95, 91, 55, 145, 58, 140, 245, 133, 126, 255, 0, 169,
    ]
}

/// The bytes of the rent schedule's identity, which in text is
/// `SysvarRent111111111111111111111111111111111`.
pub open spec fn rent_sysvar_key() -> Seq<u8> {
    seq![
        6u8, 167, 213, 23, 25, 44, 92, 81, 33, 140, 201, 76, 61, 74, 241, 127,
        88, 218, 238, 8, 155, 161, 253, 68, 227, 219, 217, 138, 0, 0, 0, 0,
    ]
}

/// `spl_token::id`: the identity of the token program, the base-58 text
/// `TokenkegQfeZyiNwAJbNbGKPFXCWuBvf9Ss623VQ5DA` as thirty-two bytes.
#[verifier::external_body]
pub(crate) fn token_program_id() -> (id: Key)
    ensures
        id@ == token_program_key(),
{
    Key { bytes: spl_token::id().to_bytes() }
}

/// `solana_program::system_program::id`: the identity of the system
/// program, the base-58 text of thirty-two `1`, which is thirty-two zero
/// bytes.
#[verifier::external_body]
pub(crate) fn system_program_id() -> (id: Key)
    ensures
        id@ == zero_key(),
{
    Key { bytes: solana_program::system_program::id().to_bytes() }
}

/// `solana_program::sysvar::rent::id`: the identity of the rent schedule,
/// the base-58 text `SysvarRent111111111111111111111111111111111` as
/// thirty-two bytes.
#[verifier::external_body]
pub(crate) fn rent_sysvar_id() -> (id: Key)
    ensures
        id@ == rent_sysvar_key(),
{
    Key { bytes: solana_program::sysvar::rent::id().to_bytes() }
}

} // verus!
