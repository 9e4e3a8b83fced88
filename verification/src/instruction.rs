//! The five instructions, their wire form, and the requests a client sends.

use vstd::prelude::*;
use crate::bytes::{lemma_u64_le_of_value, lemma_u64_le_round_trip, read_u64_le, u64_le,
    u64_le_at, u64_le_bytes};
use crate::error::VaultError;
use crate::key::{zero_key, Key};
use crate::token::{rent_sysvar_id, rent_sysvar_key, system_program_id, token_program_id,
    token_program_key};

verus! {

/// What a caller can ask of a vault.
#[derive(Debug, Clone, Copy, PartialEq, Eq, Structural)]
pub enum VaultInstruction {
    /// Create the vault record of an owner and a mint.
    ///
    /// Accounts: owner (signer, writable), vault record (writable), vault
    /// custody account (writable), mint, token program, system program,
    /// rent schedule.
    Initialize,
    /// Move `amount` from the user's custody account into the vault.
    ///
    /// Accounts: user (signer, writable), user custody account (writable),
    /// vault custody account (writable), vault record (writable), user
    /// balance record (writable), token program, system program.
    Deposit { amount: u64 },
    /// Move `amount` from the vault back to the user's custody account.
    ///
    /// Accounts: user (signer, writable), user custody account (writable),
    /// vault custody account (writable), vault record (writable), user
    /// balance record (writable), token program.
    Withdraw { amount: u64 },
    /// Move all that the vault holds to its owner.
    ///
    /// Accounts: owner (signer, writable), owner custody account (writable),
    /// vault custody account (writable), vault record (writable), token
    /// program.
    WithdrawAll,
    /// Move all that the vault holds to its owner and close the vault.
    ///
    /// Accounts: owner (signer, writable), owner custody account (writable),
    /// vault custody account (writable), vault record (writable), token
    /// program.
    Close,
}

impl VaultInstruction {
    /// The wire form: one tag byte, the position of the variant in the
    /// declaration, then the amount, where there is one, least significant
    /// byte first.
    pub open spec fn bytes(self) -> Seq<u8> {
        match self {
            VaultInstruction::Initialize => seq![0u8],
            VaultInstruction::Deposit { amount } => seq![1u8] + u64_le(amount),
            VaultInstruction::Withdraw { amount } => seq![2u8] + u64_le(amount),
            VaultInstruction::WithdrawAll => seq![3u8],
            VaultInstruction::Close => seq![4u8],
        }
    }

    /// The instruction that a buffer holds, if it holds exactly one.
    pub open spec fn parse(data: Seq<u8>) -> Option<VaultInstruction> {
        if data.len() == 1 && data[0] == 0 {
            Some(VaultInstruction::Initialize)
        } else if data.len() == 9 && data[0] == 1 {
            Some(VaultInstruction::Deposit { amount: u64_le_at(data, 1) })
        } else if data.len() == 9 && data[0] == 2 {
            Some(VaultInstruction::Withdraw { amount: u64_le_at(data, 1) })
        } else if data.len() == 1 && data[0] == 3 {
            Some(VaultInstruction::WithdrawAll)
        } else if data.len() == 1 && data[0] == 4 {
            Some(VaultInstruction::Close)
        } else {
            None
        }
    }

    /// An instruction that moves an amount must move more than nothing.
    pub open spec fn has_valid_amount(self) -> bool {
        match self {
            VaultInstruction::Deposit { amount } => amount != 0,
            VaultInstruction::Withdraw { amount } => amount != 0,
            _ => true,
        }
    }

    /// The wire form of the instruction, from which the instruction can be
    /// read back.
    pub fn pack(&self) -> (out: Vec<u8>)
        ensures
            out@ == self.bytes(),
            VaultInstruction::parse(out@) == Some(*self),
    {
        let mut out: Vec<u8> = Vec::new();
        match self {
            VaultInstruction::Initialize => {
                out.push(0);
            },
            VaultInstruction::Deposit { amount } => {
                out.push(1);
                let field = u64_le_bytes(*amount);
                out.extend_from_slice(&field);
            },
            VaultInstruction::Withdraw { amount } => {
                out.push(2);
                let field = u64_le_bytes(*amount);
                out.extend_from_slice(&field);
            },
            VaultInstruction::WithdrawAll => {
                out.push(3);
            },
            VaultInstruction::Close => {
                out.push(4);
            },
        }
        proof {
            assert(out@ =~= self.bytes());
            lemma_instruction_round_trip(*self);
        }
        out
    }
}

/// Reading a packed instruction gives the instruction back.
pub proof fn lemma_instruction_round_trip(instruction: VaultInstruction)
    ensures
        VaultInstruction::parse(instruction.bytes()) == Some(instruction),
{
    match instruction {
        VaultInstruction::Deposit { amount } => {
            lemma_amount_round_trip(1, amount);
        },
        VaultInstruction::Withdraw { amount } => {
            lemma_amount_round_trip(2, amount);
        },
        _ => {},
    }
}

proof fn lemma_amount_round_trip(tag: u8, amount: u64)
    ensures
        (seq![tag] + u64_le(amount)).len() == 9,
        (seq![tag] + u64_le(amount))[0] == tag,
        u64_le_at(seq![tag] + u64_le(amount), 1) == amount,
{
    let field = u64_le(amount);
    lemma_u64_le_round_trip(amount);
    assert(u64_le_at(seq![tag] + field, 1) == u64_le_at(field, 0));
}

/// A buffer that holds an instruction is the wire form of that instruction.
pub proof fn lemma_instruction_bytes_of_parse(data: Seq<u8>)
    requires
        VaultInstruction::parse(data) is Some,
    ensures
        VaultInstruction::parse(data)->0.bytes() == data,
{
    let instruction = VaultInstruction::parse(data)->0;
    if data.len() == 9 {
        lemma_u64_le_of_value(data, 1);
        assert(seq![data[0]] + data.subrange(1, 9) =~= data);
    } else {
        assert(instruction.bytes() =~= data);
    }
}

/// Reads the instruction that `input` holds. A buffer that is empty, starts
/// with an unknown tag, or is shorter or longer than its instruction, is
/// refused with `InvalidInput`.
pub fn unpack(input: &[u8]) -> (r: Result<VaultInstruction, VaultError>)
    ensures
        r == match VaultInstruction::parse(input@) {
            Some(instruction) => Ok::<VaultInstruction, VaultError>(instruction),
            None => Err::<VaultInstruction, VaultError>(VaultError::InvalidInput),
        },
{
    if input.len() == 0 {
        return Err(VaultError::InvalidInput);
    }
    let tag = input[0];
    if tag == 1 || tag == 2 {
        if input.len() != 9 {
            return Err(VaultError::InvalidInput);
        }
        let amount = read_u64_le(input, 1);
        if tag == 1 {
            Ok(VaultInstruction::Deposit { amount })
        } else {
            Ok(VaultInstruction::Withdraw { amount })
        }
    } else {
        if input.len() != 1 {
            return Err(VaultError::InvalidInput);
        }
        if tag == 0 {
            Ok(VaultInstruction::Initialize)
        } else if tag == 3 {
            Ok(VaultInstruction::WithdrawAll)
        } else if tag == 4 {
            Ok(VaultInstruction::Close)
        } else {
            Err(VaultError::InvalidInput)
        }
    }
}

/// Accepts a buffer exactly when it holds an instruction and that
/// instruction, if it moves an amount, moves more than nothing. Everything
/// else is `InvalidInput`.
pub fn validate_instruction_data(data: &[u8]) -> (r: Result<(), VaultError>)
    ensures
        r is Ok <==> VaultInstruction::parse(data@) is Some && VaultInstruction::parse(
            data@,
        )->0.has_valid_amount(),
        r is Err ==> r == Err::<(), VaultError>(VaultError::InvalidInput),
{
    match unpack(data) {
        Ok(instruction) => {
            match instruction {
                VaultInstruction::Deposit { amount } => {
                    if amount == 0 {
                        return Err(VaultError::InvalidInput);
                    }
                },
                VaultInstruction::Withdraw { amount } => {
                    if amount == 0 {
                        return Err(VaultError::InvalidInput);
                    }
                },
                _ => {},
            }
            Ok(())
        },
        Err(_) => Err(VaultError::InvalidInput),
    }
}

/// One account of a request: its key and how the instruction uses it.
#[derive(Debug, Clone, Copy, PartialEq, Eq)]
pub struct AccountMeta {
    pub pubkey: Key,
    pub is_signer: bool,
    pub is_writable: bool,
}

/// The mathematical value of an [`AccountMeta`].
pub struct AccountMetaView {
    pub pubkey: Seq<u8>,
    pub is_signer: bool,
    pub is_writable: bool,
}

impl View for AccountMeta {
    type V = AccountMetaView;

    open spec fn view(&self) -> AccountMetaView {
        AccountMetaView {
            pubkey: self.pubkey@,
            is_signer: self.is_signer,
            is_writable: self.is_writable,
        }
    }
}

/// An account that the instruction may write to.
pub open spec fn writable(pubkey: Seq<u8>, is_signer: bool) -> AccountMetaView {
    AccountMetaView { pubkey, is_signer, is_writable: true }
}

/// An account that the instruction only reads.
pub open spec fn readonly(pubkey: Seq<u8>, is_signer: bool) -> AccountMetaView {
    AccountMetaView { pubkey, is_signer, is_writable: false }
}

impl AccountMeta {
    /// An account that the instruction may write to.
    pub fn new(pubkey: Key, is_signer: bool) -> (m: AccountMeta)
        ensures
            m@ == writable(pubkey@, is_signer),
    {
        AccountMeta { pubkey, is_signer, is_writable: true }
    }

    /// An account that the instruction only reads.
    pub fn new_readonly(pubkey: Key, is_signer: bool) -> (m: AccountMeta)
        ensures
            m@ == readonly(pubkey@, is_signer),
    {
        AccountMeta { pubkey, is_signer, is_writable: false }
    }
}

/// A request to the vault program: the program, the accounts in the order
/// the instruction expects them, and the packed instruction.
#[derive(Debug, Clone, PartialEq, Eq)]
pub struct Instruction {
    pub program_id: Key,
    pub accounts: Vec<AccountMeta>,
    pub data: Vec<u8>,
}

/// The mathematical value of an [`Instruction`].
pub struct InstructionView {
    pub program_id: Seq<u8>,
    pub accounts: Seq<AccountMetaView>,
    pub data: Seq<u8>,
}

impl View for Instruction {
    type V = InstructionView;

    open spec fn view(&self) -> InstructionView {
        InstructionView {
            program_id: self.program_id@,
            accounts: self.accounts@.map_values(|m: AccountMeta| m@),
            data: self.data@,
        }
    }
}

impl VaultInstruction {
    /// The request that initializes the vault of `owner` and `token_mint`.
    pub fn initialize(
        program_id: &Key,
        owner: &Key,
        vault_state: &Key,
        vault_token_account: &Key,
        token_mint: &Key,
    ) -> (request: Instruction)
        ensures
            request@ == (InstructionView {
                program_id: program_id@,
                accounts: seq![
                    writable(owner@, true),
                    writable(vault_state@, false),
                    writable(vault_token_account@, false),
                    readonly(token_mint@, false),
                    readonly(token_program_key(), false),
                    readonly(zero_key(), false),
                    readonly(rent_sysvar_key(), false),
                ],
                data: VaultInstruction::Initialize.bytes(),
            }),
    {
        let mut accounts: Vec<AccountMeta> = Vec::new();
        accounts.push(AccountMeta::new(*owner, true));
        accounts.push(AccountMeta::new(*vault_state, false));
        accounts.push(AccountMeta::new(*vault_token_account, false));
        accounts.push(AccountMeta::new_readonly(*token_mint, false));
        accounts.push(AccountMeta::new_readonly(token_program_id(), false));
        accounts.push(AccountMeta::new_readonly(system_program_id(), false));
        accounts.push(AccountMeta::new_readonly(rent_sysvar_id(), false));
        let request = Instruction {
            program_id: *program_id,
            accounts,
            data: VaultInstruction::Initialize.pack(),
        };
        assert(request@.accounts =~= seq![
            writable(owner@, true),
            writable(vault_state@, false),
            writable(vault_token_account@, false),
            readonly(token_mint@, false),
            readonly(token_program_key(), false),
            readonly(zero_key(), false),
            readonly(rent_sysvar_key(), false),
        ]);
        request
    }

    /// The request by which `user` deposits `amount`.
    pub fn deposit(
        program_id: &Key,
        user: &Key,
        user_token_account: &Key,
        vault_token_account: &Key,
        vault_state: &Key,
        user_balance_account: &Key,
        amount: u64,
    ) -> (request: Instruction)
        ensures
            request@ == (InstructionView {
                program_id: program_id@,
                accounts: seq![
                    writable(user@, true),
                    writable(user_token_account@, false),
                    writable(vault_token_account@, false),
                    writable(vault_state@, false),
                    writable(user_balance_account@, false),
                    readonly(token_program_key(), false),
                    readonly(zero_key(), false),
                ],
                data: (VaultInstruction::Deposit { amount }).bytes(),
            }),
    {
        let mut accounts: Vec<AccountMeta> = Vec::new();
        accounts.push(AccountMeta::new(*user, true));
        accounts.push(AccountMeta::new(*user_token_account, false));
        accounts.push(AccountMeta::new(*vault_token_account, false));
        accounts.push(AccountMeta::new(*vault_state, false));
        accounts.push(AccountMeta::new(*user_balance_account, false));
        accounts.push(AccountMeta::new_readonly(token_program_id(), false));
        accounts.push(AccountMeta::new_readonly(system_program_id(), false));
        let request = Instruction {
            program_id: *program_id,
            accounts,
            data: (VaultInstruction::Deposit { amount }).pack(),
        };
        assert(request@.accounts =~= seq![
            writable(user@, true),
            writable(user_token_account@, false),
            writable(vault_token_account@, false),
            writable(vault_state@, false),
            writable(user_balance_account@, false),
            readonly(token_program_key(), false),
            readonly(zero_key(), false),
        ]);
        request
    }

    /// The request by which `user` withdraws `amount`.
    pub fn withdraw(
        program_id: &Key,
        user: &Key,
        user_token_account: &Key,
        vault_token_account: &Key,
        vault_state: &Key,
        user_balance_account: &Key,
        amount: u64,
    ) -> (request: Instruction)
        ensures
            request@ == (InstructionView {
                program_id: program_id@,
                accounts: seq![
                    writable(user@, true),
                    writable(user_token_account@, false),
                    writable(vault_token_account@, false),
                    writable(vault_state@, false),
                    writable(user_balance_account@, false),
                    readonly(token_program_key(), false),
                ],
                data: (VaultInstruction::Withdraw { amount }).bytes(),
            }),
    {
        let mut accounts: Vec<AccountMeta> = Vec::new();
        accounts.push(AccountMeta::new(*user, true));
        accounts.push(AccountMeta::new(*user_token_account, false));
        accounts.push(AccountMeta::new(*vault_token_account, false));
        accounts.push(AccountMeta::new(*vault_state, false));
        accounts.push(AccountMeta::new(*user_balance_account, false));
        accounts.push(AccountMeta::new_readonly(token_program_id(), false));
        let request = Instruction {
            program_id: *program_id,
            accounts,
            data: (VaultInstruction::Withdraw { amount }).pack(),
        };
        assert(request@.accounts =~= seq![
            writable(user@, true),
            writable(user_token_account@, false),
            writable(vault_token_account@, false),
            writable(vault_state@, false),
            writable(user_balance_account@, false),
            readonly(token_program_key(), false),
        ]);
        request
    }

    /// The request by which `owner` takes all that the vault holds.
    pub fn withdraw_all(
        program_id: &Key,
        owner: &Key,
        owner_token_account: &Key,
        vault_token_account: &Key,
        vault_state: &Key,
    ) -> (request: Instruction)
        ensures
            request@ == (InstructionView {
                program_id: program_id@,
                accounts: owner_accounts(
                    owner@,
                    owner_token_account@,
                    vault_token_account@,
                    vault_state@,
                ),
                data: VaultInstruction::WithdrawAll.bytes(),
            }),
    {
        let accounts = owner_request_accounts(
            owner,
            owner_token_account,
            vault_token_account,
            vault_state,
        );
        Instruction {
            program_id: *program_id,
            accounts,
            data: VaultInstruction::WithdrawAll.pack(),
        }
    }

    /// The request by which `owner` closes the vault.
    pub fn close(
        program_id: &Key,
        owner: &Key,
        owner_token_account: &Key,
        vault_token_account: &Key,
        vault_state: &Key,
    ) -> (request: Instruction)
        ensures
            request@ == (InstructionView {
                program_id: program_id@,
                accounts: owner_accounts(
                    owner@,
                    owner_token_account@,
                    vault_token_account@,
                    vault_state@,
                ),
                data: VaultInstruction::Close.bytes(),
            }),
    {
        let accounts = owner_request_accounts(
            owner,
            owner_token_account,
            vault_token_account,
            vault_state,
        );
        Instruction { program_id: *program_id, accounts, data: VaultInstruction::Close.pack() }
    }
}

/// The accounts of the two owner-only instructions, in order.
pub open spec fn owner_accounts(
    owner: Seq<u8>,
    owner_token_account: Seq<u8>,
    vault_token_account: Seq<u8>,
    vault_state: Seq<u8>,
) -> Seq<AccountMetaView> {
    seq![
        writable(owner, true),
        writable(owner_token_account, false),
        writable(vault_token_account, false),
        writable(vault_state, false),
        readonly(token_program_key(), false),
    ]
}

fn owner_request_accounts(
    owner: &Key,
    owner_token_account: &Key,
    vault_token_account: &Key,
    vault_state: &Key,
) -> (accounts: Vec<AccountMeta>)
    ensures
        accounts@.map_values(|m: AccountMeta| m@) == owner_accounts(
            owner@,
            owner_token_account@,
            vault_token_account@,
            vault_state@,
        ),
{
    let mut accounts: Vec<AccountMeta> = Vec::new();
    accounts.push(AccountMeta::new(*owner, true));
    accounts.push(AccountMeta::new(*owner_token_account, false));
    accounts.push(AccountMeta::new(*vault_token_account, false));
    accounts.push(AccountMeta::new(*vault_state, false));
    accounts.push(AccountMeta::new_readonly(token_program_id(), false));
    assert(accounts@.map_values(|m: AccountMeta| m@) =~= owner_accounts(
        owner@,
        owner_token_account@,
        vault_token_account@,
        vault_state@,
    ));
    accounts
}

} // verus!
