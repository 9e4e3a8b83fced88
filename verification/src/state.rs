//! The two persisted ledger records and their fixed-width byte layouts.

use vstd::prelude::*;
use crate::bytes::{lemma_u64_le_of_value, lemma_u64_le_round_trip, read_array, read_u64_le,
    u64_le, u64_le_at, u64_le_bytes};
use crate::key::{zero_key, Key};

verus! {

/// The per-vault record: one for each pair of owner and mint.
#[derive(Debug, Clone, Copy, PartialEq, Eq)]
pub struct VaultState {
    /// The owner, who alone may sweep or close the vault.
    pub owner: Key,
    /// The mint of the one token that this vault accepts.
    pub token_mint: Key,
    /// The custody account that holds the deposited tokens.
    pub token_account: Key,
    /// Running total of what depositors have put in and not taken out.
    pub total_deposited: u64,
    /// Once set, no instruction is accepted any more.
    pub is_closed: bool,
    /// The disambiguation byte of the record's derived address.
    pub bump: u8,
}

/// The mathematical value of a [`VaultState`].
pub struct VaultStateView {
    pub owner: Seq<u8>,
    pub token_mint: Seq<u8>,
    pub token_account: Seq<u8>,
    pub total_deposited: u64,
    pub is_closed: bool,
    pub bump: u8,
}

impl View for VaultState {
    type V = VaultStateView;

    open spec fn view(&self) -> VaultStateView {
        VaultStateView {
            owner: self.owner@,
            token_mint: self.token_mint@,
            token_account: self.token_account@,
            total_deposited: self.total_deposited,
            is_closed: self.is_closed,
            bump: self.bump,
        }
    }
}

/// The byte that stores a flag.
pub open spec fn flag_byte(b: bool) -> u8 {
    if b {
        1
    } else {
        0
    }
}

impl VaultStateView {
    /// Every key of the record has its thirty-two bytes. The view of any
    /// [`VaultState`] is well formed.
    pub open spec fn well_formed(self) -> bool {
        &&& self.owner.len() == 32
        &&& self.token_mint.len() == 32
        &&& self.token_account.len() == 32
    }

    /// The stored form: owner, mint and custody account, then the total
    /// least significant byte first, the closed flag and the bump.
    pub open spec fn bytes(self) -> Seq<u8> {
        self.owner + self.token_mint + self.token_account + u64_le(self.total_deposited)
            + seq![flag_byte(self.is_closed), self.bump]
    }

    /// No key of the record is the zero-identity sentinel.
    pub open spec fn valid(self) -> bool {
        &&& self.owner != zero_key()
        &&& self.token_mint != zero_key()
        &&& self.token_account != zero_key()
    }

    /// The record that a buffer stores, if it stores one: the buffer has
    /// exactly the record's size and its flag byte is 0 or 1.
    pub open spec fn parse(data: Seq<u8>) -> Option<VaultStateView> {
        if data.len() == 106 && data[104] <= 1 {
            Some(
                VaultStateView {
                    owner: data.subrange(0, 32),
                    token_mint: data.subrange(32, 64),
                    token_account: data.subrange(64, 96),
                    total_deposited: u64_le_at(data, 96),
                    is_closed: data[104] == 1,
                    bump: data[105],
                },
            )
        } else {
            None
        }
    }
}

impl VaultState {
    /// Size in bytes of the stored record.
    pub const SIZE: usize = 32 + 32 + 32 + 8 + 1 + 1;

    /// A fresh, open vault that holds nothing.
    pub fn new(owner: Key, token_mint: Key, token_account: Key, bump: u8) -> (v: VaultState)
        ensures
            v == (VaultState {
                owner,
                token_mint,
                token_account,
                total_deposited: 0,
                is_closed: false,
                bump,
            }),
    {
        VaultState { owner, token_mint, token_account, total_deposited: 0, is_closed: false, bump }
    }

    /// Whether the vault is closed.
    pub fn is_closed(&self) -> (r: bool)
        ensures
            r == self.is_closed,
    {
        self.is_closed
    }

    /// Marks the vault closed. Nothing else changes.
    pub fn close(&mut self)
        ensures
            *final(self) == (VaultState { is_closed: true, ..*old(self) }),
    {
        self.is_closed = true;
    }

    /// Adds `amount` to the total, unless the sum leaves the 64-bit range:
    /// then the record stays as it is.
    pub fn add_deposit(&mut self, amount: u64) -> (r: Result<(), &'static str>)
        ensures
            r is Ok <==> old(self).total_deposited + amount <= u64::MAX,
            r is Ok ==> *final(self) == (VaultState {
                total_deposited: (old(self).total_deposited + amount) as u64,
                ..*old(self)
            }),
            r matches Err(msg) ==> *final(self) == *old(self)
                && msg@ == "Arithmetic overflow in total_deposited"@,
    {
        match self.total_deposited.checked_add(amount) {
            Some(sum) => {
                self.total_deposited = sum;
                Ok(())
            },
            None => Err("Arithmetic overflow in total_deposited"),
        }
    }

    /// Takes `amount` from the total, unless the total is smaller: then the
    /// record stays as it is.
    pub fn subtract_withdrawal(&mut self, amount: u64) -> (r: Result<(), &'static str>)
        ensures
            r is Ok <==> amount <= old(self).total_deposited,
            r is Ok ==> *final(self) == (VaultState {
                total_deposited: (old(self).total_deposited - amount) as u64,
                ..*old(self)
            }),
            r matches Err(msg) ==> *final(self) == *old(self)
                && msg@ == "Arithmetic underflow in total_deposited"@,
    {
        match self.total_deposited.checked_sub(amount) {
            Some(rest) => {
                self.total_deposited = rest;
                Ok(())
            },
            None => Err("Arithmetic underflow in total_deposited"),
        }
    }

    /// Sets the total to zero. Nothing else changes.
    pub fn reset_total_deposited(&mut self)
        ensures
            *final(self) == (VaultState { total_deposited: 0, ..*old(self) }),
    {
        self.total_deposited = 0;
    }

    /// Whether the vault still accepts instructions.
    pub fn is_operational(&self) -> (r: bool)
        ensures
            r == !self.is_closed,
    {
        !self.is_closed
    }

    /// Checks that no key of the record is the zero-identity sentinel, and
    /// names the first one that is.
    pub fn validate(&self) -> (r: Result<(), &'static str>)
        ensures
            r is Ok <==> self@.valid(),
            r matches Err(msg) ==> msg@ == (if self.owner@ == zero_key() {
                "Invalid owner pubkey"@
            } else if self.token_mint@ == zero_key() {
                "Invalid token mint pubkey"@
            } else {
                "Invalid token account pubkey"@
            }),
    {
        if self.owner.is_zero() {
            return Err("Invalid owner pubkey");
        }
        if self.token_mint.is_zero() {
            return Err("Invalid token mint pubkey");
        }
        if self.token_account.is_zero() {
            return Err("Invalid token account pubkey");
        }
        Ok(())
    }

    /// The stored form of the record, from which the record can be read
    /// back.
    pub fn pack(&self) -> (out: Vec<u8>)
        ensures
            out@ == self@.bytes(),
            out@.len() == 106,
            VaultStateView::parse(out@) == Some(self@),
    {
        let mut out: Vec<u8> = Vec::with_capacity(106);
        out.extend_from_slice(&self.owner.bytes);
        out.extend_from_slice(&self.token_mint.bytes);
        out.extend_from_slice(&self.token_account.bytes);
        let total = u64_le_bytes(self.total_deposited);
        out.extend_from_slice(&total);
        out.push(if self.is_closed { 1 } else { 0 });
        out.push(self.bump);
        proof {
            assert(out@ =~= self@.bytes());
            lemma_vault_state_round_trip(self@);
        }
        out
    }

    /// Reads a record from a buffer that holds exactly one: the buffer is
    /// then the stored form of the record.
    pub fn unpack(data: &[u8]) -> (r: Option<VaultState>)
        ensures
            match r {
                Some(v) => VaultStateView::parse(data@) == Some(v@) && v@.bytes() == data@,
                None => VaultStateView::parse(data@) is None,
            },
    {
        if data.len() != 106 {
            return None;
        }
        proof {
            if VaultStateView::parse(data@) is Some {
                lemma_vault_state_bytes_of_parse(data@);
            }
        }
        let flag = data[104];
        if flag > 1 {
            return None;
        }
        let owner = Key::new(read_array::<32>(data, 0));
        let token_mint = Key::new(read_array::<32>(data, 32));
        let token_account = Key::new(read_array::<32>(data, 64));
        let total_deposited = read_u64_le(data, 96);
        Some(
            VaultState {
                owner,
                token_mint,
                token_account,
                total_deposited,
                is_closed: flag == 1,
                bump: data[105],
            },
        )
    }
}

/// Reading a stored record gives the record back.
pub proof fn lemma_vault_state_round_trip(v: VaultStateView)
    requires
        v.well_formed(),
    ensures
        v.bytes().len() == 106,
        VaultStateView::parse(v.bytes()) == Some(v),
{
    let total = u64_le(v.total_deposited);
    let data = v.bytes();
    lemma_u64_le_round_trip(v.total_deposited);
    assert(data.subrange(0, 32) =~= v.owner);
    assert(data.subrange(32, 64) =~= v.token_mint);
    assert(data.subrange(64, 96) =~= v.token_account);
    assert(data.subrange(96, 104) =~= total);
    assert(u64_le_at(data, 96) == u64_le_at(total, 0));
    assert(data[104] == flag_byte(v.is_closed));
    assert(data[105] == v.bump);
}

/// A buffer that stores a record is the stored form of that record: no two
/// buffers store the same record.
pub proof fn lemma_vault_state_bytes_of_parse(data: Seq<u8>)
    requires
        VaultStateView::parse(data) is Some,
    ensures
        VaultStateView::parse(data)->0.well_formed(),
        VaultStateView::parse(data)->0.bytes() == data,
{
    let v = VaultStateView::parse(data)->0;
    lemma_u64_le_of_value(data, 96);
    assert(v.bytes() =~= data);
}

/// The per-depositor record: one for each pair of user and vault.
#[derive(Debug, Clone, Copy, PartialEq, Eq)]
pub struct UserBalance {
    /// The depositor.
    pub user: Key,
    /// The address of the vault record that this balance belongs to.
    pub vault: Key,
    /// What the depositor may still withdraw.
    pub balance: u64,
    /// The disambiguation byte of the record's derived address.
    pub bump: u8,
}

/// The mathematical value of a [`UserBalance`].
pub struct UserBalanceView {
    pub user: Seq<u8>,
    pub vault: Seq<u8>,
    pub balance: u64,
    pub bump: u8,
}

impl View for UserBalance {
    type V = UserBalanceView;

    open spec fn view(&self) -> UserBalanceView {
        UserBalanceView {
            user: self.user@,
            vault: self.vault@,
            balance: self.balance,
            bump: self.bump,
        }
    }
}

impl UserBalanceView {
    /// Both keys of the record have their thirty-two bytes. The view of any
    /// [`UserBalance`] is well formed.
    pub open spec fn well_formed(self) -> bool {
        &&& self.user.len() == 32
        &&& self.vault.len() == 32
    }

    /// The stored form: user and vault, then the balance least significant
    /// byte first and the bump.
    pub open spec fn bytes(self) -> Seq<u8> {
        self.user + self.vault + u64_le(self.balance) + seq![self.bump]
    }

    /// Neither key of the record is the zero-identity sentinel.
    pub open spec fn valid(self) -> bool {
        &&& self.user != zero_key()
        &&& self.vault != zero_key()
    }

    /// The record that a buffer stores, if it stores one: the buffer has
    /// exactly the record's size.
    pub open spec fn parse(data: Seq<u8>) -> Option<UserBalanceView> {
        if data.len() == 73 {
            Some(
                UserBalanceView {
                    user: data.subrange(0, 32),
                    vault: data.subrange(32, 64),
                    balance: u64_le_at(data, 64),
                    bump: data[72],
                },
            )
        } else {
            None
        }
    }
}

impl UserBalance {
    /// Size in bytes of the stored record.
    pub const SIZE: usize = 32 + 32 + 8 + 1;

    /// A fresh record with nothing on it.
    pub fn new(user: Key, vault: Key, bump: u8) -> (u: UserBalance)
        ensures
            u == (UserBalance { user, vault, balance: 0, bump }),
    {
        UserBalance { user, vault, balance: 0, bump }
    }

    /// Adds `amount` to the balance, unless the sum leaves the 64-bit range:
    /// then the record stays as it is.
    pub fn add_balance(&mut self, amount: u64) -> (r: Result<(), &'static str>)
        ensures
            r is Ok <==> old(self).balance + amount <= u64::MAX,
            r is Ok ==> *final(self) == (UserBalance {
                balance: (old(self).balance + amount) as u64,
                ..*old(self)
            }),
            r matches Err(msg) ==> *final(self) == *old(self)
                && msg@ == "Arithmetic overflow in user balance"@,
    {
        match self.balance.checked_add(amount) {
            Some(sum) => {
                self.balance = sum;
                Ok(())
            },
            None => Err("Arithmetic overflow in user balance"),
        }
    }

    /// Takes `amount` from the balance, unless the balance is smaller: then
    /// the record stays as it is.
    pub fn subtract_balance(&mut self, amount: u64) -> (r: Result<(), &'static str>)
        ensures
            r is Ok <==> amount <= old(self).balance,
            r is Ok ==> *final(self) == (UserBalance {
                balance: (old(self).balance - amount) as u64,
                ..*old(self)
            }),
            r matches Err(msg) ==> *final(self) == *old(self)
                && msg@ == "Insufficient balance for withdrawal"@,
    {
        match self.balance.checked_sub(amount) {
            Some(rest) => {
                self.balance = rest;
                Ok(())
            },
            None => Err("Insufficient balance for withdrawal"),
        }
    }

    /// Whether the balance covers `amount`.
    pub fn has_sufficient_balance(&self, amount: u64) -> (r: bool)
        ensures
            r == (self.balance >= amount),
    {
        self.balance >= amount
    }

    /// Sets the balance to zero. Nothing else changes.
    pub fn reset_balance(&mut self)
        ensures
            *final(self) == (UserBalance { balance: 0, ..*old(self) }),
    {
        self.balance = 0;
    }

    /// The balance.
    pub fn get_balance(&self) -> (b: u64)
        ensures
            b == self.balance,
    {
        self.balance
    }

    /// Checks that neither key of the record is the zero-identity sentinel,
    /// and names the first one that is.
    pub fn validate(&self) -> (r: Result<(), &'static str>)
        ensures
            r is Ok <==> self@.valid(),
            r matches Err(msg) ==> msg@ == (if self.user@ == zero_key() {
                "Invalid user pubkey"@
            } else {
                "Invalid vault pubkey"@
            }),
    {
        if self.user.is_zero() {
            return Err("Invalid user pubkey");
        }
        if self.vault.is_zero() {
            return Err("Invalid vault pubkey");
        }
        Ok(())
    }

    /// The stored form of the record, from which the record can be read
    /// back.
    pub fn pack(&self) -> (out: Vec<u8>)
        ensures
            out@ == self@.bytes(),
            out@.len() == 73,
            UserBalanceView::parse(out@) == Some(self@),
    {
        let mut out: Vec<u8> = Vec::with_capacity(73);
        out.extend_from_slice(&self.user.bytes);
        out.extend_from_slice(&self.vault.bytes);
        let balance = u64_le_bytes(self.balance);
        out.extend_from_slice(&balance);
        out.push(self.bump);
        proof {
            assert(out@ =~= self@.bytes());
            lemma_user_balance_round_trip(self@);
        }
        out
    }

    /// Reads a record from a buffer that holds exactly one: the buffer is
    /// then the stored form of the record.
    pub fn unpack(data: &[u8]) -> (r: Option<UserBalance>)
        ensures
            match r {
                Some(u) => UserBalanceView::parse(data@) == Some(u@) && u@.bytes() == data@,
                None => UserBalanceView::parse(data@) is None,
            },
    {
        if data.len() != 73 {
            return None;
        }
        proof {
            lemma_user_balance_bytes_of_parse(data@);
        }
        let user = Key::new(read_array::<32>(data, 0));
        let vault = Key::new(read_array::<32>(data, 32));
        let balance = read_u64_le(data, 64);
        Some(UserBalance { user, vault, balance, bump: data[72] })
    }
}

/// Reading a stored record gives the record back.
pub proof fn lemma_user_balance_round_trip(u: UserBalanceView)
    requires
        u.well_formed(),
    ensures
        u.bytes().len() == 73,
        UserBalanceView::parse(u.bytes()) == Some(u),
{
    let balance = u64_le(u.balance);
    let data = u.bytes();
    lemma_u64_le_round_trip(u.balance);
    assert(data.subrange(0, 32) =~= u.user);
    assert(data.subrange(32, 64) =~= u.vault);
    assert(data.subrange(64, 72) =~= balance);
    assert(u64_le_at(data, 64) == u64_le_at(balance, 0));
    assert(data[72] == u.bump);
}

/// A buffer that stores a record is the stored form of that record: no two
/// buffers store the same record.
pub proof fn lemma_user_balance_bytes_of_parse(data: Seq<u8>)
    requires
        UserBalanceView::parse(data) is Some,
    ensures
        UserBalanceView::parse(data)->0.well_formed(),
        UserBalanceView::parse(data)->0.bytes() == data,
{
    let u = UserBalanceView::parse(data)->0;
    lemma_u64_le_of_value(data, 64);
    assert(u.bytes() =~= data);
}

} // verus!
