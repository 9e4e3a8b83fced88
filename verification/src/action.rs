//! What the engine asks of the host: to move tokens, and to allocate the
//! storage of a record.

use vstd::prelude::*;
use crate::key::Key;
use crate::utils::{program_address, USER_BALANCE_SEED, VAULT_SEED};

verus! {

/// Which of the two records an address is derived for.
#[derive(Debug, Clone, Copy, PartialEq, Eq, Structural)]
pub enum SeedTag {
    Vault,
    UserBalance,
}

impl SeedTag {
    /// The bytes of the tag.
    pub open spec fn bytes(self) -> Seq<u8> {
        match self {
            SeedTag::Vault => VAULT_SEED@,
            SeedTag::UserBalance => USER_BALANCE_SEED@,
        }
    }

    /// The bytes of the tag.
    pub fn to_vec(&self) -> (out: Vec<u8>)
        ensures
            out@ == self.bytes(),
    {
        let mut out: Vec<u8> = Vec::new();
        match self {
            SeedTag::Vault => {
                out.extend_from_slice(&VAULT_SEED);
            },
            SeedTag::UserBalance => {
                out.extend_from_slice(&USER_BALANCE_SEED);
            },
        }
        out
    }
}

/// The seeds of a derived address. Who presents them to the host acts for
/// that address; no private key stands behind it.
#[derive(Debug, Clone, Copy, PartialEq, Eq)]
pub struct Seeds {
    pub tag: SeedTag,
    pub key_a: Key,
    pub key_b: Key,
    pub bump: u8,
}

/// The mathematical value of [`Seeds`].
pub struct SeedsView {
    pub tag: SeedTag,
    pub key_a: Seq<u8>,
    pub key_b: Seq<u8>,
    pub bump: u8,
}

impl View for Seeds {
    type V = SeedsView;

    open spec fn view(&self) -> SeedsView {
        SeedsView { tag: self.tag, key_a: self.key_a@, key_b: self.key_b@, bump: self.bump }
    }
}

impl SeedsView {
    /// The address that the seeds give under a program, if they give one.
    pub open spec fn address(self, program_id: Seq<u8>) -> Option<Seq<u8>> {
        program_address(self.tag.bytes(), self.key_a, self.key_b, self.bump, program_id)
    }
}

/// Who authorizes a transfer.
#[derive(Debug, Clone, Copy, PartialEq, Eq)]
pub enum Authority {
    /// An account that signed the request.
    Signer { key: Key },
    /// A derived address, for which the program presents the seeds.
    Derived { address: Key, seeds: Seeds },
}

/// The mathematical value of an [`Authority`].
pub enum AuthorityView {
    Signer { key: Seq<u8> },
    Derived { address: Seq<u8>, seeds: SeedsView },
}

impl View for Authority {
    type V = AuthorityView;

    open spec fn view(&self) -> AuthorityView {
        match *self {
            Authority::Signer { key } => AuthorityView::Signer { key: key@ },
            Authority::Derived { address, seeds } => AuthorityView::Derived {
                address: address@,
                seeds: seeds@,
            },
        }
    }
}

/// A request to the token program: move `amount` from one custody account
/// to another.
#[derive(Debug, Clone, Copy, PartialEq, Eq)]
pub struct Transfer {
    pub source: Key,
    pub destination: Key,
    pub authority: Authority,
    pub amount: u64,
}

/// The mathematical value of a [`Transfer`].
pub struct TransferView {
    pub source: Seq<u8>,
    pub destination: Seq<u8>,
    pub authority: AuthorityView,
    pub amount: u64,
}

impl View for Transfer {
    type V = TransferView;

    open spec fn view(&self) -> TransferView {
        TransferView {
            source: self.source@,
            destination: self.destination@,
            authority: self.authority@,
            amount: self.amount,
        }
    }
}

/// A request to the storage allocator: create the account at `address`
/// with `space` bytes, paid for by `payer` and owned by `owner`.
#[derive(Debug, Clone, Copy, PartialEq, Eq)]
pub struct Allocation {
    pub payer: Key,
    pub address: Key,
    pub space: u64,
    pub owner: Key,
    pub seeds: Seeds,
}

/// The mathematical value of an [`Allocation`].
pub struct AllocationView {
    pub payer: Seq<u8>,
    pub address: Seq<u8>,
    pub space: u64,
    pub owner: Seq<u8>,
    pub seeds: SeedsView,
}

impl View for Allocation {
    type V = AllocationView;

    open spec fn view(&self) -> AllocationView {
        AllocationView {
            payer: self.payer@,
            address: self.address@,
            space: self.space,
            owner: self.owner@,
            seeds: self.seeds@,
        }
    }
}

/// The view of an optional value.
pub open spec fn view_of<T: View>(value: Option<T>) -> Option<T::V> {
    match value {
        Some(v) => Some(v@),
        None => None,
    }
}

} // verus!
