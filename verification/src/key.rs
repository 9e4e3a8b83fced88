//! Identity keys: the 32-byte values that name accounts, programs and mints.

use vstd::prelude::*;

verus! {

/// An identity key. Its view is the sequence of its 32 bytes.
#[derive(Debug, Clone, Copy, Eq, Hash)]
pub struct Key {
    pub bytes: [u8; 32],
}

impl View for Key {
    type V = Seq<u8>;

    open spec fn view(&self) -> Seq<u8> {
        self.bytes@
    }
}

/// The zero-identity sentinel: thirty-two zero bytes. It is also the
/// identity of the system program, which owns every unallocated account.
pub open spec fn zero_key() -> Seq<u8> {
    Seq::new(32, |i: int| 0u8)
}

impl PartialEq for Key {
    fn eq(&self, other: &Key) -> (r: bool) {
        let mut i: usize = 0;
        while i < 32
            invariant
                i <= 32,
                forall|j: int| 0 <= j < i ==> self.bytes@[j] == other.bytes@[j],
            decreases 32 - i,
        {
            if self.bytes[i] != other.bytes[i] {
                return false;
            }
            i += 1;
        }
        assert(self@ =~= other@);
        true
    }
}

impl vstd::std_specs::cmp::PartialEqSpecImpl for Key {
    open spec fn obeys_eq_spec() -> bool {
        true
    }

    open spec fn eq_spec(&self, other: &Key) -> bool {
        self@ == other@
    }
}

impl Key {
    /// A key made of the given bytes.
    pub fn new(bytes: [u8; 32]) -> (k: Key)
        ensures
            k@ == bytes@,
    {
        Key { bytes }
    }

    /// The zero-identity sentinel.
    pub fn zero() -> (k: Key)
        ensures
            k@ == zero_key(),
    {
        let k = Key { bytes: [0u8; 32] };
        assert(k@ =~= zero_key());
        k
    }

    /// Whether this is the zero-identity sentinel.
    pub fn is_zero(&self) -> (r: bool)
        ensures
            r == (self@ == zero_key()),
    {
        let mut i: usize = 0;
        while i < 32
            invariant
                i <= 32,
                forall|j: int| 0 <= j < i ==> self.bytes@[j] == 0,
            decreases 32 - i,
        {
            if self.bytes[i] != 0 {
                assert(zero_key()[i as int] == 0);
                return false;
            }
            i += 1;
        }
        assert(self@ =~= zero_key());
        true
    }
}

/// Two keys with the same bytes are the same key.
pub proof fn lemma_key_ext(a: Key, b: Key)
    requires
        a@ == b@,
    ensures
        a == b,
{
    assert(a.bytes =~= b.bytes);
}

} // verus!
