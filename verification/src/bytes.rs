//! Little-endian integers and fixed-width fields inside byte buffers.

use vstd::prelude::*;

verus! {

/// The unsigned 64-bit number that the eight bytes of `data` from `at` on
/// denote, least significant byte first.
pub open spec fn u64_le_at(data: Seq<u8>, at: int) -> u64
    recommends
        0 <= at,
        at + 8 <= data.len(),
{
    (data[at] as nat + 0x100 * (data[at + 1] as nat) + 0x1_0000 * (data[at + 2] as nat)
        + 0x100_0000 * (data[at + 3] as nat) + 0x1_0000_0000 * (data[at + 4] as nat)
        + 0x100_0000_0000 * (data[at + 5] as nat) + 0x1_0000_0000_0000 * (data[at + 6] as nat)
        + 0x100_0000_0000_0000 * (data[at + 7] as nat)) as u64
}

/// The eight bytes of `v`, least significant first.
pub open spec fn u64_le(v: u64) -> Seq<u8> {
    seq![
        (v % 0x100) as u8,
        (v / 0x100 % 0x100) as u8,
        (v / 0x1_0000 % 0x100) as u8,
        (v / 0x100_0000 % 0x100) as u8,
        (v / 0x1_0000_0000 % 0x100) as u8,
        (v / 0x100_0000_0000 % 0x100) as u8,
        (v / 0x1_0000_0000_0000 % 0x100) as u8,
        (v / 0x100_0000_0000_0000 % 0x100) as u8,
    ]
}

/// Reading back the bytes of a number gives the number.
pub proof fn lemma_u64_le_round_trip(v: u64)
    ensures
        u64_le(v).len() == 8,
        u64_le_at(u64_le(v), 0) == v,
{
    assert(v == (v % 0x100) + 0x100 * (v / 0x100 % 0x100) + 0x1_0000 * (v / 0x1_0000 % 0x100)
        + 0x100_0000 * (v / 0x100_0000 % 0x100) + 0x1_0000_0000 * (v / 0x1_0000_0000 % 0x100)
        + 0x100_0000_0000 * (v / 0x100_0000_0000 % 0x100) + 0x1_0000_0000_0000 * (v
        / 0x1_0000_0000_0000 % 0x100) + 0x100_0000_0000_0000 * (v / 0x100_0000_0000_0000
        % 0x100)) by (bit_vector);
}

/// The bytes of the number that eight bytes denote are those eight bytes.
pub proof fn lemma_u64_le_of_value(data: Seq<u8>, at: int)
    requires
        0 <= at,
        at + 8 <= data.len(),
    ensures
        u64_le(u64_le_at(data, at)) == data.subrange(at, at + 8),
{
    let b0 = data[at];
    let b1 = data[at + 1];
    let b2 = data[at + 2];
    let b3 = data[at + 3];
    let b4 = data[at + 4];
    let b5 = data[at + 5];
    let b6 = data[at + 6];
    let b7 = data[at + 7];
    let v = u64_le_at(data, at);
    assert(v == b0 as u64 + 0x100 * (b1 as u64) + 0x1_0000 * (b2 as u64) + 0x100_0000 * (b3 as u64)
        + 0x1_0000_0000 * (b4 as u64) + 0x100_0000_0000 * (b5 as u64) + 0x1_0000_0000_0000 * (b6
        as u64) + 0x100_0000_0000_0000 * (b7 as u64));
    assert(v == b0 as u64 + 0x100 * (b1 as u64) + 0x1_0000 * (b2 as u64) + 0x100_0000 * (b3 as u64)
        + 0x1_0000_0000 * (b4 as u64) + 0x100_0000_0000 * (b5 as u64) + 0x1_0000_0000_0000 * (b6
        as u64) + 0x100_0000_0000_0000 * (b7 as u64) ==> {
        &&& v % 0x100 == b0 as u64
        &&& v / 0x100 % 0x100 == b1 as u64
        &&& v / 0x1_0000 % 0x100 == b2 as u64
        &&& v / 0x100_0000 % 0x100 == b3 as u64
        &&& v / 0x1_0000_0000 % 0x100 == b4 as u64
        &&& v / 0x100_0000_0000 % 0x100 == b5 as u64
        &&& v / 0x1_0000_0000_0000 % 0x100 == b6 as u64
        &&& v / 0x100_0000_0000_0000 % 0x100 == b7 as u64
    }) by (bit_vector);
    assert(u64_le(v) =~= data.subrange(at, at + 8));
}

/// Reads the unsigned 64-bit number stored least significant byte first in
/// the eight bytes of `data` that start at `at`.
pub fn read_u64_le(data: &[u8], at: usize) -> (v: u64)
    requires
        at + 8 <= data@.len(),
    ensures
        v == u64_le_at(data@, at as int),
{
    let b0: u64 = data[at] as u64;
    let b1: u64 = data[at + 1] as u64;
    let b2: u64 = data[at + 2] as u64;
    let b3: u64 = data[at + 3] as u64;
    let b4: u64 = data[at + 4] as u64;
    let b5: u64 = data[at + 5] as u64;
    let b6: u64 = data[at + 6] as u64;
    let b7: u64 = data[at + 7] as u64;
    b0 + 0x100 * b1 + 0x1_0000 * b2 + 0x100_0000 * b3 + 0x1_0000_0000 * b4 + 0x100_0000_0000 * b5
        + 0x1_0000_0000_0000 * b6 + 0x100_0000_0000_0000 * b7
}

/// The eight bytes of `v`, least significant first.
pub fn u64_le_bytes(v: u64) -> (out: [u8; 8])
    ensures
        out@ == u64_le(v),
{
    let out: [u8; 8] = [
        (v % 0x100) as u8,
        (v / 0x100 % 0x100) as u8,
        (v / 0x1_0000 % 0x100) as u8,
        (v / 0x100_0000 % 0x100) as u8,
        (v / 0x1_0000_0000 % 0x100) as u8,
        (v / 0x100_0000_0000 % 0x100) as u8,
        (v / 0x1_0000_0000_0000 % 0x100) as u8,
        (v / 0x100_0000_0000_0000 % 0x100) as u8,
    ];
    assert(out@ =~= u64_le(v));
    out
}

/// `base` with the bytes from `at` on replaced by `part`.
pub open spec fn overwrite(base: Seq<u8>, at: int, part: Seq<u8>) -> Seq<u8>
    recommends
        0 <= at,
        at + part.len() <= base.len(),
{
    base.subrange(0, at) + part + base.subrange(at + part.len(), base.len() as int)
}

/// Copies `src` over the bytes of `dst` that start at `at`; every other byte
/// of `dst` stays.
pub fn write_at(dst: &mut [u8], at: usize, src: &[u8])
    requires
        at + src@.len() <= old(dst)@.len(),
    ensures
        final(dst)@ == overwrite(old(dst)@, at as int, src@),
{
    let n: usize = src.len();
    let total: usize = dst.len();
    let mut i: usize = 0;
    while i < n
        invariant
            i <= n == src@.len(),
            at + n <= total == dst@.len(),
            dst@.len() == old(dst)@.len(),
            forall|j: int| 0 <= j < i ==> dst@[at + j] == src@[j],
            forall|j: int| 0 <= j < at ==> dst@[j] == old(dst)@[j],
            forall|j: int| at + i <= j < total ==> dst@[j] == old(dst)@[j],
        decreases n - i,
    {
        dst[at + i] = src[i];
        i += 1;
    }
    assert(dst@ =~= overwrite(old(dst)@, at as int, src@));
}

/// The `N` bytes of `data` that start at `at`, as an array.
pub fn read_array<const N: usize>(data: &[u8], at: usize) -> (out: [u8; N])
    requires
        at + N <= data@.len(),
    ensures
        out@ == data@.subrange(at as int, at + N),
{
    let len: usize = data.len();
    let mut out = [0u8; N];
    let mut i: usize = 0;
    while i < N
        invariant
            i <= N,
            at + N <= data@.len() == len,
            out@.len() == N,
            forall|j: int| 0 <= j < i ==> out@[j] == data@[at + j],
        decreases N - i,
    {
        out[i] = data[at + i];
        i += 1;
    }
    assert(out@ =~= data@.subrange(at as int, at + N));
    out
}

} // verus!
