//! Fixed-width integers as bytes, and comparison and copying of byte strings.

use vstd::prelude::*;

verus! {

/// The byte of `n` that starts `shift` bits above the lowest bit.
pub open spec fn byte_of(n: u64, shift: u64) -> u8 {
    ((n >> shift) & 0xff) as u8
}

/// The eight bytes of `n`, most significant first.
pub open spec fn be_bytes(n: u64) -> Seq<u8> {
    seq![
        byte_of(n, 56),
        byte_of(n, 48),
        byte_of(n, 40),
        byte_of(n, 32),
        byte_of(n, 24),
        byte_of(n, 16),
        byte_of(n, 8),
        byte_of(n, 0),
    ]
}

/// The eight bytes of `n`, least significant first.
pub open spec fn le_bytes(n: u64) -> Seq<u8> {
    seq![
        byte_of(n, 0),
        byte_of(n, 8),
        byte_of(n, 16),
        byte_of(n, 24),
        byte_of(n, 32),
        byte_of(n, 40),
        byte_of(n, 48),
        byte_of(n, 56),
    ]
}

/// The number whose bytes are `b0` (least significant) to `b7`.
pub open spec fn compose(b0: u8, b1: u8, b2: u8, b3: u8, b4: u8, b5: u8, b6: u8, b7: u8) -> u64 {
    (b0 as u64) | ((b1 as u64) << 8) | ((b2 as u64) << 16) | ((b3 as u64) << 24) | ((b4 as u64)
        << 32) | ((b5 as u64) << 40) | ((b6 as u64) << 48) | ((b7 as u64) << 56)
}

/// The number that eight bytes spell, least significant first.
pub open spec fn le_value(s: Seq<u8>) -> u64
    recommends
        s.len() == 8,
{
    compose(s[0], s[1], s[2], s[3], s[4], s[5], s[6], s[7])
}

/// The number that eight bytes spell, most significant first.
pub open spec fn be_value(s: Seq<u8>) -> u64
    recommends
        s.len() == 8,
{
    compose(s[7], s[6], s[5], s[4], s[3], s[2], s[1], s[0])
}

proof fn lemma_compose_of_bytes(n: u64)
    by (bit_vector)
    ensures
        compose(
            byte_of(n, 0),
            byte_of(n, 8),
            byte_of(n, 16),
            byte_of(n, 24),
            byte_of(n, 32),
            byte_of(n, 40),
            byte_of(n, 48),
            byte_of(n, 56),
        ) == n,
{
}

proof fn lemma_bytes_of_compose(b0: u8, b1: u8, b2: u8, b3: u8, b4: u8, b5: u8, b6: u8, b7: u8)
    by (bit_vector)
    ensures
        byte_of(compose(b0, b1, b2, b3, b4, b5, b6, b7), 0) == b0,
        byte_of(compose(b0, b1, b2, b3, b4, b5, b6, b7), 8) == b1,
        byte_of(compose(b0, b1, b2, b3, b4, b5, b6, b7), 16) == b2,
        byte_of(compose(b0, b1, b2, b3, b4, b5, b6, b7), 24) == b3,
        byte_of(compose(b0, b1, b2, b3, b4, b5, b6, b7), 32) == b4,
        byte_of(compose(b0, b1, b2, b3, b4, b5, b6, b7), 40) == b5,
        byte_of(compose(b0, b1, b2, b3, b4, b5, b6, b7), 48) == b6,
        byte_of(compose(b0, b1, b2, b3, b4, b5, b6, b7), 56) == b7,
{
}

/// Reading back what `le_bytes` wrote gives the number.
pub proof fn lemma_le_value_of_bytes(n: u64)
    ensures
        le_bytes(n).len() == 8,
        le_value(le_bytes(n)) == n,
{
    lemma_compose_of_bytes(n);
}

/// Writing what `le_value` read gives the bytes.
pub proof fn lemma_le_bytes_of_value(s: Seq<u8>)
    requires
        s.len() == 8,
    ensures
        le_bytes(le_value(s)) == s,
{
    lemma_bytes_of_compose(s[0], s[1], s[2], s[3], s[4], s[5], s[6], s[7]);
    assert(le_bytes(le_value(s)) =~= s);
}

/// Reading back what `be_bytes` wrote gives the number, so two numbers with the same bytes are
/// the same number.
pub proof fn lemma_be_value_of_bytes(n: u64)
    ensures
        be_bytes(n).len() == 8,
        be_value(be_bytes(n)) == n,
{
    lemma_compose_of_bytes(n);
}

proof fn lemma_byte_fits(n: u64, shift: u64)
    by (bit_vector)
    ensures
        (n >> shift) & 0xff < 0x100,
{
}

fn nth_byte(n: u64, shift: u64) -> (b: u8)
    requires
        shift < 64,
    ensures
        b == byte_of(n, shift),
{
    proof {
        lemma_byte_fits(n, shift);
    }
    ((n >> shift) & 0xff) as u8
}

/// The bytes of `n`, most significant first.
pub fn u64_to_be_bytes(n: u64) -> (bytes: [u8; 8])
    ensures
        bytes@ == be_bytes(n),
{
    let bytes = [
        nth_byte(n, 56),
        nth_byte(n, 48),
        nth_byte(n, 40),
        nth_byte(n, 32),
        nth_byte(n, 24),
        nth_byte(n, 16),
        nth_byte(n, 8),
        nth_byte(n, 0),
    ];
    assert(bytes@ =~= be_bytes(n));
    bytes
}

/// The bytes of `n`, least significant first.
pub fn u64_to_le_bytes(n: u64) -> (bytes: [u8; 8])
    ensures
        bytes@ == le_bytes(n),
{
    let bytes = [
        nth_byte(n, 0),
        nth_byte(n, 8),
        nth_byte(n, 16),
        nth_byte(n, 24),
        nth_byte(n, 32),
        nth_byte(n, 40),
        nth_byte(n, 48),
        nth_byte(n, 56),
    ];
    assert(bytes@ =~= le_bytes(n));
    bytes
}

/// The number spelled by the eight bytes of `data` from `offset` on, least significant first.
pub fn u64_from_le_bytes(data: &[u8], offset: usize) -> (n: u64)
    requires
        offset + 8 <= data@.len(),
    ensures
        n == le_value(data@.subrange(offset as int, offset + 8)),
{
    let b0 = data[offset] as u64;
    let b1 = data[offset + 1] as u64;
    let b2 = data[offset + 2] as u64;
    let b3 = data[offset + 3] as u64;
    let b4 = data[offset + 4] as u64;
    let b5 = data[offset + 5] as u64;
    let b6 = data[offset + 6] as u64;
    let b7 = data[offset + 7] as u64;
    b0 | (b1 << 8) | (b2 << 16) | (b3 << 24) | (b4 << 32) | (b5 << 40) | (b6 << 48) | (b7 << 56)
}

/// Whether two byte strings have the same length and the same bytes.
pub fn bytes_equal(a: &[u8], b: &[u8]) -> (same: bool)
    ensures
        same == (a@ == b@),
{
    if a.len() != b.len() {
        return false;
    }
    let mut i: usize = 0;
    while i < a.len()
        invariant
            i <= a@.len(),
            a@.len() == b@.len(),
            forall|j: int| 0 <= j < i ==> a@[j] == b@[j],
        decreases a@.len() - i,
    {
        if a[i] != b[i] {
            return false;
        }
        i += 1;
    }
    assert(a@ =~= b@);
    true
}

/// The `N` bytes of `data` from `offset` on.
pub fn read_array<const N: usize>(data: &[u8], offset: usize) -> (bytes: [u8; N])
    requires
        offset + N <= data@.len(),
    ensures
        bytes@ == data@.subrange(offset as int, offset + N),
{
    let mut bytes = [0u8;N];
    let mut i: usize = 0;
    assert(data@.len() == data.len());
    while i < N
        invariant
            i <= N,
            offset + N <= data@.len() <= usize::MAX,
            forall|j: int| 0 <= j < i ==> bytes@[j] == data@[offset + j],
        decreases N - i,
    {
        bytes[i] = data[offset + i];
        i += 1;
    }
    assert(bytes@ =~= data@.subrange(offset as int, offset + N));
    bytes
}

/// Appends `bytes` to `buffer`.
pub fn append_bytes(buffer: &mut Vec<u8>, bytes: &[u8])
    ensures
        final(buffer)@ == old(buffer)@ + bytes@,
{
    let mut i: usize = 0;
    while i < bytes.len()
        invariant
            i <= bytes@.len(),
            buffer@ == old(buffer)@ + bytes@.subrange(0, i as int),
        decreases bytes@.len() - i,
    {
        buffer.push(bytes[i]);
        i += 1;
        assert(buffer@ =~= old(buffer)@ + bytes@.subrange(0, i as int));
    }
    assert(bytes@.subrange(0, i as int) =~= bytes@);
}

} // verus!
