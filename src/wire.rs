//! Little-endian reads from a datagram, and the writes that invert them.
use vstd::prelude::*;

verus! {

/// The unsigned value of the two bytes at `at`, least significant first.
pub open spec fn le16(b: Seq<u8>, at: int) -> int {
    b[at] + 256 * b[at + 1]
}

/// The unsigned value of the four bytes at `at`, least significant first.
pub open spec fn le32(b: Seq<u8>, at: int) -> int {
    le16(b, at) + 65536 * le16(b, at + 2)
}

/// The unsigned value of the eight bytes at `at`, least significant first.
pub open spec fn le64(b: Seq<u8>, at: int) -> int {
    le32(b, at) + 4294967296 * le32(b, at + 4)
}

/// A byte read as a two's-complement `i8`.
pub open spec fn signed8(x: u8) -> int {
    if x < 128 {
        x as int
    } else {
        x - 256
    }
}

/// The IEEE-754 single whose bits are `bits` compares below zero: the sign
/// is set, it is not a zero, and it is not a NaN.
pub open spec fn f32_bits_negative(bits: u32) -> bool {
    bits >= 0x8000_0000 && bits != 0x8000_0000 && bits <= 0xFF80_0000
}

pub fn read_u8(b: &[u8], at: usize) -> (r: u8)
    requires
        at < b@.len(),
    ensures
        r == b@[at as int],
{
    b[at]
}

pub fn read_i8(b: &[u8], at: usize) -> (r: i8)
    requires
        at < b@.len(),
    ensures
        r == signed8(b@[at as int]),
{
    let x = b[at];
    if x < 128 {
        x as i8
    } else {
        (x as i16 - 256) as i8
    }
}

pub fn read_u16(b: &[u8], at: usize) -> (r: u16)
    requires
        at + 2 <= b@.len(),
    ensures
        r == le16(b@, at as int),
{
    b[at] as u16 + 256 * (b[at + 1] as u16)
}

pub fn read_i16(b: &[u8], at: usize) -> (r: i16)
    requires
        at + 2 <= b@.len(),
    ensures
        r == (if le16(b@, at as int) < 32768 { le16(b@, at as int) } else { le16(b@, at as int)
            - 65536 }),
{
    let v = read_u16(b, at);
    if v < 32768 {
        v as i16
    } else {
        (v as i32 - 65536) as i16
    }
}

pub fn read_u32(b: &[u8], at: usize) -> (r: u32)
    requires
        at + 4 <= b@.len(),
    ensures
        r == le32(b@, at as int),
{
    b[at] as u32 + 256 * (b[at + 1] as u32) + 65536 * (b[at + 2] as u32) + 16777216 * (b[at
        + 3] as u32)
}

pub fn read_u64(b: &[u8], at: usize) -> (r: u64)
    requires
        at + 8 <= b@.len(),
    ensures
        r == le64(b@, at as int),
{
    let lo = b[at] as u64 + 256 * (b[at + 1] as u64) + 65536 * (b[at + 2] as u64) + 16777216 * (
    b[at + 3] as u64);
    let hi = b[at + 4] as u64 + 256 * (b[at + 5] as u64) + 65536 * (b[at + 6] as u64) + 16777216
        * (b[at + 7] as u64);
    lo + 4294967296 * hi
}

/// The two bytes of `v`, least significant first.
pub open spec fn bytes16(v: u16) -> Seq<u8> {
    seq![(v % 256) as u8, (v / 256) as u8]
}

pub open spec fn bytes32(v: u32) -> Seq<u8> {
    bytes16((v % 65536) as u16) + bytes16((v / 65536) as u16)
}

pub open spec fn bytes64(v: u64) -> Seq<u8> {
    bytes32((v % 4294967296) as u32) + bytes32((v / 4294967296) as u32)
}

pub fn push_u16(out: &mut Vec<u8>, v: u16)
    ensures
        final(out)@ == old(out)@ + bytes16(v),
{
    out.push((v % 256) as u8);
    out.push((v / 256) as u8);
    assert(final(out)@ =~= old(out)@ + bytes16(v));
}

pub fn push_u32(out: &mut Vec<u8>, v: u32)
    ensures
        final(out)@ == old(out)@ + bytes32(v),
{
    push_u16(out, (v % 65536) as u16);
    push_u16(out, (v / 65536) as u16);
    assert(final(out)@ =~= old(out)@ + bytes32(v));
}

pub fn push_u64(out: &mut Vec<u8>, v: u64)
    ensures
        final(out)@ == old(out)@ + bytes64(v),
{
    push_u32(out, (v % 4294967296) as u32);
    push_u32(out, (v / 4294967296) as u32);
    assert(final(out)@ =~= old(out)@ + bytes64(v));
}

/// Writing back a 16-bit value read from two bytes gives those bytes.
pub proof fn lemma_le16_round_trip(b: Seq<u8>, at: int)
    requires
        0 <= at,
        at + 2 <= b.len(),
    ensures
        0 <= le16(b, at) < 65536,
        bytes16(le16(b, at) as u16) == b.subrange(at, at + 2),
{
    let v = le16(b, at);
    assert(v % 256 == b[at] && v / 256 == b[at + 1]) by (nonlinear_arith)
        requires
            v == b[at] + 256 * b[at + 1],
            0 <= b[at] < 256,
            0 <= b[at + 1] < 256,
    ;
    assert(bytes16(v as u16) =~= b.subrange(at, at + 2));
}

/// Writing back a 32-bit value read from four bytes gives those bytes.
pub proof fn lemma_le32_round_trip(b: Seq<u8>, at: int)
    requires
        0 <= at,
        at + 4 <= b.len(),
    ensures
        0 <= le32(b, at) < 4294967296,
        bytes32(le32(b, at) as u32) == b.subrange(at, at + 4),
{
    lemma_le16_round_trip(b, at);
    lemma_le16_round_trip(b, at + 2);
    let lo = le16(b, at);
    let hi = le16(b, at + 2);
    let v = le32(b, at);
    assert(v % 65536 == lo && v / 65536 == hi) by (nonlinear_arith)
        requires
            v == lo + 65536 * hi,
            0 <= lo < 65536,
            0 <= hi < 65536,
    ;
    assert(bytes32(v as u32) =~= b.subrange(at, at + 4));
}

/// Writing back a 64-bit value read from eight bytes gives those bytes.
pub proof fn lemma_le64_round_trip(b: Seq<u8>, at: int)
    requires
        0 <= at,
        at + 8 <= b.len(),
    ensures
        0 <= le64(b, at) < 0x1_0000_0000_0000_0000,
        bytes64(le64(b, at) as u64) == b.subrange(at, at + 8),
{
    lemma_le32_round_trip(b, at);
    lemma_le32_round_trip(b, at + 4);
    let lo = le32(b, at);
    let hi = le32(b, at + 4);
    let v = le64(b, at);
    assert(v % 4294967296 == lo && v / 4294967296 == hi) by (nonlinear_arith)
        requires
            v == lo + 4294967296 * hi,
            0 <= lo < 4294967296,
            0 <= hi < 4294967296,
    ;
    assert(bytes64(v as u64) =~= b.subrange(at, at + 8));
}

/// The two bytes at `at` read as a two's-complement `i16`.
pub open spec fn le16_signed(b: Seq<u8>, at: int) -> int {
    if le16(b, at) < 32768 {
        le16(b, at)
    } else {
        le16(b, at) - 65536
    }
}

/// The `n` bytes at `at`.
pub fn read_bytes(b: &[u8], at: usize, n: usize) -> (r: Vec<u8>)
    requires
        at + n <= b@.len(),
    ensures
        r@ == b@.subrange(at as int, at + n),
{
    assert(b@.len() == b.len());
    let mut r: Vec<u8> = Vec::new();
    let mut i: usize = 0;
    while i < n
        invariant
            i <= n,
            at + n <= b@.len(),
            b@.len() <= usize::MAX,
            r@ == b@.subrange(at as int, at + i),
        decreases n - i,
    {
        r.push(b[at + i]);
        i += 1;
        assert(r@ =~= b@.subrange(at as int, at + i));
    }
    r
}

/// `n` consecutive 16-bit values from `at`.
pub fn read_u16s(b: &[u8], at: usize, n: usize) -> (r: Vec<u16>)
    requires
        at + 2 * n <= b@.len(),
    ensures
        r@.len() == n,
        forall|i: int| 0 <= i < n ==> #[trigger] r@[i] == le16(b@, at + 2 * i),
{
    assert(b@.len() == b.len());
    let mut r: Vec<u16> = Vec::new();
    let mut i: usize = 0;
    while i < n
        invariant
            i <= n,
            at + 2 * n <= b@.len(),
            b@.len() <= usize::MAX,
            r@.len() == i,
            forall|j: int| 0 <= j < i ==> #[trigger] r@[j] == le16(b@, at + 2 * j),
        decreases n - i,
    {
        r.push(read_u16(b, at + 2 * i));
        i += 1;
    }
    r
}

/// `n` consecutive 32-bit values from `at`.
pub fn read_u32s(b: &[u8], at: usize, n: usize) -> (r: Vec<u32>)
    requires
        at + 4 * n <= b@.len(),
    ensures
        r@.len() == n,
        forall|i: int| 0 <= i < n ==> #[trigger] r@[i] == le32(b@, at + 4 * i),
{
    assert(b@.len() == b.len());
    let mut r: Vec<u32> = Vec::new();
    let mut i: usize = 0;
    while i < n
        invariant
            i <= n,
            at + 4 * n <= b@.len(),
            b@.len() <= usize::MAX,
            r@.len() == i,
            forall|j: int| 0 <= j < i ==> #[trigger] r@[j] == le32(b@, at + 4 * j),
        decreases n - i,
    {
        r.push(read_u32(b, at + 4 * i));
        i += 1;
    }
    r
}

} // verus!
