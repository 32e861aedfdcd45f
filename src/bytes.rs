//! Big-endian integers and sub-byte fields at fixed offsets of a buffer.
use vstd::prelude::*;

verus! {

/// The 16-bit big-endian integer that starts at `at`.
pub open spec fn be16(b: Seq<u8>, at: int) -> int {
    b[at] * 0x100 + b[at + 1]
}

/// The 24-bit big-endian integer that starts at `at`.
pub open spec fn be24(b: Seq<u8>, at: int) -> int {
    b[at] * 0x10000 + b[at + 1] * 0x100 + b[at + 2]
}

/// The 32-bit big-endian integer that starts at `at`.
pub open spec fn be32(b: Seq<u8>, at: int) -> int {
    b[at] * 0x1000000 + b[at + 1] * 0x10000 + b[at + 2] * 0x100 + b[at + 3]
}

/// `b` with the 16-bit big-endian form of `v` written at `at`.
pub open spec fn put_be16(b: Seq<u8>, at: int, v: int) -> Seq<u8> {
    b.update(at, (v / 0x100) as u8).update(at + 1, (v % 0x100) as u8)
}

/// `b` with the 24-bit big-endian form of `v` written at `at`.
pub open spec fn put_be24(b: Seq<u8>, at: int, v: int) -> Seq<u8> {
    b.update(at, (v / 0x10000) as u8).update(at + 1, (v / 0x100 % 0x100) as u8).update(
        at + 2,
        (v % 0x100) as u8,
    )
}

/// `b` with the 32-bit big-endian form of `v` written at `at`.
pub open spec fn put_be32(b: Seq<u8>, at: int, v: int) -> Seq<u8> {
    b.update(at, (v / 0x1000000) as u8).update(at + 1, (v / 0x10000 % 0x100) as u8).update(
        at + 2,
        (v / 0x100 % 0x100) as u8,
    ).update(at + 3, (v % 0x100) as u8)
}

/// The field of `byte` selected by `mask` once the byte is shifted right by `shift`.
pub open spec fn bits_of(byte: u8, shift: u8, mask: u8) -> u8 {
    (byte >> shift) & mask
}

/// `byte` with the field at (`shift`, `mask`) replaced by the low bits of `v`.
pub open spec fn with_bits(byte: u8, shift: u8, mask: u8, v: u8) -> u8 {
    (byte & !(mask << shift)) | ((v & mask) << shift)
}

/// The 32-bit big-endian integers that fit whole in `b[start..end]`, in order.
pub open spec fn be32_list(b: Seq<u8>, start: int, end: int) -> Seq<u32> {
    Seq::new(((end - start) / 4) as nat, |i: int| be32(b, start + 4 * i) as u32)
}

/// `b` with `v` copied over the bytes that start at `at`.
pub open spec fn splice(b: Seq<u8>, at: int, v: Seq<u8>) -> Seq<u8> {
    b.subrange(0, at) + v + b.subrange(at + v.len(), b.len() as int)
}

/// Reads the 16-bit big-endian integer at `at`.
pub fn read_be16(b: &[u8], at: usize) -> (r: u16)
    requires
        at + 2 <= b@.len(),
    ensures
        r == be16(b@, at as int),
{
    (b[at] as u16) * 0x100 + b[at + 1] as u16
}

/// Reads the 24-bit big-endian integer at `at`.
pub fn read_be24(b: &[u8], at: usize) -> (r: u32)
    requires
        at + 3 <= b@.len(),
    ensures
        r == be24(b@, at as int),
{
    (b[at] as u32) * 0x10000 + (b[at + 1] as u32) * 0x100 + b[at + 2] as u32
}

/// Reads the 32-bit big-endian integer at `at`.
pub fn read_be32(b: &[u8], at: usize) -> (r: u32)
    requires
        at + 4 <= b@.len(),
    ensures
        r == be32(b@, at as int),
{
    (b[at] as u32) * 0x1000000 + (b[at + 1] as u32) * 0x10000 + (b[at + 2] as u32) * 0x100
        + b[at + 3] as u32
}

/// Writes `v` as a 16-bit big-endian integer at `at`.
pub fn write_be16(b: &mut [u8], at: usize, v: u16)
    requires
        at + 2 <= old(b)@.len(),
    ensures
        final(b)@ == put_be16(old(b)@, at as int, v as int),
    no_unwind
{
    b[at] = (v / 0x100) as u8;
    b[at + 1] = (v % 0x100) as u8;
}

/// Writes `v`, which must fit in 24 bits, as a big-endian integer at `at`.
pub fn write_be24(b: &mut [u8], at: usize, v: u32)
    requires
        at + 3 <= old(b)@.len(),
        v < 0x1000000,
    ensures
        final(b)@ == put_be24(old(b)@, at as int, v as int),
    no_unwind
{
    b[at] = (v / 0x10000) as u8;
    b[at + 1] = (v / 0x100 % 0x100) as u8;
    b[at + 2] = (v % 0x100) as u8;
}

/// Writes `v` as a 32-bit big-endian integer at `at`.
pub fn write_be32(b: &mut [u8], at: usize, v: u32)
    requires
        at + 4 <= old(b)@.len(),
    ensures
        final(b)@ == put_be32(old(b)@, at as int, v as int),
    no_unwind
{
    b[at] = (v / 0x1000000) as u8;
    b[at + 1] = (v / 0x10000 % 0x100) as u8;
    b[at + 2] = (v / 0x100 % 0x100) as u8;
    b[at + 3] = (v % 0x100) as u8;
}

/// Reads the sub-byte field at (`shift`, `mask`) of `byte`.
pub fn read_bits(byte: u8, shift: u8, mask: u8) -> (r: u8)
    requires
        shift < 8,
    ensures
        r == bits_of(byte, shift, mask),
{
    (byte >> shift) & mask
}

/// Gives `byte` with the sub-byte field at (`shift`, `mask`) set to the low bits of `v`.
pub fn write_bits(byte: u8, shift: u8, mask: u8, v: u8) -> (r: u8)
    requires
        shift < 8,
    ensures
        r == with_bits(byte, shift, mask, v),
{
    (byte & !(mask << shift)) | ((v & mask) << shift)
}

/// Reads the 32-bit big-endian integers that fit whole in `b[start..end]`.
pub fn read_be32_list(b: &[u8], start: usize, end: usize) -> (r: Vec<u32>)
    requires
        start <= end <= b@.len(),
    ensures
        r@ == be32_list(b@, start as int, end as int),
{
    let mut r: Vec<u32> = Vec::new();
    let mut at: usize = start;
    while end - at >= 4
        invariant
            start <= at <= end <= b@.len(),
            at == start + 4 * r@.len(),
            forall|i: int| 0 <= i < r@.len() ==> r@[i] == be32(b@, start + 4 * i),
        decreases end - at,
    {
        let v = read_be32(b, at);
        r.push(v);
        at = at + 4;
    }
    assert(r@ =~= be32_list(b@, start as int, end as int));
    r
}

/// Writes the first `n` of `vals` as 32-bit big-endian integers, one after
/// another from `start`.
pub fn write_be32_list(b: &mut [u8], start: usize, vals: &[u32], n: usize)
    requires
        n == vals@.len(),
        start + 4 * n <= old(b)@.len(),
    ensures
        final(b)@.len() == old(b)@.len(),
        forall|i: int| 0 <= i < n ==> be32(final(b)@, start + 4 * i) == vals@[i],
        forall|j: int|
            0 <= j < old(b)@.len() && !(start <= j < start + 4 * n) ==> final(b)@[j] == old(b)@[j],
    no_unwind
{
    proof {
        assert(b.len() == b@.len());
    }
    let mut i: usize = 0;
    while i < n
        invariant
            n == vals@.len(),
            start + 4 * n <= old(b)@.len(),
            b@.len() <= usize::MAX,
            b@.len() == old(b)@.len(),
            i <= n,
            forall|k: int| 0 <= k < i ==> be32(b@, start + 4 * k) == vals@[k],
            forall|j: int|
                0 <= j < old(b)@.len() && !(start <= j < start + 4 * i) ==> b@[j] == old(b)@[j],
        decreases n - i,
    {
        proof {
            lemma_be32_round_trip(b@, start + 4 * i, vals@[i as int]);
        }
        write_be32(b, start + 4 * i, vals[i]);
        i = i + 1;
    }
}

/// Copies the first `n` of `vals` over the bytes of `b` that start at `at`.
pub fn write_bytes(b: &mut [u8], at: usize, vals: &[u8], n: usize)
    requires
        n == vals@.len(),
        at + n <= old(b)@.len(),
    ensures
        final(b)@ == splice(old(b)@, at as int, vals@),
    no_unwind
{
    proof {
        assert(b.len() == b@.len());
    }
    let mut i: usize = 0;
    while i < n
        invariant
            n == vals@.len(),
            at + n <= old(b)@.len(),
            b@.len() <= usize::MAX,
            b@.len() == old(b)@.len(),
            i <= n,
            forall|j: int|
                0 <= j < b@.len() ==> b@[j] == if at <= j < at + i {
                    vals@[j - at]
                } else {
                    old(b)@[j]
                },
        decreases n - i,
    {
        b[at + i] = vals[i];
        i = i + 1;
    }
    assert(b@ =~= splice(old(b)@, at as int, vals@));
}

/// A 16-bit value written at `at` reads back unchanged, and no other byte moves.
pub proof fn lemma_be16_round_trip(b: Seq<u8>, at: int, v: u16)
    requires
        0 <= at,
        at + 2 <= b.len(),
    ensures
        be16(put_be16(b, at, v as int), at) == v,
        put_be16(b, at, v as int).len() == b.len(),
        forall|j: int|
            0 <= j < b.len() && !(at <= j < at + 2) ==> #[trigger] put_be16(b, at, v as int)[j]
                == b[j],
{
}

/// A 24-bit value written at `at` reads back unchanged, and no other byte moves.
pub proof fn lemma_be24_round_trip(b: Seq<u8>, at: int, v: u32)
    requires
        0 <= at,
        at + 3 <= b.len(),
        v < 0x1000000,
    ensures
        be24(put_be24(b, at, v as int), at) == v,
        put_be24(b, at, v as int).len() == b.len(),
        forall|j: int|
            0 <= j < b.len() && !(at <= j < at + 3) ==> #[trigger] put_be24(b, at, v as int)[j]
                == b[j],
{
}

/// A 32-bit value written at `at` reads back unchanged, and no other byte moves.
pub proof fn lemma_be32_round_trip(b: Seq<u8>, at: int, v: u32)
    requires
        0 <= at,
        at + 4 <= b.len(),
    ensures
        be32(put_be32(b, at, v as int), at) == v,
        put_be32(b, at, v as int).len() == b.len(),
        forall|j: int|
            0 <= j < b.len() && !(at <= j < at + 4) ==> #[trigger] put_be32(b, at, v as int)[j]
                == b[j],
{
}

/// Bytes copied in with `splice` read back in place, and the bytes before
/// them do not move.
pub proof fn lemma_splice_read_back(b: Seq<u8>, at: int, v: Seq<u8>)
    requires
        0 <= at,
        at + v.len() <= b.len(),
    ensures
        splice(b, at, v).len() == b.len(),
        splice(b, at, v).subrange(at, at + v.len()) == v,
        forall|j: int| 0 <= j < at ==> #[trigger] splice(b, at, v)[j] == b[j],
{
    assert(splice(b, at, v).subrange(at, at + v.len()) =~= v);
}

/// A sub-byte field written with `v` reads back as the low bits of `v`, for a
/// field whose mask fits in the byte at its shift.
pub proof fn lemma_bits_round_trip(byte: u8, shift: u8, mask: u8, v: u8)
    requires
        shift < 8,
        (mask << shift) >> shift == mask,
    ensures
        bits_of(with_bits(byte, shift, mask, v), shift, mask) == v & mask,
{
    assert(bits_of(with_bits(byte, shift, mask, v), shift, mask) == v & mask) by (bit_vector)
        requires
            shift < 8,
            (mask << shift) >> shift == mask,
    ;
}

} // verus!
