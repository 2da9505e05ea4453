//! Byte sequences: comparison, copying and little-endian integers.
use vstd::prelude::*;

verus! {

/// The number whose four bytes, least significant first, start at `at`.
pub open spec fn le_u32(data: Seq<u8>, at: int) -> int {
    data[at] + 0x100 * data[at + 1] + 0x1_0000 * data[at + 2] + 0x100_0000 * data[at + 3]
}

/// The number whose eight bytes, least significant first, start at `at`.
pub open spec fn le_u64(data: Seq<u8>, at: int) -> int {
    le_u32(data, at) + 0x1_0000_0000 * le_u32(data, at + 4)
}

/// The four bytes of `value`, least significant first.
pub open spec fn le_u32_bytes(value: u32) -> Seq<u8> {
    seq![
        (value % 0x100) as u8,
        (value / 0x100 % 0x100) as u8,
        (value / 0x1_0000 % 0x100) as u8,
        (value / 0x100_0000) as u8,
    ]
}

/// The eight bytes of `value`, least significant first.
pub open spec fn le_u64_bytes(value: u64) -> Seq<u8> {
    le_u32_bytes((value % 0x1_0000_0000) as u32) + le_u32_bytes((value / 0x1_0000_0000) as u32)
}

/// Reading the four bytes of a number gives the number back.
pub proof fn law_le_u32_reads_back(value: u32)
    ensures
        le_u32_bytes(value).len() == 4,
        le_u32(le_u32_bytes(value), 0) == value,
{
}

/// Reading the eight bytes of a number gives the number back.
pub proof fn law_le_u64_reads_back(value: u64)
    ensures
        le_u64_bytes(value).len() == 8,
        le_u64(le_u64_bytes(value), 0) == value,
{
    let low = (value % 0x1_0000_0000) as u32;
    let high = (value / 0x1_0000_0000) as u32;
    law_le_u32_reads_back(low);
    law_le_u32_reads_back(high);
    let data = le_u64_bytes(value);
    assert(le_u32(data, 0) == le_u32(le_u32_bytes(low), 0));
    assert(le_u32(data, 4) == le_u32(le_u32_bytes(high), 0));
}

/// Reads the four-byte little-endian number at `at`.
pub fn read_le_u32(data: &[u8], at: usize) -> (value: u32)
    requires
        at + 4 <= data@.len(),
    ensures
        value == le_u32(data@, at as int),
{
    data[at] as u32 + 0x100 * data[at + 1] as u32 + 0x1_0000 * data[at + 2] as u32 + 0x100_0000
        * data[at + 3] as u32
}

/// Tells whether two byte sequences are the same.
pub fn bytes_equal(left: &[u8], right: &[u8]) -> (same: bool)
    ensures
        same == (left@ == right@),
{
    if left.len() != right.len() {
        return false;
    }
    for i in 0..left.len()
        invariant
            left@.len() == right@.len(),
            forall|j: int| 0 <= j < i ==> left@[j] == right@[j],
    {
        if left[i] != right[i] {
            return false;
        }
    }
    assert(left@ =~= right@);
    true
}

/// Copies the bytes of `data` from `from` up to `to`.
pub fn copy_range(data: &[u8], from: usize, to: usize) -> (copy: Vec<u8>)
    requires
        from <= to <= data@.len(),
    ensures
        copy@ == data@.subrange(from as int, to as int),
{
    let mut copy: Vec<u8> = Vec::new();
    for i in from..to
        invariant
            from <= to <= data@.len(),
            copy@ == data@.subrange(from as int, i as int),
    {
        copy.push(data[i]);
        assert(copy@ =~= data@.subrange(from as int, i + 1));
    }
    copy
}

/// Appends all of `more` to `data`.
pub fn append_bytes(data: &mut Vec<u8>, more: &[u8])
    ensures
        final(data)@ == old(data)@ + more@,
{
    for i in 0..more.len()
        invariant
            data@ == old(data)@ + more@.subrange(0, i as int),
    {
        data.push(more[i]);
        assert(data@ =~= old(data)@ + more@.subrange(0, i + 1));
    }
    assert(more@.subrange(0, more@.len() as int) =~= more@);
}

/// The byte that comes first counts least, and each byte counts 256 times the one before it.
pub proof fn law_first_byte_counts_least(a: u8, b: u8, c: u8, d: u8, before: Seq<u8>, after: Seq<u8>)
    ensures
        le_u32(before + seq![a, b, c, d] + after, before.len() as int) == a + 256 * (b + 256 * (c
            + 256 * d)),
{
    let data = before + seq![a, b, c, d] + after;
    let at = before.len() as int;
    assert(data[at] == a && data[at + 1] == b && data[at + 2] == c && data[at + 3] == d);
}

/// An eight-byte number is its first four bytes and, 2 to the 32 times over, its last four.
pub proof fn law_second_half_counts_most(low: u32, high: u32)
    ensures
        le_u64(le_u32_bytes(low) + le_u32_bytes(high), 0) == low + 0x1_0000_0000 * high,
{
    let data = le_u32_bytes(low) + le_u32_bytes(high);
    law_le_u32_reads_back(low);
    law_le_u32_reads_back(high);
    assert(le_u32(data, 0) == le_u32(le_u32_bytes(low), 0));
    assert(le_u32(data, 4) == le_u32(le_u32_bytes(high), 0));
}

} // verus!
