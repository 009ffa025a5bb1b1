//! Little-endian integers inside byte buffers.
//!
//! The values are defined arithmetically: byte `k` of an integer weighs `256^k`.

use vstd::prelude::*;

verus! {

/// The value spelled by the four bytes of `s` that start at `at`, least
/// significant byte first.
#[verifier::opaque]
pub open spec fn le_u32(s: Seq<u8>, at: int) -> u32 {
    (s[at] + s[at + 1] * 0x100 + s[at + 2] * 0x1_0000 + s[at + 3] * 0x100_0000) as u32
}

/// The value spelled by the eight bytes of `s` that start at `at`, least
/// significant byte first.
#[verifier::opaque]
pub open spec fn le_u64(s: Seq<u8>, at: int) -> u64 {
    (le_u32(s, at) + le_u32(s, at + 4) * 0x1_0000_0000) as u64
}

/// A flag byte is set unless it is zero.
pub open spec fn flag_at(s: Seq<u8>, at: int) -> bool {
    s[at] != 0
}

/// The four bytes that spell `x`, least significant byte first.
#[verifier::opaque]
pub open spec fn u32_le_bytes(x: u32) -> Seq<u8> {
    seq![
        (x % 0x100) as u8,
        (x / 0x100 % 0x100) as u8,
        (x / 0x1_0000 % 0x100) as u8,
        (x / 0x100_0000) as u8,
    ]
}

/// The eight bytes that spell `x`, least significant byte first.
#[verifier::opaque]
pub open spec fn u64_le_bytes(x: u64) -> Seq<u8> {
    u32_le_bytes((x % 0x1_0000_0000) as u32) + u32_le_bytes((x / 0x1_0000_0000) as u32)
}

/// The byte that a flag is written as: one when set, zero when clear.
pub open spec fn flag_byte(flag: bool) -> u8 {
    if flag {
        1
    } else {
        0
    }
}

/// Reading back the bytes of a 32-bit value gives that value.
pub proof fn lemma_u32_round_trip(x: u32)
    ensures
        u32_le_bytes(x).len() == 4,
        le_u32(u32_le_bytes(x), 0) == x,
{
    reveal(u32_le_bytes);
    reveal(le_u32);
}

/// Reading back the bytes of a 64-bit value gives that value.
pub proof fn lemma_u64_round_trip(x: u64)
    ensures
        u64_le_bytes(x).len() == 8,
        le_u64(u64_le_bytes(x), 0) == x,
{
    reveal(u64_le_bytes);
    reveal(le_u64);
    let lo = (x % 0x1_0000_0000) as u32;
    let hi = (x / 0x1_0000_0000) as u32;
    lemma_u32_round_trip(lo);
    lemma_u32_round_trip(hi);
    let s = u64_le_bytes(x);
    assert(s.subrange(0, 4) =~= u32_le_bytes(lo).subrange(0, 4));
    assert(s.subrange(4, 8) =~= u32_le_bytes(hi).subrange(0, 4));
    lemma_le_u32_same_bytes(s, 0, u32_le_bytes(lo), 0);
    lemma_le_u32_same_bytes(s, 4, u32_le_bytes(hi), 0);
}

/// A 32-bit value depends on its own four bytes only.
pub proof fn lemma_le_u32_same_bytes(s: Seq<u8>, at: int, t: Seq<u8>, from: int)
    requires
        0 <= at,
        at + 4 <= s.len(),
        0 <= from,
        from + 4 <= t.len(),
        s.subrange(at, at + 4) == t.subrange(from, from + 4),
    ensures
        le_u32(s, at) == le_u32(t, from),
{
    reveal(le_u32);
    let own = s.subrange(at, at + 4);
    let other = t.subrange(from, from + 4);
    assert(s[at] == own[0] && s[at + 1] == own[1] && s[at + 2] == own[2] && s[at + 3] == own[3]);
    assert(t[from] == other[0] && t[from + 1] == other[1] && t[from + 2] == other[2] && t[from + 3]
        == other[3]);
}

/// A 64-bit value depends on its own eight bytes only.
pub proof fn lemma_le_u64_same_bytes(s: Seq<u8>, at: int, t: Seq<u8>, from: int)
    requires
        0 <= at,
        at + 8 <= s.len(),
        0 <= from,
        from + 8 <= t.len(),
        s.subrange(at, at + 8) == t.subrange(from, from + 8),
    ensures
        le_u64(s, at) == le_u64(t, from),
{
    reveal(le_u64);
    let own = s.subrange(at, at + 8);
    let other = t.subrange(from, from + 8);
    assert(s.subrange(at, at + 4) =~= own.subrange(0, 4));
    assert(t.subrange(from, from + 4) =~= other.subrange(0, 4));
    assert(s.subrange(at + 4, at + 8) =~= own.subrange(4, 8));
    assert(t.subrange(from + 4, from + 8) =~= other.subrange(4, 8));
    lemma_le_u32_same_bytes(s, at, t, from);
    lemma_le_u32_same_bytes(s, at + 4, t, from + 4);
}

/// `s` begins with the bytes of `head`.
#[verifier::opaque]
pub open spec fn begins_with(s: Seq<u8>, head: Seq<u8>) -> bool {
    head.len() <= s.len() && s.subrange(0, head.len() as int) == head
}

/// A buffer begins with what it was built from, whatever was appended.
pub proof fn lemma_begins_with_own_head(head: Seq<u8>, rest: Seq<u8>)
    ensures
        begins_with(head + rest, head),
{
    reveal(begins_with);
    assert((head + rest).subrange(0, head.len() as int) =~= head);
}

/// A buffer that begins with `head + more` begins with `head`.
pub proof fn lemma_begins_with_less(s: Seq<u8>, head: Seq<u8>, more: Seq<u8>)
    requires
        begins_with(s, head + more),
    ensures
        begins_with(s, head),
{
    reveal(begins_with);
    let whole = head + more;
    assert(s.subrange(0, head.len() as int) =~= whole.subrange(0, head.len() as int));
    assert(whole.subrange(0, head.len() as int) =~= head);
}

/// A buffer that begins with `head` and then `byte` holds `byte` right
/// behind `head`.
pub proof fn lemma_begins_with_byte(s: Seq<u8>, head: Seq<u8>, byte: u8)
    requires
        begins_with(s, head + seq![byte]),
    ensures
        head.len() < s.len(),
        s[head.len() as int] == byte,
{
    reveal(begins_with);
    let whole = head + seq![byte];
    assert(s[head.len() as int] == s.subrange(0, whole.len() as int)[head.len() as int]);
}

/// A buffer that begins with `head` and then the bytes of a 32-bit value
/// reads that value right behind `head`.
pub proof fn lemma_begins_with_u32(s: Seq<u8>, head: Seq<u8>, x: u32)
    requires
        begins_with(s, head + u32_le_bytes(x)),
    ensures
        le_u32(s, head.len() as int) == x,
{
    reveal(begins_with);
    lemma_u32_round_trip(x);
    let at = head.len() as int;
    let whole = head + u32_le_bytes(x);
    assert(s.subrange(at, at + 4) =~= s.subrange(0, whole.len() as int).subrange(at, at + 4));
    assert(whole.subrange(at, at + 4) =~= u32_le_bytes(x).subrange(0, 4));
    lemma_le_u32_same_bytes(s, at, u32_le_bytes(x), 0);
}

/// A buffer that begins with `head` and then the bytes of a 64-bit value
/// reads that value right behind `head`.
pub proof fn lemma_begins_with_u64(s: Seq<u8>, head: Seq<u8>, x: u64)
    requires
        begins_with(s, head + u64_le_bytes(x)),
    ensures
        le_u64(s, head.len() as int) == x,
{
    reveal(begins_with);
    lemma_u64_round_trip(x);
    let at = head.len() as int;
    let whole = head + u64_le_bytes(x);
    assert(s.subrange(at, at + 8) =~= s.subrange(0, whole.len() as int).subrange(at, at + 8));
    assert(whole.subrange(at, at + 8) =~= u64_le_bytes(x).subrange(0, 8));
    lemma_le_u64_same_bytes(s, at, u64_le_bytes(x), 0);
}

/// Reads one byte.
pub fn read_u8(buffer: &[u8], offset: usize) -> (value: u8)
    requires
        offset < buffer.len(),
    ensures
        value == buffer@[offset as int],
{
    buffer[offset]
}

/// Reads one flag byte.
pub fn read_flag(buffer: &[u8], offset: usize) -> (flag: bool)
    requires
        offset < buffer.len(),
    ensures
        flag == flag_at(buffer@, offset as int),
{
    buffer[offset] != 0
}

/// Reads a 32-bit little-endian integer.
pub fn read_u32(buffer: &[u8], offset: usize) -> (value: u32)
    requires
        offset + 4 <= buffer.len(),
    ensures
        value == le_u32(buffer@, offset as int),
{
    proof {
        reveal(le_u32);
    }
    let b0: u32 = buffer[offset] as u32;
    let b1: u32 = buffer[offset + 1] as u32;
    let b2: u32 = buffer[offset + 2] as u32;
    let b3: u32 = buffer[offset + 3] as u32;
    b0 + b1 * 0x100 + b2 * 0x1_0000 + b3 * 0x100_0000
}

/// Reads a 64-bit little-endian integer.
pub fn read_u64(buffer: &[u8], offset: usize) -> (value: u64)
    requires
        offset + 8 <= buffer.len(),
    ensures
        value == le_u64(buffer@, offset as int),
{
    proof {
        reveal(le_u64);
    }
    let lo: u64 = read_u32(buffer, offset) as u64;
    let hi: u64 = read_u32(buffer, offset + 4) as u64;
    lo + hi * 0x1_0000_0000
}

/// Appends one byte.
pub fn put_u8(out: &mut Vec<u8>, value: u8)
    ensures
        final(out)@ == old(out)@ + seq![value],
{
    out.push(value);
    assert(out@ =~= old(out)@ + seq![value]);
}

/// Appends a flag as one byte.
pub fn put_flag(out: &mut Vec<u8>, flag: bool)
    ensures
        final(out)@ == old(out)@ + seq![flag_byte(flag)],
{
    put_u8(out, if flag { 1 } else { 0 });
}

/// Appends a 32-bit integer, least significant byte first.
pub fn put_u32(out: &mut Vec<u8>, value: u32)
    ensures
        final(out)@ == old(out)@ + u32_le_bytes(value),
{
    proof {
        reveal(u32_le_bytes);
    }
    out.push((value % 0x100) as u8);
    out.push((value / 0x100 % 0x100) as u8);
    out.push((value / 0x1_0000 % 0x100) as u8);
    out.push((value / 0x100_0000) as u8);
}

/// Appends a 64-bit integer, least significant byte first.
pub fn put_u64(out: &mut Vec<u8>, value: u64)
    ensures
        final(out)@ == old(out)@ + u64_le_bytes(value),
{
    proof {
        reveal(u64_le_bytes);
    }
    put_u32(out, (value % 0x1_0000_0000) as u32);
    put_u32(out, (value / 0x1_0000_0000) as u32);
}

} // verus!
