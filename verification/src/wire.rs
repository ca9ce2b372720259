//! Little-endian integers on the wire.

use vstd::prelude::*;

verus! {

/// The two bytes of `x`, least significant first.
pub open spec fn u16_le(x: u16) -> Seq<u8> {
    seq![(x % 256) as u8, (x / 256) as u8]
}

/// The four bytes of `x`, least significant first.
pub open spec fn u32_le(x: u32) -> Seq<u8> {
    seq![
        (x % 256) as u8,
        ((x / 256) % 256) as u8,
        ((x / 65536) % 256) as u8,
        (x / 16777216) as u8,
    ]
}

/// The integer whose little-endian bytes are `s[at]`, `s[at + 1]`.
pub open spec fn u16_at(s: Seq<u8>, at: int) -> u16 {
    (s[at] + 256 * s[at + 1]) as u16
}

/// The integer whose little-endian bytes are `s[at]` to `s[at + 3]`.
pub open spec fn u32_at(s: Seq<u8>, at: int) -> u32 {
    (s[at] + 256 * s[at + 1] + 65536 * s[at + 2] + 16777216 * s[at + 3]) as u32
}

/// Reading back what `u16_le` wrote gives the same integer.
pub proof fn lemma_u16_round_trip(x: u16)
    ensures
        u16_at(u16_le(x), 0) == x,
{
}

/// Reading back what `u32_le` wrote gives the same integer.
pub proof fn lemma_u32_round_trip(x: u32)
    ensures
        u32_at(u32_le(x), 0) == x,
{
}

/// Appends the little-endian bytes of `x` to `out`.
pub fn push_u16_le(out: &mut Vec<u8>, x: u16)
    ensures
        final(out)@ == old(out)@ + u16_le(x),
{
    let lo: u8 = (x % 256) as u8;
    let hi: u8 = (x / 256) as u8;
    out.push(lo);
    out.push(hi);
    assert(out@ =~= old(out)@ + u16_le(x));
}

/// Appends the little-endian bytes of `x` to `out`.
pub fn push_u32_le(out: &mut Vec<u8>, x: u32)
    ensures
        final(out)@ == old(out)@ + u32_le(x),
{
    let b0: u8 = (x % 256) as u8;
    let b1: u8 = ((x / 256) % 256) as u8;
    let b2: u8 = ((x / 65536) % 256) as u8;
    let b3: u8 = (x / 16777216) as u8;
    out.push(b0);
    out.push(b1);
    out.push(b2);
    out.push(b3);
    assert(out@ =~= old(out)@ + u32_le(x));
}

/// Reads the little-endian `u16` that starts at `at`.
pub fn read_u16_le(bytes: &[u8], at: usize) -> (x: u16)
    requires
        at + 2 <= bytes@.len(),
    ensures
        x == u16_at(bytes@, at as int),
{
    bytes[at] as u16 + 256 * (bytes[at + 1] as u16)
}

/// Reads the little-endian `u32` that starts at `at`.
pub fn read_u32_le(bytes: &[u8], at: usize) -> (x: u32)
    requires
        at + 4 <= bytes@.len(),
    ensures
        x == u32_at(bytes@, at as int),
{
    bytes[at] as u32 + 256 * (bytes[at + 1] as u32) + 65536 * (bytes[at + 2] as u32) + 16777216 * (
    bytes[at + 3] as u32)
}

/// Writing out what was read gives the same two bytes.
pub proof fn lemma_u16_bytes(s: Seq<u8>, at: int)
    requires
        0 <= at,
        at + 2 <= s.len(),
    ensures
        u16_le(u16_at(s, at)) == s.subrange(at, at + 2),
{
    assert(u16_le(u16_at(s, at)) =~= s.subrange(at, at + 2));
}

/// Writing out what was read gives the same four bytes.
pub proof fn lemma_u32_bytes(s: Seq<u8>, at: int)
    requires
        0 <= at,
        at + 4 <= s.len(),
    ensures
        u32_le(u32_at(s, at)) == s.subrange(at, at + 4),
{
    assert(u32_le(u32_at(s, at)) =~= s.subrange(at, at + 4));
}

/// Appends `bytes` to `out`.
pub fn push_bytes(out: &mut Vec<u8>, bytes: &[u8])
    ensures
        final(out)@ == old(out)@ + bytes@,
{
    let mut i: usize = 0;
    while i < bytes.len()
        invariant
            i <= bytes@.len(),
            out@ == old(out)@ + bytes@.subrange(0, i as int),
        decreases bytes@.len() - i,
    {
        out.push(bytes[i]);
        i += 1;
        assert(out@ =~= old(out)@ + bytes@.subrange(0, i as int));
    }
    assert(bytes@.subrange(0, i as int) =~= bytes@);
}

/// The six bytes of `bytes` from `at` on.
pub fn read_array_6(bytes: &[u8], at: usize) -> (a: [u8; 6])
    requires
        at + 6 <= bytes.len(),
    ensures
        a@ == bytes@.subrange(at as int, at + 6),
{
    let a: [u8; 6] = [
        bytes[at],
        bytes[at + 1],
        bytes[at + 2],
        bytes[at + 3],
        bytes[at + 4],
        bytes[at + 5],
    ];
    assert(a@ =~= bytes@.subrange(at as int, at + 6));
    a
}

/// The seven bytes of `bytes` from `at` on.
pub fn read_array_7(bytes: &[u8], at: usize) -> (a: [u8; 7])
    requires
        at + 7 <= bytes.len(),
    ensures
        a@ == bytes@.subrange(at as int, at + 7),
{
    let a: [u8; 7] = [
        bytes[at],
        bytes[at + 1],
        bytes[at + 2],
        bytes[at + 3],
        bytes[at + 4],
        bytes[at + 5],
        bytes[at + 6],
    ];
    assert(a@ =~= bytes@.subrange(at as int, at + 7));
    a
}

/// The ten bytes of `bytes` from `at` on.
pub fn read_array_10(bytes: &[u8], at: usize) -> (a: [u8; 10])
    requires
        at + 10 <= bytes.len(),
    ensures
        a@ == bytes@.subrange(at as int, at + 10),
{
    let a: [u8; 10] = [
        bytes[at],
        bytes[at + 1],
        bytes[at + 2],
        bytes[at + 3],
        bytes[at + 4],
        bytes[at + 5],
        bytes[at + 6],
        bytes[at + 7],
        bytes[at + 8],
        bytes[at + 9],
    ];
    assert(a@ =~= bytes@.subrange(at as int, at + 10));
    a
}

/// The flag that byte `b` stands for, if any: 0 is false and 1 is true.
pub open spec fn flag_of(b: u8) -> Option<bool> {
    if b == 0 {
        Some(false)
    } else if b == 1 {
        Some(true)
    } else {
        None
    }
}

/// The byte that stands for a flag.
pub open spec fn flag_byte(flag: bool) -> u8 {
    if flag {
        1
    } else {
        0
    }
}

/// Reads a flag that takes a whole byte.
pub fn read_flag(b: u8) -> (r: Result<bool, crate::error::DecodeError>)
    ensures
        r == match flag_of(b) {
            Some(flag) => Ok::<bool, crate::error::DecodeError>(flag),
            None => Err(crate::error::DecodeError::InvalidFlag),
        },
{
    if b == 0 {
        Ok(false)
    } else if b == 1 {
        Ok(true)
    } else {
        Err(crate::error::DecodeError::InvalidFlag)
    }
}

} // verus!
