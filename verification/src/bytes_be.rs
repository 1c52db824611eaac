//! Big-endian byte-level encodings shared by the record encoder and decoder.
//!
//! The wire protocol stores every 4-byte quantity big-endian.  Field lengths
//! are signed 32-bit values; a length with the sign bit set stands for NULL.

use vstd::prelude::*;

verus! {

/// The four big-endian bytes of a 32-bit value.
pub open spec fn spec_be32(x: u32) -> Seq<u8> {
    seq![
        ((x >> 24) & 0xff) as u8,
        ((x >> 16) & 0xff) as u8,
        ((x >> 8) & 0xff) as u8,
        (x & 0xff) as u8,
    ]
}

/// The 32-bit value read big-endian from four bytes.
pub open spec fn spec_u32_from_be(s: Seq<u8>) -> u32
    recommends
        s.len() == 4,
{
    ((s[0] as u32) << 24 | (s[1] as u32) << 16 | (s[2] as u32) << 8 | (s[3] as u32)) as u32
}

pub proof fn lemma_be32_round_trip(x: u32)
    ensures
        spec_be32(x).len() == 4,
        spec_u32_from_be(spec_be32(x)) == x,
{
    assert(((((x >> 24) & 0xff) as u8) as u32) << 24 | ((((x >> 16) & 0xff) as u8) as u32) << 16
        | ((((x >> 8) & 0xff) as u8) as u32) << 8 | (((x & 0xff) as u8) as u32) == x)
        by (bit_vector);
}

/// The two's-complement reading of a 32-bit word as a signed value, as an
/// unbounded integer.  A word at or above 0x8000_0000 is negative.
pub open spec fn spec_i32_of_word(x: u32) -> int {
    if x < 0x8000_0000 {
        x as int
    } else {
        x - 0x1_0000_0000
    }
}

/// The 32-bit word whose two's-complement reading is the given signed value.
pub open spec fn spec_word_of_i32(x: i32) -> u32 {
    if x >= 0 {
        x as u32
    } else {
        (x + 0x1_0000_0000) as u32
    }
}

pub proof fn lemma_word_i32_round_trip(x: i32)
    ensures
        spec_i32_of_word(spec_word_of_i32(x)) == x as int,
{
}

/// The 32-bit word that carries `x` on the wire.
pub fn word_of_i32(x: i32) -> (r: u32)
    ensures
        r == spec_word_of_i32(x),
{
    if x >= 0 {
        x as u32
    } else {
        ((x as i64) + 0x1_0000_0000i64) as u32
    }
}

/// The signed value a 32-bit wire word carries.
pub fn i32_of_word(u: u32) -> (r: i32)
    ensures
        r as int == spec_i32_of_word(u),
{
    if u < 0x8000_0000 {
        u as i32
    } else {
        ((u as i64) - 0x1_0000_0000i64) as i32
    }
}

/// Appends the four big-endian bytes of `x` to `out`.
pub fn push_be_u32(out: &mut Vec<u8>, x: u32)
    ensures
        final(out)@ == old(out)@ + spec_be32(x),
{
    assert((x >> 24) & 0xff < 256 && (x >> 16) & 0xff < 256 && (x >> 8) & 0xff < 256 && x & 0xff
        < 256) by (bit_vector);
    out.push(((x >> 24) & 0xff) as u8);
    out.push(((x >> 16) & 0xff) as u8);
    out.push(((x >> 8) & 0xff) as u8);
    out.push((x & 0xff) as u8);
    assert(out@ =~= old(out)@ + spec_be32(x));
}

/// Reads a 32-bit value big-endian from `buf` at `pos`.
pub fn read_be_u32(buf: &Vec<u8>, pos: usize) -> (r: u32)
    requires
        pos + 4 <= buf@.len(),
    ensures
        r == spec_u32_from_be(buf@.subrange(pos as int, pos + 4)),
{
    let n = buf.len();
    assert(pos + 4 <= n);
    let b0 = buf[pos];
    let b1 = buf[pos + 1];
    let b2 = buf[pos + 2];
    let b3 = buf[pos + 3];
    let s = Ghost(buf@.subrange(pos as int, pos + 4));
    assert(b0 == s@[0] && b1 == s@[1] && b2 == s@[2] && b3 == s@[3]);
    (b0 as u32) << 24 | (b1 as u32) << 16 | (b2 as u32) << 8 | (b3 as u32)
}

/// Overwrites exactly the four bytes of `out` at `pos` with the big-endian
/// bytes of `x`, leaving every other byte in place.
pub fn patch_be_u32(out: &mut Vec<u8>, pos: usize, x: u32)
    requires
        pos + 4 <= old(out)@.len(),
    ensures
        final(out)@ == old(out)@.subrange(0, pos as int) + spec_be32(x) + old(out)@.subrange(
            pos + 4,
            old(out)@.len() as int,
        ),
        final(out)@.len() == old(out)@.len(),
{
    let n = out.len();
    assert(pos + 4 <= n);
    assert((x >> 24) & 0xff < 256 && (x >> 16) & 0xff < 256 && (x >> 8) & 0xff < 256 && x & 0xff
        < 256) by (bit_vector);
    out.set(pos, ((x >> 24) & 0xff) as u8);
    out.set(pos + 1, ((x >> 16) & 0xff) as u8);
    out.set(pos + 2, ((x >> 8) & 0xff) as u8);
    out.set(pos + 3, (x & 0xff) as u8);
    assert(out@ =~= old(out)@.subrange(0, pos as int) + spec_be32(x) + old(out)@.subrange(
        pos + 4,
        old(out)@.len() as int,
    ));
}

/// Copies the bytes of `buf` between `i` and `j` into a fresh vector.
pub fn copy_range(buf: &Vec<u8>, i: usize, j: usize) -> (r: Vec<u8>)
    requires
        i <= j <= buf@.len(),
    ensures
        r@ == buf@.subrange(i as int, j as int),
{
    let mut r: Vec<u8> = Vec::new();
    let mut k: usize = i;
    while k < j
        invariant
            i <= k <= j <= buf@.len(),
            r@ == buf@.subrange(i as int, k as int),
        decreases j - k,
    {
        r.push(buf[k]);
        k = k + 1;
        assert(r@ =~= buf@.subrange(i as int, k as int));
    }
    r
}

} // verus!
