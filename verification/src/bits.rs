//! Small facts about bit manipulation shared by the whole library.
use vstd::prelude::*;

verus! {

/// The 20-bit address wrap of the WonderSwan's physical address space.
pub open spec fn wrap20(x: int) -> u32 {
    (x % 0x100000) as u32
}

/// Combining a high half-word and a low half-word with a shift and an or is an addition.
pub proof fn lemma_concat16(hi: u32, lo: u32)
    by (bit_vector)
    requires
        hi < 0x10000,
        lo < 0x10000,
    ensures
        (hi << 16u32) | lo == hi * 0x10000 + lo,
{
}

/// Masking the low bits of a 32-bit value is a remainder.
pub proof fn lemma_low_mask32(x: u32)
    by (bit_vector)
    ensures
        x & 0xFFFF == x % 0x10000,
        x & 0xFFFFF == x % 0x100000,
{
}

/// The low nibble of a 32-bit value, and a segment shifted into a physical address.
pub proof fn lemma_u32_fields(x: u32)
    by (bit_vector)
    ensures
        x & 0xF <= 0xF,
        x < 0x10000 ==> x << 4u32 == x * 16,
{
}

/// The fields that masks and shifts cut out of a byte, and their bounds.
pub proof fn lemma_byte_fields(x: u8)
    by (bit_vector)
    ensures
        x & 0x0F < 16,
        x >> 4u8 < 16,
        x & 0x07 < 8,
        (x >> 4u8) & 0x07 < 8,
        (x >> 3u8) & 7 < 8,
        x >> 3u8 < 32,
        x >> 3u8 == x / 8,
        x >> 6u8 <= 3,
        x & 0x1F <= 0x1F,
        x & 0x1F == x % 32,
        x & 0x3F <= 0x3F,
        x & 0x7F < 128,
        x >> 0u8 == x,
        0u8 | x == x,
        x & 0 == 0,
        x < 16 ==> x & 0x0F == x,
        (x & 1 == 0) == (x % 2 == 0),
        (x >> 7u8 != 0) == (x >= 0x80),
{
}

/// The fields that masks and shifts cut out of a word, and their bounds.
pub proof fn lemma_word_fields(w: u16)
    by (bit_vector)
    ensures
        w & 0xFF == w % 256,
        w >> 0u16 == w,
        w >> 8u16 == w / 256,
        (w & 0x01FF) | ((w & 0x2000) >> 4u16) < 0x400,
        w & 0x01FF < 0x200,
        (w >> 9u16) & 0x0F < 16,
        (w >> 9u16) & 0x07 < 8,
        w >> 12u16 < 16,
        (w >> 8u16) & 0x0F < 16,
        (w >> 8u16) & 0x07 < 8,
        w & 0x7FF <= 0x7FF,
        w <= 0x7FF ==> w & 0x7FF == w,
        w & 0x3E00 <= w,
        w & 0x0F <= 15,
        w & 3 <= 3,
        w & 1023 <= 1023,
        w & 63 <= 63,
        w < 0x100 ==> w & 0x0100 == 0,
        w < 0x100 ==> w | 0xFF00 == w + 0xFF00,
{
}

/// Bounds of the low bits of a word shifted right by any amount.
pub proof fn lemma_word_shift(w: u16, s: u16)
    by (bit_vector)
    ensures
        (w >> s) & 0x0F < 16,
        (w >> s) & 3 <= 3,
        (w >> s) & 1 <= 1,
{
}

/// Bounds of the low bits of a byte shifted right by any amount.
pub proof fn lemma_byte_shift(b: u8, s: u8)
    by (bit_vector)
    ensures
        (b >> s) & 0x0F < 16,
        (b >> s) & 1 <= 1,
{
}

/// Little-endian composition of two bytes.
pub open spec fn word(lo: u8, hi: u8) -> u16 {
    (lo + hi * 256) as u16
}

/// Builds a little-endian word from two bytes.
pub fn u16_from_le(lo: u8, hi: u8) -> (r: u16)
    ensures
        r == word(lo, hi),
{
    let l = lo as u16;
    let h = hi as u16;
    assert((l | (h << 8u16)) == l + h * 256) by (bit_vector)
        requires l < 256, h < 256;
    l | (h << 8u16)
}

/// The low half-word of a 32-bit value.
pub fn low16(x: u32) -> (r: u16)
    ensures
        r == x % 0x10000,
{
    proof {
        lemma_low_mask32(x);
    }
    (x & 0xFFFF) as u16
}

/// Low byte of a word.
pub open spec fn lo8(w: u16) -> u8 {
    (w % 256) as u8
}

/// High byte of a word.
pub open spec fn hi8(w: u16) -> u8 {
    (w / 256) as u8
}

/// Splits a word into its little-endian bytes.
pub fn u16_to_le(w: u16) -> (r: (u8, u8))
    ensures
        r.0 == lo8(w),
        r.1 == hi8(w),
        word(r.0, r.1) == w,
{
    proof {
        lemma_word_fields(w);
    }
    ((w & 0xFF) as u8, (w >> 8u16) as u8)
}

} // verus!
