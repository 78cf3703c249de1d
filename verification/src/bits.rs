//! Width conversions between the fixed-width integers the engine works with:
//! reinterpretation between signed and unsigned, narrow-width sign and zero
//! extension, truncation, and little-endian byte assembly.
//!
//! Everything is stated and implemented with plain arithmetic so that the
//! contracts pin exact values without appealing to bitwise operators.

use vstd::prelude::*;

verus! {

/// Two's-complement reinterpretation of an `i32` as a `u32`.
pub open spec fn u32_of_i32(x: i32) -> u32 {
    if x >= 0 {
        x as u32
    } else {
        (x + 0x1_0000_0000) as u32
    }
}

/// Two's-complement reinterpretation of a `u32` as an `i32`.
pub open spec fn i32_of_u32(x: u32) -> i32 {
    if x < 0x8000_0000 {
        x as i32
    } else {
        (x - 0x1_0000_0000) as i32
    }
}

/// Sign extension of a byte to a 32-bit signed value.
pub open spec fn sign_ext_8(b: u8) -> i32 {
    if b < 0x80 {
        b as i32
    } else {
        (b - 0x100) as i32
    }
}

/// Sign extension of a halfword to a 32-bit signed value.
pub open spec fn sign_ext_16(h: u16) -> i32 {
    if h < 0x8000 {
        h as i32
    } else {
        (h - 0x1_0000) as i32
    }
}

/// Two's-complement reinterpretation of a halfword as a signed halfword.
pub open spec fn i16_of_u16(h: u16) -> i16 {
    if h < 0x8000 {
        h as i16
    } else {
        (h - 0x1_0000) as i16
    }
}

/// Zero extension of a byte to a 32-bit signed value.
pub open spec fn zero_ext_8(b: u8) -> i32 {
    b as i32
}

/// Zero extension of a halfword to a 32-bit signed value.
pub open spec fn zero_ext_16(h: u16) -> i32 {
    h as i32
}

/// The low byte of a 32-bit signed value.
pub open spec fn trunc_8(x: i32) -> u8 {
    (u32_of_i32(x) % 0x100) as u8
}

/// The low halfword of a 32-bit signed value.
pub open spec fn trunc_16(x: i32) -> u16 {
    (u32_of_i32(x) % 0x1_0000) as u16
}

/// Little-endian halfword assembly: the byte at the lower address is the low
/// byte.
pub open spec fn half_from_bytes(b0: u8, b1: u8) -> u16 {
    (b0 + b1 * 0x100) as u16
}

/// Little-endian word assembly: `b0` sits at the lowest address.
pub open spec fn word_from_bytes(b0: u8, b1: u8, b2: u8, b3: u8) -> u32 {
    (b0 + b1 * 0x100 + b2 * 0x1_0000 + b3 * 0x100_0000) as u32
}

pub open spec fn half_lo(h: u16) -> u8 {
    (h % 0x100) as u8
}

pub open spec fn half_hi(h: u16) -> u8 {
    (h / 0x100) as u8
}

pub open spec fn word_b0(w: u32) -> u8 {
    (w % 0x100) as u8
}

pub open spec fn word_b1(w: u32) -> u8 {
    ((w / 0x100) % 0x100) as u8
}

pub open spec fn word_b2(w: u32) -> u8 {
    ((w / 0x1_0000) % 0x100) as u8
}

pub open spec fn word_b3(w: u32) -> u8 {
    (w / 0x100_0000) as u8
}

/// Splitting a halfword into bytes and reassembling them is the identity.
pub proof fn lemma_half_round_trip(h: u16)
    ensures
        half_from_bytes(half_lo(h), half_hi(h)) == h,
{
}

/// Splitting a word into bytes and reassembling them is the identity.
pub proof fn lemma_word_round_trip(w: u32)
    ensures
        word_from_bytes(word_b0(w), word_b1(w), word_b2(w), word_b3(w)) == w,
{
    assert(word_b0(w) + word_b1(w) * 0x100 + word_b2(w) * 0x1_0000 + word_b3(w) * 0x100_0000
        == w) by {
        assert(w % 0x100 + ((w / 0x100) % 0x100) * 0x100 + ((w / 0x1_0000) % 0x100) * 0x1_0000 + (w
            / 0x100_0000) * 0x100_0000 == w) by (nonlinear_arith);
    };
}

/// Reassembled bytes decompose back into the same bytes.
pub proof fn lemma_word_bytes_inverse(b0: u8, b1: u8, b2: u8, b3: u8)
    ensures
        word_b0(word_from_bytes(b0, b1, b2, b3)) == b0,
        word_b1(word_from_bytes(b0, b1, b2, b3)) == b1,
        word_b2(word_from_bytes(b0, b1, b2, b3)) == b2,
        word_b3(word_from_bytes(b0, b1, b2, b3)) == b3,
{
    let w = word_from_bytes(b0, b1, b2, b3);
    assert(w % 0x100 == b0 && (w / 0x100) % 0x100 == b1 && (w / 0x1_0000) % 0x100 == b2 && w
        / 0x100_0000 == b3) by (nonlinear_arith)
        requires
            w == b0 + b1 * 0x100 + b2 * 0x1_0000 + b3 * 0x100_0000,
    ;
}

/// Reinterprets a signed word as unsigned, preserving the bit pattern.
pub fn i32_to_u32(x: i32) -> (r: u32)
    ensures
        r == u32_of_i32(x),
{
    if x >= 0 {
        x as u32
    } else {
        ((x as i64) + 0x1_0000_0000) as u32
    }
}

/// Reinterprets an unsigned word as signed, preserving the bit pattern.
pub fn u32_to_i32(x: u32) -> (r: i32)
    ensures
        r == i32_of_u32(x),
{
    if x < 0x8000_0000 {
        x as i32
    } else {
        ((x as i64) - 0x1_0000_0000) as i32
    }
}

/// Sign-extends a byte.
pub fn extend_sign_8(b: u8) -> (r: i32)
    ensures
        r == sign_ext_8(b),
{
    if b < 0x80 {
        b as i32
    } else {
        (b as i32) - 0x100
    }
}

/// Sign-extends a halfword.
pub fn extend_sign_16(h: u16) -> (r: i32)
    ensures
        r == sign_ext_16(h),
{
    if h < 0x8000 {
        h as i32
    } else {
        (h as i32) - 0x1_0000
    }
}

/// Reinterprets a halfword as a signed halfword, preserving the bit pattern.
pub fn u16_to_i16(h: u16) -> (r: i16)
    ensures
        r == i16_of_u16(h),
        r as int == sign_ext_16(h),
{
    if h < 0x8000 {
        h as i16
    } else {
        ((h as i32) - 0x1_0000) as i16
    }
}

/// Truncates a signed word to its low byte.
pub fn truncate_8(x: i32) -> (r: u8)
    ensures
        r == trunc_8(x),
{
    (i32_to_u32(x) % 0x100) as u8
}

/// Truncates a signed word to its low halfword.
pub fn truncate_16(x: i32) -> (r: u16)
    ensures
        r == trunc_16(x),
{
    (i32_to_u32(x) % 0x1_0000) as u16
}

/// Assembles a halfword from its little-endian bytes.
pub fn half_of_bytes(b0: u8, b1: u8) -> (r: u16)
    ensures
        r == half_from_bytes(b0, b1),
{
    (b0 as u16) + (b1 as u16) * 0x100
}

/// Assembles a word from its little-endian bytes.
pub fn word_of_bytes(b0: u8, b1: u8, b2: u8, b3: u8) -> (r: u32)
    ensures
        r == word_from_bytes(b0, b1, b2, b3),
{
    (b0 as u32) + (b1 as u32) * 0x100 + (b2 as u32) * 0x1_0000 + (b3 as u32) * 0x100_0000
}

/// Splits a halfword into its little-endian bytes.
pub fn bytes_of_half(h: u16) -> (r: (u8, u8))
    ensures
        r.0 == half_lo(h),
        r.1 == half_hi(h),
{
    ((h % 0x100) as u8, (h / 0x100) as u8)
}

/// Splits a word into its little-endian bytes.
pub fn bytes_of_word(w: u32) -> (r: (u8, u8, u8, u8))
    ensures
        r.0 == word_b0(w),
        r.1 == word_b1(w),
        r.2 == word_b2(w),
        r.3 == word_b3(w),
{
    (
        (w % 0x100) as u8,
        ((w / 0x100) % 0x100) as u8,
        ((w / 0x1_0000) % 0x100) as u8,
        (w / 0x100_0000) as u8,
    )
}

} // verus!
