//! `Safe<T>`: a value that is either `Valid` or still `Uninitialised`.
//!
//! Every register slot and every memory byte is a `Safe` value, so a read of
//! uninitialised state is a first-class runtime error rather than a silent
//! zero. Narrowing and widening conversions preserve the tag.

use vstd::prelude::*;
use crate::bits::{sign_ext_8, sign_ext_16, zero_ext_8, zero_ext_16, trunc_8, trunc_16, u32_of_i32,
    i32_of_u32, extend_sign_8, extend_sign_16, truncate_8, truncate_16, i32_to_u32, u32_to_i32};

verus! {

/// A value that may not have been initialised yet.
#[derive(Clone, Copy, Debug, PartialEq, Eq, Structural)]
pub enum Safe<T> {
    Valid(T),
    Uninitialised,
}

impl<T> Safe<T> {
    /// Wraps an initialised value.
    pub fn valid(value: T) -> (r: Self)
        ensures
            r == Safe::Valid(value),
    {
        Safe::Valid(value)
    }

    /// Projects to the standard optional, by value.
    pub fn into_option(self) -> (r: Option<T>)
        ensures
            self matches Safe::Valid(t) ==> r == Some(t),
            self is Uninitialised ==> r is None,
    {
        match self {
            Self::Valid(t) => Some(t),
            Self::Uninitialised => None,
        }
    }

    /// Projects to the standard optional, by reference.
    pub fn as_option(&self) -> (r: Option<&T>)
        ensures
            self matches Safe::Valid(t) ==> r matches Some(x) && *x == t,
            self is Uninitialised ==> r is None,
    {
        match self {
            Self::Valid(t) => Some(t),
            Self::Uninitialised => None,
        }
    }
}

impl<T> Default for Safe<T> {
    /// The default slot is uninitialised.
    fn default() -> (r: Self)
        ensures
            r is Uninitialised,
    {
        Self::Uninitialised
    }
}

/// Sign extension of a tagged byte: `Valid` contents are extended, the
/// `Uninitialised` tag is forwarded unchanged.
pub open spec fn safe_sign_ext_8(s: Safe<u8>) -> Safe<i32> {
    match s {
        Safe::Valid(b) => Safe::Valid(sign_ext_8(b)),
        Safe::Uninitialised => Safe::Uninitialised,
    }
}

pub open spec fn safe_sign_ext_16(s: Safe<u16>) -> Safe<i32> {
    match s {
        Safe::Valid(h) => Safe::Valid(sign_ext_16(h)),
        Safe::Uninitialised => Safe::Uninitialised,
    }
}

pub open spec fn safe_sign_ext_32(s: Safe<u32>) -> Safe<i32> {
    match s {
        Safe::Valid(w) => Safe::Valid(i32_of_u32(w)),
        Safe::Uninitialised => Safe::Uninitialised,
    }
}

pub open spec fn safe_zero_ext_8(s: Safe<u8>) -> Safe<i32> {
    match s {
        Safe::Valid(b) => Safe::Valid(zero_ext_8(b)),
        Safe::Uninitialised => Safe::Uninitialised,
    }
}

pub open spec fn safe_zero_ext_16(s: Safe<u16>) -> Safe<i32> {
    match s {
        Safe::Valid(h) => Safe::Valid(zero_ext_16(h)),
        Safe::Uninitialised => Safe::Uninitialised,
    }
}

pub open spec fn safe_trunc_8(s: Safe<i32>) -> Safe<u8> {
    match s {
        Safe::Valid(x) => Safe::Valid(trunc_8(x)),
        Safe::Uninitialised => Safe::Uninitialised,
    }
}

pub open spec fn safe_trunc_16(s: Safe<i32>) -> Safe<u16> {
    match s {
        Safe::Valid(x) => Safe::Valid(trunc_16(x)),
        Safe::Uninitialised => Safe::Uninitialised,
    }
}

pub open spec fn safe_trunc_32(s: Safe<i32>) -> Safe<u32> {
    match s {
        Safe::Valid(x) => Safe::Valid(u32_of_i32(x)),
        Safe::Uninitialised => Safe::Uninitialised,
    }
}

impl Safe<u8> {
    /// Sign-extends `Valid` contents; forwards `Uninitialised`.
    pub fn extend_sign(self) -> (r: Safe<i32>)
        ensures
            r == safe_sign_ext_8(self),
    {
        match self {
            Safe::Valid(b) => Safe::Valid(extend_sign_8(b)),
            Safe::Uninitialised => Safe::Uninitialised,
        }
    }

    /// Zero-extends `Valid` contents; forwards `Uninitialised`.
    pub fn extend_zero(self) -> (r: Safe<i32>)
        ensures
            r == safe_zero_ext_8(self),
    {
        match self {
            Safe::Valid(b) => Safe::Valid(b as i32),
            Safe::Uninitialised => Safe::Uninitialised,
        }
    }
}

impl Safe<u16> {
    /// Sign-extends `Valid` contents; forwards `Uninitialised`.
    pub fn extend_sign(self) -> (r: Safe<i32>)
        ensures
            r == safe_sign_ext_16(self),
    {
        match self {
            Safe::Valid(h) => Safe::Valid(extend_sign_16(h)),
            Safe::Uninitialised => Safe::Uninitialised,
        }
    }

    /// Zero-extends `Valid` contents; forwards `Uninitialised`.
    pub fn extend_zero(self) -> (r: Safe<i32>)
        ensures
            r == safe_zero_ext_16(self),
    {
        match self {
            Safe::Valid(h) => Safe::Valid(h as i32),
            Safe::Uninitialised => Safe::Uninitialised,
        }
    }
}

impl Safe<u32> {
    /// Reinterprets `Valid` contents as signed; forwards `Uninitialised`.
    pub fn extend_sign(self) -> (r: Safe<i32>)
        ensures
            r == safe_sign_ext_32(self),
    {
        match self {
            Safe::Valid(w) => Safe::Valid(u32_to_i32(w)),
            Safe::Uninitialised => Safe::Uninitialised,
        }
    }
}

impl Safe<i32> {
    /// Truncates `Valid` contents to the low byte; forwards `Uninitialised`.
    pub fn truncate_byte(self) -> (r: Safe<u8>)
        ensures
            r == safe_trunc_8(self),
    {
        match self {
            Safe::Valid(x) => Safe::Valid(truncate_8(x)),
            Safe::Uninitialised => Safe::Uninitialised,
        }
    }

    /// Truncates `Valid` contents to the low halfword; forwards
    /// `Uninitialised`.
    pub fn truncate_half(self) -> (r: Safe<u16>)
        ensures
            r == safe_trunc_16(self),
    {
        match self {
            Safe::Valid(x) => Safe::Valid(truncate_16(x)),
            Safe::Uninitialised => Safe::Uninitialised,
        }
    }

    /// Reinterprets `Valid` contents as unsigned; forwards `Uninitialised`.
    pub fn truncate_word(self) -> (r: Safe<u32>)
        ensures
            r == safe_trunc_32(self),
    {
        match self {
            Safe::Valid(x) => Safe::Valid(i32_to_u32(x)),
            Safe::Uninitialised => Safe::Uninitialised,
        }
    }
}

/// Truncation to the low 16 bits followed by sign extension back to the
/// full width, as applied to immediates.
pub trait TruncImm {
    spec fn trunc_imm_spec(&self) -> Self where Self: Sized;

    fn trunc_imm(&self) -> (r: Self) where Self: Sized
        ensures
            r == self.trunc_imm_spec(),
    ;
}

impl TruncImm for i32 {
    open spec fn trunc_imm_spec(&self) -> i32 {
        sign_ext_16(trunc_16(*self))
    }

    fn trunc_imm(&self) -> (r: i32) {
        extend_sign_16(truncate_16(*self))
    }
}

impl TruncImm for u32 {
    open spec fn trunc_imm_spec(&self) -> u32 {
        u32_of_i32(sign_ext_16((*self % 0x1_0000) as u16))
    }

    fn trunc_imm(&self) -> (r: u32) {
        i32_to_u32(extend_sign_16((*self % 0x1_0000) as u16))
    }
}

} // verus!
