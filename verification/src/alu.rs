//! Arithmetic building blocks of the execution engine: checked and wrapping
//! 32-bit arithmetic, shifts and rotates, leading-bit counts, the 64-bit
//! multiply and accumulate family and truncating signed division, each with
//! an exact contract.

use vstd::prelude::*;
use vstd::arithmetic::power2::{pow2, lemma_pow2_unfold, lemma_pow2_strictly_increases,
    lemma2_to64};
use crate::bits::{u32_of_i32, i32_of_u32, i32_to_u32, u32_to_i32};
use crate::error::{Error, RushError, RushResult, make_err, rt_err};

verus! {

/// Signed addition, failing with `IntegerOverflow` where the mathematical
/// sum leaves the 32-bit signed range.
pub fn checked_add(x: i32, y: i32) -> (r: RushResult<i32>)
    ensures
        i32::MIN <= x + y <= i32::MAX ==> r == RushResult::<i32>::Ok((x + y) as i32),
        !(i32::MIN <= x + y <= i32::MAX) ==> r == RushResult::<i32>::Err(
            rt_err(Error::IntegerOverflow),
        ),
{
    match x.checked_add(y) {
        Some(z) => Ok(z),
        None => Err(make_err(Error::IntegerOverflow)),
    }
}

/// Signed subtraction, failing with `IntegerOverflow` where the mathematical
/// difference leaves the 32-bit signed range.
pub fn checked_sub(x: i32, y: i32) -> (r: RushResult<i32>)
    ensures
        i32::MIN <= x - y <= i32::MAX ==> r == RushResult::<i32>::Ok((x - y) as i32),
        !(i32::MIN <= x - y <= i32::MAX) ==> r == RushResult::<i32>::Err(
            rt_err(Error::IntegerOverflow),
        ),
{
    match x.checked_sub(y) {
        Some(z) => Ok(z),
        None => Err(make_err(Error::IntegerOverflow)),
    }
}

/// Logical left shift of a register value by `sh < 32` bits.
pub open spec fn sll_spec(v: i32, sh: u32) -> i32 {
    i32_of_u32(u32_of_i32(v) << sh)
}

pub fn shift_left(v: i32, sh: u32) -> (r: i32)
    requires
        sh < 32,
    ensures
        r == sll_spec(v, sh),
{
    u32_to_i32(i32_to_u32(v) << sh)
}

/// Logical right shift of a register value by `sh < 32` bits.
pub open spec fn srl_spec(v: i32, sh: u32) -> i32 {
    i32_of_u32(u32_of_i32(v) >> sh)
}

pub fn shift_right_logical(v: i32, sh: u32) -> (r: i32)
    requires
        sh < 32,
    ensures
        r == srl_spec(v, sh),
{
    u32_to_i32(i32_to_u32(v) >> sh)
}

/// Arithmetic right shift of a register value by `sh < 32` bits.
pub open spec fn sra_spec(v: i32, sh: u32) -> i32 {
    v >> sh
}

pub fn shift_right_arithmetic(v: i32, sh: u32) -> (r: i32)
    requires
        sh < 32,
    ensures
        r == sra_spec(v, sh),
{
    v >> sh
}

/// Right rotation of a register value by `sh < 32` bits.
pub open spec fn rotr_spec(v: i32, sh: u32) -> i32 {
    if sh == 0 {
        v
    } else {
        i32_of_u32((u32_of_i32(v) >> sh) | (u32_of_i32(v) << (32 - sh) as u32))
    }
}

pub fn rotate_right(v: i32, sh: u32) -> (r: i32)
    requires
        sh < 32,
    ensures
        r == rotr_spec(v, sh),
{
    if sh == 0 {
        v
    } else {
        let u = i32_to_u32(v);
        u32_to_i32((u >> sh) | (u << (32 - sh)))
    }
}

/// The count of leading zero bits of the low `w` bits of `x`, for `x <
/// 2^w`.
pub open spec fn clz_rec(x: u32, w: nat) -> u32
    decreases w,
{
    if w == 0 {
        0
    } else if x >= pow2((w - 1) as nat) {
        0
    } else {
        (1 + clz_rec(x, (w - 1) as nat)) as u32
    }
}

/// The count of leading zero bits of a 32-bit value.
pub open spec fn clz_spec(x: u32) -> u32 {
    clz_rec(x, 32)
}

/// The bitwise complement of a 32-bit value.
pub open spec fn complement32(x: u32) -> u32 {
    (0xFFFF_FFFFu32 - x) as u32
}

/// The count of leading one bits of a 32-bit value.
pub open spec fn clo_spec(x: u32) -> u32 {
    clz_spec(complement32(x))
}

proof fn lemma_clz_rec_stops(x: u32, w: nat)
    requires
        w == 0 || x >= pow2((w - 1) as nat),
    ensures
        clz_rec(x, w) == 0,
{
}

proof fn lemma_clz_rec_bound(x: u32, w: nat)
    ensures
        clz_rec(x, w) <= w,
    decreases w,
{
    if w > 0 && x < pow2((w - 1) as nat) {
        lemma_clz_rec_bound(x, (w - 1) as nat);
    }
}

proof fn lemma_clz_rec_prefix(x: u32, w: nat, v: nat)
    requires
        w <= v <= 32,
        x < pow2(w),
    ensures
        clz_rec(x, v) == (v - w) + clz_rec(x, w),
    decreases v,
{
    if v > w {
        if w < v - 1 {
            lemma_pow2_strictly_increases(w, (v - 1) as nat);
        }
        lemma_clz_rec_bound(x, (v - 1) as nat);
        lemma_clz_rec_prefix(x, w, (v - 1) as nat);
    }
}

/// Counts the leading zero bits of a 32-bit value.
pub fn count_leading_zeros(x: u32) -> (r: u32)
    ensures
        r == clz_spec(x),
{
    let mut w: u32 = 32;
    let mut p: u32 = 0x8000_0000;
    proof {
        lemma2_to64();
    }
    while w > 0 && x < p
        invariant
            w <= 32,
            x < pow2(w as nat),
            w > 0 ==> p == pow2((w - 1) as nat),
        decreases w,
    {
        proof {
            lemma_pow2_unfold(w as nat);
            if w >= 2 {
                lemma_pow2_unfold((w - 1) as nat);
            }
            lemma2_to64();
        }
        w = w - 1;
        p = p / 2;
    }
    proof {
        lemma_clz_rec_stops(x, w as nat);
        lemma_clz_rec_prefix(x, w as nat, 32);
    }
    32 - w
}

/// Counts the leading one bits of a 32-bit value.
pub fn count_leading_ones(x: u32) -> (r: u32)
    ensures
        r == clo_spec(x),
{
    count_leading_zeros(0xFFFF_FFFF - x)
}

/// The unsigned magnitude of a signed 32-bit value.
pub open spec fn abs_spec(x: i32) -> u32 {
    if x >= 0 {
        x as u32
    } else {
        (-(x as int)) as u32
    }
}

pub fn abs_u32(x: i32) -> (r: u32)
    ensures
        r == abs_spec(x),
{
    if x >= 0 {
        x as u32
    } else {
        (-(x as i64)) as u32
    }
}

/// Two's-complement reinterpretation of a signed 64-bit value, defined for
/// magnitudes below 2^63.
pub open spec fn u64_of_int(p: int) -> u64 {
    if p >= 0 {
        p as u64
    } else {
        (p + 0x1_0000_0000_0000_0000) as u64
    }
}

/// The 64-bit value held by HI:LO.
pub open spec fn hilo_u64(hi: i32, lo: i32) -> u64 {
    (u32_of_i32(hi) * 0x1_0000_0000 + u32_of_i32(lo)) as u64
}

/// The high word of a 64-bit value, as a register value.
pub open spec fn hi_of_u64(p: u64) -> i32 {
    i32_of_u32((p / 0x1_0000_0000) as u32)
}

/// The low word of a 64-bit value, as a register value.
pub open spec fn lo_of_u64(p: u64) -> i32 {
    i32_of_u32((p % 0x1_0000_0000) as u32)
}

/// The signed 64-bit product of two register values, as a bit pattern.
pub open spec fn prod_signed(a: i32, b: i32) -> u64 {
    u64_of_int(a * b)
}

/// The unsigned 64-bit product of two register values.
pub open spec fn prod_unsigned(a: i32, b: i32) -> u64 {
    (u32_of_i32(a) * u32_of_i32(b)) as u64
}

/// Computes the signed 64-bit product of two register values.
pub fn mult_signed(a: i32, b: i32) -> (r: u64)
    ensures
        r == prod_signed(a, b),
{
    proof {
        assert(-0x4000_0000_0000_0000 <= (a as int) * (b as int) <= 0x4000_0000_0000_0000)
            by (nonlinear_arith)
            requires
                -0x8000_0000 <= a <= 0x7FFF_FFFF,
                -0x8000_0000 <= b <= 0x7FFF_FFFF,
        ;
    }
    let p: i64 = (a as i64) * (b as i64);
    if p >= 0 {
        p as u64
    } else {
        ((p as i128) + 0x1_0000_0000_0000_0000) as u64
    }
}

/// Computes the unsigned 64-bit product of two register values.
pub fn mult_unsigned(a: i32, b: i32) -> (r: u64)
    ensures
        r == prod_unsigned(a, b),
{
    let au = i32_to_u32(a);
    let bu = i32_to_u32(b);
    proof {
        assert((au as int) * (bu as int) <= 0xFFFF_FFFF * 0xFFFF_FFFF) by (nonlinear_arith)
            requires
                au <= 0xFFFF_FFFFu32,
                bu <= 0xFFFF_FFFFu32,
        ;
    }
    (au as u64) * (bu as u64)
}

/// Splits a 64-bit value into the HI and LO register values.
pub fn split_u64(p: u64) -> (r: (i32, i32))
    ensures
        r.0 == hi_of_u64(p),
        r.1 == lo_of_u64(p),
{
    (u32_to_i32((p / 0x1_0000_0000) as u32), u32_to_i32((p % 0x1_0000_0000) as u32))
}

/// Reads HI:LO as one 64-bit value.
pub fn join_hilo(hi: i32, lo: i32) -> (r: u64)
    ensures
        r == hilo_u64(hi, lo),
{
    (i32_to_u32(hi) as u64) * 0x1_0000_0000 + (i32_to_u32(lo) as u64)
}

/// Truncating (round toward zero) division of two signed values, the MIPS
/// DIV quotient.
pub open spec fn tdiv(a: int, b: int) -> int {
    let q = abs_int(a) / abs_int(b);
    if (a < 0) == (b < 0) {
        q
    } else {
        -q
    }
}

/// The remainder matching `tdiv`: its sign follows the dividend.
pub open spec fn trem(a: int, b: int) -> int {
    a - b * tdiv(a, b)
}

pub open spec fn abs_int(x: int) -> int {
    if x >= 0 {
        x
    } else {
        -x
    }
}

/// Truncating signed division with two's-complement wraparound of the one
/// overflowing quotient.
pub fn div_signed(a: i32, b: i32) -> (r: (i32, i32))
    requires
        b != 0,
    ensures
        r.0 == vstd::wrapping::i32_specs::signed_crop(tdiv(a as int, b as int)),
        r.1 == trem(a as int, b as int),
{
    let au = abs_u32(a);
    let bu = abs_u32(b);
    let qu: u32 = au / bu;
    let ru: u32 = au % bu;
    proof {
        assert(au == bu * qu + ru && ru < bu && qu <= au) by (nonlinear_arith)
            requires
                bu > 0,
                qu == au / bu,
                ru == au % bu,
        ;
    }
    let q: i32 = if (a < 0) != (b < 0) {
        u32_to_i32(0u32.wrapping_sub(qu))
    } else {
        u32_to_i32(qu)
    };
    let rem: i32 = if a < 0 {
        proof {
            assert(ru <= 0x7FFF_FFFF);
        }
        -(ru as i32)
    } else {
        ru as i32
    };
    proof {
        let ai = a as int;
        let bi = b as int;
        assert(qu == abs_int(ai) / abs_int(bi));
        assert(ru == abs_int(ai) % abs_int(bi));
        assert(abs_int(ai) == abs_int(bi) * (abs_int(ai) / abs_int(bi)) + abs_int(ai) % abs_int(
            bi,
        )) by (nonlinear_arith)
            requires
                abs_int(bi) > 0,
        ;
        assert(rem == trem(ai, bi)) by (nonlinear_arith)
            requires
                abs_int(ai) == abs_int(bi) * qu + ru,
                ru < abs_int(bi),
                qu >= 0,
                ru >= 0,
                abs_int(ai) == if ai >= 0 { ai } else { -ai },
                abs_int(bi) == if bi >= 0 { bi } else { -bi },
                bi != 0,
                tdiv(ai, bi) == if (ai < 0) == (bi < 0) { qu as int } else { -(qu as int) },
                trem(ai, bi) == ai - bi * tdiv(ai, bi),
                rem == if ai < 0 { -(ru as int) } else { ru as int },
        ;
    }
    (q, rem)
}

/// Unsigned division of two register values: quotient and remainder over the
/// unsigned reinterpretations.
pub fn div_unsigned(a: i32, b: i32) -> (r: (i32, i32))
    requires
        u32_of_i32(b) != 0,
    ensures
        r.0 == i32_of_u32(u32_of_i32(a) / u32_of_i32(b)),
        r.1 == i32_of_u32(u32_of_i32(a) % u32_of_i32(b)),
{
    let au = i32_to_u32(a);
    let bu = i32_to_u32(b);
    (u32_to_i32(au / bu), u32_to_i32(au % bu))
}

} // verus!
