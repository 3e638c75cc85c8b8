//! Lane operations on `u32`, the scalar of the `uint` vectors.
//!
//! Each operation is an executable function together with the specification function
//! that it computes; in a contract the executable name stands for that function.

use crate::scalar::model::{
    lemma_wrap_i16_parts, lemma_wrap_i32_near, lemma_wrap_i64_near, lemma_wrap_i8_parts,
    lemma_wrap_u16_parts, lemma_wrap_u32, lemma_wrap_u32_near, lemma_wrap_u32_sum,
    lemma_wrap_u64_near, lemma_wrap_u8_parts, mask_i32, sat_i16, sat_i32, sat_i64, sat_i8, sat_u16,
    sat_u32, sat_u64, sat_u8, wrap_i16, wrap_i32, wrap_i64, wrap_i8, wrap_u16, wrap_u32, wrap_u64,
    wrap_u8,
};
use vstd::prelude::*;

verus! {

/// What the bit-vector solver knows of `u32`: the top bit of a conjunction or a
/// disjunction is that of the top bits, and a blend under an all-ones or an all-zero
/// mask picks one side whole.
pub proof fn lemma_bits_u32(x: u32, y: u32, m: i32, a: u32, b: u32)
    by (bit_vector)
    ensures
        (x & 0x8000_0000u32 != 0) == (x >= 0x8000_0000u32),
        ((x & y) >= 0x8000_0000u32) == (x >= 0x8000_0000u32 && y >= 0x8000_0000u32),
        ((x | y) >= 0x8000_0000u32) == (x >= 0x8000_0000u32 || y >= 0x8000_0000u32),
        !x == x ^ 0xffff_ffffu32,
        !x == 0xffff_ffff - x,
        m == -1 ==> (a & !(m as u32)) | (b & (m as u32)) == b,
        m == 0 ==> (a & !(m as u32)) | (b & (m as u32)) == a,
{
}

/// What the bit-vector solver knows of a cast from `u32` to a narrower type: it keeps the
/// low bits, which are what is left of the lane when the bits above them are taken away.
pub proof fn lemma_low_bits_u32(x: u32)
    by (bit_vector)
    ensures
        x == (x >> 8u32) * 0x100 + (x & 0xffu32),
        0 <= (x & 0xffu32) < 0x100,
        x == (x >> 16u32) * 0x1_0000 + (x & 0xffffu32),
        0 <= (x & 0xffffu32) < 0x1_0000,
        (x & 0xffu32) > 0x7f ==> x as i8 == (x & 0xffu32) - 0x100,
        (x & 0xffu32) <= 0x7f ==> x as i8 == (x & 0xffu32),
        x as u8 == (x & 0xffu32),
        (x & 0xffffu32) > 0x7fff ==> x as i16 == (x & 0xffffu32) - 0x1_0000,
        (x & 0xffffu32) <= 0x7fff ==> x as i16 == (x & 0xffffu32),
        x as u16 == (x & 0xffffu32),
{
}

/// What the bit-vector solver knows of a cast from `u32` to a type of the other sign that
/// is as wide or wider.
pub proof fn lemma_sign_bits_u32(x: u32)
    by (bit_vector)
    ensures
        x > 0x7fff_ffff ==> x as i32 == x - 0x1_0000_0000,
        x <= 0x7fff_ffff ==> x as i32 == x,
{
}

/// A cast from `u32` wraps the lane to the target type.
pub proof fn lemma_casts_u32(x: u32)
    ensures
        x as i8 == wrap_i8(x as int),
        x as u8 == wrap_u8(x as int),
        x as i16 == wrap_i16(x as int),
        x as u16 == wrap_u16(x as int),
        x as i32 == wrap_i32(x as int),
        x as i64 == wrap_i64(x as int),
        x as u64 == wrap_u64(x as int),
{
    lemma_low_bits_u32(x);
    lemma_sign_bits_u32(x);
    lemma_wrap_i8_parts(x as int, (x >> 8u32) as int, (x & 0xffu32) as int);
    lemma_wrap_u8_parts(x as int, (x >> 8u32) as int, (x & 0xffu32) as int);
    lemma_wrap_i16_parts(x as int, (x >> 16u32) as int, (x & 0xffffu32) as int);
    lemma_wrap_u16_parts(x as int, (x >> 16u32) as int, (x & 0xffffu32) as int);
    lemma_wrap_i32_near(x as int);
    lemma_wrap_i64_near(x as int);
    lemma_wrap_u64_near(x as int);
}

/// The sum of two lanes, wrapping around at the bounds of `u32`.
pub open spec fn spec_add_u32(x: u32, y: u32) -> u32 {
    wrap_u32(x + y)
}

/// The sum of two lanes, wrapping around at the bounds of `u32`.
#[verifier::when_used_as_spec(spec_add_u32)]
pub fn add_u32(x: u32, y: u32) -> (r: u32)
    ensures
        r == wrap_u32(x + y),
{
    proof {
        lemma_wrap_u32_near(x + y);
    }
    x.wrapping_add(y)
}

/// The difference of two lanes, wrapping around at the bounds of `u32`.
pub open spec fn spec_sub_u32(x: u32, y: u32) -> u32 {
    wrap_u32(x - y)
}

/// The difference of two lanes, wrapping around at the bounds of `u32`.
#[verifier::when_used_as_spec(spec_sub_u32)]
pub fn sub_u32(x: u32, y: u32) -> (r: u32)
    ensures
        r == wrap_u32(x - y),
{
    proof {
        lemma_wrap_u32_near(x - y);
    }
    x.wrapping_sub(y)
}

/// The product of two lanes, wrapping around at the bounds of `u32`.
pub open spec fn spec_mul_u32(x: u32, y: u32) -> u32 {
    wrap_u32(x * y)
}

/// The product of two lanes, wrapping around at the bounds of `u32`.
#[verifier::when_used_as_spec(spec_mul_u32)]
pub fn mul_u32(x: u32, y: u32) -> (r: u32)
    ensures
        r == wrap_u32(x * y),
{
    x.wrapping_mul(y)
}

/// The quotient of two lanes, rounded down. The divisor is not zero.
pub open spec fn spec_div_u32(x: u32, y: u32) -> u32 {
    x / y
}

/// The quotient of two lanes, rounded down. The divisor is not zero.
#[verifier::when_used_as_spec(spec_div_u32)]
pub fn div_u32(x: u32, y: u32) -> (r: u32)
    requires
        y != 0,
    ensures
        r == x / y,
{
    x / y
}

/// The remainder of the division, `x - (x / y) * y`. The divisor is not zero.
pub open spec fn spec_rem_u32(x: u32, y: u32) -> u32 {
    x % y
}

/// The remainder of the division, `x - (x / y) * y`. The divisor is not zero.
#[verifier::when_used_as_spec(spec_rem_u32)]
pub fn rem_u32(x: u32, y: u32) -> (r: u32)
    requires
        y != 0,
    ensures
        r == x % y,
{
    x % y
}

/// Zero minus the lane, wrapping around at the bounds of `u32`.
pub open spec fn spec_neg_u32(x: u32) -> u32 {
    wrap_u32(0 - x)
}

/// Zero minus the lane, wrapping around at the bounds of `u32`.
#[verifier::when_used_as_spec(spec_neg_u32)]
pub fn neg_u32(x: u32) -> (r: u32)
    ensures
        r == wrap_u32(0 - x),
{
    proof {
        lemma_wrap_u32_near(0 - x);
    }
    0u32.wrapping_sub(x)
}

/// The lane with every bit flipped.
pub open spec fn spec_not_u32(x: u32) -> u32 {
    !x
}

/// The lane with every bit flipped.
#[verifier::when_used_as_spec(spec_not_u32)]
pub fn not_u32(x: u32) -> (r: u32)
    ensures
        r == !x,
{
    !x
}

/// The lane shifted left by `n` bits, with `n` below 32.
pub open spec fn spec_shl_u32(x: u32, n: u32) -> u32 {
    x << n
}

/// The lane shifted left by `n` bits, with `n` below 32.
#[verifier::when_used_as_spec(spec_shl_u32)]
pub fn shl_u32(x: u32, n: u32) -> (r: u32)
    requires
        0 <= n < 32,
    ensures
        r == x << n,
{
    x << n
}

/// The lane shifted right by `n` bits, with `n` below 32; zeros come in from the
/// left.
pub open spec fn spec_shr_u32(x: u32, n: u32) -> u32 {
    x >> n
}

/// The lane shifted right by `n` bits, with `n` below 32; zeros come in from the
/// left.
#[verifier::when_used_as_spec(spec_shr_u32)]
pub fn shr_u32(x: u32, n: u32) -> (r: u32)
    requires
        0 <= n < 32,
    ensures
        r == x >> n,
{
    x >> n
}

/// The mask lane that tells whether `x` and `y` are equal.
pub open spec fn spec_eq_u32(x: u32, y: u32) -> i32 {
    mask_i32(x == y)
}

/// The mask lane that tells whether `x` and `y` are equal.
#[verifier::when_used_as_spec(spec_eq_u32)]
pub fn eq_u32(x: u32, y: u32) -> (r: i32)
    ensures
        r == mask_i32(x == y),
{
    if x == y {
        -1
    } else {
        0
    }
}

/// The mask lane that tells whether `x` and `y` are different.
pub open spec fn spec_ne_u32(x: u32, y: u32) -> i32 {
    mask_i32(x != y)
}

/// The mask lane that tells whether `x` and `y` are different.
#[verifier::when_used_as_spec(spec_ne_u32)]
pub fn ne_u32(x: u32, y: u32) -> (r: i32)
    ensures
        r == mask_i32(x != y),
{
    if x != y {
        -1
    } else {
        0
    }
}

/// The mask lane that tells whether `x` is less than `y`.
pub open spec fn spec_lt_u32(x: u32, y: u32) -> i32 {
    mask_i32(x < y)
}

/// The mask lane that tells whether `x` is less than `y`.
#[verifier::when_used_as_spec(spec_lt_u32)]
pub fn lt_u32(x: u32, y: u32) -> (r: i32)
    ensures
        r == mask_i32(x < y),
{
    if x < y {
        -1
    } else {
        0
    }
}

/// The mask lane that tells whether `x` is at most `y`.
pub open spec fn spec_le_u32(x: u32, y: u32) -> i32 {
    mask_i32(x <= y)
}

/// The mask lane that tells whether `x` is at most `y`.
#[verifier::when_used_as_spec(spec_le_u32)]
pub fn le_u32(x: u32, y: u32) -> (r: i32)
    ensures
        r == mask_i32(x <= y),
{
    if x <= y {
        -1
    } else {
        0
    }
}

/// The mask lane that tells whether `x` is greater than `y`.
pub open spec fn spec_gt_u32(x: u32, y: u32) -> i32 {
    mask_i32(x > y)
}

/// The mask lane that tells whether `x` is greater than `y`.
#[verifier::when_used_as_spec(spec_gt_u32)]
pub fn gt_u32(x: u32, y: u32) -> (r: i32)
    ensures
        r == mask_i32(x > y),
{
    if x > y {
        -1
    } else {
        0
    }
}

/// The mask lane that tells whether `x` is at least `y`.
pub open spec fn spec_ge_u32(x: u32, y: u32) -> i32 {
    mask_i32(x >= y)
}

/// The mask lane that tells whether `x` is at least `y`.
#[verifier::when_used_as_spec(spec_ge_u32)]
pub fn ge_u32(x: u32, y: u32) -> (r: i32)
    ensures
        r == mask_i32(x >= y),
{
    if x >= y {
        -1
    } else {
        0
    }
}

/// `x * y + z`, wrapping around at the bounds of `u32`.
pub open spec fn spec_madd_u32(x: u32, y: u32, z: u32) -> u32 {
    wrap_u32(x * y + z)
}

/// `x * y + z`, wrapping around at the bounds of `u32`.
#[verifier::when_used_as_spec(spec_madd_u32)]
pub fn madd_u32(x: u32, y: u32, z: u32) -> (r: u32)
    ensures
        r == wrap_u32(x * y + z),
{
    proof {
        lemma_wrap_u32_sum(x * y, z as int);
    }
    add_u32(mul_u32(x, y), z)
}

/// The magnitude of the lane, which is the lane.
pub open spec fn spec_abs_u32(x: u32) -> u32 {
    x
}

/// The magnitude of the lane, which is the lane.
#[verifier::when_used_as_spec(spec_abs_u32)]
pub fn abs_u32(x: u32) -> (r: u32)
    ensures
        r == x,
{
    x
}

/// The greater of two lanes.
pub open spec fn spec_max_u32(x: u32, y: u32) -> u32 {
    if y > x {
        y
    } else {
        x
    }
}

/// The greater of two lanes.
#[verifier::when_used_as_spec(spec_max_u32)]
pub fn max_u32(x: u32, y: u32) -> (r: u32)
    ensures
        r == (if y > x { y } else { x }),
{
    if y > x {
        y
    } else {
        x
    }
}

/// The smaller of two lanes.
pub open spec fn spec_min_u32(x: u32, y: u32) -> u32 {
    if y < x {
        y
    } else {
        x
    }
}

/// The smaller of two lanes.
#[verifier::when_used_as_spec(spec_min_u32)]
pub fn min_u32(x: u32, y: u32) -> (r: u32)
    ensures
        r == (if y < x { y } else { x }),
{
    if y < x {
        y
    } else {
        x
    }
}

/// The lane raised to at least `lo`, then lowered to at most `hi`.
pub open spec fn spec_clamp_u32(x: u32, lo: u32, hi: u32) -> u32 {
    spec_min_u32(spec_max_u32(x, lo), hi)
}

/// The lane raised to at least `lo`, then lowered to at most `hi`.
#[verifier::when_used_as_spec(spec_clamp_u32)]
pub fn clamp_u32(x: u32, lo: u32, hi: u32) -> (r: u32)
    ensures
        r == spec_min_u32(spec_max_u32(x, lo), hi),
{
    min_u32(max_u32(x, lo), hi)
}

/// The bitwise blend of two lanes: each bit comes from `b` where the mask has a one and
/// from `a` where it has a zero.
pub open spec fn spec_bitselect_u32(m: i32, a: u32, b: u32) -> u32 {
    (a & !(m as u32)) | (b & (m as u32))
}

/// The bitwise blend of two lanes: each bit comes from `b` where the mask has a one and
/// from `a` where it has a zero.
#[verifier::when_used_as_spec(spec_bitselect_u32)]
pub fn bitselect_u32(m: i32, a: u32, b: u32) -> (r: u32)
    ensures
        r == (a & !(m as u32)) | (b & (m as u32)),
{
    let k = m as u32;
    (a & !k) | (b & k)
}

/// The choice between two lanes by the sign of the mask: `b` where the mask is
/// negative, `a` elsewhere.
pub open spec fn spec_select_u32(m: i32, a: u32, b: u32) -> u32 {
    if m < 0 {
        b
    } else {
        a
    }
}

/// The choice between two lanes by the sign of the mask: `b` where the mask is
/// negative, `a` elsewhere.
#[verifier::when_used_as_spec(spec_select_u32)]
pub fn select_u32(m: i32, a: u32, b: u32) -> (r: u32)
    ensures
        r == (if m < 0 { b } else { a }),
{
    proof {
        crate::scalar::lane_i32::lemma_bits_i32(m, 0, 0, 0);
        lemma_bits_u32(0, 0, m >> 31i32, a, b);
    }
    bitselect_u32(m >> 31, a, b)
}

/// Whether the lane counts as true: its top bit is set.
pub open spec fn spec_truth_u32(x: u32) -> bool {
    x >= 0x8000_0000
}

/// Whether the lane counts as true: its top bit is set.
#[verifier::when_used_as_spec(spec_truth_u32)]
pub fn truth_u32(x: u32) -> (r: bool)
    ensures
        r == (x >= 0x8000_0000),
{
    proof {
        lemma_bits_u32(x, 0, 0, 0, 0);
    }
    x & 0x8000_0000 != 0
}

/// The lane as `i8`: its low 8 bits, read as `i8`.
pub open spec fn spec_u32_to_i8(x: u32) -> i8 {
    wrap_i8(x as int)
}

/// The lane as `i8`: its low 8 bits, read as `i8`.
#[verifier::when_used_as_spec(spec_u32_to_i8)]
pub fn u32_to_i8(x: u32) -> (r: i8)
    ensures
        r == wrap_i8(x as int),
{
    proof {
        lemma_casts_u32(x);
    }
    x as i8
}

/// The lane as `i8`, saturating: a lane outside the range of `i8` gives the nearest
/// bound.
pub open spec fn spec_u32_to_i8_sat(x: u32) -> i8 {
    sat_i8(x as int)
}

/// The lane as `i8`, saturating: a lane outside the range of `i8` gives the nearest
/// bound.
#[verifier::when_used_as_spec(spec_u32_to_i8_sat)]
pub fn u32_to_i8_sat(x: u32) -> (r: i8)
    ensures
        r == sat_i8(x as int),
{
    let c = min_u32(x, i8::MAX as u32);
    c as i8
}

/// The lane as `u8`: its low 8 bits, read as `u8`.
pub open spec fn spec_u32_to_u8(x: u32) -> u8 {
    wrap_u8(x as int)
}

/// The lane as `u8`: its low 8 bits, read as `u8`.
#[verifier::when_used_as_spec(spec_u32_to_u8)]
pub fn u32_to_u8(x: u32) -> (r: u8)
    ensures
        r == wrap_u8(x as int),
{
    proof {
        lemma_casts_u32(x);
    }
    x as u8
}

/// The lane as `u8`, saturating: a lane outside the range of `u8` gives the nearest
/// bound.
pub open spec fn spec_u32_to_u8_sat(x: u32) -> u8 {
    sat_u8(x as int)
}

/// The lane as `u8`, saturating: a lane outside the range of `u8` gives the nearest
/// bound.
#[verifier::when_used_as_spec(spec_u32_to_u8_sat)]
pub fn u32_to_u8_sat(x: u32) -> (r: u8)
    ensures
        r == sat_u8(x as int),
{
    let c = min_u32(x, u8::MAX as u32);
    c as u8
}

/// The lane as `i16`: its low 16 bits, read as `i16`.
pub open spec fn spec_u32_to_i16(x: u32) -> i16 {
    wrap_i16(x as int)
}

/// The lane as `i16`: its low 16 bits, read as `i16`.
#[verifier::when_used_as_spec(spec_u32_to_i16)]
pub fn u32_to_i16(x: u32) -> (r: i16)
    ensures
        r == wrap_i16(x as int),
{
    proof {
        lemma_casts_u32(x);
    }
    x as i16
}

/// The lane as `i16`, saturating: a lane outside the range of `i16` gives the nearest
/// bound.
pub open spec fn spec_u32_to_i16_sat(x: u32) -> i16 {
    sat_i16(x as int)
}

/// The lane as `i16`, saturating: a lane outside the range of `i16` gives the nearest
/// bound.
#[verifier::when_used_as_spec(spec_u32_to_i16_sat)]
pub fn u32_to_i16_sat(x: u32) -> (r: i16)
    ensures
        r == sat_i16(x as int),
{
    let c = min_u32(x, i16::MAX as u32);
    c as i16
}

/// The lane as `u16`: its low 16 bits, read as `u16`.
pub open spec fn spec_u32_to_u16(x: u32) -> u16 {
    wrap_u16(x as int)
}

/// The lane as `u16`: its low 16 bits, read as `u16`.
#[verifier::when_used_as_spec(spec_u32_to_u16)]
pub fn u32_to_u16(x: u32) -> (r: u16)
    ensures
        r == wrap_u16(x as int),
{
    proof {
        lemma_casts_u32(x);
    }
    x as u16
}

/// The lane as `u16`, saturating: a lane outside the range of `u16` gives the nearest
/// bound.
pub open spec fn spec_u32_to_u16_sat(x: u32) -> u16 {
    sat_u16(x as int)
}

/// The lane as `u16`, saturating: a lane outside the range of `u16` gives the nearest
/// bound.
#[verifier::when_used_as_spec(spec_u32_to_u16_sat)]
pub fn u32_to_u16_sat(x: u32) -> (r: u16)
    ensures
        r == sat_u16(x as int),
{
    let c = min_u32(x, u16::MAX as u32);
    c as u16
}

/// The lane as `i32`: its low 32 bits, read as `i32`.
pub open spec fn spec_u32_to_i32(x: u32) -> i32 {
    wrap_i32(x as int)
}

/// The lane as `i32`: its low 32 bits, read as `i32`.
#[verifier::when_used_as_spec(spec_u32_to_i32)]
pub fn u32_to_i32(x: u32) -> (r: i32)
    ensures
        r == wrap_i32(x as int),
{
    proof {
        lemma_casts_u32(x);
    }
    x as i32
}

/// The lane as `i32`, saturating: a lane outside the range of `i32` gives the nearest
/// bound.
pub open spec fn spec_u32_to_i32_sat(x: u32) -> i32 {
    sat_i32(x as int)
}

/// The lane as `i32`, saturating: a lane outside the range of `i32` gives the nearest
/// bound.
#[verifier::when_used_as_spec(spec_u32_to_i32_sat)]
pub fn u32_to_i32_sat(x: u32) -> (r: i32)
    ensures
        r == sat_i32(x as int),
{
    let c = min_u32(x, i32::MAX as u32);
    c as i32
}

/// The lane as `i64`, which holds every `u32`.
pub open spec fn spec_u32_to_i64(x: u32) -> i64 {
    wrap_i64(x as int)
}

/// The lane as `i64`, which holds every `u32`.
#[verifier::when_used_as_spec(spec_u32_to_i64)]
pub fn u32_to_i64(x: u32) -> (r: i64)
    ensures
        r == wrap_i64(x as int),
{
    proof {
        lemma_casts_u32(x);
    }
    x as i64
}

/// The lane as `i64`, saturating; nothing saturates, since `i64` holds every `u32`.
pub open spec fn spec_u32_to_i64_sat(x: u32) -> i64 {
    sat_i64(x as int)
}

/// The lane as `i64`, saturating; nothing saturates, since `i64` holds every `u32`.
#[verifier::when_used_as_spec(spec_u32_to_i64_sat)]
pub fn u32_to_i64_sat(x: u32) -> (r: i64)
    ensures
        r == sat_i64(x as int),
{
    u32_to_i64(x)
}

/// The lane as `u64`, which holds every `u32`.
pub open spec fn spec_u32_to_u64(x: u32) -> u64 {
    wrap_u64(x as int)
}

/// The lane as `u64`, which holds every `u32`.
#[verifier::when_used_as_spec(spec_u32_to_u64)]
pub fn u32_to_u64(x: u32) -> (r: u64)
    ensures
        r == wrap_u64(x as int),
{
    proof {
        lemma_casts_u32(x);
    }
    x as u64
}

/// The lane as `u64`, saturating; nothing saturates, since `u64` holds every `u32`.
pub open spec fn spec_u32_to_u64_sat(x: u32) -> u64 {
    sat_u64(x as int)
}

/// The lane as `u64`, saturating; nothing saturates, since `u64` holds every `u32`.
#[verifier::when_used_as_spec(spec_u32_to_u64_sat)]
pub fn u32_to_u64_sat(x: u32) -> (r: u64)
    ensures
        r == sat_u64(x as int),
{
    u32_to_u64(x)
}

/// Addition commutes and associates, and swapping the operands of a subtraction negates the
/// difference; all of it holds with wrap-around.
pub proof fn lemma_arith_u32(x: u32, y: u32, z: u32)
    ensures
        add_u32(x, y) == add_u32(y, x),
        add_u32(add_u32(x, y), z) == add_u32(x, add_u32(y, z)),
        sub_u32(x, y) == neg_u32(sub_u32(y, x)),
{
    lemma_wrap_u32_sum(x + y, z as int);
    lemma_wrap_u32_sum(y + z, x as int);
    lemma_wrap_u32_sum(y - x, 0);
    lemma_wrap_u32(0, y - x);
}

/// Flipping every bit of a lane is the exclusive disjunction with all ones, and gives the
/// greatest `u32` minus the lane.
pub proof fn lemma_not_u32(x: u32)
    ensures
        not_u32(x) == x ^ u32::MAX,
        not_u32(x) == u32::MAX - x,
{
    lemma_bits_u32(x, 0, 0, 0, 0);
}

/// The magnitude of an unsigned lane is the lane.
pub proof fn lemma_abs_u32(x: u32)
    ensures
        abs_u32(x) == x,
        abs_u32(abs_u32(x)) == abs_u32(x),
{
    lemma_wrap_u32_near(-x);
    lemma_wrap_u32_near(-abs_u32(x));
}

/// A pointer-sized integer as `u32`: wrapped to `u32` where `u32` does not hold it.
pub open spec fn spec_isize_to_u32(x: isize) -> u32 {
    wrap_u32(x as int)
}

/// A pointer-sized integer as `u32`: wrapped to `u32` where `u32` does not hold it.
#[verifier::when_used_as_spec(spec_isize_to_u32)]
pub fn isize_to_u32(x: isize) -> (r: u32)
    ensures
        r == wrap_u32(x as int),
{
    crate::scalar::lane_i64::i64_to_u32(x as i64)
}

/// Read as `i32` and then as `u32` again, a lane is what it was.
pub proof fn lemma_recast_u32(x: u32)
    ensures
        crate::scalar::lane_i32::i32_to_u32(u32_to_i32(x)) == x,
{
    lemma_wrap_i32_near(x as int);
    lemma_wrap_u32_near(wrap_i32(x as int) as int);
}

/// A blend under an all-ones mask is `b`, under an all-zero mask `a`; and a choice by the
/// sign of the mask is the blend under the mask's sign spread over the lane.
pub proof fn lemma_blend_u32(m: i32, a: u32, b: u32)
    ensures
        m == -1 ==> bitselect_u32(m, a, b) == b,
        m == 0 ==> bitselect_u32(m, a, b) == a,
        select_u32(m, a, b) == bitselect_u32(m >> 31i32, a, b),
        m < 0 ==> select_u32(m, a, b) == b,
        m >= 0 ==> select_u32(m, a, b) == a,
{
    crate::scalar::lane_i32::lemma_bits_i32(m, 0, 0, 0);
    lemma_bits_u32(0, 0, m, a, b);
    lemma_bits_u32(0, 0, m >> 31i32, a, b);
}

} // verus!
