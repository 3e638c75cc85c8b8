//! Lane operations on `u8`, the scalar of the `uchar` vectors.
//!
//! Each operation is an executable function together with the specification function
//! that it computes; in a contract the executable name stands for that function.

use crate::scalar::model::{
    lemma_wrap_i16_near, lemma_wrap_i32_near, lemma_wrap_i64_near, lemma_wrap_i8_near,
    lemma_wrap_u16_near, lemma_wrap_u32_near, lemma_wrap_u64_near, lemma_wrap_u8,
    lemma_wrap_u8_near, lemma_wrap_u8_sum, mask_i8, sat_i16, sat_i32, sat_i64, sat_i8, sat_u16,
    sat_u32, sat_u64, sat_u8, wrap_i16, wrap_i32, wrap_i64, wrap_i8, wrap_u16, wrap_u32, wrap_u64,
    wrap_u8,
};
use vstd::prelude::*;

verus! {

/// What the bit-vector solver knows of `u8`: the top bit of a conjunction or a
/// disjunction is that of the top bits, and a blend under an all-ones or an all-zero
/// mask picks one side whole.
pub proof fn lemma_bits_u8(x: u8, y: u8, m: i8, a: u8, b: u8)
    by (bit_vector)
    ensures
        (x & 0x80u8 != 0) == (x >= 0x80u8),
        ((x & y) >= 0x80u8) == (x >= 0x80u8 && y >= 0x80u8),
        ((x | y) >= 0x80u8) == (x >= 0x80u8 || y >= 0x80u8),
        !x == x ^ 0xffu8,
        !x == 0xff - x,
        m == -1 ==> (a & !(m as u8)) | (b & (m as u8)) == b,
        m == 0 ==> (a & !(m as u8)) | (b & (m as u8)) == a,
{
}

/// What the bit-vector solver knows of a cast from `u8` to a type of the other sign that
/// is as wide or wider.
pub proof fn lemma_sign_bits_u8(x: u8)
    by (bit_vector)
    ensures
        x > 0x7f ==> x as i8 == x - 0x100,
        x <= 0x7f ==> x as i8 == x,
{
}

/// A cast from `u8` wraps the lane to the target type.
pub proof fn lemma_casts_u8(x: u8)
    ensures
        x as i8 == wrap_i8(x as int),
        x as i16 == wrap_i16(x as int),
        x as u16 == wrap_u16(x as int),
        x as i32 == wrap_i32(x as int),
        x as u32 == wrap_u32(x as int),
        x as i64 == wrap_i64(x as int),
        x as u64 == wrap_u64(x as int),
{
    lemma_sign_bits_u8(x);
    lemma_wrap_i8_near(x as int);
    lemma_wrap_i16_near(x as int);
    lemma_wrap_u16_near(x as int);
    lemma_wrap_i32_near(x as int);
    lemma_wrap_u32_near(x as int);
    lemma_wrap_i64_near(x as int);
    lemma_wrap_u64_near(x as int);
}

/// The sum of two lanes, wrapping around at the bounds of `u8`.
pub open spec fn spec_add_u8(x: u8, y: u8) -> u8 {
    wrap_u8(x + y)
}

/// The sum of two lanes, wrapping around at the bounds of `u8`.
#[verifier::when_used_as_spec(spec_add_u8)]
pub fn add_u8(x: u8, y: u8) -> (r: u8)
    ensures
        r == wrap_u8(x + y),
{
    proof {
        lemma_wrap_u8_near(x + y);
    }
    x.wrapping_add(y)
}

/// The difference of two lanes, wrapping around at the bounds of `u8`.
pub open spec fn spec_sub_u8(x: u8, y: u8) -> u8 {
    wrap_u8(x - y)
}

/// The difference of two lanes, wrapping around at the bounds of `u8`.
#[verifier::when_used_as_spec(spec_sub_u8)]
pub fn sub_u8(x: u8, y: u8) -> (r: u8)
    ensures
        r == wrap_u8(x - y),
{
    proof {
        lemma_wrap_u8_near(x - y);
    }
    x.wrapping_sub(y)
}

/// The product of two lanes, wrapping around at the bounds of `u8`.
pub open spec fn spec_mul_u8(x: u8, y: u8) -> u8 {
    wrap_u8(x * y)
}

/// The product of two lanes, wrapping around at the bounds of `u8`.
#[verifier::when_used_as_spec(spec_mul_u8)]
pub fn mul_u8(x: u8, y: u8) -> (r: u8)
    ensures
        r == wrap_u8(x * y),
{
    x.wrapping_mul(y)
}

/// The quotient of two lanes, rounded down. The divisor is not zero.
pub open spec fn spec_div_u8(x: u8, y: u8) -> u8 {
    x / y
}

/// The quotient of two lanes, rounded down. The divisor is not zero.
#[verifier::when_used_as_spec(spec_div_u8)]
pub fn div_u8(x: u8, y: u8) -> (r: u8)
    requires
        y != 0,
    ensures
        r == x / y,
{
    x / y
}

/// The remainder of the division, `x - (x / y) * y`. The divisor is not zero.
pub open spec fn spec_rem_u8(x: u8, y: u8) -> u8 {
    x % y
}

/// The remainder of the division, `x - (x / y) * y`. The divisor is not zero.
#[verifier::when_used_as_spec(spec_rem_u8)]
pub fn rem_u8(x: u8, y: u8) -> (r: u8)
    requires
        y != 0,
    ensures
        r == x % y,
{
    x % y
}

/// Zero minus the lane, wrapping around at the bounds of `u8`.
pub open spec fn spec_neg_u8(x: u8) -> u8 {
    wrap_u8(0 - x)
}

/// Zero minus the lane, wrapping around at the bounds of `u8`.
#[verifier::when_used_as_spec(spec_neg_u8)]
pub fn neg_u8(x: u8) -> (r: u8)
    ensures
        r == wrap_u8(0 - x),
{
    proof {
        lemma_wrap_u8_near(0 - x);
    }
    0u8.wrapping_sub(x)
}

/// The lane with every bit flipped.
pub open spec fn spec_not_u8(x: u8) -> u8 {
    !x
}

/// The lane with every bit flipped.
#[verifier::when_used_as_spec(spec_not_u8)]
pub fn not_u8(x: u8) -> (r: u8)
    ensures
        r == !x,
{
    !x
}

/// The lane shifted left by `n` bits, with `n` below 8.
pub open spec fn spec_shl_u8(x: u8, n: u8) -> u8 {
    x << n
}

/// The lane shifted left by `n` bits, with `n` below 8.
#[verifier::when_used_as_spec(spec_shl_u8)]
pub fn shl_u8(x: u8, n: u8) -> (r: u8)
    requires
        0 <= n < 8,
    ensures
        r == x << n,
{
    x << n
}

/// The lane shifted right by `n` bits, with `n` below 8; zeros come in from the
/// left.
pub open spec fn spec_shr_u8(x: u8, n: u8) -> u8 {
    x >> n
}

/// The lane shifted right by `n` bits, with `n` below 8; zeros come in from the
/// left.
#[verifier::when_used_as_spec(spec_shr_u8)]
pub fn shr_u8(x: u8, n: u8) -> (r: u8)
    requires
        0 <= n < 8,
    ensures
        r == x >> n,
{
    x >> n
}

/// The mask lane that tells whether `x` and `y` are equal.
pub open spec fn spec_eq_u8(x: u8, y: u8) -> i8 {
    mask_i8(x == y)
}

/// The mask lane that tells whether `x` and `y` are equal.
#[verifier::when_used_as_spec(spec_eq_u8)]
pub fn eq_u8(x: u8, y: u8) -> (r: i8)
    ensures
        r == mask_i8(x == y),
{
    if x == y {
        -1
    } else {
        0
    }
}

/// The mask lane that tells whether `x` and `y` are different.
pub open spec fn spec_ne_u8(x: u8, y: u8) -> i8 {
    mask_i8(x != y)
}

/// The mask lane that tells whether `x` and `y` are different.
#[verifier::when_used_as_spec(spec_ne_u8)]
pub fn ne_u8(x: u8, y: u8) -> (r: i8)
    ensures
        r == mask_i8(x != y),
{
    if x != y {
        -1
    } else {
        0
    }
}

/// The mask lane that tells whether `x` is less than `y`.
pub open spec fn spec_lt_u8(x: u8, y: u8) -> i8 {
    mask_i8(x < y)
}

/// The mask lane that tells whether `x` is less than `y`.
#[verifier::when_used_as_spec(spec_lt_u8)]
pub fn lt_u8(x: u8, y: u8) -> (r: i8)
    ensures
        r == mask_i8(x < y),
{
    if x < y {
        -1
    } else {
        0
    }
}

/// The mask lane that tells whether `x` is at most `y`.
pub open spec fn spec_le_u8(x: u8, y: u8) -> i8 {
    mask_i8(x <= y)
}

/// The mask lane that tells whether `x` is at most `y`.
#[verifier::when_used_as_spec(spec_le_u8)]
pub fn le_u8(x: u8, y: u8) -> (r: i8)
    ensures
        r == mask_i8(x <= y),
{
    if x <= y {
        -1
    } else {
        0
    }
}

/// The mask lane that tells whether `x` is greater than `y`.
pub open spec fn spec_gt_u8(x: u8, y: u8) -> i8 {
    mask_i8(x > y)
}

/// The mask lane that tells whether `x` is greater than `y`.
#[verifier::when_used_as_spec(spec_gt_u8)]
pub fn gt_u8(x: u8, y: u8) -> (r: i8)
    ensures
        r == mask_i8(x > y),
{
    if x > y {
        -1
    } else {
        0
    }
}

/// The mask lane that tells whether `x` is at least `y`.
pub open spec fn spec_ge_u8(x: u8, y: u8) -> i8 {
    mask_i8(x >= y)
}

/// The mask lane that tells whether `x` is at least `y`.
#[verifier::when_used_as_spec(spec_ge_u8)]
pub fn ge_u8(x: u8, y: u8) -> (r: i8)
    ensures
        r == mask_i8(x >= y),
{
    if x >= y {
        -1
    } else {
        0
    }
}

/// `x * y + z`, wrapping around at the bounds of `u8`.
pub open spec fn spec_madd_u8(x: u8, y: u8, z: u8) -> u8 {
    wrap_u8(x * y + z)
}

/// `x * y + z`, wrapping around at the bounds of `u8`.
#[verifier::when_used_as_spec(spec_madd_u8)]
pub fn madd_u8(x: u8, y: u8, z: u8) -> (r: u8)
    ensures
        r == wrap_u8(x * y + z),
{
    proof {
        lemma_wrap_u8_sum(x * y, z as int);
    }
    add_u8(mul_u8(x, y), z)
}

/// The magnitude of the lane, which is the lane.
pub open spec fn spec_abs_u8(x: u8) -> u8 {
    x
}

/// The magnitude of the lane, which is the lane.
#[verifier::when_used_as_spec(spec_abs_u8)]
pub fn abs_u8(x: u8) -> (r: u8)
    ensures
        r == x,
{
    x
}

/// The greater of two lanes.
pub open spec fn spec_max_u8(x: u8, y: u8) -> u8 {
    if y > x {
        y
    } else {
        x
    }
}

/// The greater of two lanes.
#[verifier::when_used_as_spec(spec_max_u8)]
pub fn max_u8(x: u8, y: u8) -> (r: u8)
    ensures
        r == (if y > x { y } else { x }),
{
    if y > x {
        y
    } else {
        x
    }
}

/// The smaller of two lanes.
pub open spec fn spec_min_u8(x: u8, y: u8) -> u8 {
    if y < x {
        y
    } else {
        x
    }
}

/// The smaller of two lanes.
#[verifier::when_used_as_spec(spec_min_u8)]
pub fn min_u8(x: u8, y: u8) -> (r: u8)
    ensures
        r == (if y < x { y } else { x }),
{
    if y < x {
        y
    } else {
        x
    }
}

/// The lane raised to at least `lo`, then lowered to at most `hi`.
pub open spec fn spec_clamp_u8(x: u8, lo: u8, hi: u8) -> u8 {
    spec_min_u8(spec_max_u8(x, lo), hi)
}

/// The lane raised to at least `lo`, then lowered to at most `hi`.
#[verifier::when_used_as_spec(spec_clamp_u8)]
pub fn clamp_u8(x: u8, lo: u8, hi: u8) -> (r: u8)
    ensures
        r == spec_min_u8(spec_max_u8(x, lo), hi),
{
    min_u8(max_u8(x, lo), hi)
}

/// The bitwise blend of two lanes: each bit comes from `b` where the mask has a one and
/// from `a` where it has a zero.
pub open spec fn spec_bitselect_u8(m: i8, a: u8, b: u8) -> u8 {
    (a & !(m as u8)) | (b & (m as u8))
}

/// The bitwise blend of two lanes: each bit comes from `b` where the mask has a one and
/// from `a` where it has a zero.
#[verifier::when_used_as_spec(spec_bitselect_u8)]
pub fn bitselect_u8(m: i8, a: u8, b: u8) -> (r: u8)
    ensures
        r == (a & !(m as u8)) | (b & (m as u8)),
{
    let k = m as u8;
    (a & !k) | (b & k)
}

/// The choice between two lanes by the sign of the mask: `b` where the mask is
/// negative, `a` elsewhere.
pub open spec fn spec_select_u8(m: i8, a: u8, b: u8) -> u8 {
    if m < 0 {
        b
    } else {
        a
    }
}

/// The choice between two lanes by the sign of the mask: `b` where the mask is
/// negative, `a` elsewhere.
#[verifier::when_used_as_spec(spec_select_u8)]
pub fn select_u8(m: i8, a: u8, b: u8) -> (r: u8)
    ensures
        r == (if m < 0 { b } else { a }),
{
    proof {
        crate::scalar::lane_i8::lemma_bits_i8(m, 0, 0, 0);
        lemma_bits_u8(0, 0, m >> 7i8, a, b);
    }
    bitselect_u8(m >> 7, a, b)
}

/// Whether the lane counts as true: its top bit is set.
pub open spec fn spec_truth_u8(x: u8) -> bool {
    x >= 0x80
}

/// Whether the lane counts as true: its top bit is set.
#[verifier::when_used_as_spec(spec_truth_u8)]
pub fn truth_u8(x: u8) -> (r: bool)
    ensures
        r == (x >= 0x80),
{
    proof {
        lemma_bits_u8(x, 0, 0, 0, 0);
    }
    x & 0x80 != 0
}

/// The lane as `i8`: its low 8 bits, read as `i8`.
pub open spec fn spec_u8_to_i8(x: u8) -> i8 {
    wrap_i8(x as int)
}

/// The lane as `i8`: its low 8 bits, read as `i8`.
#[verifier::when_used_as_spec(spec_u8_to_i8)]
pub fn u8_to_i8(x: u8) -> (r: i8)
    ensures
        r == wrap_i8(x as int),
{
    proof {
        lemma_casts_u8(x);
    }
    x as i8
}

/// The lane as `i8`, saturating: a lane outside the range of `i8` gives the nearest
/// bound.
pub open spec fn spec_u8_to_i8_sat(x: u8) -> i8 {
    sat_i8(x as int)
}

/// The lane as `i8`, saturating: a lane outside the range of `i8` gives the nearest
/// bound.
#[verifier::when_used_as_spec(spec_u8_to_i8_sat)]
pub fn u8_to_i8_sat(x: u8) -> (r: i8)
    ensures
        r == sat_i8(x as int),
{
    let c = min_u8(x, i8::MAX as u8);
    c as i8
}

/// The lane as `i16`, which holds every `u8`.
pub open spec fn spec_u8_to_i16(x: u8) -> i16 {
    wrap_i16(x as int)
}

/// The lane as `i16`, which holds every `u8`.
#[verifier::when_used_as_spec(spec_u8_to_i16)]
pub fn u8_to_i16(x: u8) -> (r: i16)
    ensures
        r == wrap_i16(x as int),
{
    proof {
        lemma_casts_u8(x);
    }
    x as i16
}

/// The lane as `i16`, saturating; nothing saturates, since `i16` holds every `u8`.
pub open spec fn spec_u8_to_i16_sat(x: u8) -> i16 {
    sat_i16(x as int)
}

/// The lane as `i16`, saturating; nothing saturates, since `i16` holds every `u8`.
#[verifier::when_used_as_spec(spec_u8_to_i16_sat)]
pub fn u8_to_i16_sat(x: u8) -> (r: i16)
    ensures
        r == sat_i16(x as int),
{
    u8_to_i16(x)
}

/// The lane as `u16`, which holds every `u8`.
pub open spec fn spec_u8_to_u16(x: u8) -> u16 {
    wrap_u16(x as int)
}

/// The lane as `u16`, which holds every `u8`.
#[verifier::when_used_as_spec(spec_u8_to_u16)]
pub fn u8_to_u16(x: u8) -> (r: u16)
    ensures
        r == wrap_u16(x as int),
{
    proof {
        lemma_casts_u8(x);
    }
    x as u16
}

/// The lane as `u16`, saturating; nothing saturates, since `u16` holds every `u8`.
pub open spec fn spec_u8_to_u16_sat(x: u8) -> u16 {
    sat_u16(x as int)
}

/// The lane as `u16`, saturating; nothing saturates, since `u16` holds every `u8`.
#[verifier::when_used_as_spec(spec_u8_to_u16_sat)]
pub fn u8_to_u16_sat(x: u8) -> (r: u16)
    ensures
        r == sat_u16(x as int),
{
    u8_to_u16(x)
}

/// The lane as `i32`, which holds every `u8`.
pub open spec fn spec_u8_to_i32(x: u8) -> i32 {
    wrap_i32(x as int)
}

/// The lane as `i32`, which holds every `u8`.
#[verifier::when_used_as_spec(spec_u8_to_i32)]
pub fn u8_to_i32(x: u8) -> (r: i32)
    ensures
        r == wrap_i32(x as int),
{
    proof {
        lemma_casts_u8(x);
    }
    x as i32
}

/// The lane as `i32`, saturating; nothing saturates, since `i32` holds every `u8`.
pub open spec fn spec_u8_to_i32_sat(x: u8) -> i32 {
    sat_i32(x as int)
}

/// The lane as `i32`, saturating; nothing saturates, since `i32` holds every `u8`.
#[verifier::when_used_as_spec(spec_u8_to_i32_sat)]
pub fn u8_to_i32_sat(x: u8) -> (r: i32)
    ensures
        r == sat_i32(x as int),
{
    u8_to_i32(x)
}

/// The lane as `u32`, which holds every `u8`.
pub open spec fn spec_u8_to_u32(x: u8) -> u32 {
    wrap_u32(x as int)
}

/// The lane as `u32`, which holds every `u8`.
#[verifier::when_used_as_spec(spec_u8_to_u32)]
pub fn u8_to_u32(x: u8) -> (r: u32)
    ensures
        r == wrap_u32(x as int),
{
    proof {
        lemma_casts_u8(x);
    }
    x as u32
}

/// The lane as `u32`, saturating; nothing saturates, since `u32` holds every `u8`.
pub open spec fn spec_u8_to_u32_sat(x: u8) -> u32 {
    sat_u32(x as int)
}

/// The lane as `u32`, saturating; nothing saturates, since `u32` holds every `u8`.
#[verifier::when_used_as_spec(spec_u8_to_u32_sat)]
pub fn u8_to_u32_sat(x: u8) -> (r: u32)
    ensures
        r == sat_u32(x as int),
{
    u8_to_u32(x)
}

/// The lane as `i64`, which holds every `u8`.
pub open spec fn spec_u8_to_i64(x: u8) -> i64 {
    wrap_i64(x as int)
}

/// The lane as `i64`, which holds every `u8`.
#[verifier::when_used_as_spec(spec_u8_to_i64)]
pub fn u8_to_i64(x: u8) -> (r: i64)
    ensures
        r == wrap_i64(x as int),
{
    proof {
        lemma_casts_u8(x);
    }
    x as i64
}

/// The lane as `i64`, saturating; nothing saturates, since `i64` holds every `u8`.
pub open spec fn spec_u8_to_i64_sat(x: u8) -> i64 {
    sat_i64(x as int)
}

/// The lane as `i64`, saturating; nothing saturates, since `i64` holds every `u8`.
#[verifier::when_used_as_spec(spec_u8_to_i64_sat)]
pub fn u8_to_i64_sat(x: u8) -> (r: i64)
    ensures
        r == sat_i64(x as int),
{
    u8_to_i64(x)
}

/// The lane as `u64`, which holds every `u8`.
pub open spec fn spec_u8_to_u64(x: u8) -> u64 {
    wrap_u64(x as int)
}

/// The lane as `u64`, which holds every `u8`.
#[verifier::when_used_as_spec(spec_u8_to_u64)]
pub fn u8_to_u64(x: u8) -> (r: u64)
    ensures
        r == wrap_u64(x as int),
{
    proof {
        lemma_casts_u8(x);
    }
    x as u64
}

/// The lane as `u64`, saturating; nothing saturates, since `u64` holds every `u8`.
pub open spec fn spec_u8_to_u64_sat(x: u8) -> u64 {
    sat_u64(x as int)
}

/// The lane as `u64`, saturating; nothing saturates, since `u64` holds every `u8`.
#[verifier::when_used_as_spec(spec_u8_to_u64_sat)]
pub fn u8_to_u64_sat(x: u8) -> (r: u64)
    ensures
        r == sat_u64(x as int),
{
    u8_to_u64(x)
}

/// Addition commutes and associates, and swapping the operands of a subtraction negates the
/// difference; all of it holds with wrap-around.
pub proof fn lemma_arith_u8(x: u8, y: u8, z: u8)
    ensures
        add_u8(x, y) == add_u8(y, x),
        add_u8(add_u8(x, y), z) == add_u8(x, add_u8(y, z)),
        sub_u8(x, y) == neg_u8(sub_u8(y, x)),
{
    lemma_wrap_u8_sum(x + y, z as int);
    lemma_wrap_u8_sum(y + z, x as int);
    lemma_wrap_u8_sum(y - x, 0);
    lemma_wrap_u8(0, y - x);
}

/// Flipping every bit of a lane is the exclusive disjunction with all ones, and gives the
/// greatest `u8` minus the lane.
pub proof fn lemma_not_u8(x: u8)
    ensures
        not_u8(x) == x ^ u8::MAX,
        not_u8(x) == u8::MAX - x,
{
    lemma_bits_u8(x, 0, 0, 0, 0);
}

/// The magnitude of an unsigned lane is the lane.
pub proof fn lemma_abs_u8(x: u8)
    ensures
        abs_u8(x) == x,
        abs_u8(abs_u8(x)) == abs_u8(x),
{
    lemma_wrap_u8_near(-x);
    lemma_wrap_u8_near(-abs_u8(x));
}

/// A pointer-sized integer as `u8`: wrapped to `u8` where `u8` does not hold it.
pub open spec fn spec_isize_to_u8(x: isize) -> u8 {
    wrap_u8(x as int)
}

/// A pointer-sized integer as `u8`: wrapped to `u8` where `u8` does not hold it.
#[verifier::when_used_as_spec(spec_isize_to_u8)]
pub fn isize_to_u8(x: isize) -> (r: u8)
    ensures
        r == wrap_u8(x as int),
{
    crate::scalar::lane_i64::i64_to_u8(x as i64)
}

/// Read as `i8` and then as `u8` again, a lane is what it was.
pub proof fn lemma_recast_u8(x: u8)
    ensures
        crate::scalar::lane_i8::i8_to_u8(u8_to_i8(x)) == x,
{
    lemma_wrap_i8_near(x as int);
    lemma_wrap_u8_near(wrap_i8(x as int) as int);
}

/// A blend under an all-ones mask is `b`, under an all-zero mask `a`; and a choice by the
/// sign of the mask is the blend under the mask's sign spread over the lane.
pub proof fn lemma_blend_u8(m: i8, a: u8, b: u8)
    ensures
        m == -1 ==> bitselect_u8(m, a, b) == b,
        m == 0 ==> bitselect_u8(m, a, b) == a,
        select_u8(m, a, b) == bitselect_u8(m >> 7i8, a, b),
        m < 0 ==> select_u8(m, a, b) == b,
        m >= 0 ==> select_u8(m, a, b) == a,
{
    crate::scalar::lane_i8::lemma_bits_i8(m, 0, 0, 0);
    lemma_bits_u8(0, 0, m, a, b);
    lemma_bits_u8(0, 0, m >> 7i8, a, b);
}

} // verus!
