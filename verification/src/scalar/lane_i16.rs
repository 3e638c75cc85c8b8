//! Lane operations on `i16`, the scalar of the `short` vectors.
//!
//! Each operation is an executable function together with the specification function
//! that it computes; in a contract the executable name stands for that function.

use crate::scalar::model::{
    lemma_div_negative_divisor, lemma_quotient_bounds, lemma_trunc_div_rem, lemma_wrap_i16,
    lemma_wrap_i16_near, lemma_wrap_i16_sum, lemma_wrap_i32_near, lemma_wrap_i64_near,
    lemma_wrap_i8_parts, lemma_wrap_u16_near, lemma_wrap_u32_near, lemma_wrap_u64_near,
    lemma_wrap_u8_parts, mask_i16, sat_i16, sat_i32, sat_i64, sat_i8, sat_u16, sat_u32, sat_u64,
    sat_u8, trunc_div, trunc_rem, wrap_i16, wrap_i32, wrap_i64, wrap_i8, wrap_u16, wrap_u32,
    wrap_u64, wrap_u8,
};
use vstd::prelude::*;

verus! {

/// What the bit-vector solver knows of `i16`: the arithmetic shift by 15 spreads the
/// sign over the lane, the sign bit of a conjunction or a disjunction is that of the
/// signs, and a blend under an all-ones or an all-zero mask picks one side whole.
pub proof fn lemma_bits_i16(x: i16, y: i16, a: i16, b: i16)
    by (bit_vector)
    ensures
        x < 0 ==> x >> 15i16 == -1i16,
        x >= 0 ==> x >> 15i16 == 0i16,
        (x & i16::MIN != 0) == (x < 0),
        ((x & y) < 0) == (x < 0 && y < 0),
        ((x | y) < 0) == (x < 0 || y < 0),
        x ^ -1i16 == -1 - x,
        x ^ 0i16 == x,
        !x == x ^ -1i16,
        y == -1 ==> (a & !y) | (b & y) == b,
        y == 0 ==> (a & !y) | (b & y) == a,
{
}

/// What the bit-vector solver knows of a cast from `i16` to a narrower type: it keeps the
/// low bits, which are what is left of the lane when the bits above them are taken away.
pub proof fn lemma_low_bits_i16(x: i16)
    by (bit_vector)
    ensures
        x == (x >> 8i16) * 0x100 + (x & 0xffi16),
        0 <= (x & 0xffi16) < 0x100,
        (x & 0xffi16) > 0x7f ==> x as i8 == (x & 0xffi16) - 0x100,
        (x & 0xffi16) <= 0x7f ==> x as i8 == (x & 0xffi16),
        x as u8 == (x & 0xffi16),
{
}

/// What the bit-vector solver knows of a cast from `i16` to a type of the other sign that
/// is as wide or wider.
pub proof fn lemma_sign_bits_i16(x: i16)
    by (bit_vector)
    ensures
        x < 0 ==> x as u16 == x + 0x1_0000,
        x >= 0 ==> x as u16 == x,
        x < 0 ==> x as u32 == x + 0x1_0000_0000,
        x >= 0 ==> x as u32 == x,
        x < 0 ==> x as u64 == x + 0x1_0000_0000_0000_0000,
        x >= 0 ==> x as u64 == x,
{
}

/// A cast from `i16` wraps the lane to the target type.
pub proof fn lemma_casts_i16(x: i16)
    ensures
        x as i8 == wrap_i8(x as int),
        x as u8 == wrap_u8(x as int),
        x as u16 == wrap_u16(x as int),
        x as i32 == wrap_i32(x as int),
        x as u32 == wrap_u32(x as int),
        x as i64 == wrap_i64(x as int),
        x as u64 == wrap_u64(x as int),
{
    lemma_low_bits_i16(x);
    lemma_sign_bits_i16(x);
    lemma_wrap_i8_parts(x as int, (x >> 8i16) as int, (x & 0xffi16) as int);
    lemma_wrap_u8_parts(x as int, (x >> 8i16) as int, (x & 0xffi16) as int);
    lemma_wrap_u16_near(x as int);
    lemma_wrap_i32_near(x as int);
    lemma_wrap_u32_near(x as int);
    lemma_wrap_i64_near(x as int);
    lemma_wrap_u64_near(x as int);
}

/// The sum of two lanes, wrapping around at the bounds of `i16`.
pub open spec fn spec_add_i16(x: i16, y: i16) -> i16 {
    wrap_i16(x + y)
}

/// The sum of two lanes, wrapping around at the bounds of `i16`.
#[verifier::when_used_as_spec(spec_add_i16)]
pub fn add_i16(x: i16, y: i16) -> (r: i16)
    ensures
        r == wrap_i16(x + y),
{
    proof {
        lemma_wrap_i16_near(x + y);
    }
    x.wrapping_add(y)
}

/// The difference of two lanes, wrapping around at the bounds of `i16`.
pub open spec fn spec_sub_i16(x: i16, y: i16) -> i16 {
    wrap_i16(x - y)
}

/// The difference of two lanes, wrapping around at the bounds of `i16`.
#[verifier::when_used_as_spec(spec_sub_i16)]
pub fn sub_i16(x: i16, y: i16) -> (r: i16)
    ensures
        r == wrap_i16(x - y),
{
    proof {
        lemma_wrap_i16_near(x - y);
    }
    x.wrapping_sub(y)
}

/// The product of two lanes, wrapping around at the bounds of `i16`.
pub open spec fn spec_mul_i16(x: i16, y: i16) -> i16 {
    wrap_i16(x * y)
}

/// The product of two lanes, wrapping around at the bounds of `i16`.
#[verifier::when_used_as_spec(spec_mul_i16)]
pub fn mul_i16(x: i16, y: i16) -> (r: i16)
    ensures
        r == wrap_i16(x * y),
{
    x.wrapping_mul(y)
}

/// The quotient of two lanes, rounded toward zero. `i16::MIN / -1` wraps around to
/// `i16::MIN`. The divisor is not zero.
pub open spec fn spec_div_i16(x: i16, y: i16) -> i16 {
    wrap_i16(trunc_div(x as int, y as int))
}

/// The quotient of two lanes, rounded toward zero. `i16::MIN / -1` wraps around to
/// `i16::MIN`. The divisor is not zero.
#[verifier::when_used_as_spec(spec_div_i16)]
pub fn div_i16(x: i16, y: i16) -> (r: i16)
    requires
        y != 0,
    ensures
        r == wrap_i16(trunc_div(x as int, y as int)),
{
    if y == -1 {
        proof {
            lemma_wrap_i16_near(-x);
        }
        0i16.wrapping_sub(x)
    } else {
        proof {
            lemma_trunc_div_rem(x as int, y as int);
            lemma_wrap_i16_near(trunc_div(x as int, y as int));
            lemma_wrap_i16_near(trunc_rem(x as int, y as int));
            if y < 0 {
                lemma_div_negative_divisor(x as int, y as int);
                lemma_div_negative_divisor(-x, y as int);
                if x >= 0 {
                    lemma_quotient_bounds(x as int, -y);
                } else {
                    lemma_quotient_bounds(-x, -y);
                }
            } else {
                if x >= 0 {
                    lemma_quotient_bounds(x as int, y as int);
                } else {
                    lemma_quotient_bounds(-x, y as int);
                }
            }
        }
        x / y
    }
}

/// The remainder of the division rounded toward zero, `x - (x / y) * y`; it has the
/// sign of `x`. The divisor is not zero.
pub open spec fn spec_rem_i16(x: i16, y: i16) -> i16 {
    wrap_i16(trunc_rem(x as int, y as int))
}

/// The remainder of the division rounded toward zero, `x - (x / y) * y`; it has the
/// sign of `x`. The divisor is not zero.
#[verifier::when_used_as_spec(spec_rem_i16)]
pub fn rem_i16(x: i16, y: i16) -> (r: i16)
    requires
        y != 0,
    ensures
        r == wrap_i16(trunc_rem(x as int, y as int)),
{
    if y == -1 {
        proof {
            lemma_wrap_i16_near(0);
        }
        0
    } else {
        proof {
            lemma_trunc_div_rem(x as int, y as int);
            lemma_wrap_i16_near(trunc_div(x as int, y as int));
            lemma_wrap_i16_near(trunc_rem(x as int, y as int));
            if y < 0 {
                lemma_div_negative_divisor(x as int, y as int);
                lemma_div_negative_divisor(-x, y as int);
                if x >= 0 {
                    lemma_quotient_bounds(x as int, -y);
                } else {
                    lemma_quotient_bounds(-x, -y);
                }
            } else {
                if x >= 0 {
                    lemma_quotient_bounds(x as int, y as int);
                } else {
                    lemma_quotient_bounds(-x, y as int);
                }
            }
        }
        x % y
    }
}

/// Zero minus the lane, wrapping around at the bounds of `i16`.
pub open spec fn spec_neg_i16(x: i16) -> i16 {
    wrap_i16(0 - x)
}

/// Zero minus the lane, wrapping around at the bounds of `i16`.
#[verifier::when_used_as_spec(spec_neg_i16)]
pub fn neg_i16(x: i16) -> (r: i16)
    ensures
        r == wrap_i16(0 - x),
{
    proof {
        lemma_wrap_i16_near(0 - x);
    }
    0i16.wrapping_sub(x)
}

/// The lane with every bit flipped.
pub open spec fn spec_not_i16(x: i16) -> i16 {
    !x
}

/// The lane with every bit flipped.
#[verifier::when_used_as_spec(spec_not_i16)]
pub fn not_i16(x: i16) -> (r: i16)
    ensures
        r == !x,
{
    !x
}

/// The lane shifted left by `n` bits, with `n` below 16.
pub open spec fn spec_shl_i16(x: i16, n: i16) -> i16 {
    x << n
}

/// The lane shifted left by `n` bits, with `n` below 16.
#[verifier::when_used_as_spec(spec_shl_i16)]
pub fn shl_i16(x: i16, n: i16) -> (r: i16)
    requires
        0 <= n < 16,
    ensures
        r == x << n,
{
    x << n
}

/// The lane shifted right by `n` bits, with `n` below 16; copies of the sign bit come in from the
/// left.
pub open spec fn spec_shr_i16(x: i16, n: i16) -> i16 {
    x >> n
}

/// The lane shifted right by `n` bits, with `n` below 16; copies of the sign bit come in from the
/// left.
#[verifier::when_used_as_spec(spec_shr_i16)]
pub fn shr_i16(x: i16, n: i16) -> (r: i16)
    requires
        0 <= n < 16,
    ensures
        r == x >> n,
{
    x >> n
}

/// The mask lane that tells whether `x` and `y` are equal.
pub open spec fn spec_eq_i16(x: i16, y: i16) -> i16 {
    mask_i16(x == y)
}

/// The mask lane that tells whether `x` and `y` are equal.
#[verifier::when_used_as_spec(spec_eq_i16)]
pub fn eq_i16(x: i16, y: i16) -> (r: i16)
    ensures
        r == mask_i16(x == y),
{
    if x == y {
        -1
    } else {
        0
    }
}

/// The mask lane that tells whether `x` and `y` are different.
pub open spec fn spec_ne_i16(x: i16, y: i16) -> i16 {
    mask_i16(x != y)
}

/// The mask lane that tells whether `x` and `y` are different.
#[verifier::when_used_as_spec(spec_ne_i16)]
pub fn ne_i16(x: i16, y: i16) -> (r: i16)
    ensures
        r == mask_i16(x != y),
{
    if x != y {
        -1
    } else {
        0
    }
}

/// The mask lane that tells whether `x` is less than `y`.
pub open spec fn spec_lt_i16(x: i16, y: i16) -> i16 {
    mask_i16(x < y)
}

/// The mask lane that tells whether `x` is less than `y`.
#[verifier::when_used_as_spec(spec_lt_i16)]
pub fn lt_i16(x: i16, y: i16) -> (r: i16)
    ensures
        r == mask_i16(x < y),
{
    if x < y {
        -1
    } else {
        0
    }
}

/// The mask lane that tells whether `x` is at most `y`.
pub open spec fn spec_le_i16(x: i16, y: i16) -> i16 {
    mask_i16(x <= y)
}

/// The mask lane that tells whether `x` is at most `y`.
#[verifier::when_used_as_spec(spec_le_i16)]
pub fn le_i16(x: i16, y: i16) -> (r: i16)
    ensures
        r == mask_i16(x <= y),
{
    if x <= y {
        -1
    } else {
        0
    }
}

/// The mask lane that tells whether `x` is greater than `y`.
pub open spec fn spec_gt_i16(x: i16, y: i16) -> i16 {
    mask_i16(x > y)
}

/// The mask lane that tells whether `x` is greater than `y`.
#[verifier::when_used_as_spec(spec_gt_i16)]
pub fn gt_i16(x: i16, y: i16) -> (r: i16)
    ensures
        r == mask_i16(x > y),
{
    if x > y {
        -1
    } else {
        0
    }
}

/// The mask lane that tells whether `x` is at least `y`.
pub open spec fn spec_ge_i16(x: i16, y: i16) -> i16 {
    mask_i16(x >= y)
}

/// The mask lane that tells whether `x` is at least `y`.
#[verifier::when_used_as_spec(spec_ge_i16)]
pub fn ge_i16(x: i16, y: i16) -> (r: i16)
    ensures
        r == mask_i16(x >= y),
{
    if x >= y {
        -1
    } else {
        0
    }
}

/// `x * y + z`, wrapping around at the bounds of `i16`.
pub open spec fn spec_madd_i16(x: i16, y: i16, z: i16) -> i16 {
    wrap_i16(x * y + z)
}

/// `x * y + z`, wrapping around at the bounds of `i16`.
#[verifier::when_used_as_spec(spec_madd_i16)]
pub fn madd_i16(x: i16, y: i16, z: i16) -> (r: i16)
    ensures
        r == wrap_i16(x * y + z),
{
    proof {
        lemma_wrap_i16_sum(x * y, z as int);
    }
    add_i16(mul_i16(x, y), z)
}

/// The magnitude of the lane. That of `i16::MIN` does not fit and wraps around to
/// `i16::MIN`.
pub open spec fn spec_abs_i16(x: i16) -> i16 {
    if x < 0 {
        wrap_i16(-x)
    } else {
        x
    }
}

/// The magnitude of the lane. That of `i16::MIN` does not fit and wraps around to
/// `i16::MIN`.
#[verifier::when_used_as_spec(spec_abs_i16)]
pub fn abs_i16(x: i16) -> (r: i16)
    ensures
        r == (if x < 0 { wrap_i16(-x) } else { x }),
{
    proof {
        lemma_bits_i16(x, 0, 0, 0);
        lemma_wrap_i16_near(-x);
    }
    let m = x >> 15;
    (x ^ m).wrapping_sub(m)
}

/// The greater of two lanes.
pub open spec fn spec_max_i16(x: i16, y: i16) -> i16 {
    if y > x {
        y
    } else {
        x
    }
}

/// The greater of two lanes.
#[verifier::when_used_as_spec(spec_max_i16)]
pub fn max_i16(x: i16, y: i16) -> (r: i16)
    ensures
        r == (if y > x { y } else { x }),
{
    if y > x {
        y
    } else {
        x
    }
}

/// The smaller of two lanes.
pub open spec fn spec_min_i16(x: i16, y: i16) -> i16 {
    if y < x {
        y
    } else {
        x
    }
}

/// The smaller of two lanes.
#[verifier::when_used_as_spec(spec_min_i16)]
pub fn min_i16(x: i16, y: i16) -> (r: i16)
    ensures
        r == (if y < x { y } else { x }),
{
    if y < x {
        y
    } else {
        x
    }
}

/// The lane raised to at least `lo`, then lowered to at most `hi`.
pub open spec fn spec_clamp_i16(x: i16, lo: i16, hi: i16) -> i16 {
    spec_min_i16(spec_max_i16(x, lo), hi)
}

/// The lane raised to at least `lo`, then lowered to at most `hi`.
#[verifier::when_used_as_spec(spec_clamp_i16)]
pub fn clamp_i16(x: i16, lo: i16, hi: i16) -> (r: i16)
    ensures
        r == spec_min_i16(spec_max_i16(x, lo), hi),
{
    min_i16(max_i16(x, lo), hi)
}

/// The bitwise blend of two lanes: each bit comes from `b` where the mask has a one and
/// from `a` where it has a zero.
pub open spec fn spec_bitselect_i16(m: i16, a: i16, b: i16) -> i16 {
    (a & !m) | (b & m)
}

/// The bitwise blend of two lanes: each bit comes from `b` where the mask has a one and
/// from `a` where it has a zero.
#[verifier::when_used_as_spec(spec_bitselect_i16)]
pub fn bitselect_i16(m: i16, a: i16, b: i16) -> (r: i16)
    ensures
        r == (a & !m) | (b & m),
{
    (a & !m) | (b & m)
}

/// The choice between two lanes by the sign of the mask: `b` where the mask is
/// negative, `a` elsewhere.
pub open spec fn spec_select_i16(m: i16, a: i16, b: i16) -> i16 {
    if m < 0 {
        b
    } else {
        a
    }
}

/// The choice between two lanes by the sign of the mask: `b` where the mask is
/// negative, `a` elsewhere.
#[verifier::when_used_as_spec(spec_select_i16)]
pub fn select_i16(m: i16, a: i16, b: i16) -> (r: i16)
    ensures
        r == (if m < 0 { b } else { a }),
{
    proof {
        lemma_bits_i16(m, m >> 15i16, a, b);
    }
    bitselect_i16(m >> 15, a, b)
}

/// Whether the lane counts as true: its sign bit is set.
pub open spec fn spec_truth_i16(x: i16) -> bool {
    x < 0
}

/// Whether the lane counts as true: its sign bit is set.
#[verifier::when_used_as_spec(spec_truth_i16)]
pub fn truth_i16(x: i16) -> (r: bool)
    ensures
        r == (x < 0),
{
    proof {
        lemma_bits_i16(x, 0, 0, 0);
    }
    x & i16::MIN != 0
}

/// The lane as `i8`: its low 8 bits, read as `i8`.
pub open spec fn spec_i16_to_i8(x: i16) -> i8 {
    wrap_i8(x as int)
}

/// The lane as `i8`: its low 8 bits, read as `i8`.
#[verifier::when_used_as_spec(spec_i16_to_i8)]
pub fn i16_to_i8(x: i16) -> (r: i8)
    ensures
        r == wrap_i8(x as int),
{
    proof {
        lemma_casts_i16(x);
    }
    x as i8
}

/// The lane as `i8`, saturating: a lane outside the range of `i8` gives the nearest
/// bound.
pub open spec fn spec_i16_to_i8_sat(x: i16) -> i8 {
    sat_i8(x as int)
}

/// The lane as `i8`, saturating: a lane outside the range of `i8` gives the nearest
/// bound.
#[verifier::when_used_as_spec(spec_i16_to_i8_sat)]
pub fn i16_to_i8_sat(x: i16) -> (r: i8)
    ensures
        r == sat_i8(x as int),
{
    let c = clamp_i16(x, i8::MIN as i16, i8::MAX as i16);
    c as i8
}

/// The lane as `u8`: its low 8 bits, read as `u8`.
pub open spec fn spec_i16_to_u8(x: i16) -> u8 {
    wrap_u8(x as int)
}

/// The lane as `u8`: its low 8 bits, read as `u8`.
#[verifier::when_used_as_spec(spec_i16_to_u8)]
pub fn i16_to_u8(x: i16) -> (r: u8)
    ensures
        r == wrap_u8(x as int),
{
    proof {
        lemma_casts_i16(x);
    }
    x as u8
}

/// The lane as `u8`, saturating: a lane outside the range of `u8` gives the nearest
/// bound.
pub open spec fn spec_i16_to_u8_sat(x: i16) -> u8 {
    sat_u8(x as int)
}

/// The lane as `u8`, saturating: a lane outside the range of `u8` gives the nearest
/// bound.
#[verifier::when_used_as_spec(spec_i16_to_u8_sat)]
pub fn i16_to_u8_sat(x: i16) -> (r: u8)
    ensures
        r == sat_u8(x as int),
{
    let c = clamp_i16(x, u8::MIN as i16, u8::MAX as i16);
    c as u8
}

/// The lane as `u16`: its low 16 bits, read as `u16`.
pub open spec fn spec_i16_to_u16(x: i16) -> u16 {
    wrap_u16(x as int)
}

/// The lane as `u16`: its low 16 bits, read as `u16`.
#[verifier::when_used_as_spec(spec_i16_to_u16)]
pub fn i16_to_u16(x: i16) -> (r: u16)
    ensures
        r == wrap_u16(x as int),
{
    proof {
        lemma_casts_i16(x);
    }
    x as u16
}

/// The lane as `u16`, saturating: a lane outside the range of `u16` gives the nearest
/// bound.
pub open spec fn spec_i16_to_u16_sat(x: i16) -> u16 {
    sat_u16(x as int)
}

/// The lane as `u16`, saturating: a lane outside the range of `u16` gives the nearest
/// bound.
#[verifier::when_used_as_spec(spec_i16_to_u16_sat)]
pub fn i16_to_u16_sat(x: i16) -> (r: u16)
    ensures
        r == sat_u16(x as int),
{
    let c = max_i16(x, u16::MIN as i16);
    c as u16
}

/// The lane as `i32`, which holds every `i16`.
pub open spec fn spec_i16_to_i32(x: i16) -> i32 {
    wrap_i32(x as int)
}

/// The lane as `i32`, which holds every `i16`.
#[verifier::when_used_as_spec(spec_i16_to_i32)]
pub fn i16_to_i32(x: i16) -> (r: i32)
    ensures
        r == wrap_i32(x as int),
{
    proof {
        lemma_casts_i16(x);
    }
    x as i32
}

/// The lane as `i32`, saturating; nothing saturates, since `i32` holds every `i16`.
pub open spec fn spec_i16_to_i32_sat(x: i16) -> i32 {
    sat_i32(x as int)
}

/// The lane as `i32`, saturating; nothing saturates, since `i32` holds every `i16`.
#[verifier::when_used_as_spec(spec_i16_to_i32_sat)]
pub fn i16_to_i32_sat(x: i16) -> (r: i32)
    ensures
        r == sat_i32(x as int),
{
    i16_to_i32(x)
}

/// The lane as `u32`, sign-extended: a negative lane wraps around.
pub open spec fn spec_i16_to_u32(x: i16) -> u32 {
    wrap_u32(x as int)
}

/// The lane as `u32`, sign-extended: a negative lane wraps around.
#[verifier::when_used_as_spec(spec_i16_to_u32)]
pub fn i16_to_u32(x: i16) -> (r: u32)
    ensures
        r == wrap_u32(x as int),
{
    proof {
        lemma_casts_i16(x);
    }
    x as u32
}

/// The lane as `u32`, saturating: a lane outside the range of `u32` gives the nearest
/// bound.
pub open spec fn spec_i16_to_u32_sat(x: i16) -> u32 {
    sat_u32(x as int)
}

/// The lane as `u32`, saturating: a lane outside the range of `u32` gives the nearest
/// bound.
#[verifier::when_used_as_spec(spec_i16_to_u32_sat)]
pub fn i16_to_u32_sat(x: i16) -> (r: u32)
    ensures
        r == sat_u32(x as int),
{
    let c = max_i16(x, u32::MIN as i16);
    c as u32
}

/// The lane as `i64`, which holds every `i16`.
pub open spec fn spec_i16_to_i64(x: i16) -> i64 {
    wrap_i64(x as int)
}

/// The lane as `i64`, which holds every `i16`.
#[verifier::when_used_as_spec(spec_i16_to_i64)]
pub fn i16_to_i64(x: i16) -> (r: i64)
    ensures
        r == wrap_i64(x as int),
{
    proof {
        lemma_casts_i16(x);
    }
    x as i64
}

/// The lane as `i64`, saturating; nothing saturates, since `i64` holds every `i16`.
pub open spec fn spec_i16_to_i64_sat(x: i16) -> i64 {
    sat_i64(x as int)
}

/// The lane as `i64`, saturating; nothing saturates, since `i64` holds every `i16`.
#[verifier::when_used_as_spec(spec_i16_to_i64_sat)]
pub fn i16_to_i64_sat(x: i16) -> (r: i64)
    ensures
        r == sat_i64(x as int),
{
    i16_to_i64(x)
}

/// The lane as `u64`, sign-extended: a negative lane wraps around.
pub open spec fn spec_i16_to_u64(x: i16) -> u64 {
    wrap_u64(x as int)
}

/// The lane as `u64`, sign-extended: a negative lane wraps around.
#[verifier::when_used_as_spec(spec_i16_to_u64)]
pub fn i16_to_u64(x: i16) -> (r: u64)
    ensures
        r == wrap_u64(x as int),
{
    proof {
        lemma_casts_i16(x);
    }
    x as u64
}

/// The lane as `u64`, saturating: a lane outside the range of `u64` gives the nearest
/// bound.
pub open spec fn spec_i16_to_u64_sat(x: i16) -> u64 {
    sat_u64(x as int)
}

/// The lane as `u64`, saturating: a lane outside the range of `u64` gives the nearest
/// bound.
#[verifier::when_used_as_spec(spec_i16_to_u64_sat)]
pub fn i16_to_u64_sat(x: i16) -> (r: u64)
    ensures
        r == sat_u64(x as int),
{
    let c = max_i16(x, u64::MIN as i16);
    c as u64
}

/// Addition commutes and associates, and swapping the operands of a subtraction negates the
/// difference; all of it holds with wrap-around.
pub proof fn lemma_arith_i16(x: i16, y: i16, z: i16)
    ensures
        add_i16(x, y) == add_i16(y, x),
        add_i16(add_i16(x, y), z) == add_i16(x, add_i16(y, z)),
        sub_i16(x, y) == neg_i16(sub_i16(y, x)),
{
    lemma_wrap_i16_sum(x + y, z as int);
    lemma_wrap_i16_sum(y + z, x as int);
    lemma_wrap_i16_sum(y - x, 0);
    lemma_wrap_i16(0, y - x);
}

/// Flipping every bit of a lane is the exclusive disjunction with all ones, and gives minus
/// one minus the lane.
pub proof fn lemma_not_i16(x: i16)
    ensures
        not_i16(x) == x ^ -1i16,
        not_i16(x) == -1 - x,
{
    lemma_bits_i16(x, 0, 0, 0);
}

/// The magnitude of a lane other than `i16::MIN` is not negative; that of `i16::MIN` is
/// `i16::MIN`; and the magnitude of a magnitude is that magnitude.
pub proof fn lemma_abs_i16(x: i16)
    ensures
        x != i16::MIN ==> abs_i16(x) >= 0,
        x != i16::MIN ==> abs_i16(x) == (if x < 0 { -x } else { x as int }),
        x == i16::MIN ==> abs_i16(x) == i16::MIN,
        abs_i16(abs_i16(x)) == abs_i16(x),
{
    lemma_wrap_i16_near(-x);
    lemma_wrap_i16_near(-abs_i16(x));
}

/// A pointer-sized integer as `i16`: wrapped to `i16` where `i16` does not hold it.
pub open spec fn spec_isize_to_i16(x: isize) -> i16 {
    wrap_i16(x as int)
}

/// A pointer-sized integer as `i16`: wrapped to `i16` where `i16` does not hold it.
#[verifier::when_used_as_spec(spec_isize_to_i16)]
pub fn isize_to_i16(x: isize) -> (r: i16)
    ensures
        r == wrap_i16(x as int),
{
    crate::scalar::lane_i64::i64_to_i16(x as i64)
}

/// Read as `u16` and then as `i16` again, a lane is what it was.
pub proof fn lemma_recast_i16(x: i16)
    ensures
        crate::scalar::lane_u16::u16_to_i16(i16_to_u16(x)) == x,
{
    lemma_wrap_u16_near(x as int);
    lemma_wrap_i16_near(wrap_u16(x as int) as int);
}

/// A blend under an all-ones mask is `b`, under an all-zero mask `a`; and a choice by the
/// sign of the mask is the blend under the mask's sign spread over the lane.
pub proof fn lemma_blend_i16(m: i16, a: i16, b: i16)
    ensures
        m == -1 ==> bitselect_i16(m, a, b) == b,
        m == 0 ==> bitselect_i16(m, a, b) == a,
        select_i16(m, a, b) == bitselect_i16(m >> 15i16, a, b),
        m < 0 ==> select_i16(m, a, b) == b,
        m >= 0 ==> select_i16(m, a, b) == a,
{
    lemma_bits_i16(m, m, a, b);
    lemma_bits_i16(m, m >> 15i16, a, b);
}

} // verus!
