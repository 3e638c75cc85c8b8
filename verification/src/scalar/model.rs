//! The integer model of a lane: wrap-around, saturation, masks and truncating division.
//!
//! Every lane operation of the library is specified by one of these functions, applied to
//! mathematical integers.

use vstd::prelude::*;

verus! {

/// The quotient of `a` by `b` rounded toward zero, as machine division of signed integers
/// rounds it.
pub open spec fn trunc_div(a: int, b: int) -> int
    recommends
        b != 0,
{
    if a >= 0 {
        if b > 0 {
            a / b
        } else {
            -(a / (-b))
        }
    } else {
        if b > 0 {
            -((-a) / b)
        } else {
            (-a) / (-b)
        }
    }
}

/// The remainder that goes with [`trunc_div`]; it has the sign of `a`.
pub open spec fn trunc_rem(a: int, b: int) -> int
    recommends
        b != 0,
{
    a - trunc_div(a, b) * b
}

/// The `i8` that is congruent to `v` modulo 2^8.
pub open spec fn wrap_i8(v: int) -> i8 {
    let m = v % 0x100;
    if m > i8::MAX {
        (m - 0x100) as i8
    } else {
        m as i8
    }
}

/// `v` clamped to the range of `i8`.
pub open spec fn sat_i8(v: int) -> i8 {
    if v < i8::MIN {
        i8::MIN
    } else if v > i8::MAX {
        i8::MAX
    } else {
        v as i8
    }
}

/// The 8-bit lane mask of a truth value: all ones for true, zero for false.
pub open spec fn mask_i8(c: bool) -> i8 {
    if c {
        -1i8
    } else {
        0i8
    }
}

/// The `u8` that is congruent to `v` modulo 2^8.
pub open spec fn wrap_u8(v: int) -> u8 {
    (v % 0x100) as u8
}

/// `v` clamped to the range of `u8`.
pub open spec fn sat_u8(v: int) -> u8 {
    if v < u8::MIN {
        u8::MIN
    } else if v > u8::MAX {
        u8::MAX
    } else {
        v as u8
    }
}

/// The `i16` that is congruent to `v` modulo 2^16.
pub open spec fn wrap_i16(v: int) -> i16 {
    let m = v % 0x1_0000;
    if m > i16::MAX {
        (m - 0x1_0000) as i16
    } else {
        m as i16
    }
}

/// `v` clamped to the range of `i16`.
pub open spec fn sat_i16(v: int) -> i16 {
    if v < i16::MIN {
        i16::MIN
    } else if v > i16::MAX {
        i16::MAX
    } else {
        v as i16
    }
}

/// The 16-bit lane mask of a truth value: all ones for true, zero for false.
pub open spec fn mask_i16(c: bool) -> i16 {
    if c {
        -1i16
    } else {
        0i16
    }
}

/// The `u16` that is congruent to `v` modulo 2^16.
pub open spec fn wrap_u16(v: int) -> u16 {
    (v % 0x1_0000) as u16
}

/// `v` clamped to the range of `u16`.
pub open spec fn sat_u16(v: int) -> u16 {
    if v < u16::MIN {
        u16::MIN
    } else if v > u16::MAX {
        u16::MAX
    } else {
        v as u16
    }
}

/// The `i32` that is congruent to `v` modulo 2^32.
pub open spec fn wrap_i32(v: int) -> i32 {
    let m = v % 0x1_0000_0000;
    if m > i32::MAX {
        (m - 0x1_0000_0000) as i32
    } else {
        m as i32
    }
}

/// `v` clamped to the range of `i32`.
pub open spec fn sat_i32(v: int) -> i32 {
    if v < i32::MIN {
        i32::MIN
    } else if v > i32::MAX {
        i32::MAX
    } else {
        v as i32
    }
}

/// The 32-bit lane mask of a truth value: all ones for true, zero for false.
pub open spec fn mask_i32(c: bool) -> i32 {
    if c {
        -1i32
    } else {
        0i32
    }
}

/// The `u32` that is congruent to `v` modulo 2^32.
pub open spec fn wrap_u32(v: int) -> u32 {
    (v % 0x1_0000_0000) as u32
}

/// `v` clamped to the range of `u32`.
pub open spec fn sat_u32(v: int) -> u32 {
    if v < u32::MIN {
        u32::MIN
    } else if v > u32::MAX {
        u32::MAX
    } else {
        v as u32
    }
}

/// The `i64` that is congruent to `v` modulo 2^64.
pub open spec fn wrap_i64(v: int) -> i64 {
    let m = v % 0x1_0000_0000_0000_0000;
    if m > i64::MAX {
        (m - 0x1_0000_0000_0000_0000) as i64
    } else {
        m as i64
    }
}

/// `v` clamped to the range of `i64`.
pub open spec fn sat_i64(v: int) -> i64 {
    if v < i64::MIN {
        i64::MIN
    } else if v > i64::MAX {
        i64::MAX
    } else {
        v as i64
    }
}

/// The 64-bit lane mask of a truth value: all ones for true, zero for false.
pub open spec fn mask_i64(c: bool) -> i64 {
    if c {
        -1i64
    } else {
        0i64
    }
}

/// The `u64` that is congruent to `v` modulo 2^64.
pub open spec fn wrap_u64(v: int) -> u64 {
    (v % 0x1_0000_0000_0000_0000) as u64
}

/// `v` clamped to the range of `u64`.
pub open spec fn sat_u64(v: int) -> u64 {
    if v < u64::MIN {
        u64::MIN
    } else if v > u64::MAX {
        u64::MAX
    } else {
        v as u64
    }
}

/// Euclidean division by a negative divisor is the negated division by its magnitude, with
/// the same remainder.
pub proof fn lemma_div_negative_divisor(a: int, b: int)
    by (nonlinear_arith)
    requires
        b < 0,
    ensures
        a / b == -(a / (-b)),
        a % b == a % (-b),
{
}

/// A quotient of non-negative numbers lies between zero and the dividend, and strictly
/// below a positive dividend once the divisor exceeds one.
pub proof fn lemma_quotient_bounds(a: int, b: int)
    by (nonlinear_arith)
    requires
        a >= 0,
        b > 0,
    ensures
        0 <= a / b <= a,
        b > 1 && a > 0 ==> a / b < a,
        a == b * (a / b) + a % b,
        0 <= a % b < b,
{
}

/// The truncated quotient never exceeds the dividend in magnitude, and the truncated
/// remainder is smaller in magnitude than the divisor and has the dividend's sign.
pub proof fn lemma_trunc_div_rem(a: int, b: int)
    requires
        b != 0,
    ensures
        a >= 0 ==> 0 <= trunc_rem(a, b) && trunc_rem(a, b) < (if b < 0 { -b } else { b }),
        a <= 0 ==> 0 >= trunc_rem(a, b) && trunc_rem(a, b) > (if b < 0 { b } else { -b }),
        (if a < 0 { a } else { -a }) <= trunc_div(a, b) <= (if a < 0 { -a } else { a }),
        a == b * trunc_div(a, b) + trunc_rem(a, b),
        a >= 0 ==> trunc_rem(a, b) == a % (if b < 0 { -b } else { b }),
        a < 0 ==> trunc_rem(a, b) == -((-a) % (if b < 0 { -b } else { b })),
{
    let ma = if a < 0 { -a } else { a };
    let mb = if b < 0 { -b } else { b };
    lemma_quotient_bounds(ma, mb);
    assert(b * trunc_div(a, b) == trunc_div(a, b) * b) by (nonlinear_arith);
    if (a >= 0) == (b > 0) {
        assert(trunc_div(a, b) == ma / mb);
        assert(trunc_div(a, b) * b == (ma / mb) * b);
    } else {
        assert(trunc_div(a, b) == -(ma / mb));
        assert(trunc_div(a, b) * b == (-(ma / mb)) * b);
    }
    assert((ma / mb) * mb == mb * (ma / mb)) by (nonlinear_arith);
    assert((-(ma / mb)) * mb == -(mb * (ma / mb))) by (nonlinear_arith);
    assert((ma / mb) * (-mb) == -(mb * (ma / mb))) by (nonlinear_arith);
    assert((-(ma / mb)) * (-mb) == mb * (ma / mb)) by (nonlinear_arith);
}

/// Saturation to `i8` gives the lower bound for every value below the range, the upper bound
/// for every value above it, and leaves a value of the range as it is, as wrapping does; so
/// saturating a second time changes nothing.
pub proof fn lemma_sat_i8(v: int)
    ensures
        v < i8::MIN ==> sat_i8(v) == i8::MIN,
        v > i8::MAX ==> sat_i8(v) == i8::MAX,
        i8::MIN <= v <= i8::MAX ==> sat_i8(v) == v && wrap_i8(v) == v,
        sat_i8(sat_i8(v) as int) == sat_i8(v),
{
}

/// Saturation to `u8` gives the lower bound for every value below the range, the upper bound
/// for every value above it, and leaves a value of the range as it is, as wrapping does; so
/// saturating a second time changes nothing.
pub proof fn lemma_sat_u8(v: int)
    ensures
        v < u8::MIN ==> sat_u8(v) == u8::MIN,
        v > u8::MAX ==> sat_u8(v) == u8::MAX,
        u8::MIN <= v <= u8::MAX ==> sat_u8(v) == v && wrap_u8(v) == v,
        sat_u8(sat_u8(v) as int) == sat_u8(v),
{
}

/// Saturation to `i16` gives the lower bound for every value below the range, the upper bound
/// for every value above it, and leaves a value of the range as it is, as wrapping does; so
/// saturating a second time changes nothing.
pub proof fn lemma_sat_i16(v: int)
    ensures
        v < i16::MIN ==> sat_i16(v) == i16::MIN,
        v > i16::MAX ==> sat_i16(v) == i16::MAX,
        i16::MIN <= v <= i16::MAX ==> sat_i16(v) == v && wrap_i16(v) == v,
        sat_i16(sat_i16(v) as int) == sat_i16(v),
{
}

/// Saturation to `u16` gives the lower bound for every value below the range, the upper bound
/// for every value above it, and leaves a value of the range as it is, as wrapping does; so
/// saturating a second time changes nothing.
pub proof fn lemma_sat_u16(v: int)
    ensures
        v < u16::MIN ==> sat_u16(v) == u16::MIN,
        v > u16::MAX ==> sat_u16(v) == u16::MAX,
        u16::MIN <= v <= u16::MAX ==> sat_u16(v) == v && wrap_u16(v) == v,
        sat_u16(sat_u16(v) as int) == sat_u16(v),
{
}

/// Saturation to `i32` gives the lower bound for every value below the range, the upper bound
/// for every value above it, and leaves a value of the range as it is, as wrapping does; so
/// saturating a second time changes nothing.
pub proof fn lemma_sat_i32(v: int)
    ensures
        v < i32::MIN ==> sat_i32(v) == i32::MIN,
        v > i32::MAX ==> sat_i32(v) == i32::MAX,
        i32::MIN <= v <= i32::MAX ==> sat_i32(v) == v && wrap_i32(v) == v,
        sat_i32(sat_i32(v) as int) == sat_i32(v),
{
}

/// Saturation to `u32` gives the lower bound for every value below the range, the upper bound
/// for every value above it, and leaves a value of the range as it is, as wrapping does; so
/// saturating a second time changes nothing.
pub proof fn lemma_sat_u32(v: int)
    ensures
        v < u32::MIN ==> sat_u32(v) == u32::MIN,
        v > u32::MAX ==> sat_u32(v) == u32::MAX,
        u32::MIN <= v <= u32::MAX ==> sat_u32(v) == v && wrap_u32(v) == v,
        sat_u32(sat_u32(v) as int) == sat_u32(v),
{
}

/// Saturation to `i64` gives the lower bound for every value below the range, the upper bound
/// for every value above it, and leaves a value of the range as it is, as wrapping does; so
/// saturating a second time changes nothing.
pub proof fn lemma_sat_i64(v: int)
    ensures
        v < i64::MIN ==> sat_i64(v) == i64::MIN,
        v > i64::MAX ==> sat_i64(v) == i64::MAX,
        i64::MIN <= v <= i64::MAX ==> sat_i64(v) == v && wrap_i64(v) == v,
        sat_i64(sat_i64(v) as int) == sat_i64(v),
{
}

/// Saturation to `u64` gives the lower bound for every value below the range, the upper bound
/// for every value above it, and leaves a value of the range as it is, as wrapping does; so
/// saturating a second time changes nothing.
pub proof fn lemma_sat_u64(v: int)
    ensures
        v < u64::MIN ==> sat_u64(v) == u64::MIN,
        v > u64::MAX ==> sat_u64(v) == u64::MAX,
        u64::MIN <= v <= u64::MAX ==> sat_u64(v) == v && wrap_u64(v) == v,
        sat_u64(sat_u64(v) as int) == sat_u64(v),
{
}

/// How many times 2^8 has to be taken from `v` to reach `wrap_i8(v)`.
pub open spec fn carry_i8(v: int) -> int {
    let r = 0x100int;
    if v % r > i8::MAX { v / r + 1 } else { v / r }
}

/// Numbers that differ by a multiple of 2^8 wrap to the same `i8`, and a number
/// differs from its wrapped value by such a multiple.
pub proof fn lemma_wrap_i8_congruent(v: int, k: int)
    ensures
        wrap_i8(v + 0x100 * k) == wrap_i8(v),
        v == wrap_i8(v) + 0x100 * carry_i8(v),
{
    let r = 0x100int;
    vstd::arithmetic::div_mod::lemma_mod_multiples_vanish(k, v, r);
    assert(r * k + v == v + r * k);
}

/// Where `v` is `q` times 2^8 and a rest below 2^8, `wrap_i8(v)` is that rest, read as
/// `i8`.
pub proof fn lemma_wrap_i8_parts(v: int, q: int, r: int)
    requires
        v == 0x100 * q + r,
        0 <= r < 0x100,
    ensures
        r > i8::MAX ==> wrap_i8(v) == r - 0x100,
        r <= i8::MAX ==> wrap_i8(v) == r,
{
    vstd::arithmetic::div_mod::lemma_fundamental_div_mod_converse(v, 0x100, q, r);
}

/// A value that misses the range of `i8` by less than 2^8 wraps around once.
pub proof fn lemma_wrap_i8_near(v: int)
    requires
        i8::MIN - 0x100 <= v <= i8::MAX + 0x100,
    ensures
        v > i8::MAX ==> wrap_i8(v) == v - 0x100,
        v < i8::MIN ==> wrap_i8(v) == v + 0x100,
        i8::MIN <= v <= i8::MAX ==> wrap_i8(v) == v,
{
    if v < -0x100 {
        lemma_wrap_i8_parts(v, -2, v + 2 * 0x100);
    } else if v < 0 {
        lemma_wrap_i8_parts(v, -1, v + 0x100);
    } else if v < 0x100 {
        lemma_wrap_i8_parts(v, 0, v);
    } else {
        lemma_wrap_i8_parts(v, 1, v - 0x100);
    }
}

/// A term of a sum may be wrapped to `i8` before the sum is.
pub proof fn lemma_wrap_i8_sum(a: int, b: int)
    ensures
        wrap_i8(wrap_i8(a) + b) == wrap_i8(a + b),
        wrap_i8(b + wrap_i8(a)) == wrap_i8(a + b),
{
    lemma_wrap_i8_congruent(a, 0);
    lemma_wrap_i8_congruent(wrap_i8(a) + b, carry_i8(a));
    lemma_wrap_i8_congruent(b + wrap_i8(a), carry_i8(a));
}

/// Wrapping to `i8` may be done at any step of a sum, a difference or a product, and
/// leaves a value of the type's range as it is.
pub proof fn lemma_wrap_i8(a: int, b: int)
    ensures
        wrap_i8(wrap_i8(a) + b) == wrap_i8(a + b),
        wrap_i8(a + wrap_i8(b)) == wrap_i8(a + b),
        wrap_i8(wrap_i8(a) - b) == wrap_i8(a - b),
        wrap_i8(a - wrap_i8(b)) == wrap_i8(a - b),
        wrap_i8(wrap_i8(a) * b) == wrap_i8(a * b),
        wrap_i8(a * wrap_i8(b)) == wrap_i8(a * b),
        i8::MIN <= a <= i8::MAX ==> wrap_i8(a) == a,
{
    let r = 0x100int;
    let wa = wrap_i8(a) as int;
    let wb = wrap_i8(b) as int;
    lemma_wrap_i8_congruent(a, 0);
    lemma_wrap_i8_congruent(b, 0);
    let ka = carry_i8(a);
    let kb = carry_i8(b);
    lemma_wrap_i8_congruent(wa + b, ka);
    lemma_wrap_i8_congruent(a + wb, kb);
    lemma_wrap_i8_congruent(wa - b, ka);
    lemma_wrap_i8_congruent(a - b, kb);
    assert(a * b == wa * b + r * (ka * b)) by (nonlinear_arith)
        requires
            a == wa + r * ka,
    ;
    assert(a * b == a * wb + r * (a * kb)) by (nonlinear_arith)
        requires
            b == wb + r * kb,
    ;
    lemma_wrap_i8_congruent(wa * b, ka * b);
    lemma_wrap_i8_congruent(a * wb, a * kb);
}

/// How many times 2^8 has to be taken from `v` to reach `wrap_u8(v)`.
pub open spec fn carry_u8(v: int) -> int {
    let r = 0x100int;
    v / r
}

/// Numbers that differ by a multiple of 2^8 wrap to the same `u8`, and a number
/// differs from its wrapped value by such a multiple.
pub proof fn lemma_wrap_u8_congruent(v: int, k: int)
    ensures
        wrap_u8(v + 0x100 * k) == wrap_u8(v),
        v == wrap_u8(v) + 0x100 * carry_u8(v),
{
    let r = 0x100int;
    vstd::arithmetic::div_mod::lemma_mod_multiples_vanish(k, v, r);
    assert(r * k + v == v + r * k);
}

/// Where `v` is `q` times 2^8 and a rest below 2^8, `wrap_u8(v)` is that rest, read as
/// `u8`.
pub proof fn lemma_wrap_u8_parts(v: int, q: int, r: int)
    requires
        v == 0x100 * q + r,
        0 <= r < 0x100,
    ensures
        wrap_u8(v) == r,
{
    vstd::arithmetic::div_mod::lemma_fundamental_div_mod_converse(v, 0x100, q, r);
}

/// A value that misses the range of `u8` by less than 2^8 wraps around once.
pub proof fn lemma_wrap_u8_near(v: int)
    requires
        u8::MIN - 0x100 <= v <= u8::MAX + 0x100,
    ensures
        v > u8::MAX ==> wrap_u8(v) == v - 0x100,
        v < u8::MIN ==> wrap_u8(v) == v + 0x100,
        u8::MIN <= v <= u8::MAX ==> wrap_u8(v) == v,
{
    if v < -0x100 {
        lemma_wrap_u8_parts(v, -2, v + 2 * 0x100);
    } else if v < 0 {
        lemma_wrap_u8_parts(v, -1, v + 0x100);
    } else if v < 0x100 {
        lemma_wrap_u8_parts(v, 0, v);
    } else {
        lemma_wrap_u8_parts(v, 1, v - 0x100);
    }
}

/// A term of a sum may be wrapped to `u8` before the sum is.
pub proof fn lemma_wrap_u8_sum(a: int, b: int)
    ensures
        wrap_u8(wrap_u8(a) + b) == wrap_u8(a + b),
        wrap_u8(b + wrap_u8(a)) == wrap_u8(a + b),
{
    lemma_wrap_u8_congruent(a, 0);
    lemma_wrap_u8_congruent(wrap_u8(a) + b, carry_u8(a));
    lemma_wrap_u8_congruent(b + wrap_u8(a), carry_u8(a));
}

/// Wrapping to `u8` may be done at any step of a sum, a difference or a product, and
/// leaves a value of the type's range as it is.
pub proof fn lemma_wrap_u8(a: int, b: int)
    ensures
        wrap_u8(wrap_u8(a) + b) == wrap_u8(a + b),
        wrap_u8(a + wrap_u8(b)) == wrap_u8(a + b),
        wrap_u8(wrap_u8(a) - b) == wrap_u8(a - b),
        wrap_u8(a - wrap_u8(b)) == wrap_u8(a - b),
        wrap_u8(wrap_u8(a) * b) == wrap_u8(a * b),
        wrap_u8(a * wrap_u8(b)) == wrap_u8(a * b),
        u8::MIN <= a <= u8::MAX ==> wrap_u8(a) == a,
{
    let r = 0x100int;
    let wa = wrap_u8(a) as int;
    let wb = wrap_u8(b) as int;
    lemma_wrap_u8_congruent(a, 0);
    lemma_wrap_u8_congruent(b, 0);
    let ka = carry_u8(a);
    let kb = carry_u8(b);
    lemma_wrap_u8_congruent(wa + b, ka);
    lemma_wrap_u8_congruent(a + wb, kb);
    lemma_wrap_u8_congruent(wa - b, ka);
    lemma_wrap_u8_congruent(a - b, kb);
    assert(a * b == wa * b + r * (ka * b)) by (nonlinear_arith)
        requires
            a == wa + r * ka,
    ;
    assert(a * b == a * wb + r * (a * kb)) by (nonlinear_arith)
        requires
            b == wb + r * kb,
    ;
    lemma_wrap_u8_congruent(wa * b, ka * b);
    lemma_wrap_u8_congruent(a * wb, a * kb);
}

/// How many times 2^16 has to be taken from `v` to reach `wrap_i16(v)`.
pub open spec fn carry_i16(v: int) -> int {
    let r = 0x1_0000int;
    if v % r > i16::MAX { v / r + 1 } else { v / r }
}

/// Numbers that differ by a multiple of 2^16 wrap to the same `i16`, and a number
/// differs from its wrapped value by such a multiple.
pub proof fn lemma_wrap_i16_congruent(v: int, k: int)
    ensures
        wrap_i16(v + 0x1_0000 * k) == wrap_i16(v),
        v == wrap_i16(v) + 0x1_0000 * carry_i16(v),
{
    let r = 0x1_0000int;
    vstd::arithmetic::div_mod::lemma_mod_multiples_vanish(k, v, r);
    assert(r * k + v == v + r * k);
}

/// Where `v` is `q` times 2^16 and a rest below 2^16, `wrap_i16(v)` is that rest, read as
/// `i16`.
pub proof fn lemma_wrap_i16_parts(v: int, q: int, r: int)
    requires
        v == 0x1_0000 * q + r,
        0 <= r < 0x1_0000,
    ensures
        r > i16::MAX ==> wrap_i16(v) == r - 0x1_0000,
        r <= i16::MAX ==> wrap_i16(v) == r,
{
    vstd::arithmetic::div_mod::lemma_fundamental_div_mod_converse(v, 0x1_0000, q, r);
}

/// A value that misses the range of `i16` by less than 2^16 wraps around once.
pub proof fn lemma_wrap_i16_near(v: int)
    requires
        i16::MIN - 0x1_0000 <= v <= i16::MAX + 0x1_0000,
    ensures
        v > i16::MAX ==> wrap_i16(v) == v - 0x1_0000,
        v < i16::MIN ==> wrap_i16(v) == v + 0x1_0000,
        i16::MIN <= v <= i16::MAX ==> wrap_i16(v) == v,
{
    if v < -0x1_0000 {
        lemma_wrap_i16_parts(v, -2, v + 2 * 0x1_0000);
    } else if v < 0 {
        lemma_wrap_i16_parts(v, -1, v + 0x1_0000);
    } else if v < 0x1_0000 {
        lemma_wrap_i16_parts(v, 0, v);
    } else {
        lemma_wrap_i16_parts(v, 1, v - 0x1_0000);
    }
}

/// A term of a sum may be wrapped to `i16` before the sum is.
pub proof fn lemma_wrap_i16_sum(a: int, b: int)
    ensures
        wrap_i16(wrap_i16(a) + b) == wrap_i16(a + b),
        wrap_i16(b + wrap_i16(a)) == wrap_i16(a + b),
{
    lemma_wrap_i16_congruent(a, 0);
    lemma_wrap_i16_congruent(wrap_i16(a) + b, carry_i16(a));
    lemma_wrap_i16_congruent(b + wrap_i16(a), carry_i16(a));
}

/// Wrapping to `i16` may be done at any step of a sum, a difference or a product, and
/// leaves a value of the type's range as it is.
pub proof fn lemma_wrap_i16(a: int, b: int)
    ensures
        wrap_i16(wrap_i16(a) + b) == wrap_i16(a + b),
        wrap_i16(a + wrap_i16(b)) == wrap_i16(a + b),
        wrap_i16(wrap_i16(a) - b) == wrap_i16(a - b),
        wrap_i16(a - wrap_i16(b)) == wrap_i16(a - b),
        wrap_i16(wrap_i16(a) * b) == wrap_i16(a * b),
        wrap_i16(a * wrap_i16(b)) == wrap_i16(a * b),
        i16::MIN <= a <= i16::MAX ==> wrap_i16(a) == a,
{
    let r = 0x1_0000int;
    let wa = wrap_i16(a) as int;
    let wb = wrap_i16(b) as int;
    lemma_wrap_i16_congruent(a, 0);
    lemma_wrap_i16_congruent(b, 0);
    let ka = carry_i16(a);
    let kb = carry_i16(b);
    lemma_wrap_i16_congruent(wa + b, ka);
    lemma_wrap_i16_congruent(a + wb, kb);
    lemma_wrap_i16_congruent(wa - b, ka);
    lemma_wrap_i16_congruent(a - b, kb);
    assert(a * b == wa * b + r * (ka * b)) by (nonlinear_arith)
        requires
            a == wa + r * ka,
    ;
    assert(a * b == a * wb + r * (a * kb)) by (nonlinear_arith)
        requires
            b == wb + r * kb,
    ;
    lemma_wrap_i16_congruent(wa * b, ka * b);
    lemma_wrap_i16_congruent(a * wb, a * kb);
}

/// How many times 2^16 has to be taken from `v` to reach `wrap_u16(v)`.
pub open spec fn carry_u16(v: int) -> int {
    let r = 0x1_0000int;
    v / r
}

/// Numbers that differ by a multiple of 2^16 wrap to the same `u16`, and a number
/// differs from its wrapped value by such a multiple.
pub proof fn lemma_wrap_u16_congruent(v: int, k: int)
    ensures
        wrap_u16(v + 0x1_0000 * k) == wrap_u16(v),
        v == wrap_u16(v) + 0x1_0000 * carry_u16(v),
{
    let r = 0x1_0000int;
    vstd::arithmetic::div_mod::lemma_mod_multiples_vanish(k, v, r);
    assert(r * k + v == v + r * k);
}

/// Where `v` is `q` times 2^16 and a rest below 2^16, `wrap_u16(v)` is that rest, read as
/// `u16`.
pub proof fn lemma_wrap_u16_parts(v: int, q: int, r: int)
    requires
        v == 0x1_0000 * q + r,
        0 <= r < 0x1_0000,
    ensures
        wrap_u16(v) == r,
{
    vstd::arithmetic::div_mod::lemma_fundamental_div_mod_converse(v, 0x1_0000, q, r);
}

/// A value that misses the range of `u16` by less than 2^16 wraps around once.
pub proof fn lemma_wrap_u16_near(v: int)
    requires
        u16::MIN - 0x1_0000 <= v <= u16::MAX + 0x1_0000,
    ensures
        v > u16::MAX ==> wrap_u16(v) == v - 0x1_0000,
        v < u16::MIN ==> wrap_u16(v) == v + 0x1_0000,
        u16::MIN <= v <= u16::MAX ==> wrap_u16(v) == v,
{
    if v < -0x1_0000 {
        lemma_wrap_u16_parts(v, -2, v + 2 * 0x1_0000);
    } else if v < 0 {
        lemma_wrap_u16_parts(v, -1, v + 0x1_0000);
    } else if v < 0x1_0000 {
        lemma_wrap_u16_parts(v, 0, v);
    } else {
        lemma_wrap_u16_parts(v, 1, v - 0x1_0000);
    }
}

/// A term of a sum may be wrapped to `u16` before the sum is.
pub proof fn lemma_wrap_u16_sum(a: int, b: int)
    ensures
        wrap_u16(wrap_u16(a) + b) == wrap_u16(a + b),
        wrap_u16(b + wrap_u16(a)) == wrap_u16(a + b),
{
    lemma_wrap_u16_congruent(a, 0);
    lemma_wrap_u16_congruent(wrap_u16(a) + b, carry_u16(a));
    lemma_wrap_u16_congruent(b + wrap_u16(a), carry_u16(a));
}

/// Wrapping to `u16` may be done at any step of a sum, a difference or a product, and
/// leaves a value of the type's range as it is.
pub proof fn lemma_wrap_u16(a: int, b: int)
    ensures
        wrap_u16(wrap_u16(a) + b) == wrap_u16(a + b),
        wrap_u16(a + wrap_u16(b)) == wrap_u16(a + b),
        wrap_u16(wrap_u16(a) - b) == wrap_u16(a - b),
        wrap_u16(a - wrap_u16(b)) == wrap_u16(a - b),
        wrap_u16(wrap_u16(a) * b) == wrap_u16(a * b),
        wrap_u16(a * wrap_u16(b)) == wrap_u16(a * b),
        u16::MIN <= a <= u16::MAX ==> wrap_u16(a) == a,
{
    let r = 0x1_0000int;
    let wa = wrap_u16(a) as int;
    let wb = wrap_u16(b) as int;
    lemma_wrap_u16_congruent(a, 0);
    lemma_wrap_u16_congruent(b, 0);
    let ka = carry_u16(a);
    let kb = carry_u16(b);
    lemma_wrap_u16_congruent(wa + b, ka);
    lemma_wrap_u16_congruent(a + wb, kb);
    lemma_wrap_u16_congruent(wa - b, ka);
    lemma_wrap_u16_congruent(a - b, kb);
    assert(a * b == wa * b + r * (ka * b)) by (nonlinear_arith)
        requires
            a == wa + r * ka,
    ;
    assert(a * b == a * wb + r * (a * kb)) by (nonlinear_arith)
        requires
            b == wb + r * kb,
    ;
    lemma_wrap_u16_congruent(wa * b, ka * b);
    lemma_wrap_u16_congruent(a * wb, a * kb);
}

/// How many times 2^32 has to be taken from `v` to reach `wrap_i32(v)`.
pub open spec fn carry_i32(v: int) -> int {
    let r = 0x1_0000_0000int;
    if v % r > i32::MAX { v / r + 1 } else { v / r }
}

/// Numbers that differ by a multiple of 2^32 wrap to the same `i32`, and a number
/// differs from its wrapped value by such a multiple.
pub proof fn lemma_wrap_i32_congruent(v: int, k: int)
    ensures
        wrap_i32(v + 0x1_0000_0000 * k) == wrap_i32(v),
        v == wrap_i32(v) + 0x1_0000_0000 * carry_i32(v),
{
    let r = 0x1_0000_0000int;
    vstd::arithmetic::div_mod::lemma_mod_multiples_vanish(k, v, r);
    assert(r * k + v == v + r * k);
}

/// Where `v` is `q` times 2^32 and a rest below 2^32, `wrap_i32(v)` is that rest, read as
/// `i32`.
pub proof fn lemma_wrap_i32_parts(v: int, q: int, r: int)
    requires
        v == 0x1_0000_0000 * q + r,
        0 <= r < 0x1_0000_0000,
    ensures
        r > i32::MAX ==> wrap_i32(v) == r - 0x1_0000_0000,
        r <= i32::MAX ==> wrap_i32(v) == r,
{
    vstd::arithmetic::div_mod::lemma_fundamental_div_mod_converse(v, 0x1_0000_0000, q, r);
}

/// A value that misses the range of `i32` by less than 2^32 wraps around once.
pub proof fn lemma_wrap_i32_near(v: int)
    requires
        i32::MIN - 0x1_0000_0000 <= v <= i32::MAX + 0x1_0000_0000,
    ensures
        v > i32::MAX ==> wrap_i32(v) == v - 0x1_0000_0000,
        v < i32::MIN ==> wrap_i32(v) == v + 0x1_0000_0000,
        i32::MIN <= v <= i32::MAX ==> wrap_i32(v) == v,
{
    if v < -0x1_0000_0000 {
        lemma_wrap_i32_parts(v, -2, v + 2 * 0x1_0000_0000);
    } else if v < 0 {
        lemma_wrap_i32_parts(v, -1, v + 0x1_0000_0000);
    } else if v < 0x1_0000_0000 {
        lemma_wrap_i32_parts(v, 0, v);
    } else {
        lemma_wrap_i32_parts(v, 1, v - 0x1_0000_0000);
    }
}

/// A term of a sum may be wrapped to `i32` before the sum is.
pub proof fn lemma_wrap_i32_sum(a: int, b: int)
    ensures
        wrap_i32(wrap_i32(a) + b) == wrap_i32(a + b),
        wrap_i32(b + wrap_i32(a)) == wrap_i32(a + b),
{
    lemma_wrap_i32_congruent(a, 0);
    lemma_wrap_i32_congruent(wrap_i32(a) + b, carry_i32(a));
    lemma_wrap_i32_congruent(b + wrap_i32(a), carry_i32(a));
}

/// Wrapping to `i32` may be done at any step of a sum, a difference or a product, and
/// leaves a value of the type's range as it is.
pub proof fn lemma_wrap_i32(a: int, b: int)
    ensures
        wrap_i32(wrap_i32(a) + b) == wrap_i32(a + b),
        wrap_i32(a + wrap_i32(b)) == wrap_i32(a + b),
        wrap_i32(wrap_i32(a) - b) == wrap_i32(a - b),
        wrap_i32(a - wrap_i32(b)) == wrap_i32(a - b),
        wrap_i32(wrap_i32(a) * b) == wrap_i32(a * b),
        wrap_i32(a * wrap_i32(b)) == wrap_i32(a * b),
        i32::MIN <= a <= i32::MAX ==> wrap_i32(a) == a,
{
    let r = 0x1_0000_0000int;
    let wa = wrap_i32(a) as int;
    let wb = wrap_i32(b) as int;
    lemma_wrap_i32_congruent(a, 0);
    lemma_wrap_i32_congruent(b, 0);
    let ka = carry_i32(a);
    let kb = carry_i32(b);
    lemma_wrap_i32_congruent(wa + b, ka);
    lemma_wrap_i32_congruent(a + wb, kb);
    lemma_wrap_i32_congruent(wa - b, ka);
    lemma_wrap_i32_congruent(a - b, kb);
    assert(a * b == wa * b + r * (ka * b)) by (nonlinear_arith)
        requires
            a == wa + r * ka,
    ;
    assert(a * b == a * wb + r * (a * kb)) by (nonlinear_arith)
        requires
            b == wb + r * kb,
    ;
    lemma_wrap_i32_congruent(wa * b, ka * b);
    lemma_wrap_i32_congruent(a * wb, a * kb);
}

/// How many times 2^32 has to be taken from `v` to reach `wrap_u32(v)`.
pub open spec fn carry_u32(v: int) -> int {
    let r = 0x1_0000_0000int;
    v / r
}

/// Numbers that differ by a multiple of 2^32 wrap to the same `u32`, and a number
/// differs from its wrapped value by such a multiple.
pub proof fn lemma_wrap_u32_congruent(v: int, k: int)
    ensures
        wrap_u32(v + 0x1_0000_0000 * k) == wrap_u32(v),
        v == wrap_u32(v) + 0x1_0000_0000 * carry_u32(v),
{
    let r = 0x1_0000_0000int;
    vstd::arithmetic::div_mod::lemma_mod_multiples_vanish(k, v, r);
    assert(r * k + v == v + r * k);
}

/// Where `v` is `q` times 2^32 and a rest below 2^32, `wrap_u32(v)` is that rest, read as
/// `u32`.
pub proof fn lemma_wrap_u32_parts(v: int, q: int, r: int)
    requires
        v == 0x1_0000_0000 * q + r,
        0 <= r < 0x1_0000_0000,
    ensures
        wrap_u32(v) == r,
{
    vstd::arithmetic::div_mod::lemma_fundamental_div_mod_converse(v, 0x1_0000_0000, q, r);
}

/// A value that misses the range of `u32` by less than 2^32 wraps around once.
pub proof fn lemma_wrap_u32_near(v: int)
    requires
        u32::MIN - 0x1_0000_0000 <= v <= u32::MAX + 0x1_0000_0000,
    ensures
        v > u32::MAX ==> wrap_u32(v) == v - 0x1_0000_0000,
        v < u32::MIN ==> wrap_u32(v) == v + 0x1_0000_0000,
        u32::MIN <= v <= u32::MAX ==> wrap_u32(v) == v,
{
    if v < -0x1_0000_0000 {
        lemma_wrap_u32_parts(v, -2, v + 2 * 0x1_0000_0000);
    } else if v < 0 {
        lemma_wrap_u32_parts(v, -1, v + 0x1_0000_0000);
    } else if v < 0x1_0000_0000 {
        lemma_wrap_u32_parts(v, 0, v);
    } else {
        lemma_wrap_u32_parts(v, 1, v - 0x1_0000_0000);
    }
}

/// A term of a sum may be wrapped to `u32` before the sum is.
pub proof fn lemma_wrap_u32_sum(a: int, b: int)
    ensures
        wrap_u32(wrap_u32(a) + b) == wrap_u32(a + b),
        wrap_u32(b + wrap_u32(a)) == wrap_u32(a + b),
{
    lemma_wrap_u32_congruent(a, 0);
    lemma_wrap_u32_congruent(wrap_u32(a) + b, carry_u32(a));
    lemma_wrap_u32_congruent(b + wrap_u32(a), carry_u32(a));
}

/// Wrapping to `u32` may be done at any step of a sum, a difference or a product, and
/// leaves a value of the type's range as it is.
pub proof fn lemma_wrap_u32(a: int, b: int)
    ensures
        wrap_u32(wrap_u32(a) + b) == wrap_u32(a + b),
        wrap_u32(a + wrap_u32(b)) == wrap_u32(a + b),
        wrap_u32(wrap_u32(a) - b) == wrap_u32(a - b),
        wrap_u32(a - wrap_u32(b)) == wrap_u32(a - b),
        wrap_u32(wrap_u32(a) * b) == wrap_u32(a * b),
        wrap_u32(a * wrap_u32(b)) == wrap_u32(a * b),
        u32::MIN <= a <= u32::MAX ==> wrap_u32(a) == a,
{
    let r = 0x1_0000_0000int;
    let wa = wrap_u32(a) as int;
    let wb = wrap_u32(b) as int;
    lemma_wrap_u32_congruent(a, 0);
    lemma_wrap_u32_congruent(b, 0);
    let ka = carry_u32(a);
    let kb = carry_u32(b);
    lemma_wrap_u32_congruent(wa + b, ka);
    lemma_wrap_u32_congruent(a + wb, kb);
    lemma_wrap_u32_congruent(wa - b, ka);
    lemma_wrap_u32_congruent(a - b, kb);
    assert(a * b == wa * b + r * (ka * b)) by (nonlinear_arith)
        requires
            a == wa + r * ka,
    ;
    assert(a * b == a * wb + r * (a * kb)) by (nonlinear_arith)
        requires
            b == wb + r * kb,
    ;
    lemma_wrap_u32_congruent(wa * b, ka * b);
    lemma_wrap_u32_congruent(a * wb, a * kb);
}

/// How many times 2^64 has to be taken from `v` to reach `wrap_i64(v)`.
pub open spec fn carry_i64(v: int) -> int {
    let r = 0x1_0000_0000_0000_0000int;
    if v % r > i64::MAX { v / r + 1 } else { v / r }
}

/// Numbers that differ by a multiple of 2^64 wrap to the same `i64`, and a number
/// differs from its wrapped value by such a multiple.
pub proof fn lemma_wrap_i64_congruent(v: int, k: int)
    ensures
        wrap_i64(v + 0x1_0000_0000_0000_0000 * k) == wrap_i64(v),
        v == wrap_i64(v) + 0x1_0000_0000_0000_0000 * carry_i64(v),
{
    let r = 0x1_0000_0000_0000_0000int;
    vstd::arithmetic::div_mod::lemma_mod_multiples_vanish(k, v, r);
    assert(r * k + v == v + r * k);
}

/// Where `v` is `q` times 2^64 and a rest below 2^64, `wrap_i64(v)` is that rest, read as
/// `i64`.
pub proof fn lemma_wrap_i64_parts(v: int, q: int, r: int)
    requires
        v == 0x1_0000_0000_0000_0000 * q + r,
        0 <= r < 0x1_0000_0000_0000_0000,
    ensures
        r > i64::MAX ==> wrap_i64(v) == r - 0x1_0000_0000_0000_0000,
        r <= i64::MAX ==> wrap_i64(v) == r,
{
    vstd::arithmetic::div_mod::lemma_fundamental_div_mod_converse(v, 0x1_0000_0000_0000_0000, q, r);
}

/// A value that misses the range of `i64` by less than 2^64 wraps around once.
pub proof fn lemma_wrap_i64_near(v: int)
    requires
        i64::MIN - 0x1_0000_0000_0000_0000 <= v <= i64::MAX + 0x1_0000_0000_0000_0000,
    ensures
        v > i64::MAX ==> wrap_i64(v) == v - 0x1_0000_0000_0000_0000,
        v < i64::MIN ==> wrap_i64(v) == v + 0x1_0000_0000_0000_0000,
        i64::MIN <= v <= i64::MAX ==> wrap_i64(v) == v,
{
    if v < -0x1_0000_0000_0000_0000 {
        lemma_wrap_i64_parts(v, -2, v + 2 * 0x1_0000_0000_0000_0000);
    } else if v < 0 {
        lemma_wrap_i64_parts(v, -1, v + 0x1_0000_0000_0000_0000);
    } else if v < 0x1_0000_0000_0000_0000 {
        lemma_wrap_i64_parts(v, 0, v);
    } else {
        lemma_wrap_i64_parts(v, 1, v - 0x1_0000_0000_0000_0000);
    }
}

/// A term of a sum may be wrapped to `i64` before the sum is.
pub proof fn lemma_wrap_i64_sum(a: int, b: int)
    ensures
        wrap_i64(wrap_i64(a) + b) == wrap_i64(a + b),
        wrap_i64(b + wrap_i64(a)) == wrap_i64(a + b),
{
    lemma_wrap_i64_congruent(a, 0);
    lemma_wrap_i64_congruent(wrap_i64(a) + b, carry_i64(a));
    lemma_wrap_i64_congruent(b + wrap_i64(a), carry_i64(a));
}

/// Wrapping to `i64` may be done at any step of a sum, a difference or a product, and
/// leaves a value of the type's range as it is.
pub proof fn lemma_wrap_i64(a: int, b: int)
    ensures
        wrap_i64(wrap_i64(a) + b) == wrap_i64(a + b),
        wrap_i64(a + wrap_i64(b)) == wrap_i64(a + b),
        wrap_i64(wrap_i64(a) - b) == wrap_i64(a - b),
        wrap_i64(a - wrap_i64(b)) == wrap_i64(a - b),
        wrap_i64(wrap_i64(a) * b) == wrap_i64(a * b),
        wrap_i64(a * wrap_i64(b)) == wrap_i64(a * b),
        i64::MIN <= a <= i64::MAX ==> wrap_i64(a) == a,
{
    let r = 0x1_0000_0000_0000_0000int;
    let wa = wrap_i64(a) as int;
    let wb = wrap_i64(b) as int;
    lemma_wrap_i64_congruent(a, 0);
    lemma_wrap_i64_congruent(b, 0);
    let ka = carry_i64(a);
    let kb = carry_i64(b);
    lemma_wrap_i64_congruent(wa + b, ka);
    lemma_wrap_i64_congruent(a + wb, kb);
    lemma_wrap_i64_congruent(wa - b, ka);
    lemma_wrap_i64_congruent(a - b, kb);
    assert(a * b == wa * b + r * (ka * b)) by (nonlinear_arith)
        requires
            a == wa + r * ka,
    ;
    assert(a * b == a * wb + r * (a * kb)) by (nonlinear_arith)
        requires
            b == wb + r * kb,
    ;
    lemma_wrap_i64_congruent(wa * b, ka * b);
    lemma_wrap_i64_congruent(a * wb, a * kb);
}

/// How many times 2^64 has to be taken from `v` to reach `wrap_u64(v)`.
pub open spec fn carry_u64(v: int) -> int {
    let r = 0x1_0000_0000_0000_0000int;
    v / r
}

/// Numbers that differ by a multiple of 2^64 wrap to the same `u64`, and a number
/// differs from its wrapped value by such a multiple.
pub proof fn lemma_wrap_u64_congruent(v: int, k: int)
    ensures
        wrap_u64(v + 0x1_0000_0000_0000_0000 * k) == wrap_u64(v),
        v == wrap_u64(v) + 0x1_0000_0000_0000_0000 * carry_u64(v),
{
    let r = 0x1_0000_0000_0000_0000int;
    vstd::arithmetic::div_mod::lemma_mod_multiples_vanish(k, v, r);
    assert(r * k + v == v + r * k);
}

/// Where `v` is `q` times 2^64 and a rest below 2^64, `wrap_u64(v)` is that rest, read as
/// `u64`.
pub proof fn lemma_wrap_u64_parts(v: int, q: int, r: int)
    requires
        v == 0x1_0000_0000_0000_0000 * q + r,
        0 <= r < 0x1_0000_0000_0000_0000,
    ensures
        wrap_u64(v) == r,
{
    vstd::arithmetic::div_mod::lemma_fundamental_div_mod_converse(v, 0x1_0000_0000_0000_0000, q, r);
}

/// A value that misses the range of `u64` by less than 2^64 wraps around once.
pub proof fn lemma_wrap_u64_near(v: int)
    requires
        u64::MIN - 0x1_0000_0000_0000_0000 <= v <= u64::MAX + 0x1_0000_0000_0000_0000,
    ensures
        v > u64::MAX ==> wrap_u64(v) == v - 0x1_0000_0000_0000_0000,
        v < u64::MIN ==> wrap_u64(v) == v + 0x1_0000_0000_0000_0000,
        u64::MIN <= v <= u64::MAX ==> wrap_u64(v) == v,
{
    if v < -0x1_0000_0000_0000_0000 {
        lemma_wrap_u64_parts(v, -2, v + 2 * 0x1_0000_0000_0000_0000);
    } else if v < 0 {
        lemma_wrap_u64_parts(v, -1, v + 0x1_0000_0000_0000_0000);
    } else if v < 0x1_0000_0000_0000_0000 {
        lemma_wrap_u64_parts(v, 0, v);
    } else {
        lemma_wrap_u64_parts(v, 1, v - 0x1_0000_0000_0000_0000);
    }
}

/// A term of a sum may be wrapped to `u64` before the sum is.
pub proof fn lemma_wrap_u64_sum(a: int, b: int)
    ensures
        wrap_u64(wrap_u64(a) + b) == wrap_u64(a + b),
        wrap_u64(b + wrap_u64(a)) == wrap_u64(a + b),
{
    lemma_wrap_u64_congruent(a, 0);
    lemma_wrap_u64_congruent(wrap_u64(a) + b, carry_u64(a));
    lemma_wrap_u64_congruent(b + wrap_u64(a), carry_u64(a));
}

/// Wrapping to `u64` may be done at any step of a sum, a difference or a product, and
/// leaves a value of the type's range as it is.
pub proof fn lemma_wrap_u64(a: int, b: int)
    ensures
        wrap_u64(wrap_u64(a) + b) == wrap_u64(a + b),
        wrap_u64(a + wrap_u64(b)) == wrap_u64(a + b),
        wrap_u64(wrap_u64(a) - b) == wrap_u64(a - b),
        wrap_u64(a - wrap_u64(b)) == wrap_u64(a - b),
        wrap_u64(wrap_u64(a) * b) == wrap_u64(a * b),
        wrap_u64(a * wrap_u64(b)) == wrap_u64(a * b),
        u64::MIN <= a <= u64::MAX ==> wrap_u64(a) == a,
{
    let r = 0x1_0000_0000_0000_0000int;
    let wa = wrap_u64(a) as int;
    let wb = wrap_u64(b) as int;
    lemma_wrap_u64_congruent(a, 0);
    lemma_wrap_u64_congruent(b, 0);
    let ka = carry_u64(a);
    let kb = carry_u64(b);
    lemma_wrap_u64_congruent(wa + b, ka);
    lemma_wrap_u64_congruent(a + wb, kb);
    lemma_wrap_u64_congruent(wa - b, ka);
    lemma_wrap_u64_congruent(a - b, kb);
    assert(a * b == wa * b + r * (ka * b)) by (nonlinear_arith)
        requires
            a == wa + r * ka,
    ;
    assert(a * b == a * wb + r * (a * kb)) by (nonlinear_arith)
        requires
            b == wb + r * kb,
    ;
    lemma_wrap_u64_congruent(wa * b, ka * b);
    lemma_wrap_u64_congruent(a * wb, a * kb);
}

} // verus!
