//! How a lane is made of narrower lanes: the narrower lanes are its digits, the lowest first.
//!
//! This is the layout of a vector's bits in memory on a machine that stores the low byte
//! first, and it is what reading a vector anew as a vector of another lane width goes by.

use vstd::prelude::*;

verus! {

/// What the bit-vector solver knows of the 2 digits of 8 bits of a `u16`: shifting and
/// masking takes them out, and shifting and joining puts them together.
pub proof fn lemma_digits_u8_u16(x: u16, p0: u8, p1: u8)
    by (bit_vector)
    ensures
        (x & 0xffu16) == x % 0x100,
        ((x >> 8u16) & 0xffu16) == x / 0x100,
        x / 0x100 < 0x100,
        x % 0x100 + 0x100 * (x / 0x100) == x,
        x == p0 + 0x100 * p1 ==> x % 0x100 == p0 && x / 0x100 == p1,
        (p0 as u16) | ((p1 as u16) << 8u16)
            == p0 + 0x100 * p1,
{
}

/// The 2 digits of 8 bits of `x`, the lowest first.
pub open spec fn spec_split_u16_u8(x: u16) -> (u8, u8) {
    ((x % 0x100) as u8, (x / 0x100) as u8)
}

/// The 2 digits of 8 bits of `x`, the lowest first.
#[verifier::when_used_as_spec(spec_split_u16_u8)]
pub fn split_u16_u8(x: u16) -> (r: (u8, u8))
    ensures
        r == spec_split_u16_u8(x),
{
    proof {
        lemma_digits_u8_u16(x, 0, 0);
    }
    ((x & 0xff) as u8, ((x >> 8) & 0xff) as u8)
}

/// The `u16` with the given digits of 8 bits, the lowest first.
pub open spec fn spec_join_u8_u16(p0: u8, p1: u8) -> u16 {
    (p0 + 0x100 * p1) as u16
}

/// The `u16` with the given digits of 8 bits, the lowest first.
#[verifier::when_used_as_spec(spec_join_u8_u16)]
pub fn join_u8_u16(p0: u8, p1: u8) -> (r: u16)
    ensures
        r == p0 + 0x100 * p1,
{
    proof {
        lemma_digits_u8_u16(0, p0, p1);
    }
    p0 as u16 | (p1 as u16) << 8
}

/// A `u16` is made of its digits, and the digits of what was made of digits are those digits.
pub proof fn lemma_regroup_u8_u16(x: u16, p0: u8, p1: u8)
    ensures
        ({
            let d = split_u16_u8(x);
            join_u8_u16(d.0, d.1) == x
        }),
        split_u16_u8(join_u8_u16(p0, p1)) == (p0, p1),
{
    lemma_digits_u8_u16(x, p0, p1);
    lemma_digits_u8_u16(join_u8_u16(p0, p1), p0, p1);
}

/// What the bit-vector solver knows of the 4 digits of 8 bits of a `u32`: shifting and
/// masking takes them out, and shifting and joining puts them together.
pub proof fn lemma_digits_u8_u32(x: u32, p0: u8, p1: u8, p2: u8, p3: u8)
    by (bit_vector)
    ensures
        (x & 0xffu32) == x % 0x100,
        ((x >> 8u32) & 0xffu32) == (x / 0x100) % 0x100,
        ((x >> 16u32) & 0xffu32) == (x / 0x1_0000) % 0x100,
        ((x >> 24u32) & 0xffu32) == x / 0x100_0000,
        x / 0x100_0000 < 0x100,
        x % 0x100
            + 0x100 * ((x / 0x100) % 0x100)
            + 0x1_0000 * ((x / 0x1_0000) % 0x100)
            + 0x100_0000 * (x / 0x100_0000)
            == x,
        x == p0
            + 0x100 * p1
            + 0x1_0000 * p2
            + 0x100_0000 * p3 ==>
            x % 0x100 == p0
                && (x / 0x100) % 0x100 == p1
                && (x / 0x1_0000) % 0x100 == p2
                && x / 0x100_0000 == p3,
        (p0 as u32) | ((p1 as u32) << 8u32) | ((p2 as u32) << 16u32) | ((p3 as u32) << 24u32)
            == p0 + 0x100 * p1 + 0x1_0000 * p2 + 0x100_0000 * p3,
{
}

/// The 4 digits of 8 bits of `x`, the lowest first.
pub open spec fn spec_split_u32_u8(x: u32) -> (u8, u8, u8, u8) {
    (
        (x % 0x100) as u8,
        ((x / 0x100) % 0x100) as u8,
        ((x / 0x1_0000) % 0x100) as u8,
        (x / 0x100_0000) as u8,
    )
}

/// The 4 digits of 8 bits of `x`, the lowest first.
#[verifier::when_used_as_spec(spec_split_u32_u8)]
pub fn split_u32_u8(x: u32) -> (r: (u8, u8, u8, u8))
    ensures
        r == spec_split_u32_u8(x),
{
    proof {
        lemma_digits_u8_u32(x, 0, 0, 0, 0);
    }
    ((x & 0xff) as u8, ((x >> 8) & 0xff) as u8, ((x >> 16) & 0xff) as u8, ((x >> 24) & 0xff) as u8)
}

/// The `u32` with the given digits of 8 bits, the lowest first.
pub open spec fn spec_join_u8_u32(p0: u8, p1: u8, p2: u8, p3: u8) -> u32 {
    (p0 + 0x100 * p1 + 0x1_0000 * p2 + 0x100_0000 * p3) as u32
}

/// The `u32` with the given digits of 8 bits, the lowest first.
#[verifier::when_used_as_spec(spec_join_u8_u32)]
pub fn join_u8_u32(p0: u8, p1: u8, p2: u8, p3: u8) -> (r: u32)
    ensures
        r == p0 + 0x100 * p1 + 0x1_0000 * p2 + 0x100_0000 * p3,
{
    proof {
        lemma_digits_u8_u32(0, p0, p1, p2, p3);
    }
    p0 as u32 | (p1 as u32) << 8 | (p2 as u32) << 16 | (p3 as u32) << 24
}

/// A `u32` is made of its digits, and the digits of what was made of digits are those digits.
pub proof fn lemma_regroup_u8_u32(x: u32, p0: u8, p1: u8, p2: u8, p3: u8)
    ensures
        ({
            let d = split_u32_u8(x);
            join_u8_u32(d.0, d.1, d.2, d.3) == x
        }),
        split_u32_u8(join_u8_u32(p0, p1, p2, p3)) == (p0, p1, p2, p3),
{
    lemma_digits_u8_u32(x, p0, p1, p2, p3);
    lemma_digits_u8_u32(join_u8_u32(p0, p1, p2, p3), p0, p1, p2, p3);
}

/// What the bit-vector solver knows of the 8 digits of 8 bits of a `u64`: shifting and
/// masking takes them out, and shifting and joining puts them together.
pub proof fn lemma_digits_u8_u64(x: u64, p0: u8, p1: u8, p2: u8, p3: u8, p4: u8, p5: u8, p6: u8, p7: u8)
    by (bit_vector)
    ensures
        (x & 0xffu64) == x % 0x100,
        ((x >> 8u64) & 0xffu64) == (x / 0x100) % 0x100,
        ((x >> 16u64) & 0xffu64) == (x / 0x1_0000) % 0x100,
        ((x >> 24u64) & 0xffu64) == (x / 0x100_0000) % 0x100,
        ((x >> 32u64) & 0xffu64) == (x / 0x1_0000_0000) % 0x100,
        ((x >> 40u64) & 0xffu64) == (x / 0x100_0000_0000) % 0x100,
        ((x >> 48u64) & 0xffu64) == (x / 0x1_0000_0000_0000) % 0x100,
        ((x >> 56u64) & 0xffu64) == x / 0x100_0000_0000_0000,
        x / 0x100_0000_0000_0000 < 0x100,
        x % 0x100
            + 0x100 * ((x / 0x100) % 0x100)
            + 0x1_0000 * ((x / 0x1_0000) % 0x100)
            + 0x100_0000 * ((x / 0x100_0000) % 0x100)
            + 0x1_0000_0000 * ((x / 0x1_0000_0000) % 0x100)
            + 0x100_0000_0000 * ((x / 0x100_0000_0000) % 0x100)
            + 0x1_0000_0000_0000 * ((x / 0x1_0000_0000_0000) % 0x100)
            + 0x100_0000_0000_0000 * (x / 0x100_0000_0000_0000)
            == x,
        x == p0
            + 0x100 * p1
            + 0x1_0000 * p2
            + 0x100_0000 * p3
            + 0x1_0000_0000 * p4
            + 0x100_0000_0000 * p5
            + 0x1_0000_0000_0000 * p6
            + 0x100_0000_0000_0000 * p7 ==>
            x % 0x100 == p0
                && (x / 0x100) % 0x100 == p1
                && (x / 0x1_0000) % 0x100 == p2
                && (x / 0x100_0000) % 0x100 == p3
                && (x / 0x1_0000_0000) % 0x100 == p4
                && (x / 0x100_0000_0000) % 0x100 == p5
                && (x / 0x1_0000_0000_0000) % 0x100 == p6
                && x / 0x100_0000_0000_0000 == p7,
        (p0 as u64)
            | ((p1 as u64) << 8u64)
            | ((p2 as u64) << 16u64)
            | ((p3 as u64) << 24u64)
            | ((p4 as u64) << 32u64)
            | ((p5 as u64) << 40u64)
            | ((p6 as u64) << 48u64)
            | ((p7 as u64) << 56u64)
            == p0
                + 0x100 * p1
                + 0x1_0000 * p2
                + 0x100_0000 * p3
                + 0x1_0000_0000 * p4
                + 0x100_0000_0000 * p5
                + 0x1_0000_0000_0000 * p6
                + 0x100_0000_0000_0000 * p7,
{
}

/// The 8 digits of 8 bits of `x`, the lowest first.
pub open spec fn spec_split_u64_u8(x: u64) -> (u8, u8, u8, u8, u8, u8, u8, u8) {
    (
        (x % 0x100) as u8,
        ((x / 0x100) % 0x100) as u8,
        ((x / 0x1_0000) % 0x100) as u8,
        ((x / 0x100_0000) % 0x100) as u8,
        ((x / 0x1_0000_0000) % 0x100) as u8,
        ((x / 0x100_0000_0000) % 0x100) as u8,
        ((x / 0x1_0000_0000_0000) % 0x100) as u8,
        (x / 0x100_0000_0000_0000) as u8,
    )
}

/// The 8 digits of 8 bits of `x`, the lowest first.
#[verifier::when_used_as_spec(spec_split_u64_u8)]
pub fn split_u64_u8(x: u64) -> (r: (u8, u8, u8, u8, u8, u8, u8, u8))
    ensures
        r == spec_split_u64_u8(x),
{
    proof {
        lemma_digits_u8_u64(x, 0, 0, 0, 0, 0, 0, 0, 0);
    }
    (
        (x & 0xff) as u8,
        ((x >> 8) & 0xff) as u8,
        ((x >> 16) & 0xff) as u8,
        ((x >> 24) & 0xff) as u8,
        ((x >> 32) & 0xff) as u8,
        ((x >> 40) & 0xff) as u8,
        ((x >> 48) & 0xff) as u8,
        ((x >> 56) & 0xff) as u8,
    )
}

/// The `u64` with the given digits of 8 bits, the lowest first.
pub open spec fn spec_join_u8_u64(p0: u8, p1: u8, p2: u8, p3: u8, p4: u8, p5: u8, p6: u8, p7: u8) -> u64 {
    (p0
        + 0x100 * p1
        + 0x1_0000 * p2
        + 0x100_0000 * p3
        + 0x1_0000_0000 * p4
        + 0x100_0000_0000 * p5
        + 0x1_0000_0000_0000 * p6
        + 0x100_0000_0000_0000 * p7) as u64
}

/// The `u64` with the given digits of 8 bits, the lowest first.
#[verifier::when_used_as_spec(spec_join_u8_u64)]
pub fn join_u8_u64(p0: u8, p1: u8, p2: u8, p3: u8, p4: u8, p5: u8, p6: u8, p7: u8) -> (r: u64)
    ensures
        r == p0
                 + 0x100 * p1
                 + 0x1_0000 * p2
                 + 0x100_0000 * p3
                 + 0x1_0000_0000 * p4
                 + 0x100_0000_0000 * p5
                 + 0x1_0000_0000_0000 * p6
                 + 0x100_0000_0000_0000 * p7,
{
    proof {
        lemma_digits_u8_u64(0, p0, p1, p2, p3, p4, p5, p6, p7);
    }
    p0 as u64
        | (p1 as u64) << 8
        | (p2 as u64) << 16
        | (p3 as u64) << 24
        | (p4 as u64) << 32
        | (p5 as u64) << 40
        | (p6 as u64) << 48
        | (p7 as u64) << 56
}

/// A `u64` is made of its digits, and the digits of what was made of digits are those digits.
pub proof fn lemma_regroup_u8_u64(x: u64, p0: u8, p1: u8, p2: u8, p3: u8, p4: u8, p5: u8, p6: u8, p7: u8)
    ensures
        ({
            let d = split_u64_u8(x);
            join_u8_u64(d.0, d.1, d.2, d.3, d.4, d.5, d.6, d.7) == x
        }),
        split_u64_u8(join_u8_u64(p0, p1, p2, p3, p4, p5, p6, p7)) == (p0, p1, p2, p3, p4, p5, p6, p7),
{
    lemma_digits_u8_u64(x, p0, p1, p2, p3, p4, p5, p6, p7);
    lemma_digits_u8_u64(join_u8_u64(p0, p1, p2, p3, p4, p5, p6, p7), p0, p1, p2, p3, p4, p5, p6, p7);
}

/// What the bit-vector solver knows of the 2 digits of 16 bits of a `u32`: shifting and
/// masking takes them out, and shifting and joining puts them together.
pub proof fn lemma_digits_u16_u32(x: u32, p0: u16, p1: u16)
    by (bit_vector)
    ensures
        (x & 0xffffu32) == x % 0x1_0000,
        ((x >> 16u32) & 0xffffu32) == x / 0x1_0000,
        x / 0x1_0000 < 0x1_0000,
        x % 0x1_0000 + 0x1_0000 * (x / 0x1_0000) == x,
        x == p0 + 0x1_0000 * p1 ==> x % 0x1_0000 == p0 && x / 0x1_0000 == p1,
        (p0 as u32) | ((p1 as u32) << 16u32)
            == p0 + 0x1_0000 * p1,
{
}

/// The 2 digits of 16 bits of `x`, the lowest first.
pub open spec fn spec_split_u32_u16(x: u32) -> (u16, u16) {
    ((x % 0x1_0000) as u16, (x / 0x1_0000) as u16)
}

/// The 2 digits of 16 bits of `x`, the lowest first.
#[verifier::when_used_as_spec(spec_split_u32_u16)]
pub fn split_u32_u16(x: u32) -> (r: (u16, u16))
    ensures
        r == spec_split_u32_u16(x),
{
    proof {
        lemma_digits_u16_u32(x, 0, 0);
    }
    ((x & 0xffff) as u16, ((x >> 16) & 0xffff) as u16)
}

/// The `u32` with the given digits of 16 bits, the lowest first.
pub open spec fn spec_join_u16_u32(p0: u16, p1: u16) -> u32 {
    (p0 + 0x1_0000 * p1) as u32
}

/// The `u32` with the given digits of 16 bits, the lowest first.
#[verifier::when_used_as_spec(spec_join_u16_u32)]
pub fn join_u16_u32(p0: u16, p1: u16) -> (r: u32)
    ensures
        r == p0 + 0x1_0000 * p1,
{
    proof {
        lemma_digits_u16_u32(0, p0, p1);
    }
    p0 as u32 | (p1 as u32) << 16
}

/// A `u32` is made of its digits, and the digits of what was made of digits are those digits.
pub proof fn lemma_regroup_u16_u32(x: u32, p0: u16, p1: u16)
    ensures
        ({
            let d = split_u32_u16(x);
            join_u16_u32(d.0, d.1) == x
        }),
        split_u32_u16(join_u16_u32(p0, p1)) == (p0, p1),
{
    lemma_digits_u16_u32(x, p0, p1);
    lemma_digits_u16_u32(join_u16_u32(p0, p1), p0, p1);
}

/// What the bit-vector solver knows of the 4 digits of 16 bits of a `u64`: shifting and
/// masking takes them out, and shifting and joining puts them together.
pub proof fn lemma_digits_u16_u64(x: u64, p0: u16, p1: u16, p2: u16, p3: u16)
    by (bit_vector)
    ensures
        (x & 0xffffu64) == x % 0x1_0000,
        ((x >> 16u64) & 0xffffu64) == (x / 0x1_0000) % 0x1_0000,
        ((x >> 32u64) & 0xffffu64) == (x / 0x1_0000_0000) % 0x1_0000,
        ((x >> 48u64) & 0xffffu64) == x / 0x1_0000_0000_0000,
        x / 0x1_0000_0000_0000 < 0x1_0000,
        x % 0x1_0000
            + 0x1_0000 * ((x / 0x1_0000) % 0x1_0000)
            + 0x1_0000_0000 * ((x / 0x1_0000_0000) % 0x1_0000)
            + 0x1_0000_0000_0000 * (x / 0x1_0000_0000_0000)
            == x,
        x == p0
            + 0x1_0000 * p1
            + 0x1_0000_0000 * p2
            + 0x1_0000_0000_0000 * p3 ==>
            x % 0x1_0000 == p0
                && (x / 0x1_0000) % 0x1_0000 == p1
                && (x / 0x1_0000_0000) % 0x1_0000 == p2
                && x / 0x1_0000_0000_0000 == p3,
        (p0 as u64) | ((p1 as u64) << 16u64) | ((p2 as u64) << 32u64) | ((p3 as u64) << 48u64)
            == p0 + 0x1_0000 * p1 + 0x1_0000_0000 * p2 + 0x1_0000_0000_0000 * p3,
{
}

/// The 4 digits of 16 bits of `x`, the lowest first.
pub open spec fn spec_split_u64_u16(x: u64) -> (u16, u16, u16, u16) {
    (
        (x % 0x1_0000) as u16,
        ((x / 0x1_0000) % 0x1_0000) as u16,
        ((x / 0x1_0000_0000) % 0x1_0000) as u16,
        (x / 0x1_0000_0000_0000) as u16,
    )
}

/// The 4 digits of 16 bits of `x`, the lowest first.
#[verifier::when_used_as_spec(spec_split_u64_u16)]
pub fn split_u64_u16(x: u64) -> (r: (u16, u16, u16, u16))
    ensures
        r == spec_split_u64_u16(x),
{
    proof {
        lemma_digits_u16_u64(x, 0, 0, 0, 0);
    }
    (
        (x & 0xffff) as u16,
        ((x >> 16) & 0xffff) as u16,
        ((x >> 32) & 0xffff) as u16,
        ((x >> 48) & 0xffff) as u16,
    )
}

/// The `u64` with the given digits of 16 bits, the lowest first.
pub open spec fn spec_join_u16_u64(p0: u16, p1: u16, p2: u16, p3: u16) -> u64 {
    (p0 + 0x1_0000 * p1 + 0x1_0000_0000 * p2 + 0x1_0000_0000_0000 * p3) as u64
}

/// The `u64` with the given digits of 16 bits, the lowest first.
#[verifier::when_used_as_spec(spec_join_u16_u64)]
pub fn join_u16_u64(p0: u16, p1: u16, p2: u16, p3: u16) -> (r: u64)
    ensures
        r == p0 + 0x1_0000 * p1 + 0x1_0000_0000 * p2 + 0x1_0000_0000_0000 * p3,
{
    proof {
        lemma_digits_u16_u64(0, p0, p1, p2, p3);
    }
    p0 as u64 | (p1 as u64) << 16 | (p2 as u64) << 32 | (p3 as u64) << 48
}

/// A `u64` is made of its digits, and the digits of what was made of digits are those digits.
pub proof fn lemma_regroup_u16_u64(x: u64, p0: u16, p1: u16, p2: u16, p3: u16)
    ensures
        ({
            let d = split_u64_u16(x);
            join_u16_u64(d.0, d.1, d.2, d.3) == x
        }),
        split_u64_u16(join_u16_u64(p0, p1, p2, p3)) == (p0, p1, p2, p3),
{
    lemma_digits_u16_u64(x, p0, p1, p2, p3);
    lemma_digits_u16_u64(join_u16_u64(p0, p1, p2, p3), p0, p1, p2, p3);
}

/// What the bit-vector solver knows of the 2 digits of 32 bits of a `u64`: shifting and
/// masking takes them out, and shifting and joining puts them together.
pub proof fn lemma_digits_u32_u64(x: u64, p0: u32, p1: u32)
    by (bit_vector)
    ensures
        (x & 0xffff_ffffu64) == x % 0x1_0000_0000,
        ((x >> 32u64) & 0xffff_ffffu64) == x / 0x1_0000_0000,
        x / 0x1_0000_0000 < 0x1_0000_0000,
        x % 0x1_0000_0000 + 0x1_0000_0000 * (x / 0x1_0000_0000) == x,
        x == p0 + 0x1_0000_0000 * p1 ==> x % 0x1_0000_0000 == p0 && x / 0x1_0000_0000 == p1,
        (p0 as u64) | ((p1 as u64) << 32u64)
            == p0 + 0x1_0000_0000 * p1,
{
}

/// The 2 digits of 32 bits of `x`, the lowest first.
pub open spec fn spec_split_u64_u32(x: u64) -> (u32, u32) {
    ((x % 0x1_0000_0000) as u32, (x / 0x1_0000_0000) as u32)
}

/// The 2 digits of 32 bits of `x`, the lowest first.
#[verifier::when_used_as_spec(spec_split_u64_u32)]
pub fn split_u64_u32(x: u64) -> (r: (u32, u32))
    ensures
        r == spec_split_u64_u32(x),
{
    proof {
        lemma_digits_u32_u64(x, 0, 0);
    }
    ((x & 0xffff_ffff) as u32, ((x >> 32) & 0xffff_ffff) as u32)
}

/// The `u64` with the given digits of 32 bits, the lowest first.
pub open spec fn spec_join_u32_u64(p0: u32, p1: u32) -> u64 {
    (p0 + 0x1_0000_0000 * p1) as u64
}

/// The `u64` with the given digits of 32 bits, the lowest first.
#[verifier::when_used_as_spec(spec_join_u32_u64)]
pub fn join_u32_u64(p0: u32, p1: u32) -> (r: u64)
    ensures
        r == p0 + 0x1_0000_0000 * p1,
{
    proof {
        lemma_digits_u32_u64(0, p0, p1);
    }
    p0 as u64 | (p1 as u64) << 32
}

/// A `u64` is made of its digits, and the digits of what was made of digits are those digits.
pub proof fn lemma_regroup_u32_u64(x: u64, p0: u32, p1: u32)
    ensures
        ({
            let d = split_u64_u32(x);
            join_u32_u64(d.0, d.1) == x
        }),
        split_u64_u32(join_u32_u64(p0, p1)) == (p0, p1),
{
    lemma_digits_u32_u64(x, p0, p1);
    lemma_digits_u32_u64(join_u32_u64(p0, p1), p0, p1);
}

} // verus!
