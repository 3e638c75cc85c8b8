//! `long16`: sixteen lanes of `i64`.

use crate::scalar::lane_i64::{
    abs_i64, add_i64, bitselect_i64, clamp_i64, div_i64, eq_i64, ge_i64, gt_i64, i64_to_i16,
    i64_to_i16_sat, i64_to_i32, i64_to_i32_sat, i64_to_i8, i64_to_i8_sat, i64_to_u16,
    i64_to_u16_sat, i64_to_u32, i64_to_u32_sat, i64_to_u64, i64_to_u64_sat, i64_to_u8,
    i64_to_u8_sat, isize_to_i64, le_i64, lemma_abs_i64, lemma_arith_i64, lemma_bits_i64,
    lemma_blend_i64, lemma_not_i64, lemma_recast_i64, lt_i64, madd_i64, max_i64, min_i64, mul_i64,
    ne_i64, neg_i64, not_i64, rem_i64, select_i64, shl_i64, shr_i64, sub_i64, truth_i64,
};
use crate::scalar::lane_u64::{
    bitselect_u64, lemma_blend_u64, lemma_recast_u64, select_u64, u64_to_i64,
};
use crate::scalar::model::{
    lemma_wrap_i64_sum, sat_i16, sat_i32, sat_i8, sat_u16, sat_u32, sat_u64, sat_u8, wrap_i64,
};
use crate::traits::{Bitcast, Dot, Integer, Select, Vector, bitcast, spec_bitcast};
use crate::vector::char16::char16;
use crate::vector::double16::double16;
use crate::vector::float16::float16;
use crate::vector::int16::int16;
use crate::vector::long8::long8;
use crate::vector::short16::short16;
use crate::vector::uchar16::uchar16;
use crate::vector::uint16::uint16;
use crate::vector::ulong16::ulong16;
use crate::vector::ushort16::ushort16;
use vstd::prelude::*;
use vstd::std_specs::convert::FromSpecImpl;
use vstd::std_specs::ops::{
    AddSpec, AddSpecImpl, BitAndSpecImpl, BitOrSpecImpl, BitXorSpecImpl, DivSpecImpl, MulSpecImpl,
    NegSpec, NegSpecImpl, NotSpec, NotSpecImpl, RemSpecImpl, ShlSpecImpl, ShrSpec, ShrSpecImpl,
    SubSpec, SubSpecImpl,
};

verus! {

/// Sixteen lanes of `i64`.
#[derive(Copy, Clone, Debug, PartialEq, Eq, Structural)]
pub struct long16(
    pub i64, pub i64, pub i64, pub i64, pub i64, pub i64, pub i64, pub i64, pub i64, pub i64,
    pub i64, pub i64, pub i64, pub i64, pub i64, pub i64,
);

impl core::ops::Add for long16 {
    type Output = long16;

    /// The lane-wise sum of the two vectors, wrapping around.
    fn add(self, rhs: long16) -> (r: long16) {
        long16(
            add_i64(self.0, rhs.0), add_i64(self.1, rhs.1), add_i64(self.2, rhs.2),
            add_i64(self.3, rhs.3), add_i64(self.4, rhs.4), add_i64(self.5, rhs.5),
            add_i64(self.6, rhs.6), add_i64(self.7, rhs.7), add_i64(self.8, rhs.8),
            add_i64(self.9, rhs.9), add_i64(self.10, rhs.10), add_i64(self.11, rhs.11),
            add_i64(self.12, rhs.12), add_i64(self.13, rhs.13), add_i64(self.14, rhs.14),
            add_i64(self.15, rhs.15),
        )
    }
}

impl AddSpecImpl for long16 {
    open spec fn obeys_add_spec() -> bool {
        true
    }

    open spec fn add_req(self, rhs: long16) -> bool {
        true
    }

    open spec fn add_spec(self, rhs: long16) -> long16 {
        long16(
            add_i64(self.0, rhs.0), add_i64(self.1, rhs.1), add_i64(self.2, rhs.2),
            add_i64(self.3, rhs.3), add_i64(self.4, rhs.4), add_i64(self.5, rhs.5),
            add_i64(self.6, rhs.6), add_i64(self.7, rhs.7), add_i64(self.8, rhs.8),
            add_i64(self.9, rhs.9), add_i64(self.10, rhs.10), add_i64(self.11, rhs.11),
            add_i64(self.12, rhs.12), add_i64(self.13, rhs.13), add_i64(self.14, rhs.14),
            add_i64(self.15, rhs.15),
        )
    }
}

impl core::ops::Add<i64> for long16 {
    type Output = long16;

    /// The sum of every lane and the scalar, wrapping around.
    fn add(self, rhs: i64) -> (r: long16) {
        long16(
            add_i64(self.0, rhs), add_i64(self.1, rhs), add_i64(self.2, rhs), add_i64(self.3, rhs),
            add_i64(self.4, rhs), add_i64(self.5, rhs), add_i64(self.6, rhs), add_i64(self.7, rhs),
            add_i64(self.8, rhs), add_i64(self.9, rhs), add_i64(self.10, rhs),
            add_i64(self.11, rhs), add_i64(self.12, rhs), add_i64(self.13, rhs),
            add_i64(self.14, rhs), add_i64(self.15, rhs),
        )
    }
}

impl AddSpecImpl<i64> for long16 {
    open spec fn obeys_add_spec() -> bool {
        true
    }

    open spec fn add_req(self, rhs: i64) -> bool {
        true
    }

    open spec fn add_spec(self, rhs: i64) -> long16 {
        long16(
            add_i64(self.0, rhs), add_i64(self.1, rhs), add_i64(self.2, rhs), add_i64(self.3, rhs),
            add_i64(self.4, rhs), add_i64(self.5, rhs), add_i64(self.6, rhs), add_i64(self.7, rhs),
            add_i64(self.8, rhs), add_i64(self.9, rhs), add_i64(self.10, rhs),
            add_i64(self.11, rhs), add_i64(self.12, rhs), add_i64(self.13, rhs),
            add_i64(self.14, rhs), add_i64(self.15, rhs),
        )
    }
}

impl core::ops::Add<long16> for i64 {
    type Output = long16;

    /// The sum of the scalar and every lane, wrapping around.
    fn add(self, rhs: long16) -> (r: long16) {
        long16(
            add_i64(self, rhs.0), add_i64(self, rhs.1), add_i64(self, rhs.2), add_i64(self, rhs.3),
            add_i64(self, rhs.4), add_i64(self, rhs.5), add_i64(self, rhs.6), add_i64(self, rhs.7),
            add_i64(self, rhs.8), add_i64(self, rhs.9), add_i64(self, rhs.10),
            add_i64(self, rhs.11), add_i64(self, rhs.12), add_i64(self, rhs.13),
            add_i64(self, rhs.14), add_i64(self, rhs.15),
        )
    }
}

impl AddSpecImpl<long16> for i64 {
    open spec fn obeys_add_spec() -> bool {
        true
    }

    open spec fn add_req(self, rhs: long16) -> bool {
        true
    }

    open spec fn add_spec(self, rhs: long16) -> long16 {
        long16(
            add_i64(self, rhs.0), add_i64(self, rhs.1), add_i64(self, rhs.2), add_i64(self, rhs.3),
            add_i64(self, rhs.4), add_i64(self, rhs.5), add_i64(self, rhs.6), add_i64(self, rhs.7),
            add_i64(self, rhs.8), add_i64(self, rhs.9), add_i64(self, rhs.10),
            add_i64(self, rhs.11), add_i64(self, rhs.12), add_i64(self, rhs.13),
            add_i64(self, rhs.14), add_i64(self, rhs.15),
        )
    }
}

impl core::ops::Sub for long16 {
    type Output = long16;

    /// The lane-wise difference of the two vectors, wrapping around.
    fn sub(self, rhs: long16) -> (r: long16) {
        long16(
            sub_i64(self.0, rhs.0), sub_i64(self.1, rhs.1), sub_i64(self.2, rhs.2),
            sub_i64(self.3, rhs.3), sub_i64(self.4, rhs.4), sub_i64(self.5, rhs.5),
            sub_i64(self.6, rhs.6), sub_i64(self.7, rhs.7), sub_i64(self.8, rhs.8),
            sub_i64(self.9, rhs.9), sub_i64(self.10, rhs.10), sub_i64(self.11, rhs.11),
            sub_i64(self.12, rhs.12), sub_i64(self.13, rhs.13), sub_i64(self.14, rhs.14),
            sub_i64(self.15, rhs.15),
        )
    }
}

impl SubSpecImpl for long16 {
    open spec fn obeys_sub_spec() -> bool {
        true
    }

    open spec fn sub_req(self, rhs: long16) -> bool {
        true
    }

    open spec fn sub_spec(self, rhs: long16) -> long16 {
        long16(
            sub_i64(self.0, rhs.0), sub_i64(self.1, rhs.1), sub_i64(self.2, rhs.2),
            sub_i64(self.3, rhs.3), sub_i64(self.4, rhs.4), sub_i64(self.5, rhs.5),
            sub_i64(self.6, rhs.6), sub_i64(self.7, rhs.7), sub_i64(self.8, rhs.8),
            sub_i64(self.9, rhs.9), sub_i64(self.10, rhs.10), sub_i64(self.11, rhs.11),
            sub_i64(self.12, rhs.12), sub_i64(self.13, rhs.13), sub_i64(self.14, rhs.14),
            sub_i64(self.15, rhs.15),
        )
    }
}

impl core::ops::Sub<i64> for long16 {
    type Output = long16;

    /// The difference of every lane and the scalar, wrapping around.
    fn sub(self, rhs: i64) -> (r: long16) {
        long16(
            sub_i64(self.0, rhs), sub_i64(self.1, rhs), sub_i64(self.2, rhs), sub_i64(self.3, rhs),
            sub_i64(self.4, rhs), sub_i64(self.5, rhs), sub_i64(self.6, rhs), sub_i64(self.7, rhs),
            sub_i64(self.8, rhs), sub_i64(self.9, rhs), sub_i64(self.10, rhs),
            sub_i64(self.11, rhs), sub_i64(self.12, rhs), sub_i64(self.13, rhs),
            sub_i64(self.14, rhs), sub_i64(self.15, rhs),
        )
    }
}

impl SubSpecImpl<i64> for long16 {
    open spec fn obeys_sub_spec() -> bool {
        true
    }

    open spec fn sub_req(self, rhs: i64) -> bool {
        true
    }

    open spec fn sub_spec(self, rhs: i64) -> long16 {
        long16(
            sub_i64(self.0, rhs), sub_i64(self.1, rhs), sub_i64(self.2, rhs), sub_i64(self.3, rhs),
            sub_i64(self.4, rhs), sub_i64(self.5, rhs), sub_i64(self.6, rhs), sub_i64(self.7, rhs),
            sub_i64(self.8, rhs), sub_i64(self.9, rhs), sub_i64(self.10, rhs),
            sub_i64(self.11, rhs), sub_i64(self.12, rhs), sub_i64(self.13, rhs),
            sub_i64(self.14, rhs), sub_i64(self.15, rhs),
        )
    }
}

impl core::ops::Sub<long16> for i64 {
    type Output = long16;

    /// The difference of the scalar and every lane, wrapping around.
    fn sub(self, rhs: long16) -> (r: long16) {
        long16(
            sub_i64(self, rhs.0), sub_i64(self, rhs.1), sub_i64(self, rhs.2), sub_i64(self, rhs.3),
            sub_i64(self, rhs.4), sub_i64(self, rhs.5), sub_i64(self, rhs.6), sub_i64(self, rhs.7),
            sub_i64(self, rhs.8), sub_i64(self, rhs.9), sub_i64(self, rhs.10),
            sub_i64(self, rhs.11), sub_i64(self, rhs.12), sub_i64(self, rhs.13),
            sub_i64(self, rhs.14), sub_i64(self, rhs.15),
        )
    }
}

impl SubSpecImpl<long16> for i64 {
    open spec fn obeys_sub_spec() -> bool {
        true
    }

    open spec fn sub_req(self, rhs: long16) -> bool {
        true
    }

    open spec fn sub_spec(self, rhs: long16) -> long16 {
        long16(
            sub_i64(self, rhs.0), sub_i64(self, rhs.1), sub_i64(self, rhs.2), sub_i64(self, rhs.3),
            sub_i64(self, rhs.4), sub_i64(self, rhs.5), sub_i64(self, rhs.6), sub_i64(self, rhs.7),
            sub_i64(self, rhs.8), sub_i64(self, rhs.9), sub_i64(self, rhs.10),
            sub_i64(self, rhs.11), sub_i64(self, rhs.12), sub_i64(self, rhs.13),
            sub_i64(self, rhs.14), sub_i64(self, rhs.15),
        )
    }
}

impl core::ops::Mul for long16 {
    type Output = long16;

    /// The lane-wise product of the two vectors, wrapping around.
    fn mul(self, rhs: long16) -> (r: long16) {
        long16(
            mul_i64(self.0, rhs.0), mul_i64(self.1, rhs.1), mul_i64(self.2, rhs.2),
            mul_i64(self.3, rhs.3), mul_i64(self.4, rhs.4), mul_i64(self.5, rhs.5),
            mul_i64(self.6, rhs.6), mul_i64(self.7, rhs.7), mul_i64(self.8, rhs.8),
            mul_i64(self.9, rhs.9), mul_i64(self.10, rhs.10), mul_i64(self.11, rhs.11),
            mul_i64(self.12, rhs.12), mul_i64(self.13, rhs.13), mul_i64(self.14, rhs.14),
            mul_i64(self.15, rhs.15),
        )
    }
}

impl MulSpecImpl for long16 {
    open spec fn obeys_mul_spec() -> bool {
        true
    }

    open spec fn mul_req(self, rhs: long16) -> bool {
        true
    }

    open spec fn mul_spec(self, rhs: long16) -> long16 {
        long16(
            mul_i64(self.0, rhs.0), mul_i64(self.1, rhs.1), mul_i64(self.2, rhs.2),
            mul_i64(self.3, rhs.3), mul_i64(self.4, rhs.4), mul_i64(self.5, rhs.5),
            mul_i64(self.6, rhs.6), mul_i64(self.7, rhs.7), mul_i64(self.8, rhs.8),
            mul_i64(self.9, rhs.9), mul_i64(self.10, rhs.10), mul_i64(self.11, rhs.11),
            mul_i64(self.12, rhs.12), mul_i64(self.13, rhs.13), mul_i64(self.14, rhs.14),
            mul_i64(self.15, rhs.15),
        )
    }
}

impl core::ops::Mul<i64> for long16 {
    type Output = long16;

    /// The product of every lane and the scalar, wrapping around.
    fn mul(self, rhs: i64) -> (r: long16) {
        long16(
            mul_i64(self.0, rhs), mul_i64(self.1, rhs), mul_i64(self.2, rhs), mul_i64(self.3, rhs),
            mul_i64(self.4, rhs), mul_i64(self.5, rhs), mul_i64(self.6, rhs), mul_i64(self.7, rhs),
            mul_i64(self.8, rhs), mul_i64(self.9, rhs), mul_i64(self.10, rhs),
            mul_i64(self.11, rhs), mul_i64(self.12, rhs), mul_i64(self.13, rhs),
            mul_i64(self.14, rhs), mul_i64(self.15, rhs),
        )
    }
}

impl MulSpecImpl<i64> for long16 {
    open spec fn obeys_mul_spec() -> bool {
        true
    }

    open spec fn mul_req(self, rhs: i64) -> bool {
        true
    }

    open spec fn mul_spec(self, rhs: i64) -> long16 {
        long16(
            mul_i64(self.0, rhs), mul_i64(self.1, rhs), mul_i64(self.2, rhs), mul_i64(self.3, rhs),
            mul_i64(self.4, rhs), mul_i64(self.5, rhs), mul_i64(self.6, rhs), mul_i64(self.7, rhs),
            mul_i64(self.8, rhs), mul_i64(self.9, rhs), mul_i64(self.10, rhs),
            mul_i64(self.11, rhs), mul_i64(self.12, rhs), mul_i64(self.13, rhs),
            mul_i64(self.14, rhs), mul_i64(self.15, rhs),
        )
    }
}

impl core::ops::Mul<long16> for i64 {
    type Output = long16;

    /// The product of the scalar and every lane, wrapping around.
    fn mul(self, rhs: long16) -> (r: long16) {
        long16(
            mul_i64(self, rhs.0), mul_i64(self, rhs.1), mul_i64(self, rhs.2), mul_i64(self, rhs.3),
            mul_i64(self, rhs.4), mul_i64(self, rhs.5), mul_i64(self, rhs.6), mul_i64(self, rhs.7),
            mul_i64(self, rhs.8), mul_i64(self, rhs.9), mul_i64(self, rhs.10),
            mul_i64(self, rhs.11), mul_i64(self, rhs.12), mul_i64(self, rhs.13),
            mul_i64(self, rhs.14), mul_i64(self, rhs.15),
        )
    }
}

impl MulSpecImpl<long16> for i64 {
    open spec fn obeys_mul_spec() -> bool {
        true
    }

    open spec fn mul_req(self, rhs: long16) -> bool {
        true
    }

    open spec fn mul_spec(self, rhs: long16) -> long16 {
        long16(
            mul_i64(self, rhs.0), mul_i64(self, rhs.1), mul_i64(self, rhs.2), mul_i64(self, rhs.3),
            mul_i64(self, rhs.4), mul_i64(self, rhs.5), mul_i64(self, rhs.6), mul_i64(self, rhs.7),
            mul_i64(self, rhs.8), mul_i64(self, rhs.9), mul_i64(self, rhs.10),
            mul_i64(self, rhs.11), mul_i64(self, rhs.12), mul_i64(self, rhs.13),
            mul_i64(self, rhs.14), mul_i64(self, rhs.15),
        )
    }
}

impl core::ops::Div for long16 {
    type Output = long16;

    /// The lane-wise quotient of the two vectors, rounded toward zero. No lane of the divisor is
    /// zero.
    fn div(self, rhs: long16) -> (r: long16) {
        long16(
            div_i64(self.0, rhs.0), div_i64(self.1, rhs.1), div_i64(self.2, rhs.2),
            div_i64(self.3, rhs.3), div_i64(self.4, rhs.4), div_i64(self.5, rhs.5),
            div_i64(self.6, rhs.6), div_i64(self.7, rhs.7), div_i64(self.8, rhs.8),
            div_i64(self.9, rhs.9), div_i64(self.10, rhs.10), div_i64(self.11, rhs.11),
            div_i64(self.12, rhs.12), div_i64(self.13, rhs.13), div_i64(self.14, rhs.14),
            div_i64(self.15, rhs.15),
        )
    }
}

impl DivSpecImpl for long16 {
    open spec fn obeys_div_spec() -> bool {
        true
    }

    open spec fn div_req(self, rhs: long16) -> bool {
        rhs.0 != 0 && rhs.1 != 0 && rhs.2 != 0 && rhs.3 != 0 && rhs.4 != 0 && rhs.5 != 0
            && rhs.6 != 0 && rhs.7 != 0 && rhs.8 != 0 && rhs.9 != 0 && rhs.10 != 0 && rhs.11 != 0
            && rhs.12 != 0 && rhs.13 != 0 && rhs.14 != 0 && rhs.15 != 0
    }

    open spec fn div_spec(self, rhs: long16) -> long16 {
        long16(
            div_i64(self.0, rhs.0), div_i64(self.1, rhs.1), div_i64(self.2, rhs.2),
            div_i64(self.3, rhs.3), div_i64(self.4, rhs.4), div_i64(self.5, rhs.5),
            div_i64(self.6, rhs.6), div_i64(self.7, rhs.7), div_i64(self.8, rhs.8),
            div_i64(self.9, rhs.9), div_i64(self.10, rhs.10), div_i64(self.11, rhs.11),
            div_i64(self.12, rhs.12), div_i64(self.13, rhs.13), div_i64(self.14, rhs.14),
            div_i64(self.15, rhs.15),
        )
    }
}

impl core::ops::Div<i64> for long16 {
    type Output = long16;

    /// The quotient of every lane by the scalar, rounded toward zero. The scalar is not zero.
    fn div(self, rhs: i64) -> (r: long16) {
        long16(
            div_i64(self.0, rhs), div_i64(self.1, rhs), div_i64(self.2, rhs), div_i64(self.3, rhs),
            div_i64(self.4, rhs), div_i64(self.5, rhs), div_i64(self.6, rhs), div_i64(self.7, rhs),
            div_i64(self.8, rhs), div_i64(self.9, rhs), div_i64(self.10, rhs),
            div_i64(self.11, rhs), div_i64(self.12, rhs), div_i64(self.13, rhs),
            div_i64(self.14, rhs), div_i64(self.15, rhs),
        )
    }
}

impl DivSpecImpl<i64> for long16 {
    open spec fn obeys_div_spec() -> bool {
        true
    }

    open spec fn div_req(self, rhs: i64) -> bool {
        rhs != 0
    }

    open spec fn div_spec(self, rhs: i64) -> long16 {
        long16(
            div_i64(self.0, rhs), div_i64(self.1, rhs), div_i64(self.2, rhs), div_i64(self.3, rhs),
            div_i64(self.4, rhs), div_i64(self.5, rhs), div_i64(self.6, rhs), div_i64(self.7, rhs),
            div_i64(self.8, rhs), div_i64(self.9, rhs), div_i64(self.10, rhs),
            div_i64(self.11, rhs), div_i64(self.12, rhs), div_i64(self.13, rhs),
            div_i64(self.14, rhs), div_i64(self.15, rhs),
        )
    }
}

impl core::ops::Div<long16> for i64 {
    type Output = long16;

    /// The quotient of the scalar by every lane, rounded toward zero. No lane is zero.
    fn div(self, rhs: long16) -> (r: long16) {
        long16(
            div_i64(self, rhs.0), div_i64(self, rhs.1), div_i64(self, rhs.2), div_i64(self, rhs.3),
            div_i64(self, rhs.4), div_i64(self, rhs.5), div_i64(self, rhs.6), div_i64(self, rhs.7),
            div_i64(self, rhs.8), div_i64(self, rhs.9), div_i64(self, rhs.10),
            div_i64(self, rhs.11), div_i64(self, rhs.12), div_i64(self, rhs.13),
            div_i64(self, rhs.14), div_i64(self, rhs.15),
        )
    }
}

impl DivSpecImpl<long16> for i64 {
    open spec fn obeys_div_spec() -> bool {
        true
    }

    open spec fn div_req(self, rhs: long16) -> bool {
        rhs.0 != 0 && rhs.1 != 0 && rhs.2 != 0 && rhs.3 != 0 && rhs.4 != 0 && rhs.5 != 0
            && rhs.6 != 0 && rhs.7 != 0 && rhs.8 != 0 && rhs.9 != 0 && rhs.10 != 0 && rhs.11 != 0
            && rhs.12 != 0 && rhs.13 != 0 && rhs.14 != 0 && rhs.15 != 0
    }

    open spec fn div_spec(self, rhs: long16) -> long16 {
        long16(
            div_i64(self, rhs.0), div_i64(self, rhs.1), div_i64(self, rhs.2), div_i64(self, rhs.3),
            div_i64(self, rhs.4), div_i64(self, rhs.5), div_i64(self, rhs.6), div_i64(self, rhs.7),
            div_i64(self, rhs.8), div_i64(self, rhs.9), div_i64(self, rhs.10),
            div_i64(self, rhs.11), div_i64(self, rhs.12), div_i64(self, rhs.13),
            div_i64(self, rhs.14), div_i64(self, rhs.15),
        )
    }
}

impl core::ops::BitAnd for long16 {
    type Output = long16;

    /// The lane-wise conjunction of the two vectors, bit by bit.
    fn bitand(self, rhs: long16) -> (r: long16) {
        long16(
            self.0 & rhs.0, self.1 & rhs.1, self.2 & rhs.2, self.3 & rhs.3, self.4 & rhs.4,
            self.5 & rhs.5, self.6 & rhs.6, self.7 & rhs.7, self.8 & rhs.8, self.9 & rhs.9,
            self.10 & rhs.10, self.11 & rhs.11, self.12 & rhs.12, self.13 & rhs.13,
            self.14 & rhs.14, self.15 & rhs.15,
        )
    }
}

impl BitAndSpecImpl for long16 {
    open spec fn obeys_bitand_spec() -> bool {
        true
    }

    open spec fn bitand_req(self, rhs: long16) -> bool {
        true
    }

    open spec fn bitand_spec(self, rhs: long16) -> long16 {
        long16(
            self.0 & rhs.0, self.1 & rhs.1, self.2 & rhs.2, self.3 & rhs.3, self.4 & rhs.4,
            self.5 & rhs.5, self.6 & rhs.6, self.7 & rhs.7, self.8 & rhs.8, self.9 & rhs.9,
            self.10 & rhs.10, self.11 & rhs.11, self.12 & rhs.12, self.13 & rhs.13,
            self.14 & rhs.14, self.15 & rhs.15,
        )
    }
}

impl core::ops::BitAnd<i64> for long16 {
    type Output = long16;

    /// The conjunction of every lane and the scalar, bit by bit.
    fn bitand(self, rhs: i64) -> (r: long16) {
        long16(
            self.0 & rhs, self.1 & rhs, self.2 & rhs, self.3 & rhs, self.4 & rhs, self.5 & rhs,
            self.6 & rhs, self.7 & rhs, self.8 & rhs, self.9 & rhs, self.10 & rhs, self.11 & rhs,
            self.12 & rhs, self.13 & rhs, self.14 & rhs, self.15 & rhs,
        )
    }
}

impl BitAndSpecImpl<i64> for long16 {
    open spec fn obeys_bitand_spec() -> bool {
        true
    }

    open spec fn bitand_req(self, rhs: i64) -> bool {
        true
    }

    open spec fn bitand_spec(self, rhs: i64) -> long16 {
        long16(
            self.0 & rhs, self.1 & rhs, self.2 & rhs, self.3 & rhs, self.4 & rhs, self.5 & rhs,
            self.6 & rhs, self.7 & rhs, self.8 & rhs, self.9 & rhs, self.10 & rhs, self.11 & rhs,
            self.12 & rhs, self.13 & rhs, self.14 & rhs, self.15 & rhs,
        )
    }
}

impl core::ops::BitAnd<long16> for i64 {
    type Output = long16;

    /// The conjunction of the scalar and every lane, bit by bit.
    fn bitand(self, rhs: long16) -> (r: long16) {
        long16(
            self & rhs.0, self & rhs.1, self & rhs.2, self & rhs.3, self & rhs.4, self & rhs.5,
            self & rhs.6, self & rhs.7, self & rhs.8, self & rhs.9, self & rhs.10, self & rhs.11,
            self & rhs.12, self & rhs.13, self & rhs.14, self & rhs.15,
        )
    }
}

impl BitAndSpecImpl<long16> for i64 {
    open spec fn obeys_bitand_spec() -> bool {
        true
    }

    open spec fn bitand_req(self, rhs: long16) -> bool {
        true
    }

    open spec fn bitand_spec(self, rhs: long16) -> long16 {
        long16(
            self & rhs.0, self & rhs.1, self & rhs.2, self & rhs.3, self & rhs.4, self & rhs.5,
            self & rhs.6, self & rhs.7, self & rhs.8, self & rhs.9, self & rhs.10, self & rhs.11,
            self & rhs.12, self & rhs.13, self & rhs.14, self & rhs.15,
        )
    }
}

impl core::ops::BitOr for long16 {
    type Output = long16;

    /// The lane-wise disjunction of the two vectors, bit by bit.
    fn bitor(self, rhs: long16) -> (r: long16) {
        long16(
            self.0 | rhs.0, self.1 | rhs.1, self.2 | rhs.2, self.3 | rhs.3, self.4 | rhs.4,
            self.5 | rhs.5, self.6 | rhs.6, self.7 | rhs.7, self.8 | rhs.8, self.9 | rhs.9,
            self.10 | rhs.10, self.11 | rhs.11, self.12 | rhs.12, self.13 | rhs.13,
            self.14 | rhs.14, self.15 | rhs.15,
        )
    }
}

impl BitOrSpecImpl for long16 {
    open spec fn obeys_bitor_spec() -> bool {
        true
    }

    open spec fn bitor_req(self, rhs: long16) -> bool {
        true
    }

    open spec fn bitor_spec(self, rhs: long16) -> long16 {
        long16(
            self.0 | rhs.0, self.1 | rhs.1, self.2 | rhs.2, self.3 | rhs.3, self.4 | rhs.4,
            self.5 | rhs.5, self.6 | rhs.6, self.7 | rhs.7, self.8 | rhs.8, self.9 | rhs.9,
            self.10 | rhs.10, self.11 | rhs.11, self.12 | rhs.12, self.13 | rhs.13,
            self.14 | rhs.14, self.15 | rhs.15,
        )
    }
}

impl core::ops::BitOr<i64> for long16 {
    type Output = long16;

    /// The disjunction of every lane and the scalar, bit by bit.
    fn bitor(self, rhs: i64) -> (r: long16) {
        long16(
            self.0 | rhs, self.1 | rhs, self.2 | rhs, self.3 | rhs, self.4 | rhs, self.5 | rhs,
            self.6 | rhs, self.7 | rhs, self.8 | rhs, self.9 | rhs, self.10 | rhs, self.11 | rhs,
            self.12 | rhs, self.13 | rhs, self.14 | rhs, self.15 | rhs,
        )
    }
}

impl BitOrSpecImpl<i64> for long16 {
    open spec fn obeys_bitor_spec() -> bool {
        true
    }

    open spec fn bitor_req(self, rhs: i64) -> bool {
        true
    }

    open spec fn bitor_spec(self, rhs: i64) -> long16 {
        long16(
            self.0 | rhs, self.1 | rhs, self.2 | rhs, self.3 | rhs, self.4 | rhs, self.5 | rhs,
            self.6 | rhs, self.7 | rhs, self.8 | rhs, self.9 | rhs, self.10 | rhs, self.11 | rhs,
            self.12 | rhs, self.13 | rhs, self.14 | rhs, self.15 | rhs,
        )
    }
}

impl core::ops::BitOr<long16> for i64 {
    type Output = long16;

    /// The disjunction of the scalar and every lane, bit by bit.
    fn bitor(self, rhs: long16) -> (r: long16) {
        long16(
            self | rhs.0, self | rhs.1, self | rhs.2, self | rhs.3, self | rhs.4, self | rhs.5,
            self | rhs.6, self | rhs.7, self | rhs.8, self | rhs.9, self | rhs.10, self | rhs.11,
            self | rhs.12, self | rhs.13, self | rhs.14, self | rhs.15,
        )
    }
}

impl BitOrSpecImpl<long16> for i64 {
    open spec fn obeys_bitor_spec() -> bool {
        true
    }

    open spec fn bitor_req(self, rhs: long16) -> bool {
        true
    }

    open spec fn bitor_spec(self, rhs: long16) -> long16 {
        long16(
            self | rhs.0, self | rhs.1, self | rhs.2, self | rhs.3, self | rhs.4, self | rhs.5,
            self | rhs.6, self | rhs.7, self | rhs.8, self | rhs.9, self | rhs.10, self | rhs.11,
            self | rhs.12, self | rhs.13, self | rhs.14, self | rhs.15,
        )
    }
}

impl core::ops::BitXor for long16 {
    type Output = long16;

    /// The lane-wise exclusive disjunction of the two vectors, bit by bit.
    fn bitxor(self, rhs: long16) -> (r: long16) {
        long16(
            self.0 ^ rhs.0, self.1 ^ rhs.1, self.2 ^ rhs.2, self.3 ^ rhs.3, self.4 ^ rhs.4,
            self.5 ^ rhs.5, self.6 ^ rhs.6, self.7 ^ rhs.7, self.8 ^ rhs.8, self.9 ^ rhs.9,
            self.10 ^ rhs.10, self.11 ^ rhs.11, self.12 ^ rhs.12, self.13 ^ rhs.13,
            self.14 ^ rhs.14, self.15 ^ rhs.15,
        )
    }
}

impl BitXorSpecImpl for long16 {
    open spec fn obeys_bitxor_spec() -> bool {
        true
    }

    open spec fn bitxor_req(self, rhs: long16) -> bool {
        true
    }

    open spec fn bitxor_spec(self, rhs: long16) -> long16 {
        long16(
            self.0 ^ rhs.0, self.1 ^ rhs.1, self.2 ^ rhs.2, self.3 ^ rhs.3, self.4 ^ rhs.4,
            self.5 ^ rhs.5, self.6 ^ rhs.6, self.7 ^ rhs.7, self.8 ^ rhs.8, self.9 ^ rhs.9,
            self.10 ^ rhs.10, self.11 ^ rhs.11, self.12 ^ rhs.12, self.13 ^ rhs.13,
            self.14 ^ rhs.14, self.15 ^ rhs.15,
        )
    }
}

impl core::ops::BitXor<i64> for long16 {
    type Output = long16;

    /// The exclusive disjunction of every lane and the scalar, bit by bit.
    fn bitxor(self, rhs: i64) -> (r: long16) {
        long16(
            self.0 ^ rhs, self.1 ^ rhs, self.2 ^ rhs, self.3 ^ rhs, self.4 ^ rhs, self.5 ^ rhs,
            self.6 ^ rhs, self.7 ^ rhs, self.8 ^ rhs, self.9 ^ rhs, self.10 ^ rhs, self.11 ^ rhs,
            self.12 ^ rhs, self.13 ^ rhs, self.14 ^ rhs, self.15 ^ rhs,
        )
    }
}

impl BitXorSpecImpl<i64> for long16 {
    open spec fn obeys_bitxor_spec() -> bool {
        true
    }

    open spec fn bitxor_req(self, rhs: i64) -> bool {
        true
    }

    open spec fn bitxor_spec(self, rhs: i64) -> long16 {
        long16(
            self.0 ^ rhs, self.1 ^ rhs, self.2 ^ rhs, self.3 ^ rhs, self.4 ^ rhs, self.5 ^ rhs,
            self.6 ^ rhs, self.7 ^ rhs, self.8 ^ rhs, self.9 ^ rhs, self.10 ^ rhs, self.11 ^ rhs,
            self.12 ^ rhs, self.13 ^ rhs, self.14 ^ rhs, self.15 ^ rhs,
        )
    }
}

impl core::ops::BitXor<long16> for i64 {
    type Output = long16;

    /// The exclusive disjunction of the scalar and every lane, bit by bit.
    fn bitxor(self, rhs: long16) -> (r: long16) {
        long16(
            self ^ rhs.0, self ^ rhs.1, self ^ rhs.2, self ^ rhs.3, self ^ rhs.4, self ^ rhs.5,
            self ^ rhs.6, self ^ rhs.7, self ^ rhs.8, self ^ rhs.9, self ^ rhs.10, self ^ rhs.11,
            self ^ rhs.12, self ^ rhs.13, self ^ rhs.14, self ^ rhs.15,
        )
    }
}

impl BitXorSpecImpl<long16> for i64 {
    open spec fn obeys_bitxor_spec() -> bool {
        true
    }

    open spec fn bitxor_req(self, rhs: long16) -> bool {
        true
    }

    open spec fn bitxor_spec(self, rhs: long16) -> long16 {
        long16(
            self ^ rhs.0, self ^ rhs.1, self ^ rhs.2, self ^ rhs.3, self ^ rhs.4, self ^ rhs.5,
            self ^ rhs.6, self ^ rhs.7, self ^ rhs.8, self ^ rhs.9, self ^ rhs.10, self ^ rhs.11,
            self ^ rhs.12, self ^ rhs.13, self ^ rhs.14, self ^ rhs.15,
        )
    }
}

impl core::ops::Shl for long16 {
    type Output = long16;

    /// Every lane shifted left by the lane of `rhs`, which is below 64.
    fn shl(self, rhs: long16) -> (r: long16) {
        long16(
            shl_i64(self.0, rhs.0), shl_i64(self.1, rhs.1), shl_i64(self.2, rhs.2),
            shl_i64(self.3, rhs.3), shl_i64(self.4, rhs.4), shl_i64(self.5, rhs.5),
            shl_i64(self.6, rhs.6), shl_i64(self.7, rhs.7), shl_i64(self.8, rhs.8),
            shl_i64(self.9, rhs.9), shl_i64(self.10, rhs.10), shl_i64(self.11, rhs.11),
            shl_i64(self.12, rhs.12), shl_i64(self.13, rhs.13), shl_i64(self.14, rhs.14),
            shl_i64(self.15, rhs.15),
        )
    }
}

impl ShlSpecImpl for long16 {
    open spec fn obeys_shl_spec() -> bool {
        true
    }

    open spec fn shl_req(self, rhs: long16) -> bool {
        0 <= rhs.0 < 64 && 0 <= rhs.1 < 64 && 0 <= rhs.2 < 64 && 0 <= rhs.3 < 64 && 0 <= rhs.4 < 64
            && 0 <= rhs.5 < 64 && 0 <= rhs.6 < 64 && 0 <= rhs.7 < 64 && 0 <= rhs.8 < 64
            && 0 <= rhs.9 < 64 && 0 <= rhs.10 < 64 && 0 <= rhs.11 < 64 && 0 <= rhs.12 < 64
            && 0 <= rhs.13 < 64 && 0 <= rhs.14 < 64 && 0 <= rhs.15 < 64
    }

    open spec fn shl_spec(self, rhs: long16) -> long16 {
        long16(
            shl_i64(self.0, rhs.0), shl_i64(self.1, rhs.1), shl_i64(self.2, rhs.2),
            shl_i64(self.3, rhs.3), shl_i64(self.4, rhs.4), shl_i64(self.5, rhs.5),
            shl_i64(self.6, rhs.6), shl_i64(self.7, rhs.7), shl_i64(self.8, rhs.8),
            shl_i64(self.9, rhs.9), shl_i64(self.10, rhs.10), shl_i64(self.11, rhs.11),
            shl_i64(self.12, rhs.12), shl_i64(self.13, rhs.13), shl_i64(self.14, rhs.14),
            shl_i64(self.15, rhs.15),
        )
    }
}

impl core::ops::Shl<i64> for long16 {
    type Output = long16;

    /// Every lane shifted left by `rhs`, which is below 64.
    fn shl(self, rhs: i64) -> (r: long16) {
        long16(
            shl_i64(self.0, rhs), shl_i64(self.1, rhs), shl_i64(self.2, rhs), shl_i64(self.3, rhs),
            shl_i64(self.4, rhs), shl_i64(self.5, rhs), shl_i64(self.6, rhs), shl_i64(self.7, rhs),
            shl_i64(self.8, rhs), shl_i64(self.9, rhs), shl_i64(self.10, rhs),
            shl_i64(self.11, rhs), shl_i64(self.12, rhs), shl_i64(self.13, rhs),
            shl_i64(self.14, rhs), shl_i64(self.15, rhs),
        )
    }
}

impl ShlSpecImpl<i64> for long16 {
    open spec fn obeys_shl_spec() -> bool {
        true
    }

    open spec fn shl_req(self, rhs: i64) -> bool {
        0 <= rhs < 64
    }

    open spec fn shl_spec(self, rhs: i64) -> long16 {
        long16(
            shl_i64(self.0, rhs), shl_i64(self.1, rhs), shl_i64(self.2, rhs), shl_i64(self.3, rhs),
            shl_i64(self.4, rhs), shl_i64(self.5, rhs), shl_i64(self.6, rhs), shl_i64(self.7, rhs),
            shl_i64(self.8, rhs), shl_i64(self.9, rhs), shl_i64(self.10, rhs),
            shl_i64(self.11, rhs), shl_i64(self.12, rhs), shl_i64(self.13, rhs),
            shl_i64(self.14, rhs), shl_i64(self.15, rhs),
        )
    }
}

impl core::ops::Shl<long16> for i64 {
    type Output = long16;

    /// The scalar shifted left by every lane of `rhs`, each of which is below 64.
    fn shl(self, rhs: long16) -> (r: long16) {
        long16(
            shl_i64(self, rhs.0), shl_i64(self, rhs.1), shl_i64(self, rhs.2), shl_i64(self, rhs.3),
            shl_i64(self, rhs.4), shl_i64(self, rhs.5), shl_i64(self, rhs.6), shl_i64(self, rhs.7),
            shl_i64(self, rhs.8), shl_i64(self, rhs.9), shl_i64(self, rhs.10),
            shl_i64(self, rhs.11), shl_i64(self, rhs.12), shl_i64(self, rhs.13),
            shl_i64(self, rhs.14), shl_i64(self, rhs.15),
        )
    }
}

impl ShlSpecImpl<long16> for i64 {
    open spec fn obeys_shl_spec() -> bool {
        true
    }

    open spec fn shl_req(self, rhs: long16) -> bool {
        0 <= rhs.0 < 64 && 0 <= rhs.1 < 64 && 0 <= rhs.2 < 64 && 0 <= rhs.3 < 64 && 0 <= rhs.4 < 64
            && 0 <= rhs.5 < 64 && 0 <= rhs.6 < 64 && 0 <= rhs.7 < 64 && 0 <= rhs.8 < 64
            && 0 <= rhs.9 < 64 && 0 <= rhs.10 < 64 && 0 <= rhs.11 < 64 && 0 <= rhs.12 < 64
            && 0 <= rhs.13 < 64 && 0 <= rhs.14 < 64 && 0 <= rhs.15 < 64
    }

    open spec fn shl_spec(self, rhs: long16) -> long16 {
        long16(
            shl_i64(self, rhs.0), shl_i64(self, rhs.1), shl_i64(self, rhs.2), shl_i64(self, rhs.3),
            shl_i64(self, rhs.4), shl_i64(self, rhs.5), shl_i64(self, rhs.6), shl_i64(self, rhs.7),
            shl_i64(self, rhs.8), shl_i64(self, rhs.9), shl_i64(self, rhs.10),
            shl_i64(self, rhs.11), shl_i64(self, rhs.12), shl_i64(self, rhs.13),
            shl_i64(self, rhs.14), shl_i64(self, rhs.15),
        )
    }
}

impl core::ops::Shr for long16 {
    type Output = long16;

    /// Every lane shifted right by the lane of `rhs`, which is below 64.
    fn shr(self, rhs: long16) -> (r: long16) {
        long16(
            shr_i64(self.0, rhs.0), shr_i64(self.1, rhs.1), shr_i64(self.2, rhs.2),
            shr_i64(self.3, rhs.3), shr_i64(self.4, rhs.4), shr_i64(self.5, rhs.5),
            shr_i64(self.6, rhs.6), shr_i64(self.7, rhs.7), shr_i64(self.8, rhs.8),
            shr_i64(self.9, rhs.9), shr_i64(self.10, rhs.10), shr_i64(self.11, rhs.11),
            shr_i64(self.12, rhs.12), shr_i64(self.13, rhs.13), shr_i64(self.14, rhs.14),
            shr_i64(self.15, rhs.15),
        )
    }
}

impl ShrSpecImpl for long16 {
    open spec fn obeys_shr_spec() -> bool {
        true
    }

    open spec fn shr_req(self, rhs: long16) -> bool {
        0 <= rhs.0 < 64 && 0 <= rhs.1 < 64 && 0 <= rhs.2 < 64 && 0 <= rhs.3 < 64 && 0 <= rhs.4 < 64
            && 0 <= rhs.5 < 64 && 0 <= rhs.6 < 64 && 0 <= rhs.7 < 64 && 0 <= rhs.8 < 64
            && 0 <= rhs.9 < 64 && 0 <= rhs.10 < 64 && 0 <= rhs.11 < 64 && 0 <= rhs.12 < 64
            && 0 <= rhs.13 < 64 && 0 <= rhs.14 < 64 && 0 <= rhs.15 < 64
    }

    open spec fn shr_spec(self, rhs: long16) -> long16 {
        long16(
            shr_i64(self.0, rhs.0), shr_i64(self.1, rhs.1), shr_i64(self.2, rhs.2),
            shr_i64(self.3, rhs.3), shr_i64(self.4, rhs.4), shr_i64(self.5, rhs.5),
            shr_i64(self.6, rhs.6), shr_i64(self.7, rhs.7), shr_i64(self.8, rhs.8),
            shr_i64(self.9, rhs.9), shr_i64(self.10, rhs.10), shr_i64(self.11, rhs.11),
            shr_i64(self.12, rhs.12), shr_i64(self.13, rhs.13), shr_i64(self.14, rhs.14),
            shr_i64(self.15, rhs.15),
        )
    }
}

impl core::ops::Shr<i64> for long16 {
    type Output = long16;

    /// Every lane shifted right by `rhs`, which is below 64.
    fn shr(self, rhs: i64) -> (r: long16) {
        long16(
            shr_i64(self.0, rhs), shr_i64(self.1, rhs), shr_i64(self.2, rhs), shr_i64(self.3, rhs),
            shr_i64(self.4, rhs), shr_i64(self.5, rhs), shr_i64(self.6, rhs), shr_i64(self.7, rhs),
            shr_i64(self.8, rhs), shr_i64(self.9, rhs), shr_i64(self.10, rhs),
            shr_i64(self.11, rhs), shr_i64(self.12, rhs), shr_i64(self.13, rhs),
            shr_i64(self.14, rhs), shr_i64(self.15, rhs),
        )
    }
}

impl ShrSpecImpl<i64> for long16 {
    open spec fn obeys_shr_spec() -> bool {
        true
    }

    open spec fn shr_req(self, rhs: i64) -> bool {
        0 <= rhs < 64
    }

    open spec fn shr_spec(self, rhs: i64) -> long16 {
        long16(
            shr_i64(self.0, rhs), shr_i64(self.1, rhs), shr_i64(self.2, rhs), shr_i64(self.3, rhs),
            shr_i64(self.4, rhs), shr_i64(self.5, rhs), shr_i64(self.6, rhs), shr_i64(self.7, rhs),
            shr_i64(self.8, rhs), shr_i64(self.9, rhs), shr_i64(self.10, rhs),
            shr_i64(self.11, rhs), shr_i64(self.12, rhs), shr_i64(self.13, rhs),
            shr_i64(self.14, rhs), shr_i64(self.15, rhs),
        )
    }
}

impl core::ops::Shr<long16> for i64 {
    type Output = long16;

    /// The scalar shifted right by every lane of `rhs`, each of which is below 64.
    fn shr(self, rhs: long16) -> (r: long16) {
        long16(
            shr_i64(self, rhs.0), shr_i64(self, rhs.1), shr_i64(self, rhs.2), shr_i64(self, rhs.3),
            shr_i64(self, rhs.4), shr_i64(self, rhs.5), shr_i64(self, rhs.6), shr_i64(self, rhs.7),
            shr_i64(self, rhs.8), shr_i64(self, rhs.9), shr_i64(self, rhs.10),
            shr_i64(self, rhs.11), shr_i64(self, rhs.12), shr_i64(self, rhs.13),
            shr_i64(self, rhs.14), shr_i64(self, rhs.15),
        )
    }
}

impl ShrSpecImpl<long16> for i64 {
    open spec fn obeys_shr_spec() -> bool {
        true
    }

    open spec fn shr_req(self, rhs: long16) -> bool {
        0 <= rhs.0 < 64 && 0 <= rhs.1 < 64 && 0 <= rhs.2 < 64 && 0 <= rhs.3 < 64 && 0 <= rhs.4 < 64
            && 0 <= rhs.5 < 64 && 0 <= rhs.6 < 64 && 0 <= rhs.7 < 64 && 0 <= rhs.8 < 64
            && 0 <= rhs.9 < 64 && 0 <= rhs.10 < 64 && 0 <= rhs.11 < 64 && 0 <= rhs.12 < 64
            && 0 <= rhs.13 < 64 && 0 <= rhs.14 < 64 && 0 <= rhs.15 < 64
    }

    open spec fn shr_spec(self, rhs: long16) -> long16 {
        long16(
            shr_i64(self, rhs.0), shr_i64(self, rhs.1), shr_i64(self, rhs.2), shr_i64(self, rhs.3),
            shr_i64(self, rhs.4), shr_i64(self, rhs.5), shr_i64(self, rhs.6), shr_i64(self, rhs.7),
            shr_i64(self, rhs.8), shr_i64(self, rhs.9), shr_i64(self, rhs.10),
            shr_i64(self, rhs.11), shr_i64(self, rhs.12), shr_i64(self, rhs.13),
            shr_i64(self, rhs.14), shr_i64(self, rhs.15),
        )
    }
}

impl core::ops::Rem for long16 {
    type Output = long16;

    /// The lane-wise remainder `self - (self / rhs) * rhs`. No lane of the divisor is zero.
    fn rem(self, rhs: long16) -> (r: long16) {
        long16(
            rem_i64(self.0, rhs.0), rem_i64(self.1, rhs.1), rem_i64(self.2, rhs.2),
            rem_i64(self.3, rhs.3), rem_i64(self.4, rhs.4), rem_i64(self.5, rhs.5),
            rem_i64(self.6, rhs.6), rem_i64(self.7, rhs.7), rem_i64(self.8, rhs.8),
            rem_i64(self.9, rhs.9), rem_i64(self.10, rhs.10), rem_i64(self.11, rhs.11),
            rem_i64(self.12, rhs.12), rem_i64(self.13, rhs.13), rem_i64(self.14, rhs.14),
            rem_i64(self.15, rhs.15),
        )
    }
}

impl RemSpecImpl for long16 {
    open spec fn obeys_rem_spec() -> bool {
        true
    }

    open spec fn rem_req(self, rhs: long16) -> bool {
        rhs.0 != 0 && rhs.1 != 0 && rhs.2 != 0 && rhs.3 != 0 && rhs.4 != 0 && rhs.5 != 0
            && rhs.6 != 0 && rhs.7 != 0 && rhs.8 != 0 && rhs.9 != 0 && rhs.10 != 0 && rhs.11 != 0
            && rhs.12 != 0 && rhs.13 != 0 && rhs.14 != 0 && rhs.15 != 0
    }

    open spec fn rem_spec(self, rhs: long16) -> long16 {
        long16(
            rem_i64(self.0, rhs.0), rem_i64(self.1, rhs.1), rem_i64(self.2, rhs.2),
            rem_i64(self.3, rhs.3), rem_i64(self.4, rhs.4), rem_i64(self.5, rhs.5),
            rem_i64(self.6, rhs.6), rem_i64(self.7, rhs.7), rem_i64(self.8, rhs.8),
            rem_i64(self.9, rhs.9), rem_i64(self.10, rhs.10), rem_i64(self.11, rhs.11),
            rem_i64(self.12, rhs.12), rem_i64(self.13, rhs.13), rem_i64(self.14, rhs.14),
            rem_i64(self.15, rhs.15),
        )
    }
}

impl core::ops::Neg for long16 {
    type Output = long16;

    /// Zero minus every lane, wrapping around.
    fn neg(self) -> (r: long16) {
        long16(
            neg_i64(self.0), neg_i64(self.1), neg_i64(self.2), neg_i64(self.3), neg_i64(self.4),
            neg_i64(self.5), neg_i64(self.6), neg_i64(self.7), neg_i64(self.8), neg_i64(self.9),
            neg_i64(self.10), neg_i64(self.11), neg_i64(self.12), neg_i64(self.13),
            neg_i64(self.14), neg_i64(self.15),
        )
    }
}

impl NegSpecImpl for long16 {
    open spec fn obeys_neg_spec() -> bool {
        true
    }

    open spec fn neg_req(self) -> bool {
        true
    }

    open spec fn neg_spec(self) -> long16 {
        long16(
            neg_i64(self.0), neg_i64(self.1), neg_i64(self.2), neg_i64(self.3), neg_i64(self.4),
            neg_i64(self.5), neg_i64(self.6), neg_i64(self.7), neg_i64(self.8), neg_i64(self.9),
            neg_i64(self.10), neg_i64(self.11), neg_i64(self.12), neg_i64(self.13),
            neg_i64(self.14), neg_i64(self.15),
        )
    }
}

impl core::ops::Not for long16 {
    type Output = long16;

    /// Every lane with every bit flipped.
    fn not(self) -> (r: long16) {
        long16(
            not_i64(self.0), not_i64(self.1), not_i64(self.2), not_i64(self.3), not_i64(self.4),
            not_i64(self.5), not_i64(self.6), not_i64(self.7), not_i64(self.8), not_i64(self.9),
            not_i64(self.10), not_i64(self.11), not_i64(self.12), not_i64(self.13),
            not_i64(self.14), not_i64(self.15),
        )
    }
}

impl NotSpecImpl for long16 {
    open spec fn obeys_not_spec() -> bool {
        true
    }

    open spec fn not_req(self) -> bool {
        true
    }

    open spec fn not_spec(self) -> long16 {
        long16(
            not_i64(self.0), not_i64(self.1), not_i64(self.2), not_i64(self.3), not_i64(self.4),
            not_i64(self.5), not_i64(self.6), not_i64(self.7), not_i64(self.8), not_i64(self.9),
            not_i64(self.10), not_i64(self.11), not_i64(self.12), not_i64(self.13),
            not_i64(self.14), not_i64(self.15),
        )
    }
}

impl core::convert::From<isize> for long16 {
    /// The vector with `x`, wrapped to `i64`, in every lane.
    fn from(x: isize) -> (r: long16) {
        let v = isize_to_i64(x);
        long16(v, v, v, v, v, v, v, v, v, v, v, v, v, v, v, v)
    }
}

impl FromSpecImpl<isize> for long16 {
    open spec fn obeys_from_spec() -> bool {
        true
    }

    open spec fn from_spec(x: isize) -> long16 {
        long16(
            isize_to_i64(x), isize_to_i64(x), isize_to_i64(x), isize_to_i64(x), isize_to_i64(x),
            isize_to_i64(x), isize_to_i64(x), isize_to_i64(x), isize_to_i64(x), isize_to_i64(x),
            isize_to_i64(x), isize_to_i64(x), isize_to_i64(x), isize_to_i64(x), isize_to_i64(x),
            isize_to_i64(x),
        )
    }
}

impl core::ops::Index<u32> for long16 {
    type Output = i64;

    /// Lane `i`, which is below 16.
    fn index(&self, i: u32) -> (r: &i64)
        ensures
            *r == self.lane(i as int),
    {
        match i {
            0 => &self.0,
            1 => &self.1,
            2 => &self.2,
            3 => &self.3,
            4 => &self.4,
            5 => &self.5,
            6 => &self.6,
            7 => &self.7,
            8 => &self.8,
            9 => &self.9,
            10 => &self.10,
            11 => &self.11,
            12 => &self.12,
            13 => &self.13,
            14 => &self.14,
            _ => &self.15,
        }
    }
}

impl vstd::std_specs::core::IndexSpecImpl<u32> for long16 {
    open spec fn index_req(&self, i: &u32) -> bool {
        *i < 16
    }
}

impl long16 {
    /// Lane `i`, counted from zero.
    pub open spec fn lane(self, i: int) -> i64
        recommends
            0 <= i < 16,
    {
        if i == 0 {
            self.0
        } else if i == 1 {
            self.1
        } else if i == 2 {
            self.2
        } else if i == 3 {
            self.3
        } else if i == 4 {
            self.4
        } else if i == 5 {
            self.5
        } else if i == 6 {
            self.6
        } else if i == 7 {
            self.7
        } else if i == 8 {
            self.8
        } else if i == 9 {
            self.9
        } else if i == 10 {
            self.10
        } else if i == 11 {
            self.11
        } else if i == 12 {
            self.12
        } else if i == 13 {
            self.13
        } else if i == 14 {
            self.14
        } else {
            self.15
        }
    }

    /// The vector of type `long16` with the bits of `x`, a value of a type that has as many bits,
    /// which is one with images of type `ulong16`.
    pub fn bitcast<U: Bitcast<Image = ulong16>>(x: U) -> (r: long16)
        ensures
            r == spec_bitcast::<U, long16>(x),
    {
        bitcast(x)
    }

    /// The vector with `x` in every lane.
    pub fn broadcast(x: i64) -> (r: long16)
        ensures
            r == long16(x, x, x, x, x, x, x, x, x, x, x, x, x, x, x, x),
    {
        long16(x, x, x, x, x, x, x, x, x, x, x, x, x, x, x, x)
    }

    /// Lane `i`, which is below 16.
    pub fn extract(self, i: u32) -> (r: i64)
        requires
            i < 16,
        ensures
            r == self.lane(i as int),
    {
        match i {
            0 => self.0,
            1 => self.1,
            2 => self.2,
            3 => self.3,
            4 => self.4,
            5 => self.5,
            6 => self.6,
            7 => self.7,
            8 => self.8,
            9 => self.9,
            10 => self.10,
            11 => self.11,
            12 => self.12,
            13 => self.13,
            14 => self.14,
            _ => self.15,
        }
    }

    /// The vector with `x` in lane `i`, which is below 16, and the other lanes unchanged.
    pub fn replace(self, i: u32, x: i64) -> (r: long16)
        requires
            i < 16,
        ensures
            forall|j: int| 0 <= j < 16 ==> #[trigger] r.lane(j) == (if j == i {
                x
            } else {
                self.lane(j)
            }),
    {
        match i {
            0 => long16(
                x, self.1, self.2, self.3, self.4, self.5, self.6, self.7, self.8, self.9, self.10,
                self.11, self.12, self.13, self.14, self.15,
            ),
            1 => long16(
                self.0, x, self.2, self.3, self.4, self.5, self.6, self.7, self.8, self.9, self.10,
                self.11, self.12, self.13, self.14, self.15,
            ),
            2 => long16(
                self.0, self.1, x, self.3, self.4, self.5, self.6, self.7, self.8, self.9, self.10,
                self.11, self.12, self.13, self.14, self.15,
            ),
            3 => long16(
                self.0, self.1, self.2, x, self.4, self.5, self.6, self.7, self.8, self.9, self.10,
                self.11, self.12, self.13, self.14, self.15,
            ),
            4 => long16(
                self.0, self.1, self.2, self.3, x, self.5, self.6, self.7, self.8, self.9, self.10,
                self.11, self.12, self.13, self.14, self.15,
            ),
            5 => long16(
                self.0, self.1, self.2, self.3, self.4, x, self.6, self.7, self.8, self.9, self.10,
                self.11, self.12, self.13, self.14, self.15,
            ),
            6 => long16(
                self.0, self.1, self.2, self.3, self.4, self.5, x, self.7, self.8, self.9, self.10,
                self.11, self.12, self.13, self.14, self.15,
            ),
            7 => long16(
                self.0, self.1, self.2, self.3, self.4, self.5, self.6, x, self.8, self.9, self.10,
                self.11, self.12, self.13, self.14, self.15,
            ),
            8 => long16(
                self.0, self.1, self.2, self.3, self.4, self.5, self.6, self.7, x, self.9, self.10,
                self.11, self.12, self.13, self.14, self.15,
            ),
            9 => long16(
                self.0, self.1, self.2, self.3, self.4, self.5, self.6, self.7, self.8, x, self.10,
                self.11, self.12, self.13, self.14, self.15,
            ),
            10 => long16(
                self.0, self.1, self.2, self.3, self.4, self.5, self.6, self.7, self.8, self.9, x,
                self.11, self.12, self.13, self.14, self.15,
            ),
            11 => long16(
                self.0, self.1, self.2, self.3, self.4, self.5, self.6, self.7, self.8, self.9,
                self.10, x, self.12, self.13, self.14, self.15,
            ),
            12 => long16(
                self.0, self.1, self.2, self.3, self.4, self.5, self.6, self.7, self.8, self.9,
                self.10, self.11, x, self.13, self.14, self.15,
            ),
            13 => long16(
                self.0, self.1, self.2, self.3, self.4, self.5, self.6, self.7, self.8, self.9,
                self.10, self.11, self.12, x, self.14, self.15,
            ),
            14 => long16(
                self.0, self.1, self.2, self.3, self.4, self.5, self.6, self.7, self.8, self.9,
                self.10, self.11, self.12, self.13, x, self.15,
            ),
            _ => long16(
                self.0, self.1, self.2, self.3, self.4, self.5, self.6, self.7, self.8, self.9,
                self.10, self.11, self.12, self.13, self.14, x,
            ),
        }
    }

    /// The mask that is all ones where the lanes of `x` and `y` are equal, and zero elsewhere.
    pub fn eq(x: long16, y: long16) -> (r: long16)
        ensures
            r == long16(
                eq_i64(x.0, y.0), eq_i64(x.1, y.1), eq_i64(x.2, y.2), eq_i64(x.3, y.3),
                eq_i64(x.4, y.4), eq_i64(x.5, y.5), eq_i64(x.6, y.6), eq_i64(x.7, y.7),
                eq_i64(x.8, y.8), eq_i64(x.9, y.9), eq_i64(x.10, y.10), eq_i64(x.11, y.11),
                eq_i64(x.12, y.12), eq_i64(x.13, y.13), eq_i64(x.14, y.14), eq_i64(x.15, y.15),
            ),
    {
        long16(
            eq_i64(x.0, y.0), eq_i64(x.1, y.1), eq_i64(x.2, y.2), eq_i64(x.3, y.3),
            eq_i64(x.4, y.4), eq_i64(x.5, y.5), eq_i64(x.6, y.6), eq_i64(x.7, y.7),
            eq_i64(x.8, y.8), eq_i64(x.9, y.9), eq_i64(x.10, y.10), eq_i64(x.11, y.11),
            eq_i64(x.12, y.12), eq_i64(x.13, y.13), eq_i64(x.14, y.14), eq_i64(x.15, y.15),
        )
    }

    /// The mask that is all ones where the lanes of `x` and `y` differ, and zero elsewhere.
    pub fn ne(x: long16, y: long16) -> (r: long16)
        ensures
            r == long16(
                ne_i64(x.0, y.0), ne_i64(x.1, y.1), ne_i64(x.2, y.2), ne_i64(x.3, y.3),
                ne_i64(x.4, y.4), ne_i64(x.5, y.5), ne_i64(x.6, y.6), ne_i64(x.7, y.7),
                ne_i64(x.8, y.8), ne_i64(x.9, y.9), ne_i64(x.10, y.10), ne_i64(x.11, y.11),
                ne_i64(x.12, y.12), ne_i64(x.13, y.13), ne_i64(x.14, y.14), ne_i64(x.15, y.15),
            ),
    {
        long16(
            ne_i64(x.0, y.0), ne_i64(x.1, y.1), ne_i64(x.2, y.2), ne_i64(x.3, y.3),
            ne_i64(x.4, y.4), ne_i64(x.5, y.5), ne_i64(x.6, y.6), ne_i64(x.7, y.7),
            ne_i64(x.8, y.8), ne_i64(x.9, y.9), ne_i64(x.10, y.10), ne_i64(x.11, y.11),
            ne_i64(x.12, y.12), ne_i64(x.13, y.13), ne_i64(x.14, y.14), ne_i64(x.15, y.15),
        )
    }

    /// The mask that is all ones where the lane of `x` is less than that of `y`, and zero
    /// elsewhere.
    pub fn lt(x: long16, y: long16) -> (r: long16)
        ensures
            r == long16(
                lt_i64(x.0, y.0), lt_i64(x.1, y.1), lt_i64(x.2, y.2), lt_i64(x.3, y.3),
                lt_i64(x.4, y.4), lt_i64(x.5, y.5), lt_i64(x.6, y.6), lt_i64(x.7, y.7),
                lt_i64(x.8, y.8), lt_i64(x.9, y.9), lt_i64(x.10, y.10), lt_i64(x.11, y.11),
                lt_i64(x.12, y.12), lt_i64(x.13, y.13), lt_i64(x.14, y.14), lt_i64(x.15, y.15),
            ),
    {
        long16(
            lt_i64(x.0, y.0), lt_i64(x.1, y.1), lt_i64(x.2, y.2), lt_i64(x.3, y.3),
            lt_i64(x.4, y.4), lt_i64(x.5, y.5), lt_i64(x.6, y.6), lt_i64(x.7, y.7),
            lt_i64(x.8, y.8), lt_i64(x.9, y.9), lt_i64(x.10, y.10), lt_i64(x.11, y.11),
            lt_i64(x.12, y.12), lt_i64(x.13, y.13), lt_i64(x.14, y.14), lt_i64(x.15, y.15),
        )
    }

    /// The mask that is all ones where the lane of `x` is at most that of `y`, and zero elsewhere.
    pub fn le(x: long16, y: long16) -> (r: long16)
        ensures
            r == long16(
                le_i64(x.0, y.0), le_i64(x.1, y.1), le_i64(x.2, y.2), le_i64(x.3, y.3),
                le_i64(x.4, y.4), le_i64(x.5, y.5), le_i64(x.6, y.6), le_i64(x.7, y.7),
                le_i64(x.8, y.8), le_i64(x.9, y.9), le_i64(x.10, y.10), le_i64(x.11, y.11),
                le_i64(x.12, y.12), le_i64(x.13, y.13), le_i64(x.14, y.14), le_i64(x.15, y.15),
            ),
    {
        long16(
            le_i64(x.0, y.0), le_i64(x.1, y.1), le_i64(x.2, y.2), le_i64(x.3, y.3),
            le_i64(x.4, y.4), le_i64(x.5, y.5), le_i64(x.6, y.6), le_i64(x.7, y.7),
            le_i64(x.8, y.8), le_i64(x.9, y.9), le_i64(x.10, y.10), le_i64(x.11, y.11),
            le_i64(x.12, y.12), le_i64(x.13, y.13), le_i64(x.14, y.14), le_i64(x.15, y.15),
        )
    }

    /// The mask that is all ones where the lane of `x` is greater than that of `y`, and zero
    /// elsewhere.
    pub fn gt(x: long16, y: long16) -> (r: long16)
        ensures
            r == long16(
                gt_i64(x.0, y.0), gt_i64(x.1, y.1), gt_i64(x.2, y.2), gt_i64(x.3, y.3),
                gt_i64(x.4, y.4), gt_i64(x.5, y.5), gt_i64(x.6, y.6), gt_i64(x.7, y.7),
                gt_i64(x.8, y.8), gt_i64(x.9, y.9), gt_i64(x.10, y.10), gt_i64(x.11, y.11),
                gt_i64(x.12, y.12), gt_i64(x.13, y.13), gt_i64(x.14, y.14), gt_i64(x.15, y.15),
            ),
    {
        long16(
            gt_i64(x.0, y.0), gt_i64(x.1, y.1), gt_i64(x.2, y.2), gt_i64(x.3, y.3),
            gt_i64(x.4, y.4), gt_i64(x.5, y.5), gt_i64(x.6, y.6), gt_i64(x.7, y.7),
            gt_i64(x.8, y.8), gt_i64(x.9, y.9), gt_i64(x.10, y.10), gt_i64(x.11, y.11),
            gt_i64(x.12, y.12), gt_i64(x.13, y.13), gt_i64(x.14, y.14), gt_i64(x.15, y.15),
        )
    }

    /// The mask that is all ones where the lane of `x` is at least that of `y`, and zero elsewhere.
    pub fn ge(x: long16, y: long16) -> (r: long16)
        ensures
            r == long16(
                ge_i64(x.0, y.0), ge_i64(x.1, y.1), ge_i64(x.2, y.2), ge_i64(x.3, y.3),
                ge_i64(x.4, y.4), ge_i64(x.5, y.5), ge_i64(x.6, y.6), ge_i64(x.7, y.7),
                ge_i64(x.8, y.8), ge_i64(x.9, y.9), ge_i64(x.10, y.10), ge_i64(x.11, y.11),
                ge_i64(x.12, y.12), ge_i64(x.13, y.13), ge_i64(x.14, y.14), ge_i64(x.15, y.15),
            ),
    {
        long16(
            ge_i64(x.0, y.0), ge_i64(x.1, y.1), ge_i64(x.2, y.2), ge_i64(x.3, y.3),
            ge_i64(x.4, y.4), ge_i64(x.5, y.5), ge_i64(x.6, y.6), ge_i64(x.7, y.7),
            ge_i64(x.8, y.8), ge_i64(x.9, y.9), ge_i64(x.10, y.10), ge_i64(x.11, y.11),
            ge_i64(x.12, y.12), ge_i64(x.13, y.13), ge_i64(x.14, y.14), ge_i64(x.15, y.15),
        )
    }

    /// `x * y + z` lane by lane, wrapping around.
    pub fn madd(x: long16, y: long16, z: long16) -> (r: long16)
        ensures
            r == long16(
                madd_i64(x.0, y.0, z.0), madd_i64(x.1, y.1, z.1), madd_i64(x.2, y.2, z.2),
                madd_i64(x.3, y.3, z.3), madd_i64(x.4, y.4, z.4), madd_i64(x.5, y.5, z.5),
                madd_i64(x.6, y.6, z.6), madd_i64(x.7, y.7, z.7), madd_i64(x.8, y.8, z.8),
                madd_i64(x.9, y.9, z.9), madd_i64(x.10, y.10, z.10), madd_i64(x.11, y.11, z.11),
                madd_i64(x.12, y.12, z.12), madd_i64(x.13, y.13, z.13), madd_i64(x.14, y.14, z.14),
                madd_i64(x.15, y.15, z.15),
            ),
    {
        long16(
            madd_i64(x.0, y.0, z.0), madd_i64(x.1, y.1, z.1), madd_i64(x.2, y.2, z.2),
            madd_i64(x.3, y.3, z.3), madd_i64(x.4, y.4, z.4), madd_i64(x.5, y.5, z.5),
            madd_i64(x.6, y.6, z.6), madd_i64(x.7, y.7, z.7), madd_i64(x.8, y.8, z.8),
            madd_i64(x.9, y.9, z.9), madd_i64(x.10, y.10, z.10), madd_i64(x.11, y.11, z.11),
            madd_i64(x.12, y.12, z.12), madd_i64(x.13, y.13, z.13), madd_i64(x.14, y.14, z.14),
            madd_i64(x.15, y.15, z.15),
        )
    }

    /// The magnitude of every lane; that of `i64::MIN` wraps around to `i64::MIN`.
    pub fn abs(x: long16) -> (r: long16)
        ensures
            r == x.spec_abs(),
    {
        long16(
            abs_i64(x.0), abs_i64(x.1), abs_i64(x.2), abs_i64(x.3), abs_i64(x.4), abs_i64(x.5),
            abs_i64(x.6), abs_i64(x.7), abs_i64(x.8), abs_i64(x.9), abs_i64(x.10), abs_i64(x.11),
            abs_i64(x.12), abs_i64(x.13), abs_i64(x.14), abs_i64(x.15),
        )
    }

    /// The greater lane of `x` and `y`, lane by lane.
    pub fn max(x: long16, y: long16) -> (r: long16)
        ensures
            r == x.spec_max(y),
    {
        long16(
            max_i64(x.0, y.0), max_i64(x.1, y.1), max_i64(x.2, y.2), max_i64(x.3, y.3),
            max_i64(x.4, y.4), max_i64(x.5, y.5), max_i64(x.6, y.6), max_i64(x.7, y.7),
            max_i64(x.8, y.8), max_i64(x.9, y.9), max_i64(x.10, y.10), max_i64(x.11, y.11),
            max_i64(x.12, y.12), max_i64(x.13, y.13), max_i64(x.14, y.14), max_i64(x.15, y.15),
        )
    }

    /// The smaller lane of `x` and `y`, lane by lane.
    pub fn min(x: long16, y: long16) -> (r: long16)
        ensures
            r == x.spec_min(y),
    {
        long16(
            min_i64(x.0, y.0), min_i64(x.1, y.1), min_i64(x.2, y.2), min_i64(x.3, y.3),
            min_i64(x.4, y.4), min_i64(x.5, y.5), min_i64(x.6, y.6), min_i64(x.7, y.7),
            min_i64(x.8, y.8), min_i64(x.9, y.9), min_i64(x.10, y.10), min_i64(x.11, y.11),
            min_i64(x.12, y.12), min_i64(x.13, y.13), min_i64(x.14, y.14), min_i64(x.15, y.15),
        )
    }

    /// Every lane of `x` raised to at least the lane of `lo`, then lowered to at most that of `hi`.
    pub fn clamp(x: long16, lo: long16, hi: long16) -> (r: long16)
        ensures
            r == x.spec_clamp(lo, hi),
    {
        long16(
            clamp_i64(x.0, lo.0, hi.0), clamp_i64(x.1, lo.1, hi.1), clamp_i64(x.2, lo.2, hi.2),
            clamp_i64(x.3, lo.3, hi.3), clamp_i64(x.4, lo.4, hi.4), clamp_i64(x.5, lo.5, hi.5),
            clamp_i64(x.6, lo.6, hi.6), clamp_i64(x.7, lo.7, hi.7), clamp_i64(x.8, lo.8, hi.8),
            clamp_i64(x.9, lo.9, hi.9), clamp_i64(x.10, lo.10, hi.10),
            clamp_i64(x.11, lo.11, hi.11), clamp_i64(x.12, lo.12, hi.12),
            clamp_i64(x.13, lo.13, hi.13), clamp_i64(x.14, lo.14, hi.14),
            clamp_i64(x.15, lo.15, hi.15),
        )
    }

    /// The sum of the lanes, wrapping around.
    pub fn reduce_add(x: long16) -> (r: i64)
        ensures
            r == x.spec_reduce_add(),
    {
        let s = add_i64(x.0, x.1);
        let ghost mut t: int = x.0 + x.1;
        proof {
            lemma_wrap_i64_sum(t, x.2 as int);
            t = t + x.2;
        }
        let s = add_i64(s, x.2);
        proof {
            lemma_wrap_i64_sum(t, x.3 as int);
            t = t + x.3;
        }
        let s = add_i64(s, x.3);
        proof {
            lemma_wrap_i64_sum(t, x.4 as int);
            t = t + x.4;
        }
        let s = add_i64(s, x.4);
        proof {
            lemma_wrap_i64_sum(t, x.5 as int);
            t = t + x.5;
        }
        let s = add_i64(s, x.5);
        proof {
            lemma_wrap_i64_sum(t, x.6 as int);
            t = t + x.6;
        }
        let s = add_i64(s, x.6);
        proof {
            lemma_wrap_i64_sum(t, x.7 as int);
            t = t + x.7;
        }
        let s = add_i64(s, x.7);
        proof {
            lemma_wrap_i64_sum(t, x.8 as int);
            t = t + x.8;
        }
        let s = add_i64(s, x.8);
        proof {
            lemma_wrap_i64_sum(t, x.9 as int);
            t = t + x.9;
        }
        let s = add_i64(s, x.9);
        proof {
            lemma_wrap_i64_sum(t, x.10 as int);
            t = t + x.10;
        }
        let s = add_i64(s, x.10);
        proof {
            lemma_wrap_i64_sum(t, x.11 as int);
            t = t + x.11;
        }
        let s = add_i64(s, x.11);
        proof {
            lemma_wrap_i64_sum(t, x.12 as int);
            t = t + x.12;
        }
        let s = add_i64(s, x.12);
        proof {
            lemma_wrap_i64_sum(t, x.13 as int);
            t = t + x.13;
        }
        let s = add_i64(s, x.13);
        proof {
            lemma_wrap_i64_sum(t, x.14 as int);
            t = t + x.14;
        }
        let s = add_i64(s, x.14);
        proof {
            lemma_wrap_i64_sum(t, x.15 as int);
            t = t + x.15;
        }
        let s = add_i64(s, x.15);
        s
    }

    /// The smallest lane.
    pub fn reduce_min(x: long16) -> (r: i64)
        ensures
            r == x.spec_reduce_min(),
            r <= x.0 && r <= x.1 && r <= x.2 && r <= x.3 && r <= x.4 && r <= x.5 && r <= x.6
                && r <= x.7 && r <= x.8 && r <= x.9 && r <= x.10 && r <= x.11 && r <= x.12
                && r <= x.13 && r <= x.14 && r <= x.15,
            r == x.0 || r == x.1 || r == x.2 || r == x.3 || r == x.4 || r == x.5 || r == x.6
                || r == x.7 || r == x.8 || r == x.9 || r == x.10 || r == x.11 || r == x.12
                || r == x.13 || r == x.14 || r == x.15,
    {
        let s = min_i64(x.0, x.1);
        let s = min_i64(s, x.2);
        let s = min_i64(s, x.3);
        let s = min_i64(s, x.4);
        let s = min_i64(s, x.5);
        let s = min_i64(s, x.6);
        let s = min_i64(s, x.7);
        let s = min_i64(s, x.8);
        let s = min_i64(s, x.9);
        let s = min_i64(s, x.10);
        let s = min_i64(s, x.11);
        let s = min_i64(s, x.12);
        let s = min_i64(s, x.13);
        let s = min_i64(s, x.14);
        let s = min_i64(s, x.15);
        s
    }

    /// The greatest lane.
    pub fn reduce_max(x: long16) -> (r: i64)
        ensures
            r == x.spec_reduce_max(),
            r >= x.0 && r >= x.1 && r >= x.2 && r >= x.3 && r >= x.4 && r >= x.5 && r >= x.6
                && r >= x.7 && r >= x.8 && r >= x.9 && r >= x.10 && r >= x.11 && r >= x.12
                && r >= x.13 && r >= x.14 && r >= x.15,
            r == x.0 || r == x.1 || r == x.2 || r == x.3 || r == x.4 || r == x.5 || r == x.6
                || r == x.7 || r == x.8 || r == x.9 || r == x.10 || r == x.11 || r == x.12
                || r == x.13 || r == x.14 || r == x.15,
    {
        let s = max_i64(x.0, x.1);
        let s = max_i64(s, x.2);
        let s = max_i64(s, x.3);
        let s = max_i64(s, x.4);
        let s = max_i64(s, x.5);
        let s = max_i64(s, x.6);
        let s = max_i64(s, x.7);
        let s = max_i64(s, x.8);
        let s = max_i64(s, x.9);
        let s = max_i64(s, x.10);
        let s = max_i64(s, x.11);
        let s = max_i64(s, x.12);
        let s = max_i64(s, x.13);
        let s = max_i64(s, x.14);
        let s = max_i64(s, x.15);
        s
    }

    /// Every lane as `i8`: its low 8 bits, read as `i8`.
    pub fn to_char(x: long16) -> (r: char16)
        ensures
            r == char16(
                i64_to_i8(x.0), i64_to_i8(x.1), i64_to_i8(x.2), i64_to_i8(x.3), i64_to_i8(x.4),
                i64_to_i8(x.5), i64_to_i8(x.6), i64_to_i8(x.7), i64_to_i8(x.8), i64_to_i8(x.9),
                i64_to_i8(x.10), i64_to_i8(x.11), i64_to_i8(x.12), i64_to_i8(x.13), i64_to_i8(x.14),
                i64_to_i8(x.15),
            ),
    {
        char16(
            i64_to_i8(x.0), i64_to_i8(x.1), i64_to_i8(x.2), i64_to_i8(x.3), i64_to_i8(x.4),
            i64_to_i8(x.5), i64_to_i8(x.6), i64_to_i8(x.7), i64_to_i8(x.8), i64_to_i8(x.9),
            i64_to_i8(x.10), i64_to_i8(x.11), i64_to_i8(x.12), i64_to_i8(x.13), i64_to_i8(x.14),
            i64_to_i8(x.15),
        )
    }

    /// Every lane as `i8`, saturating: a lane outside the range of `i8` gives the nearest bound.
    pub fn to_char_sat(x: long16) -> (r: char16)
        ensures
            r == x.spec_to_char_sat(),
    {
        char16(
            i64_to_i8_sat(x.0), i64_to_i8_sat(x.1), i64_to_i8_sat(x.2), i64_to_i8_sat(x.3),
            i64_to_i8_sat(x.4), i64_to_i8_sat(x.5), i64_to_i8_sat(x.6), i64_to_i8_sat(x.7),
            i64_to_i8_sat(x.8), i64_to_i8_sat(x.9), i64_to_i8_sat(x.10), i64_to_i8_sat(x.11),
            i64_to_i8_sat(x.12), i64_to_i8_sat(x.13), i64_to_i8_sat(x.14), i64_to_i8_sat(x.15),
        )
    }

    /// Every lane as `u8`: its low 8 bits, read as `u8`.
    pub fn to_uchar(x: long16) -> (r: uchar16)
        ensures
            r == uchar16(
                i64_to_u8(x.0), i64_to_u8(x.1), i64_to_u8(x.2), i64_to_u8(x.3), i64_to_u8(x.4),
                i64_to_u8(x.5), i64_to_u8(x.6), i64_to_u8(x.7), i64_to_u8(x.8), i64_to_u8(x.9),
                i64_to_u8(x.10), i64_to_u8(x.11), i64_to_u8(x.12), i64_to_u8(x.13), i64_to_u8(x.14),
                i64_to_u8(x.15),
            ),
    {
        uchar16(
            i64_to_u8(x.0), i64_to_u8(x.1), i64_to_u8(x.2), i64_to_u8(x.3), i64_to_u8(x.4),
            i64_to_u8(x.5), i64_to_u8(x.6), i64_to_u8(x.7), i64_to_u8(x.8), i64_to_u8(x.9),
            i64_to_u8(x.10), i64_to_u8(x.11), i64_to_u8(x.12), i64_to_u8(x.13), i64_to_u8(x.14),
            i64_to_u8(x.15),
        )
    }

    /// Every lane as `u8`, saturating: a lane outside the range of `u8` gives the nearest bound.
    pub fn to_uchar_sat(x: long16) -> (r: uchar16)
        ensures
            r == x.spec_to_uchar_sat(),
    {
        uchar16(
            i64_to_u8_sat(x.0), i64_to_u8_sat(x.1), i64_to_u8_sat(x.2), i64_to_u8_sat(x.3),
            i64_to_u8_sat(x.4), i64_to_u8_sat(x.5), i64_to_u8_sat(x.6), i64_to_u8_sat(x.7),
            i64_to_u8_sat(x.8), i64_to_u8_sat(x.9), i64_to_u8_sat(x.10), i64_to_u8_sat(x.11),
            i64_to_u8_sat(x.12), i64_to_u8_sat(x.13), i64_to_u8_sat(x.14), i64_to_u8_sat(x.15),
        )
    }

    /// Every lane as `i16`: its low 16 bits, read as `i16`.
    pub fn to_short(x: long16) -> (r: short16)
        ensures
            r == short16(
                i64_to_i16(x.0), i64_to_i16(x.1), i64_to_i16(x.2), i64_to_i16(x.3), i64_to_i16(x.4),
                i64_to_i16(x.5), i64_to_i16(x.6), i64_to_i16(x.7), i64_to_i16(x.8), i64_to_i16(x.9),
                i64_to_i16(x.10), i64_to_i16(x.11), i64_to_i16(x.12), i64_to_i16(x.13),
                i64_to_i16(x.14), i64_to_i16(x.15),
            ),
    {
        short16(
            i64_to_i16(x.0), i64_to_i16(x.1), i64_to_i16(x.2), i64_to_i16(x.3), i64_to_i16(x.4),
            i64_to_i16(x.5), i64_to_i16(x.6), i64_to_i16(x.7), i64_to_i16(x.8), i64_to_i16(x.9),
            i64_to_i16(x.10), i64_to_i16(x.11), i64_to_i16(x.12), i64_to_i16(x.13),
            i64_to_i16(x.14), i64_to_i16(x.15),
        )
    }

    /// Every lane as `i16`, saturating: a lane outside the range of `i16` gives the nearest bound.
    pub fn to_short_sat(x: long16) -> (r: short16)
        ensures
            r == x.spec_to_short_sat(),
    {
        short16(
            i64_to_i16_sat(x.0), i64_to_i16_sat(x.1), i64_to_i16_sat(x.2), i64_to_i16_sat(x.3),
            i64_to_i16_sat(x.4), i64_to_i16_sat(x.5), i64_to_i16_sat(x.6), i64_to_i16_sat(x.7),
            i64_to_i16_sat(x.8), i64_to_i16_sat(x.9), i64_to_i16_sat(x.10), i64_to_i16_sat(x.11),
            i64_to_i16_sat(x.12), i64_to_i16_sat(x.13), i64_to_i16_sat(x.14), i64_to_i16_sat(x.15),
        )
    }

    /// Every lane as `u16`: its low 16 bits, read as `u16`.
    pub fn to_ushort(x: long16) -> (r: ushort16)
        ensures
            r == ushort16(
                i64_to_u16(x.0), i64_to_u16(x.1), i64_to_u16(x.2), i64_to_u16(x.3), i64_to_u16(x.4),
                i64_to_u16(x.5), i64_to_u16(x.6), i64_to_u16(x.7), i64_to_u16(x.8), i64_to_u16(x.9),
                i64_to_u16(x.10), i64_to_u16(x.11), i64_to_u16(x.12), i64_to_u16(x.13),
                i64_to_u16(x.14), i64_to_u16(x.15),
            ),
    {
        ushort16(
            i64_to_u16(x.0), i64_to_u16(x.1), i64_to_u16(x.2), i64_to_u16(x.3), i64_to_u16(x.4),
            i64_to_u16(x.5), i64_to_u16(x.6), i64_to_u16(x.7), i64_to_u16(x.8), i64_to_u16(x.9),
            i64_to_u16(x.10), i64_to_u16(x.11), i64_to_u16(x.12), i64_to_u16(x.13),
            i64_to_u16(x.14), i64_to_u16(x.15),
        )
    }

    /// Every lane as `u16`, saturating: a lane outside the range of `u16` gives the nearest bound.
    pub fn to_ushort_sat(x: long16) -> (r: ushort16)
        ensures
            r == x.spec_to_ushort_sat(),
    {
        ushort16(
            i64_to_u16_sat(x.0), i64_to_u16_sat(x.1), i64_to_u16_sat(x.2), i64_to_u16_sat(x.3),
            i64_to_u16_sat(x.4), i64_to_u16_sat(x.5), i64_to_u16_sat(x.6), i64_to_u16_sat(x.7),
            i64_to_u16_sat(x.8), i64_to_u16_sat(x.9), i64_to_u16_sat(x.10), i64_to_u16_sat(x.11),
            i64_to_u16_sat(x.12), i64_to_u16_sat(x.13), i64_to_u16_sat(x.14), i64_to_u16_sat(x.15),
        )
    }

    /// Every lane as `i32`: its low 32 bits, read as `i32`.
    pub fn to_int(x: long16) -> (r: int16)
        ensures
            r == int16(
                i64_to_i32(x.0), i64_to_i32(x.1), i64_to_i32(x.2), i64_to_i32(x.3), i64_to_i32(x.4),
                i64_to_i32(x.5), i64_to_i32(x.6), i64_to_i32(x.7), i64_to_i32(x.8), i64_to_i32(x.9),
                i64_to_i32(x.10), i64_to_i32(x.11), i64_to_i32(x.12), i64_to_i32(x.13),
                i64_to_i32(x.14), i64_to_i32(x.15),
            ),
    {
        int16(
            i64_to_i32(x.0), i64_to_i32(x.1), i64_to_i32(x.2), i64_to_i32(x.3), i64_to_i32(x.4),
            i64_to_i32(x.5), i64_to_i32(x.6), i64_to_i32(x.7), i64_to_i32(x.8), i64_to_i32(x.9),
            i64_to_i32(x.10), i64_to_i32(x.11), i64_to_i32(x.12), i64_to_i32(x.13),
            i64_to_i32(x.14), i64_to_i32(x.15),
        )
    }

    /// Every lane as `i32`, saturating: a lane outside the range of `i32` gives the nearest bound.
    pub fn to_int_sat(x: long16) -> (r: int16)
        ensures
            r == x.spec_to_int_sat(),
    {
        int16(
            i64_to_i32_sat(x.0), i64_to_i32_sat(x.1), i64_to_i32_sat(x.2), i64_to_i32_sat(x.3),
            i64_to_i32_sat(x.4), i64_to_i32_sat(x.5), i64_to_i32_sat(x.6), i64_to_i32_sat(x.7),
            i64_to_i32_sat(x.8), i64_to_i32_sat(x.9), i64_to_i32_sat(x.10), i64_to_i32_sat(x.11),
            i64_to_i32_sat(x.12), i64_to_i32_sat(x.13), i64_to_i32_sat(x.14), i64_to_i32_sat(x.15),
        )
    }

    /// Every lane as `u32`: its low 32 bits, read as `u32`.
    pub fn to_uint(x: long16) -> (r: uint16)
        ensures
            r == uint16(
                i64_to_u32(x.0), i64_to_u32(x.1), i64_to_u32(x.2), i64_to_u32(x.3), i64_to_u32(x.4),
                i64_to_u32(x.5), i64_to_u32(x.6), i64_to_u32(x.7), i64_to_u32(x.8), i64_to_u32(x.9),
                i64_to_u32(x.10), i64_to_u32(x.11), i64_to_u32(x.12), i64_to_u32(x.13),
                i64_to_u32(x.14), i64_to_u32(x.15),
            ),
    {
        uint16(
            i64_to_u32(x.0), i64_to_u32(x.1), i64_to_u32(x.2), i64_to_u32(x.3), i64_to_u32(x.4),
            i64_to_u32(x.5), i64_to_u32(x.6), i64_to_u32(x.7), i64_to_u32(x.8), i64_to_u32(x.9),
            i64_to_u32(x.10), i64_to_u32(x.11), i64_to_u32(x.12), i64_to_u32(x.13),
            i64_to_u32(x.14), i64_to_u32(x.15),
        )
    }

    /// Every lane as `u32`, saturating: a lane outside the range of `u32` gives the nearest bound.
    pub fn to_uint_sat(x: long16) -> (r: uint16)
        ensures
            r == x.spec_to_uint_sat(),
    {
        uint16(
            i64_to_u32_sat(x.0), i64_to_u32_sat(x.1), i64_to_u32_sat(x.2), i64_to_u32_sat(x.3),
            i64_to_u32_sat(x.4), i64_to_u32_sat(x.5), i64_to_u32_sat(x.6), i64_to_u32_sat(x.7),
            i64_to_u32_sat(x.8), i64_to_u32_sat(x.9), i64_to_u32_sat(x.10), i64_to_u32_sat(x.11),
            i64_to_u32_sat(x.12), i64_to_u32_sat(x.13), i64_to_u32_sat(x.14), i64_to_u32_sat(x.15),
        )
    }

    /// The vector itself: its lanes are `i64` already.
    pub fn to_long(x: long16) -> (r: long16)
        ensures
            r == x,
    {
        x
    }

    /// The vector itself: its lanes are `i64` already, and nothing saturates.
    pub fn to_long_sat(x: long16) -> (r: long16)
        ensures
            r == x.spec_to_long_sat(),
    {
        x
    }

    /// Every lane as `u64`: the same bits, read as `u64`.
    pub fn to_ulong(x: long16) -> (r: ulong16)
        ensures
            r == ulong16(
                i64_to_u64(x.0), i64_to_u64(x.1), i64_to_u64(x.2), i64_to_u64(x.3), i64_to_u64(x.4),
                i64_to_u64(x.5), i64_to_u64(x.6), i64_to_u64(x.7), i64_to_u64(x.8), i64_to_u64(x.9),
                i64_to_u64(x.10), i64_to_u64(x.11), i64_to_u64(x.12), i64_to_u64(x.13),
                i64_to_u64(x.14), i64_to_u64(x.15),
            ),
    {
        ulong16(
            i64_to_u64(x.0), i64_to_u64(x.1), i64_to_u64(x.2), i64_to_u64(x.3), i64_to_u64(x.4),
            i64_to_u64(x.5), i64_to_u64(x.6), i64_to_u64(x.7), i64_to_u64(x.8), i64_to_u64(x.9),
            i64_to_u64(x.10), i64_to_u64(x.11), i64_to_u64(x.12), i64_to_u64(x.13),
            i64_to_u64(x.14), i64_to_u64(x.15),
        )
    }

    /// Every lane as `u64`, saturating: a lane outside the range of `u64` gives the nearest bound.
    pub fn to_ulong_sat(x: long16) -> (r: ulong16)
        ensures
            r == x.spec_to_ulong_sat(),
    {
        ulong16(
            i64_to_u64_sat(x.0), i64_to_u64_sat(x.1), i64_to_u64_sat(x.2), i64_to_u64_sat(x.3),
            i64_to_u64_sat(x.4), i64_to_u64_sat(x.5), i64_to_u64_sat(x.6), i64_to_u64_sat(x.7),
            i64_to_u64_sat(x.8), i64_to_u64_sat(x.9), i64_to_u64_sat(x.10), i64_to_u64_sat(x.11),
            i64_to_u64_sat(x.12), i64_to_u64_sat(x.13), i64_to_u64_sat(x.14), i64_to_u64_sat(x.15),
        )
    }

    /// The low half: lanes 0 to 7.
    pub fn lo(self) -> (r: long8)
        ensures
            r == long8(self.0, self.1, self.2, self.3, self.4, self.5, self.6, self.7),
    {
        long8(self.0, self.1, self.2, self.3, self.4, self.5, self.6, self.7)
    }

    /// The high half: lanes 8 to 15.
    pub fn hi(self) -> (r: long8)
        ensures
            r == long8(self.8, self.9, self.10, self.11, self.12, self.13, self.14, self.15),
    {
        long8(self.8, self.9, self.10, self.11, self.12, self.13, self.14, self.15)
    }

    /// The odd lanes: lanes 1, 3 and so on.
    pub fn odd(self) -> (r: long8)
        ensures
            r == long8(self.1, self.3, self.5, self.7, self.9, self.11, self.13, self.15),
    {
        long8(self.1, self.3, self.5, self.7, self.9, self.11, self.13, self.15)
    }

    /// The even lanes: lanes 0, 2 and so on.
    pub fn even(self) -> (r: long8)
        ensures
            r == long8(self.0, self.2, self.4, self.6, self.8, self.10, self.12, self.14),
    {
        long8(self.0, self.2, self.4, self.6, self.8, self.10, self.12, self.14)
    }

    /// The vector of `f` applied to every lane. `f` accepts every lane.
    pub fn map_unary<F: Fn(i64) -> i64>(self, f: F) -> (r: long16)
        requires
            call_requires(f, (self.0,)),
            call_requires(f, (self.1,)),
            call_requires(f, (self.2,)),
            call_requires(f, (self.3,)),
            call_requires(f, (self.4,)),
            call_requires(f, (self.5,)),
            call_requires(f, (self.6,)),
            call_requires(f, (self.7,)),
            call_requires(f, (self.8,)),
            call_requires(f, (self.9,)),
            call_requires(f, (self.10,)),
            call_requires(f, (self.11,)),
            call_requires(f, (self.12,)),
            call_requires(f, (self.13,)),
            call_requires(f, (self.14,)),
            call_requires(f, (self.15,)),
        ensures
            call_ensures(f, (self.0,), r.0),
            call_ensures(f, (self.1,), r.1),
            call_ensures(f, (self.2,), r.2),
            call_ensures(f, (self.3,), r.3),
            call_ensures(f, (self.4,), r.4),
            call_ensures(f, (self.5,), r.5),
            call_ensures(f, (self.6,), r.6),
            call_ensures(f, (self.7,), r.7),
            call_ensures(f, (self.8,), r.8),
            call_ensures(f, (self.9,), r.9),
            call_ensures(f, (self.10,), r.10),
            call_ensures(f, (self.11,), r.11),
            call_ensures(f, (self.12,), r.12),
            call_ensures(f, (self.13,), r.13),
            call_ensures(f, (self.14,), r.14),
            call_ensures(f, (self.15,), r.15),
    {
        long16(
            f(self.0), f(self.1), f(self.2), f(self.3), f(self.4), f(self.5), f(self.6), f(self.7),
            f(self.8), f(self.9), f(self.10), f(self.11), f(self.12), f(self.13), f(self.14),
            f(self.15),
        )
    }

    /// The vector of `f` applied to the lanes of the two vectors, lane by lane. `f` accepts every
    /// such pair of lanes.
    pub fn map_binary<F: Fn(i64, i64) -> i64>(self, other: long16, f: F) -> (r: long16)
        requires
            call_requires(f, (self.0, other.0)),
            call_requires(f, (self.1, other.1)),
            call_requires(f, (self.2, other.2)),
            call_requires(f, (self.3, other.3)),
            call_requires(f, (self.4, other.4)),
            call_requires(f, (self.5, other.5)),
            call_requires(f, (self.6, other.6)),
            call_requires(f, (self.7, other.7)),
            call_requires(f, (self.8, other.8)),
            call_requires(f, (self.9, other.9)),
            call_requires(f, (self.10, other.10)),
            call_requires(f, (self.11, other.11)),
            call_requires(f, (self.12, other.12)),
            call_requires(f, (self.13, other.13)),
            call_requires(f, (self.14, other.14)),
            call_requires(f, (self.15, other.15)),
        ensures
            call_ensures(f, (self.0, other.0), r.0),
            call_ensures(f, (self.1, other.1), r.1),
            call_ensures(f, (self.2, other.2), r.2),
            call_ensures(f, (self.3, other.3), r.3),
            call_ensures(f, (self.4, other.4), r.4),
            call_ensures(f, (self.5, other.5), r.5),
            call_ensures(f, (self.6, other.6), r.6),
            call_ensures(f, (self.7, other.7), r.7),
            call_ensures(f, (self.8, other.8), r.8),
            call_ensures(f, (self.9, other.9), r.9),
            call_ensures(f, (self.10, other.10), r.10),
            call_ensures(f, (self.11, other.11), r.11),
            call_ensures(f, (self.12, other.12), r.12),
            call_ensures(f, (self.13, other.13), r.13),
            call_ensures(f, (self.14, other.14), r.14),
            call_ensures(f, (self.15, other.15), r.15),
    {
        long16(
            f(self.0, other.0), f(self.1, other.1), f(self.2, other.2), f(self.3, other.3),
            f(self.4, other.4), f(self.5, other.5), f(self.6, other.6), f(self.7, other.7),
            f(self.8, other.8), f(self.9, other.9), f(self.10, other.10), f(self.11, other.11),
            f(self.12, other.12), f(self.13, other.13), f(self.14, other.14), f(self.15, other.15),
        )
    }

    /// The lanes folded by `f`, from lane 0 upward: `f` is applied to lane 1 and lane 0, then to
    /// each further lane and what the lanes below it gave. `f` accepts every pair of scalars.
    pub fn reduce<F: Fn(i64, i64) -> i64>(self, f: F) -> (r: i64)
        requires
            forall|a: i64, b: i64| call_requires(f, (a, b)),
        ensures
            exists|
                s1: i64, s2: i64, s3: i64, s4: i64, s5: i64, s6: i64, s7: i64, s8: i64, s9: i64,
                s10: i64, s11: i64, s12: i64, s13: i64, s14: i64,
            |
                call_ensures(f, (self.1, self.0), s1)
                    && call_ensures(f, (self.2, s1), s2)
                    && call_ensures(f, (self.3, s2), s3)
                    && call_ensures(f, (self.4, s3), s4)
                    && call_ensures(f, (self.5, s4), s5)
                    && call_ensures(f, (self.6, s5), s6)
                    && call_ensures(f, (self.7, s6), s7)
                    && call_ensures(f, (self.8, s7), s8)
                    && call_ensures(f, (self.9, s8), s9)
                    && call_ensures(f, (self.10, s9), s10)
                    && call_ensures(f, (self.11, s10), s11)
                    && call_ensures(f, (self.12, s11), s12)
                    && call_ensures(f, (self.13, s12), s13)
                    && call_ensures(f, (self.14, s13), s14)
                    && call_ensures(f, (self.15, s14), r),
    {
        let s1 = f(self.1, self.0);
        let s2 = f(self.2, s1);
        let s3 = f(self.3, s2);
        let s4 = f(self.4, s3);
        let s5 = f(self.5, s4);
        let s6 = f(self.6, s5);
        let s7 = f(self.7, s6);
        let s8 = f(self.8, s7);
        let s9 = f(self.9, s8);
        let s10 = f(self.10, s9);
        let s11 = f(self.11, s10);
        let s12 = f(self.12, s11);
        let s13 = f(self.13, s12);
        let s14 = f(self.14, s13);
        let s15 = f(self.15, s14);
        s15
    }

    /// Addition commutes.
    pub proof fn lemma_add_commutes(x: long16, y: long16)
        ensures
            AddSpec::add_spec(x, y) == AddSpec::add_spec(y, x),
    {
        lemma_arith_i64(x.0, y.0, 0);
        lemma_arith_i64(x.1, y.1, 0);
        lemma_arith_i64(x.2, y.2, 0);
        lemma_arith_i64(x.3, y.3, 0);
        lemma_arith_i64(x.4, y.4, 0);
        lemma_arith_i64(x.5, y.5, 0);
        lemma_arith_i64(x.6, y.6, 0);
        lemma_arith_i64(x.7, y.7, 0);
        lemma_arith_i64(x.8, y.8, 0);
        lemma_arith_i64(x.9, y.9, 0);
        lemma_arith_i64(x.10, y.10, 0);
        lemma_arith_i64(x.11, y.11, 0);
        lemma_arith_i64(x.12, y.12, 0);
        lemma_arith_i64(x.13, y.13, 0);
        lemma_arith_i64(x.14, y.14, 0);
        lemma_arith_i64(x.15, y.15, 0);
    }

    /// Addition associates, wrap-around or not.
    pub proof fn lemma_add_associates(x: long16, y: long16, z: long16)
        ensures
            AddSpec::add_spec(AddSpec::add_spec(x, y), z)
                == AddSpec::add_spec(x, AddSpec::add_spec(y, z)),
    {
        lemma_arith_i64(x.0, y.0, z.0);
        lemma_arith_i64(x.1, y.1, z.1);
        lemma_arith_i64(x.2, y.2, z.2);
        lemma_arith_i64(x.3, y.3, z.3);
        lemma_arith_i64(x.4, y.4, z.4);
        lemma_arith_i64(x.5, y.5, z.5);
        lemma_arith_i64(x.6, y.6, z.6);
        lemma_arith_i64(x.7, y.7, z.7);
        lemma_arith_i64(x.8, y.8, z.8);
        lemma_arith_i64(x.9, y.9, z.9);
        lemma_arith_i64(x.10, y.10, z.10);
        lemma_arith_i64(x.11, y.11, z.11);
        lemma_arith_i64(x.12, y.12, z.12);
        lemma_arith_i64(x.13, y.13, z.13);
        lemma_arith_i64(x.14, y.14, z.14);
        lemma_arith_i64(x.15, y.15, z.15);
    }

    /// Swapping the operands of a subtraction negates the difference.
    pub proof fn lemma_sub_swaps(x: long16, y: long16)
        ensures
            SubSpec::sub_spec(x, y) == NegSpec::neg_spec(SubSpec::sub_spec(y, x)),
    {
        lemma_arith_i64(x.0, y.0, 0);
        lemma_arith_i64(x.1, y.1, 0);
        lemma_arith_i64(x.2, y.2, 0);
        lemma_arith_i64(x.3, y.3, 0);
        lemma_arith_i64(x.4, y.4, 0);
        lemma_arith_i64(x.5, y.5, 0);
        lemma_arith_i64(x.6, y.6, 0);
        lemma_arith_i64(x.7, y.7, 0);
        lemma_arith_i64(x.8, y.8, 0);
        lemma_arith_i64(x.9, y.9, 0);
        lemma_arith_i64(x.10, y.10, 0);
        lemma_arith_i64(x.11, y.11, 0);
        lemma_arith_i64(x.12, y.12, 0);
        lemma_arith_i64(x.13, y.13, 0);
        lemma_arith_i64(x.14, y.14, 0);
        lemma_arith_i64(x.15, y.15, 0);
    }

    /// The magnitude of a magnitude is that magnitude, and the magnitude of a lane other than
    /// `i64::MIN` is not negative.
    pub proof fn lemma_abs(x: long16)
        ensures
            x.spec_abs().spec_abs() == x.spec_abs(),
            forall|i: int|
                0 <= i < 16 && x.lane(i) != i64::MIN ==> #[trigger] x.spec_abs().lane(i) >= 0,
            forall|i: int|
                0 <= i < 16 && x.lane(i) == i64::MIN ==>
                    #[trigger] x.spec_abs().lane(i) == i64::MIN,
    {
        lemma_abs_i64(x.0);
        lemma_abs_i64(x.1);
        lemma_abs_i64(x.2);
        lemma_abs_i64(x.3);
        lemma_abs_i64(x.4);
        lemma_abs_i64(x.5);
        lemma_abs_i64(x.6);
        lemma_abs_i64(x.7);
        lemma_abs_i64(x.8);
        lemma_abs_i64(x.9);
        lemma_abs_i64(x.10);
        lemma_abs_i64(x.11);
        lemma_abs_i64(x.12);
        lemma_abs_i64(x.13);
        lemma_abs_i64(x.14);
        lemma_abs_i64(x.15);
    }

    /// Flipping every bit of a lane gives minus one minus the lane.
    pub proof fn lemma_not(x: long16)
        ensures
            forall|i: int|
                0 <= i < 16 ==> #[trigger] NotSpec::not_spec(x).lane(i) == -1 - x.lane(i),
    {
        lemma_not_i64(x.0);
        lemma_not_i64(x.1);
        lemma_not_i64(x.2);
        lemma_not_i64(x.3);
        lemma_not_i64(x.4);
        lemma_not_i64(x.5);
        lemma_not_i64(x.6);
        lemma_not_i64(x.7);
        lemma_not_i64(x.8);
        lemma_not_i64(x.9);
        lemma_not_i64(x.10);
        lemma_not_i64(x.11);
        lemma_not_i64(x.12);
        lemma_not_i64(x.13);
        lemma_not_i64(x.14);
        lemma_not_i64(x.15);
    }

    /// The lanes of a vector with `k` in every lane add up to 16 times `k`, wrapped around.
    pub proof fn lemma_reduce_add_broadcast(k: i64)
        ensures
            long16(k, k, k, k, k, k, k, k, k, k, k, k, k, k, k, k).spec_reduce_add()
                == wrap_i64(16 * k),
    {
    }

    /// Saturating conversion to `i8` gives, lane by lane, the lane itself where `i8` holds it and
    /// the nearest bound of `i8` where it does not.
    pub proof fn lemma_to_char_sat(x: long16)
        ensures
            forall|i: int|
                0 <= i < 16 ==> #[trigger] x.spec_to_char_sat().lane(i) == sat_i8(x.lane(i) as int),
    {
    }

    /// Saturating conversion to `u8` gives, lane by lane, the lane itself where `u8` holds it and
    /// the nearest bound of `u8` where it does not.
    pub proof fn lemma_to_uchar_sat(x: long16)
        ensures
            forall|i: int|
                0 <= i < 16 ==>
                    #[trigger] x.spec_to_uchar_sat().lane(i) == sat_u8(x.lane(i) as int),
    {
    }

    /// Saturating conversion to `i16` gives, lane by lane, the lane itself where `i16` holds it and
    /// the nearest bound of `i16` where it does not.
    pub proof fn lemma_to_short_sat(x: long16)
        ensures
            forall|i: int|
                0 <= i < 16 ==>
                    #[trigger] x.spec_to_short_sat().lane(i) == sat_i16(x.lane(i) as int),
    {
    }

    /// Saturating conversion to `u16` gives, lane by lane, the lane itself where `u16` holds it and
    /// the nearest bound of `u16` where it does not.
    pub proof fn lemma_to_ushort_sat(x: long16)
        ensures
            forall|i: int|
                0 <= i < 16 ==>
                    #[trigger] x.spec_to_ushort_sat().lane(i) == sat_u16(x.lane(i) as int),
    {
    }

    /// Saturating conversion to `i32` gives, lane by lane, the lane itself where `i32` holds it and
    /// the nearest bound of `i32` where it does not.
    pub proof fn lemma_to_int_sat(x: long16)
        ensures
            forall|i: int|
                0 <= i < 16 ==> #[trigger] x.spec_to_int_sat().lane(i) == sat_i32(x.lane(i) as int),
    {
    }

    /// Saturating conversion to `u32` gives, lane by lane, the lane itself where `u32` holds it and
    /// the nearest bound of `u32` where it does not.
    pub proof fn lemma_to_uint_sat(x: long16)
        ensures
            forall|i: int|
                0 <= i < 16 ==>
                    #[trigger] x.spec_to_uint_sat().lane(i) == sat_u32(x.lane(i) as int),
    {
    }

    /// Saturating conversion to `u64` gives, lane by lane, the lane itself where `u64` holds it and
    /// the nearest bound of `u64` where it does not.
    pub proof fn lemma_to_ulong_sat(x: long16)
        ensures
            forall|i: int|
                0 <= i < 16 ==>
                    #[trigger] x.spec_to_ulong_sat().lane(i) == sat_u64(x.lane(i) as int),
    {
    }
}

impl Vector for long16 {
    type Scalar = i64;

    type Boolean = long16;

    type CharVector = char16;

    type ShortVector = short16;

    type IntVector = int16;

    type LongVector = long16;

    type UCharVector = uchar16;

    type UShortVector = ushort16;

    type UIntVector = uint16;

    type ULongVector = ulong16;

    type FloatVector = float16;

    type DoubleVector = double16;

    open spec fn spec_abs(self) -> long16 {
        long16(
            abs_i64(self.0), abs_i64(self.1), abs_i64(self.2), abs_i64(self.3), abs_i64(self.4),
            abs_i64(self.5), abs_i64(self.6), abs_i64(self.7), abs_i64(self.8), abs_i64(self.9),
            abs_i64(self.10), abs_i64(self.11), abs_i64(self.12), abs_i64(self.13),
            abs_i64(self.14), abs_i64(self.15),
        )
    }

    open spec fn spec_max(self, other: long16) -> long16 {
        long16(
            max_i64(self.0, other.0), max_i64(self.1, other.1), max_i64(self.2, other.2),
            max_i64(self.3, other.3), max_i64(self.4, other.4), max_i64(self.5, other.5),
            max_i64(self.6, other.6), max_i64(self.7, other.7), max_i64(self.8, other.8),
            max_i64(self.9, other.9), max_i64(self.10, other.10), max_i64(self.11, other.11),
            max_i64(self.12, other.12), max_i64(self.13, other.13), max_i64(self.14, other.14),
            max_i64(self.15, other.15),
        )
    }

    open spec fn spec_min(self, other: long16) -> long16 {
        long16(
            min_i64(self.0, other.0), min_i64(self.1, other.1), min_i64(self.2, other.2),
            min_i64(self.3, other.3), min_i64(self.4, other.4), min_i64(self.5, other.5),
            min_i64(self.6, other.6), min_i64(self.7, other.7), min_i64(self.8, other.8),
            min_i64(self.9, other.9), min_i64(self.10, other.10), min_i64(self.11, other.11),
            min_i64(self.12, other.12), min_i64(self.13, other.13), min_i64(self.14, other.14),
            min_i64(self.15, other.15),
        )
    }

    open spec fn spec_clamp(self, lo: long16, hi: long16) -> long16 {
        long16(
            clamp_i64(self.0, lo.0, hi.0), clamp_i64(self.1, lo.1, hi.1),
            clamp_i64(self.2, lo.2, hi.2), clamp_i64(self.3, lo.3, hi.3),
            clamp_i64(self.4, lo.4, hi.4), clamp_i64(self.5, lo.5, hi.5),
            clamp_i64(self.6, lo.6, hi.6), clamp_i64(self.7, lo.7, hi.7),
            clamp_i64(self.8, lo.8, hi.8), clamp_i64(self.9, lo.9, hi.9),
            clamp_i64(self.10, lo.10, hi.10), clamp_i64(self.11, lo.11, hi.11),
            clamp_i64(self.12, lo.12, hi.12), clamp_i64(self.13, lo.13, hi.13),
            clamp_i64(self.14, lo.14, hi.14), clamp_i64(self.15, lo.15, hi.15),
        )
    }

    open spec fn spec_reduce_add(self) -> i64 {
        wrap_i64(
            self.0 + self.1 + self.2 + self.3 + self.4 + self.5 + self.6 + self.7 + self.8 + self.9
                + self.10 + self.11 + self.12 + self.13 + self.14 + self.15
        )
    }

    open spec fn spec_reduce_min(self) -> i64 {
        let s = min_i64(self.0, self.1);
        let s = min_i64(s, self.2);
        let s = min_i64(s, self.3);
        let s = min_i64(s, self.4);
        let s = min_i64(s, self.5);
        let s = min_i64(s, self.6);
        let s = min_i64(s, self.7);
        let s = min_i64(s, self.8);
        let s = min_i64(s, self.9);
        let s = min_i64(s, self.10);
        let s = min_i64(s, self.11);
        let s = min_i64(s, self.12);
        let s = min_i64(s, self.13);
        let s = min_i64(s, self.14);
        let s = min_i64(s, self.15);
        s
    }

    open spec fn spec_reduce_max(self) -> i64 {
        let s = max_i64(self.0, self.1);
        let s = max_i64(s, self.2);
        let s = max_i64(s, self.3);
        let s = max_i64(s, self.4);
        let s = max_i64(s, self.5);
        let s = max_i64(s, self.6);
        let s = max_i64(s, self.7);
        let s = max_i64(s, self.8);
        let s = max_i64(s, self.9);
        let s = max_i64(s, self.10);
        let s = max_i64(s, self.11);
        let s = max_i64(s, self.12);
        let s = max_i64(s, self.13);
        let s = max_i64(s, self.14);
        let s = max_i64(s, self.15);
        s
    }

    open spec fn spec_to_char_sat(self) -> char16 {
        char16(
            i64_to_i8_sat(self.0), i64_to_i8_sat(self.1), i64_to_i8_sat(self.2),
            i64_to_i8_sat(self.3), i64_to_i8_sat(self.4), i64_to_i8_sat(self.5),
            i64_to_i8_sat(self.6), i64_to_i8_sat(self.7), i64_to_i8_sat(self.8),
            i64_to_i8_sat(self.9), i64_to_i8_sat(self.10), i64_to_i8_sat(self.11),
            i64_to_i8_sat(self.12), i64_to_i8_sat(self.13), i64_to_i8_sat(self.14),
            i64_to_i8_sat(self.15),
        )
    }

    open spec fn spec_to_uchar_sat(self) -> uchar16 {
        uchar16(
            i64_to_u8_sat(self.0), i64_to_u8_sat(self.1), i64_to_u8_sat(self.2),
            i64_to_u8_sat(self.3), i64_to_u8_sat(self.4), i64_to_u8_sat(self.5),
            i64_to_u8_sat(self.6), i64_to_u8_sat(self.7), i64_to_u8_sat(self.8),
            i64_to_u8_sat(self.9), i64_to_u8_sat(self.10), i64_to_u8_sat(self.11),
            i64_to_u8_sat(self.12), i64_to_u8_sat(self.13), i64_to_u8_sat(self.14),
            i64_to_u8_sat(self.15),
        )
    }

    open spec fn spec_to_short_sat(self) -> short16 {
        short16(
            i64_to_i16_sat(self.0), i64_to_i16_sat(self.1), i64_to_i16_sat(self.2),
            i64_to_i16_sat(self.3), i64_to_i16_sat(self.4), i64_to_i16_sat(self.5),
            i64_to_i16_sat(self.6), i64_to_i16_sat(self.7), i64_to_i16_sat(self.8),
            i64_to_i16_sat(self.9), i64_to_i16_sat(self.10), i64_to_i16_sat(self.11),
            i64_to_i16_sat(self.12), i64_to_i16_sat(self.13), i64_to_i16_sat(self.14),
            i64_to_i16_sat(self.15),
        )
    }

    open spec fn spec_to_ushort_sat(self) -> ushort16 {
        ushort16(
            i64_to_u16_sat(self.0), i64_to_u16_sat(self.1), i64_to_u16_sat(self.2),
            i64_to_u16_sat(self.3), i64_to_u16_sat(self.4), i64_to_u16_sat(self.5),
            i64_to_u16_sat(self.6), i64_to_u16_sat(self.7), i64_to_u16_sat(self.8),
            i64_to_u16_sat(self.9), i64_to_u16_sat(self.10), i64_to_u16_sat(self.11),
            i64_to_u16_sat(self.12), i64_to_u16_sat(self.13), i64_to_u16_sat(self.14),
            i64_to_u16_sat(self.15),
        )
    }

    open spec fn spec_to_int_sat(self) -> int16 {
        int16(
            i64_to_i32_sat(self.0), i64_to_i32_sat(self.1), i64_to_i32_sat(self.2),
            i64_to_i32_sat(self.3), i64_to_i32_sat(self.4), i64_to_i32_sat(self.5),
            i64_to_i32_sat(self.6), i64_to_i32_sat(self.7), i64_to_i32_sat(self.8),
            i64_to_i32_sat(self.9), i64_to_i32_sat(self.10), i64_to_i32_sat(self.11),
            i64_to_i32_sat(self.12), i64_to_i32_sat(self.13), i64_to_i32_sat(self.14),
            i64_to_i32_sat(self.15),
        )
    }

    open spec fn spec_to_uint_sat(self) -> uint16 {
        uint16(
            i64_to_u32_sat(self.0), i64_to_u32_sat(self.1), i64_to_u32_sat(self.2),
            i64_to_u32_sat(self.3), i64_to_u32_sat(self.4), i64_to_u32_sat(self.5),
            i64_to_u32_sat(self.6), i64_to_u32_sat(self.7), i64_to_u32_sat(self.8),
            i64_to_u32_sat(self.9), i64_to_u32_sat(self.10), i64_to_u32_sat(self.11),
            i64_to_u32_sat(self.12), i64_to_u32_sat(self.13), i64_to_u32_sat(self.14),
            i64_to_u32_sat(self.15),
        )
    }

    open spec fn spec_to_long_sat(self) -> long16 {
        self
    }

    open spec fn spec_to_ulong_sat(self) -> ulong16 {
        ulong16(
            i64_to_u64_sat(self.0), i64_to_u64_sat(self.1), i64_to_u64_sat(self.2),
            i64_to_u64_sat(self.3), i64_to_u64_sat(self.4), i64_to_u64_sat(self.5),
            i64_to_u64_sat(self.6), i64_to_u64_sat(self.7), i64_to_u64_sat(self.8),
            i64_to_u64_sat(self.9), i64_to_u64_sat(self.10), i64_to_u64_sat(self.11),
            i64_to_u64_sat(self.12), i64_to_u64_sat(self.13), i64_to_u64_sat(self.14),
            i64_to_u64_sat(self.15),
        )
    }

    fn abs(self) -> (r: long16) {
        long16::abs(self)
    }

    fn max(self, other: long16) -> (r: long16) {
        long16::max(self, other)
    }

    fn min(self, other: long16) -> (r: long16) {
        long16::min(self, other)
    }

    fn clamp(self, lo: long16, hi: long16) -> (r: long16) {
        long16::clamp(self, lo, hi)
    }

    fn reduce_add(self) -> (r: i64) {
        long16::reduce_add(self)
    }

    fn reduce_min(self) -> (r: i64) {
        long16::reduce_min(self)
    }

    fn reduce_max(self) -> (r: i64) {
        long16::reduce_max(self)
    }

    fn to_char_sat(self) -> (r: char16) {
        long16::to_char_sat(self)
    }

    fn to_uchar_sat(self) -> (r: uchar16) {
        long16::to_uchar_sat(self)
    }

    fn to_short_sat(self) -> (r: short16) {
        long16::to_short_sat(self)
    }

    fn to_ushort_sat(self) -> (r: ushort16) {
        long16::to_ushort_sat(self)
    }

    fn to_int_sat(self) -> (r: int16) {
        long16::to_int_sat(self)
    }

    fn to_uint_sat(self) -> (r: uint16) {
        long16::to_uint_sat(self)
    }

    fn to_long_sat(self) -> (r: long16) {
        long16::to_long_sat(self)
    }

    fn to_ulong_sat(self) -> (r: ulong16) {
        long16::to_ulong_sat(self)
    }
}

impl Integer for long16 {
    open spec fn spec_reduce_and(self) -> i64 {
        self.0 & self.1 & self.2 & self.3 & self.4 & self.5 & self.6 & self.7 & self.8 & self.9
            & self.10 & self.11 & self.12 & self.13 & self.14 & self.15
    }

    open spec fn spec_reduce_or(self) -> i64 {
        self.0 | self.1 | self.2 | self.3 | self.4 | self.5 | self.6 | self.7 | self.8 | self.9
            | self.10 | self.11 | self.12 | self.13 | self.14 | self.15
    }

    open spec fn spec_reduce_xor(self) -> i64 {
        self.0 ^ self.1 ^ self.2 ^ self.3 ^ self.4 ^ self.5 ^ self.6 ^ self.7 ^ self.8 ^ self.9
            ^ self.10 ^ self.11 ^ self.12 ^ self.13 ^ self.14 ^ self.15
    }

    open spec fn spec_all(self) -> bool {
        truth_i64(self.0) && truth_i64(self.1) && truth_i64(self.2) && truth_i64(self.3)
            && truth_i64(self.4) && truth_i64(self.5) && truth_i64(self.6) && truth_i64(self.7)
            && truth_i64(self.8) && truth_i64(self.9) && truth_i64(self.10) && truth_i64(self.11)
            && truth_i64(self.12) && truth_i64(self.13) && truth_i64(self.14) && truth_i64(self.15)
    }

    open spec fn spec_any(self) -> bool {
        truth_i64(self.0) || truth_i64(self.1) || truth_i64(self.2) || truth_i64(self.3)
            || truth_i64(self.4) || truth_i64(self.5) || truth_i64(self.6) || truth_i64(self.7)
            || truth_i64(self.8) || truth_i64(self.9) || truth_i64(self.10) || truth_i64(self.11)
            || truth_i64(self.12) || truth_i64(self.13) || truth_i64(self.14) || truth_i64(self.15)
    }

    fn reduce_and(self) -> (r: i64) {
        self.0 & self.1 & self.2 & self.3 & self.4 & self.5 & self.6 & self.7 & self.8 & self.9
            & self.10 & self.11 & self.12 & self.13 & self.14 & self.15
    }

    fn reduce_or(self) -> (r: i64) {
        self.0 | self.1 | self.2 | self.3 | self.4 | self.5 | self.6 | self.7 | self.8 | self.9
            | self.10 | self.11 | self.12 | self.13 | self.14 | self.15
    }

    fn reduce_xor(self) -> (r: i64) {
        self.0 ^ self.1 ^ self.2 ^ self.3 ^ self.4 ^ self.5 ^ self.6 ^ self.7 ^ self.8 ^ self.9
            ^ self.10 ^ self.11 ^ self.12 ^ self.13 ^ self.14 ^ self.15
    }

    fn all(self) -> (r: bool) {
        proof {
            let s = self.0 & self.1;
            lemma_bits_i64(self.0, self.1, 0, 0);
            lemma_bits_i64(s, self.2, 0, 0);
            let s = s & self.2;
            lemma_bits_i64(s, self.3, 0, 0);
            let s = s & self.3;
            lemma_bits_i64(s, self.4, 0, 0);
            let s = s & self.4;
            lemma_bits_i64(s, self.5, 0, 0);
            let s = s & self.5;
            lemma_bits_i64(s, self.6, 0, 0);
            let s = s & self.6;
            lemma_bits_i64(s, self.7, 0, 0);
            let s = s & self.7;
            lemma_bits_i64(s, self.8, 0, 0);
            let s = s & self.8;
            lemma_bits_i64(s, self.9, 0, 0);
            let s = s & self.9;
            lemma_bits_i64(s, self.10, 0, 0);
            let s = s & self.10;
            lemma_bits_i64(s, self.11, 0, 0);
            let s = s & self.11;
            lemma_bits_i64(s, self.12, 0, 0);
            let s = s & self.12;
            lemma_bits_i64(s, self.13, 0, 0);
            let s = s & self.13;
            lemma_bits_i64(s, self.14, 0, 0);
            let s = s & self.14;
            lemma_bits_i64(s, self.15, 0, 0);
        }
        truth_i64(self.reduce_and())
    }

    fn any(self) -> (r: bool) {
        proof {
            let s = self.0 | self.1;
            lemma_bits_i64(self.0, self.1, 0, 0);
            lemma_bits_i64(s, self.2, 0, 0);
            let s = s | self.2;
            lemma_bits_i64(s, self.3, 0, 0);
            let s = s | self.3;
            lemma_bits_i64(s, self.4, 0, 0);
            let s = s | self.4;
            lemma_bits_i64(s, self.5, 0, 0);
            let s = s | self.5;
            lemma_bits_i64(s, self.6, 0, 0);
            let s = s | self.6;
            lemma_bits_i64(s, self.7, 0, 0);
            let s = s | self.7;
            lemma_bits_i64(s, self.8, 0, 0);
            let s = s | self.8;
            lemma_bits_i64(s, self.9, 0, 0);
            let s = s | self.9;
            lemma_bits_i64(s, self.10, 0, 0);
            let s = s | self.10;
            lemma_bits_i64(s, self.11, 0, 0);
            let s = s | self.11;
            lemma_bits_i64(s, self.12, 0, 0);
            let s = s | self.12;
            lemma_bits_i64(s, self.13, 0, 0);
            let s = s | self.13;
            lemma_bits_i64(s, self.14, 0, 0);
            let s = s | self.14;
            lemma_bits_i64(s, self.15, 0, 0);
        }
        truth_i64(self.reduce_or())
    }
}

impl Dot for long16 {
    type DotProduct = i64;

    open spec fn spec_dot(self, other: long16) -> i64 {
        wrap_i64(
            self.0 * other.0 + self.1 * other.1 + self.2 * other.2 + self.3 * other.3
                + self.4 * other.4 + self.5 * other.5 + self.6 * other.6 + self.7 * other.7
                + self.8 * other.8 + self.9 * other.9 + self.10 * other.10 + self.11 * other.11
                + self.12 * other.12 + self.13 * other.13 + self.14 * other.14 + self.15 * other.15
        )
    }

    fn dot(self, other: long16) -> (r: i64) {
        let s = mul_i64(self.0, other.0);
        let ghost mut t: int = self.0 * other.0;
        proof {
            lemma_wrap_i64_sum(t, self.1 * other.1);
            t = t + self.1 * other.1;
        }
        let s = madd_i64(self.1, other.1, s);
        proof {
            lemma_wrap_i64_sum(t, self.2 * other.2);
            t = t + self.2 * other.2;
        }
        let s = madd_i64(self.2, other.2, s);
        proof {
            lemma_wrap_i64_sum(t, self.3 * other.3);
            t = t + self.3 * other.3;
        }
        let s = madd_i64(self.3, other.3, s);
        proof {
            lemma_wrap_i64_sum(t, self.4 * other.4);
            t = t + self.4 * other.4;
        }
        let s = madd_i64(self.4, other.4, s);
        proof {
            lemma_wrap_i64_sum(t, self.5 * other.5);
            t = t + self.5 * other.5;
        }
        let s = madd_i64(self.5, other.5, s);
        proof {
            lemma_wrap_i64_sum(t, self.6 * other.6);
            t = t + self.6 * other.6;
        }
        let s = madd_i64(self.6, other.6, s);
        proof {
            lemma_wrap_i64_sum(t, self.7 * other.7);
            t = t + self.7 * other.7;
        }
        let s = madd_i64(self.7, other.7, s);
        proof {
            lemma_wrap_i64_sum(t, self.8 * other.8);
            t = t + self.8 * other.8;
        }
        let s = madd_i64(self.8, other.8, s);
        proof {
            lemma_wrap_i64_sum(t, self.9 * other.9);
            t = t + self.9 * other.9;
        }
        let s = madd_i64(self.9, other.9, s);
        proof {
            lemma_wrap_i64_sum(t, self.10 * other.10);
            t = t + self.10 * other.10;
        }
        let s = madd_i64(self.10, other.10, s);
        proof {
            lemma_wrap_i64_sum(t, self.11 * other.11);
            t = t + self.11 * other.11;
        }
        let s = madd_i64(self.11, other.11, s);
        proof {
            lemma_wrap_i64_sum(t, self.12 * other.12);
            t = t + self.12 * other.12;
        }
        let s = madd_i64(self.12, other.12, s);
        proof {
            lemma_wrap_i64_sum(t, self.13 * other.13);
            t = t + self.13 * other.13;
        }
        let s = madd_i64(self.13, other.13, s);
        proof {
            lemma_wrap_i64_sum(t, self.14 * other.14);
            t = t + self.14 * other.14;
        }
        let s = madd_i64(self.14, other.14, s);
        proof {
            lemma_wrap_i64_sum(t, self.15 * other.15);
            t = t + self.15 * other.15;
        }
        let s = madd_i64(self.15, other.15, s);
        s
    }
}

impl Select<long16> for long16 {
    open spec fn spec_select(self, a: long16, b: long16) -> long16 {
        long16(
            select_i64(self.0, a.0, b.0), select_i64(self.1, a.1, b.1),
            select_i64(self.2, a.2, b.2), select_i64(self.3, a.3, b.3),
            select_i64(self.4, a.4, b.4), select_i64(self.5, a.5, b.5),
            select_i64(self.6, a.6, b.6), select_i64(self.7, a.7, b.7),
            select_i64(self.8, a.8, b.8), select_i64(self.9, a.9, b.9),
            select_i64(self.10, a.10, b.10), select_i64(self.11, a.11, b.11),
            select_i64(self.12, a.12, b.12), select_i64(self.13, a.13, b.13),
            select_i64(self.14, a.14, b.14), select_i64(self.15, a.15, b.15),
        )
    }

    open spec fn spec_bitselect(self, a: long16, b: long16) -> long16 {
        long16(
            bitselect_i64(self.0, a.0, b.0), bitselect_i64(self.1, a.1, b.1),
            bitselect_i64(self.2, a.2, b.2), bitselect_i64(self.3, a.3, b.3),
            bitselect_i64(self.4, a.4, b.4), bitselect_i64(self.5, a.5, b.5),
            bitselect_i64(self.6, a.6, b.6), bitselect_i64(self.7, a.7, b.7),
            bitselect_i64(self.8, a.8, b.8), bitselect_i64(self.9, a.9, b.9),
            bitselect_i64(self.10, a.10, b.10), bitselect_i64(self.11, a.11, b.11),
            bitselect_i64(self.12, a.12, b.12), bitselect_i64(self.13, a.13, b.13),
            bitselect_i64(self.14, a.14, b.14), bitselect_i64(self.15, a.15, b.15),
        )
    }

    fn select(self, a: long16, b: long16) -> (r: long16) {
        long16(
            select_i64(self.0, a.0, b.0), select_i64(self.1, a.1, b.1),
            select_i64(self.2, a.2, b.2), select_i64(self.3, a.3, b.3),
            select_i64(self.4, a.4, b.4), select_i64(self.5, a.5, b.5),
            select_i64(self.6, a.6, b.6), select_i64(self.7, a.7, b.7),
            select_i64(self.8, a.8, b.8), select_i64(self.9, a.9, b.9),
            select_i64(self.10, a.10, b.10), select_i64(self.11, a.11, b.11),
            select_i64(self.12, a.12, b.12), select_i64(self.13, a.13, b.13),
            select_i64(self.14, a.14, b.14), select_i64(self.15, a.15, b.15),
        )
    }

    fn bitselect(self, a: long16, b: long16) -> (r: long16) {
        long16(
            bitselect_i64(self.0, a.0, b.0), bitselect_i64(self.1, a.1, b.1),
            bitselect_i64(self.2, a.2, b.2), bitselect_i64(self.3, a.3, b.3),
            bitselect_i64(self.4, a.4, b.4), bitselect_i64(self.5, a.5, b.5),
            bitselect_i64(self.6, a.6, b.6), bitselect_i64(self.7, a.7, b.7),
            bitselect_i64(self.8, a.8, b.8), bitselect_i64(self.9, a.9, b.9),
            bitselect_i64(self.10, a.10, b.10), bitselect_i64(self.11, a.11, b.11),
            bitselect_i64(self.12, a.12, b.12), bitselect_i64(self.13, a.13, b.13),
            bitselect_i64(self.14, a.14, b.14), bitselect_i64(self.15, a.15, b.15),
        )
    }
}

impl Select<ulong16> for long16 {
    open spec fn spec_select(self, a: ulong16, b: ulong16) -> ulong16 {
        ulong16(
            select_u64(self.0, a.0, b.0), select_u64(self.1, a.1, b.1),
            select_u64(self.2, a.2, b.2), select_u64(self.3, a.3, b.3),
            select_u64(self.4, a.4, b.4), select_u64(self.5, a.5, b.5),
            select_u64(self.6, a.6, b.6), select_u64(self.7, a.7, b.7),
            select_u64(self.8, a.8, b.8), select_u64(self.9, a.9, b.9),
            select_u64(self.10, a.10, b.10), select_u64(self.11, a.11, b.11),
            select_u64(self.12, a.12, b.12), select_u64(self.13, a.13, b.13),
            select_u64(self.14, a.14, b.14), select_u64(self.15, a.15, b.15),
        )
    }

    open spec fn spec_bitselect(self, a: ulong16, b: ulong16) -> ulong16 {
        ulong16(
            bitselect_u64(self.0, a.0, b.0), bitselect_u64(self.1, a.1, b.1),
            bitselect_u64(self.2, a.2, b.2), bitselect_u64(self.3, a.3, b.3),
            bitselect_u64(self.4, a.4, b.4), bitselect_u64(self.5, a.5, b.5),
            bitselect_u64(self.6, a.6, b.6), bitselect_u64(self.7, a.7, b.7),
            bitselect_u64(self.8, a.8, b.8), bitselect_u64(self.9, a.9, b.9),
            bitselect_u64(self.10, a.10, b.10), bitselect_u64(self.11, a.11, b.11),
            bitselect_u64(self.12, a.12, b.12), bitselect_u64(self.13, a.13, b.13),
            bitselect_u64(self.14, a.14, b.14), bitselect_u64(self.15, a.15, b.15),
        )
    }

    fn select(self, a: ulong16, b: ulong16) -> (r: ulong16) {
        ulong16(
            select_u64(self.0, a.0, b.0), select_u64(self.1, a.1, b.1),
            select_u64(self.2, a.2, b.2), select_u64(self.3, a.3, b.3),
            select_u64(self.4, a.4, b.4), select_u64(self.5, a.5, b.5),
            select_u64(self.6, a.6, b.6), select_u64(self.7, a.7, b.7),
            select_u64(self.8, a.8, b.8), select_u64(self.9, a.9, b.9),
            select_u64(self.10, a.10, b.10), select_u64(self.11, a.11, b.11),
            select_u64(self.12, a.12, b.12), select_u64(self.13, a.13, b.13),
            select_u64(self.14, a.14, b.14), select_u64(self.15, a.15, b.15),
        )
    }

    fn bitselect(self, a: ulong16, b: ulong16) -> (r: ulong16) {
        ulong16(
            bitselect_u64(self.0, a.0, b.0), bitselect_u64(self.1, a.1, b.1),
            bitselect_u64(self.2, a.2, b.2), bitselect_u64(self.3, a.3, b.3),
            bitselect_u64(self.4, a.4, b.4), bitselect_u64(self.5, a.5, b.5),
            bitselect_u64(self.6, a.6, b.6), bitselect_u64(self.7, a.7, b.7),
            bitselect_u64(self.8, a.8, b.8), bitselect_u64(self.9, a.9, b.9),
            bitselect_u64(self.10, a.10, b.10), bitselect_u64(self.11, a.11, b.11),
            bitselect_u64(self.12, a.12, b.12), bitselect_u64(self.13, a.13, b.13),
            bitselect_u64(self.14, a.14, b.14), bitselect_u64(self.15, a.15, b.15),
        )
    }
}

impl Select<double16> for long16 {
    open spec fn spec_select(self, a: double16, b: double16) -> double16 {
        double16(
            select_u64(self.0, a.0, b.0), select_u64(self.1, a.1, b.1),
            select_u64(self.2, a.2, b.2), select_u64(self.3, a.3, b.3),
            select_u64(self.4, a.4, b.4), select_u64(self.5, a.5, b.5),
            select_u64(self.6, a.6, b.6), select_u64(self.7, a.7, b.7),
            select_u64(self.8, a.8, b.8), select_u64(self.9, a.9, b.9),
            select_u64(self.10, a.10, b.10), select_u64(self.11, a.11, b.11),
            select_u64(self.12, a.12, b.12), select_u64(self.13, a.13, b.13),
            select_u64(self.14, a.14, b.14), select_u64(self.15, a.15, b.15),
        )
    }

    open spec fn spec_bitselect(self, a: double16, b: double16) -> double16 {
        double16(
            bitselect_u64(self.0, a.0, b.0), bitselect_u64(self.1, a.1, b.1),
            bitselect_u64(self.2, a.2, b.2), bitselect_u64(self.3, a.3, b.3),
            bitselect_u64(self.4, a.4, b.4), bitselect_u64(self.5, a.5, b.5),
            bitselect_u64(self.6, a.6, b.6), bitselect_u64(self.7, a.7, b.7),
            bitselect_u64(self.8, a.8, b.8), bitselect_u64(self.9, a.9, b.9),
            bitselect_u64(self.10, a.10, b.10), bitselect_u64(self.11, a.11, b.11),
            bitselect_u64(self.12, a.12, b.12), bitselect_u64(self.13, a.13, b.13),
            bitselect_u64(self.14, a.14, b.14), bitselect_u64(self.15, a.15, b.15),
        )
    }

    fn select(self, a: double16, b: double16) -> (r: double16) {
        double16(
            select_u64(self.0, a.0, b.0), select_u64(self.1, a.1, b.1),
            select_u64(self.2, a.2, b.2), select_u64(self.3, a.3, b.3),
            select_u64(self.4, a.4, b.4), select_u64(self.5, a.5, b.5),
            select_u64(self.6, a.6, b.6), select_u64(self.7, a.7, b.7),
            select_u64(self.8, a.8, b.8), select_u64(self.9, a.9, b.9),
            select_u64(self.10, a.10, b.10), select_u64(self.11, a.11, b.11),
            select_u64(self.12, a.12, b.12), select_u64(self.13, a.13, b.13),
            select_u64(self.14, a.14, b.14), select_u64(self.15, a.15, b.15),
        )
    }

    fn bitselect(self, a: double16, b: double16) -> (r: double16) {
        double16(
            bitselect_u64(self.0, a.0, b.0), bitselect_u64(self.1, a.1, b.1),
            bitselect_u64(self.2, a.2, b.2), bitselect_u64(self.3, a.3, b.3),
            bitselect_u64(self.4, a.4, b.4), bitselect_u64(self.5, a.5, b.5),
            bitselect_u64(self.6, a.6, b.6), bitselect_u64(self.7, a.7, b.7),
            bitselect_u64(self.8, a.8, b.8), bitselect_u64(self.9, a.9, b.9),
            bitselect_u64(self.10, a.10, b.10), bitselect_u64(self.11, a.11, b.11),
            bitselect_u64(self.12, a.12, b.12), bitselect_u64(self.13, a.13, b.13),
            bitselect_u64(self.14, a.14, b.14), bitselect_u64(self.15, a.15, b.15),
        )
    }
}

impl long16 {
    /// A blend of two `long16` gives the lane of `b` where the mask is all ones and the lane of `a`
    /// where it is zero, whatever the other lanes hold.
    pub proof fn lemma_bitselect_long16(m: long16, a: long16, b: long16)
        ensures
            forall|i: int|
                0 <= i < 16 && m.lane(i) == -1 ==>
                    #[trigger] m.spec_bitselect(a, b).lane(i) == b.lane(i),
            forall|i: int|
                0 <= i < 16 && m.lane(i) == 0 ==>
                    #[trigger] m.spec_bitselect(a, b).lane(i) == a.lane(i),
    {
        lemma_blend_i64(m.0, a.0, b.0);
        lemma_blend_i64(m.1, a.1, b.1);
        lemma_blend_i64(m.2, a.2, b.2);
        lemma_blend_i64(m.3, a.3, b.3);
        lemma_blend_i64(m.4, a.4, b.4);
        lemma_blend_i64(m.5, a.5, b.5);
        lemma_blend_i64(m.6, a.6, b.6);
        lemma_blend_i64(m.7, a.7, b.7);
        lemma_blend_i64(m.8, a.8, b.8);
        lemma_blend_i64(m.9, a.9, b.9);
        lemma_blend_i64(m.10, a.10, b.10);
        lemma_blend_i64(m.11, a.11, b.11);
        lemma_blend_i64(m.12, a.12, b.12);
        lemma_blend_i64(m.13, a.13, b.13);
        lemma_blend_i64(m.14, a.14, b.14);
        lemma_blend_i64(m.15, a.15, b.15);
    }

    /// A choice between two `long16` goes by the sign bit of the mask alone: it gives the lane of
    /// `b` where the mask is negative and the lane of `a` elsewhere, as the blend does under the
    /// mask whose every lane has its sign spread over all its bits.
    pub proof fn lemma_select_long16(m: long16, a: long16, b: long16)
        ensures
            m.spec_select(a, b) == ShrSpec::shr_spec(m, 63i64).spec_bitselect(a, b),
            forall|i: int|
                0 <= i < 16 && m.lane(i) < 0 ==>
                    #[trigger] m.spec_select(a, b).lane(i) == b.lane(i),
            forall|i: int|
                0 <= i < 16 && m.lane(i) >= 0 ==>
                    #[trigger] m.spec_select(a, b).lane(i) == a.lane(i),
    {
        lemma_blend_i64(m.0, a.0, b.0);
        lemma_blend_i64(m.1, a.1, b.1);
        lemma_blend_i64(m.2, a.2, b.2);
        lemma_blend_i64(m.3, a.3, b.3);
        lemma_blend_i64(m.4, a.4, b.4);
        lemma_blend_i64(m.5, a.5, b.5);
        lemma_blend_i64(m.6, a.6, b.6);
        lemma_blend_i64(m.7, a.7, b.7);
        lemma_blend_i64(m.8, a.8, b.8);
        lemma_blend_i64(m.9, a.9, b.9);
        lemma_blend_i64(m.10, a.10, b.10);
        lemma_blend_i64(m.11, a.11, b.11);
        lemma_blend_i64(m.12, a.12, b.12);
        lemma_blend_i64(m.13, a.13, b.13);
        lemma_blend_i64(m.14, a.14, b.14);
        lemma_blend_i64(m.15, a.15, b.15);
    }

    /// A blend of two `ulong16` gives the lane of `b` where the mask is all ones and the lane of
    /// `a` where it is zero, whatever the other lanes hold.
    pub proof fn lemma_bitselect_ulong16(m: long16, a: ulong16, b: ulong16)
        ensures
            forall|i: int|
                0 <= i < 16 && m.lane(i) == -1 ==>
                    #[trigger] m.spec_bitselect(a, b).lane(i) == b.lane(i),
            forall|i: int|
                0 <= i < 16 && m.lane(i) == 0 ==>
                    #[trigger] m.spec_bitselect(a, b).lane(i) == a.lane(i),
    {
        lemma_blend_u64(m.0, a.0, b.0);
        lemma_blend_u64(m.1, a.1, b.1);
        lemma_blend_u64(m.2, a.2, b.2);
        lemma_blend_u64(m.3, a.3, b.3);
        lemma_blend_u64(m.4, a.4, b.4);
        lemma_blend_u64(m.5, a.5, b.5);
        lemma_blend_u64(m.6, a.6, b.6);
        lemma_blend_u64(m.7, a.7, b.7);
        lemma_blend_u64(m.8, a.8, b.8);
        lemma_blend_u64(m.9, a.9, b.9);
        lemma_blend_u64(m.10, a.10, b.10);
        lemma_blend_u64(m.11, a.11, b.11);
        lemma_blend_u64(m.12, a.12, b.12);
        lemma_blend_u64(m.13, a.13, b.13);
        lemma_blend_u64(m.14, a.14, b.14);
        lemma_blend_u64(m.15, a.15, b.15);
    }

    /// A choice between two `ulong16` goes by the sign bit of the mask alone: it gives the lane of
    /// `b` where the mask is negative and the lane of `a` elsewhere, as the blend does under the
    /// mask whose every lane has its sign spread over all its bits.
    pub proof fn lemma_select_ulong16(m: long16, a: ulong16, b: ulong16)
        ensures
            m.spec_select(a, b) == ShrSpec::shr_spec(m, 63i64).spec_bitselect(a, b),
            forall|i: int|
                0 <= i < 16 && m.lane(i) < 0 ==>
                    #[trigger] m.spec_select(a, b).lane(i) == b.lane(i),
            forall|i: int|
                0 <= i < 16 && m.lane(i) >= 0 ==>
                    #[trigger] m.spec_select(a, b).lane(i) == a.lane(i),
    {
        lemma_blend_u64(m.0, a.0, b.0);
        lemma_blend_u64(m.1, a.1, b.1);
        lemma_blend_u64(m.2, a.2, b.2);
        lemma_blend_u64(m.3, a.3, b.3);
        lemma_blend_u64(m.4, a.4, b.4);
        lemma_blend_u64(m.5, a.5, b.5);
        lemma_blend_u64(m.6, a.6, b.6);
        lemma_blend_u64(m.7, a.7, b.7);
        lemma_blend_u64(m.8, a.8, b.8);
        lemma_blend_u64(m.9, a.9, b.9);
        lemma_blend_u64(m.10, a.10, b.10);
        lemma_blend_u64(m.11, a.11, b.11);
        lemma_blend_u64(m.12, a.12, b.12);
        lemma_blend_u64(m.13, a.13, b.13);
        lemma_blend_u64(m.14, a.14, b.14);
        lemma_blend_u64(m.15, a.15, b.15);
    }

    /// A blend of two `double16` gives the lane of `b` where the mask is all ones and the lane of
    /// `a` where it is zero, whatever the other lanes hold.
    pub proof fn lemma_bitselect_double16(m: long16, a: double16, b: double16)
        ensures
            forall|i: int|
                0 <= i < 16 && m.lane(i) == -1 ==>
                    #[trigger] m.spec_bitselect(a, b).lane(i) == b.lane(i),
            forall|i: int|
                0 <= i < 16 && m.lane(i) == 0 ==>
                    #[trigger] m.spec_bitselect(a, b).lane(i) == a.lane(i),
    {
        lemma_blend_u64(m.0, a.0, b.0);
        lemma_blend_u64(m.1, a.1, b.1);
        lemma_blend_u64(m.2, a.2, b.2);
        lemma_blend_u64(m.3, a.3, b.3);
        lemma_blend_u64(m.4, a.4, b.4);
        lemma_blend_u64(m.5, a.5, b.5);
        lemma_blend_u64(m.6, a.6, b.6);
        lemma_blend_u64(m.7, a.7, b.7);
        lemma_blend_u64(m.8, a.8, b.8);
        lemma_blend_u64(m.9, a.9, b.9);
        lemma_blend_u64(m.10, a.10, b.10);
        lemma_blend_u64(m.11, a.11, b.11);
        lemma_blend_u64(m.12, a.12, b.12);
        lemma_blend_u64(m.13, a.13, b.13);
        lemma_blend_u64(m.14, a.14, b.14);
        lemma_blend_u64(m.15, a.15, b.15);
    }

    /// A choice between two `double16` goes by the sign bit of the mask alone: it gives the lane of
    /// `b` where the mask is negative and the lane of `a` elsewhere, as the blend does under the
    /// mask whose every lane has its sign spread over all its bits.
    pub proof fn lemma_select_double16(m: long16, a: double16, b: double16)
        ensures
            m.spec_select(a, b) == ShrSpec::shr_spec(m, 63i64).spec_bitselect(a, b),
            forall|i: int|
                0 <= i < 16 && m.lane(i) < 0 ==>
                    #[trigger] m.spec_select(a, b).lane(i) == b.lane(i),
            forall|i: int|
                0 <= i < 16 && m.lane(i) >= 0 ==>
                    #[trigger] m.spec_select(a, b).lane(i) == a.lane(i),
    {
        lemma_blend_u64(m.0, a.0, b.0);
        lemma_blend_u64(m.1, a.1, b.1);
        lemma_blend_u64(m.2, a.2, b.2);
        lemma_blend_u64(m.3, a.3, b.3);
        lemma_blend_u64(m.4, a.4, b.4);
        lemma_blend_u64(m.5, a.5, b.5);
        lemma_blend_u64(m.6, a.6, b.6);
        lemma_blend_u64(m.7, a.7, b.7);
        lemma_blend_u64(m.8, a.8, b.8);
        lemma_blend_u64(m.9, a.9, b.9);
        lemma_blend_u64(m.10, a.10, b.10);
        lemma_blend_u64(m.11, a.11, b.11);
        lemma_blend_u64(m.12, a.12, b.12);
        lemma_blend_u64(m.13, a.13, b.13);
        lemma_blend_u64(m.14, a.14, b.14);
        lemma_blend_u64(m.15, a.15, b.15);
    }
}

impl Bitcast for long16 {
    type Image = ulong16;

    open spec fn spec_image(self) -> ulong16 {
        ulong16(
            i64_to_u64(self.0), i64_to_u64(self.1), i64_to_u64(self.2), i64_to_u64(self.3),
            i64_to_u64(self.4), i64_to_u64(self.5), i64_to_u64(self.6), i64_to_u64(self.7),
            i64_to_u64(self.8), i64_to_u64(self.9), i64_to_u64(self.10), i64_to_u64(self.11),
            i64_to_u64(self.12), i64_to_u64(self.13), i64_to_u64(self.14), i64_to_u64(self.15),
        )
    }

    open spec fn spec_from_image(image: ulong16) -> long16 {
        long16(
            u64_to_i64(image.0), u64_to_i64(image.1), u64_to_i64(image.2), u64_to_i64(image.3),
            u64_to_i64(image.4), u64_to_i64(image.5), u64_to_i64(image.6), u64_to_i64(image.7),
            u64_to_i64(image.8), u64_to_i64(image.9), u64_to_i64(image.10), u64_to_i64(image.11),
            u64_to_i64(image.12), u64_to_i64(image.13), u64_to_i64(image.14), u64_to_i64(image.15),
        )
    }

    open spec fn spec_fills() -> bool {
        true
    }

    fn image(self) -> (r: ulong16) {
        ulong16(
            i64_to_u64(self.0), i64_to_u64(self.1), i64_to_u64(self.2), i64_to_u64(self.3),
            i64_to_u64(self.4), i64_to_u64(self.5), i64_to_u64(self.6), i64_to_u64(self.7),
            i64_to_u64(self.8), i64_to_u64(self.9), i64_to_u64(self.10), i64_to_u64(self.11),
            i64_to_u64(self.12), i64_to_u64(self.13), i64_to_u64(self.14), i64_to_u64(self.15),
        )
    }

    fn from_image(image: ulong16) -> (r: long16) {
        long16(
            u64_to_i64(image.0), u64_to_i64(image.1), u64_to_i64(image.2), u64_to_i64(image.3),
            u64_to_i64(image.4), u64_to_i64(image.5), u64_to_i64(image.6), u64_to_i64(image.7),
            u64_to_i64(image.8), u64_to_i64(image.9), u64_to_i64(image.10), u64_to_i64(image.11),
            u64_to_i64(image.12), u64_to_i64(image.13), u64_to_i64(image.14), u64_to_i64(image.15),
        )
    }

    proof fn lemma_image(x: long16) {
        lemma_recast_i64(x.0);
        lemma_recast_i64(x.1);
        lemma_recast_i64(x.2);
        lemma_recast_i64(x.3);
        lemma_recast_i64(x.4);
        lemma_recast_i64(x.5);
        lemma_recast_i64(x.6);
        lemma_recast_i64(x.7);
        lemma_recast_i64(x.8);
        lemma_recast_i64(x.9);
        lemma_recast_i64(x.10);
        lemma_recast_i64(x.11);
        lemma_recast_i64(x.12);
        lemma_recast_i64(x.13);
        lemma_recast_i64(x.14);
        lemma_recast_i64(x.15);
    }

    proof fn lemma_from_image(image: ulong16) {
        lemma_recast_u64(image.0);
        lemma_recast_u64(image.1);
        lemma_recast_u64(image.2);
        lemma_recast_u64(image.3);
        lemma_recast_u64(image.4);
        lemma_recast_u64(image.5);
        lemma_recast_u64(image.6);
        lemma_recast_u64(image.7);
        lemma_recast_u64(image.8);
        lemma_recast_u64(image.9);
        lemma_recast_u64(image.10);
        lemma_recast_u64(image.11);
        lemma_recast_u64(image.12);
        lemma_recast_u64(image.13);
        lemma_recast_u64(image.14);
        lemma_recast_u64(image.15);
    }
}

impl long16 {
    /// Read as `ulong16`, which has lanes of the same width, a vector keeps the bits of every lane;
    /// read as `long16` again, it is what it was.
    pub proof fn lemma_bitcast_ulong16(x: long16)
        ensures
            spec_bitcast::<long16, ulong16>(x) == ulong16(
                    i64_to_u64(x.0), i64_to_u64(x.1), i64_to_u64(x.2), i64_to_u64(x.3),
                    i64_to_u64(x.4), i64_to_u64(x.5), i64_to_u64(x.6), i64_to_u64(x.7),
                    i64_to_u64(x.8), i64_to_u64(x.9), i64_to_u64(x.10), i64_to_u64(x.11),
                    i64_to_u64(x.12), i64_to_u64(x.13), i64_to_u64(x.14), i64_to_u64(x.15),
                ),
            spec_bitcast::<ulong16, long16>(spec_bitcast::<long16, ulong16>(x)) == x,
    {
        lemma_recast_i64(x.0);
        lemma_recast_i64(x.1);
        lemma_recast_i64(x.2);
        lemma_recast_i64(x.3);
        lemma_recast_i64(x.4);
        lemma_recast_i64(x.5);
        lemma_recast_i64(x.6);
        lemma_recast_i64(x.7);
        lemma_recast_i64(x.8);
        lemma_recast_i64(x.9);
        lemma_recast_i64(x.10);
        lemma_recast_i64(x.11);
        lemma_recast_i64(x.12);
        lemma_recast_i64(x.13);
        lemma_recast_i64(x.14);
        lemma_recast_i64(x.15);
    }

    /// Read as `double16`, which has lanes of the same width, a vector keeps the bits of every
    /// lane; read as `long16` again, it is what it was.
    pub proof fn lemma_bitcast_double16(x: long16)
        ensures
            spec_bitcast::<long16, double16>(x) == double16(
                    i64_to_u64(x.0), i64_to_u64(x.1), i64_to_u64(x.2), i64_to_u64(x.3),
                    i64_to_u64(x.4), i64_to_u64(x.5), i64_to_u64(x.6), i64_to_u64(x.7),
                    i64_to_u64(x.8), i64_to_u64(x.9), i64_to_u64(x.10), i64_to_u64(x.11),
                    i64_to_u64(x.12), i64_to_u64(x.13), i64_to_u64(x.14), i64_to_u64(x.15),
                ),
            spec_bitcast::<double16, long16>(spec_bitcast::<long16, double16>(x)) == x,
    {
        lemma_recast_i64(x.0);
        lemma_recast_i64(x.1);
        lemma_recast_i64(x.2);
        lemma_recast_i64(x.3);
        lemma_recast_i64(x.4);
        lemma_recast_i64(x.5);
        lemma_recast_i64(x.6);
        lemma_recast_i64(x.7);
        lemma_recast_i64(x.8);
        lemma_recast_i64(x.9);
        lemma_recast_i64(x.10);
        lemma_recast_i64(x.11);
        lemma_recast_i64(x.12);
        lemma_recast_i64(x.13);
        lemma_recast_i64(x.14);
        lemma_recast_i64(x.15);
    }
}

} // verus!
