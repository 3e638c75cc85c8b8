//! `short16`: sixteen lanes of `i16`.

use crate::scalar::lane_i16::{
    abs_i16, add_i16, bitselect_i16, clamp_i16, div_i16, eq_i16, ge_i16, gt_i16, i16_to_i32,
    i16_to_i32_sat, i16_to_i64, i16_to_i64_sat, i16_to_i8, i16_to_i8_sat, i16_to_u16,
    i16_to_u16_sat, i16_to_u32, i16_to_u32_sat, i16_to_u64, i16_to_u64_sat, i16_to_u8,
    i16_to_u8_sat, isize_to_i16, le_i16, lemma_abs_i16, lemma_arith_i16, lemma_bits_i16,
    lemma_blend_i16, lemma_not_i16, lemma_recast_i16, lt_i16, madd_i16, max_i16, min_i16, mul_i16,
    ne_i16, neg_i16, not_i16, rem_i16, select_i16, shl_i16, shr_i16, sub_i16, truth_i16,
};
use crate::scalar::lane_u16::{
    bitselect_u16, lemma_blend_u16, lemma_recast_u16, select_u16, u16_to_i16,
};
use crate::scalar::model::{
    lemma_wrap_i16_sum, sat_i32, sat_i64, sat_i8, sat_u16, sat_u32, sat_u64, sat_u8, wrap_i16,
};
use crate::traits::{Bitcast, Dot, Integer, Select, Vector, bitcast, spec_bitcast};
use crate::vector::char16::char16;
use crate::vector::double16::double16;
use crate::vector::float16::float16;
use crate::vector::int16::int16;
use crate::vector::long16::long16;
use crate::vector::short8::short8;
use crate::vector::uchar16::uchar16;
use crate::vector::uint16::uint16;
use crate::vector::ulong16::ulong16;
use crate::vector::ushort16::ushort16;
use vstd::prelude::*;
use vstd::std_specs::convert::FromSpecImpl;
use vstd::std_specs::ops::{
    AddSpec, AddSpecImpl, BitAndSpecImpl, BitOrSpecImpl, BitXorSpecImpl, DivSpecImpl, MulSpecImpl,
    NegSpec, NegSpecImpl, NotSpec, NotSpecImpl, RemSpecImpl, ShlSpecImpl, ShrSpec, ShrSpecImpl,
    SubSpec, SubSpecImpl,
};

verus! {

/// Sixteen lanes of `i16`.
#[derive(Copy, Clone, Debug, PartialEq, Eq, Structural)]
pub struct short16(
    pub i16, pub i16, pub i16, pub i16, pub i16, pub i16, pub i16, pub i16, pub i16, pub i16,
    pub i16, pub i16, pub i16, pub i16, pub i16, pub i16,
);

impl core::ops::Add for short16 {
    type Output = short16;

    /// The lane-wise sum of the two vectors, wrapping around.
    fn add(self, rhs: short16) -> (r: short16) {
        short16(
            add_i16(self.0, rhs.0), add_i16(self.1, rhs.1), add_i16(self.2, rhs.2),
            add_i16(self.3, rhs.3), add_i16(self.4, rhs.4), add_i16(self.5, rhs.5),
            add_i16(self.6, rhs.6), add_i16(self.7, rhs.7), add_i16(self.8, rhs.8),
            add_i16(self.9, rhs.9), add_i16(self.10, rhs.10), add_i16(self.11, rhs.11),
            add_i16(self.12, rhs.12), add_i16(self.13, rhs.13), add_i16(self.14, rhs.14),
            add_i16(self.15, rhs.15),
        )
    }
}

impl AddSpecImpl for short16 {
    open spec fn obeys_add_spec() -> bool {
        true
    }

    open spec fn add_req(self, rhs: short16) -> bool {
        true
    }

    open spec fn add_spec(self, rhs: short16) -> short16 {
        short16(
            add_i16(self.0, rhs.0), add_i16(self.1, rhs.1), add_i16(self.2, rhs.2),
            add_i16(self.3, rhs.3), add_i16(self.4, rhs.4), add_i16(self.5, rhs.5),
            add_i16(self.6, rhs.6), add_i16(self.7, rhs.7), add_i16(self.8, rhs.8),
            add_i16(self.9, rhs.9), add_i16(self.10, rhs.10), add_i16(self.11, rhs.11),
            add_i16(self.12, rhs.12), add_i16(self.13, rhs.13), add_i16(self.14, rhs.14),
            add_i16(self.15, rhs.15),
        )
    }
}

impl core::ops::Add<i16> for short16 {
    type Output = short16;

    /// The sum of every lane and the scalar, wrapping around.
    fn add(self, rhs: i16) -> (r: short16) {
        short16(
            add_i16(self.0, rhs), add_i16(self.1, rhs), add_i16(self.2, rhs), add_i16(self.3, rhs),
            add_i16(self.4, rhs), add_i16(self.5, rhs), add_i16(self.6, rhs), add_i16(self.7, rhs),
            add_i16(self.8, rhs), add_i16(self.9, rhs), add_i16(self.10, rhs),
            add_i16(self.11, rhs), add_i16(self.12, rhs), add_i16(self.13, rhs),
            add_i16(self.14, rhs), add_i16(self.15, rhs),
        )
    }
}

impl AddSpecImpl<i16> for short16 {
    open spec fn obeys_add_spec() -> bool {
        true
    }

    open spec fn add_req(self, rhs: i16) -> bool {
        true
    }

    open spec fn add_spec(self, rhs: i16) -> short16 {
        short16(
            add_i16(self.0, rhs), add_i16(self.1, rhs), add_i16(self.2, rhs), add_i16(self.3, rhs),
            add_i16(self.4, rhs), add_i16(self.5, rhs), add_i16(self.6, rhs), add_i16(self.7, rhs),
            add_i16(self.8, rhs), add_i16(self.9, rhs), add_i16(self.10, rhs),
            add_i16(self.11, rhs), add_i16(self.12, rhs), add_i16(self.13, rhs),
            add_i16(self.14, rhs), add_i16(self.15, rhs),
        )
    }
}

impl core::ops::Add<short16> for i16 {
    type Output = short16;

    /// The sum of the scalar and every lane, wrapping around.
    fn add(self, rhs: short16) -> (r: short16) {
        short16(
            add_i16(self, rhs.0), add_i16(self, rhs.1), add_i16(self, rhs.2), add_i16(self, rhs.3),
            add_i16(self, rhs.4), add_i16(self, rhs.5), add_i16(self, rhs.6), add_i16(self, rhs.7),
            add_i16(self, rhs.8), add_i16(self, rhs.9), add_i16(self, rhs.10),
            add_i16(self, rhs.11), add_i16(self, rhs.12), add_i16(self, rhs.13),
            add_i16(self, rhs.14), add_i16(self, rhs.15),
        )
    }
}

impl AddSpecImpl<short16> for i16 {
    open spec fn obeys_add_spec() -> bool {
        true
    }

    open spec fn add_req(self, rhs: short16) -> bool {
        true
    }

    open spec fn add_spec(self, rhs: short16) -> short16 {
        short16(
            add_i16(self, rhs.0), add_i16(self, rhs.1), add_i16(self, rhs.2), add_i16(self, rhs.3),
            add_i16(self, rhs.4), add_i16(self, rhs.5), add_i16(self, rhs.6), add_i16(self, rhs.7),
            add_i16(self, rhs.8), add_i16(self, rhs.9), add_i16(self, rhs.10),
            add_i16(self, rhs.11), add_i16(self, rhs.12), add_i16(self, rhs.13),
            add_i16(self, rhs.14), add_i16(self, rhs.15),
        )
    }
}

impl core::ops::Sub for short16 {
    type Output = short16;

    /// The lane-wise difference of the two vectors, wrapping around.
    fn sub(self, rhs: short16) -> (r: short16) {
        short16(
            sub_i16(self.0, rhs.0), sub_i16(self.1, rhs.1), sub_i16(self.2, rhs.2),
            sub_i16(self.3, rhs.3), sub_i16(self.4, rhs.4), sub_i16(self.5, rhs.5),
            sub_i16(self.6, rhs.6), sub_i16(self.7, rhs.7), sub_i16(self.8, rhs.8),
            sub_i16(self.9, rhs.9), sub_i16(self.10, rhs.10), sub_i16(self.11, rhs.11),
            sub_i16(self.12, rhs.12), sub_i16(self.13, rhs.13), sub_i16(self.14, rhs.14),
            sub_i16(self.15, rhs.15),
        )
    }
}

impl SubSpecImpl for short16 {
    open spec fn obeys_sub_spec() -> bool {
        true
    }

    open spec fn sub_req(self, rhs: short16) -> bool {
        true
    }

    open spec fn sub_spec(self, rhs: short16) -> short16 {
        short16(
            sub_i16(self.0, rhs.0), sub_i16(self.1, rhs.1), sub_i16(self.2, rhs.2),
            sub_i16(self.3, rhs.3), sub_i16(self.4, rhs.4), sub_i16(self.5, rhs.5),
            sub_i16(self.6, rhs.6), sub_i16(self.7, rhs.7), sub_i16(self.8, rhs.8),
            sub_i16(self.9, rhs.9), sub_i16(self.10, rhs.10), sub_i16(self.11, rhs.11),
            sub_i16(self.12, rhs.12), sub_i16(self.13, rhs.13), sub_i16(self.14, rhs.14),
            sub_i16(self.15, rhs.15),
        )
    }
}

impl core::ops::Sub<i16> for short16 {
    type Output = short16;

    /// The difference of every lane and the scalar, wrapping around.
    fn sub(self, rhs: i16) -> (r: short16) {
        short16(
            sub_i16(self.0, rhs), sub_i16(self.1, rhs), sub_i16(self.2, rhs), sub_i16(self.3, rhs),
            sub_i16(self.4, rhs), sub_i16(self.5, rhs), sub_i16(self.6, rhs), sub_i16(self.7, rhs),
            sub_i16(self.8, rhs), sub_i16(self.9, rhs), sub_i16(self.10, rhs),
            sub_i16(self.11, rhs), sub_i16(self.12, rhs), sub_i16(self.13, rhs),
            sub_i16(self.14, rhs), sub_i16(self.15, rhs),
        )
    }
}

impl SubSpecImpl<i16> for short16 {
    open spec fn obeys_sub_spec() -> bool {
        true
    }

    open spec fn sub_req(self, rhs: i16) -> bool {
        true
    }

    open spec fn sub_spec(self, rhs: i16) -> short16 {
        short16(
            sub_i16(self.0, rhs), sub_i16(self.1, rhs), sub_i16(self.2, rhs), sub_i16(self.3, rhs),
            sub_i16(self.4, rhs), sub_i16(self.5, rhs), sub_i16(self.6, rhs), sub_i16(self.7, rhs),
            sub_i16(self.8, rhs), sub_i16(self.9, rhs), sub_i16(self.10, rhs),
            sub_i16(self.11, rhs), sub_i16(self.12, rhs), sub_i16(self.13, rhs),
            sub_i16(self.14, rhs), sub_i16(self.15, rhs),
        )
    }
}

impl core::ops::Sub<short16> for i16 {
    type Output = short16;

    /// The difference of the scalar and every lane, wrapping around.
    fn sub(self, rhs: short16) -> (r: short16) {
        short16(
            sub_i16(self, rhs.0), sub_i16(self, rhs.1), sub_i16(self, rhs.2), sub_i16(self, rhs.3),
            sub_i16(self, rhs.4), sub_i16(self, rhs.5), sub_i16(self, rhs.6), sub_i16(self, rhs.7),
            sub_i16(self, rhs.8), sub_i16(self, rhs.9), sub_i16(self, rhs.10),
            sub_i16(self, rhs.11), sub_i16(self, rhs.12), sub_i16(self, rhs.13),
            sub_i16(self, rhs.14), sub_i16(self, rhs.15),
        )
    }
}

impl SubSpecImpl<short16> for i16 {
    open spec fn obeys_sub_spec() -> bool {
        true
    }

    open spec fn sub_req(self, rhs: short16) -> bool {
        true
    }

    open spec fn sub_spec(self, rhs: short16) -> short16 {
        short16(
            sub_i16(self, rhs.0), sub_i16(self, rhs.1), sub_i16(self, rhs.2), sub_i16(self, rhs.3),
            sub_i16(self, rhs.4), sub_i16(self, rhs.5), sub_i16(self, rhs.6), sub_i16(self, rhs.7),
            sub_i16(self, rhs.8), sub_i16(self, rhs.9), sub_i16(self, rhs.10),
            sub_i16(self, rhs.11), sub_i16(self, rhs.12), sub_i16(self, rhs.13),
            sub_i16(self, rhs.14), sub_i16(self, rhs.15),
        )
    }
}

impl core::ops::Mul for short16 {
    type Output = short16;

    /// The lane-wise product of the two vectors, wrapping around.
    fn mul(self, rhs: short16) -> (r: short16) {
        short16(
            mul_i16(self.0, rhs.0), mul_i16(self.1, rhs.1), mul_i16(self.2, rhs.2),
            mul_i16(self.3, rhs.3), mul_i16(self.4, rhs.4), mul_i16(self.5, rhs.5),
            mul_i16(self.6, rhs.6), mul_i16(self.7, rhs.7), mul_i16(self.8, rhs.8),
            mul_i16(self.9, rhs.9), mul_i16(self.10, rhs.10), mul_i16(self.11, rhs.11),
            mul_i16(self.12, rhs.12), mul_i16(self.13, rhs.13), mul_i16(self.14, rhs.14),
            mul_i16(self.15, rhs.15),
        )
    }
}

impl MulSpecImpl for short16 {
    open spec fn obeys_mul_spec() -> bool {
        true
    }

    open spec fn mul_req(self, rhs: short16) -> bool {
        true
    }

    open spec fn mul_spec(self, rhs: short16) -> short16 {
        short16(
            mul_i16(self.0, rhs.0), mul_i16(self.1, rhs.1), mul_i16(self.2, rhs.2),
            mul_i16(self.3, rhs.3), mul_i16(self.4, rhs.4), mul_i16(self.5, rhs.5),
            mul_i16(self.6, rhs.6), mul_i16(self.7, rhs.7), mul_i16(self.8, rhs.8),
            mul_i16(self.9, rhs.9), mul_i16(self.10, rhs.10), mul_i16(self.11, rhs.11),
            mul_i16(self.12, rhs.12), mul_i16(self.13, rhs.13), mul_i16(self.14, rhs.14),
            mul_i16(self.15, rhs.15),
        )
    }
}

impl core::ops::Mul<i16> for short16 {
    type Output = short16;

    /// The product of every lane and the scalar, wrapping around.
    fn mul(self, rhs: i16) -> (r: short16) {
        short16(
            mul_i16(self.0, rhs), mul_i16(self.1, rhs), mul_i16(self.2, rhs), mul_i16(self.3, rhs),
            mul_i16(self.4, rhs), mul_i16(self.5, rhs), mul_i16(self.6, rhs), mul_i16(self.7, rhs),
            mul_i16(self.8, rhs), mul_i16(self.9, rhs), mul_i16(self.10, rhs),
            mul_i16(self.11, rhs), mul_i16(self.12, rhs), mul_i16(self.13, rhs),
            mul_i16(self.14, rhs), mul_i16(self.15, rhs),
        )
    }
}

impl MulSpecImpl<i16> for short16 {
    open spec fn obeys_mul_spec() -> bool {
        true
    }

    open spec fn mul_req(self, rhs: i16) -> bool {
        true
    }

    open spec fn mul_spec(self, rhs: i16) -> short16 {
        short16(
            mul_i16(self.0, rhs), mul_i16(self.1, rhs), mul_i16(self.2, rhs), mul_i16(self.3, rhs),
            mul_i16(self.4, rhs), mul_i16(self.5, rhs), mul_i16(self.6, rhs), mul_i16(self.7, rhs),
            mul_i16(self.8, rhs), mul_i16(self.9, rhs), mul_i16(self.10, rhs),
            mul_i16(self.11, rhs), mul_i16(self.12, rhs), mul_i16(self.13, rhs),
            mul_i16(self.14, rhs), mul_i16(self.15, rhs),
        )
    }
}

impl core::ops::Mul<short16> for i16 {
    type Output = short16;

    /// The product of the scalar and every lane, wrapping around.
    fn mul(self, rhs: short16) -> (r: short16) {
        short16(
            mul_i16(self, rhs.0), mul_i16(self, rhs.1), mul_i16(self, rhs.2), mul_i16(self, rhs.3),
            mul_i16(self, rhs.4), mul_i16(self, rhs.5), mul_i16(self, rhs.6), mul_i16(self, rhs.7),
            mul_i16(self, rhs.8), mul_i16(self, rhs.9), mul_i16(self, rhs.10),
            mul_i16(self, rhs.11), mul_i16(self, rhs.12), mul_i16(self, rhs.13),
            mul_i16(self, rhs.14), mul_i16(self, rhs.15),
        )
    }
}

impl MulSpecImpl<short16> for i16 {
    open spec fn obeys_mul_spec() -> bool {
        true
    }

    open spec fn mul_req(self, rhs: short16) -> bool {
        true
    }

    open spec fn mul_spec(self, rhs: short16) -> short16 {
        short16(
            mul_i16(self, rhs.0), mul_i16(self, rhs.1), mul_i16(self, rhs.2), mul_i16(self, rhs.3),
            mul_i16(self, rhs.4), mul_i16(self, rhs.5), mul_i16(self, rhs.6), mul_i16(self, rhs.7),
            mul_i16(self, rhs.8), mul_i16(self, rhs.9), mul_i16(self, rhs.10),
            mul_i16(self, rhs.11), mul_i16(self, rhs.12), mul_i16(self, rhs.13),
            mul_i16(self, rhs.14), mul_i16(self, rhs.15),
        )
    }
}

impl core::ops::Div for short16 {
    type Output = short16;

    /// The lane-wise quotient of the two vectors, rounded toward zero. No lane of the divisor is
    /// zero.
    fn div(self, rhs: short16) -> (r: short16) {
        short16(
            div_i16(self.0, rhs.0), div_i16(self.1, rhs.1), div_i16(self.2, rhs.2),
            div_i16(self.3, rhs.3), div_i16(self.4, rhs.4), div_i16(self.5, rhs.5),
            div_i16(self.6, rhs.6), div_i16(self.7, rhs.7), div_i16(self.8, rhs.8),
            div_i16(self.9, rhs.9), div_i16(self.10, rhs.10), div_i16(self.11, rhs.11),
            div_i16(self.12, rhs.12), div_i16(self.13, rhs.13), div_i16(self.14, rhs.14),
            div_i16(self.15, rhs.15),
        )
    }
}

impl DivSpecImpl for short16 {
    open spec fn obeys_div_spec() -> bool {
        true
    }

    open spec fn div_req(self, rhs: short16) -> bool {
        rhs.0 != 0 && rhs.1 != 0 && rhs.2 != 0 && rhs.3 != 0 && rhs.4 != 0 && rhs.5 != 0
            && rhs.6 != 0 && rhs.7 != 0 && rhs.8 != 0 && rhs.9 != 0 && rhs.10 != 0 && rhs.11 != 0
            && rhs.12 != 0 && rhs.13 != 0 && rhs.14 != 0 && rhs.15 != 0
    }

    open spec fn div_spec(self, rhs: short16) -> short16 {
        short16(
            div_i16(self.0, rhs.0), div_i16(self.1, rhs.1), div_i16(self.2, rhs.2),
            div_i16(self.3, rhs.3), div_i16(self.4, rhs.4), div_i16(self.5, rhs.5),
            div_i16(self.6, rhs.6), div_i16(self.7, rhs.7), div_i16(self.8, rhs.8),
            div_i16(self.9, rhs.9), div_i16(self.10, rhs.10), div_i16(self.11, rhs.11),
            div_i16(self.12, rhs.12), div_i16(self.13, rhs.13), div_i16(self.14, rhs.14),
            div_i16(self.15, rhs.15),
        )
    }
}

impl core::ops::Div<i16> for short16 {
    type Output = short16;

    /// The quotient of every lane by the scalar, rounded toward zero. The scalar is not zero.
    fn div(self, rhs: i16) -> (r: short16) {
        short16(
            div_i16(self.0, rhs), div_i16(self.1, rhs), div_i16(self.2, rhs), div_i16(self.3, rhs),
            div_i16(self.4, rhs), div_i16(self.5, rhs), div_i16(self.6, rhs), div_i16(self.7, rhs),
            div_i16(self.8, rhs), div_i16(self.9, rhs), div_i16(self.10, rhs),
            div_i16(self.11, rhs), div_i16(self.12, rhs), div_i16(self.13, rhs),
            div_i16(self.14, rhs), div_i16(self.15, rhs),
        )
    }
}

impl DivSpecImpl<i16> for short16 {
    open spec fn obeys_div_spec() -> bool {
        true
    }

    open spec fn div_req(self, rhs: i16) -> bool {
        rhs != 0
    }

    open spec fn div_spec(self, rhs: i16) -> short16 {
        short16(
            div_i16(self.0, rhs), div_i16(self.1, rhs), div_i16(self.2, rhs), div_i16(self.3, rhs),
            div_i16(self.4, rhs), div_i16(self.5, rhs), div_i16(self.6, rhs), div_i16(self.7, rhs),
            div_i16(self.8, rhs), div_i16(self.9, rhs), div_i16(self.10, rhs),
            div_i16(self.11, rhs), div_i16(self.12, rhs), div_i16(self.13, rhs),
            div_i16(self.14, rhs), div_i16(self.15, rhs),
        )
    }
}

impl core::ops::Div<short16> for i16 {
    type Output = short16;

    /// The quotient of the scalar by every lane, rounded toward zero. No lane is zero.
    fn div(self, rhs: short16) -> (r: short16) {
        short16(
            div_i16(self, rhs.0), div_i16(self, rhs.1), div_i16(self, rhs.2), div_i16(self, rhs.3),
            div_i16(self, rhs.4), div_i16(self, rhs.5), div_i16(self, rhs.6), div_i16(self, rhs.7),
            div_i16(self, rhs.8), div_i16(self, rhs.9), div_i16(self, rhs.10),
            div_i16(self, rhs.11), div_i16(self, rhs.12), div_i16(self, rhs.13),
            div_i16(self, rhs.14), div_i16(self, rhs.15),
        )
    }
}

impl DivSpecImpl<short16> for i16 {
    open spec fn obeys_div_spec() -> bool {
        true
    }

    open spec fn div_req(self, rhs: short16) -> bool {
        rhs.0 != 0 && rhs.1 != 0 && rhs.2 != 0 && rhs.3 != 0 && rhs.4 != 0 && rhs.5 != 0
            && rhs.6 != 0 && rhs.7 != 0 && rhs.8 != 0 && rhs.9 != 0 && rhs.10 != 0 && rhs.11 != 0
            && rhs.12 != 0 && rhs.13 != 0 && rhs.14 != 0 && rhs.15 != 0
    }

    open spec fn div_spec(self, rhs: short16) -> short16 {
        short16(
            div_i16(self, rhs.0), div_i16(self, rhs.1), div_i16(self, rhs.2), div_i16(self, rhs.3),
            div_i16(self, rhs.4), div_i16(self, rhs.5), div_i16(self, rhs.6), div_i16(self, rhs.7),
            div_i16(self, rhs.8), div_i16(self, rhs.9), div_i16(self, rhs.10),
            div_i16(self, rhs.11), div_i16(self, rhs.12), div_i16(self, rhs.13),
            div_i16(self, rhs.14), div_i16(self, rhs.15),
        )
    }
}

impl core::ops::BitAnd for short16 {
    type Output = short16;

    /// The lane-wise conjunction of the two vectors, bit by bit.
    fn bitand(self, rhs: short16) -> (r: short16) {
        short16(
            self.0 & rhs.0, self.1 & rhs.1, self.2 & rhs.2, self.3 & rhs.3, self.4 & rhs.4,
            self.5 & rhs.5, self.6 & rhs.6, self.7 & rhs.7, self.8 & rhs.8, self.9 & rhs.9,
            self.10 & rhs.10, self.11 & rhs.11, self.12 & rhs.12, self.13 & rhs.13,
            self.14 & rhs.14, self.15 & rhs.15,
        )
    }
}

impl BitAndSpecImpl for short16 {
    open spec fn obeys_bitand_spec() -> bool {
        true
    }

    open spec fn bitand_req(self, rhs: short16) -> bool {
        true
    }

    open spec fn bitand_spec(self, rhs: short16) -> short16 {
        short16(
            self.0 & rhs.0, self.1 & rhs.1, self.2 & rhs.2, self.3 & rhs.3, self.4 & rhs.4,
            self.5 & rhs.5, self.6 & rhs.6, self.7 & rhs.7, self.8 & rhs.8, self.9 & rhs.9,
            self.10 & rhs.10, self.11 & rhs.11, self.12 & rhs.12, self.13 & rhs.13,
            self.14 & rhs.14, self.15 & rhs.15,
        )
    }
}

impl core::ops::BitAnd<i16> for short16 {
    type Output = short16;

    /// The conjunction of every lane and the scalar, bit by bit.
    fn bitand(self, rhs: i16) -> (r: short16) {
        short16(
            self.0 & rhs, self.1 & rhs, self.2 & rhs, self.3 & rhs, self.4 & rhs, self.5 & rhs,
            self.6 & rhs, self.7 & rhs, self.8 & rhs, self.9 & rhs, self.10 & rhs, self.11 & rhs,
            self.12 & rhs, self.13 & rhs, self.14 & rhs, self.15 & rhs,
        )
    }
}

impl BitAndSpecImpl<i16> for short16 {
    open spec fn obeys_bitand_spec() -> bool {
        true
    }

    open spec fn bitand_req(self, rhs: i16) -> bool {
        true
    }

    open spec fn bitand_spec(self, rhs: i16) -> short16 {
        short16(
            self.0 & rhs, self.1 & rhs, self.2 & rhs, self.3 & rhs, self.4 & rhs, self.5 & rhs,
            self.6 & rhs, self.7 & rhs, self.8 & rhs, self.9 & rhs, self.10 & rhs, self.11 & rhs,
            self.12 & rhs, self.13 & rhs, self.14 & rhs, self.15 & rhs,
        )
    }
}

impl core::ops::BitAnd<short16> for i16 {
    type Output = short16;

    /// The conjunction of the scalar and every lane, bit by bit.
    fn bitand(self, rhs: short16) -> (r: short16) {
        short16(
            self & rhs.0, self & rhs.1, self & rhs.2, self & rhs.3, self & rhs.4, self & rhs.5,
            self & rhs.6, self & rhs.7, self & rhs.8, self & rhs.9, self & rhs.10, self & rhs.11,
            self & rhs.12, self & rhs.13, self & rhs.14, self & rhs.15,
        )
    }
}

impl BitAndSpecImpl<short16> for i16 {
    open spec fn obeys_bitand_spec() -> bool {
        true
    }

    open spec fn bitand_req(self, rhs: short16) -> bool {
        true
    }

    open spec fn bitand_spec(self, rhs: short16) -> short16 {
        short16(
            self & rhs.0, self & rhs.1, self & rhs.2, self & rhs.3, self & rhs.4, self & rhs.5,
            self & rhs.6, self & rhs.7, self & rhs.8, self & rhs.9, self & rhs.10, self & rhs.11,
            self & rhs.12, self & rhs.13, self & rhs.14, self & rhs.15,
        )
    }
}

impl core::ops::BitOr for short16 {
    type Output = short16;

    /// The lane-wise disjunction of the two vectors, bit by bit.
    fn bitor(self, rhs: short16) -> (r: short16) {
        short16(
            self.0 | rhs.0, self.1 | rhs.1, self.2 | rhs.2, self.3 | rhs.3, self.4 | rhs.4,
            self.5 | rhs.5, self.6 | rhs.6, self.7 | rhs.7, self.8 | rhs.8, self.9 | rhs.9,
            self.10 | rhs.10, self.11 | rhs.11, self.12 | rhs.12, self.13 | rhs.13,
            self.14 | rhs.14, self.15 | rhs.15,
        )
    }
}

impl BitOrSpecImpl for short16 {
    open spec fn obeys_bitor_spec() -> bool {
        true
    }

    open spec fn bitor_req(self, rhs: short16) -> bool {
        true
    }

    open spec fn bitor_spec(self, rhs: short16) -> short16 {
        short16(
            self.0 | rhs.0, self.1 | rhs.1, self.2 | rhs.2, self.3 | rhs.3, self.4 | rhs.4,
            self.5 | rhs.5, self.6 | rhs.6, self.7 | rhs.7, self.8 | rhs.8, self.9 | rhs.9,
            self.10 | rhs.10, self.11 | rhs.11, self.12 | rhs.12, self.13 | rhs.13,
            self.14 | rhs.14, self.15 | rhs.15,
        )
    }
}

impl core::ops::BitOr<i16> for short16 {
    type Output = short16;

    /// The disjunction of every lane and the scalar, bit by bit.
    fn bitor(self, rhs: i16) -> (r: short16) {
        short16(
            self.0 | rhs, self.1 | rhs, self.2 | rhs, self.3 | rhs, self.4 | rhs, self.5 | rhs,
            self.6 | rhs, self.7 | rhs, self.8 | rhs, self.9 | rhs, self.10 | rhs, self.11 | rhs,
            self.12 | rhs, self.13 | rhs, self.14 | rhs, self.15 | rhs,
        )
    }
}

impl BitOrSpecImpl<i16> for short16 {
    open spec fn obeys_bitor_spec() -> bool {
        true
    }

    open spec fn bitor_req(self, rhs: i16) -> bool {
        true
    }

    open spec fn bitor_spec(self, rhs: i16) -> short16 {
        short16(
            self.0 | rhs, self.1 | rhs, self.2 | rhs, self.3 | rhs, self.4 | rhs, self.5 | rhs,
            self.6 | rhs, self.7 | rhs, self.8 | rhs, self.9 | rhs, self.10 | rhs, self.11 | rhs,
            self.12 | rhs, self.13 | rhs, self.14 | rhs, self.15 | rhs,
        )
    }
}

impl core::ops::BitOr<short16> for i16 {
    type Output = short16;

    /// The disjunction of the scalar and every lane, bit by bit.
    fn bitor(self, rhs: short16) -> (r: short16) {
        short16(
            self | rhs.0, self | rhs.1, self | rhs.2, self | rhs.3, self | rhs.4, self | rhs.5,
            self | rhs.6, self | rhs.7, self | rhs.8, self | rhs.9, self | rhs.10, self | rhs.11,
            self | rhs.12, self | rhs.13, self | rhs.14, self | rhs.15,
        )
    }
}

impl BitOrSpecImpl<short16> for i16 {
    open spec fn obeys_bitor_spec() -> bool {
        true
    }

    open spec fn bitor_req(self, rhs: short16) -> bool {
        true
    }

    open spec fn bitor_spec(self, rhs: short16) -> short16 {
        short16(
            self | rhs.0, self | rhs.1, self | rhs.2, self | rhs.3, self | rhs.4, self | rhs.5,
            self | rhs.6, self | rhs.7, self | rhs.8, self | rhs.9, self | rhs.10, self | rhs.11,
            self | rhs.12, self | rhs.13, self | rhs.14, self | rhs.15,
        )
    }
}

impl core::ops::BitXor for short16 {
    type Output = short16;

    /// The lane-wise exclusive disjunction of the two vectors, bit by bit.
    fn bitxor(self, rhs: short16) -> (r: short16) {
        short16(
            self.0 ^ rhs.0, self.1 ^ rhs.1, self.2 ^ rhs.2, self.3 ^ rhs.3, self.4 ^ rhs.4,
            self.5 ^ rhs.5, self.6 ^ rhs.6, self.7 ^ rhs.7, self.8 ^ rhs.8, self.9 ^ rhs.9,
            self.10 ^ rhs.10, self.11 ^ rhs.11, self.12 ^ rhs.12, self.13 ^ rhs.13,
            self.14 ^ rhs.14, self.15 ^ rhs.15,
        )
    }
}

impl BitXorSpecImpl for short16 {
    open spec fn obeys_bitxor_spec() -> bool {
        true
    }

    open spec fn bitxor_req(self, rhs: short16) -> bool {
        true
    }

    open spec fn bitxor_spec(self, rhs: short16) -> short16 {
        short16(
            self.0 ^ rhs.0, self.1 ^ rhs.1, self.2 ^ rhs.2, self.3 ^ rhs.3, self.4 ^ rhs.4,
            self.5 ^ rhs.5, self.6 ^ rhs.6, self.7 ^ rhs.7, self.8 ^ rhs.8, self.9 ^ rhs.9,
            self.10 ^ rhs.10, self.11 ^ rhs.11, self.12 ^ rhs.12, self.13 ^ rhs.13,
            self.14 ^ rhs.14, self.15 ^ rhs.15,
        )
    }
}

impl core::ops::BitXor<i16> for short16 {
    type Output = short16;

    /// The exclusive disjunction of every lane and the scalar, bit by bit.
    fn bitxor(self, rhs: i16) -> (r: short16) {
        short16(
            self.0 ^ rhs, self.1 ^ rhs, self.2 ^ rhs, self.3 ^ rhs, self.4 ^ rhs, self.5 ^ rhs,
            self.6 ^ rhs, self.7 ^ rhs, self.8 ^ rhs, self.9 ^ rhs, self.10 ^ rhs, self.11 ^ rhs,
            self.12 ^ rhs, self.13 ^ rhs, self.14 ^ rhs, self.15 ^ rhs,
        )
    }
}

impl BitXorSpecImpl<i16> for short16 {
    open spec fn obeys_bitxor_spec() -> bool {
        true
    }

    open spec fn bitxor_req(self, rhs: i16) -> bool {
        true
    }

    open spec fn bitxor_spec(self, rhs: i16) -> short16 {
        short16(
            self.0 ^ rhs, self.1 ^ rhs, self.2 ^ rhs, self.3 ^ rhs, self.4 ^ rhs, self.5 ^ rhs,
            self.6 ^ rhs, self.7 ^ rhs, self.8 ^ rhs, self.9 ^ rhs, self.10 ^ rhs, self.11 ^ rhs,
            self.12 ^ rhs, self.13 ^ rhs, self.14 ^ rhs, self.15 ^ rhs,
        )
    }
}

impl core::ops::BitXor<short16> for i16 {
    type Output = short16;

    /// The exclusive disjunction of the scalar and every lane, bit by bit.
    fn bitxor(self, rhs: short16) -> (r: short16) {
        short16(
            self ^ rhs.0, self ^ rhs.1, self ^ rhs.2, self ^ rhs.3, self ^ rhs.4, self ^ rhs.5,
            self ^ rhs.6, self ^ rhs.7, self ^ rhs.8, self ^ rhs.9, self ^ rhs.10, self ^ rhs.11,
            self ^ rhs.12, self ^ rhs.13, self ^ rhs.14, self ^ rhs.15,
        )
    }
}

impl BitXorSpecImpl<short16> for i16 {
    open spec fn obeys_bitxor_spec() -> bool {
        true
    }

    open spec fn bitxor_req(self, rhs: short16) -> bool {
        true
    }

    open spec fn bitxor_spec(self, rhs: short16) -> short16 {
        short16(
            self ^ rhs.0, self ^ rhs.1, self ^ rhs.2, self ^ rhs.3, self ^ rhs.4, self ^ rhs.5,
            self ^ rhs.6, self ^ rhs.7, self ^ rhs.8, self ^ rhs.9, self ^ rhs.10, self ^ rhs.11,
            self ^ rhs.12, self ^ rhs.13, self ^ rhs.14, self ^ rhs.15,
        )
    }
}

impl core::ops::Shl for short16 {
    type Output = short16;

    /// Every lane shifted left by the lane of `rhs`, which is below 16.
    fn shl(self, rhs: short16) -> (r: short16) {
        short16(
            shl_i16(self.0, rhs.0), shl_i16(self.1, rhs.1), shl_i16(self.2, rhs.2),
            shl_i16(self.3, rhs.3), shl_i16(self.4, rhs.4), shl_i16(self.5, rhs.5),
            shl_i16(self.6, rhs.6), shl_i16(self.7, rhs.7), shl_i16(self.8, rhs.8),
            shl_i16(self.9, rhs.9), shl_i16(self.10, rhs.10), shl_i16(self.11, rhs.11),
            shl_i16(self.12, rhs.12), shl_i16(self.13, rhs.13), shl_i16(self.14, rhs.14),
            shl_i16(self.15, rhs.15),
        )
    }
}

impl ShlSpecImpl for short16 {
    open spec fn obeys_shl_spec() -> bool {
        true
    }

    open spec fn shl_req(self, rhs: short16) -> bool {
        0 <= rhs.0 < 16 && 0 <= rhs.1 < 16 && 0 <= rhs.2 < 16 && 0 <= rhs.3 < 16 && 0 <= rhs.4 < 16
            && 0 <= rhs.5 < 16 && 0 <= rhs.6 < 16 && 0 <= rhs.7 < 16 && 0 <= rhs.8 < 16
            && 0 <= rhs.9 < 16 && 0 <= rhs.10 < 16 && 0 <= rhs.11 < 16 && 0 <= rhs.12 < 16
            && 0 <= rhs.13 < 16 && 0 <= rhs.14 < 16 && 0 <= rhs.15 < 16
    }

    open spec fn shl_spec(self, rhs: short16) -> short16 {
        short16(
            shl_i16(self.0, rhs.0), shl_i16(self.1, rhs.1), shl_i16(self.2, rhs.2),
            shl_i16(self.3, rhs.3), shl_i16(self.4, rhs.4), shl_i16(self.5, rhs.5),
            shl_i16(self.6, rhs.6), shl_i16(self.7, rhs.7), shl_i16(self.8, rhs.8),
            shl_i16(self.9, rhs.9), shl_i16(self.10, rhs.10), shl_i16(self.11, rhs.11),
            shl_i16(self.12, rhs.12), shl_i16(self.13, rhs.13), shl_i16(self.14, rhs.14),
            shl_i16(self.15, rhs.15),
        )
    }
}

impl core::ops::Shl<i16> for short16 {
    type Output = short16;

    /// Every lane shifted left by `rhs`, which is below 16.
    fn shl(self, rhs: i16) -> (r: short16) {
        short16(
            shl_i16(self.0, rhs), shl_i16(self.1, rhs), shl_i16(self.2, rhs), shl_i16(self.3, rhs),
            shl_i16(self.4, rhs), shl_i16(self.5, rhs), shl_i16(self.6, rhs), shl_i16(self.7, rhs),
            shl_i16(self.8, rhs), shl_i16(self.9, rhs), shl_i16(self.10, rhs),
            shl_i16(self.11, rhs), shl_i16(self.12, rhs), shl_i16(self.13, rhs),
            shl_i16(self.14, rhs), shl_i16(self.15, rhs),
        )
    }
}

impl ShlSpecImpl<i16> for short16 {
    open spec fn obeys_shl_spec() -> bool {
        true
    }

    open spec fn shl_req(self, rhs: i16) -> bool {
        0 <= rhs < 16
    }

    open spec fn shl_spec(self, rhs: i16) -> short16 {
        short16(
            shl_i16(self.0, rhs), shl_i16(self.1, rhs), shl_i16(self.2, rhs), shl_i16(self.3, rhs),
            shl_i16(self.4, rhs), shl_i16(self.5, rhs), shl_i16(self.6, rhs), shl_i16(self.7, rhs),
            shl_i16(self.8, rhs), shl_i16(self.9, rhs), shl_i16(self.10, rhs),
            shl_i16(self.11, rhs), shl_i16(self.12, rhs), shl_i16(self.13, rhs),
            shl_i16(self.14, rhs), shl_i16(self.15, rhs),
        )
    }
}

impl core::ops::Shl<short16> for i16 {
    type Output = short16;

    /// The scalar shifted left by every lane of `rhs`, each of which is below 16.
    fn shl(self, rhs: short16) -> (r: short16) {
        short16(
            shl_i16(self, rhs.0), shl_i16(self, rhs.1), shl_i16(self, rhs.2), shl_i16(self, rhs.3),
            shl_i16(self, rhs.4), shl_i16(self, rhs.5), shl_i16(self, rhs.6), shl_i16(self, rhs.7),
            shl_i16(self, rhs.8), shl_i16(self, rhs.9), shl_i16(self, rhs.10),
            shl_i16(self, rhs.11), shl_i16(self, rhs.12), shl_i16(self, rhs.13),
            shl_i16(self, rhs.14), shl_i16(self, rhs.15),
        )
    }
}

impl ShlSpecImpl<short16> for i16 {
    open spec fn obeys_shl_spec() -> bool {
        true
    }

    open spec fn shl_req(self, rhs: short16) -> bool {
        0 <= rhs.0 < 16 && 0 <= rhs.1 < 16 && 0 <= rhs.2 < 16 && 0 <= rhs.3 < 16 && 0 <= rhs.4 < 16
            && 0 <= rhs.5 < 16 && 0 <= rhs.6 < 16 && 0 <= rhs.7 < 16 && 0 <= rhs.8 < 16
            && 0 <= rhs.9 < 16 && 0 <= rhs.10 < 16 && 0 <= rhs.11 < 16 && 0 <= rhs.12 < 16
            && 0 <= rhs.13 < 16 && 0 <= rhs.14 < 16 && 0 <= rhs.15 < 16
    }

    open spec fn shl_spec(self, rhs: short16) -> short16 {
        short16(
            shl_i16(self, rhs.0), shl_i16(self, rhs.1), shl_i16(self, rhs.2), shl_i16(self, rhs.3),
            shl_i16(self, rhs.4), shl_i16(self, rhs.5), shl_i16(self, rhs.6), shl_i16(self, rhs.7),
            shl_i16(self, rhs.8), shl_i16(self, rhs.9), shl_i16(self, rhs.10),
            shl_i16(self, rhs.11), shl_i16(self, rhs.12), shl_i16(self, rhs.13),
            shl_i16(self, rhs.14), shl_i16(self, rhs.15),
        )
    }
}

impl core::ops::Shr for short16 {
    type Output = short16;

    /// Every lane shifted right by the lane of `rhs`, which is below 16.
    fn shr(self, rhs: short16) -> (r: short16) {
        short16(
            shr_i16(self.0, rhs.0), shr_i16(self.1, rhs.1), shr_i16(self.2, rhs.2),
            shr_i16(self.3, rhs.3), shr_i16(self.4, rhs.4), shr_i16(self.5, rhs.5),
            shr_i16(self.6, rhs.6), shr_i16(self.7, rhs.7), shr_i16(self.8, rhs.8),
            shr_i16(self.9, rhs.9), shr_i16(self.10, rhs.10), shr_i16(self.11, rhs.11),
            shr_i16(self.12, rhs.12), shr_i16(self.13, rhs.13), shr_i16(self.14, rhs.14),
            shr_i16(self.15, rhs.15),
        )
    }
}

impl ShrSpecImpl for short16 {
    open spec fn obeys_shr_spec() -> bool {
        true
    }

    open spec fn shr_req(self, rhs: short16) -> bool {
        0 <= rhs.0 < 16 && 0 <= rhs.1 < 16 && 0 <= rhs.2 < 16 && 0 <= rhs.3 < 16 && 0 <= rhs.4 < 16
            && 0 <= rhs.5 < 16 && 0 <= rhs.6 < 16 && 0 <= rhs.7 < 16 && 0 <= rhs.8 < 16
            && 0 <= rhs.9 < 16 && 0 <= rhs.10 < 16 && 0 <= rhs.11 < 16 && 0 <= rhs.12 < 16
            && 0 <= rhs.13 < 16 && 0 <= rhs.14 < 16 && 0 <= rhs.15 < 16
    }

    open spec fn shr_spec(self, rhs: short16) -> short16 {
        short16(
            shr_i16(self.0, rhs.0), shr_i16(self.1, rhs.1), shr_i16(self.2, rhs.2),
            shr_i16(self.3, rhs.3), shr_i16(self.4, rhs.4), shr_i16(self.5, rhs.5),
            shr_i16(self.6, rhs.6), shr_i16(self.7, rhs.7), shr_i16(self.8, rhs.8),
            shr_i16(self.9, rhs.9), shr_i16(self.10, rhs.10), shr_i16(self.11, rhs.11),
            shr_i16(self.12, rhs.12), shr_i16(self.13, rhs.13), shr_i16(self.14, rhs.14),
            shr_i16(self.15, rhs.15),
        )
    }
}

impl core::ops::Shr<i16> for short16 {
    type Output = short16;

    /// Every lane shifted right by `rhs`, which is below 16.
    fn shr(self, rhs: i16) -> (r: short16) {
        short16(
            shr_i16(self.0, rhs), shr_i16(self.1, rhs), shr_i16(self.2, rhs), shr_i16(self.3, rhs),
            shr_i16(self.4, rhs), shr_i16(self.5, rhs), shr_i16(self.6, rhs), shr_i16(self.7, rhs),
            shr_i16(self.8, rhs), shr_i16(self.9, rhs), shr_i16(self.10, rhs),
            shr_i16(self.11, rhs), shr_i16(self.12, rhs), shr_i16(self.13, rhs),
            shr_i16(self.14, rhs), shr_i16(self.15, rhs),
        )
    }
}

impl ShrSpecImpl<i16> for short16 {
    open spec fn obeys_shr_spec() -> bool {
        true
    }

    open spec fn shr_req(self, rhs: i16) -> bool {
        0 <= rhs < 16
    }

    open spec fn shr_spec(self, rhs: i16) -> short16 {
        short16(
            shr_i16(self.0, rhs), shr_i16(self.1, rhs), shr_i16(self.2, rhs), shr_i16(self.3, rhs),
            shr_i16(self.4, rhs), shr_i16(self.5, rhs), shr_i16(self.6, rhs), shr_i16(self.7, rhs),
            shr_i16(self.8, rhs), shr_i16(self.9, rhs), shr_i16(self.10, rhs),
            shr_i16(self.11, rhs), shr_i16(self.12, rhs), shr_i16(self.13, rhs),
            shr_i16(self.14, rhs), shr_i16(self.15, rhs),
        )
    }
}

impl core::ops::Shr<short16> for i16 {
    type Output = short16;

    /// The scalar shifted right by every lane of `rhs`, each of which is below 16.
    fn shr(self, rhs: short16) -> (r: short16) {
        short16(
            shr_i16(self, rhs.0), shr_i16(self, rhs.1), shr_i16(self, rhs.2), shr_i16(self, rhs.3),
            shr_i16(self, rhs.4), shr_i16(self, rhs.5), shr_i16(self, rhs.6), shr_i16(self, rhs.7),
            shr_i16(self, rhs.8), shr_i16(self, rhs.9), shr_i16(self, rhs.10),
            shr_i16(self, rhs.11), shr_i16(self, rhs.12), shr_i16(self, rhs.13),
            shr_i16(self, rhs.14), shr_i16(self, rhs.15),
        )
    }
}

impl ShrSpecImpl<short16> for i16 {
    open spec fn obeys_shr_spec() -> bool {
        true
    }

    open spec fn shr_req(self, rhs: short16) -> bool {
        0 <= rhs.0 < 16 && 0 <= rhs.1 < 16 && 0 <= rhs.2 < 16 && 0 <= rhs.3 < 16 && 0 <= rhs.4 < 16
            && 0 <= rhs.5 < 16 && 0 <= rhs.6 < 16 && 0 <= rhs.7 < 16 && 0 <= rhs.8 < 16
            && 0 <= rhs.9 < 16 && 0 <= rhs.10 < 16 && 0 <= rhs.11 < 16 && 0 <= rhs.12 < 16
            && 0 <= rhs.13 < 16 && 0 <= rhs.14 < 16 && 0 <= rhs.15 < 16
    }

    open spec fn shr_spec(self, rhs: short16) -> short16 {
        short16(
            shr_i16(self, rhs.0), shr_i16(self, rhs.1), shr_i16(self, rhs.2), shr_i16(self, rhs.3),
            shr_i16(self, rhs.4), shr_i16(self, rhs.5), shr_i16(self, rhs.6), shr_i16(self, rhs.7),
            shr_i16(self, rhs.8), shr_i16(self, rhs.9), shr_i16(self, rhs.10),
            shr_i16(self, rhs.11), shr_i16(self, rhs.12), shr_i16(self, rhs.13),
            shr_i16(self, rhs.14), shr_i16(self, rhs.15),
        )
    }
}

impl core::ops::Rem for short16 {
    type Output = short16;

    /// The lane-wise remainder `self - (self / rhs) * rhs`. No lane of the divisor is zero.
    fn rem(self, rhs: short16) -> (r: short16) {
        short16(
            rem_i16(self.0, rhs.0), rem_i16(self.1, rhs.1), rem_i16(self.2, rhs.2),
            rem_i16(self.3, rhs.3), rem_i16(self.4, rhs.4), rem_i16(self.5, rhs.5),
            rem_i16(self.6, rhs.6), rem_i16(self.7, rhs.7), rem_i16(self.8, rhs.8),
            rem_i16(self.9, rhs.9), rem_i16(self.10, rhs.10), rem_i16(self.11, rhs.11),
            rem_i16(self.12, rhs.12), rem_i16(self.13, rhs.13), rem_i16(self.14, rhs.14),
            rem_i16(self.15, rhs.15),
        )
    }
}

impl RemSpecImpl for short16 {
    open spec fn obeys_rem_spec() -> bool {
        true
    }

    open spec fn rem_req(self, rhs: short16) -> bool {
        rhs.0 != 0 && rhs.1 != 0 && rhs.2 != 0 && rhs.3 != 0 && rhs.4 != 0 && rhs.5 != 0
            && rhs.6 != 0 && rhs.7 != 0 && rhs.8 != 0 && rhs.9 != 0 && rhs.10 != 0 && rhs.11 != 0
            && rhs.12 != 0 && rhs.13 != 0 && rhs.14 != 0 && rhs.15 != 0
    }

    open spec fn rem_spec(self, rhs: short16) -> short16 {
        short16(
            rem_i16(self.0, rhs.0), rem_i16(self.1, rhs.1), rem_i16(self.2, rhs.2),
            rem_i16(self.3, rhs.3), rem_i16(self.4, rhs.4), rem_i16(self.5, rhs.5),
            rem_i16(self.6, rhs.6), rem_i16(self.7, rhs.7), rem_i16(self.8, rhs.8),
            rem_i16(self.9, rhs.9), rem_i16(self.10, rhs.10), rem_i16(self.11, rhs.11),
            rem_i16(self.12, rhs.12), rem_i16(self.13, rhs.13), rem_i16(self.14, rhs.14),
            rem_i16(self.15, rhs.15),
        )
    }
}

impl core::ops::Neg for short16 {
    type Output = short16;

    /// Zero minus every lane, wrapping around.
    fn neg(self) -> (r: short16) {
        short16(
            neg_i16(self.0), neg_i16(self.1), neg_i16(self.2), neg_i16(self.3), neg_i16(self.4),
            neg_i16(self.5), neg_i16(self.6), neg_i16(self.7), neg_i16(self.8), neg_i16(self.9),
            neg_i16(self.10), neg_i16(self.11), neg_i16(self.12), neg_i16(self.13),
            neg_i16(self.14), neg_i16(self.15),
        )
    }
}

impl NegSpecImpl for short16 {
    open spec fn obeys_neg_spec() -> bool {
        true
    }

    open spec fn neg_req(self) -> bool {
        true
    }

    open spec fn neg_spec(self) -> short16 {
        short16(
            neg_i16(self.0), neg_i16(self.1), neg_i16(self.2), neg_i16(self.3), neg_i16(self.4),
            neg_i16(self.5), neg_i16(self.6), neg_i16(self.7), neg_i16(self.8), neg_i16(self.9),
            neg_i16(self.10), neg_i16(self.11), neg_i16(self.12), neg_i16(self.13),
            neg_i16(self.14), neg_i16(self.15),
        )
    }
}

impl core::ops::Not for short16 {
    type Output = short16;

    /// Every lane with every bit flipped.
    fn not(self) -> (r: short16) {
        short16(
            not_i16(self.0), not_i16(self.1), not_i16(self.2), not_i16(self.3), not_i16(self.4),
            not_i16(self.5), not_i16(self.6), not_i16(self.7), not_i16(self.8), not_i16(self.9),
            not_i16(self.10), not_i16(self.11), not_i16(self.12), not_i16(self.13),
            not_i16(self.14), not_i16(self.15),
        )
    }
}

impl NotSpecImpl for short16 {
    open spec fn obeys_not_spec() -> bool {
        true
    }

    open spec fn not_req(self) -> bool {
        true
    }

    open spec fn not_spec(self) -> short16 {
        short16(
            not_i16(self.0), not_i16(self.1), not_i16(self.2), not_i16(self.3), not_i16(self.4),
            not_i16(self.5), not_i16(self.6), not_i16(self.7), not_i16(self.8), not_i16(self.9),
            not_i16(self.10), not_i16(self.11), not_i16(self.12), not_i16(self.13),
            not_i16(self.14), not_i16(self.15),
        )
    }
}

impl core::convert::From<isize> for short16 {
    /// The vector with `x`, wrapped to `i16`, in every lane.
    fn from(x: isize) -> (r: short16) {
        let v = isize_to_i16(x);
        short16(v, v, v, v, v, v, v, v, v, v, v, v, v, v, v, v)
    }
}

impl FromSpecImpl<isize> for short16 {
    open spec fn obeys_from_spec() -> bool {
        true
    }

    open spec fn from_spec(x: isize) -> short16 {
        short16(
            isize_to_i16(x), isize_to_i16(x), isize_to_i16(x), isize_to_i16(x), isize_to_i16(x),
            isize_to_i16(x), isize_to_i16(x), isize_to_i16(x), isize_to_i16(x), isize_to_i16(x),
            isize_to_i16(x), isize_to_i16(x), isize_to_i16(x), isize_to_i16(x), isize_to_i16(x),
            isize_to_i16(x),
        )
    }
}

impl core::ops::Index<u32> for short16 {
    type Output = i16;

    /// Lane `i`, which is below 16.
    fn index(&self, i: u32) -> (r: &i16)
        ensures
            *r == self.lane(i as int),
    {
        match i {
            0 => &self.0,
            1 => &self.1,
            2 => &self.2,
            3 => &self.3,
            4 => &self.4,
            5 => &self.5,
            6 => &self.6,
            7 => &self.7,
            8 => &self.8,
            9 => &self.9,
            10 => &self.10,
            11 => &self.11,
            12 => &self.12,
            13 => &self.13,
            14 => &self.14,
            _ => &self.15,
        }
    }
}

impl vstd::std_specs::core::IndexSpecImpl<u32> for short16 {
    open spec fn index_req(&self, i: &u32) -> bool {
        *i < 16
    }
}

impl short16 {
    /// Lane `i`, counted from zero.
    pub open spec fn lane(self, i: int) -> i16
        recommends
            0 <= i < 16,
    {
        if i == 0 {
            self.0
        } else if i == 1 {
            self.1
        } else if i == 2 {
            self.2
        } else if i == 3 {
            self.3
        } else if i == 4 {
            self.4
        } else if i == 5 {
            self.5
        } else if i == 6 {
            self.6
        } else if i == 7 {
            self.7
        } else if i == 8 {
            self.8
        } else if i == 9 {
            self.9
        } else if i == 10 {
            self.10
        } else if i == 11 {
            self.11
        } else if i == 12 {
            self.12
        } else if i == 13 {
            self.13
        } else if i == 14 {
            self.14
        } else {
            self.15
        }
    }

    /// The vector of type `short16` with the bits of `x`, a value of a type that has as many bits,
    /// which is one with images of type `ushort16`.
    pub fn bitcast<U: Bitcast<Image = ushort16>>(x: U) -> (r: short16)
        ensures
            r == spec_bitcast::<U, short16>(x),
    {
        bitcast(x)
    }

    /// The vector with `x` in every lane.
    pub fn broadcast(x: i16) -> (r: short16)
        ensures
            r == short16(x, x, x, x, x, x, x, x, x, x, x, x, x, x, x, x),
    {
        short16(x, x, x, x, x, x, x, x, x, x, x, x, x, x, x, x)
    }

    /// Lane `i`, which is below 16.
    pub fn extract(self, i: u32) -> (r: i16)
        requires
            i < 16,
        ensures
            r == self.lane(i as int),
    {
        match i {
            0 => self.0,
            1 => self.1,
            2 => self.2,
            3 => self.3,
            4 => self.4,
            5 => self.5,
            6 => self.6,
            7 => self.7,
            8 => self.8,
            9 => self.9,
            10 => self.10,
            11 => self.11,
            12 => self.12,
            13 => self.13,
            14 => self.14,
            _ => self.15,
        }
    }

    /// The vector with `x` in lane `i`, which is below 16, and the other lanes unchanged.
    pub fn replace(self, i: u32, x: i16) -> (r: short16)
        requires
            i < 16,
        ensures
            forall|j: int| 0 <= j < 16 ==> #[trigger] r.lane(j) == (if j == i {
                x
            } else {
                self.lane(j)
            }),
    {
        match i {
            0 => short16(
                x, self.1, self.2, self.3, self.4, self.5, self.6, self.7, self.8, self.9, self.10,
                self.11, self.12, self.13, self.14, self.15,
            ),
            1 => short16(
                self.0, x, self.2, self.3, self.4, self.5, self.6, self.7, self.8, self.9, self.10,
                self.11, self.12, self.13, self.14, self.15,
            ),
            2 => short16(
                self.0, self.1, x, self.3, self.4, self.5, self.6, self.7, self.8, self.9, self.10,
                self.11, self.12, self.13, self.14, self.15,
            ),
            3 => short16(
                self.0, self.1, self.2, x, self.4, self.5, self.6, self.7, self.8, self.9, self.10,
                self.11, self.12, self.13, self.14, self.15,
            ),
            4 => short16(
                self.0, self.1, self.2, self.3, x, self.5, self.6, self.7, self.8, self.9, self.10,
                self.11, self.12, self.13, self.14, self.15,
            ),
            5 => short16(
                self.0, self.1, self.2, self.3, self.4, x, self.6, self.7, self.8, self.9, self.10,
                self.11, self.12, self.13, self.14, self.15,
            ),
            6 => short16(
                self.0, self.1, self.2, self.3, self.4, self.5, x, self.7, self.8, self.9, self.10,
                self.11, self.12, self.13, self.14, self.15,
            ),
            7 => short16(
                self.0, self.1, self.2, self.3, self.4, self.5, self.6, x, self.8, self.9, self.10,
                self.11, self.12, self.13, self.14, self.15,
            ),
            8 => short16(
                self.0, self.1, self.2, self.3, self.4, self.5, self.6, self.7, x, self.9, self.10,
                self.11, self.12, self.13, self.14, self.15,
            ),
            9 => short16(
                self.0, self.1, self.2, self.3, self.4, self.5, self.6, self.7, self.8, x, self.10,
                self.11, self.12, self.13, self.14, self.15,
            ),
            10 => short16(
                self.0, self.1, self.2, self.3, self.4, self.5, self.6, self.7, self.8, self.9, x,
                self.11, self.12, self.13, self.14, self.15,
            ),
            11 => short16(
                self.0, self.1, self.2, self.3, self.4, self.5, self.6, self.7, self.8, self.9,
                self.10, x, self.12, self.13, self.14, self.15,
            ),
            12 => short16(
                self.0, self.1, self.2, self.3, self.4, self.5, self.6, self.7, self.8, self.9,
                self.10, self.11, x, self.13, self.14, self.15,
            ),
            13 => short16(
                self.0, self.1, self.2, self.3, self.4, self.5, self.6, self.7, self.8, self.9,
                self.10, self.11, self.12, x, self.14, self.15,
            ),
            14 => short16(
                self.0, self.1, self.2, self.3, self.4, self.5, self.6, self.7, self.8, self.9,
                self.10, self.11, self.12, self.13, x, self.15,
            ),
            _ => short16(
                self.0, self.1, self.2, self.3, self.4, self.5, self.6, self.7, self.8, self.9,
                self.10, self.11, self.12, self.13, self.14, x,
            ),
        }
    }

    /// The mask that is all ones where the lanes of `x` and `y` are equal, and zero elsewhere.
    pub fn eq(x: short16, y: short16) -> (r: short16)
        ensures
            r == short16(
                eq_i16(x.0, y.0), eq_i16(x.1, y.1), eq_i16(x.2, y.2), eq_i16(x.3, y.3),
                eq_i16(x.4, y.4), eq_i16(x.5, y.5), eq_i16(x.6, y.6), eq_i16(x.7, y.7),
                eq_i16(x.8, y.8), eq_i16(x.9, y.9), eq_i16(x.10, y.10), eq_i16(x.11, y.11),
                eq_i16(x.12, y.12), eq_i16(x.13, y.13), eq_i16(x.14, y.14), eq_i16(x.15, y.15),
            ),
    {
        short16(
            eq_i16(x.0, y.0), eq_i16(x.1, y.1), eq_i16(x.2, y.2), eq_i16(x.3, y.3),
            eq_i16(x.4, y.4), eq_i16(x.5, y.5), eq_i16(x.6, y.6), eq_i16(x.7, y.7),
            eq_i16(x.8, y.8), eq_i16(x.9, y.9), eq_i16(x.10, y.10), eq_i16(x.11, y.11),
            eq_i16(x.12, y.12), eq_i16(x.13, y.13), eq_i16(x.14, y.14), eq_i16(x.15, y.15),
        )
    }

    /// The mask that is all ones where the lanes of `x` and `y` differ, and zero elsewhere.
    pub fn ne(x: short16, y: short16) -> (r: short16)
        ensures
            r == short16(
                ne_i16(x.0, y.0), ne_i16(x.1, y.1), ne_i16(x.2, y.2), ne_i16(x.3, y.3),
                ne_i16(x.4, y.4), ne_i16(x.5, y.5), ne_i16(x.6, y.6), ne_i16(x.7, y.7),
                ne_i16(x.8, y.8), ne_i16(x.9, y.9), ne_i16(x.10, y.10), ne_i16(x.11, y.11),
                ne_i16(x.12, y.12), ne_i16(x.13, y.13), ne_i16(x.14, y.14), ne_i16(x.15, y.15),
            ),
    {
        short16(
            ne_i16(x.0, y.0), ne_i16(x.1, y.1), ne_i16(x.2, y.2), ne_i16(x.3, y.3),
            ne_i16(x.4, y.4), ne_i16(x.5, y.5), ne_i16(x.6, y.6), ne_i16(x.7, y.7),
            ne_i16(x.8, y.8), ne_i16(x.9, y.9), ne_i16(x.10, y.10), ne_i16(x.11, y.11),
            ne_i16(x.12, y.12), ne_i16(x.13, y.13), ne_i16(x.14, y.14), ne_i16(x.15, y.15),
        )
    }

    /// The mask that is all ones where the lane of `x` is less than that of `y`, and zero
    /// elsewhere.
    pub fn lt(x: short16, y: short16) -> (r: short16)
        ensures
            r == short16(
                lt_i16(x.0, y.0), lt_i16(x.1, y.1), lt_i16(x.2, y.2), lt_i16(x.3, y.3),
                lt_i16(x.4, y.4), lt_i16(x.5, y.5), lt_i16(x.6, y.6), lt_i16(x.7, y.7),
                lt_i16(x.8, y.8), lt_i16(x.9, y.9), lt_i16(x.10, y.10), lt_i16(x.11, y.11),
                lt_i16(x.12, y.12), lt_i16(x.13, y.13), lt_i16(x.14, y.14), lt_i16(x.15, y.15),
            ),
    {
        short16(
            lt_i16(x.0, y.0), lt_i16(x.1, y.1), lt_i16(x.2, y.2), lt_i16(x.3, y.3),
            lt_i16(x.4, y.4), lt_i16(x.5, y.5), lt_i16(x.6, y.6), lt_i16(x.7, y.7),
            lt_i16(x.8, y.8), lt_i16(x.9, y.9), lt_i16(x.10, y.10), lt_i16(x.11, y.11),
            lt_i16(x.12, y.12), lt_i16(x.13, y.13), lt_i16(x.14, y.14), lt_i16(x.15, y.15),
        )
    }

    /// The mask that is all ones where the lane of `x` is at most that of `y`, and zero elsewhere.
    pub fn le(x: short16, y: short16) -> (r: short16)
        ensures
            r == short16(
                le_i16(x.0, y.0), le_i16(x.1, y.1), le_i16(x.2, y.2), le_i16(x.3, y.3),
                le_i16(x.4, y.4), le_i16(x.5, y.5), le_i16(x.6, y.6), le_i16(x.7, y.7),
                le_i16(x.8, y.8), le_i16(x.9, y.9), le_i16(x.10, y.10), le_i16(x.11, y.11),
                le_i16(x.12, y.12), le_i16(x.13, y.13), le_i16(x.14, y.14), le_i16(x.15, y.15),
            ),
    {
        short16(
            le_i16(x.0, y.0), le_i16(x.1, y.1), le_i16(x.2, y.2), le_i16(x.3, y.3),
            le_i16(x.4, y.4), le_i16(x.5, y.5), le_i16(x.6, y.6), le_i16(x.7, y.7),
            le_i16(x.8, y.8), le_i16(x.9, y.9), le_i16(x.10, y.10), le_i16(x.11, y.11),
            le_i16(x.12, y.12), le_i16(x.13, y.13), le_i16(x.14, y.14), le_i16(x.15, y.15),
        )
    }

    /// The mask that is all ones where the lane of `x` is greater than that of `y`, and zero
    /// elsewhere.
    pub fn gt(x: short16, y: short16) -> (r: short16)
        ensures
            r == short16(
                gt_i16(x.0, y.0), gt_i16(x.1, y.1), gt_i16(x.2, y.2), gt_i16(x.3, y.3),
                gt_i16(x.4, y.4), gt_i16(x.5, y.5), gt_i16(x.6, y.6), gt_i16(x.7, y.7),
                gt_i16(x.8, y.8), gt_i16(x.9, y.9), gt_i16(x.10, y.10), gt_i16(x.11, y.11),
                gt_i16(x.12, y.12), gt_i16(x.13, y.13), gt_i16(x.14, y.14), gt_i16(x.15, y.15),
            ),
    {
        short16(
            gt_i16(x.0, y.0), gt_i16(x.1, y.1), gt_i16(x.2, y.2), gt_i16(x.3, y.3),
            gt_i16(x.4, y.4), gt_i16(x.5, y.5), gt_i16(x.6, y.6), gt_i16(x.7, y.7),
            gt_i16(x.8, y.8), gt_i16(x.9, y.9), gt_i16(x.10, y.10), gt_i16(x.11, y.11),
            gt_i16(x.12, y.12), gt_i16(x.13, y.13), gt_i16(x.14, y.14), gt_i16(x.15, y.15),
        )
    }

    /// The mask that is all ones where the lane of `x` is at least that of `y`, and zero elsewhere.
    pub fn ge(x: short16, y: short16) -> (r: short16)
        ensures
            r == short16(
                ge_i16(x.0, y.0), ge_i16(x.1, y.1), ge_i16(x.2, y.2), ge_i16(x.3, y.3),
                ge_i16(x.4, y.4), ge_i16(x.5, y.5), ge_i16(x.6, y.6), ge_i16(x.7, y.7),
                ge_i16(x.8, y.8), ge_i16(x.9, y.9), ge_i16(x.10, y.10), ge_i16(x.11, y.11),
                ge_i16(x.12, y.12), ge_i16(x.13, y.13), ge_i16(x.14, y.14), ge_i16(x.15, y.15),
            ),
    {
        short16(
            ge_i16(x.0, y.0), ge_i16(x.1, y.1), ge_i16(x.2, y.2), ge_i16(x.3, y.3),
            ge_i16(x.4, y.4), ge_i16(x.5, y.5), ge_i16(x.6, y.6), ge_i16(x.7, y.7),
            ge_i16(x.8, y.8), ge_i16(x.9, y.9), ge_i16(x.10, y.10), ge_i16(x.11, y.11),
            ge_i16(x.12, y.12), ge_i16(x.13, y.13), ge_i16(x.14, y.14), ge_i16(x.15, y.15),
        )
    }

    /// `x * y + z` lane by lane, wrapping around.
    pub fn madd(x: short16, y: short16, z: short16) -> (r: short16)
        ensures
            r == short16(
                madd_i16(x.0, y.0, z.0), madd_i16(x.1, y.1, z.1), madd_i16(x.2, y.2, z.2),
                madd_i16(x.3, y.3, z.3), madd_i16(x.4, y.4, z.4), madd_i16(x.5, y.5, z.5),
                madd_i16(x.6, y.6, z.6), madd_i16(x.7, y.7, z.7), madd_i16(x.8, y.8, z.8),
                madd_i16(x.9, y.9, z.9), madd_i16(x.10, y.10, z.10), madd_i16(x.11, y.11, z.11),
                madd_i16(x.12, y.12, z.12), madd_i16(x.13, y.13, z.13), madd_i16(x.14, y.14, z.14),
                madd_i16(x.15, y.15, z.15),
            ),
    {
        short16(
            madd_i16(x.0, y.0, z.0), madd_i16(x.1, y.1, z.1), madd_i16(x.2, y.2, z.2),
            madd_i16(x.3, y.3, z.3), madd_i16(x.4, y.4, z.4), madd_i16(x.5, y.5, z.5),
            madd_i16(x.6, y.6, z.6), madd_i16(x.7, y.7, z.7), madd_i16(x.8, y.8, z.8),
            madd_i16(x.9, y.9, z.9), madd_i16(x.10, y.10, z.10), madd_i16(x.11, y.11, z.11),
            madd_i16(x.12, y.12, z.12), madd_i16(x.13, y.13, z.13), madd_i16(x.14, y.14, z.14),
            madd_i16(x.15, y.15, z.15),
        )
    }

    /// The magnitude of every lane; that of `i16::MIN` wraps around to `i16::MIN`.
    pub fn abs(x: short16) -> (r: short16)
        ensures
            r == x.spec_abs(),
    {
        short16(
            abs_i16(x.0), abs_i16(x.1), abs_i16(x.2), abs_i16(x.3), abs_i16(x.4), abs_i16(x.5),
            abs_i16(x.6), abs_i16(x.7), abs_i16(x.8), abs_i16(x.9), abs_i16(x.10), abs_i16(x.11),
            abs_i16(x.12), abs_i16(x.13), abs_i16(x.14), abs_i16(x.15),
        )
    }

    /// The greater lane of `x` and `y`, lane by lane.
    pub fn max(x: short16, y: short16) -> (r: short16)
        ensures
            r == x.spec_max(y),
    {
        short16(
            max_i16(x.0, y.0), max_i16(x.1, y.1), max_i16(x.2, y.2), max_i16(x.3, y.3),
            max_i16(x.4, y.4), max_i16(x.5, y.5), max_i16(x.6, y.6), max_i16(x.7, y.7),
            max_i16(x.8, y.8), max_i16(x.9, y.9), max_i16(x.10, y.10), max_i16(x.11, y.11),
            max_i16(x.12, y.12), max_i16(x.13, y.13), max_i16(x.14, y.14), max_i16(x.15, y.15),
        )
    }

    /// The smaller lane of `x` and `y`, lane by lane.
    pub fn min(x: short16, y: short16) -> (r: short16)
        ensures
            r == x.spec_min(y),
    {
        short16(
            min_i16(x.0, y.0), min_i16(x.1, y.1), min_i16(x.2, y.2), min_i16(x.3, y.3),
            min_i16(x.4, y.4), min_i16(x.5, y.5), min_i16(x.6, y.6), min_i16(x.7, y.7),
            min_i16(x.8, y.8), min_i16(x.9, y.9), min_i16(x.10, y.10), min_i16(x.11, y.11),
            min_i16(x.12, y.12), min_i16(x.13, y.13), min_i16(x.14, y.14), min_i16(x.15, y.15),
        )
    }

    /// Every lane of `x` raised to at least the lane of `lo`, then lowered to at most that of `hi`.
    pub fn clamp(x: short16, lo: short16, hi: short16) -> (r: short16)
        ensures
            r == x.spec_clamp(lo, hi),
    {
        short16(
            clamp_i16(x.0, lo.0, hi.0), clamp_i16(x.1, lo.1, hi.1), clamp_i16(x.2, lo.2, hi.2),
            clamp_i16(x.3, lo.3, hi.3), clamp_i16(x.4, lo.4, hi.4), clamp_i16(x.5, lo.5, hi.5),
            clamp_i16(x.6, lo.6, hi.6), clamp_i16(x.7, lo.7, hi.7), clamp_i16(x.8, lo.8, hi.8),
            clamp_i16(x.9, lo.9, hi.9), clamp_i16(x.10, lo.10, hi.10),
            clamp_i16(x.11, lo.11, hi.11), clamp_i16(x.12, lo.12, hi.12),
            clamp_i16(x.13, lo.13, hi.13), clamp_i16(x.14, lo.14, hi.14),
            clamp_i16(x.15, lo.15, hi.15),
        )
    }

    /// The sum of the lanes, wrapping around.
    pub fn reduce_add(x: short16) -> (r: i16)
        ensures
            r == x.spec_reduce_add(),
    {
        let s = add_i16(x.0, x.1);
        let ghost mut t: int = x.0 + x.1;
        proof {
            lemma_wrap_i16_sum(t, x.2 as int);
            t = t + x.2;
        }
        let s = add_i16(s, x.2);
        proof {
            lemma_wrap_i16_sum(t, x.3 as int);
            t = t + x.3;
        }
        let s = add_i16(s, x.3);
        proof {
            lemma_wrap_i16_sum(t, x.4 as int);
            t = t + x.4;
        }
        let s = add_i16(s, x.4);
        proof {
            lemma_wrap_i16_sum(t, x.5 as int);
            t = t + x.5;
        }
        let s = add_i16(s, x.5);
        proof {
            lemma_wrap_i16_sum(t, x.6 as int);
            t = t + x.6;
        }
        let s = add_i16(s, x.6);
        proof {
            lemma_wrap_i16_sum(t, x.7 as int);
            t = t + x.7;
        }
        let s = add_i16(s, x.7);
        proof {
            lemma_wrap_i16_sum(t, x.8 as int);
            t = t + x.8;
        }
        let s = add_i16(s, x.8);
        proof {
            lemma_wrap_i16_sum(t, x.9 as int);
            t = t + x.9;
        }
        let s = add_i16(s, x.9);
        proof {
            lemma_wrap_i16_sum(t, x.10 as int);
            t = t + x.10;
        }
        let s = add_i16(s, x.10);
        proof {
            lemma_wrap_i16_sum(t, x.11 as int);
            t = t + x.11;
        }
        let s = add_i16(s, x.11);
        proof {
            lemma_wrap_i16_sum(t, x.12 as int);
            t = t + x.12;
        }
        let s = add_i16(s, x.12);
        proof {
            lemma_wrap_i16_sum(t, x.13 as int);
            t = t + x.13;
        }
        let s = add_i16(s, x.13);
        proof {
            lemma_wrap_i16_sum(t, x.14 as int);
            t = t + x.14;
        }
        let s = add_i16(s, x.14);
        proof {
            lemma_wrap_i16_sum(t, x.15 as int);
            t = t + x.15;
        }
        let s = add_i16(s, x.15);
        s
    }

    /// The smallest lane.
    pub fn reduce_min(x: short16) -> (r: i16)
        ensures
            r == x.spec_reduce_min(),
            r <= x.0 && r <= x.1 && r <= x.2 && r <= x.3 && r <= x.4 && r <= x.5 && r <= x.6
                && r <= x.7 && r <= x.8 && r <= x.9 && r <= x.10 && r <= x.11 && r <= x.12
                && r <= x.13 && r <= x.14 && r <= x.15,
            r == x.0 || r == x.1 || r == x.2 || r == x.3 || r == x.4 || r == x.5 || r == x.6
                || r == x.7 || r == x.8 || r == x.9 || r == x.10 || r == x.11 || r == x.12
                || r == x.13 || r == x.14 || r == x.15,
    {
        let s = min_i16(x.0, x.1);
        let s = min_i16(s, x.2);
        let s = min_i16(s, x.3);
        let s = min_i16(s, x.4);
        let s = min_i16(s, x.5);
        let s = min_i16(s, x.6);
        let s = min_i16(s, x.7);
        let s = min_i16(s, x.8);
        let s = min_i16(s, x.9);
        let s = min_i16(s, x.10);
        let s = min_i16(s, x.11);
        let s = min_i16(s, x.12);
        let s = min_i16(s, x.13);
        let s = min_i16(s, x.14);
        let s = min_i16(s, x.15);
        s
    }

    /// The greatest lane.
    pub fn reduce_max(x: short16) -> (r: i16)
        ensures
            r == x.spec_reduce_max(),
            r >= x.0 && r >= x.1 && r >= x.2 && r >= x.3 && r >= x.4 && r >= x.5 && r >= x.6
                && r >= x.7 && r >= x.8 && r >= x.9 && r >= x.10 && r >= x.11 && r >= x.12
                && r >= x.13 && r >= x.14 && r >= x.15,
            r == x.0 || r == x.1 || r == x.2 || r == x.3 || r == x.4 || r == x.5 || r == x.6
                || r == x.7 || r == x.8 || r == x.9 || r == x.10 || r == x.11 || r == x.12
                || r == x.13 || r == x.14 || r == x.15,
    {
        let s = max_i16(x.0, x.1);
        let s = max_i16(s, x.2);
        let s = max_i16(s, x.3);
        let s = max_i16(s, x.4);
        let s = max_i16(s, x.5);
        let s = max_i16(s, x.6);
        let s = max_i16(s, x.7);
        let s = max_i16(s, x.8);
        let s = max_i16(s, x.9);
        let s = max_i16(s, x.10);
        let s = max_i16(s, x.11);
        let s = max_i16(s, x.12);
        let s = max_i16(s, x.13);
        let s = max_i16(s, x.14);
        let s = max_i16(s, x.15);
        s
    }

    /// Every lane as `i8`: its low 8 bits, read as `i8`.
    pub fn to_char(x: short16) -> (r: char16)
        ensures
            r == char16(
                i16_to_i8(x.0), i16_to_i8(x.1), i16_to_i8(x.2), i16_to_i8(x.3), i16_to_i8(x.4),
                i16_to_i8(x.5), i16_to_i8(x.6), i16_to_i8(x.7), i16_to_i8(x.8), i16_to_i8(x.9),
                i16_to_i8(x.10), i16_to_i8(x.11), i16_to_i8(x.12), i16_to_i8(x.13), i16_to_i8(x.14),
                i16_to_i8(x.15),
            ),
    {
        char16(
            i16_to_i8(x.0), i16_to_i8(x.1), i16_to_i8(x.2), i16_to_i8(x.3), i16_to_i8(x.4),
            i16_to_i8(x.5), i16_to_i8(x.6), i16_to_i8(x.7), i16_to_i8(x.8), i16_to_i8(x.9),
            i16_to_i8(x.10), i16_to_i8(x.11), i16_to_i8(x.12), i16_to_i8(x.13), i16_to_i8(x.14),
            i16_to_i8(x.15),
        )
    }

    /// Every lane as `i8`, saturating: a lane outside the range of `i8` gives the nearest bound.
    pub fn to_char_sat(x: short16) -> (r: char16)
        ensures
            r == x.spec_to_char_sat(),
    {
        char16(
            i16_to_i8_sat(x.0), i16_to_i8_sat(x.1), i16_to_i8_sat(x.2), i16_to_i8_sat(x.3),
            i16_to_i8_sat(x.4), i16_to_i8_sat(x.5), i16_to_i8_sat(x.6), i16_to_i8_sat(x.7),
            i16_to_i8_sat(x.8), i16_to_i8_sat(x.9), i16_to_i8_sat(x.10), i16_to_i8_sat(x.11),
            i16_to_i8_sat(x.12), i16_to_i8_sat(x.13), i16_to_i8_sat(x.14), i16_to_i8_sat(x.15),
        )
    }

    /// Every lane as `u8`: its low 8 bits, read as `u8`.
    pub fn to_uchar(x: short16) -> (r: uchar16)
        ensures
            r == uchar16(
                i16_to_u8(x.0), i16_to_u8(x.1), i16_to_u8(x.2), i16_to_u8(x.3), i16_to_u8(x.4),
                i16_to_u8(x.5), i16_to_u8(x.6), i16_to_u8(x.7), i16_to_u8(x.8), i16_to_u8(x.9),
                i16_to_u8(x.10), i16_to_u8(x.11), i16_to_u8(x.12), i16_to_u8(x.13), i16_to_u8(x.14),
                i16_to_u8(x.15),
            ),
    {
        uchar16(
            i16_to_u8(x.0), i16_to_u8(x.1), i16_to_u8(x.2), i16_to_u8(x.3), i16_to_u8(x.4),
            i16_to_u8(x.5), i16_to_u8(x.6), i16_to_u8(x.7), i16_to_u8(x.8), i16_to_u8(x.9),
            i16_to_u8(x.10), i16_to_u8(x.11), i16_to_u8(x.12), i16_to_u8(x.13), i16_to_u8(x.14),
            i16_to_u8(x.15),
        )
    }

    /// Every lane as `u8`, saturating: a lane outside the range of `u8` gives the nearest bound.
    pub fn to_uchar_sat(x: short16) -> (r: uchar16)
        ensures
            r == x.spec_to_uchar_sat(),
    {
        uchar16(
            i16_to_u8_sat(x.0), i16_to_u8_sat(x.1), i16_to_u8_sat(x.2), i16_to_u8_sat(x.3),
            i16_to_u8_sat(x.4), i16_to_u8_sat(x.5), i16_to_u8_sat(x.6), i16_to_u8_sat(x.7),
            i16_to_u8_sat(x.8), i16_to_u8_sat(x.9), i16_to_u8_sat(x.10), i16_to_u8_sat(x.11),
            i16_to_u8_sat(x.12), i16_to_u8_sat(x.13), i16_to_u8_sat(x.14), i16_to_u8_sat(x.15),
        )
    }

    /// The vector itself: its lanes are `i16` already.
    pub fn to_short(x: short16) -> (r: short16)
        ensures
            r == x,
    {
        x
    }

    /// The vector itself: its lanes are `i16` already, and nothing saturates.
    pub fn to_short_sat(x: short16) -> (r: short16)
        ensures
            r == x.spec_to_short_sat(),
    {
        x
    }

    /// Every lane as `u16`: the same bits, read as `u16`.
    pub fn to_ushort(x: short16) -> (r: ushort16)
        ensures
            r == ushort16(
                i16_to_u16(x.0), i16_to_u16(x.1), i16_to_u16(x.2), i16_to_u16(x.3), i16_to_u16(x.4),
                i16_to_u16(x.5), i16_to_u16(x.6), i16_to_u16(x.7), i16_to_u16(x.8), i16_to_u16(x.9),
                i16_to_u16(x.10), i16_to_u16(x.11), i16_to_u16(x.12), i16_to_u16(x.13),
                i16_to_u16(x.14), i16_to_u16(x.15),
            ),
    {
        ushort16(
            i16_to_u16(x.0), i16_to_u16(x.1), i16_to_u16(x.2), i16_to_u16(x.3), i16_to_u16(x.4),
            i16_to_u16(x.5), i16_to_u16(x.6), i16_to_u16(x.7), i16_to_u16(x.8), i16_to_u16(x.9),
            i16_to_u16(x.10), i16_to_u16(x.11), i16_to_u16(x.12), i16_to_u16(x.13),
            i16_to_u16(x.14), i16_to_u16(x.15),
        )
    }

    /// Every lane as `u16`, saturating: a lane outside the range of `u16` gives the nearest bound.
    pub fn to_ushort_sat(x: short16) -> (r: ushort16)
        ensures
            r == x.spec_to_ushort_sat(),
    {
        ushort16(
            i16_to_u16_sat(x.0), i16_to_u16_sat(x.1), i16_to_u16_sat(x.2), i16_to_u16_sat(x.3),
            i16_to_u16_sat(x.4), i16_to_u16_sat(x.5), i16_to_u16_sat(x.6), i16_to_u16_sat(x.7),
            i16_to_u16_sat(x.8), i16_to_u16_sat(x.9), i16_to_u16_sat(x.10), i16_to_u16_sat(x.11),
            i16_to_u16_sat(x.12), i16_to_u16_sat(x.13), i16_to_u16_sat(x.14), i16_to_u16_sat(x.15),
        )
    }

    /// Every lane as `i32`, which holds every `i16`.
    pub fn to_int(x: short16) -> (r: int16)
        ensures
            r == int16(
                i16_to_i32(x.0), i16_to_i32(x.1), i16_to_i32(x.2), i16_to_i32(x.3), i16_to_i32(x.4),
                i16_to_i32(x.5), i16_to_i32(x.6), i16_to_i32(x.7), i16_to_i32(x.8), i16_to_i32(x.9),
                i16_to_i32(x.10), i16_to_i32(x.11), i16_to_i32(x.12), i16_to_i32(x.13),
                i16_to_i32(x.14), i16_to_i32(x.15),
            ),
    {
        int16(
            i16_to_i32(x.0), i16_to_i32(x.1), i16_to_i32(x.2), i16_to_i32(x.3), i16_to_i32(x.4),
            i16_to_i32(x.5), i16_to_i32(x.6), i16_to_i32(x.7), i16_to_i32(x.8), i16_to_i32(x.9),
            i16_to_i32(x.10), i16_to_i32(x.11), i16_to_i32(x.12), i16_to_i32(x.13),
            i16_to_i32(x.14), i16_to_i32(x.15),
        )
    }

    /// Every lane as `i32`, saturating; nothing saturates, since `i32` holds every `i16`.
    pub fn to_int_sat(x: short16) -> (r: int16)
        ensures
            r == x.spec_to_int_sat(),
    {
        int16(
            i16_to_i32_sat(x.0), i16_to_i32_sat(x.1), i16_to_i32_sat(x.2), i16_to_i32_sat(x.3),
            i16_to_i32_sat(x.4), i16_to_i32_sat(x.5), i16_to_i32_sat(x.6), i16_to_i32_sat(x.7),
            i16_to_i32_sat(x.8), i16_to_i32_sat(x.9), i16_to_i32_sat(x.10), i16_to_i32_sat(x.11),
            i16_to_i32_sat(x.12), i16_to_i32_sat(x.13), i16_to_i32_sat(x.14), i16_to_i32_sat(x.15),
        )
    }

    /// Every lane as `u32`, sign-extended: a negative lane wraps around.
    pub fn to_uint(x: short16) -> (r: uint16)
        ensures
            r == uint16(
                i16_to_u32(x.0), i16_to_u32(x.1), i16_to_u32(x.2), i16_to_u32(x.3), i16_to_u32(x.4),
                i16_to_u32(x.5), i16_to_u32(x.6), i16_to_u32(x.7), i16_to_u32(x.8), i16_to_u32(x.9),
                i16_to_u32(x.10), i16_to_u32(x.11), i16_to_u32(x.12), i16_to_u32(x.13),
                i16_to_u32(x.14), i16_to_u32(x.15),
            ),
    {
        uint16(
            i16_to_u32(x.0), i16_to_u32(x.1), i16_to_u32(x.2), i16_to_u32(x.3), i16_to_u32(x.4),
            i16_to_u32(x.5), i16_to_u32(x.6), i16_to_u32(x.7), i16_to_u32(x.8), i16_to_u32(x.9),
            i16_to_u32(x.10), i16_to_u32(x.11), i16_to_u32(x.12), i16_to_u32(x.13),
            i16_to_u32(x.14), i16_to_u32(x.15),
        )
    }

    /// Every lane as `u32`, saturating: a lane outside the range of `u32` gives the nearest bound.
    pub fn to_uint_sat(x: short16) -> (r: uint16)
        ensures
            r == x.spec_to_uint_sat(),
    {
        uint16(
            i16_to_u32_sat(x.0), i16_to_u32_sat(x.1), i16_to_u32_sat(x.2), i16_to_u32_sat(x.3),
            i16_to_u32_sat(x.4), i16_to_u32_sat(x.5), i16_to_u32_sat(x.6), i16_to_u32_sat(x.7),
            i16_to_u32_sat(x.8), i16_to_u32_sat(x.9), i16_to_u32_sat(x.10), i16_to_u32_sat(x.11),
            i16_to_u32_sat(x.12), i16_to_u32_sat(x.13), i16_to_u32_sat(x.14), i16_to_u32_sat(x.15),
        )
    }

    /// Every lane as `i64`, which holds every `i16`.
    pub fn to_long(x: short16) -> (r: long16)
        ensures
            r == long16(
                i16_to_i64(x.0), i16_to_i64(x.1), i16_to_i64(x.2), i16_to_i64(x.3), i16_to_i64(x.4),
                i16_to_i64(x.5), i16_to_i64(x.6), i16_to_i64(x.7), i16_to_i64(x.8), i16_to_i64(x.9),
                i16_to_i64(x.10), i16_to_i64(x.11), i16_to_i64(x.12), i16_to_i64(x.13),
                i16_to_i64(x.14), i16_to_i64(x.15),
            ),
    {
        long16(
            i16_to_i64(x.0), i16_to_i64(x.1), i16_to_i64(x.2), i16_to_i64(x.3), i16_to_i64(x.4),
            i16_to_i64(x.5), i16_to_i64(x.6), i16_to_i64(x.7), i16_to_i64(x.8), i16_to_i64(x.9),
            i16_to_i64(x.10), i16_to_i64(x.11), i16_to_i64(x.12), i16_to_i64(x.13),
            i16_to_i64(x.14), i16_to_i64(x.15),
        )
    }

    /// Every lane as `i64`, saturating; nothing saturates, since `i64` holds every `i16`.
    pub fn to_long_sat(x: short16) -> (r: long16)
        ensures
            r == x.spec_to_long_sat(),
    {
        long16(
            i16_to_i64_sat(x.0), i16_to_i64_sat(x.1), i16_to_i64_sat(x.2), i16_to_i64_sat(x.3),
            i16_to_i64_sat(x.4), i16_to_i64_sat(x.5), i16_to_i64_sat(x.6), i16_to_i64_sat(x.7),
            i16_to_i64_sat(x.8), i16_to_i64_sat(x.9), i16_to_i64_sat(x.10), i16_to_i64_sat(x.11),
            i16_to_i64_sat(x.12), i16_to_i64_sat(x.13), i16_to_i64_sat(x.14), i16_to_i64_sat(x.15),
        )
    }

    /// Every lane as `u64`, sign-extended: a negative lane wraps around.
    pub fn to_ulong(x: short16) -> (r: ulong16)
        ensures
            r == ulong16(
                i16_to_u64(x.0), i16_to_u64(x.1), i16_to_u64(x.2), i16_to_u64(x.3), i16_to_u64(x.4),
                i16_to_u64(x.5), i16_to_u64(x.6), i16_to_u64(x.7), i16_to_u64(x.8), i16_to_u64(x.9),
                i16_to_u64(x.10), i16_to_u64(x.11), i16_to_u64(x.12), i16_to_u64(x.13),
                i16_to_u64(x.14), i16_to_u64(x.15),
            ),
    {
        ulong16(
            i16_to_u64(x.0), i16_to_u64(x.1), i16_to_u64(x.2), i16_to_u64(x.3), i16_to_u64(x.4),
            i16_to_u64(x.5), i16_to_u64(x.6), i16_to_u64(x.7), i16_to_u64(x.8), i16_to_u64(x.9),
            i16_to_u64(x.10), i16_to_u64(x.11), i16_to_u64(x.12), i16_to_u64(x.13),
            i16_to_u64(x.14), i16_to_u64(x.15),
        )
    }

    /// Every lane as `u64`, saturating: a lane outside the range of `u64` gives the nearest bound.
    pub fn to_ulong_sat(x: short16) -> (r: ulong16)
        ensures
            r == x.spec_to_ulong_sat(),
    {
        ulong16(
            i16_to_u64_sat(x.0), i16_to_u64_sat(x.1), i16_to_u64_sat(x.2), i16_to_u64_sat(x.3),
            i16_to_u64_sat(x.4), i16_to_u64_sat(x.5), i16_to_u64_sat(x.6), i16_to_u64_sat(x.7),
            i16_to_u64_sat(x.8), i16_to_u64_sat(x.9), i16_to_u64_sat(x.10), i16_to_u64_sat(x.11),
            i16_to_u64_sat(x.12), i16_to_u64_sat(x.13), i16_to_u64_sat(x.14), i16_to_u64_sat(x.15),
        )
    }

    /// The low half: lanes 0 to 7.
    pub fn lo(self) -> (r: short8)
        ensures
            r == short8(self.0, self.1, self.2, self.3, self.4, self.5, self.6, self.7),
    {
        short8(self.0, self.1, self.2, self.3, self.4, self.5, self.6, self.7)
    }

    /// The high half: lanes 8 to 15.
    pub fn hi(self) -> (r: short8)
        ensures
            r == short8(self.8, self.9, self.10, self.11, self.12, self.13, self.14, self.15),
    {
        short8(self.8, self.9, self.10, self.11, self.12, self.13, self.14, self.15)
    }

    /// The odd lanes: lanes 1, 3 and so on.
    pub fn odd(self) -> (r: short8)
        ensures
            r == short8(self.1, self.3, self.5, self.7, self.9, self.11, self.13, self.15),
    {
        short8(self.1, self.3, self.5, self.7, self.9, self.11, self.13, self.15)
    }

    /// The even lanes: lanes 0, 2 and so on.
    pub fn even(self) -> (r: short8)
        ensures
            r == short8(self.0, self.2, self.4, self.6, self.8, self.10, self.12, self.14),
    {
        short8(self.0, self.2, self.4, self.6, self.8, self.10, self.12, self.14)
    }

    /// The vector of `f` applied to every lane. `f` accepts every lane.
    pub fn map_unary<F: Fn(i16) -> i16>(self, f: F) -> (r: short16)
        requires
            call_requires(f, (self.0,)),
            call_requires(f, (self.1,)),
            call_requires(f, (self.2,)),
            call_requires(f, (self.3,)),
            call_requires(f, (self.4,)),
            call_requires(f, (self.5,)),
            call_requires(f, (self.6,)),
            call_requires(f, (self.7,)),
            call_requires(f, (self.8,)),
            call_requires(f, (self.9,)),
            call_requires(f, (self.10,)),
            call_requires(f, (self.11,)),
            call_requires(f, (self.12,)),
            call_requires(f, (self.13,)),
            call_requires(f, (self.14,)),
            call_requires(f, (self.15,)),
        ensures
            call_ensures(f, (self.0,), r.0),
            call_ensures(f, (self.1,), r.1),
            call_ensures(f, (self.2,), r.2),
            call_ensures(f, (self.3,), r.3),
            call_ensures(f, (self.4,), r.4),
            call_ensures(f, (self.5,), r.5),
            call_ensures(f, (self.6,), r.6),
            call_ensures(f, (self.7,), r.7),
            call_ensures(f, (self.8,), r.8),
            call_ensures(f, (self.9,), r.9),
            call_ensures(f, (self.10,), r.10),
            call_ensures(f, (self.11,), r.11),
            call_ensures(f, (self.12,), r.12),
            call_ensures(f, (self.13,), r.13),
            call_ensures(f, (self.14,), r.14),
            call_ensures(f, (self.15,), r.15),
    {
        short16(
            f(self.0), f(self.1), f(self.2), f(self.3), f(self.4), f(self.5), f(self.6), f(self.7),
            f(self.8), f(self.9), f(self.10), f(self.11), f(self.12), f(self.13), f(self.14),
            f(self.15),
        )
    }

    /// The vector of `f` applied to the lanes of the two vectors, lane by lane. `f` accepts every
    /// such pair of lanes.
    pub fn map_binary<F: Fn(i16, i16) -> i16>(self, other: short16, f: F) -> (r: short16)
        requires
            call_requires(f, (self.0, other.0)),
            call_requires(f, (self.1, other.1)),
            call_requires(f, (self.2, other.2)),
            call_requires(f, (self.3, other.3)),
            call_requires(f, (self.4, other.4)),
            call_requires(f, (self.5, other.5)),
            call_requires(f, (self.6, other.6)),
            call_requires(f, (self.7, other.7)),
            call_requires(f, (self.8, other.8)),
            call_requires(f, (self.9, other.9)),
            call_requires(f, (self.10, other.10)),
            call_requires(f, (self.11, other.11)),
            call_requires(f, (self.12, other.12)),
            call_requires(f, (self.13, other.13)),
            call_requires(f, (self.14, other.14)),
            call_requires(f, (self.15, other.15)),
        ensures
            call_ensures(f, (self.0, other.0), r.0),
            call_ensures(f, (self.1, other.1), r.1),
            call_ensures(f, (self.2, other.2), r.2),
            call_ensures(f, (self.3, other.3), r.3),
            call_ensures(f, (self.4, other.4), r.4),
            call_ensures(f, (self.5, other.5), r.5),
            call_ensures(f, (self.6, other.6), r.6),
            call_ensures(f, (self.7, other.7), r.7),
            call_ensures(f, (self.8, other.8), r.8),
            call_ensures(f, (self.9, other.9), r.9),
            call_ensures(f, (self.10, other.10), r.10),
            call_ensures(f, (self.11, other.11), r.11),
            call_ensures(f, (self.12, other.12), r.12),
            call_ensures(f, (self.13, other.13), r.13),
            call_ensures(f, (self.14, other.14), r.14),
            call_ensures(f, (self.15, other.15), r.15),
    {
        short16(
            f(self.0, other.0), f(self.1, other.1), f(self.2, other.2), f(self.3, other.3),
            f(self.4, other.4), f(self.5, other.5), f(self.6, other.6), f(self.7, other.7),
            f(self.8, other.8), f(self.9, other.9), f(self.10, other.10), f(self.11, other.11),
            f(self.12, other.12), f(self.13, other.13), f(self.14, other.14), f(self.15, other.15),
        )
    }

    /// The lanes folded by `f`, from lane 0 upward: `f` is applied to lane 1 and lane 0, then to
    /// each further lane and what the lanes below it gave. `f` accepts every pair of scalars.
    pub fn reduce<F: Fn(i16, i16) -> i16>(self, f: F) -> (r: i16)
        requires
            forall|a: i16, b: i16| call_requires(f, (a, b)),
        ensures
            exists|
                s1: i16, s2: i16, s3: i16, s4: i16, s5: i16, s6: i16, s7: i16, s8: i16, s9: i16,
                s10: i16, s11: i16, s12: i16, s13: i16, s14: i16,
            |
                call_ensures(f, (self.1, self.0), s1)
                    && call_ensures(f, (self.2, s1), s2)
                    && call_ensures(f, (self.3, s2), s3)
                    && call_ensures(f, (self.4, s3), s4)
                    && call_ensures(f, (self.5, s4), s5)
                    && call_ensures(f, (self.6, s5), s6)
                    && call_ensures(f, (self.7, s6), s7)
                    && call_ensures(f, (self.8, s7), s8)
                    && call_ensures(f, (self.9, s8), s9)
                    && call_ensures(f, (self.10, s9), s10)
                    && call_ensures(f, (self.11, s10), s11)
                    && call_ensures(f, (self.12, s11), s12)
                    && call_ensures(f, (self.13, s12), s13)
                    && call_ensures(f, (self.14, s13), s14)
                    && call_ensures(f, (self.15, s14), r),
    {
        let s1 = f(self.1, self.0);
        let s2 = f(self.2, s1);
        let s3 = f(self.3, s2);
        let s4 = f(self.4, s3);
        let s5 = f(self.5, s4);
        let s6 = f(self.6, s5);
        let s7 = f(self.7, s6);
        let s8 = f(self.8, s7);
        let s9 = f(self.9, s8);
        let s10 = f(self.10, s9);
        let s11 = f(self.11, s10);
        let s12 = f(self.12, s11);
        let s13 = f(self.13, s12);
        let s14 = f(self.14, s13);
        let s15 = f(self.15, s14);
        s15
    }

    /// Addition commutes.
    pub proof fn lemma_add_commutes(x: short16, y: short16)
        ensures
            AddSpec::add_spec(x, y) == AddSpec::add_spec(y, x),
    {
        lemma_arith_i16(x.0, y.0, 0);
        lemma_arith_i16(x.1, y.1, 0);
        lemma_arith_i16(x.2, y.2, 0);
        lemma_arith_i16(x.3, y.3, 0);
        lemma_arith_i16(x.4, y.4, 0);
        lemma_arith_i16(x.5, y.5, 0);
        lemma_arith_i16(x.6, y.6, 0);
        lemma_arith_i16(x.7, y.7, 0);
        lemma_arith_i16(x.8, y.8, 0);
        lemma_arith_i16(x.9, y.9, 0);
        lemma_arith_i16(x.10, y.10, 0);
        lemma_arith_i16(x.11, y.11, 0);
        lemma_arith_i16(x.12, y.12, 0);
        lemma_arith_i16(x.13, y.13, 0);
        lemma_arith_i16(x.14, y.14, 0);
        lemma_arith_i16(x.15, y.15, 0);
    }

    /// Addition associates, wrap-around or not.
    pub proof fn lemma_add_associates(x: short16, y: short16, z: short16)
        ensures
            AddSpec::add_spec(AddSpec::add_spec(x, y), z)
                == AddSpec::add_spec(x, AddSpec::add_spec(y, z)),
    {
        lemma_arith_i16(x.0, y.0, z.0);
        lemma_arith_i16(x.1, y.1, z.1);
        lemma_arith_i16(x.2, y.2, z.2);
        lemma_arith_i16(x.3, y.3, z.3);
        lemma_arith_i16(x.4, y.4, z.4);
        lemma_arith_i16(x.5, y.5, z.5);
        lemma_arith_i16(x.6, y.6, z.6);
        lemma_arith_i16(x.7, y.7, z.7);
        lemma_arith_i16(x.8, y.8, z.8);
        lemma_arith_i16(x.9, y.9, z.9);
        lemma_arith_i16(x.10, y.10, z.10);
        lemma_arith_i16(x.11, y.11, z.11);
        lemma_arith_i16(x.12, y.12, z.12);
        lemma_arith_i16(x.13, y.13, z.13);
        lemma_arith_i16(x.14, y.14, z.14);
        lemma_arith_i16(x.15, y.15, z.15);
    }

    /// Swapping the operands of a subtraction negates the difference.
    pub proof fn lemma_sub_swaps(x: short16, y: short16)
        ensures
            SubSpec::sub_spec(x, y) == NegSpec::neg_spec(SubSpec::sub_spec(y, x)),
    {
        lemma_arith_i16(x.0, y.0, 0);
        lemma_arith_i16(x.1, y.1, 0);
        lemma_arith_i16(x.2, y.2, 0);
        lemma_arith_i16(x.3, y.3, 0);
        lemma_arith_i16(x.4, y.4, 0);
        lemma_arith_i16(x.5, y.5, 0);
        lemma_arith_i16(x.6, y.6, 0);
        lemma_arith_i16(x.7, y.7, 0);
        lemma_arith_i16(x.8, y.8, 0);
        lemma_arith_i16(x.9, y.9, 0);
        lemma_arith_i16(x.10, y.10, 0);
        lemma_arith_i16(x.11, y.11, 0);
        lemma_arith_i16(x.12, y.12, 0);
        lemma_arith_i16(x.13, y.13, 0);
        lemma_arith_i16(x.14, y.14, 0);
        lemma_arith_i16(x.15, y.15, 0);
    }

    /// The magnitude of a magnitude is that magnitude, and the magnitude of a lane other than
    /// `i16::MIN` is not negative.
    pub proof fn lemma_abs(x: short16)
        ensures
            x.spec_abs().spec_abs() == x.spec_abs(),
            forall|i: int|
                0 <= i < 16 && x.lane(i) != i16::MIN ==> #[trigger] x.spec_abs().lane(i) >= 0,
            forall|i: int|
                0 <= i < 16 && x.lane(i) == i16::MIN ==>
                    #[trigger] x.spec_abs().lane(i) == i16::MIN,
    {
        lemma_abs_i16(x.0);
        lemma_abs_i16(x.1);
        lemma_abs_i16(x.2);
        lemma_abs_i16(x.3);
        lemma_abs_i16(x.4);
        lemma_abs_i16(x.5);
        lemma_abs_i16(x.6);
        lemma_abs_i16(x.7);
        lemma_abs_i16(x.8);
        lemma_abs_i16(x.9);
        lemma_abs_i16(x.10);
        lemma_abs_i16(x.11);
        lemma_abs_i16(x.12);
        lemma_abs_i16(x.13);
        lemma_abs_i16(x.14);
        lemma_abs_i16(x.15);
    }

    /// Flipping every bit of a lane gives minus one minus the lane.
    pub proof fn lemma_not(x: short16)
        ensures
            forall|i: int|
                0 <= i < 16 ==> #[trigger] NotSpec::not_spec(x).lane(i) == -1 - x.lane(i),
    {
        lemma_not_i16(x.0);
        lemma_not_i16(x.1);
        lemma_not_i16(x.2);
        lemma_not_i16(x.3);
        lemma_not_i16(x.4);
        lemma_not_i16(x.5);
        lemma_not_i16(x.6);
        lemma_not_i16(x.7);
        lemma_not_i16(x.8);
        lemma_not_i16(x.9);
        lemma_not_i16(x.10);
        lemma_not_i16(x.11);
        lemma_not_i16(x.12);
        lemma_not_i16(x.13);
        lemma_not_i16(x.14);
        lemma_not_i16(x.15);
    }

    /// The lanes of a vector with `k` in every lane add up to 16 times `k`, wrapped around.
    pub proof fn lemma_reduce_add_broadcast(k: i16)
        ensures
            short16(k, k, k, k, k, k, k, k, k, k, k, k, k, k, k, k).spec_reduce_add()
                == wrap_i16(16 * k),
    {
    }

    /// Saturating conversion to `i8` gives, lane by lane, the lane itself where `i8` holds it and
    /// the nearest bound of `i8` where it does not.
    pub proof fn lemma_to_char_sat(x: short16)
        ensures
            forall|i: int|
                0 <= i < 16 ==> #[trigger] x.spec_to_char_sat().lane(i) == sat_i8(x.lane(i) as int),
    {
    }

    /// Saturating conversion to `u8` gives, lane by lane, the lane itself where `u8` holds it and
    /// the nearest bound of `u8` where it does not.
    pub proof fn lemma_to_uchar_sat(x: short16)
        ensures
            forall|i: int|
                0 <= i < 16 ==>
                    #[trigger] x.spec_to_uchar_sat().lane(i) == sat_u8(x.lane(i) as int),
    {
    }

    /// Saturating conversion to `u16` gives, lane by lane, the lane itself where `u16` holds it and
    /// the nearest bound of `u16` where it does not.
    pub proof fn lemma_to_ushort_sat(x: short16)
        ensures
            forall|i: int|
                0 <= i < 16 ==>
                    #[trigger] x.spec_to_ushort_sat().lane(i) == sat_u16(x.lane(i) as int),
    {
    }

    /// Saturating conversion to `i32` gives every lane unchanged: `i32` holds every `i16`.
    pub proof fn lemma_to_int_sat(x: short16)
        ensures
            forall|i: int|
                0 <= i < 16 ==> #[trigger] x.spec_to_int_sat().lane(i) == sat_i32(x.lane(i) as int),
            forall|i: int| 0 <= i < 16 ==> #[trigger] x.spec_to_int_sat().lane(i) == x.lane(i),
    {
    }

    /// Saturating conversion to `u32` gives, lane by lane, the lane itself where `u32` holds it and
    /// the nearest bound of `u32` where it does not.
    pub proof fn lemma_to_uint_sat(x: short16)
        ensures
            forall|i: int|
                0 <= i < 16 ==>
                    #[trigger] x.spec_to_uint_sat().lane(i) == sat_u32(x.lane(i) as int),
    {
    }

    /// Saturating conversion to `i64` gives every lane unchanged: `i64` holds every `i16`.
    pub proof fn lemma_to_long_sat(x: short16)
        ensures
            forall|i: int|
                0 <= i < 16 ==>
                    #[trigger] x.spec_to_long_sat().lane(i) == sat_i64(x.lane(i) as int),
            forall|i: int| 0 <= i < 16 ==> #[trigger] x.spec_to_long_sat().lane(i) == x.lane(i),
    {
    }

    /// Saturating conversion to `u64` gives, lane by lane, the lane itself where `u64` holds it and
    /// the nearest bound of `u64` where it does not.
    pub proof fn lemma_to_ulong_sat(x: short16)
        ensures
            forall|i: int|
                0 <= i < 16 ==>
                    #[trigger] x.spec_to_ulong_sat().lane(i) == sat_u64(x.lane(i) as int),
    {
    }
}

impl Vector for short16 {
    type Scalar = i16;

    type Boolean = short16;

    type CharVector = char16;

    type ShortVector = short16;

    type IntVector = int16;

    type LongVector = long16;

    type UCharVector = uchar16;

    type UShortVector = ushort16;

    type UIntVector = uint16;

    type ULongVector = ulong16;

    type FloatVector = float16;

    type DoubleVector = double16;

    open spec fn spec_abs(self) -> short16 {
        short16(
            abs_i16(self.0), abs_i16(self.1), abs_i16(self.2), abs_i16(self.3), abs_i16(self.4),
            abs_i16(self.5), abs_i16(self.6), abs_i16(self.7), abs_i16(self.8), abs_i16(self.9),
            abs_i16(self.10), abs_i16(self.11), abs_i16(self.12), abs_i16(self.13),
            abs_i16(self.14), abs_i16(self.15),
        )
    }

    open spec fn spec_max(self, other: short16) -> short16 {
        short16(
            max_i16(self.0, other.0), max_i16(self.1, other.1), max_i16(self.2, other.2),
            max_i16(self.3, other.3), max_i16(self.4, other.4), max_i16(self.5, other.5),
            max_i16(self.6, other.6), max_i16(self.7, other.7), max_i16(self.8, other.8),
            max_i16(self.9, other.9), max_i16(self.10, other.10), max_i16(self.11, other.11),
            max_i16(self.12, other.12), max_i16(self.13, other.13), max_i16(self.14, other.14),
            max_i16(self.15, other.15),
        )
    }

    open spec fn spec_min(self, other: short16) -> short16 {
        short16(
            min_i16(self.0, other.0), min_i16(self.1, other.1), min_i16(self.2, other.2),
            min_i16(self.3, other.3), min_i16(self.4, other.4), min_i16(self.5, other.5),
            min_i16(self.6, other.6), min_i16(self.7, other.7), min_i16(self.8, other.8),
            min_i16(self.9, other.9), min_i16(self.10, other.10), min_i16(self.11, other.11),
            min_i16(self.12, other.12), min_i16(self.13, other.13), min_i16(self.14, other.14),
            min_i16(self.15, other.15),
        )
    }

    open spec fn spec_clamp(self, lo: short16, hi: short16) -> short16 {
        short16(
            clamp_i16(self.0, lo.0, hi.0), clamp_i16(self.1, lo.1, hi.1),
            clamp_i16(self.2, lo.2, hi.2), clamp_i16(self.3, lo.3, hi.3),
            clamp_i16(self.4, lo.4, hi.4), clamp_i16(self.5, lo.5, hi.5),
            clamp_i16(self.6, lo.6, hi.6), clamp_i16(self.7, lo.7, hi.7),
            clamp_i16(self.8, lo.8, hi.8), clamp_i16(self.9, lo.9, hi.9),
            clamp_i16(self.10, lo.10, hi.10), clamp_i16(self.11, lo.11, hi.11),
            clamp_i16(self.12, lo.12, hi.12), clamp_i16(self.13, lo.13, hi.13),
            clamp_i16(self.14, lo.14, hi.14), clamp_i16(self.15, lo.15, hi.15),
        )
    }

    open spec fn spec_reduce_add(self) -> i16 {
        wrap_i16(
            self.0 + self.1 + self.2 + self.3 + self.4 + self.5 + self.6 + self.7 + self.8 + self.9
                + self.10 + self.11 + self.12 + self.13 + self.14 + self.15
        )
    }

    open spec fn spec_reduce_min(self) -> i16 {
        let s = min_i16(self.0, self.1);
        let s = min_i16(s, self.2);
        let s = min_i16(s, self.3);
        let s = min_i16(s, self.4);
        let s = min_i16(s, self.5);
        let s = min_i16(s, self.6);
        let s = min_i16(s, self.7);
        let s = min_i16(s, self.8);
        let s = min_i16(s, self.9);
        let s = min_i16(s, self.10);
        let s = min_i16(s, self.11);
        let s = min_i16(s, self.12);
        let s = min_i16(s, self.13);
        let s = min_i16(s, self.14);
        let s = min_i16(s, self.15);
        s
    }

    open spec fn spec_reduce_max(self) -> i16 {
        let s = max_i16(self.0, self.1);
        let s = max_i16(s, self.2);
        let s = max_i16(s, self.3);
        let s = max_i16(s, self.4);
        let s = max_i16(s, self.5);
        let s = max_i16(s, self.6);
        let s = max_i16(s, self.7);
        let s = max_i16(s, self.8);
        let s = max_i16(s, self.9);
        let s = max_i16(s, self.10);
        let s = max_i16(s, self.11);
        let s = max_i16(s, self.12);
        let s = max_i16(s, self.13);
        let s = max_i16(s, self.14);
        let s = max_i16(s, self.15);
        s
    }

    open spec fn spec_to_char_sat(self) -> char16 {
        char16(
            i16_to_i8_sat(self.0), i16_to_i8_sat(self.1), i16_to_i8_sat(self.2),
            i16_to_i8_sat(self.3), i16_to_i8_sat(self.4), i16_to_i8_sat(self.5),
            i16_to_i8_sat(self.6), i16_to_i8_sat(self.7), i16_to_i8_sat(self.8),
            i16_to_i8_sat(self.9), i16_to_i8_sat(self.10), i16_to_i8_sat(self.11),
            i16_to_i8_sat(self.12), i16_to_i8_sat(self.13), i16_to_i8_sat(self.14),
            i16_to_i8_sat(self.15),
        )
    }

    open spec fn spec_to_uchar_sat(self) -> uchar16 {
        uchar16(
            i16_to_u8_sat(self.0), i16_to_u8_sat(self.1), i16_to_u8_sat(self.2),
            i16_to_u8_sat(self.3), i16_to_u8_sat(self.4), i16_to_u8_sat(self.5),
            i16_to_u8_sat(self.6), i16_to_u8_sat(self.7), i16_to_u8_sat(self.8),
            i16_to_u8_sat(self.9), i16_to_u8_sat(self.10), i16_to_u8_sat(self.11),
            i16_to_u8_sat(self.12), i16_to_u8_sat(self.13), i16_to_u8_sat(self.14),
            i16_to_u8_sat(self.15),
        )
    }

    open spec fn spec_to_short_sat(self) -> short16 {
        self
    }

    open spec fn spec_to_ushort_sat(self) -> ushort16 {
        ushort16(
            i16_to_u16_sat(self.0), i16_to_u16_sat(self.1), i16_to_u16_sat(self.2),
            i16_to_u16_sat(self.3), i16_to_u16_sat(self.4), i16_to_u16_sat(self.5),
            i16_to_u16_sat(self.6), i16_to_u16_sat(self.7), i16_to_u16_sat(self.8),
            i16_to_u16_sat(self.9), i16_to_u16_sat(self.10), i16_to_u16_sat(self.11),
            i16_to_u16_sat(self.12), i16_to_u16_sat(self.13), i16_to_u16_sat(self.14),
            i16_to_u16_sat(self.15),
        )
    }

    open spec fn spec_to_int_sat(self) -> int16 {
        int16(
            i16_to_i32_sat(self.0), i16_to_i32_sat(self.1), i16_to_i32_sat(self.2),
            i16_to_i32_sat(self.3), i16_to_i32_sat(self.4), i16_to_i32_sat(self.5),
            i16_to_i32_sat(self.6), i16_to_i32_sat(self.7), i16_to_i32_sat(self.8),
            i16_to_i32_sat(self.9), i16_to_i32_sat(self.10), i16_to_i32_sat(self.11),
            i16_to_i32_sat(self.12), i16_to_i32_sat(self.13), i16_to_i32_sat(self.14),
            i16_to_i32_sat(self.15),
        )
    }

    open spec fn spec_to_uint_sat(self) -> uint16 {
        uint16(
            i16_to_u32_sat(self.0), i16_to_u32_sat(self.1), i16_to_u32_sat(self.2),
            i16_to_u32_sat(self.3), i16_to_u32_sat(self.4), i16_to_u32_sat(self.5),
            i16_to_u32_sat(self.6), i16_to_u32_sat(self.7), i16_to_u32_sat(self.8),
            i16_to_u32_sat(self.9), i16_to_u32_sat(self.10), i16_to_u32_sat(self.11),
            i16_to_u32_sat(self.12), i16_to_u32_sat(self.13), i16_to_u32_sat(self.14),
            i16_to_u32_sat(self.15),
        )
    }

    open spec fn spec_to_long_sat(self) -> long16 {
        long16(
            i16_to_i64_sat(self.0), i16_to_i64_sat(self.1), i16_to_i64_sat(self.2),
            i16_to_i64_sat(self.3), i16_to_i64_sat(self.4), i16_to_i64_sat(self.5),
            i16_to_i64_sat(self.6), i16_to_i64_sat(self.7), i16_to_i64_sat(self.8),
            i16_to_i64_sat(self.9), i16_to_i64_sat(self.10), i16_to_i64_sat(self.11),
            i16_to_i64_sat(self.12), i16_to_i64_sat(self.13), i16_to_i64_sat(self.14),
            i16_to_i64_sat(self.15),
        )
    }

    open spec fn spec_to_ulong_sat(self) -> ulong16 {
        ulong16(
            i16_to_u64_sat(self.0), i16_to_u64_sat(self.1), i16_to_u64_sat(self.2),
            i16_to_u64_sat(self.3), i16_to_u64_sat(self.4), i16_to_u64_sat(self.5),
            i16_to_u64_sat(self.6), i16_to_u64_sat(self.7), i16_to_u64_sat(self.8),
            i16_to_u64_sat(self.9), i16_to_u64_sat(self.10), i16_to_u64_sat(self.11),
            i16_to_u64_sat(self.12), i16_to_u64_sat(self.13), i16_to_u64_sat(self.14),
            i16_to_u64_sat(self.15),
        )
    }

    fn abs(self) -> (r: short16) {
        short16::abs(self)
    }

    fn max(self, other: short16) -> (r: short16) {
        short16::max(self, other)
    }

    fn min(self, other: short16) -> (r: short16) {
        short16::min(self, other)
    }

    fn clamp(self, lo: short16, hi: short16) -> (r: short16) {
        short16::clamp(self, lo, hi)
    }

    fn reduce_add(self) -> (r: i16) {
        short16::reduce_add(self)
    }

    fn reduce_min(self) -> (r: i16) {
        short16::reduce_min(self)
    }

    fn reduce_max(self) -> (r: i16) {
        short16::reduce_max(self)
    }

    fn to_char_sat(self) -> (r: char16) {
        short16::to_char_sat(self)
    }

    fn to_uchar_sat(self) -> (r: uchar16) {
        short16::to_uchar_sat(self)
    }

    fn to_short_sat(self) -> (r: short16) {
        short16::to_short_sat(self)
    }

    fn to_ushort_sat(self) -> (r: ushort16) {
        short16::to_ushort_sat(self)
    }

    fn to_int_sat(self) -> (r: int16) {
        short16::to_int_sat(self)
    }

    fn to_uint_sat(self) -> (r: uint16) {
        short16::to_uint_sat(self)
    }

    fn to_long_sat(self) -> (r: long16) {
        short16::to_long_sat(self)
    }

    fn to_ulong_sat(self) -> (r: ulong16) {
        short16::to_ulong_sat(self)
    }
}

impl Integer for short16 {
    open spec fn spec_reduce_and(self) -> i16 {
        self.0 & self.1 & self.2 & self.3 & self.4 & self.5 & self.6 & self.7 & self.8 & self.9
            & self.10 & self.11 & self.12 & self.13 & self.14 & self.15
    }

    open spec fn spec_reduce_or(self) -> i16 {
        self.0 | self.1 | self.2 | self.3 | self.4 | self.5 | self.6 | self.7 | self.8 | self.9
            | self.10 | self.11 | self.12 | self.13 | self.14 | self.15
    }

    open spec fn spec_reduce_xor(self) -> i16 {
        self.0 ^ self.1 ^ self.2 ^ self.3 ^ self.4 ^ self.5 ^ self.6 ^ self.7 ^ self.8 ^ self.9
            ^ self.10 ^ self.11 ^ self.12 ^ self.13 ^ self.14 ^ self.15
    }

    open spec fn spec_all(self) -> bool {
        truth_i16(self.0) && truth_i16(self.1) && truth_i16(self.2) && truth_i16(self.3)
            && truth_i16(self.4) && truth_i16(self.5) && truth_i16(self.6) && truth_i16(self.7)
            && truth_i16(self.8) && truth_i16(self.9) && truth_i16(self.10) && truth_i16(self.11)
            && truth_i16(self.12) && truth_i16(self.13) && truth_i16(self.14) && truth_i16(self.15)
    }

    open spec fn spec_any(self) -> bool {
        truth_i16(self.0) || truth_i16(self.1) || truth_i16(self.2) || truth_i16(self.3)
            || truth_i16(self.4) || truth_i16(self.5) || truth_i16(self.6) || truth_i16(self.7)
            || truth_i16(self.8) || truth_i16(self.9) || truth_i16(self.10) || truth_i16(self.11)
            || truth_i16(self.12) || truth_i16(self.13) || truth_i16(self.14) || truth_i16(self.15)
    }

    fn reduce_and(self) -> (r: i16) {
        self.0 & self.1 & self.2 & self.3 & self.4 & self.5 & self.6 & self.7 & self.8 & self.9
            & self.10 & self.11 & self.12 & self.13 & self.14 & self.15
    }

    fn reduce_or(self) -> (r: i16) {
        self.0 | self.1 | self.2 | self.3 | self.4 | self.5 | self.6 | self.7 | self.8 | self.9
            | self.10 | self.11 | self.12 | self.13 | self.14 | self.15
    }

    fn reduce_xor(self) -> (r: i16) {
        self.0 ^ self.1 ^ self.2 ^ self.3 ^ self.4 ^ self.5 ^ self.6 ^ self.7 ^ self.8 ^ self.9
            ^ self.10 ^ self.11 ^ self.12 ^ self.13 ^ self.14 ^ self.15
    }

    fn all(self) -> (r: bool) {
        proof {
            let s = self.0 & self.1;
            lemma_bits_i16(self.0, self.1, 0, 0);
            lemma_bits_i16(s, self.2, 0, 0);
            let s = s & self.2;
            lemma_bits_i16(s, self.3, 0, 0);
            let s = s & self.3;
            lemma_bits_i16(s, self.4, 0, 0);
            let s = s & self.4;
            lemma_bits_i16(s, self.5, 0, 0);
            let s = s & self.5;
            lemma_bits_i16(s, self.6, 0, 0);
            let s = s & self.6;
            lemma_bits_i16(s, self.7, 0, 0);
            let s = s & self.7;
            lemma_bits_i16(s, self.8, 0, 0);
            let s = s & self.8;
            lemma_bits_i16(s, self.9, 0, 0);
            let s = s & self.9;
            lemma_bits_i16(s, self.10, 0, 0);
            let s = s & self.10;
            lemma_bits_i16(s, self.11, 0, 0);
            let s = s & self.11;
            lemma_bits_i16(s, self.12, 0, 0);
            let s = s & self.12;
            lemma_bits_i16(s, self.13, 0, 0);
            let s = s & self.13;
            lemma_bits_i16(s, self.14, 0, 0);
            let s = s & self.14;
            lemma_bits_i16(s, self.15, 0, 0);
        }
        truth_i16(self.reduce_and())
    }

    fn any(self) -> (r: bool) {
        proof {
            let s = self.0 | self.1;
            lemma_bits_i16(self.0, self.1, 0, 0);
            lemma_bits_i16(s, self.2, 0, 0);
            let s = s | self.2;
            lemma_bits_i16(s, self.3, 0, 0);
            let s = s | self.3;
            lemma_bits_i16(s, self.4, 0, 0);
            let s = s | self.4;
            lemma_bits_i16(s, self.5, 0, 0);
            let s = s | self.5;
            lemma_bits_i16(s, self.6, 0, 0);
            let s = s | self.6;
            lemma_bits_i16(s, self.7, 0, 0);
            let s = s | self.7;
            lemma_bits_i16(s, self.8, 0, 0);
            let s = s | self.8;
            lemma_bits_i16(s, self.9, 0, 0);
            let s = s | self.9;
            lemma_bits_i16(s, self.10, 0, 0);
            let s = s | self.10;
            lemma_bits_i16(s, self.11, 0, 0);
            let s = s | self.11;
            lemma_bits_i16(s, self.12, 0, 0);
            let s = s | self.12;
            lemma_bits_i16(s, self.13, 0, 0);
            let s = s | self.13;
            lemma_bits_i16(s, self.14, 0, 0);
            let s = s | self.14;
            lemma_bits_i16(s, self.15, 0, 0);
        }
        truth_i16(self.reduce_or())
    }
}

impl Dot for short16 {
    type DotProduct = i16;

    open spec fn spec_dot(self, other: short16) -> i16 {
        wrap_i16(
            self.0 * other.0 + self.1 * other.1 + self.2 * other.2 + self.3 * other.3
                + self.4 * other.4 + self.5 * other.5 + self.6 * other.6 + self.7 * other.7
                + self.8 * other.8 + self.9 * other.9 + self.10 * other.10 + self.11 * other.11
                + self.12 * other.12 + self.13 * other.13 + self.14 * other.14 + self.15 * other.15
        )
    }

    fn dot(self, other: short16) -> (r: i16) {
        let s = mul_i16(self.0, other.0);
        let ghost mut t: int = self.0 * other.0;
        proof {
            lemma_wrap_i16_sum(t, self.1 * other.1);
            t = t + self.1 * other.1;
        }
        let s = madd_i16(self.1, other.1, s);
        proof {
            lemma_wrap_i16_sum(t, self.2 * other.2);
            t = t + self.2 * other.2;
        }
        let s = madd_i16(self.2, other.2, s);
        proof {
            lemma_wrap_i16_sum(t, self.3 * other.3);
            t = t + self.3 * other.3;
        }
        let s = madd_i16(self.3, other.3, s);
        proof {
            lemma_wrap_i16_sum(t, self.4 * other.4);
            t = t + self.4 * other.4;
        }
        let s = madd_i16(self.4, other.4, s);
        proof {
            lemma_wrap_i16_sum(t, self.5 * other.5);
            t = t + self.5 * other.5;
        }
        let s = madd_i16(self.5, other.5, s);
        proof {
            lemma_wrap_i16_sum(t, self.6 * other.6);
            t = t + self.6 * other.6;
        }
        let s = madd_i16(self.6, other.6, s);
        proof {
            lemma_wrap_i16_sum(t, self.7 * other.7);
            t = t + self.7 * other.7;
        }
        let s = madd_i16(self.7, other.7, s);
        proof {
            lemma_wrap_i16_sum(t, self.8 * other.8);
            t = t + self.8 * other.8;
        }
        let s = madd_i16(self.8, other.8, s);
        proof {
            lemma_wrap_i16_sum(t, self.9 * other.9);
            t = t + self.9 * other.9;
        }
        let s = madd_i16(self.9, other.9, s);
        proof {
            lemma_wrap_i16_sum(t, self.10 * other.10);
            t = t + self.10 * other.10;
        }
        let s = madd_i16(self.10, other.10, s);
        proof {
            lemma_wrap_i16_sum(t, self.11 * other.11);
            t = t + self.11 * other.11;
        }
        let s = madd_i16(self.11, other.11, s);
        proof {
            lemma_wrap_i16_sum(t, self.12 * other.12);
            t = t + self.12 * other.12;
        }
        let s = madd_i16(self.12, other.12, s);
        proof {
            lemma_wrap_i16_sum(t, self.13 * other.13);
            t = t + self.13 * other.13;
        }
        let s = madd_i16(self.13, other.13, s);
        proof {
            lemma_wrap_i16_sum(t, self.14 * other.14);
            t = t + self.14 * other.14;
        }
        let s = madd_i16(self.14, other.14, s);
        proof {
            lemma_wrap_i16_sum(t, self.15 * other.15);
            t = t + self.15 * other.15;
        }
        let s = madd_i16(self.15, other.15, s);
        s
    }
}

impl Select<short16> for short16 {
    open spec fn spec_select(self, a: short16, b: short16) -> short16 {
        short16(
            select_i16(self.0, a.0, b.0), select_i16(self.1, a.1, b.1),
            select_i16(self.2, a.2, b.2), select_i16(self.3, a.3, b.3),
            select_i16(self.4, a.4, b.4), select_i16(self.5, a.5, b.5),
            select_i16(self.6, a.6, b.6), select_i16(self.7, a.7, b.7),
            select_i16(self.8, a.8, b.8), select_i16(self.9, a.9, b.9),
            select_i16(self.10, a.10, b.10), select_i16(self.11, a.11, b.11),
            select_i16(self.12, a.12, b.12), select_i16(self.13, a.13, b.13),
            select_i16(self.14, a.14, b.14), select_i16(self.15, a.15, b.15),
        )
    }

    open spec fn spec_bitselect(self, a: short16, b: short16) -> short16 {
        short16(
            bitselect_i16(self.0, a.0, b.0), bitselect_i16(self.1, a.1, b.1),
            bitselect_i16(self.2, a.2, b.2), bitselect_i16(self.3, a.3, b.3),
            bitselect_i16(self.4, a.4, b.4), bitselect_i16(self.5, a.5, b.5),
            bitselect_i16(self.6, a.6, b.6), bitselect_i16(self.7, a.7, b.7),
            bitselect_i16(self.8, a.8, b.8), bitselect_i16(self.9, a.9, b.9),
            bitselect_i16(self.10, a.10, b.10), bitselect_i16(self.11, a.11, b.11),
            bitselect_i16(self.12, a.12, b.12), bitselect_i16(self.13, a.13, b.13),
            bitselect_i16(self.14, a.14, b.14), bitselect_i16(self.15, a.15, b.15),
        )
    }

    fn select(self, a: short16, b: short16) -> (r: short16) {
        short16(
            select_i16(self.0, a.0, b.0), select_i16(self.1, a.1, b.1),
            select_i16(self.2, a.2, b.2), select_i16(self.3, a.3, b.3),
            select_i16(self.4, a.4, b.4), select_i16(self.5, a.5, b.5),
            select_i16(self.6, a.6, b.6), select_i16(self.7, a.7, b.7),
            select_i16(self.8, a.8, b.8), select_i16(self.9, a.9, b.9),
            select_i16(self.10, a.10, b.10), select_i16(self.11, a.11, b.11),
            select_i16(self.12, a.12, b.12), select_i16(self.13, a.13, b.13),
            select_i16(self.14, a.14, b.14), select_i16(self.15, a.15, b.15),
        )
    }

    fn bitselect(self, a: short16, b: short16) -> (r: short16) {
        short16(
            bitselect_i16(self.0, a.0, b.0), bitselect_i16(self.1, a.1, b.1),
            bitselect_i16(self.2, a.2, b.2), bitselect_i16(self.3, a.3, b.3),
            bitselect_i16(self.4, a.4, b.4), bitselect_i16(self.5, a.5, b.5),
            bitselect_i16(self.6, a.6, b.6), bitselect_i16(self.7, a.7, b.7),
            bitselect_i16(self.8, a.8, b.8), bitselect_i16(self.9, a.9, b.9),
            bitselect_i16(self.10, a.10, b.10), bitselect_i16(self.11, a.11, b.11),
            bitselect_i16(self.12, a.12, b.12), bitselect_i16(self.13, a.13, b.13),
            bitselect_i16(self.14, a.14, b.14), bitselect_i16(self.15, a.15, b.15),
        )
    }
}

impl Select<ushort16> for short16 {
    open spec fn spec_select(self, a: ushort16, b: ushort16) -> ushort16 {
        ushort16(
            select_u16(self.0, a.0, b.0), select_u16(self.1, a.1, b.1),
            select_u16(self.2, a.2, b.2), select_u16(self.3, a.3, b.3),
            select_u16(self.4, a.4, b.4), select_u16(self.5, a.5, b.5),
            select_u16(self.6, a.6, b.6), select_u16(self.7, a.7, b.7),
            select_u16(self.8, a.8, b.8), select_u16(self.9, a.9, b.9),
            select_u16(self.10, a.10, b.10), select_u16(self.11, a.11, b.11),
            select_u16(self.12, a.12, b.12), select_u16(self.13, a.13, b.13),
            select_u16(self.14, a.14, b.14), select_u16(self.15, a.15, b.15),
        )
    }

    open spec fn spec_bitselect(self, a: ushort16, b: ushort16) -> ushort16 {
        ushort16(
            bitselect_u16(self.0, a.0, b.0), bitselect_u16(self.1, a.1, b.1),
            bitselect_u16(self.2, a.2, b.2), bitselect_u16(self.3, a.3, b.3),
            bitselect_u16(self.4, a.4, b.4), bitselect_u16(self.5, a.5, b.5),
            bitselect_u16(self.6, a.6, b.6), bitselect_u16(self.7, a.7, b.7),
            bitselect_u16(self.8, a.8, b.8), bitselect_u16(self.9, a.9, b.9),
            bitselect_u16(self.10, a.10, b.10), bitselect_u16(self.11, a.11, b.11),
            bitselect_u16(self.12, a.12, b.12), bitselect_u16(self.13, a.13, b.13),
            bitselect_u16(self.14, a.14, b.14), bitselect_u16(self.15, a.15, b.15),
        )
    }

    fn select(self, a: ushort16, b: ushort16) -> (r: ushort16) {
        ushort16(
            select_u16(self.0, a.0, b.0), select_u16(self.1, a.1, b.1),
            select_u16(self.2, a.2, b.2), select_u16(self.3, a.3, b.3),
            select_u16(self.4, a.4, b.4), select_u16(self.5, a.5, b.5),
            select_u16(self.6, a.6, b.6), select_u16(self.7, a.7, b.7),
            select_u16(self.8, a.8, b.8), select_u16(self.9, a.9, b.9),
            select_u16(self.10, a.10, b.10), select_u16(self.11, a.11, b.11),
            select_u16(self.12, a.12, b.12), select_u16(self.13, a.13, b.13),
            select_u16(self.14, a.14, b.14), select_u16(self.15, a.15, b.15),
        )
    }

    fn bitselect(self, a: ushort16, b: ushort16) -> (r: ushort16) {
        ushort16(
            bitselect_u16(self.0, a.0, b.0), bitselect_u16(self.1, a.1, b.1),
            bitselect_u16(self.2, a.2, b.2), bitselect_u16(self.3, a.3, b.3),
            bitselect_u16(self.4, a.4, b.4), bitselect_u16(self.5, a.5, b.5),
            bitselect_u16(self.6, a.6, b.6), bitselect_u16(self.7, a.7, b.7),
            bitselect_u16(self.8, a.8, b.8), bitselect_u16(self.9, a.9, b.9),
            bitselect_u16(self.10, a.10, b.10), bitselect_u16(self.11, a.11, b.11),
            bitselect_u16(self.12, a.12, b.12), bitselect_u16(self.13, a.13, b.13),
            bitselect_u16(self.14, a.14, b.14), bitselect_u16(self.15, a.15, b.15),
        )
    }
}

impl short16 {
    /// A blend of two `short16` gives the lane of `b` where the mask is all ones and the lane of
    /// `a` where it is zero, whatever the other lanes hold.
    pub proof fn lemma_bitselect_short16(m: short16, a: short16, b: short16)
        ensures
            forall|i: int|
                0 <= i < 16 && m.lane(i) == -1 ==>
                    #[trigger] m.spec_bitselect(a, b).lane(i) == b.lane(i),
            forall|i: int|
                0 <= i < 16 && m.lane(i) == 0 ==>
                    #[trigger] m.spec_bitselect(a, b).lane(i) == a.lane(i),
    {
        lemma_blend_i16(m.0, a.0, b.0);
        lemma_blend_i16(m.1, a.1, b.1);
        lemma_blend_i16(m.2, a.2, b.2);
        lemma_blend_i16(m.3, a.3, b.3);
        lemma_blend_i16(m.4, a.4, b.4);
        lemma_blend_i16(m.5, a.5, b.5);
        lemma_blend_i16(m.6, a.6, b.6);
        lemma_blend_i16(m.7, a.7, b.7);
        lemma_blend_i16(m.8, a.8, b.8);
        lemma_blend_i16(m.9, a.9, b.9);
        lemma_blend_i16(m.10, a.10, b.10);
        lemma_blend_i16(m.11, a.11, b.11);
        lemma_blend_i16(m.12, a.12, b.12);
        lemma_blend_i16(m.13, a.13, b.13);
        lemma_blend_i16(m.14, a.14, b.14);
        lemma_blend_i16(m.15, a.15, b.15);
    }

    /// A choice between two `short16` goes by the sign bit of the mask alone: it gives the lane of
    /// `b` where the mask is negative and the lane of `a` elsewhere, as the blend does under the
    /// mask whose every lane has its sign spread over all its bits.
    pub proof fn lemma_select_short16(m: short16, a: short16, b: short16)
        ensures
            m.spec_select(a, b) == ShrSpec::shr_spec(m, 15i16).spec_bitselect(a, b),
            forall|i: int|
                0 <= i < 16 && m.lane(i) < 0 ==>
                    #[trigger] m.spec_select(a, b).lane(i) == b.lane(i),
            forall|i: int|
                0 <= i < 16 && m.lane(i) >= 0 ==>
                    #[trigger] m.spec_select(a, b).lane(i) == a.lane(i),
    {
        lemma_blend_i16(m.0, a.0, b.0);
        lemma_blend_i16(m.1, a.1, b.1);
        lemma_blend_i16(m.2, a.2, b.2);
        lemma_blend_i16(m.3, a.3, b.3);
        lemma_blend_i16(m.4, a.4, b.4);
        lemma_blend_i16(m.5, a.5, b.5);
        lemma_blend_i16(m.6, a.6, b.6);
        lemma_blend_i16(m.7, a.7, b.7);
        lemma_blend_i16(m.8, a.8, b.8);
        lemma_blend_i16(m.9, a.9, b.9);
        lemma_blend_i16(m.10, a.10, b.10);
        lemma_blend_i16(m.11, a.11, b.11);
        lemma_blend_i16(m.12, a.12, b.12);
        lemma_blend_i16(m.13, a.13, b.13);
        lemma_blend_i16(m.14, a.14, b.14);
        lemma_blend_i16(m.15, a.15, b.15);
    }

    /// A blend of two `ushort16` gives the lane of `b` where the mask is all ones and the lane of
    /// `a` where it is zero, whatever the other lanes hold.
    pub proof fn lemma_bitselect_ushort16(m: short16, a: ushort16, b: ushort16)
        ensures
            forall|i: int|
                0 <= i < 16 && m.lane(i) == -1 ==>
                    #[trigger] m.spec_bitselect(a, b).lane(i) == b.lane(i),
            forall|i: int|
                0 <= i < 16 && m.lane(i) == 0 ==>
                    #[trigger] m.spec_bitselect(a, b).lane(i) == a.lane(i),
    {
        lemma_blend_u16(m.0, a.0, b.0);
        lemma_blend_u16(m.1, a.1, b.1);
        lemma_blend_u16(m.2, a.2, b.2);
        lemma_blend_u16(m.3, a.3, b.3);
        lemma_blend_u16(m.4, a.4, b.4);
        lemma_blend_u16(m.5, a.5, b.5);
        lemma_blend_u16(m.6, a.6, b.6);
        lemma_blend_u16(m.7, a.7, b.7);
        lemma_blend_u16(m.8, a.8, b.8);
        lemma_blend_u16(m.9, a.9, b.9);
        lemma_blend_u16(m.10, a.10, b.10);
        lemma_blend_u16(m.11, a.11, b.11);
        lemma_blend_u16(m.12, a.12, b.12);
        lemma_blend_u16(m.13, a.13, b.13);
        lemma_blend_u16(m.14, a.14, b.14);
        lemma_blend_u16(m.15, a.15, b.15);
    }

    /// A choice between two `ushort16` goes by the sign bit of the mask alone: it gives the lane of
    /// `b` where the mask is negative and the lane of `a` elsewhere, as the blend does under the
    /// mask whose every lane has its sign spread over all its bits.
    pub proof fn lemma_select_ushort16(m: short16, a: ushort16, b: ushort16)
        ensures
            m.spec_select(a, b) == ShrSpec::shr_spec(m, 15i16).spec_bitselect(a, b),
            forall|i: int|
                0 <= i < 16 && m.lane(i) < 0 ==>
                    #[trigger] m.spec_select(a, b).lane(i) == b.lane(i),
            forall|i: int|
                0 <= i < 16 && m.lane(i) >= 0 ==>
                    #[trigger] m.spec_select(a, b).lane(i) == a.lane(i),
    {
        lemma_blend_u16(m.0, a.0, b.0);
        lemma_blend_u16(m.1, a.1, b.1);
        lemma_blend_u16(m.2, a.2, b.2);
        lemma_blend_u16(m.3, a.3, b.3);
        lemma_blend_u16(m.4, a.4, b.4);
        lemma_blend_u16(m.5, a.5, b.5);
        lemma_blend_u16(m.6, a.6, b.6);
        lemma_blend_u16(m.7, a.7, b.7);
        lemma_blend_u16(m.8, a.8, b.8);
        lemma_blend_u16(m.9, a.9, b.9);
        lemma_blend_u16(m.10, a.10, b.10);
        lemma_blend_u16(m.11, a.11, b.11);
        lemma_blend_u16(m.12, a.12, b.12);
        lemma_blend_u16(m.13, a.13, b.13);
        lemma_blend_u16(m.14, a.14, b.14);
        lemma_blend_u16(m.15, a.15, b.15);
    }
}

impl Bitcast for short16 {
    type Image = ushort16;

    open spec fn spec_image(self) -> ushort16 {
        ushort16(
            i16_to_u16(self.0), i16_to_u16(self.1), i16_to_u16(self.2), i16_to_u16(self.3),
            i16_to_u16(self.4), i16_to_u16(self.5), i16_to_u16(self.6), i16_to_u16(self.7),
            i16_to_u16(self.8), i16_to_u16(self.9), i16_to_u16(self.10), i16_to_u16(self.11),
            i16_to_u16(self.12), i16_to_u16(self.13), i16_to_u16(self.14), i16_to_u16(self.15),
        )
    }

    open spec fn spec_from_image(image: ushort16) -> short16 {
        short16(
            u16_to_i16(image.0), u16_to_i16(image.1), u16_to_i16(image.2), u16_to_i16(image.3),
            u16_to_i16(image.4), u16_to_i16(image.5), u16_to_i16(image.6), u16_to_i16(image.7),
            u16_to_i16(image.8), u16_to_i16(image.9), u16_to_i16(image.10), u16_to_i16(image.11),
            u16_to_i16(image.12), u16_to_i16(image.13), u16_to_i16(image.14), u16_to_i16(image.15),
        )
    }

    open spec fn spec_fills() -> bool {
        true
    }

    fn image(self) -> (r: ushort16) {
        ushort16(
            i16_to_u16(self.0), i16_to_u16(self.1), i16_to_u16(self.2), i16_to_u16(self.3),
            i16_to_u16(self.4), i16_to_u16(self.5), i16_to_u16(self.6), i16_to_u16(self.7),
            i16_to_u16(self.8), i16_to_u16(self.9), i16_to_u16(self.10), i16_to_u16(self.11),
            i16_to_u16(self.12), i16_to_u16(self.13), i16_to_u16(self.14), i16_to_u16(self.15),
        )
    }

    fn from_image(image: ushort16) -> (r: short16) {
        short16(
            u16_to_i16(image.0), u16_to_i16(image.1), u16_to_i16(image.2), u16_to_i16(image.3),
            u16_to_i16(image.4), u16_to_i16(image.5), u16_to_i16(image.6), u16_to_i16(image.7),
            u16_to_i16(image.8), u16_to_i16(image.9), u16_to_i16(image.10), u16_to_i16(image.11),
            u16_to_i16(image.12), u16_to_i16(image.13), u16_to_i16(image.14), u16_to_i16(image.15),
        )
    }

    proof fn lemma_image(x: short16) {
        lemma_recast_i16(x.0);
        lemma_recast_i16(x.1);
        lemma_recast_i16(x.2);
        lemma_recast_i16(x.3);
        lemma_recast_i16(x.4);
        lemma_recast_i16(x.5);
        lemma_recast_i16(x.6);
        lemma_recast_i16(x.7);
        lemma_recast_i16(x.8);
        lemma_recast_i16(x.9);
        lemma_recast_i16(x.10);
        lemma_recast_i16(x.11);
        lemma_recast_i16(x.12);
        lemma_recast_i16(x.13);
        lemma_recast_i16(x.14);
        lemma_recast_i16(x.15);
    }

    proof fn lemma_from_image(image: ushort16) {
        lemma_recast_u16(image.0);
        lemma_recast_u16(image.1);
        lemma_recast_u16(image.2);
        lemma_recast_u16(image.3);
        lemma_recast_u16(image.4);
        lemma_recast_u16(image.5);
        lemma_recast_u16(image.6);
        lemma_recast_u16(image.7);
        lemma_recast_u16(image.8);
        lemma_recast_u16(image.9);
        lemma_recast_u16(image.10);
        lemma_recast_u16(image.11);
        lemma_recast_u16(image.12);
        lemma_recast_u16(image.13);
        lemma_recast_u16(image.14);
        lemma_recast_u16(image.15);
    }
}

impl short16 {
    /// Read as `ushort16`, which has lanes of the same width, a vector keeps the bits of every
    /// lane; read as `short16` again, it is what it was.
    pub proof fn lemma_bitcast_ushort16(x: short16)
        ensures
            spec_bitcast::<short16, ushort16>(x) == ushort16(
                    i16_to_u16(x.0), i16_to_u16(x.1), i16_to_u16(x.2), i16_to_u16(x.3),
                    i16_to_u16(x.4), i16_to_u16(x.5), i16_to_u16(x.6), i16_to_u16(x.7),
                    i16_to_u16(x.8), i16_to_u16(x.9), i16_to_u16(x.10), i16_to_u16(x.11),
                    i16_to_u16(x.12), i16_to_u16(x.13), i16_to_u16(x.14), i16_to_u16(x.15),
                ),
            spec_bitcast::<ushort16, short16>(spec_bitcast::<short16, ushort16>(x)) == x,
    {
        lemma_recast_i16(x.0);
        lemma_recast_i16(x.1);
        lemma_recast_i16(x.2);
        lemma_recast_i16(x.3);
        lemma_recast_i16(x.4);
        lemma_recast_i16(x.5);
        lemma_recast_i16(x.6);
        lemma_recast_i16(x.7);
        lemma_recast_i16(x.8);
        lemma_recast_i16(x.9);
        lemma_recast_i16(x.10);
        lemma_recast_i16(x.11);
        lemma_recast_i16(x.12);
        lemma_recast_i16(x.13);
        lemma_recast_i16(x.14);
        lemma_recast_i16(x.15);
    }
}

} // verus!
