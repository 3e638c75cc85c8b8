//! `short8`: eight lanes of `i16`.

use crate::scalar::lane_i16::{
    abs_i16, add_i16, bitselect_i16, clamp_i16, div_i16, eq_i16, ge_i16, gt_i16, i16_to_i32,
    i16_to_i32_sat, i16_to_i64, i16_to_i64_sat, i16_to_i8, i16_to_i8_sat, i16_to_u16,
    i16_to_u16_sat, i16_to_u32, i16_to_u32_sat, i16_to_u64, i16_to_u64_sat, i16_to_u8,
    i16_to_u8_sat, isize_to_i16, le_i16, lemma_abs_i16, lemma_arith_i16, lemma_bits_i16,
    lemma_blend_i16, lemma_not_i16, lemma_recast_i16, lt_i16, madd_i16, max_i16, min_i16, mul_i16,
    ne_i16, neg_i16, not_i16, rem_i16, select_i16, shl_i16, shr_i16, sub_i16, truth_i16,
};
use crate::scalar::lane_u16::{
    bitselect_u16, lemma_blend_u16, lemma_recast_u16, select_u16, u16_to_i16,
};
use crate::scalar::model::{
    lemma_wrap_i16_sum, sat_i32, sat_i64, sat_i8, sat_u16, sat_u32, sat_u64, sat_u8, wrap_i16,
};
use crate::scalar::regroup::{join_u8_u16, lemma_regroup_u8_u16, split_u16_u8};
use crate::traits::{Bitcast, Dot, Integer, Select, Vector, bitcast, spec_bitcast};
use crate::vector::char8::char8;
use crate::vector::double8::double8;
use crate::vector::float8::float8;
use crate::vector::int8::int8;
use crate::vector::long8::long8;
use crate::vector::short4::short4;
use crate::vector::uchar16::uchar16;
use crate::vector::uchar8::uchar8;
use crate::vector::uint8::uint8;
use crate::vector::ulong8::ulong8;
use crate::vector::ushort8::ushort8;
use vstd::prelude::*;
use vstd::std_specs::convert::FromSpecImpl;
use vstd::std_specs::ops::{
    AddSpec, AddSpecImpl, BitAndSpecImpl, BitOrSpecImpl, BitXorSpecImpl, DivSpecImpl, MulSpecImpl,
    NegSpec, NegSpecImpl, NotSpec, NotSpecImpl, RemSpecImpl, ShlSpecImpl, ShrSpec, ShrSpecImpl,
    SubSpec, SubSpecImpl,
};

verus! {

/// Eight lanes of `i16`.
#[derive(Copy, Clone, Debug, PartialEq, Eq, Structural)]
pub struct short8(pub i16, pub i16, pub i16, pub i16, pub i16, pub i16, pub i16, pub i16);

impl core::ops::Add for short8 {
    type Output = short8;

    /// The lane-wise sum of the two vectors, wrapping around.
    fn add(self, rhs: short8) -> (r: short8) {
        short8(
            add_i16(self.0, rhs.0), add_i16(self.1, rhs.1), add_i16(self.2, rhs.2),
            add_i16(self.3, rhs.3), add_i16(self.4, rhs.4), add_i16(self.5, rhs.5),
            add_i16(self.6, rhs.6), add_i16(self.7, rhs.7),
        )
    }
}

impl AddSpecImpl for short8 {
    open spec fn obeys_add_spec() -> bool {
        true
    }

    open spec fn add_req(self, rhs: short8) -> bool {
        true
    }

    open spec fn add_spec(self, rhs: short8) -> short8 {
        short8(
            add_i16(self.0, rhs.0), add_i16(self.1, rhs.1), add_i16(self.2, rhs.2),
            add_i16(self.3, rhs.3), add_i16(self.4, rhs.4), add_i16(self.5, rhs.5),
            add_i16(self.6, rhs.6), add_i16(self.7, rhs.7),
        )
    }
}

impl core::ops::Add<i16> for short8 {
    type Output = short8;

    /// The sum of every lane and the scalar, wrapping around.
    fn add(self, rhs: i16) -> (r: short8) {
        short8(
            add_i16(self.0, rhs), add_i16(self.1, rhs), add_i16(self.2, rhs), add_i16(self.3, rhs),
            add_i16(self.4, rhs), add_i16(self.5, rhs), add_i16(self.6, rhs), add_i16(self.7, rhs),
        )
    }
}

impl AddSpecImpl<i16> for short8 {
    open spec fn obeys_add_spec() -> bool {
        true
    }

    open spec fn add_req(self, rhs: i16) -> bool {
        true
    }

    open spec fn add_spec(self, rhs: i16) -> short8 {
        short8(
            add_i16(self.0, rhs), add_i16(self.1, rhs), add_i16(self.2, rhs), add_i16(self.3, rhs),
            add_i16(self.4, rhs), add_i16(self.5, rhs), add_i16(self.6, rhs), add_i16(self.7, rhs),
        )
    }
}

impl core::ops::Add<short8> for i16 {
    type Output = short8;

    /// The sum of the scalar and every lane, wrapping around.
    fn add(self, rhs: short8) -> (r: short8) {
        short8(
            add_i16(self, rhs.0), add_i16(self, rhs.1), add_i16(self, rhs.2), add_i16(self, rhs.3),
            add_i16(self, rhs.4), add_i16(self, rhs.5), add_i16(self, rhs.6), add_i16(self, rhs.7),
        )
    }
}

impl AddSpecImpl<short8> for i16 {
    open spec fn obeys_add_spec() -> bool {
        true
    }

    open spec fn add_req(self, rhs: short8) -> bool {
        true
    }

    open spec fn add_spec(self, rhs: short8) -> short8 {
        short8(
            add_i16(self, rhs.0), add_i16(self, rhs.1), add_i16(self, rhs.2), add_i16(self, rhs.3),
            add_i16(self, rhs.4), add_i16(self, rhs.5), add_i16(self, rhs.6), add_i16(self, rhs.7),
        )
    }
}

impl core::ops::Sub for short8 {
    type Output = short8;

    /// The lane-wise difference of the two vectors, wrapping around.
    fn sub(self, rhs: short8) -> (r: short8) {
        short8(
            sub_i16(self.0, rhs.0), sub_i16(self.1, rhs.1), sub_i16(self.2, rhs.2),
            sub_i16(self.3, rhs.3), sub_i16(self.4, rhs.4), sub_i16(self.5, rhs.5),
            sub_i16(self.6, rhs.6), sub_i16(self.7, rhs.7),
        )
    }
}

impl SubSpecImpl for short8 {
    open spec fn obeys_sub_spec() -> bool {
        true
    }

    open spec fn sub_req(self, rhs: short8) -> bool {
        true
    }

    open spec fn sub_spec(self, rhs: short8) -> short8 {
        short8(
            sub_i16(self.0, rhs.0), sub_i16(self.1, rhs.1), sub_i16(self.2, rhs.2),
            sub_i16(self.3, rhs.3), sub_i16(self.4, rhs.4), sub_i16(self.5, rhs.5),
            sub_i16(self.6, rhs.6), sub_i16(self.7, rhs.7),
        )
    }
}

impl core::ops::Sub<i16> for short8 {
    type Output = short8;

    /// The difference of every lane and the scalar, wrapping around.
    fn sub(self, rhs: i16) -> (r: short8) {
        short8(
            sub_i16(self.0, rhs), sub_i16(self.1, rhs), sub_i16(self.2, rhs), sub_i16(self.3, rhs),
            sub_i16(self.4, rhs), sub_i16(self.5, rhs), sub_i16(self.6, rhs), sub_i16(self.7, rhs),
        )
    }
}

impl SubSpecImpl<i16> for short8 {
    open spec fn obeys_sub_spec() -> bool {
        true
    }

    open spec fn sub_req(self, rhs: i16) -> bool {
        true
    }

    open spec fn sub_spec(self, rhs: i16) -> short8 {
        short8(
            sub_i16(self.0, rhs), sub_i16(self.1, rhs), sub_i16(self.2, rhs), sub_i16(self.3, rhs),
            sub_i16(self.4, rhs), sub_i16(self.5, rhs), sub_i16(self.6, rhs), sub_i16(self.7, rhs),
        )
    }
}

impl core::ops::Sub<short8> for i16 {
    type Output = short8;

    /// The difference of the scalar and every lane, wrapping around.
    fn sub(self, rhs: short8) -> (r: short8) {
        short8(
            sub_i16(self, rhs.0), sub_i16(self, rhs.1), sub_i16(self, rhs.2), sub_i16(self, rhs.3),
            sub_i16(self, rhs.4), sub_i16(self, rhs.5), sub_i16(self, rhs.6), sub_i16(self, rhs.7),
        )
    }
}

impl SubSpecImpl<short8> for i16 {
    open spec fn obeys_sub_spec() -> bool {
        true
    }

    open spec fn sub_req(self, rhs: short8) -> bool {
        true
    }

    open spec fn sub_spec(self, rhs: short8) -> short8 {
        short8(
            sub_i16(self, rhs.0), sub_i16(self, rhs.1), sub_i16(self, rhs.2), sub_i16(self, rhs.3),
            sub_i16(self, rhs.4), sub_i16(self, rhs.5), sub_i16(self, rhs.6), sub_i16(self, rhs.7),
        )
    }
}

impl core::ops::Mul for short8 {
    type Output = short8;

    /// The lane-wise product of the two vectors, wrapping around.
    fn mul(self, rhs: short8) -> (r: short8) {
        short8(
            mul_i16(self.0, rhs.0), mul_i16(self.1, rhs.1), mul_i16(self.2, rhs.2),
            mul_i16(self.3, rhs.3), mul_i16(self.4, rhs.4), mul_i16(self.5, rhs.5),
            mul_i16(self.6, rhs.6), mul_i16(self.7, rhs.7),
        )
    }
}

impl MulSpecImpl for short8 {
    open spec fn obeys_mul_spec() -> bool {
        true
    }

    open spec fn mul_req(self, rhs: short8) -> bool {
        true
    }

    open spec fn mul_spec(self, rhs: short8) -> short8 {
        short8(
            mul_i16(self.0, rhs.0), mul_i16(self.1, rhs.1), mul_i16(self.2, rhs.2),
            mul_i16(self.3, rhs.3), mul_i16(self.4, rhs.4), mul_i16(self.5, rhs.5),
            mul_i16(self.6, rhs.6), mul_i16(self.7, rhs.7),
        )
    }
}

impl core::ops::Mul<i16> for short8 {
    type Output = short8;

    /// The product of every lane and the scalar, wrapping around.
    fn mul(self, rhs: i16) -> (r: short8) {
        short8(
            mul_i16(self.0, rhs), mul_i16(self.1, rhs), mul_i16(self.2, rhs), mul_i16(self.3, rhs),
            mul_i16(self.4, rhs), mul_i16(self.5, rhs), mul_i16(self.6, rhs), mul_i16(self.7, rhs),
        )
    }
}

impl MulSpecImpl<i16> for short8 {
    open spec fn obeys_mul_spec() -> bool {
        true
    }

    open spec fn mul_req(self, rhs: i16) -> bool {
        true
    }

    open spec fn mul_spec(self, rhs: i16) -> short8 {
        short8(
            mul_i16(self.0, rhs), mul_i16(self.1, rhs), mul_i16(self.2, rhs), mul_i16(self.3, rhs),
            mul_i16(self.4, rhs), mul_i16(self.5, rhs), mul_i16(self.6, rhs), mul_i16(self.7, rhs),
        )
    }
}

impl core::ops::Mul<short8> for i16 {
    type Output = short8;

    /// The product of the scalar and every lane, wrapping around.
    fn mul(self, rhs: short8) -> (r: short8) {
        short8(
            mul_i16(self, rhs.0), mul_i16(self, rhs.1), mul_i16(self, rhs.2), mul_i16(self, rhs.3),
            mul_i16(self, rhs.4), mul_i16(self, rhs.5), mul_i16(self, rhs.6), mul_i16(self, rhs.7),
        )
    }
}

impl MulSpecImpl<short8> for i16 {
    open spec fn obeys_mul_spec() -> bool {
        true
    }

    open spec fn mul_req(self, rhs: short8) -> bool {
        true
    }

    open spec fn mul_spec(self, rhs: short8) -> short8 {
        short8(
            mul_i16(self, rhs.0), mul_i16(self, rhs.1), mul_i16(self, rhs.2), mul_i16(self, rhs.3),
            mul_i16(self, rhs.4), mul_i16(self, rhs.5), mul_i16(self, rhs.6), mul_i16(self, rhs.7),
        )
    }
}

impl core::ops::Div for short8 {
    type Output = short8;

    /// The lane-wise quotient of the two vectors, rounded toward zero. No lane of the divisor is
    /// zero.
    fn div(self, rhs: short8) -> (r: short8) {
        short8(
            div_i16(self.0, rhs.0), div_i16(self.1, rhs.1), div_i16(self.2, rhs.2),
            div_i16(self.3, rhs.3), div_i16(self.4, rhs.4), div_i16(self.5, rhs.5),
            div_i16(self.6, rhs.6), div_i16(self.7, rhs.7),
        )
    }
}

impl DivSpecImpl for short8 {
    open spec fn obeys_div_spec() -> bool {
        true
    }

    open spec fn div_req(self, rhs: short8) -> bool {
        rhs.0 != 0 && rhs.1 != 0 && rhs.2 != 0 && rhs.3 != 0 && rhs.4 != 0 && rhs.5 != 0
            && rhs.6 != 0 && rhs.7 != 0
    }

    open spec fn div_spec(self, rhs: short8) -> short8 {
        short8(
            div_i16(self.0, rhs.0), div_i16(self.1, rhs.1), div_i16(self.2, rhs.2),
            div_i16(self.3, rhs.3), div_i16(self.4, rhs.4), div_i16(self.5, rhs.5),
            div_i16(self.6, rhs.6), div_i16(self.7, rhs.7),
        )
    }
}

impl core::ops::Div<i16> for short8 {
    type Output = short8;

    /// The quotient of every lane by the scalar, rounded toward zero. The scalar is not zero.
    fn div(self, rhs: i16) -> (r: short8) {
        short8(
            div_i16(self.0, rhs), div_i16(self.1, rhs), div_i16(self.2, rhs), div_i16(self.3, rhs),
            div_i16(self.4, rhs), div_i16(self.5, rhs), div_i16(self.6, rhs), div_i16(self.7, rhs),
        )
    }
}

impl DivSpecImpl<i16> for short8 {
    open spec fn obeys_div_spec() -> bool {
        true
    }

    open spec fn div_req(self, rhs: i16) -> bool {
        rhs != 0
    }

    open spec fn div_spec(self, rhs: i16) -> short8 {
        short8(
            div_i16(self.0, rhs), div_i16(self.1, rhs), div_i16(self.2, rhs), div_i16(self.3, rhs),
            div_i16(self.4, rhs), div_i16(self.5, rhs), div_i16(self.6, rhs), div_i16(self.7, rhs),
        )
    }
}

impl core::ops::Div<short8> for i16 {
    type Output = short8;

    /// The quotient of the scalar by every lane, rounded toward zero. No lane is zero.
    fn div(self, rhs: short8) -> (r: short8) {
        short8(
            div_i16(self, rhs.0), div_i16(self, rhs.1), div_i16(self, rhs.2), div_i16(self, rhs.3),
            div_i16(self, rhs.4), div_i16(self, rhs.5), div_i16(self, rhs.6), div_i16(self, rhs.7),
        )
    }
}

impl DivSpecImpl<short8> for i16 {
    open spec fn obeys_div_spec() -> bool {
        true
    }

    open spec fn div_req(self, rhs: short8) -> bool {
        rhs.0 != 0 && rhs.1 != 0 && rhs.2 != 0 && rhs.3 != 0 && rhs.4 != 0 && rhs.5 != 0
            && rhs.6 != 0 && rhs.7 != 0
    }

    open spec fn div_spec(self, rhs: short8) -> short8 {
        short8(
            div_i16(self, rhs.0), div_i16(self, rhs.1), div_i16(self, rhs.2), div_i16(self, rhs.3),
            div_i16(self, rhs.4), div_i16(self, rhs.5), div_i16(self, rhs.6), div_i16(self, rhs.7),
        )
    }
}

impl core::ops::BitAnd for short8 {
    type Output = short8;

    /// The lane-wise conjunction of the two vectors, bit by bit.
    fn bitand(self, rhs: short8) -> (r: short8) {
        short8(
            self.0 & rhs.0, self.1 & rhs.1, self.2 & rhs.2, self.3 & rhs.3, self.4 & rhs.4,
            self.5 & rhs.5, self.6 & rhs.6, self.7 & rhs.7,
        )
    }
}

impl BitAndSpecImpl for short8 {
    open spec fn obeys_bitand_spec() -> bool {
        true
    }

    open spec fn bitand_req(self, rhs: short8) -> bool {
        true
    }

    open spec fn bitand_spec(self, rhs: short8) -> short8 {
        short8(
            self.0 & rhs.0, self.1 & rhs.1, self.2 & rhs.2, self.3 & rhs.3, self.4 & rhs.4,
            self.5 & rhs.5, self.6 & rhs.6, self.7 & rhs.7,
        )
    }
}

impl core::ops::BitAnd<i16> for short8 {
    type Output = short8;

    /// The conjunction of every lane and the scalar, bit by bit.
    fn bitand(self, rhs: i16) -> (r: short8) {
        short8(
            self.0 & rhs, self.1 & rhs, self.2 & rhs, self.3 & rhs, self.4 & rhs, self.5 & rhs,
            self.6 & rhs, self.7 & rhs,
        )
    }
}

impl BitAndSpecImpl<i16> for short8 {
    open spec fn obeys_bitand_spec() -> bool {
        true
    }

    open spec fn bitand_req(self, rhs: i16) -> bool {
        true
    }

    open spec fn bitand_spec(self, rhs: i16) -> short8 {
        short8(
            self.0 & rhs, self.1 & rhs, self.2 & rhs, self.3 & rhs, self.4 & rhs, self.5 & rhs,
            self.6 & rhs, self.7 & rhs,
        )
    }
}

impl core::ops::BitAnd<short8> for i16 {
    type Output = short8;

    /// The conjunction of the scalar and every lane, bit by bit.
    fn bitand(self, rhs: short8) -> (r: short8) {
        short8(
            self & rhs.0, self & rhs.1, self & rhs.2, self & rhs.3, self & rhs.4, self & rhs.5,
            self & rhs.6, self & rhs.7,
        )
    }
}

impl BitAndSpecImpl<short8> for i16 {
    open spec fn obeys_bitand_spec() -> bool {
        true
    }

    open spec fn bitand_req(self, rhs: short8) -> bool {
        true
    }

    open spec fn bitand_spec(self, rhs: short8) -> short8 {
        short8(
            self & rhs.0, self & rhs.1, self & rhs.2, self & rhs.3, self & rhs.4, self & rhs.5,
            self & rhs.6, self & rhs.7,
        )
    }
}

impl core::ops::BitOr for short8 {
    type Output = short8;

    /// The lane-wise disjunction of the two vectors, bit by bit.
    fn bitor(self, rhs: short8) -> (r: short8) {
        short8(
            self.0 | rhs.0, self.1 | rhs.1, self.2 | rhs.2, self.3 | rhs.3, self.4 | rhs.4,
            self.5 | rhs.5, self.6 | rhs.6, self.7 | rhs.7,
        )
    }
}

impl BitOrSpecImpl for short8 {
    open spec fn obeys_bitor_spec() -> bool {
        true
    }

    open spec fn bitor_req(self, rhs: short8) -> bool {
        true
    }

    open spec fn bitor_spec(self, rhs: short8) -> short8 {
        short8(
            self.0 | rhs.0, self.1 | rhs.1, self.2 | rhs.2, self.3 | rhs.3, self.4 | rhs.4,
            self.5 | rhs.5, self.6 | rhs.6, self.7 | rhs.7,
        )
    }
}

impl core::ops::BitOr<i16> for short8 {
    type Output = short8;

    /// The disjunction of every lane and the scalar, bit by bit.
    fn bitor(self, rhs: i16) -> (r: short8) {
        short8(
            self.0 | rhs, self.1 | rhs, self.2 | rhs, self.3 | rhs, self.4 | rhs, self.5 | rhs,
            self.6 | rhs, self.7 | rhs,
        )
    }
}

impl BitOrSpecImpl<i16> for short8 {
    open spec fn obeys_bitor_spec() -> bool {
        true
    }

    open spec fn bitor_req(self, rhs: i16) -> bool {
        true
    }

    open spec fn bitor_spec(self, rhs: i16) -> short8 {
        short8(
            self.0 | rhs, self.1 | rhs, self.2 | rhs, self.3 | rhs, self.4 | rhs, self.5 | rhs,
            self.6 | rhs, self.7 | rhs,
        )
    }
}

impl core::ops::BitOr<short8> for i16 {
    type Output = short8;

    /// The disjunction of the scalar and every lane, bit by bit.
    fn bitor(self, rhs: short8) -> (r: short8) {
        short8(
            self | rhs.0, self | rhs.1, self | rhs.2, self | rhs.3, self | rhs.4, self | rhs.5,
            self | rhs.6, self | rhs.7,
        )
    }
}

impl BitOrSpecImpl<short8> for i16 {
    open spec fn obeys_bitor_spec() -> bool {
        true
    }

    open spec fn bitor_req(self, rhs: short8) -> bool {
        true
    }

    open spec fn bitor_spec(self, rhs: short8) -> short8 {
        short8(
            self | rhs.0, self | rhs.1, self | rhs.2, self | rhs.3, self | rhs.4, self | rhs.5,
            self | rhs.6, self | rhs.7,
        )
    }
}

impl core::ops::BitXor for short8 {
    type Output = short8;

    /// The lane-wise exclusive disjunction of the two vectors, bit by bit.
    fn bitxor(self, rhs: short8) -> (r: short8) {
        short8(
            self.0 ^ rhs.0, self.1 ^ rhs.1, self.2 ^ rhs.2, self.3 ^ rhs.3, self.4 ^ rhs.4,
            self.5 ^ rhs.5, self.6 ^ rhs.6, self.7 ^ rhs.7,
        )
    }
}

impl BitXorSpecImpl for short8 {
    open spec fn obeys_bitxor_spec() -> bool {
        true
    }

    open spec fn bitxor_req(self, rhs: short8) -> bool {
        true
    }

    open spec fn bitxor_spec(self, rhs: short8) -> short8 {
        short8(
            self.0 ^ rhs.0, self.1 ^ rhs.1, self.2 ^ rhs.2, self.3 ^ rhs.3, self.4 ^ rhs.4,
            self.5 ^ rhs.5, self.6 ^ rhs.6, self.7 ^ rhs.7,
        )
    }
}

impl core::ops::BitXor<i16> for short8 {
    type Output = short8;

    /// The exclusive disjunction of every lane and the scalar, bit by bit.
    fn bitxor(self, rhs: i16) -> (r: short8) {
        short8(
            self.0 ^ rhs, self.1 ^ rhs, self.2 ^ rhs, self.3 ^ rhs, self.4 ^ rhs, self.5 ^ rhs,
            self.6 ^ rhs, self.7 ^ rhs,
        )
    }
}

impl BitXorSpecImpl<i16> for short8 {
    open spec fn obeys_bitxor_spec() -> bool {
        true
    }

    open spec fn bitxor_req(self, rhs: i16) -> bool {
        true
    }

    open spec fn bitxor_spec(self, rhs: i16) -> short8 {
        short8(
            self.0 ^ rhs, self.1 ^ rhs, self.2 ^ rhs, self.3 ^ rhs, self.4 ^ rhs, self.5 ^ rhs,
            self.6 ^ rhs, self.7 ^ rhs,
        )
    }
}

impl core::ops::BitXor<short8> for i16 {
    type Output = short8;

    /// The exclusive disjunction of the scalar and every lane, bit by bit.
    fn bitxor(self, rhs: short8) -> (r: short8) {
        short8(
            self ^ rhs.0, self ^ rhs.1, self ^ rhs.2, self ^ rhs.3, self ^ rhs.4, self ^ rhs.5,
            self ^ rhs.6, self ^ rhs.7,
        )
    }
}

impl BitXorSpecImpl<short8> for i16 {
    open spec fn obeys_bitxor_spec() -> bool {
        true
    }

    open spec fn bitxor_req(self, rhs: short8) -> bool {
        true
    }

    open spec fn bitxor_spec(self, rhs: short8) -> short8 {
        short8(
            self ^ rhs.0, self ^ rhs.1, self ^ rhs.2, self ^ rhs.3, self ^ rhs.4, self ^ rhs.5,
            self ^ rhs.6, self ^ rhs.7,
        )
    }
}

impl core::ops::Shl for short8 {
    type Output = short8;

    /// Every lane shifted left by the lane of `rhs`, which is below 16.
    fn shl(self, rhs: short8) -> (r: short8) {
        short8(
            shl_i16(self.0, rhs.0), shl_i16(self.1, rhs.1), shl_i16(self.2, rhs.2),
            shl_i16(self.3, rhs.3), shl_i16(self.4, rhs.4), shl_i16(self.5, rhs.5),
            shl_i16(self.6, rhs.6), shl_i16(self.7, rhs.7),
        )
    }
}

impl ShlSpecImpl for short8 {
    open spec fn obeys_shl_spec() -> bool {
        true
    }

    open spec fn shl_req(self, rhs: short8) -> bool {
        0 <= rhs.0 < 16 && 0 <= rhs.1 < 16 && 0 <= rhs.2 < 16 && 0 <= rhs.3 < 16 && 0 <= rhs.4 < 16
            && 0 <= rhs.5 < 16 && 0 <= rhs.6 < 16 && 0 <= rhs.7 < 16
    }

    open spec fn shl_spec(self, rhs: short8) -> short8 {
        short8(
            shl_i16(self.0, rhs.0), shl_i16(self.1, rhs.1), shl_i16(self.2, rhs.2),
            shl_i16(self.3, rhs.3), shl_i16(self.4, rhs.4), shl_i16(self.5, rhs.5),
            shl_i16(self.6, rhs.6), shl_i16(self.7, rhs.7),
        )
    }
}

impl core::ops::Shl<i16> for short8 {
    type Output = short8;

    /// Every lane shifted left by `rhs`, which is below 16.
    fn shl(self, rhs: i16) -> (r: short8) {
        short8(
            shl_i16(self.0, rhs), shl_i16(self.1, rhs), shl_i16(self.2, rhs), shl_i16(self.3, rhs),
            shl_i16(self.4, rhs), shl_i16(self.5, rhs), shl_i16(self.6, rhs), shl_i16(self.7, rhs),
        )
    }
}

impl ShlSpecImpl<i16> for short8 {
    open spec fn obeys_shl_spec() -> bool {
        true
    }

    open spec fn shl_req(self, rhs: i16) -> bool {
        0 <= rhs < 16
    }

    open spec fn shl_spec(self, rhs: i16) -> short8 {
        short8(
            shl_i16(self.0, rhs), shl_i16(self.1, rhs), shl_i16(self.2, rhs), shl_i16(self.3, rhs),
            shl_i16(self.4, rhs), shl_i16(self.5, rhs), shl_i16(self.6, rhs), shl_i16(self.7, rhs),
        )
    }
}

impl core::ops::Shl<short8> for i16 {
    type Output = short8;

    /// The scalar shifted left by every lane of `rhs`, each of which is below 16.
    fn shl(self, rhs: short8) -> (r: short8) {
        short8(
            shl_i16(self, rhs.0), shl_i16(self, rhs.1), shl_i16(self, rhs.2), shl_i16(self, rhs.3),
            shl_i16(self, rhs.4), shl_i16(self, rhs.5), shl_i16(self, rhs.6), shl_i16(self, rhs.7),
        )
    }
}

impl ShlSpecImpl<short8> for i16 {
    open spec fn obeys_shl_spec() -> bool {
        true
    }

    open spec fn shl_req(self, rhs: short8) -> bool {
        0 <= rhs.0 < 16 && 0 <= rhs.1 < 16 && 0 <= rhs.2 < 16 && 0 <= rhs.3 < 16 && 0 <= rhs.4 < 16
            && 0 <= rhs.5 < 16 && 0 <= rhs.6 < 16 && 0 <= rhs.7 < 16
    }

    open spec fn shl_spec(self, rhs: short8) -> short8 {
        short8(
            shl_i16(self, rhs.0), shl_i16(self, rhs.1), shl_i16(self, rhs.2), shl_i16(self, rhs.3),
            shl_i16(self, rhs.4), shl_i16(self, rhs.5), shl_i16(self, rhs.6), shl_i16(self, rhs.7),
        )
    }
}

impl core::ops::Shr for short8 {
    type Output = short8;

    /// Every lane shifted right by the lane of `rhs`, which is below 16.
    fn shr(self, rhs: short8) -> (r: short8) {
        short8(
            shr_i16(self.0, rhs.0), shr_i16(self.1, rhs.1), shr_i16(self.2, rhs.2),
            shr_i16(self.3, rhs.3), shr_i16(self.4, rhs.4), shr_i16(self.5, rhs.5),
            shr_i16(self.6, rhs.6), shr_i16(self.7, rhs.7),
        )
    }
}

impl ShrSpecImpl for short8 {
    open spec fn obeys_shr_spec() -> bool {
        true
    }

    open spec fn shr_req(self, rhs: short8) -> bool {
        0 <= rhs.0 < 16 && 0 <= rhs.1 < 16 && 0 <= rhs.2 < 16 && 0 <= rhs.3 < 16 && 0 <= rhs.4 < 16
            && 0 <= rhs.5 < 16 && 0 <= rhs.6 < 16 && 0 <= rhs.7 < 16
    }

    open spec fn shr_spec(self, rhs: short8) -> short8 {
        short8(
            shr_i16(self.0, rhs.0), shr_i16(self.1, rhs.1), shr_i16(self.2, rhs.2),
            shr_i16(self.3, rhs.3), shr_i16(self.4, rhs.4), shr_i16(self.5, rhs.5),
            shr_i16(self.6, rhs.6), shr_i16(self.7, rhs.7),
        )
    }
}

impl core::ops::Shr<i16> for short8 {
    type Output = short8;

    /// Every lane shifted right by `rhs`, which is below 16.
    fn shr(self, rhs: i16) -> (r: short8) {
        short8(
            shr_i16(self.0, rhs), shr_i16(self.1, rhs), shr_i16(self.2, rhs), shr_i16(self.3, rhs),
            shr_i16(self.4, rhs), shr_i16(self.5, rhs), shr_i16(self.6, rhs), shr_i16(self.7, rhs),
        )
    }
}

impl ShrSpecImpl<i16> for short8 {
    open spec fn obeys_shr_spec() -> bool {
        true
    }

    open spec fn shr_req(self, rhs: i16) -> bool {
        0 <= rhs < 16
    }

    open spec fn shr_spec(self, rhs: i16) -> short8 {
        short8(
            shr_i16(self.0, rhs), shr_i16(self.1, rhs), shr_i16(self.2, rhs), shr_i16(self.3, rhs),
            shr_i16(self.4, rhs), shr_i16(self.5, rhs), shr_i16(self.6, rhs), shr_i16(self.7, rhs),
        )
    }
}

impl core::ops::Shr<short8> for i16 {
    type Output = short8;

    /// The scalar shifted right by every lane of `rhs`, each of which is below 16.
    fn shr(self, rhs: short8) -> (r: short8) {
        short8(
            shr_i16(self, rhs.0), shr_i16(self, rhs.1), shr_i16(self, rhs.2), shr_i16(self, rhs.3),
            shr_i16(self, rhs.4), shr_i16(self, rhs.5), shr_i16(self, rhs.6), shr_i16(self, rhs.7),
        )
    }
}

impl ShrSpecImpl<short8> for i16 {
    open spec fn obeys_shr_spec() -> bool {
        true
    }

    open spec fn shr_req(self, rhs: short8) -> bool {
        0 <= rhs.0 < 16 && 0 <= rhs.1 < 16 && 0 <= rhs.2 < 16 && 0 <= rhs.3 < 16 && 0 <= rhs.4 < 16
            && 0 <= rhs.5 < 16 && 0 <= rhs.6 < 16 && 0 <= rhs.7 < 16
    }

    open spec fn shr_spec(self, rhs: short8) -> short8 {
        short8(
            shr_i16(self, rhs.0), shr_i16(self, rhs.1), shr_i16(self, rhs.2), shr_i16(self, rhs.3),
            shr_i16(self, rhs.4), shr_i16(self, rhs.5), shr_i16(self, rhs.6), shr_i16(self, rhs.7),
        )
    }
}

impl core::ops::Rem for short8 {
    type Output = short8;

    /// The lane-wise remainder `self - (self / rhs) * rhs`. No lane of the divisor is zero.
    fn rem(self, rhs: short8) -> (r: short8) {
        short8(
            rem_i16(self.0, rhs.0), rem_i16(self.1, rhs.1), rem_i16(self.2, rhs.2),
            rem_i16(self.3, rhs.3), rem_i16(self.4, rhs.4), rem_i16(self.5, rhs.5),
            rem_i16(self.6, rhs.6), rem_i16(self.7, rhs.7),
        )
    }
}

impl RemSpecImpl for short8 {
    open spec fn obeys_rem_spec() -> bool {
        true
    }

    open spec fn rem_req(self, rhs: short8) -> bool {
        rhs.0 != 0 && rhs.1 != 0 && rhs.2 != 0 && rhs.3 != 0 && rhs.4 != 0 && rhs.5 != 0
            && rhs.6 != 0 && rhs.7 != 0
    }

    open spec fn rem_spec(self, rhs: short8) -> short8 {
        short8(
            rem_i16(self.0, rhs.0), rem_i16(self.1, rhs.1), rem_i16(self.2, rhs.2),
            rem_i16(self.3, rhs.3), rem_i16(self.4, rhs.4), rem_i16(self.5, rhs.5),
            rem_i16(self.6, rhs.6), rem_i16(self.7, rhs.7),
        )
    }
}

impl core::ops::Neg for short8 {
    type Output = short8;

    /// Zero minus every lane, wrapping around.
    fn neg(self) -> (r: short8) {
        short8(
            neg_i16(self.0), neg_i16(self.1), neg_i16(self.2), neg_i16(self.3), neg_i16(self.4),
            neg_i16(self.5), neg_i16(self.6), neg_i16(self.7),
        )
    }
}

impl NegSpecImpl for short8 {
    open spec fn obeys_neg_spec() -> bool {
        true
    }

    open spec fn neg_req(self) -> bool {
        true
    }

    open spec fn neg_spec(self) -> short8 {
        short8(
            neg_i16(self.0), neg_i16(self.1), neg_i16(self.2), neg_i16(self.3), neg_i16(self.4),
            neg_i16(self.5), neg_i16(self.6), neg_i16(self.7),
        )
    }
}

impl core::ops::Not for short8 {
    type Output = short8;

    /// Every lane with every bit flipped.
    fn not(self) -> (r: short8) {
        short8(
            not_i16(self.0), not_i16(self.1), not_i16(self.2), not_i16(self.3), not_i16(self.4),
            not_i16(self.5), not_i16(self.6), not_i16(self.7),
        )
    }
}

impl NotSpecImpl for short8 {
    open spec fn obeys_not_spec() -> bool {
        true
    }

    open spec fn not_req(self) -> bool {
        true
    }

    open spec fn not_spec(self) -> short8 {
        short8(
            not_i16(self.0), not_i16(self.1), not_i16(self.2), not_i16(self.3), not_i16(self.4),
            not_i16(self.5), not_i16(self.6), not_i16(self.7),
        )
    }
}

impl core::convert::From<isize> for short8 {
    /// The vector with `x`, wrapped to `i16`, in every lane.
    fn from(x: isize) -> (r: short8) {
        let v = isize_to_i16(x);
        short8(v, v, v, v, v, v, v, v)
    }
}

impl FromSpecImpl<isize> for short8 {
    open spec fn obeys_from_spec() -> bool {
        true
    }

    open spec fn from_spec(x: isize) -> short8 {
        short8(
            isize_to_i16(x), isize_to_i16(x), isize_to_i16(x), isize_to_i16(x), isize_to_i16(x),
            isize_to_i16(x), isize_to_i16(x), isize_to_i16(x),
        )
    }
}

impl core::ops::Index<u32> for short8 {
    type Output = i16;

    /// Lane `i`, which is below 8.
    fn index(&self, i: u32) -> (r: &i16)
        ensures
            *r == self.lane(i as int),
    {
        match i {
            0 => &self.0,
            1 => &self.1,
            2 => &self.2,
            3 => &self.3,
            4 => &self.4,
            5 => &self.5,
            6 => &self.6,
            _ => &self.7,
        }
    }
}

impl vstd::std_specs::core::IndexSpecImpl<u32> for short8 {
    open spec fn index_req(&self, i: &u32) -> bool {
        *i < 8
    }
}

impl short8 {
    /// Lane `i`, counted from zero.
    pub open spec fn lane(self, i: int) -> i16
        recommends
            0 <= i < 8,
    {
        if i == 0 {
            self.0
        } else if i == 1 {
            self.1
        } else if i == 2 {
            self.2
        } else if i == 3 {
            self.3
        } else if i == 4 {
            self.4
        } else if i == 5 {
            self.5
        } else if i == 6 {
            self.6
        } else {
            self.7
        }
    }

    /// The vector of type `short8` with the bits of `x`, a value of a type that has as many bits,
    /// which is one with images of type `uchar16`.
    pub fn bitcast<U: Bitcast<Image = uchar16>>(x: U) -> (r: short8)
        ensures
            r == spec_bitcast::<U, short8>(x),
    {
        bitcast(x)
    }

    /// The vector with `x` in every lane.
    pub fn broadcast(x: i16) -> (r: short8)
        ensures
            r == short8(x, x, x, x, x, x, x, x),
    {
        short8(x, x, x, x, x, x, x, x)
    }

    /// Lane `i`, which is below 8.
    pub fn extract(self, i: u32) -> (r: i16)
        requires
            i < 8,
        ensures
            r == self.lane(i as int),
    {
        match i {
            0 => self.0,
            1 => self.1,
            2 => self.2,
            3 => self.3,
            4 => self.4,
            5 => self.5,
            6 => self.6,
            _ => self.7,
        }
    }

    /// The vector with `x` in lane `i`, which is below 8, and the other lanes unchanged.
    pub fn replace(self, i: u32, x: i16) -> (r: short8)
        requires
            i < 8,
        ensures
            forall|j: int| 0 <= j < 8 ==> #[trigger] r.lane(j) == (if j == i {
                x
            } else {
                self.lane(j)
            }),
    {
        match i {
            0 => short8(x, self.1, self.2, self.3, self.4, self.5, self.6, self.7),
            1 => short8(self.0, x, self.2, self.3, self.4, self.5, self.6, self.7),
            2 => short8(self.0, self.1, x, self.3, self.4, self.5, self.6, self.7),
            3 => short8(self.0, self.1, self.2, x, self.4, self.5, self.6, self.7),
            4 => short8(self.0, self.1, self.2, self.3, x, self.5, self.6, self.7),
            5 => short8(self.0, self.1, self.2, self.3, self.4, x, self.6, self.7),
            6 => short8(self.0, self.1, self.2, self.3, self.4, self.5, x, self.7),
            _ => short8(self.0, self.1, self.2, self.3, self.4, self.5, self.6, x),
        }
    }

    /// The mask that is all ones where the lanes of `x` and `y` are equal, and zero elsewhere.
    pub fn eq(x: short8, y: short8) -> (r: short8)
        ensures
            r == short8(
                eq_i16(x.0, y.0), eq_i16(x.1, y.1), eq_i16(x.2, y.2), eq_i16(x.3, y.3),
                eq_i16(x.4, y.4), eq_i16(x.5, y.5), eq_i16(x.6, y.6), eq_i16(x.7, y.7),
            ),
    {
        short8(
            eq_i16(x.0, y.0), eq_i16(x.1, y.1), eq_i16(x.2, y.2), eq_i16(x.3, y.3),
            eq_i16(x.4, y.4), eq_i16(x.5, y.5), eq_i16(x.6, y.6), eq_i16(x.7, y.7),
        )
    }

    /// The mask that is all ones where the lanes of `x` and `y` differ, and zero elsewhere.
    pub fn ne(x: short8, y: short8) -> (r: short8)
        ensures
            r == short8(
                ne_i16(x.0, y.0), ne_i16(x.1, y.1), ne_i16(x.2, y.2), ne_i16(x.3, y.3),
                ne_i16(x.4, y.4), ne_i16(x.5, y.5), ne_i16(x.6, y.6), ne_i16(x.7, y.7),
            ),
    {
        short8(
            ne_i16(x.0, y.0), ne_i16(x.1, y.1), ne_i16(x.2, y.2), ne_i16(x.3, y.3),
            ne_i16(x.4, y.4), ne_i16(x.5, y.5), ne_i16(x.6, y.6), ne_i16(x.7, y.7),
        )
    }

    /// The mask that is all ones where the lane of `x` is less than that of `y`, and zero
    /// elsewhere.
    pub fn lt(x: short8, y: short8) -> (r: short8)
        ensures
            r == short8(
                lt_i16(x.0, y.0), lt_i16(x.1, y.1), lt_i16(x.2, y.2), lt_i16(x.3, y.3),
                lt_i16(x.4, y.4), lt_i16(x.5, y.5), lt_i16(x.6, y.6), lt_i16(x.7, y.7),
            ),
    {
        short8(
            lt_i16(x.0, y.0), lt_i16(x.1, y.1), lt_i16(x.2, y.2), lt_i16(x.3, y.3),
            lt_i16(x.4, y.4), lt_i16(x.5, y.5), lt_i16(x.6, y.6), lt_i16(x.7, y.7),
        )
    }

    /// The mask that is all ones where the lane of `x` is at most that of `y`, and zero elsewhere.
    pub fn le(x: short8, y: short8) -> (r: short8)
        ensures
            r == short8(
                le_i16(x.0, y.0), le_i16(x.1, y.1), le_i16(x.2, y.2), le_i16(x.3, y.3),
                le_i16(x.4, y.4), le_i16(x.5, y.5), le_i16(x.6, y.6), le_i16(x.7, y.7),
            ),
    {
        short8(
            le_i16(x.0, y.0), le_i16(x.1, y.1), le_i16(x.2, y.2), le_i16(x.3, y.3),
            le_i16(x.4, y.4), le_i16(x.5, y.5), le_i16(x.6, y.6), le_i16(x.7, y.7),
        )
    }

    /// The mask that is all ones where the lane of `x` is greater than that of `y`, and zero
    /// elsewhere.
    pub fn gt(x: short8, y: short8) -> (r: short8)
        ensures
            r == short8(
                gt_i16(x.0, y.0), gt_i16(x.1, y.1), gt_i16(x.2, y.2), gt_i16(x.3, y.3),
                gt_i16(x.4, y.4), gt_i16(x.5, y.5), gt_i16(x.6, y.6), gt_i16(x.7, y.7),
            ),
    {
        short8(
            gt_i16(x.0, y.0), gt_i16(x.1, y.1), gt_i16(x.2, y.2), gt_i16(x.3, y.3),
            gt_i16(x.4, y.4), gt_i16(x.5, y.5), gt_i16(x.6, y.6), gt_i16(x.7, y.7),
        )
    }

    /// The mask that is all ones where the lane of `x` is at least that of `y`, and zero elsewhere.
    pub fn ge(x: short8, y: short8) -> (r: short8)
        ensures
            r == short8(
                ge_i16(x.0, y.0), ge_i16(x.1, y.1), ge_i16(x.2, y.2), ge_i16(x.3, y.3),
                ge_i16(x.4, y.4), ge_i16(x.5, y.5), ge_i16(x.6, y.6), ge_i16(x.7, y.7),
            ),
    {
        short8(
            ge_i16(x.0, y.0), ge_i16(x.1, y.1), ge_i16(x.2, y.2), ge_i16(x.3, y.3),
            ge_i16(x.4, y.4), ge_i16(x.5, y.5), ge_i16(x.6, y.6), ge_i16(x.7, y.7),
        )
    }

    /// `x * y + z` lane by lane, wrapping around.
    pub fn madd(x: short8, y: short8, z: short8) -> (r: short8)
        ensures
            r == short8(
                madd_i16(x.0, y.0, z.0), madd_i16(x.1, y.1, z.1), madd_i16(x.2, y.2, z.2),
                madd_i16(x.3, y.3, z.3), madd_i16(x.4, y.4, z.4), madd_i16(x.5, y.5, z.5),
                madd_i16(x.6, y.6, z.6), madd_i16(x.7, y.7, z.7),
            ),
    {
        short8(
            madd_i16(x.0, y.0, z.0), madd_i16(x.1, y.1, z.1), madd_i16(x.2, y.2, z.2),
            madd_i16(x.3, y.3, z.3), madd_i16(x.4, y.4, z.4), madd_i16(x.5, y.5, z.5),
            madd_i16(x.6, y.6, z.6), madd_i16(x.7, y.7, z.7),
        )
    }

    /// The magnitude of every lane; that of `i16::MIN` wraps around to `i16::MIN`.
    pub fn abs(x: short8) -> (r: short8)
        ensures
            r == x.spec_abs(),
    {
        short8(
            abs_i16(x.0), abs_i16(x.1), abs_i16(x.2), abs_i16(x.3), abs_i16(x.4), abs_i16(x.5),
            abs_i16(x.6), abs_i16(x.7),
        )
    }

    /// The greater lane of `x` and `y`, lane by lane.
    pub fn max(x: short8, y: short8) -> (r: short8)
        ensures
            r == x.spec_max(y),
    {
        short8(
            max_i16(x.0, y.0), max_i16(x.1, y.1), max_i16(x.2, y.2), max_i16(x.3, y.3),
            max_i16(x.4, y.4), max_i16(x.5, y.5), max_i16(x.6, y.6), max_i16(x.7, y.7),
        )
    }

    /// The smaller lane of `x` and `y`, lane by lane.
    pub fn min(x: short8, y: short8) -> (r: short8)
        ensures
            r == x.spec_min(y),
    {
        short8(
            min_i16(x.0, y.0), min_i16(x.1, y.1), min_i16(x.2, y.2), min_i16(x.3, y.3),
            min_i16(x.4, y.4), min_i16(x.5, y.5), min_i16(x.6, y.6), min_i16(x.7, y.7),
        )
    }

    /// Every lane of `x` raised to at least the lane of `lo`, then lowered to at most that of `hi`.
    pub fn clamp(x: short8, lo: short8, hi: short8) -> (r: short8)
        ensures
            r == x.spec_clamp(lo, hi),
    {
        short8(
            clamp_i16(x.0, lo.0, hi.0), clamp_i16(x.1, lo.1, hi.1), clamp_i16(x.2, lo.2, hi.2),
            clamp_i16(x.3, lo.3, hi.3), clamp_i16(x.4, lo.4, hi.4), clamp_i16(x.5, lo.5, hi.5),
            clamp_i16(x.6, lo.6, hi.6), clamp_i16(x.7, lo.7, hi.7),
        )
    }

    /// The sum of the lanes, wrapping around.
    pub fn reduce_add(x: short8) -> (r: i16)
        ensures
            r == x.spec_reduce_add(),
    {
        let s = add_i16(x.0, x.1);
        let ghost mut t: int = x.0 + x.1;
        proof {
            lemma_wrap_i16_sum(t, x.2 as int);
            t = t + x.2;
        }
        let s = add_i16(s, x.2);
        proof {
            lemma_wrap_i16_sum(t, x.3 as int);
            t = t + x.3;
        }
        let s = add_i16(s, x.3);
        proof {
            lemma_wrap_i16_sum(t, x.4 as int);
            t = t + x.4;
        }
        let s = add_i16(s, x.4);
        proof {
            lemma_wrap_i16_sum(t, x.5 as int);
            t = t + x.5;
        }
        let s = add_i16(s, x.5);
        proof {
            lemma_wrap_i16_sum(t, x.6 as int);
            t = t + x.6;
        }
        let s = add_i16(s, x.6);
        proof {
            lemma_wrap_i16_sum(t, x.7 as int);
            t = t + x.7;
        }
        let s = add_i16(s, x.7);
        s
    }

    /// The smallest lane.
    pub fn reduce_min(x: short8) -> (r: i16)
        ensures
            r == x.spec_reduce_min(),
            r <= x.0 && r <= x.1 && r <= x.2 && r <= x.3 && r <= x.4 && r <= x.5 && r <= x.6
                && r <= x.7,
            r == x.0 || r == x.1 || r == x.2 || r == x.3 || r == x.4 || r == x.5 || r == x.6
                || r == x.7,
    {
        let s = min_i16(x.0, x.1);
        let s = min_i16(s, x.2);
        let s = min_i16(s, x.3);
        let s = min_i16(s, x.4);
        let s = min_i16(s, x.5);
        let s = min_i16(s, x.6);
        let s = min_i16(s, x.7);
        s
    }

    /// The greatest lane.
    pub fn reduce_max(x: short8) -> (r: i16)
        ensures
            r == x.spec_reduce_max(),
            r >= x.0 && r >= x.1 && r >= x.2 && r >= x.3 && r >= x.4 && r >= x.5 && r >= x.6
                && r >= x.7,
            r == x.0 || r == x.1 || r == x.2 || r == x.3 || r == x.4 || r == x.5 || r == x.6
                || r == x.7,
    {
        let s = max_i16(x.0, x.1);
        let s = max_i16(s, x.2);
        let s = max_i16(s, x.3);
        let s = max_i16(s, x.4);
        let s = max_i16(s, x.5);
        let s = max_i16(s, x.6);
        let s = max_i16(s, x.7);
        s
    }

    /// Every lane as `i8`: its low 8 bits, read as `i8`.
    pub fn to_char(x: short8) -> (r: char8)
        ensures
            r == char8(
                i16_to_i8(x.0), i16_to_i8(x.1), i16_to_i8(x.2), i16_to_i8(x.3), i16_to_i8(x.4),
                i16_to_i8(x.5), i16_to_i8(x.6), i16_to_i8(x.7),
            ),
    {
        char8(
            i16_to_i8(x.0), i16_to_i8(x.1), i16_to_i8(x.2), i16_to_i8(x.3), i16_to_i8(x.4),
            i16_to_i8(x.5), i16_to_i8(x.6), i16_to_i8(x.7),
        )
    }

    /// Every lane as `i8`, saturating: a lane outside the range of `i8` gives the nearest bound.
    pub fn to_char_sat(x: short8) -> (r: char8)
        ensures
            r == x.spec_to_char_sat(),
    {
        char8(
            i16_to_i8_sat(x.0), i16_to_i8_sat(x.1), i16_to_i8_sat(x.2), i16_to_i8_sat(x.3),
            i16_to_i8_sat(x.4), i16_to_i8_sat(x.5), i16_to_i8_sat(x.6), i16_to_i8_sat(x.7),
        )
    }

    /// Every lane as `u8`: its low 8 bits, read as `u8`.
    pub fn to_uchar(x: short8) -> (r: uchar8)
        ensures
            r == uchar8(
                i16_to_u8(x.0), i16_to_u8(x.1), i16_to_u8(x.2), i16_to_u8(x.3), i16_to_u8(x.4),
                i16_to_u8(x.5), i16_to_u8(x.6), i16_to_u8(x.7),
            ),
    {
        uchar8(
            i16_to_u8(x.0), i16_to_u8(x.1), i16_to_u8(x.2), i16_to_u8(x.3), i16_to_u8(x.4),
            i16_to_u8(x.5), i16_to_u8(x.6), i16_to_u8(x.7),
        )
    }

    /// Every lane as `u8`, saturating: a lane outside the range of `u8` gives the nearest bound.
    pub fn to_uchar_sat(x: short8) -> (r: uchar8)
        ensures
            r == x.spec_to_uchar_sat(),
    {
        uchar8(
            i16_to_u8_sat(x.0), i16_to_u8_sat(x.1), i16_to_u8_sat(x.2), i16_to_u8_sat(x.3),
            i16_to_u8_sat(x.4), i16_to_u8_sat(x.5), i16_to_u8_sat(x.6), i16_to_u8_sat(x.7),
        )
    }

    /// The vector itself: its lanes are `i16` already.
    pub fn to_short(x: short8) -> (r: short8)
        ensures
            r == x,
    {
        x
    }

    /// The vector itself: its lanes are `i16` already, and nothing saturates.
    pub fn to_short_sat(x: short8) -> (r: short8)
        ensures
            r == x.spec_to_short_sat(),
    {
        x
    }

    /// Every lane as `u16`: the same bits, read as `u16`.
    pub fn to_ushort(x: short8) -> (r: ushort8)
        ensures
            r == ushort8(
                i16_to_u16(x.0), i16_to_u16(x.1), i16_to_u16(x.2), i16_to_u16(x.3), i16_to_u16(x.4),
                i16_to_u16(x.5), i16_to_u16(x.6), i16_to_u16(x.7),
            ),
    {
        ushort8(
            i16_to_u16(x.0), i16_to_u16(x.1), i16_to_u16(x.2), i16_to_u16(x.3), i16_to_u16(x.4),
            i16_to_u16(x.5), i16_to_u16(x.6), i16_to_u16(x.7),
        )
    }

    /// Every lane as `u16`, saturating: a lane outside the range of `u16` gives the nearest bound.
    pub fn to_ushort_sat(x: short8) -> (r: ushort8)
        ensures
            r == x.spec_to_ushort_sat(),
    {
        ushort8(
            i16_to_u16_sat(x.0), i16_to_u16_sat(x.1), i16_to_u16_sat(x.2), i16_to_u16_sat(x.3),
            i16_to_u16_sat(x.4), i16_to_u16_sat(x.5), i16_to_u16_sat(x.6), i16_to_u16_sat(x.7),
        )
    }

    /// Every lane as `i32`, which holds every `i16`.
    pub fn to_int(x: short8) -> (r: int8)
        ensures
            r == int8(
                i16_to_i32(x.0), i16_to_i32(x.1), i16_to_i32(x.2), i16_to_i32(x.3), i16_to_i32(x.4),
                i16_to_i32(x.5), i16_to_i32(x.6), i16_to_i32(x.7),
            ),
    {
        int8(
            i16_to_i32(x.0), i16_to_i32(x.1), i16_to_i32(x.2), i16_to_i32(x.3), i16_to_i32(x.4),
            i16_to_i32(x.5), i16_to_i32(x.6), i16_to_i32(x.7),
        )
    }

    /// Every lane as `i32`, saturating; nothing saturates, since `i32` holds every `i16`.
    pub fn to_int_sat(x: short8) -> (r: int8)
        ensures
            r == x.spec_to_int_sat(),
    {
        int8(
            i16_to_i32_sat(x.0), i16_to_i32_sat(x.1), i16_to_i32_sat(x.2), i16_to_i32_sat(x.3),
            i16_to_i32_sat(x.4), i16_to_i32_sat(x.5), i16_to_i32_sat(x.6), i16_to_i32_sat(x.7),
        )
    }

    /// Every lane as `u32`, sign-extended: a negative lane wraps around.
    pub fn to_uint(x: short8) -> (r: uint8)
        ensures
            r == uint8(
                i16_to_u32(x.0), i16_to_u32(x.1), i16_to_u32(x.2), i16_to_u32(x.3), i16_to_u32(x.4),
                i16_to_u32(x.5), i16_to_u32(x.6), i16_to_u32(x.7),
            ),
    {
        uint8(
            i16_to_u32(x.0), i16_to_u32(x.1), i16_to_u32(x.2), i16_to_u32(x.3), i16_to_u32(x.4),
            i16_to_u32(x.5), i16_to_u32(x.6), i16_to_u32(x.7),
        )
    }

    /// Every lane as `u32`, saturating: a lane outside the range of `u32` gives the nearest bound.
    pub fn to_uint_sat(x: short8) -> (r: uint8)
        ensures
            r == x.spec_to_uint_sat(),
    {
        uint8(
            i16_to_u32_sat(x.0), i16_to_u32_sat(x.1), i16_to_u32_sat(x.2), i16_to_u32_sat(x.3),
            i16_to_u32_sat(x.4), i16_to_u32_sat(x.5), i16_to_u32_sat(x.6), i16_to_u32_sat(x.7),
        )
    }

    /// Every lane as `i64`, which holds every `i16`.
    pub fn to_long(x: short8) -> (r: long8)
        ensures
            r == long8(
                i16_to_i64(x.0), i16_to_i64(x.1), i16_to_i64(x.2), i16_to_i64(x.3), i16_to_i64(x.4),
                i16_to_i64(x.5), i16_to_i64(x.6), i16_to_i64(x.7),
            ),
    {
        long8(
            i16_to_i64(x.0), i16_to_i64(x.1), i16_to_i64(x.2), i16_to_i64(x.3), i16_to_i64(x.4),
            i16_to_i64(x.5), i16_to_i64(x.6), i16_to_i64(x.7),
        )
    }

    /// Every lane as `i64`, saturating; nothing saturates, since `i64` holds every `i16`.
    pub fn to_long_sat(x: short8) -> (r: long8)
        ensures
            r == x.spec_to_long_sat(),
    {
        long8(
            i16_to_i64_sat(x.0), i16_to_i64_sat(x.1), i16_to_i64_sat(x.2), i16_to_i64_sat(x.3),
            i16_to_i64_sat(x.4), i16_to_i64_sat(x.5), i16_to_i64_sat(x.6), i16_to_i64_sat(x.7),
        )
    }

    /// Every lane as `u64`, sign-extended: a negative lane wraps around.
    pub fn to_ulong(x: short8) -> (r: ulong8)
        ensures
            r == ulong8(
                i16_to_u64(x.0), i16_to_u64(x.1), i16_to_u64(x.2), i16_to_u64(x.3), i16_to_u64(x.4),
                i16_to_u64(x.5), i16_to_u64(x.6), i16_to_u64(x.7),
            ),
    {
        ulong8(
            i16_to_u64(x.0), i16_to_u64(x.1), i16_to_u64(x.2), i16_to_u64(x.3), i16_to_u64(x.4),
            i16_to_u64(x.5), i16_to_u64(x.6), i16_to_u64(x.7),
        )
    }

    /// Every lane as `u64`, saturating: a lane outside the range of `u64` gives the nearest bound.
    pub fn to_ulong_sat(x: short8) -> (r: ulong8)
        ensures
            r == x.spec_to_ulong_sat(),
    {
        ulong8(
            i16_to_u64_sat(x.0), i16_to_u64_sat(x.1), i16_to_u64_sat(x.2), i16_to_u64_sat(x.3),
            i16_to_u64_sat(x.4), i16_to_u64_sat(x.5), i16_to_u64_sat(x.6), i16_to_u64_sat(x.7),
        )
    }

    /// The low half: lanes 0 to 3.
    pub fn lo(self) -> (r: short4)
        ensures
            r == short4(self.0, self.1, self.2, self.3),
    {
        short4(self.0, self.1, self.2, self.3)
    }

    /// The high half: lanes 4 to 7.
    pub fn hi(self) -> (r: short4)
        ensures
            r == short4(self.4, self.5, self.6, self.7),
    {
        short4(self.4, self.5, self.6, self.7)
    }

    /// The odd lanes: lanes 1, 3 and so on.
    pub fn odd(self) -> (r: short4)
        ensures
            r == short4(self.1, self.3, self.5, self.7),
    {
        short4(self.1, self.3, self.5, self.7)
    }

    /// The even lanes: lanes 0, 2 and so on.
    pub fn even(self) -> (r: short4)
        ensures
            r == short4(self.0, self.2, self.4, self.6),
    {
        short4(self.0, self.2, self.4, self.6)
    }

    /// The vector of `f` applied to every lane. `f` accepts every lane.
    pub fn map_unary<F: Fn(i16) -> i16>(self, f: F) -> (r: short8)
        requires
            call_requires(f, (self.0,)),
            call_requires(f, (self.1,)),
            call_requires(f, (self.2,)),
            call_requires(f, (self.3,)),
            call_requires(f, (self.4,)),
            call_requires(f, (self.5,)),
            call_requires(f, (self.6,)),
            call_requires(f, (self.7,)),
        ensures
            call_ensures(f, (self.0,), r.0),
            call_ensures(f, (self.1,), r.1),
            call_ensures(f, (self.2,), r.2),
            call_ensures(f, (self.3,), r.3),
            call_ensures(f, (self.4,), r.4),
            call_ensures(f, (self.5,), r.5),
            call_ensures(f, (self.6,), r.6),
            call_ensures(f, (self.7,), r.7),
    {
        short8(
            f(self.0), f(self.1), f(self.2), f(self.3), f(self.4), f(self.5), f(self.6), f(self.7),
        )
    }

    /// The vector of `f` applied to the lanes of the two vectors, lane by lane. `f` accepts every
    /// such pair of lanes.
    pub fn map_binary<F: Fn(i16, i16) -> i16>(self, other: short8, f: F) -> (r: short8)
        requires
            call_requires(f, (self.0, other.0)),
            call_requires(f, (self.1, other.1)),
            call_requires(f, (self.2, other.2)),
            call_requires(f, (self.3, other.3)),
            call_requires(f, (self.4, other.4)),
            call_requires(f, (self.5, other.5)),
            call_requires(f, (self.6, other.6)),
            call_requires(f, (self.7, other.7)),
        ensures
            call_ensures(f, (self.0, other.0), r.0),
            call_ensures(f, (self.1, other.1), r.1),
            call_ensures(f, (self.2, other.2), r.2),
            call_ensures(f, (self.3, other.3), r.3),
            call_ensures(f, (self.4, other.4), r.4),
            call_ensures(f, (self.5, other.5), r.5),
            call_ensures(f, (self.6, other.6), r.6),
            call_ensures(f, (self.7, other.7), r.7),
    {
        short8(
            f(self.0, other.0), f(self.1, other.1), f(self.2, other.2), f(self.3, other.3),
            f(self.4, other.4), f(self.5, other.5), f(self.6, other.6), f(self.7, other.7),
        )
    }

    /// The lanes folded by `f`, from lane 0 upward: `f` is applied to lane 1 and lane 0, then to
    /// each further lane and what the lanes below it gave. `f` accepts every pair of scalars.
    pub fn reduce<F: Fn(i16, i16) -> i16>(self, f: F) -> (r: i16)
        requires
            forall|a: i16, b: i16| call_requires(f, (a, b)),
        ensures
            exists|s1: i16, s2: i16, s3: i16, s4: i16, s5: i16, s6: i16|
                call_ensures(f, (self.1, self.0), s1)
                    && call_ensures(f, (self.2, s1), s2)
                    && call_ensures(f, (self.3, s2), s3)
                    && call_ensures(f, (self.4, s3), s4)
                    && call_ensures(f, (self.5, s4), s5)
                    && call_ensures(f, (self.6, s5), s6)
                    && call_ensures(f, (self.7, s6), r),
    {
        let s1 = f(self.1, self.0);
        let s2 = f(self.2, s1);
        let s3 = f(self.3, s2);
        let s4 = f(self.4, s3);
        let s5 = f(self.5, s4);
        let s6 = f(self.6, s5);
        let s7 = f(self.7, s6);
        s7
    }

    /// Addition commutes.
    pub proof fn lemma_add_commutes(x: short8, y: short8)
        ensures
            AddSpec::add_spec(x, y) == AddSpec::add_spec(y, x),
    {
        lemma_arith_i16(x.0, y.0, 0);
        lemma_arith_i16(x.1, y.1, 0);
        lemma_arith_i16(x.2, y.2, 0);
        lemma_arith_i16(x.3, y.3, 0);
        lemma_arith_i16(x.4, y.4, 0);
        lemma_arith_i16(x.5, y.5, 0);
        lemma_arith_i16(x.6, y.6, 0);
        lemma_arith_i16(x.7, y.7, 0);
    }

    /// Addition associates, wrap-around or not.
    pub proof fn lemma_add_associates(x: short8, y: short8, z: short8)
        ensures
            AddSpec::add_spec(AddSpec::add_spec(x, y), z)
                == AddSpec::add_spec(x, AddSpec::add_spec(y, z)),
    {
        lemma_arith_i16(x.0, y.0, z.0);
        lemma_arith_i16(x.1, y.1, z.1);
        lemma_arith_i16(x.2, y.2, z.2);
        lemma_arith_i16(x.3, y.3, z.3);
        lemma_arith_i16(x.4, y.4, z.4);
        lemma_arith_i16(x.5, y.5, z.5);
        lemma_arith_i16(x.6, y.6, z.6);
        lemma_arith_i16(x.7, y.7, z.7);
    }

    /// Swapping the operands of a subtraction negates the difference.
    pub proof fn lemma_sub_swaps(x: short8, y: short8)
        ensures
            SubSpec::sub_spec(x, y) == NegSpec::neg_spec(SubSpec::sub_spec(y, x)),
    {
        lemma_arith_i16(x.0, y.0, 0);
        lemma_arith_i16(x.1, y.1, 0);
        lemma_arith_i16(x.2, y.2, 0);
        lemma_arith_i16(x.3, y.3, 0);
        lemma_arith_i16(x.4, y.4, 0);
        lemma_arith_i16(x.5, y.5, 0);
        lemma_arith_i16(x.6, y.6, 0);
        lemma_arith_i16(x.7, y.7, 0);
    }

    /// The magnitude of a magnitude is that magnitude, and the magnitude of a lane other than
    /// `i16::MIN` is not negative.
    pub proof fn lemma_abs(x: short8)
        ensures
            x.spec_abs().spec_abs() == x.spec_abs(),
            forall|i: int|
                0 <= i < 8 && x.lane(i) != i16::MIN ==> #[trigger] x.spec_abs().lane(i) >= 0,
            forall|i: int|
                0 <= i < 8 && x.lane(i) == i16::MIN ==> #[trigger] x.spec_abs().lane(i) == i16::MIN,
    {
        lemma_abs_i16(x.0);
        lemma_abs_i16(x.1);
        lemma_abs_i16(x.2);
        lemma_abs_i16(x.3);
        lemma_abs_i16(x.4);
        lemma_abs_i16(x.5);
        lemma_abs_i16(x.6);
        lemma_abs_i16(x.7);
    }

    /// Flipping every bit of a lane gives minus one minus the lane.
    pub proof fn lemma_not(x: short8)
        ensures
            forall|i: int| 0 <= i < 8 ==> #[trigger] NotSpec::not_spec(x).lane(i) == -1 - x.lane(i),
    {
        lemma_not_i16(x.0);
        lemma_not_i16(x.1);
        lemma_not_i16(x.2);
        lemma_not_i16(x.3);
        lemma_not_i16(x.4);
        lemma_not_i16(x.5);
        lemma_not_i16(x.6);
        lemma_not_i16(x.7);
    }

    /// The lanes of a vector with `k` in every lane add up to 8 times `k`, wrapped around.
    pub proof fn lemma_reduce_add_broadcast(k: i16)
        ensures
            short8(k, k, k, k, k, k, k, k).spec_reduce_add() == wrap_i16(8 * k),
    {
    }

    /// Saturating conversion to `i8` gives, lane by lane, the lane itself where `i8` holds it and
    /// the nearest bound of `i8` where it does not.
    pub proof fn lemma_to_char_sat(x: short8)
        ensures
            forall|i: int|
                0 <= i < 8 ==> #[trigger] x.spec_to_char_sat().lane(i) == sat_i8(x.lane(i) as int),
    {
    }

    /// Saturating conversion to `u8` gives, lane by lane, the lane itself where `u8` holds it and
    /// the nearest bound of `u8` where it does not.
    pub proof fn lemma_to_uchar_sat(x: short8)
        ensures
            forall|i: int|
                0 <= i < 8 ==> #[trigger] x.spec_to_uchar_sat().lane(i) == sat_u8(x.lane(i) as int),
    {
    }

    /// Saturating conversion to `u16` gives, lane by lane, the lane itself where `u16` holds it and
    /// the nearest bound of `u16` where it does not.
    pub proof fn lemma_to_ushort_sat(x: short8)
        ensures
            forall|i: int|
                0 <= i < 8 ==>
                    #[trigger] x.spec_to_ushort_sat().lane(i) == sat_u16(x.lane(i) as int),
    {
    }

    /// Saturating conversion to `i32` gives every lane unchanged: `i32` holds every `i16`.
    pub proof fn lemma_to_int_sat(x: short8)
        ensures
            forall|i: int|
                0 <= i < 8 ==> #[trigger] x.spec_to_int_sat().lane(i) == sat_i32(x.lane(i) as int),
            forall|i: int| 0 <= i < 8 ==> #[trigger] x.spec_to_int_sat().lane(i) == x.lane(i),
    {
    }

    /// Saturating conversion to `u32` gives, lane by lane, the lane itself where `u32` holds it and
    /// the nearest bound of `u32` where it does not.
    pub proof fn lemma_to_uint_sat(x: short8)
        ensures
            forall|i: int|
                0 <= i < 8 ==> #[trigger] x.spec_to_uint_sat().lane(i) == sat_u32(x.lane(i) as int),
    {
    }

    /// Saturating conversion to `i64` gives every lane unchanged: `i64` holds every `i16`.
    pub proof fn lemma_to_long_sat(x: short8)
        ensures
            forall|i: int|
                0 <= i < 8 ==> #[trigger] x.spec_to_long_sat().lane(i) == sat_i64(x.lane(i) as int),
            forall|i: int| 0 <= i < 8 ==> #[trigger] x.spec_to_long_sat().lane(i) == x.lane(i),
    {
    }

    /// Saturating conversion to `u64` gives, lane by lane, the lane itself where `u64` holds it and
    /// the nearest bound of `u64` where it does not.
    pub proof fn lemma_to_ulong_sat(x: short8)
        ensures
            forall|i: int|
                0 <= i < 8 ==>
                    #[trigger] x.spec_to_ulong_sat().lane(i) == sat_u64(x.lane(i) as int),
    {
    }
}

impl Vector for short8 {
    type Scalar = i16;

    type Boolean = short8;

    type CharVector = char8;

    type ShortVector = short8;

    type IntVector = int8;

    type LongVector = long8;

    type UCharVector = uchar8;

    type UShortVector = ushort8;

    type UIntVector = uint8;

    type ULongVector = ulong8;

    type FloatVector = float8;

    type DoubleVector = double8;

    open spec fn spec_abs(self) -> short8 {
        short8(
            abs_i16(self.0), abs_i16(self.1), abs_i16(self.2), abs_i16(self.3), abs_i16(self.4),
            abs_i16(self.5), abs_i16(self.6), abs_i16(self.7),
        )
    }

    open spec fn spec_max(self, other: short8) -> short8 {
        short8(
            max_i16(self.0, other.0), max_i16(self.1, other.1), max_i16(self.2, other.2),
            max_i16(self.3, other.3), max_i16(self.4, other.4), max_i16(self.5, other.5),
            max_i16(self.6, other.6), max_i16(self.7, other.7),
        )
    }

    open spec fn spec_min(self, other: short8) -> short8 {
        short8(
            min_i16(self.0, other.0), min_i16(self.1, other.1), min_i16(self.2, other.2),
            min_i16(self.3, other.3), min_i16(self.4, other.4), min_i16(self.5, other.5),
            min_i16(self.6, other.6), min_i16(self.7, other.7),
        )
    }

    open spec fn spec_clamp(self, lo: short8, hi: short8) -> short8 {
        short8(
            clamp_i16(self.0, lo.0, hi.0), clamp_i16(self.1, lo.1, hi.1),
            clamp_i16(self.2, lo.2, hi.2), clamp_i16(self.3, lo.3, hi.3),
            clamp_i16(self.4, lo.4, hi.4), clamp_i16(self.5, lo.5, hi.5),
            clamp_i16(self.6, lo.6, hi.6), clamp_i16(self.7, lo.7, hi.7),
        )
    }

    open spec fn spec_reduce_add(self) -> i16 {
        wrap_i16(self.0 + self.1 + self.2 + self.3 + self.4 + self.5 + self.6 + self.7)
    }

    open spec fn spec_reduce_min(self) -> i16 {
        let s = min_i16(self.0, self.1);
        let s = min_i16(s, self.2);
        let s = min_i16(s, self.3);
        let s = min_i16(s, self.4);
        let s = min_i16(s, self.5);
        let s = min_i16(s, self.6);
        let s = min_i16(s, self.7);
        s
    }

    open spec fn spec_reduce_max(self) -> i16 {
        let s = max_i16(self.0, self.1);
        let s = max_i16(s, self.2);
        let s = max_i16(s, self.3);
        let s = max_i16(s, self.4);
        let s = max_i16(s, self.5);
        let s = max_i16(s, self.6);
        let s = max_i16(s, self.7);
        s
    }

    open spec fn spec_to_char_sat(self) -> char8 {
        char8(
            i16_to_i8_sat(self.0), i16_to_i8_sat(self.1), i16_to_i8_sat(self.2),
            i16_to_i8_sat(self.3), i16_to_i8_sat(self.4), i16_to_i8_sat(self.5),
            i16_to_i8_sat(self.6), i16_to_i8_sat(self.7),
        )
    }

    open spec fn spec_to_uchar_sat(self) -> uchar8 {
        uchar8(
            i16_to_u8_sat(self.0), i16_to_u8_sat(self.1), i16_to_u8_sat(self.2),
            i16_to_u8_sat(self.3), i16_to_u8_sat(self.4), i16_to_u8_sat(self.5),
            i16_to_u8_sat(self.6), i16_to_u8_sat(self.7),
        )
    }

    open spec fn spec_to_short_sat(self) -> short8 {
        self
    }

    open spec fn spec_to_ushort_sat(self) -> ushort8 {
        ushort8(
            i16_to_u16_sat(self.0), i16_to_u16_sat(self.1), i16_to_u16_sat(self.2),
            i16_to_u16_sat(self.3), i16_to_u16_sat(self.4), i16_to_u16_sat(self.5),
            i16_to_u16_sat(self.6), i16_to_u16_sat(self.7),
        )
    }

    open spec fn spec_to_int_sat(self) -> int8 {
        int8(
            i16_to_i32_sat(self.0), i16_to_i32_sat(self.1), i16_to_i32_sat(self.2),
            i16_to_i32_sat(self.3), i16_to_i32_sat(self.4), i16_to_i32_sat(self.5),
            i16_to_i32_sat(self.6), i16_to_i32_sat(self.7),
        )
    }

    open spec fn spec_to_uint_sat(self) -> uint8 {
        uint8(
            i16_to_u32_sat(self.0), i16_to_u32_sat(self.1), i16_to_u32_sat(self.2),
            i16_to_u32_sat(self.3), i16_to_u32_sat(self.4), i16_to_u32_sat(self.5),
            i16_to_u32_sat(self.6), i16_to_u32_sat(self.7),
        )
    }

    open spec fn spec_to_long_sat(self) -> long8 {
        long8(
            i16_to_i64_sat(self.0), i16_to_i64_sat(self.1), i16_to_i64_sat(self.2),
            i16_to_i64_sat(self.3), i16_to_i64_sat(self.4), i16_to_i64_sat(self.5),
            i16_to_i64_sat(self.6), i16_to_i64_sat(self.7),
        )
    }

    open spec fn spec_to_ulong_sat(self) -> ulong8 {
        ulong8(
            i16_to_u64_sat(self.0), i16_to_u64_sat(self.1), i16_to_u64_sat(self.2),
            i16_to_u64_sat(self.3), i16_to_u64_sat(self.4), i16_to_u64_sat(self.5),
            i16_to_u64_sat(self.6), i16_to_u64_sat(self.7),
        )
    }

    fn abs(self) -> (r: short8) {
        short8::abs(self)
    }

    fn max(self, other: short8) -> (r: short8) {
        short8::max(self, other)
    }

    fn min(self, other: short8) -> (r: short8) {
        short8::min(self, other)
    }

    fn clamp(self, lo: short8, hi: short8) -> (r: short8) {
        short8::clamp(self, lo, hi)
    }

    fn reduce_add(self) -> (r: i16) {
        short8::reduce_add(self)
    }

    fn reduce_min(self) -> (r: i16) {
        short8::reduce_min(self)
    }

    fn reduce_max(self) -> (r: i16) {
        short8::reduce_max(self)
    }

    fn to_char_sat(self) -> (r: char8) {
        short8::to_char_sat(self)
    }

    fn to_uchar_sat(self) -> (r: uchar8) {
        short8::to_uchar_sat(self)
    }

    fn to_short_sat(self) -> (r: short8) {
        short8::to_short_sat(self)
    }

    fn to_ushort_sat(self) -> (r: ushort8) {
        short8::to_ushort_sat(self)
    }

    fn to_int_sat(self) -> (r: int8) {
        short8::to_int_sat(self)
    }

    fn to_uint_sat(self) -> (r: uint8) {
        short8::to_uint_sat(self)
    }

    fn to_long_sat(self) -> (r: long8) {
        short8::to_long_sat(self)
    }

    fn to_ulong_sat(self) -> (r: ulong8) {
        short8::to_ulong_sat(self)
    }
}

impl Integer for short8 {
    open spec fn spec_reduce_and(self) -> i16 {
        self.0 & self.1 & self.2 & self.3 & self.4 & self.5 & self.6 & self.7
    }

    open spec fn spec_reduce_or(self) -> i16 {
        self.0 | self.1 | self.2 | self.3 | self.4 | self.5 | self.6 | self.7
    }

    open spec fn spec_reduce_xor(self) -> i16 {
        self.0 ^ self.1 ^ self.2 ^ self.3 ^ self.4 ^ self.5 ^ self.6 ^ self.7
    }

    open spec fn spec_all(self) -> bool {
        truth_i16(self.0) && truth_i16(self.1) && truth_i16(self.2) && truth_i16(self.3)
            && truth_i16(self.4) && truth_i16(self.5) && truth_i16(self.6) && truth_i16(self.7)
    }

    open spec fn spec_any(self) -> bool {
        truth_i16(self.0) || truth_i16(self.1) || truth_i16(self.2) || truth_i16(self.3)
            || truth_i16(self.4) || truth_i16(self.5) || truth_i16(self.6) || truth_i16(self.7)
    }

    fn reduce_and(self) -> (r: i16) {
        self.0 & self.1 & self.2 & self.3 & self.4 & self.5 & self.6 & self.7
    }

    fn reduce_or(self) -> (r: i16) {
        self.0 | self.1 | self.2 | self.3 | self.4 | self.5 | self.6 | self.7
    }

    fn reduce_xor(self) -> (r: i16) {
        self.0 ^ self.1 ^ self.2 ^ self.3 ^ self.4 ^ self.5 ^ self.6 ^ self.7
    }

    fn all(self) -> (r: bool) {
        proof {
            let s = self.0 & self.1;
            lemma_bits_i16(self.0, self.1, 0, 0);
            lemma_bits_i16(s, self.2, 0, 0);
            let s = s & self.2;
            lemma_bits_i16(s, self.3, 0, 0);
            let s = s & self.3;
            lemma_bits_i16(s, self.4, 0, 0);
            let s = s & self.4;
            lemma_bits_i16(s, self.5, 0, 0);
            let s = s & self.5;
            lemma_bits_i16(s, self.6, 0, 0);
            let s = s & self.6;
            lemma_bits_i16(s, self.7, 0, 0);
        }
        truth_i16(self.reduce_and())
    }

    fn any(self) -> (r: bool) {
        proof {
            let s = self.0 | self.1;
            lemma_bits_i16(self.0, self.1, 0, 0);
            lemma_bits_i16(s, self.2, 0, 0);
            let s = s | self.2;
            lemma_bits_i16(s, self.3, 0, 0);
            let s = s | self.3;
            lemma_bits_i16(s, self.4, 0, 0);
            let s = s | self.4;
            lemma_bits_i16(s, self.5, 0, 0);
            let s = s | self.5;
            lemma_bits_i16(s, self.6, 0, 0);
            let s = s | self.6;
            lemma_bits_i16(s, self.7, 0, 0);
        }
        truth_i16(self.reduce_or())
    }
}

impl Dot for short8 {
    type DotProduct = i16;

    open spec fn spec_dot(self, other: short8) -> i16 {
        wrap_i16(
            self.0 * other.0 + self.1 * other.1 + self.2 * other.2 + self.3 * other.3
                + self.4 * other.4 + self.5 * other.5 + self.6 * other.6 + self.7 * other.7
        )
    }

    fn dot(self, other: short8) -> (r: i16) {
        let s = mul_i16(self.0, other.0);
        let ghost mut t: int = self.0 * other.0;
        proof {
            lemma_wrap_i16_sum(t, self.1 * other.1);
            t = t + self.1 * other.1;
        }
        let s = madd_i16(self.1, other.1, s);
        proof {
            lemma_wrap_i16_sum(t, self.2 * other.2);
            t = t + self.2 * other.2;
        }
        let s = madd_i16(self.2, other.2, s);
        proof {
            lemma_wrap_i16_sum(t, self.3 * other.3);
            t = t + self.3 * other.3;
        }
        let s = madd_i16(self.3, other.3, s);
        proof {
            lemma_wrap_i16_sum(t, self.4 * other.4);
            t = t + self.4 * other.4;
        }
        let s = madd_i16(self.4, other.4, s);
        proof {
            lemma_wrap_i16_sum(t, self.5 * other.5);
            t = t + self.5 * other.5;
        }
        let s = madd_i16(self.5, other.5, s);
        proof {
            lemma_wrap_i16_sum(t, self.6 * other.6);
            t = t + self.6 * other.6;
        }
        let s = madd_i16(self.6, other.6, s);
        proof {
            lemma_wrap_i16_sum(t, self.7 * other.7);
            t = t + self.7 * other.7;
        }
        let s = madd_i16(self.7, other.7, s);
        s
    }
}

impl Select<short8> for short8 {
    open spec fn spec_select(self, a: short8, b: short8) -> short8 {
        short8(
            select_i16(self.0, a.0, b.0), select_i16(self.1, a.1, b.1),
            select_i16(self.2, a.2, b.2), select_i16(self.3, a.3, b.3),
            select_i16(self.4, a.4, b.4), select_i16(self.5, a.5, b.5),
            select_i16(self.6, a.6, b.6), select_i16(self.7, a.7, b.7),
        )
    }

    open spec fn spec_bitselect(self, a: short8, b: short8) -> short8 {
        short8(
            bitselect_i16(self.0, a.0, b.0), bitselect_i16(self.1, a.1, b.1),
            bitselect_i16(self.2, a.2, b.2), bitselect_i16(self.3, a.3, b.3),
            bitselect_i16(self.4, a.4, b.4), bitselect_i16(self.5, a.5, b.5),
            bitselect_i16(self.6, a.6, b.6), bitselect_i16(self.7, a.7, b.7),
        )
    }

    fn select(self, a: short8, b: short8) -> (r: short8) {
        short8(
            select_i16(self.0, a.0, b.0), select_i16(self.1, a.1, b.1),
            select_i16(self.2, a.2, b.2), select_i16(self.3, a.3, b.3),
            select_i16(self.4, a.4, b.4), select_i16(self.5, a.5, b.5),
            select_i16(self.6, a.6, b.6), select_i16(self.7, a.7, b.7),
        )
    }

    fn bitselect(self, a: short8, b: short8) -> (r: short8) {
        short8(
            bitselect_i16(self.0, a.0, b.0), bitselect_i16(self.1, a.1, b.1),
            bitselect_i16(self.2, a.2, b.2), bitselect_i16(self.3, a.3, b.3),
            bitselect_i16(self.4, a.4, b.4), bitselect_i16(self.5, a.5, b.5),
            bitselect_i16(self.6, a.6, b.6), bitselect_i16(self.7, a.7, b.7),
        )
    }
}

impl Select<ushort8> for short8 {
    open spec fn spec_select(self, a: ushort8, b: ushort8) -> ushort8 {
        ushort8(
            select_u16(self.0, a.0, b.0), select_u16(self.1, a.1, b.1),
            select_u16(self.2, a.2, b.2), select_u16(self.3, a.3, b.3),
            select_u16(self.4, a.4, b.4), select_u16(self.5, a.5, b.5),
            select_u16(self.6, a.6, b.6), select_u16(self.7, a.7, b.7),
        )
    }

    open spec fn spec_bitselect(self, a: ushort8, b: ushort8) -> ushort8 {
        ushort8(
            bitselect_u16(self.0, a.0, b.0), bitselect_u16(self.1, a.1, b.1),
            bitselect_u16(self.2, a.2, b.2), bitselect_u16(self.3, a.3, b.3),
            bitselect_u16(self.4, a.4, b.4), bitselect_u16(self.5, a.5, b.5),
            bitselect_u16(self.6, a.6, b.6), bitselect_u16(self.7, a.7, b.7),
        )
    }

    fn select(self, a: ushort8, b: ushort8) -> (r: ushort8) {
        ushort8(
            select_u16(self.0, a.0, b.0), select_u16(self.1, a.1, b.1),
            select_u16(self.2, a.2, b.2), select_u16(self.3, a.3, b.3),
            select_u16(self.4, a.4, b.4), select_u16(self.5, a.5, b.5),
            select_u16(self.6, a.6, b.6), select_u16(self.7, a.7, b.7),
        )
    }

    fn bitselect(self, a: ushort8, b: ushort8) -> (r: ushort8) {
        ushort8(
            bitselect_u16(self.0, a.0, b.0), bitselect_u16(self.1, a.1, b.1),
            bitselect_u16(self.2, a.2, b.2), bitselect_u16(self.3, a.3, b.3),
            bitselect_u16(self.4, a.4, b.4), bitselect_u16(self.5, a.5, b.5),
            bitselect_u16(self.6, a.6, b.6), bitselect_u16(self.7, a.7, b.7),
        )
    }
}

impl short8 {
    /// A blend of two `short8` gives the lane of `b` where the mask is all ones and the lane of `a`
    /// where it is zero, whatever the other lanes hold.
    pub proof fn lemma_bitselect_short8(m: short8, a: short8, b: short8)
        ensures
            forall|i: int|
                0 <= i < 8 && m.lane(i) == -1 ==>
                    #[trigger] m.spec_bitselect(a, b).lane(i) == b.lane(i),
            forall|i: int|
                0 <= i < 8 && m.lane(i) == 0 ==>
                    #[trigger] m.spec_bitselect(a, b).lane(i) == a.lane(i),
    {
        lemma_blend_i16(m.0, a.0, b.0);
        lemma_blend_i16(m.1, a.1, b.1);
        lemma_blend_i16(m.2, a.2, b.2);
        lemma_blend_i16(m.3, a.3, b.3);
        lemma_blend_i16(m.4, a.4, b.4);
        lemma_blend_i16(m.5, a.5, b.5);
        lemma_blend_i16(m.6, a.6, b.6);
        lemma_blend_i16(m.7, a.7, b.7);
    }

    /// A choice between two `short8` goes by the sign bit of the mask alone: it gives the lane of
    /// `b` where the mask is negative and the lane of `a` elsewhere, as the blend does under the
    /// mask whose every lane has its sign spread over all its bits.
    pub proof fn lemma_select_short8(m: short8, a: short8, b: short8)
        ensures
            m.spec_select(a, b) == ShrSpec::shr_spec(m, 15i16).spec_bitselect(a, b),
            forall|i: int|
                0 <= i < 8 && m.lane(i) < 0 ==> #[trigger] m.spec_select(a, b).lane(i) == b.lane(i),
            forall|i: int|
                0 <= i < 8 && m.lane(i) >= 0 ==>
                    #[trigger] m.spec_select(a, b).lane(i) == a.lane(i),
    {
        lemma_blend_i16(m.0, a.0, b.0);
        lemma_blend_i16(m.1, a.1, b.1);
        lemma_blend_i16(m.2, a.2, b.2);
        lemma_blend_i16(m.3, a.3, b.3);
        lemma_blend_i16(m.4, a.4, b.4);
        lemma_blend_i16(m.5, a.5, b.5);
        lemma_blend_i16(m.6, a.6, b.6);
        lemma_blend_i16(m.7, a.7, b.7);
    }

    /// A blend of two `ushort8` gives the lane of `b` where the mask is all ones and the lane of
    /// `a` where it is zero, whatever the other lanes hold.
    pub proof fn lemma_bitselect_ushort8(m: short8, a: ushort8, b: ushort8)
        ensures
            forall|i: int|
                0 <= i < 8 && m.lane(i) == -1 ==>
                    #[trigger] m.spec_bitselect(a, b).lane(i) == b.lane(i),
            forall|i: int|
                0 <= i < 8 && m.lane(i) == 0 ==>
                    #[trigger] m.spec_bitselect(a, b).lane(i) == a.lane(i),
    {
        lemma_blend_u16(m.0, a.0, b.0);
        lemma_blend_u16(m.1, a.1, b.1);
        lemma_blend_u16(m.2, a.2, b.2);
        lemma_blend_u16(m.3, a.3, b.3);
        lemma_blend_u16(m.4, a.4, b.4);
        lemma_blend_u16(m.5, a.5, b.5);
        lemma_blend_u16(m.6, a.6, b.6);
        lemma_blend_u16(m.7, a.7, b.7);
    }

    /// A choice between two `ushort8` goes by the sign bit of the mask alone: it gives the lane of
    /// `b` where the mask is negative and the lane of `a` elsewhere, as the blend does under the
    /// mask whose every lane has its sign spread over all its bits.
    pub proof fn lemma_select_ushort8(m: short8, a: ushort8, b: ushort8)
        ensures
            m.spec_select(a, b) == ShrSpec::shr_spec(m, 15i16).spec_bitselect(a, b),
            forall|i: int|
                0 <= i < 8 && m.lane(i) < 0 ==> #[trigger] m.spec_select(a, b).lane(i) == b.lane(i),
            forall|i: int|
                0 <= i < 8 && m.lane(i) >= 0 ==>
                    #[trigger] m.spec_select(a, b).lane(i) == a.lane(i),
    {
        lemma_blend_u16(m.0, a.0, b.0);
        lemma_blend_u16(m.1, a.1, b.1);
        lemma_blend_u16(m.2, a.2, b.2);
        lemma_blend_u16(m.3, a.3, b.3);
        lemma_blend_u16(m.4, a.4, b.4);
        lemma_blend_u16(m.5, a.5, b.5);
        lemma_blend_u16(m.6, a.6, b.6);
        lemma_blend_u16(m.7, a.7, b.7);
    }
}

impl Bitcast for short8 {
    type Image = uchar16;

    open spec fn spec_image(self) -> uchar16 {
        let d0 = split_u16_u8(i16_to_u16(self.0));
        let d1 = split_u16_u8(i16_to_u16(self.1));
        let d2 = split_u16_u8(i16_to_u16(self.2));
        let d3 = split_u16_u8(i16_to_u16(self.3));
        let d4 = split_u16_u8(i16_to_u16(self.4));
        let d5 = split_u16_u8(i16_to_u16(self.5));
        let d6 = split_u16_u8(i16_to_u16(self.6));
        let d7 = split_u16_u8(i16_to_u16(self.7));
        uchar16(
            d0.0, d0.1, d1.0, d1.1, d2.0, d2.1, d3.0, d3.1, d4.0, d4.1, d5.0, d5.1, d6.0, d6.1,
            d7.0, d7.1,
        )
    }

    open spec fn spec_from_image(image: uchar16) -> short8 {
        short8(
            u16_to_i16(join_u8_u16(image.0, image.1)), u16_to_i16(join_u8_u16(image.2, image.3)),
            u16_to_i16(join_u8_u16(image.4, image.5)), u16_to_i16(join_u8_u16(image.6, image.7)),
            u16_to_i16(join_u8_u16(image.8, image.9)), u16_to_i16(join_u8_u16(image.10, image.11)),
            u16_to_i16(join_u8_u16(image.12, image.13)),
            u16_to_i16(join_u8_u16(image.14, image.15)),
        )
    }

    open spec fn spec_fills() -> bool {
        true
    }

    fn image(self) -> (r: uchar16) {
        let d0 = split_u16_u8(i16_to_u16(self.0));
        let d1 = split_u16_u8(i16_to_u16(self.1));
        let d2 = split_u16_u8(i16_to_u16(self.2));
        let d3 = split_u16_u8(i16_to_u16(self.3));
        let d4 = split_u16_u8(i16_to_u16(self.4));
        let d5 = split_u16_u8(i16_to_u16(self.5));
        let d6 = split_u16_u8(i16_to_u16(self.6));
        let d7 = split_u16_u8(i16_to_u16(self.7));
        uchar16(
            d0.0, d0.1, d1.0, d1.1, d2.0, d2.1, d3.0, d3.1, d4.0, d4.1, d5.0, d5.1, d6.0, d6.1,
            d7.0, d7.1,
        )
    }

    fn from_image(image: uchar16) -> (r: short8) {
        short8(
            u16_to_i16(join_u8_u16(image.0, image.1)), u16_to_i16(join_u8_u16(image.2, image.3)),
            u16_to_i16(join_u8_u16(image.4, image.5)), u16_to_i16(join_u8_u16(image.6, image.7)),
            u16_to_i16(join_u8_u16(image.8, image.9)), u16_to_i16(join_u8_u16(image.10, image.11)),
            u16_to_i16(join_u8_u16(image.12, image.13)),
            u16_to_i16(join_u8_u16(image.14, image.15)),
        )
    }

    proof fn lemma_image(x: short8) {
        lemma_recast_i16(x.0);
        lemma_regroup_u8_u16(i16_to_u16(x.0), 0, 0);
        lemma_recast_i16(x.1);
        lemma_regroup_u8_u16(i16_to_u16(x.1), 0, 0);
        lemma_recast_i16(x.2);
        lemma_regroup_u8_u16(i16_to_u16(x.2), 0, 0);
        lemma_recast_i16(x.3);
        lemma_regroup_u8_u16(i16_to_u16(x.3), 0, 0);
        lemma_recast_i16(x.4);
        lemma_regroup_u8_u16(i16_to_u16(x.4), 0, 0);
        lemma_recast_i16(x.5);
        lemma_regroup_u8_u16(i16_to_u16(x.5), 0, 0);
        lemma_recast_i16(x.6);
        lemma_regroup_u8_u16(i16_to_u16(x.6), 0, 0);
        lemma_recast_i16(x.7);
        lemma_regroup_u8_u16(i16_to_u16(x.7), 0, 0);
    }

    proof fn lemma_from_image(image: uchar16) {
        lemma_regroup_u8_u16(0, image.0, image.1);
        lemma_recast_u16(join_u8_u16(image.0, image.1));
        lemma_regroup_u8_u16(0, image.2, image.3);
        lemma_recast_u16(join_u8_u16(image.2, image.3));
        lemma_regroup_u8_u16(0, image.4, image.5);
        lemma_recast_u16(join_u8_u16(image.4, image.5));
        lemma_regroup_u8_u16(0, image.6, image.7);
        lemma_recast_u16(join_u8_u16(image.6, image.7));
        lemma_regroup_u8_u16(0, image.8, image.9);
        lemma_recast_u16(join_u8_u16(image.8, image.9));
        lemma_regroup_u8_u16(0, image.10, image.11);
        lemma_recast_u16(join_u8_u16(image.10, image.11));
        lemma_regroup_u8_u16(0, image.12, image.13);
        lemma_recast_u16(join_u8_u16(image.12, image.13));
        lemma_regroup_u8_u16(0, image.14, image.15);
        lemma_recast_u16(join_u8_u16(image.14, image.15));
    }
}

impl short8 {
    /// Read as `ushort8`, which has lanes of the same width, a vector keeps the bits of every lane;
    /// read as `short8` again, it is what it was.
    pub proof fn lemma_bitcast_ushort8(x: short8)
        ensures
            spec_bitcast::<short8, ushort8>(x) == ushort8(
                    i16_to_u16(x.0), i16_to_u16(x.1), i16_to_u16(x.2), i16_to_u16(x.3),
                    i16_to_u16(x.4), i16_to_u16(x.5), i16_to_u16(x.6), i16_to_u16(x.7),
                ),
            spec_bitcast::<ushort8, short8>(spec_bitcast::<short8, ushort8>(x)) == x,
    {
        lemma_recast_i16(x.0);
        lemma_regroup_u8_u16(i16_to_u16(x.0), 0, 0);
        lemma_recast_i16(x.1);
        lemma_regroup_u8_u16(i16_to_u16(x.1), 0, 0);
        lemma_recast_i16(x.2);
        lemma_regroup_u8_u16(i16_to_u16(x.2), 0, 0);
        lemma_recast_i16(x.3);
        lemma_regroup_u8_u16(i16_to_u16(x.3), 0, 0);
        lemma_recast_i16(x.4);
        lemma_regroup_u8_u16(i16_to_u16(x.4), 0, 0);
        lemma_recast_i16(x.5);
        lemma_regroup_u8_u16(i16_to_u16(x.5), 0, 0);
        lemma_recast_i16(x.6);
        lemma_regroup_u8_u16(i16_to_u16(x.6), 0, 0);
        lemma_recast_i16(x.7);
        lemma_regroup_u8_u16(i16_to_u16(x.7), 0, 0);
    }
}

} // verus!
