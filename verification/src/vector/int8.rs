//! `int8`: eight lanes of `i32`.

use crate::scalar::lane_i32::{
    abs_i32, add_i32, bitselect_i32, clamp_i32, div_i32, eq_i32, ge_i32, gt_i32, i32_to_i16,
    i32_to_i16_sat, i32_to_i64, i32_to_i64_sat, i32_to_i8, i32_to_i8_sat, i32_to_u16,
    i32_to_u16_sat, i32_to_u32, i32_to_u32_sat, i32_to_u64, i32_to_u64_sat, i32_to_u8,
    i32_to_u8_sat, isize_to_i32, le_i32, lemma_abs_i32, lemma_arith_i32, lemma_bits_i32,
    lemma_blend_i32, lemma_not_i32, lemma_recast_i32, lt_i32, madd_i32, max_i32, min_i32, mul_i32,
    ne_i32, neg_i32, not_i32, rem_i32, select_i32, shl_i32, shr_i32, sub_i32, truth_i32,
};
use crate::scalar::lane_u32::{
    bitselect_u32, lemma_blend_u32, lemma_recast_u32, select_u32, u32_to_i32,
};
use crate::scalar::model::{
    lemma_wrap_i32_sum, sat_i16, sat_i64, sat_i8, sat_u16, sat_u32, sat_u64, sat_u8, wrap_i32,
};
use crate::scalar::regroup::{join_u16_u32, lemma_regroup_u16_u32, split_u32_u16};
use crate::traits::{Bitcast, Dot, Integer, Select, Vector, bitcast, spec_bitcast};
use crate::vector::char8::char8;
use crate::vector::double8::double8;
use crate::vector::float8::float8;
use crate::vector::int4::int4;
use crate::vector::long8::long8;
use crate::vector::short8::short8;
use crate::vector::uchar8::uchar8;
use crate::vector::uint8::uint8;
use crate::vector::ulong8::ulong8;
use crate::vector::ushort16::ushort16;
use crate::vector::ushort8::ushort8;
use vstd::prelude::*;
use vstd::std_specs::convert::FromSpecImpl;
use vstd::std_specs::ops::{
    AddSpec, AddSpecImpl, BitAndSpecImpl, BitOrSpecImpl, BitXorSpecImpl, DivSpecImpl, MulSpecImpl,
    NegSpec, NegSpecImpl, NotSpec, NotSpecImpl, RemSpecImpl, ShlSpecImpl, ShrSpec, ShrSpecImpl,
    SubSpec, SubSpecImpl,
};

verus! {

/// Eight lanes of `i32`.
#[derive(Copy, Clone, Debug, PartialEq, Eq, Structural)]
pub struct int8(pub i32, pub i32, pub i32, pub i32, pub i32, pub i32, pub i32, pub i32);

impl core::ops::Add for int8 {
    type Output = int8;

    /// The lane-wise sum of the two vectors, wrapping around.
    fn add(self, rhs: int8) -> (r: int8) {
        int8(
            add_i32(self.0, rhs.0), add_i32(self.1, rhs.1), add_i32(self.2, rhs.2),
            add_i32(self.3, rhs.3), add_i32(self.4, rhs.4), add_i32(self.5, rhs.5),
            add_i32(self.6, rhs.6), add_i32(self.7, rhs.7),
        )
    }
}

impl AddSpecImpl for int8 {
    open spec fn obeys_add_spec() -> bool {
        true
    }

    open spec fn add_req(self, rhs: int8) -> bool {
        true
    }

    open spec fn add_spec(self, rhs: int8) -> int8 {
        int8(
            add_i32(self.0, rhs.0), add_i32(self.1, rhs.1), add_i32(self.2, rhs.2),
            add_i32(self.3, rhs.3), add_i32(self.4, rhs.4), add_i32(self.5, rhs.5),
            add_i32(self.6, rhs.6), add_i32(self.7, rhs.7),
        )
    }
}

impl core::ops::Add<i32> for int8 {
    type Output = int8;

    /// The sum of every lane and the scalar, wrapping around.
    fn add(self, rhs: i32) -> (r: int8) {
        int8(
            add_i32(self.0, rhs), add_i32(self.1, rhs), add_i32(self.2, rhs), add_i32(self.3, rhs),
            add_i32(self.4, rhs), add_i32(self.5, rhs), add_i32(self.6, rhs), add_i32(self.7, rhs),
        )
    }
}

impl AddSpecImpl<i32> for int8 {
    open spec fn obeys_add_spec() -> bool {
        true
    }

    open spec fn add_req(self, rhs: i32) -> bool {
        true
    }

    open spec fn add_spec(self, rhs: i32) -> int8 {
        int8(
            add_i32(self.0, rhs), add_i32(self.1, rhs), add_i32(self.2, rhs), add_i32(self.3, rhs),
            add_i32(self.4, rhs), add_i32(self.5, rhs), add_i32(self.6, rhs), add_i32(self.7, rhs),
        )
    }
}

impl core::ops::Add<int8> for i32 {
    type Output = int8;

    /// The sum of the scalar and every lane, wrapping around.
    fn add(self, rhs: int8) -> (r: int8) {
        int8(
            add_i32(self, rhs.0), add_i32(self, rhs.1), add_i32(self, rhs.2), add_i32(self, rhs.3),
            add_i32(self, rhs.4), add_i32(self, rhs.5), add_i32(self, rhs.6), add_i32(self, rhs.7),
        )
    }
}

impl AddSpecImpl<int8> for i32 {
    open spec fn obeys_add_spec() -> bool {
        true
    }

    open spec fn add_req(self, rhs: int8) -> bool {
        true
    }

    open spec fn add_spec(self, rhs: int8) -> int8 {
        int8(
            add_i32(self, rhs.0), add_i32(self, rhs.1), add_i32(self, rhs.2), add_i32(self, rhs.3),
            add_i32(self, rhs.4), add_i32(self, rhs.5), add_i32(self, rhs.6), add_i32(self, rhs.7),
        )
    }
}

impl core::ops::Sub for int8 {
    type Output = int8;

    /// The lane-wise difference of the two vectors, wrapping around.
    fn sub(self, rhs: int8) -> (r: int8) {
        int8(
            sub_i32(self.0, rhs.0), sub_i32(self.1, rhs.1), sub_i32(self.2, rhs.2),
            sub_i32(self.3, rhs.3), sub_i32(self.4, rhs.4), sub_i32(self.5, rhs.5),
            sub_i32(self.6, rhs.6), sub_i32(self.7, rhs.7),
        )
    }
}

impl SubSpecImpl for int8 {
    open spec fn obeys_sub_spec() -> bool {
        true
    }

    open spec fn sub_req(self, rhs: int8) -> bool {
        true
    }

    open spec fn sub_spec(self, rhs: int8) -> int8 {
        int8(
            sub_i32(self.0, rhs.0), sub_i32(self.1, rhs.1), sub_i32(self.2, rhs.2),
            sub_i32(self.3, rhs.3), sub_i32(self.4, rhs.4), sub_i32(self.5, rhs.5),
            sub_i32(self.6, rhs.6), sub_i32(self.7, rhs.7),
        )
    }
}

impl core::ops::Sub<i32> for int8 {
    type Output = int8;

    /// The difference of every lane and the scalar, wrapping around.
    fn sub(self, rhs: i32) -> (r: int8) {
        int8(
            sub_i32(self.0, rhs), sub_i32(self.1, rhs), sub_i32(self.2, rhs), sub_i32(self.3, rhs),
            sub_i32(self.4, rhs), sub_i32(self.5, rhs), sub_i32(self.6, rhs), sub_i32(self.7, rhs),
        )
    }
}

impl SubSpecImpl<i32> for int8 {
    open spec fn obeys_sub_spec() -> bool {
        true
    }

    open spec fn sub_req(self, rhs: i32) -> bool {
        true
    }

    open spec fn sub_spec(self, rhs: i32) -> int8 {
        int8(
            sub_i32(self.0, rhs), sub_i32(self.1, rhs), sub_i32(self.2, rhs), sub_i32(self.3, rhs),
            sub_i32(self.4, rhs), sub_i32(self.5, rhs), sub_i32(self.6, rhs), sub_i32(self.7, rhs),
        )
    }
}

impl core::ops::Sub<int8> for i32 {
    type Output = int8;

    /// The difference of the scalar and every lane, wrapping around.
    fn sub(self, rhs: int8) -> (r: int8) {
        int8(
            sub_i32(self, rhs.0), sub_i32(self, rhs.1), sub_i32(self, rhs.2), sub_i32(self, rhs.3),
            sub_i32(self, rhs.4), sub_i32(self, rhs.5), sub_i32(self, rhs.6), sub_i32(self, rhs.7),
        )
    }
}

impl SubSpecImpl<int8> for i32 {
    open spec fn obeys_sub_spec() -> bool {
        true
    }

    open spec fn sub_req(self, rhs: int8) -> bool {
        true
    }

    open spec fn sub_spec(self, rhs: int8) -> int8 {
        int8(
            sub_i32(self, rhs.0), sub_i32(self, rhs.1), sub_i32(self, rhs.2), sub_i32(self, rhs.3),
            sub_i32(self, rhs.4), sub_i32(self, rhs.5), sub_i32(self, rhs.6), sub_i32(self, rhs.7),
        )
    }
}

impl core::ops::Mul for int8 {
    type Output = int8;

    /// The lane-wise product of the two vectors, wrapping around.
    fn mul(self, rhs: int8) -> (r: int8) {
        int8(
            mul_i32(self.0, rhs.0), mul_i32(self.1, rhs.1), mul_i32(self.2, rhs.2),
            mul_i32(self.3, rhs.3), mul_i32(self.4, rhs.4), mul_i32(self.5, rhs.5),
            mul_i32(self.6, rhs.6), mul_i32(self.7, rhs.7),
        )
    }
}

impl MulSpecImpl for int8 {
    open spec fn obeys_mul_spec() -> bool {
        true
    }

    open spec fn mul_req(self, rhs: int8) -> bool {
        true
    }

    open spec fn mul_spec(self, rhs: int8) -> int8 {
        int8(
            mul_i32(self.0, rhs.0), mul_i32(self.1, rhs.1), mul_i32(self.2, rhs.2),
            mul_i32(self.3, rhs.3), mul_i32(self.4, rhs.4), mul_i32(self.5, rhs.5),
            mul_i32(self.6, rhs.6), mul_i32(self.7, rhs.7),
        )
    }
}

impl core::ops::Mul<i32> for int8 {
    type Output = int8;

    /// The product of every lane and the scalar, wrapping around.
    fn mul(self, rhs: i32) -> (r: int8) {
        int8(
            mul_i32(self.0, rhs), mul_i32(self.1, rhs), mul_i32(self.2, rhs), mul_i32(self.3, rhs),
            mul_i32(self.4, rhs), mul_i32(self.5, rhs), mul_i32(self.6, rhs), mul_i32(self.7, rhs),
        )
    }
}

impl MulSpecImpl<i32> for int8 {
    open spec fn obeys_mul_spec() -> bool {
        true
    }

    open spec fn mul_req(self, rhs: i32) -> bool {
        true
    }

    open spec fn mul_spec(self, rhs: i32) -> int8 {
        int8(
            mul_i32(self.0, rhs), mul_i32(self.1, rhs), mul_i32(self.2, rhs), mul_i32(self.3, rhs),
            mul_i32(self.4, rhs), mul_i32(self.5, rhs), mul_i32(self.6, rhs), mul_i32(self.7, rhs),
        )
    }
}

impl core::ops::Mul<int8> for i32 {
    type Output = int8;

    /// The product of the scalar and every lane, wrapping around.
    fn mul(self, rhs: int8) -> (r: int8) {
        int8(
            mul_i32(self, rhs.0), mul_i32(self, rhs.1), mul_i32(self, rhs.2), mul_i32(self, rhs.3),
            mul_i32(self, rhs.4), mul_i32(self, rhs.5), mul_i32(self, rhs.6), mul_i32(self, rhs.7),
        )
    }
}

impl MulSpecImpl<int8> for i32 {
    open spec fn obeys_mul_spec() -> bool {
        true
    }

    open spec fn mul_req(self, rhs: int8) -> bool {
        true
    }

    open spec fn mul_spec(self, rhs: int8) -> int8 {
        int8(
            mul_i32(self, rhs.0), mul_i32(self, rhs.1), mul_i32(self, rhs.2), mul_i32(self, rhs.3),
            mul_i32(self, rhs.4), mul_i32(self, rhs.5), mul_i32(self, rhs.6), mul_i32(self, rhs.7),
        )
    }
}

impl core::ops::Div for int8 {
    type Output = int8;

    /// The lane-wise quotient of the two vectors, rounded toward zero. No lane of the divisor is
    /// zero.
    fn div(self, rhs: int8) -> (r: int8) {
        int8(
            div_i32(self.0, rhs.0), div_i32(self.1, rhs.1), div_i32(self.2, rhs.2),
            div_i32(self.3, rhs.3), div_i32(self.4, rhs.4), div_i32(self.5, rhs.5),
            div_i32(self.6, rhs.6), div_i32(self.7, rhs.7),
        )
    }
}

impl DivSpecImpl for int8 {
    open spec fn obeys_div_spec() -> bool {
        true
    }

    open spec fn div_req(self, rhs: int8) -> bool {
        rhs.0 != 0 && rhs.1 != 0 && rhs.2 != 0 && rhs.3 != 0 && rhs.4 != 0 && rhs.5 != 0
            && rhs.6 != 0 && rhs.7 != 0
    }

    open spec fn div_spec(self, rhs: int8) -> int8 {
        int8(
            div_i32(self.0, rhs.0), div_i32(self.1, rhs.1), div_i32(self.2, rhs.2),
            div_i32(self.3, rhs.3), div_i32(self.4, rhs.4), div_i32(self.5, rhs.5),
            div_i32(self.6, rhs.6), div_i32(self.7, rhs.7),
        )
    }
}

impl core::ops::Div<i32> for int8 {
    type Output = int8;

    /// The quotient of every lane by the scalar, rounded toward zero. The scalar is not zero.
    fn div(self, rhs: i32) -> (r: int8) {
        int8(
            div_i32(self.0, rhs), div_i32(self.1, rhs), div_i32(self.2, rhs), div_i32(self.3, rhs),
            div_i32(self.4, rhs), div_i32(self.5, rhs), div_i32(self.6, rhs), div_i32(self.7, rhs),
        )
    }
}

impl DivSpecImpl<i32> for int8 {
    open spec fn obeys_div_spec() -> bool {
        true
    }

    open spec fn div_req(self, rhs: i32) -> bool {
        rhs != 0
    }

    open spec fn div_spec(self, rhs: i32) -> int8 {
        int8(
            div_i32(self.0, rhs), div_i32(self.1, rhs), div_i32(self.2, rhs), div_i32(self.3, rhs),
            div_i32(self.4, rhs), div_i32(self.5, rhs), div_i32(self.6, rhs), div_i32(self.7, rhs),
        )
    }
}

impl core::ops::Div<int8> for i32 {
    type Output = int8;

    /// The quotient of the scalar by every lane, rounded toward zero. No lane is zero.
    fn div(self, rhs: int8) -> (r: int8) {
        int8(
            div_i32(self, rhs.0), div_i32(self, rhs.1), div_i32(self, rhs.2), div_i32(self, rhs.3),
            div_i32(self, rhs.4), div_i32(self, rhs.5), div_i32(self, rhs.6), div_i32(self, rhs.7),
        )
    }
}

impl DivSpecImpl<int8> for i32 {
    open spec fn obeys_div_spec() -> bool {
        true
    }

    open spec fn div_req(self, rhs: int8) -> bool {
        rhs.0 != 0 && rhs.1 != 0 && rhs.2 != 0 && rhs.3 != 0 && rhs.4 != 0 && rhs.5 != 0
            && rhs.6 != 0 && rhs.7 != 0
    }

    open spec fn div_spec(self, rhs: int8) -> int8 {
        int8(
            div_i32(self, rhs.0), div_i32(self, rhs.1), div_i32(self, rhs.2), div_i32(self, rhs.3),
            div_i32(self, rhs.4), div_i32(self, rhs.5), div_i32(self, rhs.6), div_i32(self, rhs.7),
        )
    }
}

impl core::ops::BitAnd for int8 {
    type Output = int8;

    /// The lane-wise conjunction of the two vectors, bit by bit.
    fn bitand(self, rhs: int8) -> (r: int8) {
        int8(
            self.0 & rhs.0, self.1 & rhs.1, self.2 & rhs.2, self.3 & rhs.3, self.4 & rhs.4,
            self.5 & rhs.5, self.6 & rhs.6, self.7 & rhs.7,
        )
    }
}

impl BitAndSpecImpl for int8 {
    open spec fn obeys_bitand_spec() -> bool {
        true
    }

    open spec fn bitand_req(self, rhs: int8) -> bool {
        true
    }

    open spec fn bitand_spec(self, rhs: int8) -> int8 {
        int8(
            self.0 & rhs.0, self.1 & rhs.1, self.2 & rhs.2, self.3 & rhs.3, self.4 & rhs.4,
            self.5 & rhs.5, self.6 & rhs.6, self.7 & rhs.7,
        )
    }
}

impl core::ops::BitAnd<i32> for int8 {
    type Output = int8;

    /// The conjunction of every lane and the scalar, bit by bit.
    fn bitand(self, rhs: i32) -> (r: int8) {
        int8(
            self.0 & rhs, self.1 & rhs, self.2 & rhs, self.3 & rhs, self.4 & rhs, self.5 & rhs,
            self.6 & rhs, self.7 & rhs,
        )
    }
}

impl BitAndSpecImpl<i32> for int8 {
    open spec fn obeys_bitand_spec() -> bool {
        true
    }

    open spec fn bitand_req(self, rhs: i32) -> bool {
        true
    }

    open spec fn bitand_spec(self, rhs: i32) -> int8 {
        int8(
            self.0 & rhs, self.1 & rhs, self.2 & rhs, self.3 & rhs, self.4 & rhs, self.5 & rhs,
            self.6 & rhs, self.7 & rhs,
        )
    }
}

impl core::ops::BitAnd<int8> for i32 {
    type Output = int8;

    /// The conjunction of the scalar and every lane, bit by bit.
    fn bitand(self, rhs: int8) -> (r: int8) {
        int8(
            self & rhs.0, self & rhs.1, self & rhs.2, self & rhs.3, self & rhs.4, self & rhs.5,
            self & rhs.6, self & rhs.7,
        )
    }
}

impl BitAndSpecImpl<int8> for i32 {
    open spec fn obeys_bitand_spec() -> bool {
        true
    }

    open spec fn bitand_req(self, rhs: int8) -> bool {
        true
    }

    open spec fn bitand_spec(self, rhs: int8) -> int8 {
        int8(
            self & rhs.0, self & rhs.1, self & rhs.2, self & rhs.3, self & rhs.4, self & rhs.5,
            self & rhs.6, self & rhs.7,
        )
    }
}

impl core::ops::BitOr for int8 {
    type Output = int8;

    /// The lane-wise disjunction of the two vectors, bit by bit.
    fn bitor(self, rhs: int8) -> (r: int8) {
        int8(
            self.0 | rhs.0, self.1 | rhs.1, self.2 | rhs.2, self.3 | rhs.3, self.4 | rhs.4,
            self.5 | rhs.5, self.6 | rhs.6, self.7 | rhs.7,
        )
    }
}

impl BitOrSpecImpl for int8 {
    open spec fn obeys_bitor_spec() -> bool {
        true
    }

    open spec fn bitor_req(self, rhs: int8) -> bool {
        true
    }

    open spec fn bitor_spec(self, rhs: int8) -> int8 {
        int8(
            self.0 | rhs.0, self.1 | rhs.1, self.2 | rhs.2, self.3 | rhs.3, self.4 | rhs.4,
            self.5 | rhs.5, self.6 | rhs.6, self.7 | rhs.7,
        )
    }
}

impl core::ops::BitOr<i32> for int8 {
    type Output = int8;

    /// The disjunction of every lane and the scalar, bit by bit.
    fn bitor(self, rhs: i32) -> (r: int8) {
        int8(
            self.0 | rhs, self.1 | rhs, self.2 | rhs, self.3 | rhs, self.4 | rhs, self.5 | rhs,
            self.6 | rhs, self.7 | rhs,
        )
    }
}

impl BitOrSpecImpl<i32> for int8 {
    open spec fn obeys_bitor_spec() -> bool {
        true
    }

    open spec fn bitor_req(self, rhs: i32) -> bool {
        true
    }

    open spec fn bitor_spec(self, rhs: i32) -> int8 {
        int8(
            self.0 | rhs, self.1 | rhs, self.2 | rhs, self.3 | rhs, self.4 | rhs, self.5 | rhs,
            self.6 | rhs, self.7 | rhs,
        )
    }
}

impl core::ops::BitOr<int8> for i32 {
    type Output = int8;

    /// The disjunction of the scalar and every lane, bit by bit.
    fn bitor(self, rhs: int8) -> (r: int8) {
        int8(
            self | rhs.0, self | rhs.1, self | rhs.2, self | rhs.3, self | rhs.4, self | rhs.5,
            self | rhs.6, self | rhs.7,
        )
    }
}

impl BitOrSpecImpl<int8> for i32 {
    open spec fn obeys_bitor_spec() -> bool {
        true
    }

    open spec fn bitor_req(self, rhs: int8) -> bool {
        true
    }

    open spec fn bitor_spec(self, rhs: int8) -> int8 {
        int8(
            self | rhs.0, self | rhs.1, self | rhs.2, self | rhs.3, self | rhs.4, self | rhs.5,
            self | rhs.6, self | rhs.7,
        )
    }
}

impl core::ops::BitXor for int8 {
    type Output = int8;

    /// The lane-wise exclusive disjunction of the two vectors, bit by bit.
    fn bitxor(self, rhs: int8) -> (r: int8) {
        int8(
            self.0 ^ rhs.0, self.1 ^ rhs.1, self.2 ^ rhs.2, self.3 ^ rhs.3, self.4 ^ rhs.4,
            self.5 ^ rhs.5, self.6 ^ rhs.6, self.7 ^ rhs.7,
        )
    }
}

impl BitXorSpecImpl for int8 {
    open spec fn obeys_bitxor_spec() -> bool {
        true
    }

    open spec fn bitxor_req(self, rhs: int8) -> bool {
        true
    }

    open spec fn bitxor_spec(self, rhs: int8) -> int8 {
        int8(
            self.0 ^ rhs.0, self.1 ^ rhs.1, self.2 ^ rhs.2, self.3 ^ rhs.3, self.4 ^ rhs.4,
            self.5 ^ rhs.5, self.6 ^ rhs.6, self.7 ^ rhs.7,
        )
    }
}

impl core::ops::BitXor<i32> for int8 {
    type Output = int8;

    /// The exclusive disjunction of every lane and the scalar, bit by bit.
    fn bitxor(self, rhs: i32) -> (r: int8) {
        int8(
            self.0 ^ rhs, self.1 ^ rhs, self.2 ^ rhs, self.3 ^ rhs, self.4 ^ rhs, self.5 ^ rhs,
            self.6 ^ rhs, self.7 ^ rhs,
        )
    }
}

impl BitXorSpecImpl<i32> for int8 {
    open spec fn obeys_bitxor_spec() -> bool {
        true
    }

    open spec fn bitxor_req(self, rhs: i32) -> bool {
        true
    }

    open spec fn bitxor_spec(self, rhs: i32) -> int8 {
        int8(
            self.0 ^ rhs, self.1 ^ rhs, self.2 ^ rhs, self.3 ^ rhs, self.4 ^ rhs, self.5 ^ rhs,
            self.6 ^ rhs, self.7 ^ rhs,
        )
    }
}

impl core::ops::BitXor<int8> for i32 {
    type Output = int8;

    /// The exclusive disjunction of the scalar and every lane, bit by bit.
    fn bitxor(self, rhs: int8) -> (r: int8) {
        int8(
            self ^ rhs.0, self ^ rhs.1, self ^ rhs.2, self ^ rhs.3, self ^ rhs.4, self ^ rhs.5,
            self ^ rhs.6, self ^ rhs.7,
        )
    }
}

impl BitXorSpecImpl<int8> for i32 {
    open spec fn obeys_bitxor_spec() -> bool {
        true
    }

    open spec fn bitxor_req(self, rhs: int8) -> bool {
        true
    }

    open spec fn bitxor_spec(self, rhs: int8) -> int8 {
        int8(
            self ^ rhs.0, self ^ rhs.1, self ^ rhs.2, self ^ rhs.3, self ^ rhs.4, self ^ rhs.5,
            self ^ rhs.6, self ^ rhs.7,
        )
    }
}

impl core::ops::Shl for int8 {
    type Output = int8;

    /// Every lane shifted left by the lane of `rhs`, which is below 32.
    fn shl(self, rhs: int8) -> (r: int8) {
        int8(
            shl_i32(self.0, rhs.0), shl_i32(self.1, rhs.1), shl_i32(self.2, rhs.2),
            shl_i32(self.3, rhs.3), shl_i32(self.4, rhs.4), shl_i32(self.5, rhs.5),
            shl_i32(self.6, rhs.6), shl_i32(self.7, rhs.7),
        )
    }
}

impl ShlSpecImpl for int8 {
    open spec fn obeys_shl_spec() -> bool {
        true
    }

    open spec fn shl_req(self, rhs: int8) -> bool {
        0 <= rhs.0 < 32 && 0 <= rhs.1 < 32 && 0 <= rhs.2 < 32 && 0 <= rhs.3 < 32 && 0 <= rhs.4 < 32
            && 0 <= rhs.5 < 32 && 0 <= rhs.6 < 32 && 0 <= rhs.7 < 32
    }

    open spec fn shl_spec(self, rhs: int8) -> int8 {
        int8(
            shl_i32(self.0, rhs.0), shl_i32(self.1, rhs.1), shl_i32(self.2, rhs.2),
            shl_i32(self.3, rhs.3), shl_i32(self.4, rhs.4), shl_i32(self.5, rhs.5),
            shl_i32(self.6, rhs.6), shl_i32(self.7, rhs.7),
        )
    }
}

impl core::ops::Shl<i32> for int8 {
    type Output = int8;

    /// Every lane shifted left by `rhs`, which is below 32.
    fn shl(self, rhs: i32) -> (r: int8) {
        int8(
            shl_i32(self.0, rhs), shl_i32(self.1, rhs), shl_i32(self.2, rhs), shl_i32(self.3, rhs),
            shl_i32(self.4, rhs), shl_i32(self.5, rhs), shl_i32(self.6, rhs), shl_i32(self.7, rhs),
        )
    }
}

impl ShlSpecImpl<i32> for int8 {
    open spec fn obeys_shl_spec() -> bool {
        true
    }

    open spec fn shl_req(self, rhs: i32) -> bool {
        0 <= rhs < 32
    }

    open spec fn shl_spec(self, rhs: i32) -> int8 {
        int8(
            shl_i32(self.0, rhs), shl_i32(self.1, rhs), shl_i32(self.2, rhs), shl_i32(self.3, rhs),
            shl_i32(self.4, rhs), shl_i32(self.5, rhs), shl_i32(self.6, rhs), shl_i32(self.7, rhs),
        )
    }
}

impl core::ops::Shl<int8> for i32 {
    type Output = int8;

    /// The scalar shifted left by every lane of `rhs`, each of which is below 32.
    fn shl(self, rhs: int8) -> (r: int8) {
        int8(
            shl_i32(self, rhs.0), shl_i32(self, rhs.1), shl_i32(self, rhs.2), shl_i32(self, rhs.3),
            shl_i32(self, rhs.4), shl_i32(self, rhs.5), shl_i32(self, rhs.6), shl_i32(self, rhs.7),
        )
    }
}

impl ShlSpecImpl<int8> for i32 {
    open spec fn obeys_shl_spec() -> bool {
        true
    }

    open spec fn shl_req(self, rhs: int8) -> bool {
        0 <= rhs.0 < 32 && 0 <= rhs.1 < 32 && 0 <= rhs.2 < 32 && 0 <= rhs.3 < 32 && 0 <= rhs.4 < 32
            && 0 <= rhs.5 < 32 && 0 <= rhs.6 < 32 && 0 <= rhs.7 < 32
    }

    open spec fn shl_spec(self, rhs: int8) -> int8 {
        int8(
            shl_i32(self, rhs.0), shl_i32(self, rhs.1), shl_i32(self, rhs.2), shl_i32(self, rhs.3),
            shl_i32(self, rhs.4), shl_i32(self, rhs.5), shl_i32(self, rhs.6), shl_i32(self, rhs.7),
        )
    }
}

impl core::ops::Shr for int8 {
    type Output = int8;

    /// Every lane shifted right by the lane of `rhs`, which is below 32.
    fn shr(self, rhs: int8) -> (r: int8) {
        int8(
            shr_i32(self.0, rhs.0), shr_i32(self.1, rhs.1), shr_i32(self.2, rhs.2),
            shr_i32(self.3, rhs.3), shr_i32(self.4, rhs.4), shr_i32(self.5, rhs.5),
            shr_i32(self.6, rhs.6), shr_i32(self.7, rhs.7),
        )
    }
}

impl ShrSpecImpl for int8 {
    open spec fn obeys_shr_spec() -> bool {
        true
    }

    open spec fn shr_req(self, rhs: int8) -> bool {
        0 <= rhs.0 < 32 && 0 <= rhs.1 < 32 && 0 <= rhs.2 < 32 && 0 <= rhs.3 < 32 && 0 <= rhs.4 < 32
            && 0 <= rhs.5 < 32 && 0 <= rhs.6 < 32 && 0 <= rhs.7 < 32
    }

    open spec fn shr_spec(self, rhs: int8) -> int8 {
        int8(
            shr_i32(self.0, rhs.0), shr_i32(self.1, rhs.1), shr_i32(self.2, rhs.2),
            shr_i32(self.3, rhs.3), shr_i32(self.4, rhs.4), shr_i32(self.5, rhs.5),
            shr_i32(self.6, rhs.6), shr_i32(self.7, rhs.7),
        )
    }
}

impl core::ops::Shr<i32> for int8 {
    type Output = int8;

    /// Every lane shifted right by `rhs`, which is below 32.
    fn shr(self, rhs: i32) -> (r: int8) {
        int8(
            shr_i32(self.0, rhs), shr_i32(self.1, rhs), shr_i32(self.2, rhs), shr_i32(self.3, rhs),
            shr_i32(self.4, rhs), shr_i32(self.5, rhs), shr_i32(self.6, rhs), shr_i32(self.7, rhs),
        )
    }
}

impl ShrSpecImpl<i32> for int8 {
    open spec fn obeys_shr_spec() -> bool {
        true
    }

    open spec fn shr_req(self, rhs: i32) -> bool {
        0 <= rhs < 32
    }

    open spec fn shr_spec(self, rhs: i32) -> int8 {
        int8(
            shr_i32(self.0, rhs), shr_i32(self.1, rhs), shr_i32(self.2, rhs), shr_i32(self.3, rhs),
            shr_i32(self.4, rhs), shr_i32(self.5, rhs), shr_i32(self.6, rhs), shr_i32(self.7, rhs),
        )
    }
}

impl core::ops::Shr<int8> for i32 {
    type Output = int8;

    /// The scalar shifted right by every lane of `rhs`, each of which is below 32.
    fn shr(self, rhs: int8) -> (r: int8) {
        int8(
            shr_i32(self, rhs.0), shr_i32(self, rhs.1), shr_i32(self, rhs.2), shr_i32(self, rhs.3),
            shr_i32(self, rhs.4), shr_i32(self, rhs.5), shr_i32(self, rhs.6), shr_i32(self, rhs.7),
        )
    }
}

impl ShrSpecImpl<int8> for i32 {
    open spec fn obeys_shr_spec() -> bool {
        true
    }

    open spec fn shr_req(self, rhs: int8) -> bool {
        0 <= rhs.0 < 32 && 0 <= rhs.1 < 32 && 0 <= rhs.2 < 32 && 0 <= rhs.3 < 32 && 0 <= rhs.4 < 32
            && 0 <= rhs.5 < 32 && 0 <= rhs.6 < 32 && 0 <= rhs.7 < 32
    }

    open spec fn shr_spec(self, rhs: int8) -> int8 {
        int8(
            shr_i32(self, rhs.0), shr_i32(self, rhs.1), shr_i32(self, rhs.2), shr_i32(self, rhs.3),
            shr_i32(self, rhs.4), shr_i32(self, rhs.5), shr_i32(self, rhs.6), shr_i32(self, rhs.7),
        )
    }
}

impl core::ops::Rem for int8 {
    type Output = int8;

    /// The lane-wise remainder `self - (self / rhs) * rhs`. No lane of the divisor is zero.
    fn rem(self, rhs: int8) -> (r: int8) {
        int8(
            rem_i32(self.0, rhs.0), rem_i32(self.1, rhs.1), rem_i32(self.2, rhs.2),
            rem_i32(self.3, rhs.3), rem_i32(self.4, rhs.4), rem_i32(self.5, rhs.5),
            rem_i32(self.6, rhs.6), rem_i32(self.7, rhs.7),
        )
    }
}

impl RemSpecImpl for int8 {
    open spec fn obeys_rem_spec() -> bool {
        true
    }

    open spec fn rem_req(self, rhs: int8) -> bool {
        rhs.0 != 0 && rhs.1 != 0 && rhs.2 != 0 && rhs.3 != 0 && rhs.4 != 0 && rhs.5 != 0
            && rhs.6 != 0 && rhs.7 != 0
    }

    open spec fn rem_spec(self, rhs: int8) -> int8 {
        int8(
            rem_i32(self.0, rhs.0), rem_i32(self.1, rhs.1), rem_i32(self.2, rhs.2),
            rem_i32(self.3, rhs.3), rem_i32(self.4, rhs.4), rem_i32(self.5, rhs.5),
            rem_i32(self.6, rhs.6), rem_i32(self.7, rhs.7),
        )
    }
}

impl core::ops::Neg for int8 {
    type Output = int8;

    /// Zero minus every lane, wrapping around.
    fn neg(self) -> (r: int8) {
        int8(
            neg_i32(self.0), neg_i32(self.1), neg_i32(self.2), neg_i32(self.3), neg_i32(self.4),
            neg_i32(self.5), neg_i32(self.6), neg_i32(self.7),
        )
    }
}

impl NegSpecImpl for int8 {
    open spec fn obeys_neg_spec() -> bool {
        true
    }

    open spec fn neg_req(self) -> bool {
        true
    }

    open spec fn neg_spec(self) -> int8 {
        int8(
            neg_i32(self.0), neg_i32(self.1), neg_i32(self.2), neg_i32(self.3), neg_i32(self.4),
            neg_i32(self.5), neg_i32(self.6), neg_i32(self.7),
        )
    }
}

impl core::ops::Not for int8 {
    type Output = int8;

    /// Every lane with every bit flipped.
    fn not(self) -> (r: int8) {
        int8(
            not_i32(self.0), not_i32(self.1), not_i32(self.2), not_i32(self.3), not_i32(self.4),
            not_i32(self.5), not_i32(self.6), not_i32(self.7),
        )
    }
}

impl NotSpecImpl for int8 {
    open spec fn obeys_not_spec() -> bool {
        true
    }

    open spec fn not_req(self) -> bool {
        true
    }

    open spec fn not_spec(self) -> int8 {
        int8(
            not_i32(self.0), not_i32(self.1), not_i32(self.2), not_i32(self.3), not_i32(self.4),
            not_i32(self.5), not_i32(self.6), not_i32(self.7),
        )
    }
}

impl core::convert::From<isize> for int8 {
    /// The vector with `x`, wrapped to `i32`, in every lane.
    fn from(x: isize) -> (r: int8) {
        let v = isize_to_i32(x);
        int8(v, v, v, v, v, v, v, v)
    }
}

impl FromSpecImpl<isize> for int8 {
    open spec fn obeys_from_spec() -> bool {
        true
    }

    open spec fn from_spec(x: isize) -> int8 {
        int8(
            isize_to_i32(x), isize_to_i32(x), isize_to_i32(x), isize_to_i32(x), isize_to_i32(x),
            isize_to_i32(x), isize_to_i32(x), isize_to_i32(x),
        )
    }
}

impl core::ops::Index<u32> for int8 {
    type Output = i32;

    /// Lane `i`, which is below 8.
    fn index(&self, i: u32) -> (r: &i32)
        ensures
            *r == self.lane(i as int),
    {
        match i {
            0 => &self.0,
            1 => &self.1,
            2 => &self.2,
            3 => &self.3,
            4 => &self.4,
            5 => &self.5,
            6 => &self.6,
            _ => &self.7,
        }
    }
}

impl vstd::std_specs::core::IndexSpecImpl<u32> for int8 {
    open spec fn index_req(&self, i: &u32) -> bool {
        *i < 8
    }
}

impl int8 {
    /// Lane `i`, counted from zero.
    pub open spec fn lane(self, i: int) -> i32
        recommends
            0 <= i < 8,
    {
        if i == 0 {
            self.0
        } else if i == 1 {
            self.1
        } else if i == 2 {
            self.2
        } else if i == 3 {
            self.3
        } else if i == 4 {
            self.4
        } else if i == 5 {
            self.5
        } else if i == 6 {
            self.6
        } else {
            self.7
        }
    }

    /// The vector of type `int8` with the bits of `x`, a value of a type that has as many bits,
    /// which is one with images of type `ushort16`.
    pub fn bitcast<U: Bitcast<Image = ushort16>>(x: U) -> (r: int8)
        ensures
            r == spec_bitcast::<U, int8>(x),
    {
        bitcast(x)
    }

    /// The vector with `x` in every lane.
    pub fn broadcast(x: i32) -> (r: int8)
        ensures
            r == int8(x, x, x, x, x, x, x, x),
    {
        int8(x, x, x, x, x, x, x, x)
    }

    /// Lane `i`, which is below 8.
    pub fn extract(self, i: u32) -> (r: i32)
        requires
            i < 8,
        ensures
            r == self.lane(i as int),
    {
        match i {
            0 => self.0,
            1 => self.1,
            2 => self.2,
            3 => self.3,
            4 => self.4,
            5 => self.5,
            6 => self.6,
            _ => self.7,
        }
    }

    /// The vector with `x` in lane `i`, which is below 8, and the other lanes unchanged.
    pub fn replace(self, i: u32, x: i32) -> (r: int8)
        requires
            i < 8,
        ensures
            forall|j: int| 0 <= j < 8 ==> #[trigger] r.lane(j) == (if j == i {
                x
            } else {
                self.lane(j)
            }),
    {
        match i {
            0 => int8(x, self.1, self.2, self.3, self.4, self.5, self.6, self.7),
            1 => int8(self.0, x, self.2, self.3, self.4, self.5, self.6, self.7),
            2 => int8(self.0, self.1, x, self.3, self.4, self.5, self.6, self.7),
            3 => int8(self.0, self.1, self.2, x, self.4, self.5, self.6, self.7),
            4 => int8(self.0, self.1, self.2, self.3, x, self.5, self.6, self.7),
            5 => int8(self.0, self.1, self.2, self.3, self.4, x, self.6, self.7),
            6 => int8(self.0, self.1, self.2, self.3, self.4, self.5, x, self.7),
            _ => int8(self.0, self.1, self.2, self.3, self.4, self.5, self.6, x),
        }
    }

    /// The mask that is all ones where the lanes of `x` and `y` are equal, and zero elsewhere.
    pub fn eq(x: int8, y: int8) -> (r: int8)
        ensures
            r == int8(
                eq_i32(x.0, y.0), eq_i32(x.1, y.1), eq_i32(x.2, y.2), eq_i32(x.3, y.3),
                eq_i32(x.4, y.4), eq_i32(x.5, y.5), eq_i32(x.6, y.6), eq_i32(x.7, y.7),
            ),
    {
        int8(
            eq_i32(x.0, y.0), eq_i32(x.1, y.1), eq_i32(x.2, y.2), eq_i32(x.3, y.3),
            eq_i32(x.4, y.4), eq_i32(x.5, y.5), eq_i32(x.6, y.6), eq_i32(x.7, y.7),
        )
    }

    /// The mask that is all ones where the lanes of `x` and `y` differ, and zero elsewhere.
    pub fn ne(x: int8, y: int8) -> (r: int8)
        ensures
            r == int8(
                ne_i32(x.0, y.0), ne_i32(x.1, y.1), ne_i32(x.2, y.2), ne_i32(x.3, y.3),
                ne_i32(x.4, y.4), ne_i32(x.5, y.5), ne_i32(x.6, y.6), ne_i32(x.7, y.7),
            ),
    {
        int8(
            ne_i32(x.0, y.0), ne_i32(x.1, y.1), ne_i32(x.2, y.2), ne_i32(x.3, y.3),
            ne_i32(x.4, y.4), ne_i32(x.5, y.5), ne_i32(x.6, y.6), ne_i32(x.7, y.7),
        )
    }

    /// The mask that is all ones where the lane of `x` is less than that of `y`, and zero
    /// elsewhere.
    pub fn lt(x: int8, y: int8) -> (r: int8)
        ensures
            r == int8(
                lt_i32(x.0, y.0), lt_i32(x.1, y.1), lt_i32(x.2, y.2), lt_i32(x.3, y.3),
                lt_i32(x.4, y.4), lt_i32(x.5, y.5), lt_i32(x.6, y.6), lt_i32(x.7, y.7),
            ),
    {
        int8(
            lt_i32(x.0, y.0), lt_i32(x.1, y.1), lt_i32(x.2, y.2), lt_i32(x.3, y.3),
            lt_i32(x.4, y.4), lt_i32(x.5, y.5), lt_i32(x.6, y.6), lt_i32(x.7, y.7),
        )
    }

    /// The mask that is all ones where the lane of `x` is at most that of `y`, and zero elsewhere.
    pub fn le(x: int8, y: int8) -> (r: int8)
        ensures
            r == int8(
                le_i32(x.0, y.0), le_i32(x.1, y.1), le_i32(x.2, y.2), le_i32(x.3, y.3),
                le_i32(x.4, y.4), le_i32(x.5, y.5), le_i32(x.6, y.6), le_i32(x.7, y.7),
            ),
    {
        int8(
            le_i32(x.0, y.0), le_i32(x.1, y.1), le_i32(x.2, y.2), le_i32(x.3, y.3),
            le_i32(x.4, y.4), le_i32(x.5, y.5), le_i32(x.6, y.6), le_i32(x.7, y.7),
        )
    }

    /// The mask that is all ones where the lane of `x` is greater than that of `y`, and zero
    /// elsewhere.
    pub fn gt(x: int8, y: int8) -> (r: int8)
        ensures
            r == int8(
                gt_i32(x.0, y.0), gt_i32(x.1, y.1), gt_i32(x.2, y.2), gt_i32(x.3, y.3),
                gt_i32(x.4, y.4), gt_i32(x.5, y.5), gt_i32(x.6, y.6), gt_i32(x.7, y.7),
            ),
    {
        int8(
            gt_i32(x.0, y.0), gt_i32(x.1, y.1), gt_i32(x.2, y.2), gt_i32(x.3, y.3),
            gt_i32(x.4, y.4), gt_i32(x.5, y.5), gt_i32(x.6, y.6), gt_i32(x.7, y.7),
        )
    }

    /// The mask that is all ones where the lane of `x` is at least that of `y`, and zero elsewhere.
    pub fn ge(x: int8, y: int8) -> (r: int8)
        ensures
            r == int8(
                ge_i32(x.0, y.0), ge_i32(x.1, y.1), ge_i32(x.2, y.2), ge_i32(x.3, y.3),
                ge_i32(x.4, y.4), ge_i32(x.5, y.5), ge_i32(x.6, y.6), ge_i32(x.7, y.7),
            ),
    {
        int8(
            ge_i32(x.0, y.0), ge_i32(x.1, y.1), ge_i32(x.2, y.2), ge_i32(x.3, y.3),
            ge_i32(x.4, y.4), ge_i32(x.5, y.5), ge_i32(x.6, y.6), ge_i32(x.7, y.7),
        )
    }

    /// `x * y + z` lane by lane, wrapping around.
    pub fn madd(x: int8, y: int8, z: int8) -> (r: int8)
        ensures
            r == int8(
                madd_i32(x.0, y.0, z.0), madd_i32(x.1, y.1, z.1), madd_i32(x.2, y.2, z.2),
                madd_i32(x.3, y.3, z.3), madd_i32(x.4, y.4, z.4), madd_i32(x.5, y.5, z.5),
                madd_i32(x.6, y.6, z.6), madd_i32(x.7, y.7, z.7),
            ),
    {
        int8(
            madd_i32(x.0, y.0, z.0), madd_i32(x.1, y.1, z.1), madd_i32(x.2, y.2, z.2),
            madd_i32(x.3, y.3, z.3), madd_i32(x.4, y.4, z.4), madd_i32(x.5, y.5, z.5),
            madd_i32(x.6, y.6, z.6), madd_i32(x.7, y.7, z.7),
        )
    }

    /// The magnitude of every lane; that of `i32::MIN` wraps around to `i32::MIN`.
    pub fn abs(x: int8) -> (r: int8)
        ensures
            r == x.spec_abs(),
    {
        int8(
            abs_i32(x.0), abs_i32(x.1), abs_i32(x.2), abs_i32(x.3), abs_i32(x.4), abs_i32(x.5),
            abs_i32(x.6), abs_i32(x.7),
        )
    }

    /// The greater lane of `x` and `y`, lane by lane.
    pub fn max(x: int8, y: int8) -> (r: int8)
        ensures
            r == x.spec_max(y),
    {
        int8(
            max_i32(x.0, y.0), max_i32(x.1, y.1), max_i32(x.2, y.2), max_i32(x.3, y.3),
            max_i32(x.4, y.4), max_i32(x.5, y.5), max_i32(x.6, y.6), max_i32(x.7, y.7),
        )
    }

    /// The smaller lane of `x` and `y`, lane by lane.
    pub fn min(x: int8, y: int8) -> (r: int8)
        ensures
            r == x.spec_min(y),
    {
        int8(
            min_i32(x.0, y.0), min_i32(x.1, y.1), min_i32(x.2, y.2), min_i32(x.3, y.3),
            min_i32(x.4, y.4), min_i32(x.5, y.5), min_i32(x.6, y.6), min_i32(x.7, y.7),
        )
    }

    /// Every lane of `x` raised to at least the lane of `lo`, then lowered to at most that of `hi`.
    pub fn clamp(x: int8, lo: int8, hi: int8) -> (r: int8)
        ensures
            r == x.spec_clamp(lo, hi),
    {
        int8(
            clamp_i32(x.0, lo.0, hi.0), clamp_i32(x.1, lo.1, hi.1), clamp_i32(x.2, lo.2, hi.2),
            clamp_i32(x.3, lo.3, hi.3), clamp_i32(x.4, lo.4, hi.4), clamp_i32(x.5, lo.5, hi.5),
            clamp_i32(x.6, lo.6, hi.6), clamp_i32(x.7, lo.7, hi.7),
        )
    }

    /// The sum of the lanes, wrapping around.
    pub fn reduce_add(x: int8) -> (r: i32)
        ensures
            r == x.spec_reduce_add(),
    {
        let s = add_i32(x.0, x.1);
        let ghost mut t: int = x.0 + x.1;
        proof {
            lemma_wrap_i32_sum(t, x.2 as int);
            t = t + x.2;
        }
        let s = add_i32(s, x.2);
        proof {
            lemma_wrap_i32_sum(t, x.3 as int);
            t = t + x.3;
        }
        let s = add_i32(s, x.3);
        proof {
            lemma_wrap_i32_sum(t, x.4 as int);
            t = t + x.4;
        }
        let s = add_i32(s, x.4);
        proof {
            lemma_wrap_i32_sum(t, x.5 as int);
            t = t + x.5;
        }
        let s = add_i32(s, x.5);
        proof {
            lemma_wrap_i32_sum(t, x.6 as int);
            t = t + x.6;
        }
        let s = add_i32(s, x.6);
        proof {
            lemma_wrap_i32_sum(t, x.7 as int);
            t = t + x.7;
        }
        let s = add_i32(s, x.7);
        s
    }

    /// The smallest lane.
    pub fn reduce_min(x: int8) -> (r: i32)
        ensures
            r == x.spec_reduce_min(),
            r <= x.0 && r <= x.1 && r <= x.2 && r <= x.3 && r <= x.4 && r <= x.5 && r <= x.6
                && r <= x.7,
            r == x.0 || r == x.1 || r == x.2 || r == x.3 || r == x.4 || r == x.5 || r == x.6
                || r == x.7,
    {
        let s = min_i32(x.0, x.1);
        let s = min_i32(s, x.2);
        let s = min_i32(s, x.3);
        let s = min_i32(s, x.4);
        let s = min_i32(s, x.5);
        let s = min_i32(s, x.6);
        let s = min_i32(s, x.7);
        s
    }

    /// The greatest lane.
    pub fn reduce_max(x: int8) -> (r: i32)
        ensures
            r == x.spec_reduce_max(),
            r >= x.0 && r >= x.1 && r >= x.2 && r >= x.3 && r >= x.4 && r >= x.5 && r >= x.6
                && r >= x.7,
            r == x.0 || r == x.1 || r == x.2 || r == x.3 || r == x.4 || r == x.5 || r == x.6
                || r == x.7,
    {
        let s = max_i32(x.0, x.1);
        let s = max_i32(s, x.2);
        let s = max_i32(s, x.3);
        let s = max_i32(s, x.4);
        let s = max_i32(s, x.5);
        let s = max_i32(s, x.6);
        let s = max_i32(s, x.7);
        s
    }

    /// Every lane as `i8`: its low 8 bits, read as `i8`.
    pub fn to_char(x: int8) -> (r: char8)
        ensures
            r == char8(
                i32_to_i8(x.0), i32_to_i8(x.1), i32_to_i8(x.2), i32_to_i8(x.3), i32_to_i8(x.4),
                i32_to_i8(x.5), i32_to_i8(x.6), i32_to_i8(x.7),
            ),
    {
        char8(
            i32_to_i8(x.0), i32_to_i8(x.1), i32_to_i8(x.2), i32_to_i8(x.3), i32_to_i8(x.4),
            i32_to_i8(x.5), i32_to_i8(x.6), i32_to_i8(x.7),
        )
    }

    /// Every lane as `i8`, saturating: a lane outside the range of `i8` gives the nearest bound.
    pub fn to_char_sat(x: int8) -> (r: char8)
        ensures
            r == x.spec_to_char_sat(),
    {
        char8(
            i32_to_i8_sat(x.0), i32_to_i8_sat(x.1), i32_to_i8_sat(x.2), i32_to_i8_sat(x.3),
            i32_to_i8_sat(x.4), i32_to_i8_sat(x.5), i32_to_i8_sat(x.6), i32_to_i8_sat(x.7),
        )
    }

    /// Every lane as `u8`: its low 8 bits, read as `u8`.
    pub fn to_uchar(x: int8) -> (r: uchar8)
        ensures
            r == uchar8(
                i32_to_u8(x.0), i32_to_u8(x.1), i32_to_u8(x.2), i32_to_u8(x.3), i32_to_u8(x.4),
                i32_to_u8(x.5), i32_to_u8(x.6), i32_to_u8(x.7),
            ),
    {
        uchar8(
            i32_to_u8(x.0), i32_to_u8(x.1), i32_to_u8(x.2), i32_to_u8(x.3), i32_to_u8(x.4),
            i32_to_u8(x.5), i32_to_u8(x.6), i32_to_u8(x.7),
        )
    }

    /// Every lane as `u8`, saturating: a lane outside the range of `u8` gives the nearest bound.
    pub fn to_uchar_sat(x: int8) -> (r: uchar8)
        ensures
            r == x.spec_to_uchar_sat(),
    {
        uchar8(
            i32_to_u8_sat(x.0), i32_to_u8_sat(x.1), i32_to_u8_sat(x.2), i32_to_u8_sat(x.3),
            i32_to_u8_sat(x.4), i32_to_u8_sat(x.5), i32_to_u8_sat(x.6), i32_to_u8_sat(x.7),
        )
    }

    /// Every lane as `i16`: its low 16 bits, read as `i16`.
    pub fn to_short(x: int8) -> (r: short8)
        ensures
            r == short8(
                i32_to_i16(x.0), i32_to_i16(x.1), i32_to_i16(x.2), i32_to_i16(x.3), i32_to_i16(x.4),
                i32_to_i16(x.5), i32_to_i16(x.6), i32_to_i16(x.7),
            ),
    {
        short8(
            i32_to_i16(x.0), i32_to_i16(x.1), i32_to_i16(x.2), i32_to_i16(x.3), i32_to_i16(x.4),
            i32_to_i16(x.5), i32_to_i16(x.6), i32_to_i16(x.7),
        )
    }

    /// Every lane as `i16`, saturating: a lane outside the range of `i16` gives the nearest bound.
    pub fn to_short_sat(x: int8) -> (r: short8)
        ensures
            r == x.spec_to_short_sat(),
    {
        short8(
            i32_to_i16_sat(x.0), i32_to_i16_sat(x.1), i32_to_i16_sat(x.2), i32_to_i16_sat(x.3),
            i32_to_i16_sat(x.4), i32_to_i16_sat(x.5), i32_to_i16_sat(x.6), i32_to_i16_sat(x.7),
        )
    }

    /// Every lane as `u16`: its low 16 bits, read as `u16`.
    pub fn to_ushort(x: int8) -> (r: ushort8)
        ensures
            r == ushort8(
                i32_to_u16(x.0), i32_to_u16(x.1), i32_to_u16(x.2), i32_to_u16(x.3), i32_to_u16(x.4),
                i32_to_u16(x.5), i32_to_u16(x.6), i32_to_u16(x.7),
            ),
    {
        ushort8(
            i32_to_u16(x.0), i32_to_u16(x.1), i32_to_u16(x.2), i32_to_u16(x.3), i32_to_u16(x.4),
            i32_to_u16(x.5), i32_to_u16(x.6), i32_to_u16(x.7),
        )
    }

    /// Every lane as `u16`, saturating: a lane outside the range of `u16` gives the nearest bound.
    pub fn to_ushort_sat(x: int8) -> (r: ushort8)
        ensures
            r == x.spec_to_ushort_sat(),
    {
        ushort8(
            i32_to_u16_sat(x.0), i32_to_u16_sat(x.1), i32_to_u16_sat(x.2), i32_to_u16_sat(x.3),
            i32_to_u16_sat(x.4), i32_to_u16_sat(x.5), i32_to_u16_sat(x.6), i32_to_u16_sat(x.7),
        )
    }

    /// The vector itself: its lanes are `i32` already.
    pub fn to_int(x: int8) -> (r: int8)
        ensures
            r == x,
    {
        x
    }

    /// The vector itself: its lanes are `i32` already, and nothing saturates.
    pub fn to_int_sat(x: int8) -> (r: int8)
        ensures
            r == x.spec_to_int_sat(),
    {
        x
    }

    /// Every lane as `u32`: the same bits, read as `u32`.
    pub fn to_uint(x: int8) -> (r: uint8)
        ensures
            r == uint8(
                i32_to_u32(x.0), i32_to_u32(x.1), i32_to_u32(x.2), i32_to_u32(x.3), i32_to_u32(x.4),
                i32_to_u32(x.5), i32_to_u32(x.6), i32_to_u32(x.7),
            ),
    {
        uint8(
            i32_to_u32(x.0), i32_to_u32(x.1), i32_to_u32(x.2), i32_to_u32(x.3), i32_to_u32(x.4),
            i32_to_u32(x.5), i32_to_u32(x.6), i32_to_u32(x.7),
        )
    }

    /// Every lane as `u32`, saturating: a lane outside the range of `u32` gives the nearest bound.
    pub fn to_uint_sat(x: int8) -> (r: uint8)
        ensures
            r == x.spec_to_uint_sat(),
    {
        uint8(
            i32_to_u32_sat(x.0), i32_to_u32_sat(x.1), i32_to_u32_sat(x.2), i32_to_u32_sat(x.3),
            i32_to_u32_sat(x.4), i32_to_u32_sat(x.5), i32_to_u32_sat(x.6), i32_to_u32_sat(x.7),
        )
    }

    /// Every lane as `i64`, which holds every `i32`.
    pub fn to_long(x: int8) -> (r: long8)
        ensures
            r == long8(
                i32_to_i64(x.0), i32_to_i64(x.1), i32_to_i64(x.2), i32_to_i64(x.3), i32_to_i64(x.4),
                i32_to_i64(x.5), i32_to_i64(x.6), i32_to_i64(x.7),
            ),
    {
        long8(
            i32_to_i64(x.0), i32_to_i64(x.1), i32_to_i64(x.2), i32_to_i64(x.3), i32_to_i64(x.4),
            i32_to_i64(x.5), i32_to_i64(x.6), i32_to_i64(x.7),
        )
    }

    /// Every lane as `i64`, saturating; nothing saturates, since `i64` holds every `i32`.
    pub fn to_long_sat(x: int8) -> (r: long8)
        ensures
            r == x.spec_to_long_sat(),
    {
        long8(
            i32_to_i64_sat(x.0), i32_to_i64_sat(x.1), i32_to_i64_sat(x.2), i32_to_i64_sat(x.3),
            i32_to_i64_sat(x.4), i32_to_i64_sat(x.5), i32_to_i64_sat(x.6), i32_to_i64_sat(x.7),
        )
    }

    /// Every lane as `u64`, sign-extended: a negative lane wraps around.
    pub fn to_ulong(x: int8) -> (r: ulong8)
        ensures
            r == ulong8(
                i32_to_u64(x.0), i32_to_u64(x.1), i32_to_u64(x.2), i32_to_u64(x.3), i32_to_u64(x.4),
                i32_to_u64(x.5), i32_to_u64(x.6), i32_to_u64(x.7),
            ),
    {
        ulong8(
            i32_to_u64(x.0), i32_to_u64(x.1), i32_to_u64(x.2), i32_to_u64(x.3), i32_to_u64(x.4),
            i32_to_u64(x.5), i32_to_u64(x.6), i32_to_u64(x.7),
        )
    }

    /// Every lane as `u64`, saturating: a lane outside the range of `u64` gives the nearest bound.
    pub fn to_ulong_sat(x: int8) -> (r: ulong8)
        ensures
            r == x.spec_to_ulong_sat(),
    {
        ulong8(
            i32_to_u64_sat(x.0), i32_to_u64_sat(x.1), i32_to_u64_sat(x.2), i32_to_u64_sat(x.3),
            i32_to_u64_sat(x.4), i32_to_u64_sat(x.5), i32_to_u64_sat(x.6), i32_to_u64_sat(x.7),
        )
    }

    /// The low half: lanes 0 to 3.
    pub fn lo(self) -> (r: int4)
        ensures
            r == int4(self.0, self.1, self.2, self.3),
    {
        int4(self.0, self.1, self.2, self.3)
    }

    /// The high half: lanes 4 to 7.
    pub fn hi(self) -> (r: int4)
        ensures
            r == int4(self.4, self.5, self.6, self.7),
    {
        int4(self.4, self.5, self.6, self.7)
    }

    /// The odd lanes: lanes 1, 3 and so on.
    pub fn odd(self) -> (r: int4)
        ensures
            r == int4(self.1, self.3, self.5, self.7),
    {
        int4(self.1, self.3, self.5, self.7)
    }

    /// The even lanes: lanes 0, 2 and so on.
    pub fn even(self) -> (r: int4)
        ensures
            r == int4(self.0, self.2, self.4, self.6),
    {
        int4(self.0, self.2, self.4, self.6)
    }

    /// The vector of `f` applied to every lane. `f` accepts every lane.
    pub fn map_unary<F: Fn(i32) -> i32>(self, f: F) -> (r: int8)
        requires
            call_requires(f, (self.0,)),
            call_requires(f, (self.1,)),
            call_requires(f, (self.2,)),
            call_requires(f, (self.3,)),
            call_requires(f, (self.4,)),
            call_requires(f, (self.5,)),
            call_requires(f, (self.6,)),
            call_requires(f, (self.7,)),
        ensures
            call_ensures(f, (self.0,), r.0),
            call_ensures(f, (self.1,), r.1),
            call_ensures(f, (self.2,), r.2),
            call_ensures(f, (self.3,), r.3),
            call_ensures(f, (self.4,), r.4),
            call_ensures(f, (self.5,), r.5),
            call_ensures(f, (self.6,), r.6),
            call_ensures(f, (self.7,), r.7),
    {
        int8(f(self.0), f(self.1), f(self.2), f(self.3), f(self.4), f(self.5), f(self.6), f(self.7))
    }

    /// The vector of `f` applied to the lanes of the two vectors, lane by lane. `f` accepts every
    /// such pair of lanes.
    pub fn map_binary<F: Fn(i32, i32) -> i32>(self, other: int8, f: F) -> (r: int8)
        requires
            call_requires(f, (self.0, other.0)),
            call_requires(f, (self.1, other.1)),
            call_requires(f, (self.2, other.2)),
            call_requires(f, (self.3, other.3)),
            call_requires(f, (self.4, other.4)),
            call_requires(f, (self.5, other.5)),
            call_requires(f, (self.6, other.6)),
            call_requires(f, (self.7, other.7)),
        ensures
            call_ensures(f, (self.0, other.0), r.0),
            call_ensures(f, (self.1, other.1), r.1),
            call_ensures(f, (self.2, other.2), r.2),
            call_ensures(f, (self.3, other.3), r.3),
            call_ensures(f, (self.4, other.4), r.4),
            call_ensures(f, (self.5, other.5), r.5),
            call_ensures(f, (self.6, other.6), r.6),
            call_ensures(f, (self.7, other.7), r.7),
    {
        int8(
            f(self.0, other.0), f(self.1, other.1), f(self.2, other.2), f(self.3, other.3),
            f(self.4, other.4), f(self.5, other.5), f(self.6, other.6), f(self.7, other.7),
        )
    }

    /// The lanes folded by `f`, from lane 0 upward: `f` is applied to lane 1 and lane 0, then to
    /// each further lane and what the lanes below it gave. `f` accepts every pair of scalars.
    pub fn reduce<F: Fn(i32, i32) -> i32>(self, f: F) -> (r: i32)
        requires
            forall|a: i32, b: i32| call_requires(f, (a, b)),
        ensures
            exists|s1: i32, s2: i32, s3: i32, s4: i32, s5: i32, s6: i32|
                call_ensures(f, (self.1, self.0), s1)
                    && call_ensures(f, (self.2, s1), s2)
                    && call_ensures(f, (self.3, s2), s3)
                    && call_ensures(f, (self.4, s3), s4)
                    && call_ensures(f, (self.5, s4), s5)
                    && call_ensures(f, (self.6, s5), s6)
                    && call_ensures(f, (self.7, s6), r),
    {
        let s1 = f(self.1, self.0);
        let s2 = f(self.2, s1);
        let s3 = f(self.3, s2);
        let s4 = f(self.4, s3);
        let s5 = f(self.5, s4);
        let s6 = f(self.6, s5);
        let s7 = f(self.7, s6);
        s7
    }

    /// Addition commutes.
    pub proof fn lemma_add_commutes(x: int8, y: int8)
        ensures
            AddSpec::add_spec(x, y) == AddSpec::add_spec(y, x),
    {
        lemma_arith_i32(x.0, y.0, 0);
        lemma_arith_i32(x.1, y.1, 0);
        lemma_arith_i32(x.2, y.2, 0);
        lemma_arith_i32(x.3, y.3, 0);
        lemma_arith_i32(x.4, y.4, 0);
        lemma_arith_i32(x.5, y.5, 0);
        lemma_arith_i32(x.6, y.6, 0);
        lemma_arith_i32(x.7, y.7, 0);
    }

    /// Addition associates, wrap-around or not.
    pub proof fn lemma_add_associates(x: int8, y: int8, z: int8)
        ensures
            AddSpec::add_spec(AddSpec::add_spec(x, y), z)
                == AddSpec::add_spec(x, AddSpec::add_spec(y, z)),
    {
        lemma_arith_i32(x.0, y.0, z.0);
        lemma_arith_i32(x.1, y.1, z.1);
        lemma_arith_i32(x.2, y.2, z.2);
        lemma_arith_i32(x.3, y.3, z.3);
        lemma_arith_i32(x.4, y.4, z.4);
        lemma_arith_i32(x.5, y.5, z.5);
        lemma_arith_i32(x.6, y.6, z.6);
        lemma_arith_i32(x.7, y.7, z.7);
    }

    /// Swapping the operands of a subtraction negates the difference.
    pub proof fn lemma_sub_swaps(x: int8, y: int8)
        ensures
            SubSpec::sub_spec(x, y) == NegSpec::neg_spec(SubSpec::sub_spec(y, x)),
    {
        lemma_arith_i32(x.0, y.0, 0);
        lemma_arith_i32(x.1, y.1, 0);
        lemma_arith_i32(x.2, y.2, 0);
        lemma_arith_i32(x.3, y.3, 0);
        lemma_arith_i32(x.4, y.4, 0);
        lemma_arith_i32(x.5, y.5, 0);
        lemma_arith_i32(x.6, y.6, 0);
        lemma_arith_i32(x.7, y.7, 0);
    }

    /// The magnitude of a magnitude is that magnitude, and the magnitude of a lane other than
    /// `i32::MIN` is not negative.
    pub proof fn lemma_abs(x: int8)
        ensures
            x.spec_abs().spec_abs() == x.spec_abs(),
            forall|i: int|
                0 <= i < 8 && x.lane(i) != i32::MIN ==> #[trigger] x.spec_abs().lane(i) >= 0,
            forall|i: int|
                0 <= i < 8 && x.lane(i) == i32::MIN ==> #[trigger] x.spec_abs().lane(i) == i32::MIN,
    {
        lemma_abs_i32(x.0);
        lemma_abs_i32(x.1);
        lemma_abs_i32(x.2);
        lemma_abs_i32(x.3);
        lemma_abs_i32(x.4);
        lemma_abs_i32(x.5);
        lemma_abs_i32(x.6);
        lemma_abs_i32(x.7);
    }

    /// Flipping every bit of a lane gives minus one minus the lane.
    pub proof fn lemma_not(x: int8)
        ensures
            forall|i: int| 0 <= i < 8 ==> #[trigger] NotSpec::not_spec(x).lane(i) == -1 - x.lane(i),
    {
        lemma_not_i32(x.0);
        lemma_not_i32(x.1);
        lemma_not_i32(x.2);
        lemma_not_i32(x.3);
        lemma_not_i32(x.4);
        lemma_not_i32(x.5);
        lemma_not_i32(x.6);
        lemma_not_i32(x.7);
    }

    /// The lanes of a vector with `k` in every lane add up to 8 times `k`, wrapped around.
    pub proof fn lemma_reduce_add_broadcast(k: i32)
        ensures
            int8(k, k, k, k, k, k, k, k).spec_reduce_add() == wrap_i32(8 * k),
    {
    }

    /// Saturating conversion to `i8` gives, lane by lane, the lane itself where `i8` holds it and
    /// the nearest bound of `i8` where it does not.
    pub proof fn lemma_to_char_sat(x: int8)
        ensures
            forall|i: int|
                0 <= i < 8 ==> #[trigger] x.spec_to_char_sat().lane(i) == sat_i8(x.lane(i) as int),
    {
    }

    /// Saturating conversion to `u8` gives, lane by lane, the lane itself where `u8` holds it and
    /// the nearest bound of `u8` where it does not.
    pub proof fn lemma_to_uchar_sat(x: int8)
        ensures
            forall|i: int|
                0 <= i < 8 ==> #[trigger] x.spec_to_uchar_sat().lane(i) == sat_u8(x.lane(i) as int),
    {
    }

    /// Saturating conversion to `i16` gives, lane by lane, the lane itself where `i16` holds it and
    /// the nearest bound of `i16` where it does not.
    pub proof fn lemma_to_short_sat(x: int8)
        ensures
            forall|i: int|
                0 <= i < 8 ==>
                    #[trigger] x.spec_to_short_sat().lane(i) == sat_i16(x.lane(i) as int),
    {
    }

    /// Saturating conversion to `u16` gives, lane by lane, the lane itself where `u16` holds it and
    /// the nearest bound of `u16` where it does not.
    pub proof fn lemma_to_ushort_sat(x: int8)
        ensures
            forall|i: int|
                0 <= i < 8 ==>
                    #[trigger] x.spec_to_ushort_sat().lane(i) == sat_u16(x.lane(i) as int),
    {
    }

    /// Saturating conversion to `u32` gives, lane by lane, the lane itself where `u32` holds it and
    /// the nearest bound of `u32` where it does not.
    pub proof fn lemma_to_uint_sat(x: int8)
        ensures
            forall|i: int|
                0 <= i < 8 ==> #[trigger] x.spec_to_uint_sat().lane(i) == sat_u32(x.lane(i) as int),
    {
    }

    /// Saturating conversion to `i64` gives every lane unchanged: `i64` holds every `i32`.
    pub proof fn lemma_to_long_sat(x: int8)
        ensures
            forall|i: int|
                0 <= i < 8 ==> #[trigger] x.spec_to_long_sat().lane(i) == sat_i64(x.lane(i) as int),
            forall|i: int| 0 <= i < 8 ==> #[trigger] x.spec_to_long_sat().lane(i) == x.lane(i),
    {
    }

    /// Saturating conversion to `u64` gives, lane by lane, the lane itself where `u64` holds it and
    /// the nearest bound of `u64` where it does not.
    pub proof fn lemma_to_ulong_sat(x: int8)
        ensures
            forall|i: int|
                0 <= i < 8 ==>
                    #[trigger] x.spec_to_ulong_sat().lane(i) == sat_u64(x.lane(i) as int),
    {
    }
}

impl Vector for int8 {
    type Scalar = i32;

    type Boolean = int8;

    type CharVector = char8;

    type ShortVector = short8;

    type IntVector = int8;

    type LongVector = long8;

    type UCharVector = uchar8;

    type UShortVector = ushort8;

    type UIntVector = uint8;

    type ULongVector = ulong8;

    type FloatVector = float8;

    type DoubleVector = double8;

    open spec fn spec_abs(self) -> int8 {
        int8(
            abs_i32(self.0), abs_i32(self.1), abs_i32(self.2), abs_i32(self.3), abs_i32(self.4),
            abs_i32(self.5), abs_i32(self.6), abs_i32(self.7),
        )
    }

    open spec fn spec_max(self, other: int8) -> int8 {
        int8(
            max_i32(self.0, other.0), max_i32(self.1, other.1), max_i32(self.2, other.2),
            max_i32(self.3, other.3), max_i32(self.4, other.4), max_i32(self.5, other.5),
            max_i32(self.6, other.6), max_i32(self.7, other.7),
        )
    }

    open spec fn spec_min(self, other: int8) -> int8 {
        int8(
            min_i32(self.0, other.0), min_i32(self.1, other.1), min_i32(self.2, other.2),
            min_i32(self.3, other.3), min_i32(self.4, other.4), min_i32(self.5, other.5),
            min_i32(self.6, other.6), min_i32(self.7, other.7),
        )
    }

    open spec fn spec_clamp(self, lo: int8, hi: int8) -> int8 {
        int8(
            clamp_i32(self.0, lo.0, hi.0), clamp_i32(self.1, lo.1, hi.1),
            clamp_i32(self.2, lo.2, hi.2), clamp_i32(self.3, lo.3, hi.3),
            clamp_i32(self.4, lo.4, hi.4), clamp_i32(self.5, lo.5, hi.5),
            clamp_i32(self.6, lo.6, hi.6), clamp_i32(self.7, lo.7, hi.7),
        )
    }

    open spec fn spec_reduce_add(self) -> i32 {
        wrap_i32(self.0 + self.1 + self.2 + self.3 + self.4 + self.5 + self.6 + self.7)
    }

    open spec fn spec_reduce_min(self) -> i32 {
        let s = min_i32(self.0, self.1);
        let s = min_i32(s, self.2);
        let s = min_i32(s, self.3);
        let s = min_i32(s, self.4);
        let s = min_i32(s, self.5);
        let s = min_i32(s, self.6);
        let s = min_i32(s, self.7);
        s
    }

    open spec fn spec_reduce_max(self) -> i32 {
        let s = max_i32(self.0, self.1);
        let s = max_i32(s, self.2);
        let s = max_i32(s, self.3);
        let s = max_i32(s, self.4);
        let s = max_i32(s, self.5);
        let s = max_i32(s, self.6);
        let s = max_i32(s, self.7);
        s
    }

    open spec fn spec_to_char_sat(self) -> char8 {
        char8(
            i32_to_i8_sat(self.0), i32_to_i8_sat(self.1), i32_to_i8_sat(self.2),
            i32_to_i8_sat(self.3), i32_to_i8_sat(self.4), i32_to_i8_sat(self.5),
            i32_to_i8_sat(self.6), i32_to_i8_sat(self.7),
        )
    }

    open spec fn spec_to_uchar_sat(self) -> uchar8 {
        uchar8(
            i32_to_u8_sat(self.0), i32_to_u8_sat(self.1), i32_to_u8_sat(self.2),
            i32_to_u8_sat(self.3), i32_to_u8_sat(self.4), i32_to_u8_sat(self.5),
            i32_to_u8_sat(self.6), i32_to_u8_sat(self.7),
        )
    }

    open spec fn spec_to_short_sat(self) -> short8 {
        short8(
            i32_to_i16_sat(self.0), i32_to_i16_sat(self.1), i32_to_i16_sat(self.2),
            i32_to_i16_sat(self.3), i32_to_i16_sat(self.4), i32_to_i16_sat(self.5),
            i32_to_i16_sat(self.6), i32_to_i16_sat(self.7),
        )
    }

    open spec fn spec_to_ushort_sat(self) -> ushort8 {
        ushort8(
            i32_to_u16_sat(self.0), i32_to_u16_sat(self.1), i32_to_u16_sat(self.2),
            i32_to_u16_sat(self.3), i32_to_u16_sat(self.4), i32_to_u16_sat(self.5),
            i32_to_u16_sat(self.6), i32_to_u16_sat(self.7),
        )
    }

    open spec fn spec_to_int_sat(self) -> int8 {
        self
    }

    open spec fn spec_to_uint_sat(self) -> uint8 {
        uint8(
            i32_to_u32_sat(self.0), i32_to_u32_sat(self.1), i32_to_u32_sat(self.2),
            i32_to_u32_sat(self.3), i32_to_u32_sat(self.4), i32_to_u32_sat(self.5),
            i32_to_u32_sat(self.6), i32_to_u32_sat(self.7),
        )
    }

    open spec fn spec_to_long_sat(self) -> long8 {
        long8(
            i32_to_i64_sat(self.0), i32_to_i64_sat(self.1), i32_to_i64_sat(self.2),
            i32_to_i64_sat(self.3), i32_to_i64_sat(self.4), i32_to_i64_sat(self.5),
            i32_to_i64_sat(self.6), i32_to_i64_sat(self.7),
        )
    }

    open spec fn spec_to_ulong_sat(self) -> ulong8 {
        ulong8(
            i32_to_u64_sat(self.0), i32_to_u64_sat(self.1), i32_to_u64_sat(self.2),
            i32_to_u64_sat(self.3), i32_to_u64_sat(self.4), i32_to_u64_sat(self.5),
            i32_to_u64_sat(self.6), i32_to_u64_sat(self.7),
        )
    }

    fn abs(self) -> (r: int8) {
        int8::abs(self)
    }

    fn max(self, other: int8) -> (r: int8) {
        int8::max(self, other)
    }

    fn min(self, other: int8) -> (r: int8) {
        int8::min(self, other)
    }

    fn clamp(self, lo: int8, hi: int8) -> (r: int8) {
        int8::clamp(self, lo, hi)
    }

    fn reduce_add(self) -> (r: i32) {
        int8::reduce_add(self)
    }

    fn reduce_min(self) -> (r: i32) {
        int8::reduce_min(self)
    }

    fn reduce_max(self) -> (r: i32) {
        int8::reduce_max(self)
    }

    fn to_char_sat(self) -> (r: char8) {
        int8::to_char_sat(self)
    }

    fn to_uchar_sat(self) -> (r: uchar8) {
        int8::to_uchar_sat(self)
    }

    fn to_short_sat(self) -> (r: short8) {
        int8::to_short_sat(self)
    }

    fn to_ushort_sat(self) -> (r: ushort8) {
        int8::to_ushort_sat(self)
    }

    fn to_int_sat(self) -> (r: int8) {
        int8::to_int_sat(self)
    }

    fn to_uint_sat(self) -> (r: uint8) {
        int8::to_uint_sat(self)
    }

    fn to_long_sat(self) -> (r: long8) {
        int8::to_long_sat(self)
    }

    fn to_ulong_sat(self) -> (r: ulong8) {
        int8::to_ulong_sat(self)
    }
}

impl Integer for int8 {
    open spec fn spec_reduce_and(self) -> i32 {
        self.0 & self.1 & self.2 & self.3 & self.4 & self.5 & self.6 & self.7
    }

    open spec fn spec_reduce_or(self) -> i32 {
        self.0 | self.1 | self.2 | self.3 | self.4 | self.5 | self.6 | self.7
    }

    open spec fn spec_reduce_xor(self) -> i32 {
        self.0 ^ self.1 ^ self.2 ^ self.3 ^ self.4 ^ self.5 ^ self.6 ^ self.7
    }

    open spec fn spec_all(self) -> bool {
        truth_i32(self.0) && truth_i32(self.1) && truth_i32(self.2) && truth_i32(self.3)
            && truth_i32(self.4) && truth_i32(self.5) && truth_i32(self.6) && truth_i32(self.7)
    }

    open spec fn spec_any(self) -> bool {
        truth_i32(self.0) || truth_i32(self.1) || truth_i32(self.2) || truth_i32(self.3)
            || truth_i32(self.4) || truth_i32(self.5) || truth_i32(self.6) || truth_i32(self.7)
    }

    fn reduce_and(self) -> (r: i32) {
        self.0 & self.1 & self.2 & self.3 & self.4 & self.5 & self.6 & self.7
    }

    fn reduce_or(self) -> (r: i32) {
        self.0 | self.1 | self.2 | self.3 | self.4 | self.5 | self.6 | self.7
    }

    fn reduce_xor(self) -> (r: i32) {
        self.0 ^ self.1 ^ self.2 ^ self.3 ^ self.4 ^ self.5 ^ self.6 ^ self.7
    }

    fn all(self) -> (r: bool) {
        proof {
            let s = self.0 & self.1;
            lemma_bits_i32(self.0, self.1, 0, 0);
            lemma_bits_i32(s, self.2, 0, 0);
            let s = s & self.2;
            lemma_bits_i32(s, self.3, 0, 0);
            let s = s & self.3;
            lemma_bits_i32(s, self.4, 0, 0);
            let s = s & self.4;
            lemma_bits_i32(s, self.5, 0, 0);
            let s = s & self.5;
            lemma_bits_i32(s, self.6, 0, 0);
            let s = s & self.6;
            lemma_bits_i32(s, self.7, 0, 0);
        }
        truth_i32(self.reduce_and())
    }

    fn any(self) -> (r: bool) {
        proof {
            let s = self.0 | self.1;
            lemma_bits_i32(self.0, self.1, 0, 0);
            lemma_bits_i32(s, self.2, 0, 0);
            let s = s | self.2;
            lemma_bits_i32(s, self.3, 0, 0);
            let s = s | self.3;
            lemma_bits_i32(s, self.4, 0, 0);
            let s = s | self.4;
            lemma_bits_i32(s, self.5, 0, 0);
            let s = s | self.5;
            lemma_bits_i32(s, self.6, 0, 0);
            let s = s | self.6;
            lemma_bits_i32(s, self.7, 0, 0);
        }
        truth_i32(self.reduce_or())
    }
}

impl Dot for int8 {
    type DotProduct = i32;

    open spec fn spec_dot(self, other: int8) -> i32 {
        wrap_i32(
            self.0 * other.0 + self.1 * other.1 + self.2 * other.2 + self.3 * other.3
                + self.4 * other.4 + self.5 * other.5 + self.6 * other.6 + self.7 * other.7
        )
    }

    fn dot(self, other: int8) -> (r: i32) {
        let s = mul_i32(self.0, other.0);
        let ghost mut t: int = self.0 * other.0;
        proof {
            lemma_wrap_i32_sum(t, self.1 * other.1);
            t = t + self.1 * other.1;
        }
        let s = madd_i32(self.1, other.1, s);
        proof {
            lemma_wrap_i32_sum(t, self.2 * other.2);
            t = t + self.2 * other.2;
        }
        let s = madd_i32(self.2, other.2, s);
        proof {
            lemma_wrap_i32_sum(t, self.3 * other.3);
            t = t + self.3 * other.3;
        }
        let s = madd_i32(self.3, other.3, s);
        proof {
            lemma_wrap_i32_sum(t, self.4 * other.4);
            t = t + self.4 * other.4;
        }
        let s = madd_i32(self.4, other.4, s);
        proof {
            lemma_wrap_i32_sum(t, self.5 * other.5);
            t = t + self.5 * other.5;
        }
        let s = madd_i32(self.5, other.5, s);
        proof {
            lemma_wrap_i32_sum(t, self.6 * other.6);
            t = t + self.6 * other.6;
        }
        let s = madd_i32(self.6, other.6, s);
        proof {
            lemma_wrap_i32_sum(t, self.7 * other.7);
            t = t + self.7 * other.7;
        }
        let s = madd_i32(self.7, other.7, s);
        s
    }
}

impl Select<int8> for int8 {
    open spec fn spec_select(self, a: int8, b: int8) -> int8 {
        int8(
            select_i32(self.0, a.0, b.0), select_i32(self.1, a.1, b.1),
            select_i32(self.2, a.2, b.2), select_i32(self.3, a.3, b.3),
            select_i32(self.4, a.4, b.4), select_i32(self.5, a.5, b.5),
            select_i32(self.6, a.6, b.6), select_i32(self.7, a.7, b.7),
        )
    }

    open spec fn spec_bitselect(self, a: int8, b: int8) -> int8 {
        int8(
            bitselect_i32(self.0, a.0, b.0), bitselect_i32(self.1, a.1, b.1),
            bitselect_i32(self.2, a.2, b.2), bitselect_i32(self.3, a.3, b.3),
            bitselect_i32(self.4, a.4, b.4), bitselect_i32(self.5, a.5, b.5),
            bitselect_i32(self.6, a.6, b.6), bitselect_i32(self.7, a.7, b.7),
        )
    }

    fn select(self, a: int8, b: int8) -> (r: int8) {
        int8(
            select_i32(self.0, a.0, b.0), select_i32(self.1, a.1, b.1),
            select_i32(self.2, a.2, b.2), select_i32(self.3, a.3, b.3),
            select_i32(self.4, a.4, b.4), select_i32(self.5, a.5, b.5),
            select_i32(self.6, a.6, b.6), select_i32(self.7, a.7, b.7),
        )
    }

    fn bitselect(self, a: int8, b: int8) -> (r: int8) {
        int8(
            bitselect_i32(self.0, a.0, b.0), bitselect_i32(self.1, a.1, b.1),
            bitselect_i32(self.2, a.2, b.2), bitselect_i32(self.3, a.3, b.3),
            bitselect_i32(self.4, a.4, b.4), bitselect_i32(self.5, a.5, b.5),
            bitselect_i32(self.6, a.6, b.6), bitselect_i32(self.7, a.7, b.7),
        )
    }
}

impl Select<uint8> for int8 {
    open spec fn spec_select(self, a: uint8, b: uint8) -> uint8 {
        uint8(
            select_u32(self.0, a.0, b.0), select_u32(self.1, a.1, b.1),
            select_u32(self.2, a.2, b.2), select_u32(self.3, a.3, b.3),
            select_u32(self.4, a.4, b.4), select_u32(self.5, a.5, b.5),
            select_u32(self.6, a.6, b.6), select_u32(self.7, a.7, b.7),
        )
    }

    open spec fn spec_bitselect(self, a: uint8, b: uint8) -> uint8 {
        uint8(
            bitselect_u32(self.0, a.0, b.0), bitselect_u32(self.1, a.1, b.1),
            bitselect_u32(self.2, a.2, b.2), bitselect_u32(self.3, a.3, b.3),
            bitselect_u32(self.4, a.4, b.4), bitselect_u32(self.5, a.5, b.5),
            bitselect_u32(self.6, a.6, b.6), bitselect_u32(self.7, a.7, b.7),
        )
    }

    fn select(self, a: uint8, b: uint8) -> (r: uint8) {
        uint8(
            select_u32(self.0, a.0, b.0), select_u32(self.1, a.1, b.1),
            select_u32(self.2, a.2, b.2), select_u32(self.3, a.3, b.3),
            select_u32(self.4, a.4, b.4), select_u32(self.5, a.5, b.5),
            select_u32(self.6, a.6, b.6), select_u32(self.7, a.7, b.7),
        )
    }

    fn bitselect(self, a: uint8, b: uint8) -> (r: uint8) {
        uint8(
            bitselect_u32(self.0, a.0, b.0), bitselect_u32(self.1, a.1, b.1),
            bitselect_u32(self.2, a.2, b.2), bitselect_u32(self.3, a.3, b.3),
            bitselect_u32(self.4, a.4, b.4), bitselect_u32(self.5, a.5, b.5),
            bitselect_u32(self.6, a.6, b.6), bitselect_u32(self.7, a.7, b.7),
        )
    }
}

impl Select<float8> for int8 {
    open spec fn spec_select(self, a: float8, b: float8) -> float8 {
        float8(
            select_u32(self.0, a.0, b.0), select_u32(self.1, a.1, b.1),
            select_u32(self.2, a.2, b.2), select_u32(self.3, a.3, b.3),
            select_u32(self.4, a.4, b.4), select_u32(self.5, a.5, b.5),
            select_u32(self.6, a.6, b.6), select_u32(self.7, a.7, b.7),
        )
    }

    open spec fn spec_bitselect(self, a: float8, b: float8) -> float8 {
        float8(
            bitselect_u32(self.0, a.0, b.0), bitselect_u32(self.1, a.1, b.1),
            bitselect_u32(self.2, a.2, b.2), bitselect_u32(self.3, a.3, b.3),
            bitselect_u32(self.4, a.4, b.4), bitselect_u32(self.5, a.5, b.5),
            bitselect_u32(self.6, a.6, b.6), bitselect_u32(self.7, a.7, b.7),
        )
    }

    fn select(self, a: float8, b: float8) -> (r: float8) {
        float8(
            select_u32(self.0, a.0, b.0), select_u32(self.1, a.1, b.1),
            select_u32(self.2, a.2, b.2), select_u32(self.3, a.3, b.3),
            select_u32(self.4, a.4, b.4), select_u32(self.5, a.5, b.5),
            select_u32(self.6, a.6, b.6), select_u32(self.7, a.7, b.7),
        )
    }

    fn bitselect(self, a: float8, b: float8) -> (r: float8) {
        float8(
            bitselect_u32(self.0, a.0, b.0), bitselect_u32(self.1, a.1, b.1),
            bitselect_u32(self.2, a.2, b.2), bitselect_u32(self.3, a.3, b.3),
            bitselect_u32(self.4, a.4, b.4), bitselect_u32(self.5, a.5, b.5),
            bitselect_u32(self.6, a.6, b.6), bitselect_u32(self.7, a.7, b.7),
        )
    }
}

impl int8 {
    /// A blend of two `int8` gives the lane of `b` where the mask is all ones and the lane of `a`
    /// where it is zero, whatever the other lanes hold.
    pub proof fn lemma_bitselect_int8(m: int8, a: int8, b: int8)
        ensures
            forall|i: int|
                0 <= i < 8 && m.lane(i) == -1 ==>
                    #[trigger] m.spec_bitselect(a, b).lane(i) == b.lane(i),
            forall|i: int|
                0 <= i < 8 && m.lane(i) == 0 ==>
                    #[trigger] m.spec_bitselect(a, b).lane(i) == a.lane(i),
    {
        lemma_blend_i32(m.0, a.0, b.0);
        lemma_blend_i32(m.1, a.1, b.1);
        lemma_blend_i32(m.2, a.2, b.2);
        lemma_blend_i32(m.3, a.3, b.3);
        lemma_blend_i32(m.4, a.4, b.4);
        lemma_blend_i32(m.5, a.5, b.5);
        lemma_blend_i32(m.6, a.6, b.6);
        lemma_blend_i32(m.7, a.7, b.7);
    }

    /// A choice between two `int8` goes by the sign bit of the mask alone: it gives the lane of `b`
    /// where the mask is negative and the lane of `a` elsewhere, as the blend does under the mask
    /// whose every lane has its sign spread over all its bits.
    pub proof fn lemma_select_int8(m: int8, a: int8, b: int8)
        ensures
            m.spec_select(a, b) == ShrSpec::shr_spec(m, 31i32).spec_bitselect(a, b),
            forall|i: int|
                0 <= i < 8 && m.lane(i) < 0 ==> #[trigger] m.spec_select(a, b).lane(i) == b.lane(i),
            forall|i: int|
                0 <= i < 8 && m.lane(i) >= 0 ==>
                    #[trigger] m.spec_select(a, b).lane(i) == a.lane(i),
    {
        lemma_blend_i32(m.0, a.0, b.0);
        lemma_blend_i32(m.1, a.1, b.1);
        lemma_blend_i32(m.2, a.2, b.2);
        lemma_blend_i32(m.3, a.3, b.3);
        lemma_blend_i32(m.4, a.4, b.4);
        lemma_blend_i32(m.5, a.5, b.5);
        lemma_blend_i32(m.6, a.6, b.6);
        lemma_blend_i32(m.7, a.7, b.7);
    }

    /// A blend of two `uint8` gives the lane of `b` where the mask is all ones and the lane of `a`
    /// where it is zero, whatever the other lanes hold.
    pub proof fn lemma_bitselect_uint8(m: int8, a: uint8, b: uint8)
        ensures
            forall|i: int|
                0 <= i < 8 && m.lane(i) == -1 ==>
                    #[trigger] m.spec_bitselect(a, b).lane(i) == b.lane(i),
            forall|i: int|
                0 <= i < 8 && m.lane(i) == 0 ==>
                    #[trigger] m.spec_bitselect(a, b).lane(i) == a.lane(i),
    {
        lemma_blend_u32(m.0, a.0, b.0);
        lemma_blend_u32(m.1, a.1, b.1);
        lemma_blend_u32(m.2, a.2, b.2);
        lemma_blend_u32(m.3, a.3, b.3);
        lemma_blend_u32(m.4, a.4, b.4);
        lemma_blend_u32(m.5, a.5, b.5);
        lemma_blend_u32(m.6, a.6, b.6);
        lemma_blend_u32(m.7, a.7, b.7);
    }

    /// A choice between two `uint8` goes by the sign bit of the mask alone: it gives the lane of
    /// `b` where the mask is negative and the lane of `a` elsewhere, as the blend does under the
    /// mask whose every lane has its sign spread over all its bits.
    pub proof fn lemma_select_uint8(m: int8, a: uint8, b: uint8)
        ensures
            m.spec_select(a, b) == ShrSpec::shr_spec(m, 31i32).spec_bitselect(a, b),
            forall|i: int|
                0 <= i < 8 && m.lane(i) < 0 ==> #[trigger] m.spec_select(a, b).lane(i) == b.lane(i),
            forall|i: int|
                0 <= i < 8 && m.lane(i) >= 0 ==>
                    #[trigger] m.spec_select(a, b).lane(i) == a.lane(i),
    {
        lemma_blend_u32(m.0, a.0, b.0);
        lemma_blend_u32(m.1, a.1, b.1);
        lemma_blend_u32(m.2, a.2, b.2);
        lemma_blend_u32(m.3, a.3, b.3);
        lemma_blend_u32(m.4, a.4, b.4);
        lemma_blend_u32(m.5, a.5, b.5);
        lemma_blend_u32(m.6, a.6, b.6);
        lemma_blend_u32(m.7, a.7, b.7);
    }

    /// A blend of two `float8` gives the lane of `b` where the mask is all ones and the lane of `a`
    /// where it is zero, whatever the other lanes hold.
    pub proof fn lemma_bitselect_float8(m: int8, a: float8, b: float8)
        ensures
            forall|i: int|
                0 <= i < 8 && m.lane(i) == -1 ==>
                    #[trigger] m.spec_bitselect(a, b).lane(i) == b.lane(i),
            forall|i: int|
                0 <= i < 8 && m.lane(i) == 0 ==>
                    #[trigger] m.spec_bitselect(a, b).lane(i) == a.lane(i),
    {
        lemma_blend_u32(m.0, a.0, b.0);
        lemma_blend_u32(m.1, a.1, b.1);
        lemma_blend_u32(m.2, a.2, b.2);
        lemma_blend_u32(m.3, a.3, b.3);
        lemma_blend_u32(m.4, a.4, b.4);
        lemma_blend_u32(m.5, a.5, b.5);
        lemma_blend_u32(m.6, a.6, b.6);
        lemma_blend_u32(m.7, a.7, b.7);
    }

    /// A choice between two `float8` goes by the sign bit of the mask alone: it gives the lane of
    /// `b` where the mask is negative and the lane of `a` elsewhere, as the blend does under the
    /// mask whose every lane has its sign spread over all its bits.
    pub proof fn lemma_select_float8(m: int8, a: float8, b: float8)
        ensures
            m.spec_select(a, b) == ShrSpec::shr_spec(m, 31i32).spec_bitselect(a, b),
            forall|i: int|
                0 <= i < 8 && m.lane(i) < 0 ==> #[trigger] m.spec_select(a, b).lane(i) == b.lane(i),
            forall|i: int|
                0 <= i < 8 && m.lane(i) >= 0 ==>
                    #[trigger] m.spec_select(a, b).lane(i) == a.lane(i),
    {
        lemma_blend_u32(m.0, a.0, b.0);
        lemma_blend_u32(m.1, a.1, b.1);
        lemma_blend_u32(m.2, a.2, b.2);
        lemma_blend_u32(m.3, a.3, b.3);
        lemma_blend_u32(m.4, a.4, b.4);
        lemma_blend_u32(m.5, a.5, b.5);
        lemma_blend_u32(m.6, a.6, b.6);
        lemma_blend_u32(m.7, a.7, b.7);
    }
}

impl Bitcast for int8 {
    type Image = ushort16;

    open spec fn spec_image(self) -> ushort16 {
        let d0 = split_u32_u16(i32_to_u32(self.0));
        let d1 = split_u32_u16(i32_to_u32(self.1));
        let d2 = split_u32_u16(i32_to_u32(self.2));
        let d3 = split_u32_u16(i32_to_u32(self.3));
        let d4 = split_u32_u16(i32_to_u32(self.4));
        let d5 = split_u32_u16(i32_to_u32(self.5));
        let d6 = split_u32_u16(i32_to_u32(self.6));
        let d7 = split_u32_u16(i32_to_u32(self.7));
        ushort16(
            d0.0, d0.1, d1.0, d1.1, d2.0, d2.1, d3.0, d3.1, d4.0, d4.1, d5.0, d5.1, d6.0, d6.1,
            d7.0, d7.1,
        )
    }

    open spec fn spec_from_image(image: ushort16) -> int8 {
        int8(
            u32_to_i32(join_u16_u32(image.0, image.1)), u32_to_i32(join_u16_u32(image.2, image.3)),
            u32_to_i32(join_u16_u32(image.4, image.5)), u32_to_i32(join_u16_u32(image.6, image.7)),
            u32_to_i32(join_u16_u32(image.8, image.9)),
            u32_to_i32(join_u16_u32(image.10, image.11)),
            u32_to_i32(join_u16_u32(image.12, image.13)),
            u32_to_i32(join_u16_u32(image.14, image.15)),
        )
    }

    open spec fn spec_fills() -> bool {
        true
    }

    fn image(self) -> (r: ushort16) {
        let d0 = split_u32_u16(i32_to_u32(self.0));
        let d1 = split_u32_u16(i32_to_u32(self.1));
        let d2 = split_u32_u16(i32_to_u32(self.2));
        let d3 = split_u32_u16(i32_to_u32(self.3));
        let d4 = split_u32_u16(i32_to_u32(self.4));
        let d5 = split_u32_u16(i32_to_u32(self.5));
        let d6 = split_u32_u16(i32_to_u32(self.6));
        let d7 = split_u32_u16(i32_to_u32(self.7));
        ushort16(
            d0.0, d0.1, d1.0, d1.1, d2.0, d2.1, d3.0, d3.1, d4.0, d4.1, d5.0, d5.1, d6.0, d6.1,
            d7.0, d7.1,
        )
    }

    fn from_image(image: ushort16) -> (r: int8) {
        int8(
            u32_to_i32(join_u16_u32(image.0, image.1)), u32_to_i32(join_u16_u32(image.2, image.3)),
            u32_to_i32(join_u16_u32(image.4, image.5)), u32_to_i32(join_u16_u32(image.6, image.7)),
            u32_to_i32(join_u16_u32(image.8, image.9)),
            u32_to_i32(join_u16_u32(image.10, image.11)),
            u32_to_i32(join_u16_u32(image.12, image.13)),
            u32_to_i32(join_u16_u32(image.14, image.15)),
        )
    }

    proof fn lemma_image(x: int8) {
        lemma_recast_i32(x.0);
        lemma_regroup_u16_u32(i32_to_u32(x.0), 0, 0);
        lemma_recast_i32(x.1);
        lemma_regroup_u16_u32(i32_to_u32(x.1), 0, 0);
        lemma_recast_i32(x.2);
        lemma_regroup_u16_u32(i32_to_u32(x.2), 0, 0);
        lemma_recast_i32(x.3);
        lemma_regroup_u16_u32(i32_to_u32(x.3), 0, 0);
        lemma_recast_i32(x.4);
        lemma_regroup_u16_u32(i32_to_u32(x.4), 0, 0);
        lemma_recast_i32(x.5);
        lemma_regroup_u16_u32(i32_to_u32(x.5), 0, 0);
        lemma_recast_i32(x.6);
        lemma_regroup_u16_u32(i32_to_u32(x.6), 0, 0);
        lemma_recast_i32(x.7);
        lemma_regroup_u16_u32(i32_to_u32(x.7), 0, 0);
    }

    proof fn lemma_from_image(image: ushort16) {
        lemma_regroup_u16_u32(0, image.0, image.1);
        lemma_recast_u32(join_u16_u32(image.0, image.1));
        lemma_regroup_u16_u32(0, image.2, image.3);
        lemma_recast_u32(join_u16_u32(image.2, image.3));
        lemma_regroup_u16_u32(0, image.4, image.5);
        lemma_recast_u32(join_u16_u32(image.4, image.5));
        lemma_regroup_u16_u32(0, image.6, image.7);
        lemma_recast_u32(join_u16_u32(image.6, image.7));
        lemma_regroup_u16_u32(0, image.8, image.9);
        lemma_recast_u32(join_u16_u32(image.8, image.9));
        lemma_regroup_u16_u32(0, image.10, image.11);
        lemma_recast_u32(join_u16_u32(image.10, image.11));
        lemma_regroup_u16_u32(0, image.12, image.13);
        lemma_recast_u32(join_u16_u32(image.12, image.13));
        lemma_regroup_u16_u32(0, image.14, image.15);
        lemma_recast_u32(join_u16_u32(image.14, image.15));
    }
}

impl int8 {
    /// Read as `uint8`, which has lanes of the same width, a vector keeps the bits of every lane;
    /// read as `int8` again, it is what it was.
    pub proof fn lemma_bitcast_uint8(x: int8)
        ensures
            spec_bitcast::<int8, uint8>(x) == uint8(
                    i32_to_u32(x.0), i32_to_u32(x.1), i32_to_u32(x.2), i32_to_u32(x.3),
                    i32_to_u32(x.4), i32_to_u32(x.5), i32_to_u32(x.6), i32_to_u32(x.7),
                ),
            spec_bitcast::<uint8, int8>(spec_bitcast::<int8, uint8>(x)) == x,
    {
        lemma_recast_i32(x.0);
        lemma_regroup_u16_u32(i32_to_u32(x.0), 0, 0);
        lemma_recast_i32(x.1);
        lemma_regroup_u16_u32(i32_to_u32(x.1), 0, 0);
        lemma_recast_i32(x.2);
        lemma_regroup_u16_u32(i32_to_u32(x.2), 0, 0);
        lemma_recast_i32(x.3);
        lemma_regroup_u16_u32(i32_to_u32(x.3), 0, 0);
        lemma_recast_i32(x.4);
        lemma_regroup_u16_u32(i32_to_u32(x.4), 0, 0);
        lemma_recast_i32(x.5);
        lemma_regroup_u16_u32(i32_to_u32(x.5), 0, 0);
        lemma_recast_i32(x.6);
        lemma_regroup_u16_u32(i32_to_u32(x.6), 0, 0);
        lemma_recast_i32(x.7);
        lemma_regroup_u16_u32(i32_to_u32(x.7), 0, 0);
    }

    /// Read as `float8`, which has lanes of the same width, a vector keeps the bits of every lane;
    /// read as `int8` again, it is what it was.
    pub proof fn lemma_bitcast_float8(x: int8)
        ensures
            spec_bitcast::<int8, float8>(x) == float8(
                    i32_to_u32(x.0), i32_to_u32(x.1), i32_to_u32(x.2), i32_to_u32(x.3),
                    i32_to_u32(x.4), i32_to_u32(x.5), i32_to_u32(x.6), i32_to_u32(x.7),
                ),
            spec_bitcast::<float8, int8>(spec_bitcast::<int8, float8>(x)) == x,
    {
        lemma_recast_i32(x.0);
        lemma_regroup_u16_u32(i32_to_u32(x.0), 0, 0);
        lemma_recast_i32(x.1);
        lemma_regroup_u16_u32(i32_to_u32(x.1), 0, 0);
        lemma_recast_i32(x.2);
        lemma_regroup_u16_u32(i32_to_u32(x.2), 0, 0);
        lemma_recast_i32(x.3);
        lemma_regroup_u16_u32(i32_to_u32(x.3), 0, 0);
        lemma_recast_i32(x.4);
        lemma_regroup_u16_u32(i32_to_u32(x.4), 0, 0);
        lemma_recast_i32(x.5);
        lemma_regroup_u16_u32(i32_to_u32(x.5), 0, 0);
        lemma_recast_i32(x.6);
        lemma_regroup_u16_u32(i32_to_u32(x.6), 0, 0);
        lemma_recast_i32(x.7);
        lemma_regroup_u16_u32(i32_to_u32(x.7), 0, 0);
    }
}

} // verus!
