//! `short4`: four lanes of `i16`.

use crate::scalar::lane_i16::{
    abs_i16, add_i16, bitselect_i16, clamp_i16, div_i16, eq_i16, ge_i16, gt_i16, i16_to_i32,
    i16_to_i32_sat, i16_to_i64, i16_to_i64_sat, i16_to_i8, i16_to_i8_sat, i16_to_u16,
    i16_to_u16_sat, i16_to_u32, i16_to_u32_sat, i16_to_u64, i16_to_u64_sat, i16_to_u8,
    i16_to_u8_sat, isize_to_i16, le_i16, lemma_abs_i16, lemma_arith_i16, lemma_bits_i16,
    lemma_blend_i16, lemma_not_i16, lemma_recast_i16, lt_i16, madd_i16, max_i16, min_i16, mul_i16,
    ne_i16, neg_i16, not_i16, rem_i16, select_i16, shl_i16, shr_i16, sub_i16, truth_i16,
};
use crate::scalar::lane_u16::{
    bitselect_u16, lemma_blend_u16, lemma_recast_u16, select_u16, u16_to_i16,
};
use crate::scalar::model::{
    lemma_wrap_i16_sum, sat_i32, sat_i64, sat_i8, sat_u16, sat_u32, sat_u64, sat_u8, wrap_i16,
};
use crate::scalar::regroup::{join_u8_u16, lemma_regroup_u8_u16, split_u16_u8};
use crate::traits::{Bitcast, Dot, Integer, Select, Vector, bitcast, spec_bitcast};
use crate::vector::char4::char4;
use crate::vector::double4::double4;
use crate::vector::float4::float4;
use crate::vector::int4::int4;
use crate::vector::long4::long4;
use crate::vector::short2::short2;
use crate::vector::uchar4::uchar4;
use crate::vector::uchar8::uchar8;
use crate::vector::uint4::uint4;
use crate::vector::ulong4::ulong4;
use crate::vector::ushort4::ushort4;
use vstd::prelude::*;
use vstd::std_specs::convert::FromSpecImpl;
use vstd::std_specs::ops::{
    AddSpec, AddSpecImpl, BitAndSpecImpl, BitOrSpecImpl, BitXorSpecImpl, DivSpecImpl, MulSpecImpl,
    NegSpec, NegSpecImpl, NotSpec, NotSpecImpl, RemSpecImpl, ShlSpecImpl, ShrSpec, ShrSpecImpl,
    SubSpec, SubSpecImpl,
};

verus! {

/// Four lanes of `i16`.
#[derive(Copy, Clone, Debug, PartialEq, Eq, Structural)]
pub struct short4(pub i16, pub i16, pub i16, pub i16);

impl core::ops::Add for short4 {
    type Output = short4;

    /// The lane-wise sum of the two vectors, wrapping around.
    fn add(self, rhs: short4) -> (r: short4) {
        short4(
            add_i16(self.0, rhs.0), add_i16(self.1, rhs.1), add_i16(self.2, rhs.2),
            add_i16(self.3, rhs.3),
        )
    }
}

impl AddSpecImpl for short4 {
    open spec fn obeys_add_spec() -> bool {
        true
    }

    open spec fn add_req(self, rhs: short4) -> bool {
        true
    }

    open spec fn add_spec(self, rhs: short4) -> short4 {
        short4(
            add_i16(self.0, rhs.0), add_i16(self.1, rhs.1), add_i16(self.2, rhs.2),
            add_i16(self.3, rhs.3),
        )
    }
}

impl core::ops::Add<i16> for short4 {
    type Output = short4;

    /// The sum of every lane and the scalar, wrapping around.
    fn add(self, rhs: i16) -> (r: short4) {
        short4(
            add_i16(self.0, rhs), add_i16(self.1, rhs), add_i16(self.2, rhs), add_i16(self.3, rhs),
        )
    }
}

impl AddSpecImpl<i16> for short4 {
    open spec fn obeys_add_spec() -> bool {
        true
    }

    open spec fn add_req(self, rhs: i16) -> bool {
        true
    }

    open spec fn add_spec(self, rhs: i16) -> short4 {
        short4(
            add_i16(self.0, rhs), add_i16(self.1, rhs), add_i16(self.2, rhs), add_i16(self.3, rhs),
        )
    }
}

impl core::ops::Add<short4> for i16 {
    type Output = short4;

    /// The sum of the scalar and every lane, wrapping around.
    fn add(self, rhs: short4) -> (r: short4) {
        short4(
            add_i16(self, rhs.0), add_i16(self, rhs.1), add_i16(self, rhs.2), add_i16(self, rhs.3),
        )
    }
}

impl AddSpecImpl<short4> for i16 {
    open spec fn obeys_add_spec() -> bool {
        true
    }

    open spec fn add_req(self, rhs: short4) -> bool {
        true
    }

    open spec fn add_spec(self, rhs: short4) -> short4 {
        short4(
            add_i16(self, rhs.0), add_i16(self, rhs.1), add_i16(self, rhs.2), add_i16(self, rhs.3),
        )
    }
}

impl core::ops::Sub for short4 {
    type Output = short4;

    /// The lane-wise difference of the two vectors, wrapping around.
    fn sub(self, rhs: short4) -> (r: short4) {
        short4(
            sub_i16(self.0, rhs.0), sub_i16(self.1, rhs.1), sub_i16(self.2, rhs.2),
            sub_i16(self.3, rhs.3),
        )
    }
}

impl SubSpecImpl for short4 {
    open spec fn obeys_sub_spec() -> bool {
        true
    }

    open spec fn sub_req(self, rhs: short4) -> bool {
        true
    }

    open spec fn sub_spec(self, rhs: short4) -> short4 {
        short4(
            sub_i16(self.0, rhs.0), sub_i16(self.1, rhs.1), sub_i16(self.2, rhs.2),
            sub_i16(self.3, rhs.3),
        )
    }
}

impl core::ops::Sub<i16> for short4 {
    type Output = short4;

    /// The difference of every lane and the scalar, wrapping around.
    fn sub(self, rhs: i16) -> (r: short4) {
        short4(
            sub_i16(self.0, rhs), sub_i16(self.1, rhs), sub_i16(self.2, rhs), sub_i16(self.3, rhs),
        )
    }
}

impl SubSpecImpl<i16> for short4 {
    open spec fn obeys_sub_spec() -> bool {
        true
    }

    open spec fn sub_req(self, rhs: i16) -> bool {
        true
    }

    open spec fn sub_spec(self, rhs: i16) -> short4 {
        short4(
            sub_i16(self.0, rhs), sub_i16(self.1, rhs), sub_i16(self.2, rhs), sub_i16(self.3, rhs),
        )
    }
}

impl core::ops::Sub<short4> for i16 {
    type Output = short4;

    /// The difference of the scalar and every lane, wrapping around.
    fn sub(self, rhs: short4) -> (r: short4) {
        short4(
            sub_i16(self, rhs.0), sub_i16(self, rhs.1), sub_i16(self, rhs.2), sub_i16(self, rhs.3),
        )
    }
}

impl SubSpecImpl<short4> for i16 {
    open spec fn obeys_sub_spec() -> bool {
        true
    }

    open spec fn sub_req(self, rhs: short4) -> bool {
        true
    }

    open spec fn sub_spec(self, rhs: short4) -> short4 {
        short4(
            sub_i16(self, rhs.0), sub_i16(self, rhs.1), sub_i16(self, rhs.2), sub_i16(self, rhs.3),
        )
    }
}

impl core::ops::Mul for short4 {
    type Output = short4;

    /// The lane-wise product of the two vectors, wrapping around.
    fn mul(self, rhs: short4) -> (r: short4) {
        short4(
            mul_i16(self.0, rhs.0), mul_i16(self.1, rhs.1), mul_i16(self.2, rhs.2),
            mul_i16(self.3, rhs.3),
        )
    }
}

impl MulSpecImpl for short4 {
    open spec fn obeys_mul_spec() -> bool {
        true
    }

    open spec fn mul_req(self, rhs: short4) -> bool {
        true
    }

    open spec fn mul_spec(self, rhs: short4) -> short4 {
        short4(
            mul_i16(self.0, rhs.0), mul_i16(self.1, rhs.1), mul_i16(self.2, rhs.2),
            mul_i16(self.3, rhs.3),
        )
    }
}

impl core::ops::Mul<i16> for short4 {
    type Output = short4;

    /// The product of every lane and the scalar, wrapping around.
    fn mul(self, rhs: i16) -> (r: short4) {
        short4(
            mul_i16(self.0, rhs), mul_i16(self.1, rhs), mul_i16(self.2, rhs), mul_i16(self.3, rhs),
        )
    }
}

impl MulSpecImpl<i16> for short4 {
    open spec fn obeys_mul_spec() -> bool {
        true
    }

    open spec fn mul_req(self, rhs: i16) -> bool {
        true
    }

    open spec fn mul_spec(self, rhs: i16) -> short4 {
        short4(
            mul_i16(self.0, rhs), mul_i16(self.1, rhs), mul_i16(self.2, rhs), mul_i16(self.3, rhs),
        )
    }
}

impl core::ops::Mul<short4> for i16 {
    type Output = short4;

    /// The product of the scalar and every lane, wrapping around.
    fn mul(self, rhs: short4) -> (r: short4) {
        short4(
            mul_i16(self, rhs.0), mul_i16(self, rhs.1), mul_i16(self, rhs.2), mul_i16(self, rhs.3),
        )
    }
}

impl MulSpecImpl<short4> for i16 {
    open spec fn obeys_mul_spec() -> bool {
        true
    }

    open spec fn mul_req(self, rhs: short4) -> bool {
        true
    }

    open spec fn mul_spec(self, rhs: short4) -> short4 {
        short4(
            mul_i16(self, rhs.0), mul_i16(self, rhs.1), mul_i16(self, rhs.2), mul_i16(self, rhs.3),
        )
    }
}

impl core::ops::Div for short4 {
    type Output = short4;

    /// The lane-wise quotient of the two vectors, rounded toward zero. No lane of the divisor is
    /// zero.
    fn div(self, rhs: short4) -> (r: short4) {
        short4(
            div_i16(self.0, rhs.0), div_i16(self.1, rhs.1), div_i16(self.2, rhs.2),
            div_i16(self.3, rhs.3),
        )
    }
}

impl DivSpecImpl for short4 {
    open spec fn obeys_div_spec() -> bool {
        true
    }

    open spec fn div_req(self, rhs: short4) -> bool {
        rhs.0 != 0 && rhs.1 != 0 && rhs.2 != 0 && rhs.3 != 0
    }

    open spec fn div_spec(self, rhs: short4) -> short4 {
        short4(
            div_i16(self.0, rhs.0), div_i16(self.1, rhs.1), div_i16(self.2, rhs.2),
            div_i16(self.3, rhs.3),
        )
    }
}

impl core::ops::Div<i16> for short4 {
    type Output = short4;

    /// The quotient of every lane by the scalar, rounded toward zero. The scalar is not zero.
    fn div(self, rhs: i16) -> (r: short4) {
        short4(
            div_i16(self.0, rhs), div_i16(self.1, rhs), div_i16(self.2, rhs), div_i16(self.3, rhs),
        )
    }
}

impl DivSpecImpl<i16> for short4 {
    open spec fn obeys_div_spec() -> bool {
        true
    }

    open spec fn div_req(self, rhs: i16) -> bool {
        rhs != 0
    }

    open spec fn div_spec(self, rhs: i16) -> short4 {
        short4(
            div_i16(self.0, rhs), div_i16(self.1, rhs), div_i16(self.2, rhs), div_i16(self.3, rhs),
        )
    }
}

impl core::ops::Div<short4> for i16 {
    type Output = short4;

    /// The quotient of the scalar by every lane, rounded toward zero. No lane is zero.
    fn div(self, rhs: short4) -> (r: short4) {
        short4(
            div_i16(self, rhs.0), div_i16(self, rhs.1), div_i16(self, rhs.2), div_i16(self, rhs.3),
        )
    }
}

impl DivSpecImpl<short4> for i16 {
    open spec fn obeys_div_spec() -> bool {
        true
    }

    open spec fn div_req(self, rhs: short4) -> bool {
        rhs.0 != 0 && rhs.1 != 0 && rhs.2 != 0 && rhs.3 != 0
    }

    open spec fn div_spec(self, rhs: short4) -> short4 {
        short4(
            div_i16(self, rhs.0), div_i16(self, rhs.1), div_i16(self, rhs.2), div_i16(self, rhs.3),
        )
    }
}

impl core::ops::BitAnd for short4 {
    type Output = short4;

    /// The lane-wise conjunction of the two vectors, bit by bit.
    fn bitand(self, rhs: short4) -> (r: short4) {
        short4(self.0 & rhs.0, self.1 & rhs.1, self.2 & rhs.2, self.3 & rhs.3)
    }
}

impl BitAndSpecImpl for short4 {
    open spec fn obeys_bitand_spec() -> bool {
        true
    }

    open spec fn bitand_req(self, rhs: short4) -> bool {
        true
    }

    open spec fn bitand_spec(self, rhs: short4) -> short4 {
        short4(self.0 & rhs.0, self.1 & rhs.1, self.2 & rhs.2, self.3 & rhs.3)
    }
}

impl core::ops::BitAnd<i16> for short4 {
    type Output = short4;

    /// The conjunction of every lane and the scalar, bit by bit.
    fn bitand(self, rhs: i16) -> (r: short4) {
        short4(self.0 & rhs, self.1 & rhs, self.2 & rhs, self.3 & rhs)
    }
}

impl BitAndSpecImpl<i16> for short4 {
    open spec fn obeys_bitand_spec() -> bool {
        true
    }

    open spec fn bitand_req(self, rhs: i16) -> bool {
        true
    }

    open spec fn bitand_spec(self, rhs: i16) -> short4 {
        short4(self.0 & rhs, self.1 & rhs, self.2 & rhs, self.3 & rhs)
    }
}

impl core::ops::BitAnd<short4> for i16 {
    type Output = short4;

    /// The conjunction of the scalar and every lane, bit by bit.
    fn bitand(self, rhs: short4) -> (r: short4) {
        short4(self & rhs.0, self & rhs.1, self & rhs.2, self & rhs.3)
    }
}

impl BitAndSpecImpl<short4> for i16 {
    open spec fn obeys_bitand_spec() -> bool {
        true
    }

    open spec fn bitand_req(self, rhs: short4) -> bool {
        true
    }

    open spec fn bitand_spec(self, rhs: short4) -> short4 {
        short4(self & rhs.0, self & rhs.1, self & rhs.2, self & rhs.3)
    }
}

impl core::ops::BitOr for short4 {
    type Output = short4;

    /// The lane-wise disjunction of the two vectors, bit by bit.
    fn bitor(self, rhs: short4) -> (r: short4) {
        short4(self.0 | rhs.0, self.1 | rhs.1, self.2 | rhs.2, self.3 | rhs.3)
    }
}

impl BitOrSpecImpl for short4 {
    open spec fn obeys_bitor_spec() -> bool {
        true
    }

    open spec fn bitor_req(self, rhs: short4) -> bool {
        true
    }

    open spec fn bitor_spec(self, rhs: short4) -> short4 {
        short4(self.0 | rhs.0, self.1 | rhs.1, self.2 | rhs.2, self.3 | rhs.3)
    }
}

impl core::ops::BitOr<i16> for short4 {
    type Output = short4;

    /// The disjunction of every lane and the scalar, bit by bit.
    fn bitor(self, rhs: i16) -> (r: short4) {
        short4(self.0 | rhs, self.1 | rhs, self.2 | rhs, self.3 | rhs)
    }
}

impl BitOrSpecImpl<i16> for short4 {
    open spec fn obeys_bitor_spec() -> bool {
        true
    }

    open spec fn bitor_req(self, rhs: i16) -> bool {
        true
    }

    open spec fn bitor_spec(self, rhs: i16) -> short4 {
        short4(self.0 | rhs, self.1 | rhs, self.2 | rhs, self.3 | rhs)
    }
}

impl core::ops::BitOr<short4> for i16 {
    type Output = short4;

    /// The disjunction of the scalar and every lane, bit by bit.
    fn bitor(self, rhs: short4) -> (r: short4) {
        short4(self | rhs.0, self | rhs.1, self | rhs.2, self | rhs.3)
    }
}

impl BitOrSpecImpl<short4> for i16 {
    open spec fn obeys_bitor_spec() -> bool {
        true
    }

    open spec fn bitor_req(self, rhs: short4) -> bool {
        true
    }

    open spec fn bitor_spec(self, rhs: short4) -> short4 {
        short4(self | rhs.0, self | rhs.1, self | rhs.2, self | rhs.3)
    }
}

impl core::ops::BitXor for short4 {
    type Output = short4;

    /// The lane-wise exclusive disjunction of the two vectors, bit by bit.
    fn bitxor(self, rhs: short4) -> (r: short4) {
        short4(self.0 ^ rhs.0, self.1 ^ rhs.1, self.2 ^ rhs.2, self.3 ^ rhs.3)
    }
}

impl BitXorSpecImpl for short4 {
    open spec fn obeys_bitxor_spec() -> bool {
        true
    }

    open spec fn bitxor_req(self, rhs: short4) -> bool {
        true
    }

    open spec fn bitxor_spec(self, rhs: short4) -> short4 {
        short4(self.0 ^ rhs.0, self.1 ^ rhs.1, self.2 ^ rhs.2, self.3 ^ rhs.3)
    }
}

impl core::ops::BitXor<i16> for short4 {
    type Output = short4;

    /// The exclusive disjunction of every lane and the scalar, bit by bit.
    fn bitxor(self, rhs: i16) -> (r: short4) {
        short4(self.0 ^ rhs, self.1 ^ rhs, self.2 ^ rhs, self.3 ^ rhs)
    }
}

impl BitXorSpecImpl<i16> for short4 {
    open spec fn obeys_bitxor_spec() -> bool {
        true
    }

    open spec fn bitxor_req(self, rhs: i16) -> bool {
        true
    }

    open spec fn bitxor_spec(self, rhs: i16) -> short4 {
        short4(self.0 ^ rhs, self.1 ^ rhs, self.2 ^ rhs, self.3 ^ rhs)
    }
}

impl core::ops::BitXor<short4> for i16 {
    type Output = short4;

    /// The exclusive disjunction of the scalar and every lane, bit by bit.
    fn bitxor(self, rhs: short4) -> (r: short4) {
        short4(self ^ rhs.0, self ^ rhs.1, self ^ rhs.2, self ^ rhs.3)
    }
}

impl BitXorSpecImpl<short4> for i16 {
    open spec fn obeys_bitxor_spec() -> bool {
        true
    }

    open spec fn bitxor_req(self, rhs: short4) -> bool {
        true
    }

    open spec fn bitxor_spec(self, rhs: short4) -> short4 {
        short4(self ^ rhs.0, self ^ rhs.1, self ^ rhs.2, self ^ rhs.3)
    }
}

impl core::ops::Shl for short4 {
    type Output = short4;

    /// Every lane shifted left by the lane of `rhs`, which is below 16.
    fn shl(self, rhs: short4) -> (r: short4) {
        short4(
            shl_i16(self.0, rhs.0), shl_i16(self.1, rhs.1), shl_i16(self.2, rhs.2),
            shl_i16(self.3, rhs.3),
        )
    }
}

impl ShlSpecImpl for short4 {
    open spec fn obeys_shl_spec() -> bool {
        true
    }

    open spec fn shl_req(self, rhs: short4) -> bool {
        0 <= rhs.0 < 16 && 0 <= rhs.1 < 16 && 0 <= rhs.2 < 16 && 0 <= rhs.3 < 16
    }

    open spec fn shl_spec(self, rhs: short4) -> short4 {
        short4(
            shl_i16(self.0, rhs.0), shl_i16(self.1, rhs.1), shl_i16(self.2, rhs.2),
            shl_i16(self.3, rhs.3),
        )
    }
}

impl core::ops::Shl<i16> for short4 {
    type Output = short4;

    /// Every lane shifted left by `rhs`, which is below 16.
    fn shl(self, rhs: i16) -> (r: short4) {
        short4(
            shl_i16(self.0, rhs), shl_i16(self.1, rhs), shl_i16(self.2, rhs), shl_i16(self.3, rhs),
        )
    }
}

impl ShlSpecImpl<i16> for short4 {
    open spec fn obeys_shl_spec() -> bool {
        true
    }

    open spec fn shl_req(self, rhs: i16) -> bool {
        0 <= rhs < 16
    }

    open spec fn shl_spec(self, rhs: i16) -> short4 {
        short4(
            shl_i16(self.0, rhs), shl_i16(self.1, rhs), shl_i16(self.2, rhs), shl_i16(self.3, rhs),
        )
    }
}

impl core::ops::Shl<short4> for i16 {
    type Output = short4;

    /// The scalar shifted left by every lane of `rhs`, each of which is below 16.
    fn shl(self, rhs: short4) -> (r: short4) {
        short4(
            shl_i16(self, rhs.0), shl_i16(self, rhs.1), shl_i16(self, rhs.2), shl_i16(self, rhs.3),
        )
    }
}

impl ShlSpecImpl<short4> for i16 {
    open spec fn obeys_shl_spec() -> bool {
        true
    }

    open spec fn shl_req(self, rhs: short4) -> bool {
        0 <= rhs.0 < 16 && 0 <= rhs.1 < 16 && 0 <= rhs.2 < 16 && 0 <= rhs.3 < 16
    }

    open spec fn shl_spec(self, rhs: short4) -> short4 {
        short4(
            shl_i16(self, rhs.0), shl_i16(self, rhs.1), shl_i16(self, rhs.2), shl_i16(self, rhs.3),
        )
    }
}

impl core::ops::Shr for short4 {
    type Output = short4;

    /// Every lane shifted right by the lane of `rhs`, which is below 16.
    fn shr(self, rhs: short4) -> (r: short4) {
        short4(
            shr_i16(self.0, rhs.0), shr_i16(self.1, rhs.1), shr_i16(self.2, rhs.2),
            shr_i16(self.3, rhs.3),
        )
    }
}

impl ShrSpecImpl for short4 {
    open spec fn obeys_shr_spec() -> bool {
        true
    }

    open spec fn shr_req(self, rhs: short4) -> bool {
        0 <= rhs.0 < 16 && 0 <= rhs.1 < 16 && 0 <= rhs.2 < 16 && 0 <= rhs.3 < 16
    }

    open spec fn shr_spec(self, rhs: short4) -> short4 {
        short4(
            shr_i16(self.0, rhs.0), shr_i16(self.1, rhs.1), shr_i16(self.2, rhs.2),
            shr_i16(self.3, rhs.3),
        )
    }
}

impl core::ops::Shr<i16> for short4 {
    type Output = short4;

    /// Every lane shifted right by `rhs`, which is below 16.
    fn shr(self, rhs: i16) -> (r: short4) {
        short4(
            shr_i16(self.0, rhs), shr_i16(self.1, rhs), shr_i16(self.2, rhs), shr_i16(self.3, rhs),
        )
    }
}

impl ShrSpecImpl<i16> for short4 {
    open spec fn obeys_shr_spec() -> bool {
        true
    }

    open spec fn shr_req(self, rhs: i16) -> bool {
        0 <= rhs < 16
    }

    open spec fn shr_spec(self, rhs: i16) -> short4 {
        short4(
            shr_i16(self.0, rhs), shr_i16(self.1, rhs), shr_i16(self.2, rhs), shr_i16(self.3, rhs),
        )
    }
}

impl core::ops::Shr<short4> for i16 {
    type Output = short4;

    /// The scalar shifted right by every lane of `rhs`, each of which is below 16.
    fn shr(self, rhs: short4) -> (r: short4) {
        short4(
            shr_i16(self, rhs.0), shr_i16(self, rhs.1), shr_i16(self, rhs.2), shr_i16(self, rhs.3),
        )
    }
}

impl ShrSpecImpl<short4> for i16 {
    open spec fn obeys_shr_spec() -> bool {
        true
    }

    open spec fn shr_req(self, rhs: short4) -> bool {
        0 <= rhs.0 < 16 && 0 <= rhs.1 < 16 && 0 <= rhs.2 < 16 && 0 <= rhs.3 < 16
    }

    open spec fn shr_spec(self, rhs: short4) -> short4 {
        short4(
            shr_i16(self, rhs.0), shr_i16(self, rhs.1), shr_i16(self, rhs.2), shr_i16(self, rhs.3),
        )
    }
}

impl core::ops::Rem for short4 {
    type Output = short4;

    /// The lane-wise remainder `self - (self / rhs) * rhs`. No lane of the divisor is zero.
    fn rem(self, rhs: short4) -> (r: short4) {
        short4(
            rem_i16(self.0, rhs.0), rem_i16(self.1, rhs.1), rem_i16(self.2, rhs.2),
            rem_i16(self.3, rhs.3),
        )
    }
}

impl RemSpecImpl for short4 {
    open spec fn obeys_rem_spec() -> bool {
        true
    }

    open spec fn rem_req(self, rhs: short4) -> bool {
        rhs.0 != 0 && rhs.1 != 0 && rhs.2 != 0 && rhs.3 != 0
    }

    open spec fn rem_spec(self, rhs: short4) -> short4 {
        short4(
            rem_i16(self.0, rhs.0), rem_i16(self.1, rhs.1), rem_i16(self.2, rhs.2),
            rem_i16(self.3, rhs.3),
        )
    }
}

impl core::ops::Neg for short4 {
    type Output = short4;

    /// Zero minus every lane, wrapping around.
    fn neg(self) -> (r: short4) {
        short4(neg_i16(self.0), neg_i16(self.1), neg_i16(self.2), neg_i16(self.3))
    }
}

impl NegSpecImpl for short4 {
    open spec fn obeys_neg_spec() -> bool {
        true
    }

    open spec fn neg_req(self) -> bool {
        true
    }

    open spec fn neg_spec(self) -> short4 {
        short4(neg_i16(self.0), neg_i16(self.1), neg_i16(self.2), neg_i16(self.3))
    }
}

impl core::ops::Not for short4 {
    type Output = short4;

    /// Every lane with every bit flipped.
    fn not(self) -> (r: short4) {
        short4(not_i16(self.0), not_i16(self.1), not_i16(self.2), not_i16(self.3))
    }
}

impl NotSpecImpl for short4 {
    open spec fn obeys_not_spec() -> bool {
        true
    }

    open spec fn not_req(self) -> bool {
        true
    }

    open spec fn not_spec(self) -> short4 {
        short4(not_i16(self.0), not_i16(self.1), not_i16(self.2), not_i16(self.3))
    }
}

impl core::convert::From<isize> for short4 {
    /// The vector with `x`, wrapped to `i16`, in every lane.
    fn from(x: isize) -> (r: short4) {
        let v = isize_to_i16(x);
        short4(v, v, v, v)
    }
}

impl FromSpecImpl<isize> for short4 {
    open spec fn obeys_from_spec() -> bool {
        true
    }

    open spec fn from_spec(x: isize) -> short4 {
        short4(isize_to_i16(x), isize_to_i16(x), isize_to_i16(x), isize_to_i16(x))
    }
}

impl core::ops::Index<u32> for short4 {
    type Output = i16;

    /// Lane `i`, which is below 4.
    fn index(&self, i: u32) -> (r: &i16)
        ensures
            *r == self.lane(i as int),
    {
        match i {
            0 => &self.0,
            1 => &self.1,
            2 => &self.2,
            _ => &self.3,
        }
    }
}

impl vstd::std_specs::core::IndexSpecImpl<u32> for short4 {
    open spec fn index_req(&self, i: &u32) -> bool {
        *i < 4
    }
}

impl short4 {
    /// Lane `i`, counted from zero.
    pub open spec fn lane(self, i: int) -> i16
        recommends
            0 <= i < 4,
    {
        if i == 0 {
            self.0
        } else if i == 1 {
            self.1
        } else if i == 2 {
            self.2
        } else {
            self.3
        }
    }

    /// The vector of type `short4` with the bits of `x`, a value of a type that has as many bits,
    /// which is one with images of type `uchar8`.
    pub fn bitcast<U: Bitcast<Image = uchar8>>(x: U) -> (r: short4)
        ensures
            r == spec_bitcast::<U, short4>(x),
    {
        bitcast(x)
    }

    /// The vector with `x` in every lane.
    pub fn broadcast(x: i16) -> (r: short4)
        ensures
            r == short4(x, x, x, x),
    {
        short4(x, x, x, x)
    }

    /// Lane `i`, which is below 4.
    pub fn extract(self, i: u32) -> (r: i16)
        requires
            i < 4,
        ensures
            r == self.lane(i as int),
    {
        match i {
            0 => self.0,
            1 => self.1,
            2 => self.2,
            _ => self.3,
        }
    }

    /// The vector with `x` in lane `i`, which is below 4, and the other lanes unchanged.
    pub fn replace(self, i: u32, x: i16) -> (r: short4)
        requires
            i < 4,
        ensures
            forall|j: int| 0 <= j < 4 ==> #[trigger] r.lane(j) == (if j == i {
                x
            } else {
                self.lane(j)
            }),
    {
        match i {
            0 => short4(x, self.1, self.2, self.3),
            1 => short4(self.0, x, self.2, self.3),
            2 => short4(self.0, self.1, x, self.3),
            _ => short4(self.0, self.1, self.2, x),
        }
    }

    /// The mask that is all ones where the lanes of `x` and `y` are equal, and zero elsewhere.
    pub fn eq(x: short4, y: short4) -> (r: short4)
        ensures
            r == short4(eq_i16(x.0, y.0), eq_i16(x.1, y.1), eq_i16(x.2, y.2), eq_i16(x.3, y.3)),
    {
        short4(eq_i16(x.0, y.0), eq_i16(x.1, y.1), eq_i16(x.2, y.2), eq_i16(x.3, y.3))
    }

    /// The mask that is all ones where the lanes of `x` and `y` differ, and zero elsewhere.
    pub fn ne(x: short4, y: short4) -> (r: short4)
        ensures
            r == short4(ne_i16(x.0, y.0), ne_i16(x.1, y.1), ne_i16(x.2, y.2), ne_i16(x.3, y.3)),
    {
        short4(ne_i16(x.0, y.0), ne_i16(x.1, y.1), ne_i16(x.2, y.2), ne_i16(x.3, y.3))
    }

    /// The mask that is all ones where the lane of `x` is less than that of `y`, and zero
    /// elsewhere.
    pub fn lt(x: short4, y: short4) -> (r: short4)
        ensures
            r == short4(lt_i16(x.0, y.0), lt_i16(x.1, y.1), lt_i16(x.2, y.2), lt_i16(x.3, y.3)),
    {
        short4(lt_i16(x.0, y.0), lt_i16(x.1, y.1), lt_i16(x.2, y.2), lt_i16(x.3, y.3))
    }

    /// The mask that is all ones where the lane of `x` is at most that of `y`, and zero elsewhere.
    pub fn le(x: short4, y: short4) -> (r: short4)
        ensures
            r == short4(le_i16(x.0, y.0), le_i16(x.1, y.1), le_i16(x.2, y.2), le_i16(x.3, y.3)),
    {
        short4(le_i16(x.0, y.0), le_i16(x.1, y.1), le_i16(x.2, y.2), le_i16(x.3, y.3))
    }

    /// The mask that is all ones where the lane of `x` is greater than that of `y`, and zero
    /// elsewhere.
    pub fn gt(x: short4, y: short4) -> (r: short4)
        ensures
            r == short4(gt_i16(x.0, y.0), gt_i16(x.1, y.1), gt_i16(x.2, y.2), gt_i16(x.3, y.3)),
    {
        short4(gt_i16(x.0, y.0), gt_i16(x.1, y.1), gt_i16(x.2, y.2), gt_i16(x.3, y.3))
    }

    /// The mask that is all ones where the lane of `x` is at least that of `y`, and zero elsewhere.
    pub fn ge(x: short4, y: short4) -> (r: short4)
        ensures
            r == short4(ge_i16(x.0, y.0), ge_i16(x.1, y.1), ge_i16(x.2, y.2), ge_i16(x.3, y.3)),
    {
        short4(ge_i16(x.0, y.0), ge_i16(x.1, y.1), ge_i16(x.2, y.2), ge_i16(x.3, y.3))
    }

    /// `x * y + z` lane by lane, wrapping around.
    pub fn madd(x: short4, y: short4, z: short4) -> (r: short4)
        ensures
            r == short4(
                madd_i16(x.0, y.0, z.0), madd_i16(x.1, y.1, z.1), madd_i16(x.2, y.2, z.2),
                madd_i16(x.3, y.3, z.3),
            ),
    {
        short4(
            madd_i16(x.0, y.0, z.0), madd_i16(x.1, y.1, z.1), madd_i16(x.2, y.2, z.2),
            madd_i16(x.3, y.3, z.3),
        )
    }

    /// The magnitude of every lane; that of `i16::MIN` wraps around to `i16::MIN`.
    pub fn abs(x: short4) -> (r: short4)
        ensures
            r == x.spec_abs(),
    {
        short4(abs_i16(x.0), abs_i16(x.1), abs_i16(x.2), abs_i16(x.3))
    }

    /// The greater lane of `x` and `y`, lane by lane.
    pub fn max(x: short4, y: short4) -> (r: short4)
        ensures
            r == x.spec_max(y),
    {
        short4(max_i16(x.0, y.0), max_i16(x.1, y.1), max_i16(x.2, y.2), max_i16(x.3, y.3))
    }

    /// The smaller lane of `x` and `y`, lane by lane.
    pub fn min(x: short4, y: short4) -> (r: short4)
        ensures
            r == x.spec_min(y),
    {
        short4(min_i16(x.0, y.0), min_i16(x.1, y.1), min_i16(x.2, y.2), min_i16(x.3, y.3))
    }

    /// Every lane of `x` raised to at least the lane of `lo`, then lowered to at most that of `hi`.
    pub fn clamp(x: short4, lo: short4, hi: short4) -> (r: short4)
        ensures
            r == x.spec_clamp(lo, hi),
    {
        short4(
            clamp_i16(x.0, lo.0, hi.0), clamp_i16(x.1, lo.1, hi.1), clamp_i16(x.2, lo.2, hi.2),
            clamp_i16(x.3, lo.3, hi.3),
        )
    }

    /// The sum of the lanes, wrapping around.
    pub fn reduce_add(x: short4) -> (r: i16)
        ensures
            r == x.spec_reduce_add(),
    {
        let s = add_i16(x.0, x.1);
        let ghost mut t: int = x.0 + x.1;
        proof {
            lemma_wrap_i16_sum(t, x.2 as int);
            t = t + x.2;
        }
        let s = add_i16(s, x.2);
        proof {
            lemma_wrap_i16_sum(t, x.3 as int);
            t = t + x.3;
        }
        let s = add_i16(s, x.3);
        s
    }

    /// The smallest lane.
    pub fn reduce_min(x: short4) -> (r: i16)
        ensures
            r == x.spec_reduce_min(),
            r <= x.0 && r <= x.1 && r <= x.2 && r <= x.3,
            r == x.0 || r == x.1 || r == x.2 || r == x.3,
    {
        let s = min_i16(x.0, x.1);
        let s = min_i16(s, x.2);
        let s = min_i16(s, x.3);
        s
    }

    /// The greatest lane.
    pub fn reduce_max(x: short4) -> (r: i16)
        ensures
            r == x.spec_reduce_max(),
            r >= x.0 && r >= x.1 && r >= x.2 && r >= x.3,
            r == x.0 || r == x.1 || r == x.2 || r == x.3,
    {
        let s = max_i16(x.0, x.1);
        let s = max_i16(s, x.2);
        let s = max_i16(s, x.3);
        s
    }

    /// Every lane as `i8`: its low 8 bits, read as `i8`.
    pub fn to_char(x: short4) -> (r: char4)
        ensures
            r == char4(i16_to_i8(x.0), i16_to_i8(x.1), i16_to_i8(x.2), i16_to_i8(x.3)),
    {
        char4(i16_to_i8(x.0), i16_to_i8(x.1), i16_to_i8(x.2), i16_to_i8(x.3))
    }

    /// Every lane as `i8`, saturating: a lane outside the range of `i8` gives the nearest bound.
    pub fn to_char_sat(x: short4) -> (r: char4)
        ensures
            r == x.spec_to_char_sat(),
    {
        char4(i16_to_i8_sat(x.0), i16_to_i8_sat(x.1), i16_to_i8_sat(x.2), i16_to_i8_sat(x.3))
    }

    /// Every lane as `u8`: its low 8 bits, read as `u8`.
    pub fn to_uchar(x: short4) -> (r: uchar4)
        ensures
            r == uchar4(i16_to_u8(x.0), i16_to_u8(x.1), i16_to_u8(x.2), i16_to_u8(x.3)),
    {
        uchar4(i16_to_u8(x.0), i16_to_u8(x.1), i16_to_u8(x.2), i16_to_u8(x.3))
    }

    /// Every lane as `u8`, saturating: a lane outside the range of `u8` gives the nearest bound.
    pub fn to_uchar_sat(x: short4) -> (r: uchar4)
        ensures
            r == x.spec_to_uchar_sat(),
    {
        uchar4(i16_to_u8_sat(x.0), i16_to_u8_sat(x.1), i16_to_u8_sat(x.2), i16_to_u8_sat(x.3))
    }

    /// The vector itself: its lanes are `i16` already.
    pub fn to_short(x: short4) -> (r: short4)
        ensures
            r == x,
    {
        x
    }

    /// The vector itself: its lanes are `i16` already, and nothing saturates.
    pub fn to_short_sat(x: short4) -> (r: short4)
        ensures
            r == x.spec_to_short_sat(),
    {
        x
    }

    /// Every lane as `u16`: the same bits, read as `u16`.
    pub fn to_ushort(x: short4) -> (r: ushort4)
        ensures
            r == ushort4(i16_to_u16(x.0), i16_to_u16(x.1), i16_to_u16(x.2), i16_to_u16(x.3)),
    {
        ushort4(i16_to_u16(x.0), i16_to_u16(x.1), i16_to_u16(x.2), i16_to_u16(x.3))
    }

    /// Every lane as `u16`, saturating: a lane outside the range of `u16` gives the nearest bound.
    pub fn to_ushort_sat(x: short4) -> (r: ushort4)
        ensures
            r == x.spec_to_ushort_sat(),
    {
        ushort4(i16_to_u16_sat(x.0), i16_to_u16_sat(x.1), i16_to_u16_sat(x.2), i16_to_u16_sat(x.3))
    }

    /// Every lane as `i32`, which holds every `i16`.
    pub fn to_int(x: short4) -> (r: int4)
        ensures
            r == int4(i16_to_i32(x.0), i16_to_i32(x.1), i16_to_i32(x.2), i16_to_i32(x.3)),
    {
        int4(i16_to_i32(x.0), i16_to_i32(x.1), i16_to_i32(x.2), i16_to_i32(x.3))
    }

    /// Every lane as `i32`, saturating; nothing saturates, since `i32` holds every `i16`.
    pub fn to_int_sat(x: short4) -> (r: int4)
        ensures
            r == x.spec_to_int_sat(),
    {
        int4(i16_to_i32_sat(x.0), i16_to_i32_sat(x.1), i16_to_i32_sat(x.2), i16_to_i32_sat(x.3))
    }

    /// Every lane as `u32`, sign-extended: a negative lane wraps around.
    pub fn to_uint(x: short4) -> (r: uint4)
        ensures
            r == uint4(i16_to_u32(x.0), i16_to_u32(x.1), i16_to_u32(x.2), i16_to_u32(x.3)),
    {
        uint4(i16_to_u32(x.0), i16_to_u32(x.1), i16_to_u32(x.2), i16_to_u32(x.3))
    }

    /// Every lane as `u32`, saturating: a lane outside the range of `u32` gives the nearest bound.
    pub fn to_uint_sat(x: short4) -> (r: uint4)
        ensures
            r == x.spec_to_uint_sat(),
    {
        uint4(i16_to_u32_sat(x.0), i16_to_u32_sat(x.1), i16_to_u32_sat(x.2), i16_to_u32_sat(x.3))
    }

    /// Every lane as `i64`, which holds every `i16`.
    pub fn to_long(x: short4) -> (r: long4)
        ensures
            r == long4(i16_to_i64(x.0), i16_to_i64(x.1), i16_to_i64(x.2), i16_to_i64(x.3)),
    {
        long4(i16_to_i64(x.0), i16_to_i64(x.1), i16_to_i64(x.2), i16_to_i64(x.3))
    }

    /// Every lane as `i64`, saturating; nothing saturates, since `i64` holds every `i16`.
    pub fn to_long_sat(x: short4) -> (r: long4)
        ensures
            r == x.spec_to_long_sat(),
    {
        long4(i16_to_i64_sat(x.0), i16_to_i64_sat(x.1), i16_to_i64_sat(x.2), i16_to_i64_sat(x.3))
    }

    /// Every lane as `u64`, sign-extended: a negative lane wraps around.
    pub fn to_ulong(x: short4) -> (r: ulong4)
        ensures
            r == ulong4(i16_to_u64(x.0), i16_to_u64(x.1), i16_to_u64(x.2), i16_to_u64(x.3)),
    {
        ulong4(i16_to_u64(x.0), i16_to_u64(x.1), i16_to_u64(x.2), i16_to_u64(x.3))
    }

    /// Every lane as `u64`, saturating: a lane outside the range of `u64` gives the nearest bound.
    pub fn to_ulong_sat(x: short4) -> (r: ulong4)
        ensures
            r == x.spec_to_ulong_sat(),
    {
        ulong4(i16_to_u64_sat(x.0), i16_to_u64_sat(x.1), i16_to_u64_sat(x.2), i16_to_u64_sat(x.3))
    }

    /// The low half: lanes 0 to 1.
    pub fn lo(self) -> (r: short2)
        ensures
            r == short2(self.0, self.1),
    {
        short2(self.0, self.1)
    }

    /// The high half: lanes 2 to 3.
    pub fn hi(self) -> (r: short2)
        ensures
            r == short2(self.2, self.3),
    {
        short2(self.2, self.3)
    }

    /// The odd lanes: lanes 1, 3 and so on.
    pub fn odd(self) -> (r: short2)
        ensures
            r == short2(self.1, self.3),
    {
        short2(self.1, self.3)
    }

    /// The even lanes: lanes 0, 2 and so on.
    pub fn even(self) -> (r: short2)
        ensures
            r == short2(self.0, self.2),
    {
        short2(self.0, self.2)
    }

    /// The vector of `f` applied to every lane. `f` accepts every lane.
    pub fn map_unary<F: Fn(i16) -> i16>(self, f: F) -> (r: short4)
        requires
            call_requires(f, (self.0,)),
            call_requires(f, (self.1,)),
            call_requires(f, (self.2,)),
            call_requires(f, (self.3,)),
        ensures
            call_ensures(f, (self.0,), r.0),
            call_ensures(f, (self.1,), r.1),
            call_ensures(f, (self.2,), r.2),
            call_ensures(f, (self.3,), r.3),
    {
        short4(f(self.0), f(self.1), f(self.2), f(self.3))
    }

    /// The vector of `f` applied to the lanes of the two vectors, lane by lane. `f` accepts every
    /// such pair of lanes.
    pub fn map_binary<F: Fn(i16, i16) -> i16>(self, other: short4, f: F) -> (r: short4)
        requires
            call_requires(f, (self.0, other.0)),
            call_requires(f, (self.1, other.1)),
            call_requires(f, (self.2, other.2)),
            call_requires(f, (self.3, other.3)),
        ensures
            call_ensures(f, (self.0, other.0), r.0),
            call_ensures(f, (self.1, other.1), r.1),
            call_ensures(f, (self.2, other.2), r.2),
            call_ensures(f, (self.3, other.3), r.3),
    {
        short4(f(self.0, other.0), f(self.1, other.1), f(self.2, other.2), f(self.3, other.3))
    }

    /// The lanes folded by `f`, from lane 0 upward: `f` is applied to lane 1 and lane 0, then to
    /// each further lane and what the lanes below it gave. `f` accepts every pair of scalars.
    pub fn reduce<F: Fn(i16, i16) -> i16>(self, f: F) -> (r: i16)
        requires
            forall|a: i16, b: i16| call_requires(f, (a, b)),
        ensures
            exists|s1: i16, s2: i16|
                call_ensures(f, (self.1, self.0), s1)
                    && call_ensures(f, (self.2, s1), s2)
                    && call_ensures(f, (self.3, s2), r),
    {
        let s1 = f(self.1, self.0);
        let s2 = f(self.2, s1);
        let s3 = f(self.3, s2);
        s3
    }

    /// Addition commutes.
    pub proof fn lemma_add_commutes(x: short4, y: short4)
        ensures
            AddSpec::add_spec(x, y) == AddSpec::add_spec(y, x),
    {
        lemma_arith_i16(x.0, y.0, 0);
        lemma_arith_i16(x.1, y.1, 0);
        lemma_arith_i16(x.2, y.2, 0);
        lemma_arith_i16(x.3, y.3, 0);
    }

    /// Addition associates, wrap-around or not.
    pub proof fn lemma_add_associates(x: short4, y: short4, z: short4)
        ensures
            AddSpec::add_spec(AddSpec::add_spec(x, y), z)
                == AddSpec::add_spec(x, AddSpec::add_spec(y, z)),
    {
        lemma_arith_i16(x.0, y.0, z.0);
        lemma_arith_i16(x.1, y.1, z.1);
        lemma_arith_i16(x.2, y.2, z.2);
        lemma_arith_i16(x.3, y.3, z.3);
    }

    /// Swapping the operands of a subtraction negates the difference.
    pub proof fn lemma_sub_swaps(x: short4, y: short4)
        ensures
            SubSpec::sub_spec(x, y) == NegSpec::neg_spec(SubSpec::sub_spec(y, x)),
    {
        lemma_arith_i16(x.0, y.0, 0);
        lemma_arith_i16(x.1, y.1, 0);
        lemma_arith_i16(x.2, y.2, 0);
        lemma_arith_i16(x.3, y.3, 0);
    }

    /// The magnitude of a magnitude is that magnitude, and the magnitude of a lane other than
    /// `i16::MIN` is not negative.
    pub proof fn lemma_abs(x: short4)
        ensures
            x.spec_abs().spec_abs() == x.spec_abs(),
            forall|i: int|
                0 <= i < 4 && x.lane(i) != i16::MIN ==> #[trigger] x.spec_abs().lane(i) >= 0,
            forall|i: int|
                0 <= i < 4 && x.lane(i) == i16::MIN ==> #[trigger] x.spec_abs().lane(i) == i16::MIN,
    {
        lemma_abs_i16(x.0);
        lemma_abs_i16(x.1);
        lemma_abs_i16(x.2);
        lemma_abs_i16(x.3);
    }

    /// Flipping every bit of a lane gives minus one minus the lane.
    pub proof fn lemma_not(x: short4)
        ensures
            forall|i: int| 0 <= i < 4 ==> #[trigger] NotSpec::not_spec(x).lane(i) == -1 - x.lane(i),
    {
        lemma_not_i16(x.0);
        lemma_not_i16(x.1);
        lemma_not_i16(x.2);
        lemma_not_i16(x.3);
    }

    /// The lanes of a vector with `k` in every lane add up to 4 times `k`, wrapped around.
    pub proof fn lemma_reduce_add_broadcast(k: i16)
        ensures
            short4(k, k, k, k).spec_reduce_add() == wrap_i16(4 * k),
    {
    }

    /// Saturating conversion to `i8` gives, lane by lane, the lane itself where `i8` holds it and
    /// the nearest bound of `i8` where it does not.
    pub proof fn lemma_to_char_sat(x: short4)
        ensures
            forall|i: int|
                0 <= i < 4 ==> #[trigger] x.spec_to_char_sat().lane(i) == sat_i8(x.lane(i) as int),
    {
    }

    /// Saturating conversion to `u8` gives, lane by lane, the lane itself where `u8` holds it and
    /// the nearest bound of `u8` where it does not.
    pub proof fn lemma_to_uchar_sat(x: short4)
        ensures
            forall|i: int|
                0 <= i < 4 ==> #[trigger] x.spec_to_uchar_sat().lane(i) == sat_u8(x.lane(i) as int),
    {
    }

    /// Saturating conversion to `u16` gives, lane by lane, the lane itself where `u16` holds it and
    /// the nearest bound of `u16` where it does not.
    pub proof fn lemma_to_ushort_sat(x: short4)
        ensures
            forall|i: int|
                0 <= i < 4 ==>
                    #[trigger] x.spec_to_ushort_sat().lane(i) == sat_u16(x.lane(i) as int),
    {
    }

    /// Saturating conversion to `i32` gives every lane unchanged: `i32` holds every `i16`.
    pub proof fn lemma_to_int_sat(x: short4)
        ensures
            forall|i: int|
                0 <= i < 4 ==> #[trigger] x.spec_to_int_sat().lane(i) == sat_i32(x.lane(i) as int),
            forall|i: int| 0 <= i < 4 ==> #[trigger] x.spec_to_int_sat().lane(i) == x.lane(i),
    {
    }

    /// Saturating conversion to `u32` gives, lane by lane, the lane itself where `u32` holds it and
    /// the nearest bound of `u32` where it does not.
    pub proof fn lemma_to_uint_sat(x: short4)
        ensures
            forall|i: int|
                0 <= i < 4 ==> #[trigger] x.spec_to_uint_sat().lane(i) == sat_u32(x.lane(i) as int),
    {
    }

    /// Saturating conversion to `i64` gives every lane unchanged: `i64` holds every `i16`.
    pub proof fn lemma_to_long_sat(x: short4)
        ensures
            forall|i: int|
                0 <= i < 4 ==> #[trigger] x.spec_to_long_sat().lane(i) == sat_i64(x.lane(i) as int),
            forall|i: int| 0 <= i < 4 ==> #[trigger] x.spec_to_long_sat().lane(i) == x.lane(i),
    {
    }

    /// Saturating conversion to `u64` gives, lane by lane, the lane itself where `u64` holds it and
    /// the nearest bound of `u64` where it does not.
    pub proof fn lemma_to_ulong_sat(x: short4)
        ensures
            forall|i: int|
                0 <= i < 4 ==>
                    #[trigger] x.spec_to_ulong_sat().lane(i) == sat_u64(x.lane(i) as int),
    {
    }
}

impl Vector for short4 {
    type Scalar = i16;

    type Boolean = short4;

    type CharVector = char4;

    type ShortVector = short4;

    type IntVector = int4;

    type LongVector = long4;

    type UCharVector = uchar4;

    type UShortVector = ushort4;

    type UIntVector = uint4;

    type ULongVector = ulong4;

    type FloatVector = float4;

    type DoubleVector = double4;

    open spec fn spec_abs(self) -> short4 {
        short4(abs_i16(self.0), abs_i16(self.1), abs_i16(self.2), abs_i16(self.3))
    }

    open spec fn spec_max(self, other: short4) -> short4 {
        short4(
            max_i16(self.0, other.0), max_i16(self.1, other.1), max_i16(self.2, other.2),
            max_i16(self.3, other.3),
        )
    }

    open spec fn spec_min(self, other: short4) -> short4 {
        short4(
            min_i16(self.0, other.0), min_i16(self.1, other.1), min_i16(self.2, other.2),
            min_i16(self.3, other.3),
        )
    }

    open spec fn spec_clamp(self, lo: short4, hi: short4) -> short4 {
        short4(
            clamp_i16(self.0, lo.0, hi.0), clamp_i16(self.1, lo.1, hi.1),
            clamp_i16(self.2, lo.2, hi.2), clamp_i16(self.3, lo.3, hi.3),
        )
    }

    open spec fn spec_reduce_add(self) -> i16 {
        wrap_i16(self.0 + self.1 + self.2 + self.3)
    }

    open spec fn spec_reduce_min(self) -> i16 {
        let s = min_i16(self.0, self.1);
        let s = min_i16(s, self.2);
        let s = min_i16(s, self.3);
        s
    }

    open spec fn spec_reduce_max(self) -> i16 {
        let s = max_i16(self.0, self.1);
        let s = max_i16(s, self.2);
        let s = max_i16(s, self.3);
        s
    }

    open spec fn spec_to_char_sat(self) -> char4 {
        char4(
            i16_to_i8_sat(self.0), i16_to_i8_sat(self.1), i16_to_i8_sat(self.2),
            i16_to_i8_sat(self.3),
        )
    }

    open spec fn spec_to_uchar_sat(self) -> uchar4 {
        uchar4(
            i16_to_u8_sat(self.0), i16_to_u8_sat(self.1), i16_to_u8_sat(self.2),
            i16_to_u8_sat(self.3),
        )
    }

    open spec fn spec_to_short_sat(self) -> short4 {
        self
    }

    open spec fn spec_to_ushort_sat(self) -> ushort4 {
        ushort4(
            i16_to_u16_sat(self.0), i16_to_u16_sat(self.1), i16_to_u16_sat(self.2),
            i16_to_u16_sat(self.3),
        )
    }

    open spec fn spec_to_int_sat(self) -> int4 {
        int4(
            i16_to_i32_sat(self.0), i16_to_i32_sat(self.1), i16_to_i32_sat(self.2),
            i16_to_i32_sat(self.3),
        )
    }

    open spec fn spec_to_uint_sat(self) -> uint4 {
        uint4(
            i16_to_u32_sat(self.0), i16_to_u32_sat(self.1), i16_to_u32_sat(self.2),
            i16_to_u32_sat(self.3),
        )
    }

    open spec fn spec_to_long_sat(self) -> long4 {
        long4(
            i16_to_i64_sat(self.0), i16_to_i64_sat(self.1), i16_to_i64_sat(self.2),
            i16_to_i64_sat(self.3),
        )
    }

    open spec fn spec_to_ulong_sat(self) -> ulong4 {
        ulong4(
            i16_to_u64_sat(self.0), i16_to_u64_sat(self.1), i16_to_u64_sat(self.2),
            i16_to_u64_sat(self.3),
        )
    }

    fn abs(self) -> (r: short4) {
        short4::abs(self)
    }

    fn max(self, other: short4) -> (r: short4) {
        short4::max(self, other)
    }

    fn min(self, other: short4) -> (r: short4) {
        short4::min(self, other)
    }

    fn clamp(self, lo: short4, hi: short4) -> (r: short4) {
        short4::clamp(self, lo, hi)
    }

    fn reduce_add(self) -> (r: i16) {
        short4::reduce_add(self)
    }

    fn reduce_min(self) -> (r: i16) {
        short4::reduce_min(self)
    }

    fn reduce_max(self) -> (r: i16) {
        short4::reduce_max(self)
    }

    fn to_char_sat(self) -> (r: char4) {
        short4::to_char_sat(self)
    }

    fn to_uchar_sat(self) -> (r: uchar4) {
        short4::to_uchar_sat(self)
    }

    fn to_short_sat(self) -> (r: short4) {
        short4::to_short_sat(self)
    }

    fn to_ushort_sat(self) -> (r: ushort4) {
        short4::to_ushort_sat(self)
    }

    fn to_int_sat(self) -> (r: int4) {
        short4::to_int_sat(self)
    }

    fn to_uint_sat(self) -> (r: uint4) {
        short4::to_uint_sat(self)
    }

    fn to_long_sat(self) -> (r: long4) {
        short4::to_long_sat(self)
    }

    fn to_ulong_sat(self) -> (r: ulong4) {
        short4::to_ulong_sat(self)
    }
}

impl Integer for short4 {
    open spec fn spec_reduce_and(self) -> i16 {
        self.0 & self.1 & self.2 & self.3
    }

    open spec fn spec_reduce_or(self) -> i16 {
        self.0 | self.1 | self.2 | self.3
    }

    open spec fn spec_reduce_xor(self) -> i16 {
        self.0 ^ self.1 ^ self.2 ^ self.3
    }

    open spec fn spec_all(self) -> bool {
        truth_i16(self.0) && truth_i16(self.1) && truth_i16(self.2) && truth_i16(self.3)
    }

    open spec fn spec_any(self) -> bool {
        truth_i16(self.0) || truth_i16(self.1) || truth_i16(self.2) || truth_i16(self.3)
    }

    fn reduce_and(self) -> (r: i16) {
        self.0 & self.1 & self.2 & self.3
    }

    fn reduce_or(self) -> (r: i16) {
        self.0 | self.1 | self.2 | self.3
    }

    fn reduce_xor(self) -> (r: i16) {
        self.0 ^ self.1 ^ self.2 ^ self.3
    }

    fn all(self) -> (r: bool) {
        proof {
            let s = self.0 & self.1;
            lemma_bits_i16(self.0, self.1, 0, 0);
            lemma_bits_i16(s, self.2, 0, 0);
            let s = s & self.2;
            lemma_bits_i16(s, self.3, 0, 0);
        }
        truth_i16(self.reduce_and())
    }

    fn any(self) -> (r: bool) {
        proof {
            let s = self.0 | self.1;
            lemma_bits_i16(self.0, self.1, 0, 0);
            lemma_bits_i16(s, self.2, 0, 0);
            let s = s | self.2;
            lemma_bits_i16(s, self.3, 0, 0);
        }
        truth_i16(self.reduce_or())
    }
}

impl Dot for short4 {
    type DotProduct = i16;

    open spec fn spec_dot(self, other: short4) -> i16 {
        wrap_i16(self.0 * other.0 + self.1 * other.1 + self.2 * other.2 + self.3 * other.3)
    }

    fn dot(self, other: short4) -> (r: i16) {
        let s = mul_i16(self.0, other.0);
        let ghost mut t: int = self.0 * other.0;
        proof {
            lemma_wrap_i16_sum(t, self.1 * other.1);
            t = t + self.1 * other.1;
        }
        let s = madd_i16(self.1, other.1, s);
        proof {
            lemma_wrap_i16_sum(t, self.2 * other.2);
            t = t + self.2 * other.2;
        }
        let s = madd_i16(self.2, other.2, s);
        proof {
            lemma_wrap_i16_sum(t, self.3 * other.3);
            t = t + self.3 * other.3;
        }
        let s = madd_i16(self.3, other.3, s);
        s
    }
}

impl Select<short4> for short4 {
    open spec fn spec_select(self, a: short4, b: short4) -> short4 {
        short4(
            select_i16(self.0, a.0, b.0), select_i16(self.1, a.1, b.1),
            select_i16(self.2, a.2, b.2), select_i16(self.3, a.3, b.3),
        )
    }

    open spec fn spec_bitselect(self, a: short4, b: short4) -> short4 {
        short4(
            bitselect_i16(self.0, a.0, b.0), bitselect_i16(self.1, a.1, b.1),
            bitselect_i16(self.2, a.2, b.2), bitselect_i16(self.3, a.3, b.3),
        )
    }

    fn select(self, a: short4, b: short4) -> (r: short4) {
        short4(
            select_i16(self.0, a.0, b.0), select_i16(self.1, a.1, b.1),
            select_i16(self.2, a.2, b.2), select_i16(self.3, a.3, b.3),
        )
    }

    fn bitselect(self, a: short4, b: short4) -> (r: short4) {
        short4(
            bitselect_i16(self.0, a.0, b.0), bitselect_i16(self.1, a.1, b.1),
            bitselect_i16(self.2, a.2, b.2), bitselect_i16(self.3, a.3, b.3),
        )
    }
}

impl Select<ushort4> for short4 {
    open spec fn spec_select(self, a: ushort4, b: ushort4) -> ushort4 {
        ushort4(
            select_u16(self.0, a.0, b.0), select_u16(self.1, a.1, b.1),
            select_u16(self.2, a.2, b.2), select_u16(self.3, a.3, b.3),
        )
    }

    open spec fn spec_bitselect(self, a: ushort4, b: ushort4) -> ushort4 {
        ushort4(
            bitselect_u16(self.0, a.0, b.0), bitselect_u16(self.1, a.1, b.1),
            bitselect_u16(self.2, a.2, b.2), bitselect_u16(self.3, a.3, b.3),
        )
    }

    fn select(self, a: ushort4, b: ushort4) -> (r: ushort4) {
        ushort4(
            select_u16(self.0, a.0, b.0), select_u16(self.1, a.1, b.1),
            select_u16(self.2, a.2, b.2), select_u16(self.3, a.3, b.3),
        )
    }

    fn bitselect(self, a: ushort4, b: ushort4) -> (r: ushort4) {
        ushort4(
            bitselect_u16(self.0, a.0, b.0), bitselect_u16(self.1, a.1, b.1),
            bitselect_u16(self.2, a.2, b.2), bitselect_u16(self.3, a.3, b.3),
        )
    }
}

impl short4 {
    /// A blend of two `short4` gives the lane of `b` where the mask is all ones and the lane of `a`
    /// where it is zero, whatever the other lanes hold.
    pub proof fn lemma_bitselect_short4(m: short4, a: short4, b: short4)
        ensures
            forall|i: int|
                0 <= i < 4 && m.lane(i) == -1 ==>
                    #[trigger] m.spec_bitselect(a, b).lane(i) == b.lane(i),
            forall|i: int|
                0 <= i < 4 && m.lane(i) == 0 ==>
                    #[trigger] m.spec_bitselect(a, b).lane(i) == a.lane(i),
    {
        lemma_blend_i16(m.0, a.0, b.0);
        lemma_blend_i16(m.1, a.1, b.1);
        lemma_blend_i16(m.2, a.2, b.2);
        lemma_blend_i16(m.3, a.3, b.3);
    }

    /// A choice between two `short4` goes by the sign bit of the mask alone: it gives the lane of
    /// `b` where the mask is negative and the lane of `a` elsewhere, as the blend does under the
    /// mask whose every lane has its sign spread over all its bits.
    pub proof fn lemma_select_short4(m: short4, a: short4, b: short4)
        ensures
            m.spec_select(a, b) == ShrSpec::shr_spec(m, 15i16).spec_bitselect(a, b),
            forall|i: int|
                0 <= i < 4 && m.lane(i) < 0 ==> #[trigger] m.spec_select(a, b).lane(i) == b.lane(i),
            forall|i: int|
                0 <= i < 4 && m.lane(i) >= 0 ==>
                    #[trigger] m.spec_select(a, b).lane(i) == a.lane(i),
    {
        lemma_blend_i16(m.0, a.0, b.0);
        lemma_blend_i16(m.1, a.1, b.1);
        lemma_blend_i16(m.2, a.2, b.2);
        lemma_blend_i16(m.3, a.3, b.3);
    }

    /// A blend of two `ushort4` gives the lane of `b` where the mask is all ones and the lane of
    /// `a` where it is zero, whatever the other lanes hold.
    pub proof fn lemma_bitselect_ushort4(m: short4, a: ushort4, b: ushort4)
        ensures
            forall|i: int|
                0 <= i < 4 && m.lane(i) == -1 ==>
                    #[trigger] m.spec_bitselect(a, b).lane(i) == b.lane(i),
            forall|i: int|
                0 <= i < 4 && m.lane(i) == 0 ==>
                    #[trigger] m.spec_bitselect(a, b).lane(i) == a.lane(i),
    {
        lemma_blend_u16(m.0, a.0, b.0);
        lemma_blend_u16(m.1, a.1, b.1);
        lemma_blend_u16(m.2, a.2, b.2);
        lemma_blend_u16(m.3, a.3, b.3);
    }

    /// A choice between two `ushort4` goes by the sign bit of the mask alone: it gives the lane of
    /// `b` where the mask is negative and the lane of `a` elsewhere, as the blend does under the
    /// mask whose every lane has its sign spread over all its bits.
    pub proof fn lemma_select_ushort4(m: short4, a: ushort4, b: ushort4)
        ensures
            m.spec_select(a, b) == ShrSpec::shr_spec(m, 15i16).spec_bitselect(a, b),
            forall|i: int|
                0 <= i < 4 && m.lane(i) < 0 ==> #[trigger] m.spec_select(a, b).lane(i) == b.lane(i),
            forall|i: int|
                0 <= i < 4 && m.lane(i) >= 0 ==>
                    #[trigger] m.spec_select(a, b).lane(i) == a.lane(i),
    {
        lemma_blend_u16(m.0, a.0, b.0);
        lemma_blend_u16(m.1, a.1, b.1);
        lemma_blend_u16(m.2, a.2, b.2);
        lemma_blend_u16(m.3, a.3, b.3);
    }
}

impl Bitcast for short4 {
    type Image = uchar8;

    open spec fn spec_image(self) -> uchar8 {
        let d0 = split_u16_u8(i16_to_u16(self.0));
        let d1 = split_u16_u8(i16_to_u16(self.1));
        let d2 = split_u16_u8(i16_to_u16(self.2));
        let d3 = split_u16_u8(i16_to_u16(self.3));
        uchar8(d0.0, d0.1, d1.0, d1.1, d2.0, d2.1, d3.0, d3.1)
    }

    open spec fn spec_from_image(image: uchar8) -> short4 {
        short4(
            u16_to_i16(join_u8_u16(image.0, image.1)), u16_to_i16(join_u8_u16(image.2, image.3)),
            u16_to_i16(join_u8_u16(image.4, image.5)), u16_to_i16(join_u8_u16(image.6, image.7)),
        )
    }

    open spec fn spec_fills() -> bool {
        true
    }

    fn image(self) -> (r: uchar8) {
        let d0 = split_u16_u8(i16_to_u16(self.0));
        let d1 = split_u16_u8(i16_to_u16(self.1));
        let d2 = split_u16_u8(i16_to_u16(self.2));
        let d3 = split_u16_u8(i16_to_u16(self.3));
        uchar8(d0.0, d0.1, d1.0, d1.1, d2.0, d2.1, d3.0, d3.1)
    }

    fn from_image(image: uchar8) -> (r: short4) {
        short4(
            u16_to_i16(join_u8_u16(image.0, image.1)), u16_to_i16(join_u8_u16(image.2, image.3)),
            u16_to_i16(join_u8_u16(image.4, image.5)), u16_to_i16(join_u8_u16(image.6, image.7)),
        )
    }

    proof fn lemma_image(x: short4) {
        lemma_recast_i16(x.0);
        lemma_regroup_u8_u16(i16_to_u16(x.0), 0, 0);
        lemma_recast_i16(x.1);
        lemma_regroup_u8_u16(i16_to_u16(x.1), 0, 0);
        lemma_recast_i16(x.2);
        lemma_regroup_u8_u16(i16_to_u16(x.2), 0, 0);
        lemma_recast_i16(x.3);
        lemma_regroup_u8_u16(i16_to_u16(x.3), 0, 0);
    }

    proof fn lemma_from_image(image: uchar8) {
        lemma_regroup_u8_u16(0, image.0, image.1);
        lemma_recast_u16(join_u8_u16(image.0, image.1));
        lemma_regroup_u8_u16(0, image.2, image.3);
        lemma_recast_u16(join_u8_u16(image.2, image.3));
        lemma_regroup_u8_u16(0, image.4, image.5);
        lemma_recast_u16(join_u8_u16(image.4, image.5));
        lemma_regroup_u8_u16(0, image.6, image.7);
        lemma_recast_u16(join_u8_u16(image.6, image.7));
    }
}

impl short4 {
    /// Read as `ushort4`, which has lanes of the same width, a vector keeps the bits of every lane;
    /// read as `short4` again, it is what it was.
    pub proof fn lemma_bitcast_ushort4(x: short4)
        ensures
            spec_bitcast::<short4, ushort4>(x)
                == ushort4(i16_to_u16(x.0), i16_to_u16(x.1), i16_to_u16(x.2), i16_to_u16(x.3)),
            spec_bitcast::<ushort4, short4>(spec_bitcast::<short4, ushort4>(x)) == x,
    {
        lemma_recast_i16(x.0);
        lemma_regroup_u8_u16(i16_to_u16(x.0), 0, 0);
        lemma_recast_i16(x.1);
        lemma_regroup_u8_u16(i16_to_u16(x.1), 0, 0);
        lemma_recast_i16(x.2);
        lemma_regroup_u8_u16(i16_to_u16(x.2), 0, 0);
        lemma_recast_i16(x.3);
        lemma_regroup_u8_u16(i16_to_u16(x.3), 0, 0);
    }
}

} // verus!
