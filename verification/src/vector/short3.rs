//! `short3`: three lanes of `i16`.

use crate::scalar::lane_i16::{
    abs_i16, add_i16, bitselect_i16, clamp_i16, div_i16, eq_i16, ge_i16, gt_i16, i16_to_i32,
    i16_to_i32_sat, i16_to_i64, i16_to_i64_sat, i16_to_i8, i16_to_i8_sat, i16_to_u16,
    i16_to_u16_sat, i16_to_u32, i16_to_u32_sat, i16_to_u64, i16_to_u64_sat, i16_to_u8,
    i16_to_u8_sat, isize_to_i16, le_i16, lemma_abs_i16, lemma_arith_i16, lemma_bits_i16,
    lemma_blend_i16, lemma_not_i16, lemma_recast_i16, lt_i16, madd_i16, max_i16, min_i16, mul_i16,
    ne_i16, neg_i16, not_i16, rem_i16, select_i16, shl_i16, shr_i16, sub_i16, truth_i16,
};
use crate::scalar::lane_u16::{bitselect_u16, lemma_blend_u16, select_u16, u16_to_i16};
use crate::scalar::model::{
    lemma_wrap_i16_sum, sat_i32, sat_i64, sat_i8, sat_u16, sat_u32, sat_u64, sat_u8, wrap_i16,
};
use crate::scalar::regroup::{join_u8_u16, lemma_regroup_u8_u16, split_u16_u8};
use crate::traits::{Bitcast, Dot, Integer, Select, Vector, bitcast, spec_bitcast};
use crate::vector::char3::char3;
use crate::vector::double3::double3;
use crate::vector::float3::float3;
use crate::vector::int3::int3;
use crate::vector::long3::long3;
use crate::vector::short2::short2;
use crate::vector::uchar3::uchar3;
use crate::vector::uchar8::uchar8;
use crate::vector::uint3::uint3;
use crate::vector::ulong3::ulong3;
use crate::vector::ushort3::ushort3;
use vstd::prelude::*;
use vstd::std_specs::convert::FromSpecImpl;
use vstd::std_specs::ops::{
    AddSpec, AddSpecImpl, BitAndSpecImpl, BitOrSpecImpl, BitXorSpecImpl, DivSpecImpl, MulSpecImpl,
    NegSpec, NegSpecImpl, NotSpec, NotSpecImpl, RemSpecImpl, ShlSpecImpl, ShrSpec, ShrSpecImpl,
    SubSpec, SubSpecImpl,
};

verus! {

/// Three lanes of `i16`.
#[derive(Copy, Clone, Debug, PartialEq, Eq, Structural)]
pub struct short3(pub i16, pub i16, pub i16);

impl core::ops::Add for short3 {
    type Output = short3;

    /// The lane-wise sum of the two vectors, wrapping around.
    fn add(self, rhs: short3) -> (r: short3) {
        short3(add_i16(self.0, rhs.0), add_i16(self.1, rhs.1), add_i16(self.2, rhs.2))
    }
}

impl AddSpecImpl for short3 {
    open spec fn obeys_add_spec() -> bool {
        true
    }

    open spec fn add_req(self, rhs: short3) -> bool {
        true
    }

    open spec fn add_spec(self, rhs: short3) -> short3 {
        short3(add_i16(self.0, rhs.0), add_i16(self.1, rhs.1), add_i16(self.2, rhs.2))
    }
}

impl core::ops::Add<i16> for short3 {
    type Output = short3;

    /// The sum of every lane and the scalar, wrapping around.
    fn add(self, rhs: i16) -> (r: short3) {
        short3(add_i16(self.0, rhs), add_i16(self.1, rhs), add_i16(self.2, rhs))
    }
}

impl AddSpecImpl<i16> for short3 {
    open spec fn obeys_add_spec() -> bool {
        true
    }

    open spec fn add_req(self, rhs: i16) -> bool {
        true
    }

    open spec fn add_spec(self, rhs: i16) -> short3 {
        short3(add_i16(self.0, rhs), add_i16(self.1, rhs), add_i16(self.2, rhs))
    }
}

impl core::ops::Add<short3> for i16 {
    type Output = short3;

    /// The sum of the scalar and every lane, wrapping around.
    fn add(self, rhs: short3) -> (r: short3) {
        short3(add_i16(self, rhs.0), add_i16(self, rhs.1), add_i16(self, rhs.2))
    }
}

impl AddSpecImpl<short3> for i16 {
    open spec fn obeys_add_spec() -> bool {
        true
    }

    open spec fn add_req(self, rhs: short3) -> bool {
        true
    }

    open spec fn add_spec(self, rhs: short3) -> short3 {
        short3(add_i16(self, rhs.0), add_i16(self, rhs.1), add_i16(self, rhs.2))
    }
}

impl core::ops::Sub for short3 {
    type Output = short3;

    /// The lane-wise difference of the two vectors, wrapping around.
    fn sub(self, rhs: short3) -> (r: short3) {
        short3(sub_i16(self.0, rhs.0), sub_i16(self.1, rhs.1), sub_i16(self.2, rhs.2))
    }
}

impl SubSpecImpl for short3 {
    open spec fn obeys_sub_spec() -> bool {
        true
    }

    open spec fn sub_req(self, rhs: short3) -> bool {
        true
    }

    open spec fn sub_spec(self, rhs: short3) -> short3 {
        short3(sub_i16(self.0, rhs.0), sub_i16(self.1, rhs.1), sub_i16(self.2, rhs.2))
    }
}

impl core::ops::Sub<i16> for short3 {
    type Output = short3;

    /// The difference of every lane and the scalar, wrapping around.
    fn sub(self, rhs: i16) -> (r: short3) {
        short3(sub_i16(self.0, rhs), sub_i16(self.1, rhs), sub_i16(self.2, rhs))
    }
}

impl SubSpecImpl<i16> for short3 {
    open spec fn obeys_sub_spec() -> bool {
        true
    }

    open spec fn sub_req(self, rhs: i16) -> bool {
        true
    }

    open spec fn sub_spec(self, rhs: i16) -> short3 {
        short3(sub_i16(self.0, rhs), sub_i16(self.1, rhs), sub_i16(self.2, rhs))
    }
}

impl core::ops::Sub<short3> for i16 {
    type Output = short3;

    /// The difference of the scalar and every lane, wrapping around.
    fn sub(self, rhs: short3) -> (r: short3) {
        short3(sub_i16(self, rhs.0), sub_i16(self, rhs.1), sub_i16(self, rhs.2))
    }
}

impl SubSpecImpl<short3> for i16 {
    open spec fn obeys_sub_spec() -> bool {
        true
    }

    open spec fn sub_req(self, rhs: short3) -> bool {
        true
    }

    open spec fn sub_spec(self, rhs: short3) -> short3 {
        short3(sub_i16(self, rhs.0), sub_i16(self, rhs.1), sub_i16(self, rhs.2))
    }
}

impl core::ops::Mul for short3 {
    type Output = short3;

    /// The lane-wise product of the two vectors, wrapping around.
    fn mul(self, rhs: short3) -> (r: short3) {
        short3(mul_i16(self.0, rhs.0), mul_i16(self.1, rhs.1), mul_i16(self.2, rhs.2))
    }
}

impl MulSpecImpl for short3 {
    open spec fn obeys_mul_spec() -> bool {
        true
    }

    open spec fn mul_req(self, rhs: short3) -> bool {
        true
    }

    open spec fn mul_spec(self, rhs: short3) -> short3 {
        short3(mul_i16(self.0, rhs.0), mul_i16(self.1, rhs.1), mul_i16(self.2, rhs.2))
    }
}

impl core::ops::Mul<i16> for short3 {
    type Output = short3;

    /// The product of every lane and the scalar, wrapping around.
    fn mul(self, rhs: i16) -> (r: short3) {
        short3(mul_i16(self.0, rhs), mul_i16(self.1, rhs), mul_i16(self.2, rhs))
    }
}

impl MulSpecImpl<i16> for short3 {
    open spec fn obeys_mul_spec() -> bool {
        true
    }

    open spec fn mul_req(self, rhs: i16) -> bool {
        true
    }

    open spec fn mul_spec(self, rhs: i16) -> short3 {
        short3(mul_i16(self.0, rhs), mul_i16(self.1, rhs), mul_i16(self.2, rhs))
    }
}

impl core::ops::Mul<short3> for i16 {
    type Output = short3;

    /// The product of the scalar and every lane, wrapping around.
    fn mul(self, rhs: short3) -> (r: short3) {
        short3(mul_i16(self, rhs.0), mul_i16(self, rhs.1), mul_i16(self, rhs.2))
    }
}

impl MulSpecImpl<short3> for i16 {
    open spec fn obeys_mul_spec() -> bool {
        true
    }

    open spec fn mul_req(self, rhs: short3) -> bool {
        true
    }

    open spec fn mul_spec(self, rhs: short3) -> short3 {
        short3(mul_i16(self, rhs.0), mul_i16(self, rhs.1), mul_i16(self, rhs.2))
    }
}

impl core::ops::Div for short3 {
    type Output = short3;

    /// The lane-wise quotient of the two vectors, rounded toward zero. No lane of the divisor is
    /// zero.
    fn div(self, rhs: short3) -> (r: short3) {
        short3(div_i16(self.0, rhs.0), div_i16(self.1, rhs.1), div_i16(self.2, rhs.2))
    }
}

impl DivSpecImpl for short3 {
    open spec fn obeys_div_spec() -> bool {
        true
    }

    open spec fn div_req(self, rhs: short3) -> bool {
        rhs.0 != 0 && rhs.1 != 0 && rhs.2 != 0
    }

    open spec fn div_spec(self, rhs: short3) -> short3 {
        short3(div_i16(self.0, rhs.0), div_i16(self.1, rhs.1), div_i16(self.2, rhs.2))
    }
}

impl core::ops::Div<i16> for short3 {
    type Output = short3;

    /// The quotient of every lane by the scalar, rounded toward zero. The scalar is not zero.
    fn div(self, rhs: i16) -> (r: short3) {
        short3(div_i16(self.0, rhs), div_i16(self.1, rhs), div_i16(self.2, rhs))
    }
}

impl DivSpecImpl<i16> for short3 {
    open spec fn obeys_div_spec() -> bool {
        true
    }

    open spec fn div_req(self, rhs: i16) -> bool {
        rhs != 0
    }

    open spec fn div_spec(self, rhs: i16) -> short3 {
        short3(div_i16(self.0, rhs), div_i16(self.1, rhs), div_i16(self.2, rhs))
    }
}

impl core::ops::Div<short3> for i16 {
    type Output = short3;

    /// The quotient of the scalar by every lane, rounded toward zero. No lane is zero.
    fn div(self, rhs: short3) -> (r: short3) {
        short3(div_i16(self, rhs.0), div_i16(self, rhs.1), div_i16(self, rhs.2))
    }
}

impl DivSpecImpl<short3> for i16 {
    open spec fn obeys_div_spec() -> bool {
        true
    }

    open spec fn div_req(self, rhs: short3) -> bool {
        rhs.0 != 0 && rhs.1 != 0 && rhs.2 != 0
    }

    open spec fn div_spec(self, rhs: short3) -> short3 {
        short3(div_i16(self, rhs.0), div_i16(self, rhs.1), div_i16(self, rhs.2))
    }
}

impl core::ops::BitAnd for short3 {
    type Output = short3;

    /// The lane-wise conjunction of the two vectors, bit by bit.
    fn bitand(self, rhs: short3) -> (r: short3) {
        short3(self.0 & rhs.0, self.1 & rhs.1, self.2 & rhs.2)
    }
}

impl BitAndSpecImpl for short3 {
    open spec fn obeys_bitand_spec() -> bool {
        true
    }

    open spec fn bitand_req(self, rhs: short3) -> bool {
        true
    }

    open spec fn bitand_spec(self, rhs: short3) -> short3 {
        short3(self.0 & rhs.0, self.1 & rhs.1, self.2 & rhs.2)
    }
}

impl core::ops::BitAnd<i16> for short3 {
    type Output = short3;

    /// The conjunction of every lane and the scalar, bit by bit.
    fn bitand(self, rhs: i16) -> (r: short3) {
        short3(self.0 & rhs, self.1 & rhs, self.2 & rhs)
    }
}

impl BitAndSpecImpl<i16> for short3 {
    open spec fn obeys_bitand_spec() -> bool {
        true
    }

    open spec fn bitand_req(self, rhs: i16) -> bool {
        true
    }

    open spec fn bitand_spec(self, rhs: i16) -> short3 {
        short3(self.0 & rhs, self.1 & rhs, self.2 & rhs)
    }
}

impl core::ops::BitAnd<short3> for i16 {
    type Output = short3;

    /// The conjunction of the scalar and every lane, bit by bit.
    fn bitand(self, rhs: short3) -> (r: short3) {
        short3(self & rhs.0, self & rhs.1, self & rhs.2)
    }
}

impl BitAndSpecImpl<short3> for i16 {
    open spec fn obeys_bitand_spec() -> bool {
        true
    }

    open spec fn bitand_req(self, rhs: short3) -> bool {
        true
    }

    open spec fn bitand_spec(self, rhs: short3) -> short3 {
        short3(self & rhs.0, self & rhs.1, self & rhs.2)
    }
}

impl core::ops::BitOr for short3 {
    type Output = short3;

    /// The lane-wise disjunction of the two vectors, bit by bit.
    fn bitor(self, rhs: short3) -> (r: short3) {
        short3(self.0 | rhs.0, self.1 | rhs.1, self.2 | rhs.2)
    }
}

impl BitOrSpecImpl for short3 {
    open spec fn obeys_bitor_spec() -> bool {
        true
    }

    open spec fn bitor_req(self, rhs: short3) -> bool {
        true
    }

    open spec fn bitor_spec(self, rhs: short3) -> short3 {
        short3(self.0 | rhs.0, self.1 | rhs.1, self.2 | rhs.2)
    }
}

impl core::ops::BitOr<i16> for short3 {
    type Output = short3;

    /// The disjunction of every lane and the scalar, bit by bit.
    fn bitor(self, rhs: i16) -> (r: short3) {
        short3(self.0 | rhs, self.1 | rhs, self.2 | rhs)
    }
}

impl BitOrSpecImpl<i16> for short3 {
    open spec fn obeys_bitor_spec() -> bool {
        true
    }

    open spec fn bitor_req(self, rhs: i16) -> bool {
        true
    }

    open spec fn bitor_spec(self, rhs: i16) -> short3 {
        short3(self.0 | rhs, self.1 | rhs, self.2 | rhs)
    }
}

impl core::ops::BitOr<short3> for i16 {
    type Output = short3;

    /// The disjunction of the scalar and every lane, bit by bit.
    fn bitor(self, rhs: short3) -> (r: short3) {
        short3(self | rhs.0, self | rhs.1, self | rhs.2)
    }
}

impl BitOrSpecImpl<short3> for i16 {
    open spec fn obeys_bitor_spec() -> bool {
        true
    }

    open spec fn bitor_req(self, rhs: short3) -> bool {
        true
    }

    open spec fn bitor_spec(self, rhs: short3) -> short3 {
        short3(self | rhs.0, self | rhs.1, self | rhs.2)
    }
}

impl core::ops::BitXor for short3 {
    type Output = short3;

    /// The lane-wise exclusive disjunction of the two vectors, bit by bit.
    fn bitxor(self, rhs: short3) -> (r: short3) {
        short3(self.0 ^ rhs.0, self.1 ^ rhs.1, self.2 ^ rhs.2)
    }
}

impl BitXorSpecImpl for short3 {
    open spec fn obeys_bitxor_spec() -> bool {
        true
    }

    open spec fn bitxor_req(self, rhs: short3) -> bool {
        true
    }

    open spec fn bitxor_spec(self, rhs: short3) -> short3 {
        short3(self.0 ^ rhs.0, self.1 ^ rhs.1, self.2 ^ rhs.2)
    }
}

impl core::ops::BitXor<i16> for short3 {
    type Output = short3;

    /// The exclusive disjunction of every lane and the scalar, bit by bit.
    fn bitxor(self, rhs: i16) -> (r: short3) {
        short3(self.0 ^ rhs, self.1 ^ rhs, self.2 ^ rhs)
    }
}

impl BitXorSpecImpl<i16> for short3 {
    open spec fn obeys_bitxor_spec() -> bool {
        true
    }

    open spec fn bitxor_req(self, rhs: i16) -> bool {
        true
    }

    open spec fn bitxor_spec(self, rhs: i16) -> short3 {
        short3(self.0 ^ rhs, self.1 ^ rhs, self.2 ^ rhs)
    }
}

impl core::ops::BitXor<short3> for i16 {
    type Output = short3;

    /// The exclusive disjunction of the scalar and every lane, bit by bit.
    fn bitxor(self, rhs: short3) -> (r: short3) {
        short3(self ^ rhs.0, self ^ rhs.1, self ^ rhs.2)
    }
}

impl BitXorSpecImpl<short3> for i16 {
    open spec fn obeys_bitxor_spec() -> bool {
        true
    }

    open spec fn bitxor_req(self, rhs: short3) -> bool {
        true
    }

    open spec fn bitxor_spec(self, rhs: short3) -> short3 {
        short3(self ^ rhs.0, self ^ rhs.1, self ^ rhs.2)
    }
}

impl core::ops::Shl for short3 {
    type Output = short3;

    /// Every lane shifted left by the lane of `rhs`, which is below 16.
    fn shl(self, rhs: short3) -> (r: short3) {
        short3(shl_i16(self.0, rhs.0), shl_i16(self.1, rhs.1), shl_i16(self.2, rhs.2))
    }
}

impl ShlSpecImpl for short3 {
    open spec fn obeys_shl_spec() -> bool {
        true
    }

    open spec fn shl_req(self, rhs: short3) -> bool {
        0 <= rhs.0 < 16 && 0 <= rhs.1 < 16 && 0 <= rhs.2 < 16
    }

    open spec fn shl_spec(self, rhs: short3) -> short3 {
        short3(shl_i16(self.0, rhs.0), shl_i16(self.1, rhs.1), shl_i16(self.2, rhs.2))
    }
}

impl core::ops::Shl<i16> for short3 {
    type Output = short3;

    /// Every lane shifted left by `rhs`, which is below 16.
    fn shl(self, rhs: i16) -> (r: short3) {
        short3(shl_i16(self.0, rhs), shl_i16(self.1, rhs), shl_i16(self.2, rhs))
    }
}

impl ShlSpecImpl<i16> for short3 {
    open spec fn obeys_shl_spec() -> bool {
        true
    }

    open spec fn shl_req(self, rhs: i16) -> bool {
        0 <= rhs < 16
    }

    open spec fn shl_spec(self, rhs: i16) -> short3 {
        short3(shl_i16(self.0, rhs), shl_i16(self.1, rhs), shl_i16(self.2, rhs))
    }
}

impl core::ops::Shl<short3> for i16 {
    type Output = short3;

    /// The scalar shifted left by every lane of `rhs`, each of which is below 16.
    fn shl(self, rhs: short3) -> (r: short3) {
        short3(shl_i16(self, rhs.0), shl_i16(self, rhs.1), shl_i16(self, rhs.2))
    }
}

impl ShlSpecImpl<short3> for i16 {
    open spec fn obeys_shl_spec() -> bool {
        true
    }

    open spec fn shl_req(self, rhs: short3) -> bool {
        0 <= rhs.0 < 16 && 0 <= rhs.1 < 16 && 0 <= rhs.2 < 16
    }

    open spec fn shl_spec(self, rhs: short3) -> short3 {
        short3(shl_i16(self, rhs.0), shl_i16(self, rhs.1), shl_i16(self, rhs.2))
    }
}

impl core::ops::Shr for short3 {
    type Output = short3;

    /// Every lane shifted right by the lane of `rhs`, which is below 16.
    fn shr(self, rhs: short3) -> (r: short3) {
        short3(shr_i16(self.0, rhs.0), shr_i16(self.1, rhs.1), shr_i16(self.2, rhs.2))
    }
}

impl ShrSpecImpl for short3 {
    open spec fn obeys_shr_spec() -> bool {
        true
    }

    open spec fn shr_req(self, rhs: short3) -> bool {
        0 <= rhs.0 < 16 && 0 <= rhs.1 < 16 && 0 <= rhs.2 < 16
    }

    open spec fn shr_spec(self, rhs: short3) -> short3 {
        short3(shr_i16(self.0, rhs.0), shr_i16(self.1, rhs.1), shr_i16(self.2, rhs.2))
    }
}

impl core::ops::Shr<i16> for short3 {
    type Output = short3;

    /// Every lane shifted right by `rhs`, which is below 16.
    fn shr(self, rhs: i16) -> (r: short3) {
        short3(shr_i16(self.0, rhs), shr_i16(self.1, rhs), shr_i16(self.2, rhs))
    }
}

impl ShrSpecImpl<i16> for short3 {
    open spec fn obeys_shr_spec() -> bool {
        true
    }

    open spec fn shr_req(self, rhs: i16) -> bool {
        0 <= rhs < 16
    }

    open spec fn shr_spec(self, rhs: i16) -> short3 {
        short3(shr_i16(self.0, rhs), shr_i16(self.1, rhs), shr_i16(self.2, rhs))
    }
}

impl core::ops::Shr<short3> for i16 {
    type Output = short3;

    /// The scalar shifted right by every lane of `rhs`, each of which is below 16.
    fn shr(self, rhs: short3) -> (r: short3) {
        short3(shr_i16(self, rhs.0), shr_i16(self, rhs.1), shr_i16(self, rhs.2))
    }
}

impl ShrSpecImpl<short3> for i16 {
    open spec fn obeys_shr_spec() -> bool {
        true
    }

    open spec fn shr_req(self, rhs: short3) -> bool {
        0 <= rhs.0 < 16 && 0 <= rhs.1 < 16 && 0 <= rhs.2 < 16
    }

    open spec fn shr_spec(self, rhs: short3) -> short3 {
        short3(shr_i16(self, rhs.0), shr_i16(self, rhs.1), shr_i16(self, rhs.2))
    }
}

impl core::ops::Rem for short3 {
    type Output = short3;

    /// The lane-wise remainder `self - (self / rhs) * rhs`. No lane of the divisor is zero.
    fn rem(self, rhs: short3) -> (r: short3) {
        short3(rem_i16(self.0, rhs.0), rem_i16(self.1, rhs.1), rem_i16(self.2, rhs.2))
    }
}

impl RemSpecImpl for short3 {
    open spec fn obeys_rem_spec() -> bool {
        true
    }

    open spec fn rem_req(self, rhs: short3) -> bool {
        rhs.0 != 0 && rhs.1 != 0 && rhs.2 != 0
    }

    open spec fn rem_spec(self, rhs: short3) -> short3 {
        short3(rem_i16(self.0, rhs.0), rem_i16(self.1, rhs.1), rem_i16(self.2, rhs.2))
    }
}

impl core::ops::Neg for short3 {
    type Output = short3;

    /// Zero minus every lane, wrapping around.
    fn neg(self) -> (r: short3) {
        short3(neg_i16(self.0), neg_i16(self.1), neg_i16(self.2))
    }
}

impl NegSpecImpl for short3 {
    open spec fn obeys_neg_spec() -> bool {
        true
    }

    open spec fn neg_req(self) -> bool {
        true
    }

    open spec fn neg_spec(self) -> short3 {
        short3(neg_i16(self.0), neg_i16(self.1), neg_i16(self.2))
    }
}

impl core::ops::Not for short3 {
    type Output = short3;

    /// Every lane with every bit flipped.
    fn not(self) -> (r: short3) {
        short3(not_i16(self.0), not_i16(self.1), not_i16(self.2))
    }
}

impl NotSpecImpl for short3 {
    open spec fn obeys_not_spec() -> bool {
        true
    }

    open spec fn not_req(self) -> bool {
        true
    }

    open spec fn not_spec(self) -> short3 {
        short3(not_i16(self.0), not_i16(self.1), not_i16(self.2))
    }
}

impl core::convert::From<isize> for short3 {
    /// The vector with `x`, wrapped to `i16`, in every lane.
    fn from(x: isize) -> (r: short3) {
        let v = isize_to_i16(x);
        short3(v, v, v)
    }
}

impl FromSpecImpl<isize> for short3 {
    open spec fn obeys_from_spec() -> bool {
        true
    }

    open spec fn from_spec(x: isize) -> short3 {
        short3(isize_to_i16(x), isize_to_i16(x), isize_to_i16(x))
    }
}

impl core::ops::Index<u32> for short3 {
    type Output = i16;

    /// Lane `i`, which is below 3.
    fn index(&self, i: u32) -> (r: &i16)
        ensures
            *r == self.lane(i as int),
    {
        match i {
            0 => &self.0,
            1 => &self.1,
            _ => &self.2,
        }
    }
}

impl vstd::std_specs::core::IndexSpecImpl<u32> for short3 {
    open spec fn index_req(&self, i: &u32) -> bool {
        *i < 3
    }
}

impl short3 {
    /// Lane `i`, counted from zero.
    pub open spec fn lane(self, i: int) -> i16
        recommends
            0 <= i < 3,
    {
        if i == 0 {
            self.0
        } else if i == 1 {
            self.1
        } else {
            self.2
        }
    }

    /// The vector of type `short3` with the bits of `x`, a value of a type that has as many bits,
    /// which is one with images of type `uchar8`.
    pub fn bitcast<U: Bitcast<Image = uchar8>>(x: U) -> (r: short3)
        ensures
            r == spec_bitcast::<U, short3>(x),
    {
        bitcast(x)
    }

    /// The vector with `x` in every lane.
    pub fn broadcast(x: i16) -> (r: short3)
        ensures
            r == short3(x, x, x),
    {
        short3(x, x, x)
    }

    /// Lane `i`, which is below 3.
    pub fn extract(self, i: u32) -> (r: i16)
        requires
            i < 3,
        ensures
            r == self.lane(i as int),
    {
        match i {
            0 => self.0,
            1 => self.1,
            _ => self.2,
        }
    }

    /// The vector with `x` in lane `i`, which is below 3, and the other lanes unchanged.
    pub fn replace(self, i: u32, x: i16) -> (r: short3)
        requires
            i < 3,
        ensures
            forall|j: int| 0 <= j < 3 ==> #[trigger] r.lane(j) == (if j == i {
                x
            } else {
                self.lane(j)
            }),
    {
        match i {
            0 => short3(x, self.1, self.2),
            1 => short3(self.0, x, self.2),
            _ => short3(self.0, self.1, x),
        }
    }

    /// The mask that is all ones where the lanes of `x` and `y` are equal, and zero elsewhere.
    pub fn eq(x: short3, y: short3) -> (r: short3)
        ensures
            r == short3(eq_i16(x.0, y.0), eq_i16(x.1, y.1), eq_i16(x.2, y.2)),
    {
        short3(eq_i16(x.0, y.0), eq_i16(x.1, y.1), eq_i16(x.2, y.2))
    }

    /// The mask that is all ones where the lanes of `x` and `y` differ, and zero elsewhere.
    pub fn ne(x: short3, y: short3) -> (r: short3)
        ensures
            r == short3(ne_i16(x.0, y.0), ne_i16(x.1, y.1), ne_i16(x.2, y.2)),
    {
        short3(ne_i16(x.0, y.0), ne_i16(x.1, y.1), ne_i16(x.2, y.2))
    }

    /// The mask that is all ones where the lane of `x` is less than that of `y`, and zero
    /// elsewhere.
    pub fn lt(x: short3, y: short3) -> (r: short3)
        ensures
            r == short3(lt_i16(x.0, y.0), lt_i16(x.1, y.1), lt_i16(x.2, y.2)),
    {
        short3(lt_i16(x.0, y.0), lt_i16(x.1, y.1), lt_i16(x.2, y.2))
    }

    /// The mask that is all ones where the lane of `x` is at most that of `y`, and zero elsewhere.
    pub fn le(x: short3, y: short3) -> (r: short3)
        ensures
            r == short3(le_i16(x.0, y.0), le_i16(x.1, y.1), le_i16(x.2, y.2)),
    {
        short3(le_i16(x.0, y.0), le_i16(x.1, y.1), le_i16(x.2, y.2))
    }

    /// The mask that is all ones where the lane of `x` is greater than that of `y`, and zero
    /// elsewhere.
    pub fn gt(x: short3, y: short3) -> (r: short3)
        ensures
            r == short3(gt_i16(x.0, y.0), gt_i16(x.1, y.1), gt_i16(x.2, y.2)),
    {
        short3(gt_i16(x.0, y.0), gt_i16(x.1, y.1), gt_i16(x.2, y.2))
    }

    /// The mask that is all ones where the lane of `x` is at least that of `y`, and zero elsewhere.
    pub fn ge(x: short3, y: short3) -> (r: short3)
        ensures
            r == short3(ge_i16(x.0, y.0), ge_i16(x.1, y.1), ge_i16(x.2, y.2)),
    {
        short3(ge_i16(x.0, y.0), ge_i16(x.1, y.1), ge_i16(x.2, y.2))
    }

    /// `x * y + z` lane by lane, wrapping around.
    pub fn madd(x: short3, y: short3, z: short3) -> (r: short3)
        ensures
            r == short3(madd_i16(x.0, y.0, z.0), madd_i16(x.1, y.1, z.1), madd_i16(x.2, y.2, z.2)),
    {
        short3(madd_i16(x.0, y.0, z.0), madd_i16(x.1, y.1, z.1), madd_i16(x.2, y.2, z.2))
    }

    /// The magnitude of every lane; that of `i16::MIN` wraps around to `i16::MIN`.
    pub fn abs(x: short3) -> (r: short3)
        ensures
            r == x.spec_abs(),
    {
        short3(abs_i16(x.0), abs_i16(x.1), abs_i16(x.2))
    }

    /// The greater lane of `x` and `y`, lane by lane.
    pub fn max(x: short3, y: short3) -> (r: short3)
        ensures
            r == x.spec_max(y),
    {
        short3(max_i16(x.0, y.0), max_i16(x.1, y.1), max_i16(x.2, y.2))
    }

    /// The smaller lane of `x` and `y`, lane by lane.
    pub fn min(x: short3, y: short3) -> (r: short3)
        ensures
            r == x.spec_min(y),
    {
        short3(min_i16(x.0, y.0), min_i16(x.1, y.1), min_i16(x.2, y.2))
    }

    /// Every lane of `x` raised to at least the lane of `lo`, then lowered to at most that of `hi`.
    pub fn clamp(x: short3, lo: short3, hi: short3) -> (r: short3)
        ensures
            r == x.spec_clamp(lo, hi),
    {
        short3(clamp_i16(x.0, lo.0, hi.0), clamp_i16(x.1, lo.1, hi.1), clamp_i16(x.2, lo.2, hi.2))
    }

    /// The sum of the lanes, wrapping around.
    pub fn reduce_add(x: short3) -> (r: i16)
        ensures
            r == x.spec_reduce_add(),
    {
        let s = add_i16(x.0, x.1);
        let ghost mut t: int = x.0 + x.1;
        proof {
            lemma_wrap_i16_sum(t, x.2 as int);
            t = t + x.2;
        }
        let s = add_i16(s, x.2);
        s
    }

    /// The smallest lane.
    pub fn reduce_min(x: short3) -> (r: i16)
        ensures
            r == x.spec_reduce_min(),
            r <= x.0 && r <= x.1 && r <= x.2,
            r == x.0 || r == x.1 || r == x.2,
    {
        let s = min_i16(x.0, x.1);
        let s = min_i16(s, x.2);
        s
    }

    /// The greatest lane.
    pub fn reduce_max(x: short3) -> (r: i16)
        ensures
            r == x.spec_reduce_max(),
            r >= x.0 && r >= x.1 && r >= x.2,
            r == x.0 || r == x.1 || r == x.2,
    {
        let s = max_i16(x.0, x.1);
        let s = max_i16(s, x.2);
        s
    }

    /// Every lane as `i8`: its low 8 bits, read as `i8`.
    pub fn to_char(x: short3) -> (r: char3)
        ensures
            r == char3(i16_to_i8(x.0), i16_to_i8(x.1), i16_to_i8(x.2)),
    {
        char3(i16_to_i8(x.0), i16_to_i8(x.1), i16_to_i8(x.2))
    }

    /// Every lane as `i8`, saturating: a lane outside the range of `i8` gives the nearest bound.
    pub fn to_char_sat(x: short3) -> (r: char3)
        ensures
            r == x.spec_to_char_sat(),
    {
        char3(i16_to_i8_sat(x.0), i16_to_i8_sat(x.1), i16_to_i8_sat(x.2))
    }

    /// Every lane as `u8`: its low 8 bits, read as `u8`.
    pub fn to_uchar(x: short3) -> (r: uchar3)
        ensures
            r == uchar3(i16_to_u8(x.0), i16_to_u8(x.1), i16_to_u8(x.2)),
    {
        uchar3(i16_to_u8(x.0), i16_to_u8(x.1), i16_to_u8(x.2))
    }

    /// Every lane as `u8`, saturating: a lane outside the range of `u8` gives the nearest bound.
    pub fn to_uchar_sat(x: short3) -> (r: uchar3)
        ensures
            r == x.spec_to_uchar_sat(),
    {
        uchar3(i16_to_u8_sat(x.0), i16_to_u8_sat(x.1), i16_to_u8_sat(x.2))
    }

    /// The vector itself: its lanes are `i16` already.
    pub fn to_short(x: short3) -> (r: short3)
        ensures
            r == x,
    {
        x
    }

    /// The vector itself: its lanes are `i16` already, and nothing saturates.
    pub fn to_short_sat(x: short3) -> (r: short3)
        ensures
            r == x.spec_to_short_sat(),
    {
        x
    }

    /// Every lane as `u16`: the same bits, read as `u16`.
    pub fn to_ushort(x: short3) -> (r: ushort3)
        ensures
            r == ushort3(i16_to_u16(x.0), i16_to_u16(x.1), i16_to_u16(x.2)),
    {
        ushort3(i16_to_u16(x.0), i16_to_u16(x.1), i16_to_u16(x.2))
    }

    /// Every lane as `u16`, saturating: a lane outside the range of `u16` gives the nearest bound.
    pub fn to_ushort_sat(x: short3) -> (r: ushort3)
        ensures
            r == x.spec_to_ushort_sat(),
    {
        ushort3(i16_to_u16_sat(x.0), i16_to_u16_sat(x.1), i16_to_u16_sat(x.2))
    }

    /// Every lane as `i32`, which holds every `i16`.
    pub fn to_int(x: short3) -> (r: int3)
        ensures
            r == int3(i16_to_i32(x.0), i16_to_i32(x.1), i16_to_i32(x.2)),
    {
        int3(i16_to_i32(x.0), i16_to_i32(x.1), i16_to_i32(x.2))
    }

    /// Every lane as `i32`, saturating; nothing saturates, since `i32` holds every `i16`.
    pub fn to_int_sat(x: short3) -> (r: int3)
        ensures
            r == x.spec_to_int_sat(),
    {
        int3(i16_to_i32_sat(x.0), i16_to_i32_sat(x.1), i16_to_i32_sat(x.2))
    }

    /// Every lane as `u32`, sign-extended: a negative lane wraps around.
    pub fn to_uint(x: short3) -> (r: uint3)
        ensures
            r == uint3(i16_to_u32(x.0), i16_to_u32(x.1), i16_to_u32(x.2)),
    {
        uint3(i16_to_u32(x.0), i16_to_u32(x.1), i16_to_u32(x.2))
    }

    /// Every lane as `u32`, saturating: a lane outside the range of `u32` gives the nearest bound.
    pub fn to_uint_sat(x: short3) -> (r: uint3)
        ensures
            r == x.spec_to_uint_sat(),
    {
        uint3(i16_to_u32_sat(x.0), i16_to_u32_sat(x.1), i16_to_u32_sat(x.2))
    }

    /// Every lane as `i64`, which holds every `i16`.
    pub fn to_long(x: short3) -> (r: long3)
        ensures
            r == long3(i16_to_i64(x.0), i16_to_i64(x.1), i16_to_i64(x.2)),
    {
        long3(i16_to_i64(x.0), i16_to_i64(x.1), i16_to_i64(x.2))
    }

    /// Every lane as `i64`, saturating; nothing saturates, since `i64` holds every `i16`.
    pub fn to_long_sat(x: short3) -> (r: long3)
        ensures
            r == x.spec_to_long_sat(),
    {
        long3(i16_to_i64_sat(x.0), i16_to_i64_sat(x.1), i16_to_i64_sat(x.2))
    }

    /// Every lane as `u64`, sign-extended: a negative lane wraps around.
    pub fn to_ulong(x: short3) -> (r: ulong3)
        ensures
            r == ulong3(i16_to_u64(x.0), i16_to_u64(x.1), i16_to_u64(x.2)),
    {
        ulong3(i16_to_u64(x.0), i16_to_u64(x.1), i16_to_u64(x.2))
    }

    /// Every lane as `u64`, saturating: a lane outside the range of `u64` gives the nearest bound.
    pub fn to_ulong_sat(x: short3) -> (r: ulong3)
        ensures
            r == x.spec_to_ulong_sat(),
    {
        ulong3(i16_to_u64_sat(x.0), i16_to_u64_sat(x.1), i16_to_u64_sat(x.2))
    }

    /// The low half: lanes 0 and 1.
    pub fn lo(self) -> (r: short2)
        ensures
            r == short2(self.0, self.1),
    {
        short2(self.0, self.1)
    }

    /// The high half: lane 2, then a zero in place of the lane that is not there.
    pub fn hi(self) -> (r: short2)
        ensures
            r == short2(self.2, 0),
    {
        short2(self.2, 0)
    }

    /// The odd lanes: lane 1, then a zero in place of the lane that is not there.
    pub fn odd(self) -> (r: short2)
        ensures
            r == short2(self.1, 0),
    {
        short2(self.1, 0)
    }

    /// The even lanes: lanes 0 and 2.
    pub fn even(self) -> (r: short2)
        ensures
            r == short2(self.0, self.2),
    {
        short2(self.0, self.2)
    }

    /// The vector of `f` applied to every lane. `f` accepts every lane.
    pub fn map_unary<F: Fn(i16) -> i16>(self, f: F) -> (r: short3)
        requires
            call_requires(f, (self.0,)),
            call_requires(f, (self.1,)),
            call_requires(f, (self.2,)),
        ensures
            call_ensures(f, (self.0,), r.0),
            call_ensures(f, (self.1,), r.1),
            call_ensures(f, (self.2,), r.2),
    {
        short3(f(self.0), f(self.1), f(self.2))
    }

    /// The vector of `f` applied to the lanes of the two vectors, lane by lane. `f` accepts every
    /// such pair of lanes.
    pub fn map_binary<F: Fn(i16, i16) -> i16>(self, other: short3, f: F) -> (r: short3)
        requires
            call_requires(f, (self.0, other.0)),
            call_requires(f, (self.1, other.1)),
            call_requires(f, (self.2, other.2)),
        ensures
            call_ensures(f, (self.0, other.0), r.0),
            call_ensures(f, (self.1, other.1), r.1),
            call_ensures(f, (self.2, other.2), r.2),
    {
        short3(f(self.0, other.0), f(self.1, other.1), f(self.2, other.2))
    }

    /// The lanes folded by `f`, from lane 0 upward: `f` is applied to lane 1 and lane 0, then to
    /// each further lane and what the lanes below it gave. `f` accepts every pair of scalars.
    pub fn reduce<F: Fn(i16, i16) -> i16>(self, f: F) -> (r: i16)
        requires
            forall|a: i16, b: i16| call_requires(f, (a, b)),
        ensures
            exists|s1: i16|
                call_ensures(f, (self.1, self.0), s1)
                    && call_ensures(f, (self.2, s1), r),
    {
        let s1 = f(self.1, self.0);
        let s2 = f(self.2, s1);
        s2
    }

    /// Addition commutes.
    pub proof fn lemma_add_commutes(x: short3, y: short3)
        ensures
            AddSpec::add_spec(x, y) == AddSpec::add_spec(y, x),
    {
        lemma_arith_i16(x.0, y.0, 0);
        lemma_arith_i16(x.1, y.1, 0);
        lemma_arith_i16(x.2, y.2, 0);
    }

    /// Addition associates, wrap-around or not.
    pub proof fn lemma_add_associates(x: short3, y: short3, z: short3)
        ensures
            AddSpec::add_spec(AddSpec::add_spec(x, y), z)
                == AddSpec::add_spec(x, AddSpec::add_spec(y, z)),
    {
        lemma_arith_i16(x.0, y.0, z.0);
        lemma_arith_i16(x.1, y.1, z.1);
        lemma_arith_i16(x.2, y.2, z.2);
    }

    /// Swapping the operands of a subtraction negates the difference.
    pub proof fn lemma_sub_swaps(x: short3, y: short3)
        ensures
            SubSpec::sub_spec(x, y) == NegSpec::neg_spec(SubSpec::sub_spec(y, x)),
    {
        lemma_arith_i16(x.0, y.0, 0);
        lemma_arith_i16(x.1, y.1, 0);
        lemma_arith_i16(x.2, y.2, 0);
    }

    /// The magnitude of a magnitude is that magnitude, and the magnitude of a lane other than
    /// `i16::MIN` is not negative.
    pub proof fn lemma_abs(x: short3)
        ensures
            x.spec_abs().spec_abs() == x.spec_abs(),
            forall|i: int|
                0 <= i < 3 && x.lane(i) != i16::MIN ==> #[trigger] x.spec_abs().lane(i) >= 0,
            forall|i: int|
                0 <= i < 3 && x.lane(i) == i16::MIN ==> #[trigger] x.spec_abs().lane(i) == i16::MIN,
    {
        lemma_abs_i16(x.0);
        lemma_abs_i16(x.1);
        lemma_abs_i16(x.2);
    }

    /// Flipping every bit of a lane gives minus one minus the lane.
    pub proof fn lemma_not(x: short3)
        ensures
            forall|i: int| 0 <= i < 3 ==> #[trigger] NotSpec::not_spec(x).lane(i) == -1 - x.lane(i),
    {
        lemma_not_i16(x.0);
        lemma_not_i16(x.1);
        lemma_not_i16(x.2);
    }

    /// The lanes of a vector with `k` in every lane add up to 3 times `k`, wrapped around.
    pub proof fn lemma_reduce_add_broadcast(k: i16)
        ensures
            short3(k, k, k).spec_reduce_add() == wrap_i16(3 * k),
    {
    }

    /// Saturating conversion to `i8` gives, lane by lane, the lane itself where `i8` holds it and
    /// the nearest bound of `i8` where it does not.
    pub proof fn lemma_to_char_sat(x: short3)
        ensures
            forall|i: int|
                0 <= i < 3 ==> #[trigger] x.spec_to_char_sat().lane(i) == sat_i8(x.lane(i) as int),
    {
    }

    /// Saturating conversion to `u8` gives, lane by lane, the lane itself where `u8` holds it and
    /// the nearest bound of `u8` where it does not.
    pub proof fn lemma_to_uchar_sat(x: short3)
        ensures
            forall|i: int|
                0 <= i < 3 ==> #[trigger] x.spec_to_uchar_sat().lane(i) == sat_u8(x.lane(i) as int),
    {
    }

    /// Saturating conversion to `u16` gives, lane by lane, the lane itself where `u16` holds it and
    /// the nearest bound of `u16` where it does not.
    pub proof fn lemma_to_ushort_sat(x: short3)
        ensures
            forall|i: int|
                0 <= i < 3 ==>
                    #[trigger] x.spec_to_ushort_sat().lane(i) == sat_u16(x.lane(i) as int),
    {
    }

    /// Saturating conversion to `i32` gives every lane unchanged: `i32` holds every `i16`.
    pub proof fn lemma_to_int_sat(x: short3)
        ensures
            forall|i: int|
                0 <= i < 3 ==> #[trigger] x.spec_to_int_sat().lane(i) == sat_i32(x.lane(i) as int),
            forall|i: int| 0 <= i < 3 ==> #[trigger] x.spec_to_int_sat().lane(i) == x.lane(i),
    {
    }

    /// Saturating conversion to `u32` gives, lane by lane, the lane itself where `u32` holds it and
    /// the nearest bound of `u32` where it does not.
    pub proof fn lemma_to_uint_sat(x: short3)
        ensures
            forall|i: int|
                0 <= i < 3 ==> #[trigger] x.spec_to_uint_sat().lane(i) == sat_u32(x.lane(i) as int),
    {
    }

    /// Saturating conversion to `i64` gives every lane unchanged: `i64` holds every `i16`.
    pub proof fn lemma_to_long_sat(x: short3)
        ensures
            forall|i: int|
                0 <= i < 3 ==> #[trigger] x.spec_to_long_sat().lane(i) == sat_i64(x.lane(i) as int),
            forall|i: int| 0 <= i < 3 ==> #[trigger] x.spec_to_long_sat().lane(i) == x.lane(i),
    {
    }

    /// Saturating conversion to `u64` gives, lane by lane, the lane itself where `u64` holds it and
    /// the nearest bound of `u64` where it does not.
    pub proof fn lemma_to_ulong_sat(x: short3)
        ensures
            forall|i: int|
                0 <= i < 3 ==>
                    #[trigger] x.spec_to_ulong_sat().lane(i) == sat_u64(x.lane(i) as int),
    {
    }
}

impl Vector for short3 {
    type Scalar = i16;

    type Boolean = short3;

    type CharVector = char3;

    type ShortVector = short3;

    type IntVector = int3;

    type LongVector = long3;

    type UCharVector = uchar3;

    type UShortVector = ushort3;

    type UIntVector = uint3;

    type ULongVector = ulong3;

    type FloatVector = float3;

    type DoubleVector = double3;

    open spec fn spec_abs(self) -> short3 {
        short3(abs_i16(self.0), abs_i16(self.1), abs_i16(self.2))
    }

    open spec fn spec_max(self, other: short3) -> short3 {
        short3(max_i16(self.0, other.0), max_i16(self.1, other.1), max_i16(self.2, other.2))
    }

    open spec fn spec_min(self, other: short3) -> short3 {
        short3(min_i16(self.0, other.0), min_i16(self.1, other.1), min_i16(self.2, other.2))
    }

    open spec fn spec_clamp(self, lo: short3, hi: short3) -> short3 {
        short3(
            clamp_i16(self.0, lo.0, hi.0), clamp_i16(self.1, lo.1, hi.1),
            clamp_i16(self.2, lo.2, hi.2),
        )
    }

    open spec fn spec_reduce_add(self) -> i16 {
        wrap_i16(self.0 + self.1 + self.2)
    }

    open spec fn spec_reduce_min(self) -> i16 {
        let s = min_i16(self.0, self.1);
        let s = min_i16(s, self.2);
        s
    }

    open spec fn spec_reduce_max(self) -> i16 {
        let s = max_i16(self.0, self.1);
        let s = max_i16(s, self.2);
        s
    }

    open spec fn spec_to_char_sat(self) -> char3 {
        char3(i16_to_i8_sat(self.0), i16_to_i8_sat(self.1), i16_to_i8_sat(self.2))
    }

    open spec fn spec_to_uchar_sat(self) -> uchar3 {
        uchar3(i16_to_u8_sat(self.0), i16_to_u8_sat(self.1), i16_to_u8_sat(self.2))
    }

    open spec fn spec_to_short_sat(self) -> short3 {
        self
    }

    open spec fn spec_to_ushort_sat(self) -> ushort3 {
        ushort3(i16_to_u16_sat(self.0), i16_to_u16_sat(self.1), i16_to_u16_sat(self.2))
    }

    open spec fn spec_to_int_sat(self) -> int3 {
        int3(i16_to_i32_sat(self.0), i16_to_i32_sat(self.1), i16_to_i32_sat(self.2))
    }

    open spec fn spec_to_uint_sat(self) -> uint3 {
        uint3(i16_to_u32_sat(self.0), i16_to_u32_sat(self.1), i16_to_u32_sat(self.2))
    }

    open spec fn spec_to_long_sat(self) -> long3 {
        long3(i16_to_i64_sat(self.0), i16_to_i64_sat(self.1), i16_to_i64_sat(self.2))
    }

    open spec fn spec_to_ulong_sat(self) -> ulong3 {
        ulong3(i16_to_u64_sat(self.0), i16_to_u64_sat(self.1), i16_to_u64_sat(self.2))
    }

    fn abs(self) -> (r: short3) {
        short3::abs(self)
    }

    fn max(self, other: short3) -> (r: short3) {
        short3::max(self, other)
    }

    fn min(self, other: short3) -> (r: short3) {
        short3::min(self, other)
    }

    fn clamp(self, lo: short3, hi: short3) -> (r: short3) {
        short3::clamp(self, lo, hi)
    }

    fn reduce_add(self) -> (r: i16) {
        short3::reduce_add(self)
    }

    fn reduce_min(self) -> (r: i16) {
        short3::reduce_min(self)
    }

    fn reduce_max(self) -> (r: i16) {
        short3::reduce_max(self)
    }

    fn to_char_sat(self) -> (r: char3) {
        short3::to_char_sat(self)
    }

    fn to_uchar_sat(self) -> (r: uchar3) {
        short3::to_uchar_sat(self)
    }

    fn to_short_sat(self) -> (r: short3) {
        short3::to_short_sat(self)
    }

    fn to_ushort_sat(self) -> (r: ushort3) {
        short3::to_ushort_sat(self)
    }

    fn to_int_sat(self) -> (r: int3) {
        short3::to_int_sat(self)
    }

    fn to_uint_sat(self) -> (r: uint3) {
        short3::to_uint_sat(self)
    }

    fn to_long_sat(self) -> (r: long3) {
        short3::to_long_sat(self)
    }

    fn to_ulong_sat(self) -> (r: ulong3) {
        short3::to_ulong_sat(self)
    }
}

impl Integer for short3 {
    open spec fn spec_reduce_and(self) -> i16 {
        self.0 & self.1 & self.2
    }

    open spec fn spec_reduce_or(self) -> i16 {
        self.0 | self.1 | self.2
    }

    open spec fn spec_reduce_xor(self) -> i16 {
        self.0 ^ self.1 ^ self.2
    }

    open spec fn spec_all(self) -> bool {
        truth_i16(self.0) && truth_i16(self.1) && truth_i16(self.2)
    }

    open spec fn spec_any(self) -> bool {
        truth_i16(self.0) || truth_i16(self.1) || truth_i16(self.2)
    }

    fn reduce_and(self) -> (r: i16) {
        self.0 & self.1 & self.2
    }

    fn reduce_or(self) -> (r: i16) {
        self.0 | self.1 | self.2
    }

    fn reduce_xor(self) -> (r: i16) {
        self.0 ^ self.1 ^ self.2
    }

    fn all(self) -> (r: bool) {
        proof {
            let s = self.0 & self.1;
            lemma_bits_i16(self.0, self.1, 0, 0);
            lemma_bits_i16(s, self.2, 0, 0);
        }
        truth_i16(self.reduce_and())
    }

    fn any(self) -> (r: bool) {
        proof {
            let s = self.0 | self.1;
            lemma_bits_i16(self.0, self.1, 0, 0);
            lemma_bits_i16(s, self.2, 0, 0);
        }
        truth_i16(self.reduce_or())
    }
}

impl Dot for short3 {
    type DotProduct = i16;

    open spec fn spec_dot(self, other: short3) -> i16 {
        wrap_i16(self.0 * other.0 + self.1 * other.1 + self.2 * other.2)
    }

    fn dot(self, other: short3) -> (r: i16) {
        let s = mul_i16(self.0, other.0);
        let ghost mut t: int = self.0 * other.0;
        proof {
            lemma_wrap_i16_sum(t, self.1 * other.1);
            t = t + self.1 * other.1;
        }
        let s = madd_i16(self.1, other.1, s);
        proof {
            lemma_wrap_i16_sum(t, self.2 * other.2);
            t = t + self.2 * other.2;
        }
        let s = madd_i16(self.2, other.2, s);
        s
    }
}

impl Select<short3> for short3 {
    open spec fn spec_select(self, a: short3, b: short3) -> short3 {
        short3(
            select_i16(self.0, a.0, b.0), select_i16(self.1, a.1, b.1),
            select_i16(self.2, a.2, b.2),
        )
    }

    open spec fn spec_bitselect(self, a: short3, b: short3) -> short3 {
        short3(
            bitselect_i16(self.0, a.0, b.0), bitselect_i16(self.1, a.1, b.1),
            bitselect_i16(self.2, a.2, b.2),
        )
    }

    fn select(self, a: short3, b: short3) -> (r: short3) {
        short3(
            select_i16(self.0, a.0, b.0), select_i16(self.1, a.1, b.1),
            select_i16(self.2, a.2, b.2),
        )
    }

    fn bitselect(self, a: short3, b: short3) -> (r: short3) {
        short3(
            bitselect_i16(self.0, a.0, b.0), bitselect_i16(self.1, a.1, b.1),
            bitselect_i16(self.2, a.2, b.2),
        )
    }
}

impl Select<ushort3> for short3 {
    open spec fn spec_select(self, a: ushort3, b: ushort3) -> ushort3 {
        ushort3(
            select_u16(self.0, a.0, b.0), select_u16(self.1, a.1, b.1),
            select_u16(self.2, a.2, b.2),
        )
    }

    open spec fn spec_bitselect(self, a: ushort3, b: ushort3) -> ushort3 {
        ushort3(
            bitselect_u16(self.0, a.0, b.0), bitselect_u16(self.1, a.1, b.1),
            bitselect_u16(self.2, a.2, b.2),
        )
    }

    fn select(self, a: ushort3, b: ushort3) -> (r: ushort3) {
        ushort3(
            select_u16(self.0, a.0, b.0), select_u16(self.1, a.1, b.1),
            select_u16(self.2, a.2, b.2),
        )
    }

    fn bitselect(self, a: ushort3, b: ushort3) -> (r: ushort3) {
        ushort3(
            bitselect_u16(self.0, a.0, b.0), bitselect_u16(self.1, a.1, b.1),
            bitselect_u16(self.2, a.2, b.2),
        )
    }
}

impl short3 {
    /// A blend of two `short3` gives the lane of `b` where the mask is all ones and the lane of `a`
    /// where it is zero, whatever the other lanes hold.
    pub proof fn lemma_bitselect_short3(m: short3, a: short3, b: short3)
        ensures
            forall|i: int|
                0 <= i < 3 && m.lane(i) == -1 ==>
                    #[trigger] m.spec_bitselect(a, b).lane(i) == b.lane(i),
            forall|i: int|
                0 <= i < 3 && m.lane(i) == 0 ==>
                    #[trigger] m.spec_bitselect(a, b).lane(i) == a.lane(i),
    {
        lemma_blend_i16(m.0, a.0, b.0);
        lemma_blend_i16(m.1, a.1, b.1);
        lemma_blend_i16(m.2, a.2, b.2);
    }

    /// A choice between two `short3` goes by the sign bit of the mask alone: it gives the lane of
    /// `b` where the mask is negative and the lane of `a` elsewhere, as the blend does under the
    /// mask whose every lane has its sign spread over all its bits.
    pub proof fn lemma_select_short3(m: short3, a: short3, b: short3)
        ensures
            m.spec_select(a, b) == ShrSpec::shr_spec(m, 15i16).spec_bitselect(a, b),
            forall|i: int|
                0 <= i < 3 && m.lane(i) < 0 ==> #[trigger] m.spec_select(a, b).lane(i) == b.lane(i),
            forall|i: int|
                0 <= i < 3 && m.lane(i) >= 0 ==>
                    #[trigger] m.spec_select(a, b).lane(i) == a.lane(i),
    {
        lemma_blend_i16(m.0, a.0, b.0);
        lemma_blend_i16(m.1, a.1, b.1);
        lemma_blend_i16(m.2, a.2, b.2);
    }

    /// A blend of two `ushort3` gives the lane of `b` where the mask is all ones and the lane of
    /// `a` where it is zero, whatever the other lanes hold.
    pub proof fn lemma_bitselect_ushort3(m: short3, a: ushort3, b: ushort3)
        ensures
            forall|i: int|
                0 <= i < 3 && m.lane(i) == -1 ==>
                    #[trigger] m.spec_bitselect(a, b).lane(i) == b.lane(i),
            forall|i: int|
                0 <= i < 3 && m.lane(i) == 0 ==>
                    #[trigger] m.spec_bitselect(a, b).lane(i) == a.lane(i),
    {
        lemma_blend_u16(m.0, a.0, b.0);
        lemma_blend_u16(m.1, a.1, b.1);
        lemma_blend_u16(m.2, a.2, b.2);
    }

    /// A choice between two `ushort3` goes by the sign bit of the mask alone: it gives the lane of
    /// `b` where the mask is negative and the lane of `a` elsewhere, as the blend does under the
    /// mask whose every lane has its sign spread over all its bits.
    pub proof fn lemma_select_ushort3(m: short3, a: ushort3, b: ushort3)
        ensures
            m.spec_select(a, b) == ShrSpec::shr_spec(m, 15i16).spec_bitselect(a, b),
            forall|i: int|
                0 <= i < 3 && m.lane(i) < 0 ==> #[trigger] m.spec_select(a, b).lane(i) == b.lane(i),
            forall|i: int|
                0 <= i < 3 && m.lane(i) >= 0 ==>
                    #[trigger] m.spec_select(a, b).lane(i) == a.lane(i),
    {
        lemma_blend_u16(m.0, a.0, b.0);
        lemma_blend_u16(m.1, a.1, b.1);
        lemma_blend_u16(m.2, a.2, b.2);
    }
}

impl Bitcast for short3 {
    type Image = uchar8;

    open spec fn spec_image(self) -> uchar8 {
        let d0 = split_u16_u8(i16_to_u16(self.0));
        let d1 = split_u16_u8(i16_to_u16(self.1));
        let d2 = split_u16_u8(i16_to_u16(self.2));
        uchar8(d0.0, d0.1, d1.0, d1.1, d2.0, d2.1, 0, 0)
    }

    open spec fn spec_from_image(image: uchar8) -> short3 {
        short3(
            u16_to_i16(join_u8_u16(image.0, image.1)), u16_to_i16(join_u8_u16(image.2, image.3)),
            u16_to_i16(join_u8_u16(image.4, image.5)),
        )
    }

    open spec fn spec_fills() -> bool {
        false
    }

    fn image(self) -> (r: uchar8) {
        let d0 = split_u16_u8(i16_to_u16(self.0));
        let d1 = split_u16_u8(i16_to_u16(self.1));
        let d2 = split_u16_u8(i16_to_u16(self.2));
        uchar8(d0.0, d0.1, d1.0, d1.1, d2.0, d2.1, 0, 0)
    }

    fn from_image(image: uchar8) -> (r: short3) {
        short3(
            u16_to_i16(join_u8_u16(image.0, image.1)), u16_to_i16(join_u8_u16(image.2, image.3)),
            u16_to_i16(join_u8_u16(image.4, image.5)),
        )
    }

    proof fn lemma_image(x: short3) {
        lemma_recast_i16(x.0);
        lemma_regroup_u8_u16(i16_to_u16(x.0), 0, 0);
        lemma_recast_i16(x.1);
        lemma_regroup_u8_u16(i16_to_u16(x.1), 0, 0);
        lemma_recast_i16(x.2);
        lemma_regroup_u8_u16(i16_to_u16(x.2), 0, 0);
    }

    proof fn lemma_from_image(image: uchar8) {
    }
}

impl short3 {
    /// Read as `ushort3`, which has lanes of the same width, a vector keeps the bits of every lane;
    /// read as `short3` again, it is what it was.
    pub proof fn lemma_bitcast_ushort3(x: short3)
        ensures
            spec_bitcast::<short3, ushort3>(x)
                == ushort3(i16_to_u16(x.0), i16_to_u16(x.1), i16_to_u16(x.2)),
            spec_bitcast::<ushort3, short3>(spec_bitcast::<short3, ushort3>(x)) == x,
    {
        lemma_recast_i16(x.0);
        lemma_regroup_u8_u16(i16_to_u16(x.0), 0, 0);
        lemma_recast_i16(x.1);
        lemma_regroup_u8_u16(i16_to_u16(x.1), 0, 0);
        lemma_recast_i16(x.2);
        lemma_regroup_u8_u16(i16_to_u16(x.2), 0, 0);
    }
}

} // verus!
