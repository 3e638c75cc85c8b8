//! `long3`: three lanes of `i64`.

use crate::scalar::lane_i64::{
    abs_i64, add_i64, bitselect_i64, clamp_i64, div_i64, eq_i64, ge_i64, gt_i64, i64_to_i16,
    i64_to_i16_sat, i64_to_i32, i64_to_i32_sat, i64_to_i8, i64_to_i8_sat, i64_to_u16,
    i64_to_u16_sat, i64_to_u32, i64_to_u32_sat, i64_to_u64, i64_to_u64_sat, i64_to_u8,
    i64_to_u8_sat, isize_to_i64, le_i64, lemma_abs_i64, lemma_arith_i64, lemma_bits_i64,
    lemma_blend_i64, lemma_not_i64, lemma_recast_i64, lt_i64, madd_i64, max_i64, min_i64, mul_i64,
    ne_i64, neg_i64, not_i64, rem_i64, select_i64, shl_i64, shr_i64, sub_i64, truth_i64,
};
use crate::scalar::lane_u64::{bitselect_u64, lemma_blend_u64, select_u64, u64_to_i64};
use crate::scalar::model::{
    lemma_wrap_i64_sum, sat_i16, sat_i32, sat_i8, sat_u16, sat_u32, sat_u64, sat_u8, wrap_i64,
};
use crate::scalar::regroup::{join_u16_u64, lemma_regroup_u16_u64, split_u64_u16};
use crate::traits::{Bitcast, Dot, Integer, Select, Vector, bitcast, spec_bitcast};
use crate::vector::char3::char3;
use crate::vector::double3::double3;
use crate::vector::float3::float3;
use crate::vector::int3::int3;
use crate::vector::long2::long2;
use crate::vector::short3::short3;
use crate::vector::uchar3::uchar3;
use crate::vector::uint3::uint3;
use crate::vector::ulong3::ulong3;
use crate::vector::ushort16::ushort16;
use crate::vector::ushort3::ushort3;
use vstd::prelude::*;
use vstd::std_specs::convert::FromSpecImpl;
use vstd::std_specs::ops::{
    AddSpec, AddSpecImpl, BitAndSpecImpl, BitOrSpecImpl, BitXorSpecImpl, DivSpecImpl, MulSpecImpl,
    NegSpec, NegSpecImpl, NotSpec, NotSpecImpl, RemSpecImpl, ShlSpecImpl, ShrSpec, ShrSpecImpl,
    SubSpec, SubSpecImpl,
};

verus! {

/// Three lanes of `i64`.
#[derive(Copy, Clone, Debug, PartialEq, Eq, Structural)]
pub struct long3(pub i64, pub i64, pub i64);

impl core::ops::Add for long3 {
    type Output = long3;

    /// The lane-wise sum of the two vectors, wrapping around.
    fn add(self, rhs: long3) -> (r: long3) {
        long3(add_i64(self.0, rhs.0), add_i64(self.1, rhs.1), add_i64(self.2, rhs.2))
    }
}

impl AddSpecImpl for long3 {
    open spec fn obeys_add_spec() -> bool {
        true
    }

    open spec fn add_req(self, rhs: long3) -> bool {
        true
    }

    open spec fn add_spec(self, rhs: long3) -> long3 {
        long3(add_i64(self.0, rhs.0), add_i64(self.1, rhs.1), add_i64(self.2, rhs.2))
    }
}

impl core::ops::Add<i64> for long3 {
    type Output = long3;

    /// The sum of every lane and the scalar, wrapping around.
    fn add(self, rhs: i64) -> (r: long3) {
        long3(add_i64(self.0, rhs), add_i64(self.1, rhs), add_i64(self.2, rhs))
    }
}

impl AddSpecImpl<i64> for long3 {
    open spec fn obeys_add_spec() -> bool {
        true
    }

    open spec fn add_req(self, rhs: i64) -> bool {
        true
    }

    open spec fn add_spec(self, rhs: i64) -> long3 {
        long3(add_i64(self.0, rhs), add_i64(self.1, rhs), add_i64(self.2, rhs))
    }
}

impl core::ops::Add<long3> for i64 {
    type Output = long3;

    /// The sum of the scalar and every lane, wrapping around.
    fn add(self, rhs: long3) -> (r: long3) {
        long3(add_i64(self, rhs.0), add_i64(self, rhs.1), add_i64(self, rhs.2))
    }
}

impl AddSpecImpl<long3> for i64 {
    open spec fn obeys_add_spec() -> bool {
        true
    }

    open spec fn add_req(self, rhs: long3) -> bool {
        true
    }

    open spec fn add_spec(self, rhs: long3) -> long3 {
        long3(add_i64(self, rhs.0), add_i64(self, rhs.1), add_i64(self, rhs.2))
    }
}

impl core::ops::Sub for long3 {
    type Output = long3;

    /// The lane-wise difference of the two vectors, wrapping around.
    fn sub(self, rhs: long3) -> (r: long3) {
        long3(sub_i64(self.0, rhs.0), sub_i64(self.1, rhs.1), sub_i64(self.2, rhs.2))
    }
}

impl SubSpecImpl for long3 {
    open spec fn obeys_sub_spec() -> bool {
        true
    }

    open spec fn sub_req(self, rhs: long3) -> bool {
        true
    }

    open spec fn sub_spec(self, rhs: long3) -> long3 {
        long3(sub_i64(self.0, rhs.0), sub_i64(self.1, rhs.1), sub_i64(self.2, rhs.2))
    }
}

impl core::ops::Sub<i64> for long3 {
    type Output = long3;

    /// The difference of every lane and the scalar, wrapping around.
    fn sub(self, rhs: i64) -> (r: long3) {
        long3(sub_i64(self.0, rhs), sub_i64(self.1, rhs), sub_i64(self.2, rhs))
    }
}

impl SubSpecImpl<i64> for long3 {
    open spec fn obeys_sub_spec() -> bool {
        true
    }

    open spec fn sub_req(self, rhs: i64) -> bool {
        true
    }

    open spec fn sub_spec(self, rhs: i64) -> long3 {
        long3(sub_i64(self.0, rhs), sub_i64(self.1, rhs), sub_i64(self.2, rhs))
    }
}

impl core::ops::Sub<long3> for i64 {
    type Output = long3;

    /// The difference of the scalar and every lane, wrapping around.
    fn sub(self, rhs: long3) -> (r: long3) {
        long3(sub_i64(self, rhs.0), sub_i64(self, rhs.1), sub_i64(self, rhs.2))
    }
}

impl SubSpecImpl<long3> for i64 {
    open spec fn obeys_sub_spec() -> bool {
        true
    }

    open spec fn sub_req(self, rhs: long3) -> bool {
        true
    }

    open spec fn sub_spec(self, rhs: long3) -> long3 {
        long3(sub_i64(self, rhs.0), sub_i64(self, rhs.1), sub_i64(self, rhs.2))
    }
}

impl core::ops::Mul for long3 {
    type Output = long3;

    /// The lane-wise product of the two vectors, wrapping around.
    fn mul(self, rhs: long3) -> (r: long3) {
        long3(mul_i64(self.0, rhs.0), mul_i64(self.1, rhs.1), mul_i64(self.2, rhs.2))
    }
}

impl MulSpecImpl for long3 {
    open spec fn obeys_mul_spec() -> bool {
        true
    }

    open spec fn mul_req(self, rhs: long3) -> bool {
        true
    }

    open spec fn mul_spec(self, rhs: long3) -> long3 {
        long3(mul_i64(self.0, rhs.0), mul_i64(self.1, rhs.1), mul_i64(self.2, rhs.2))
    }
}

impl core::ops::Mul<i64> for long3 {
    type Output = long3;

    /// The product of every lane and the scalar, wrapping around.
    fn mul(self, rhs: i64) -> (r: long3) {
        long3(mul_i64(self.0, rhs), mul_i64(self.1, rhs), mul_i64(self.2, rhs))
    }
}

impl MulSpecImpl<i64> for long3 {
    open spec fn obeys_mul_spec() -> bool {
        true
    }

    open spec fn mul_req(self, rhs: i64) -> bool {
        true
    }

    open spec fn mul_spec(self, rhs: i64) -> long3 {
        long3(mul_i64(self.0, rhs), mul_i64(self.1, rhs), mul_i64(self.2, rhs))
    }
}

impl core::ops::Mul<long3> for i64 {
    type Output = long3;

    /// The product of the scalar and every lane, wrapping around.
    fn mul(self, rhs: long3) -> (r: long3) {
        long3(mul_i64(self, rhs.0), mul_i64(self, rhs.1), mul_i64(self, rhs.2))
    }
}

impl MulSpecImpl<long3> for i64 {
    open spec fn obeys_mul_spec() -> bool {
        true
    }

    open spec fn mul_req(self, rhs: long3) -> bool {
        true
    }

    open spec fn mul_spec(self, rhs: long3) -> long3 {
        long3(mul_i64(self, rhs.0), mul_i64(self, rhs.1), mul_i64(self, rhs.2))
    }
}

impl core::ops::Div for long3 {
    type Output = long3;

    /// The lane-wise quotient of the two vectors, rounded toward zero. No lane of the divisor is
    /// zero.
    fn div(self, rhs: long3) -> (r: long3) {
        long3(div_i64(self.0, rhs.0), div_i64(self.1, rhs.1), div_i64(self.2, rhs.2))
    }
}

impl DivSpecImpl for long3 {
    open spec fn obeys_div_spec() -> bool {
        true
    }

    open spec fn div_req(self, rhs: long3) -> bool {
        rhs.0 != 0 && rhs.1 != 0 && rhs.2 != 0
    }

    open spec fn div_spec(self, rhs: long3) -> long3 {
        long3(div_i64(self.0, rhs.0), div_i64(self.1, rhs.1), div_i64(self.2, rhs.2))
    }
}

impl core::ops::Div<i64> for long3 {
    type Output = long3;

    /// The quotient of every lane by the scalar, rounded toward zero. The scalar is not zero.
    fn div(self, rhs: i64) -> (r: long3) {
        long3(div_i64(self.0, rhs), div_i64(self.1, rhs), div_i64(self.2, rhs))
    }
}

impl DivSpecImpl<i64> for long3 {
    open spec fn obeys_div_spec() -> bool {
        true
    }

    open spec fn div_req(self, rhs: i64) -> bool {
        rhs != 0
    }

    open spec fn div_spec(self, rhs: i64) -> long3 {
        long3(div_i64(self.0, rhs), div_i64(self.1, rhs), div_i64(self.2, rhs))
    }
}

impl core::ops::Div<long3> for i64 {
    type Output = long3;

    /// The quotient of the scalar by every lane, rounded toward zero. No lane is zero.
    fn div(self, rhs: long3) -> (r: long3) {
        long3(div_i64(self, rhs.0), div_i64(self, rhs.1), div_i64(self, rhs.2))
    }
}

impl DivSpecImpl<long3> for i64 {
    open spec fn obeys_div_spec() -> bool {
        true
    }

    open spec fn div_req(self, rhs: long3) -> bool {
        rhs.0 != 0 && rhs.1 != 0 && rhs.2 != 0
    }

    open spec fn div_spec(self, rhs: long3) -> long3 {
        long3(div_i64(self, rhs.0), div_i64(self, rhs.1), div_i64(self, rhs.2))
    }
}

impl core::ops::BitAnd for long3 {
    type Output = long3;

    /// The lane-wise conjunction of the two vectors, bit by bit.
    fn bitand(self, rhs: long3) -> (r: long3) {
        long3(self.0 & rhs.0, self.1 & rhs.1, self.2 & rhs.2)
    }
}

impl BitAndSpecImpl for long3 {
    open spec fn obeys_bitand_spec() -> bool {
        true
    }

    open spec fn bitand_req(self, rhs: long3) -> bool {
        true
    }

    open spec fn bitand_spec(self, rhs: long3) -> long3 {
        long3(self.0 & rhs.0, self.1 & rhs.1, self.2 & rhs.2)
    }
}

impl core::ops::BitAnd<i64> for long3 {
    type Output = long3;

    /// The conjunction of every lane and the scalar, bit by bit.
    fn bitand(self, rhs: i64) -> (r: long3) {
        long3(self.0 & rhs, self.1 & rhs, self.2 & rhs)
    }
}

impl BitAndSpecImpl<i64> for long3 {
    open spec fn obeys_bitand_spec() -> bool {
        true
    }

    open spec fn bitand_req(self, rhs: i64) -> bool {
        true
    }

    open spec fn bitand_spec(self, rhs: i64) -> long3 {
        long3(self.0 & rhs, self.1 & rhs, self.2 & rhs)
    }
}

impl core::ops::BitAnd<long3> for i64 {
    type Output = long3;

    /// The conjunction of the scalar and every lane, bit by bit.
    fn bitand(self, rhs: long3) -> (r: long3) {
        long3(self & rhs.0, self & rhs.1, self & rhs.2)
    }
}

impl BitAndSpecImpl<long3> for i64 {
    open spec fn obeys_bitand_spec() -> bool {
        true
    }

    open spec fn bitand_req(self, rhs: long3) -> bool {
        true
    }

    open spec fn bitand_spec(self, rhs: long3) -> long3 {
        long3(self & rhs.0, self & rhs.1, self & rhs.2)
    }
}

impl core::ops::BitOr for long3 {
    type Output = long3;

    /// The lane-wise disjunction of the two vectors, bit by bit.
    fn bitor(self, rhs: long3) -> (r: long3) {
        long3(self.0 | rhs.0, self.1 | rhs.1, self.2 | rhs.2)
    }
}

impl BitOrSpecImpl for long3 {
    open spec fn obeys_bitor_spec() -> bool {
        true
    }

    open spec fn bitor_req(self, rhs: long3) -> bool {
        true
    }

    open spec fn bitor_spec(self, rhs: long3) -> long3 {
        long3(self.0 | rhs.0, self.1 | rhs.1, self.2 | rhs.2)
    }
}

impl core::ops::BitOr<i64> for long3 {
    type Output = long3;

    /// The disjunction of every lane and the scalar, bit by bit.
    fn bitor(self, rhs: i64) -> (r: long3) {
        long3(self.0 | rhs, self.1 | rhs, self.2 | rhs)
    }
}

impl BitOrSpecImpl<i64> for long3 {
    open spec fn obeys_bitor_spec() -> bool {
        true
    }

    open spec fn bitor_req(self, rhs: i64) -> bool {
        true
    }

    open spec fn bitor_spec(self, rhs: i64) -> long3 {
        long3(self.0 | rhs, self.1 | rhs, self.2 | rhs)
    }
}

impl core::ops::BitOr<long3> for i64 {
    type Output = long3;

    /// The disjunction of the scalar and every lane, bit by bit.
    fn bitor(self, rhs: long3) -> (r: long3) {
        long3(self | rhs.0, self | rhs.1, self | rhs.2)
    }
}

impl BitOrSpecImpl<long3> for i64 {
    open spec fn obeys_bitor_spec() -> bool {
        true
    }

    open spec fn bitor_req(self, rhs: long3) -> bool {
        true
    }

    open spec fn bitor_spec(self, rhs: long3) -> long3 {
        long3(self | rhs.0, self | rhs.1, self | rhs.2)
    }
}

impl core::ops::BitXor for long3 {
    type Output = long3;

    /// The lane-wise exclusive disjunction of the two vectors, bit by bit.
    fn bitxor(self, rhs: long3) -> (r: long3) {
        long3(self.0 ^ rhs.0, self.1 ^ rhs.1, self.2 ^ rhs.2)
    }
}

impl BitXorSpecImpl for long3 {
    open spec fn obeys_bitxor_spec() -> bool {
        true
    }

    open spec fn bitxor_req(self, rhs: long3) -> bool {
        true
    }

    open spec fn bitxor_spec(self, rhs: long3) -> long3 {
        long3(self.0 ^ rhs.0, self.1 ^ rhs.1, self.2 ^ rhs.2)
    }
}

impl core::ops::BitXor<i64> for long3 {
    type Output = long3;

    /// The exclusive disjunction of every lane and the scalar, bit by bit.
    fn bitxor(self, rhs: i64) -> (r: long3) {
        long3(self.0 ^ rhs, self.1 ^ rhs, self.2 ^ rhs)
    }
}

impl BitXorSpecImpl<i64> for long3 {
    open spec fn obeys_bitxor_spec() -> bool {
        true
    }

    open spec fn bitxor_req(self, rhs: i64) -> bool {
        true
    }

    open spec fn bitxor_spec(self, rhs: i64) -> long3 {
        long3(self.0 ^ rhs, self.1 ^ rhs, self.2 ^ rhs)
    }
}

impl core::ops::BitXor<long3> for i64 {
    type Output = long3;

    /// The exclusive disjunction of the scalar and every lane, bit by bit.
    fn bitxor(self, rhs: long3) -> (r: long3) {
        long3(self ^ rhs.0, self ^ rhs.1, self ^ rhs.2)
    }
}

impl BitXorSpecImpl<long3> for i64 {
    open spec fn obeys_bitxor_spec() -> bool {
        true
    }

    open spec fn bitxor_req(self, rhs: long3) -> bool {
        true
    }

    open spec fn bitxor_spec(self, rhs: long3) -> long3 {
        long3(self ^ rhs.0, self ^ rhs.1, self ^ rhs.2)
    }
}

impl core::ops::Shl for long3 {
    type Output = long3;

    /// Every lane shifted left by the lane of `rhs`, which is below 64.
    fn shl(self, rhs: long3) -> (r: long3) {
        long3(shl_i64(self.0, rhs.0), shl_i64(self.1, rhs.1), shl_i64(self.2, rhs.2))
    }
}

impl ShlSpecImpl for long3 {
    open spec fn obeys_shl_spec() -> bool {
        true
    }

    open spec fn shl_req(self, rhs: long3) -> bool {
        0 <= rhs.0 < 64 && 0 <= rhs.1 < 64 && 0 <= rhs.2 < 64
    }

    open spec fn shl_spec(self, rhs: long3) -> long3 {
        long3(shl_i64(self.0, rhs.0), shl_i64(self.1, rhs.1), shl_i64(self.2, rhs.2))
    }
}

impl core::ops::Shl<i64> for long3 {
    type Output = long3;

    /// Every lane shifted left by `rhs`, which is below 64.
    fn shl(self, rhs: i64) -> (r: long3) {
        long3(shl_i64(self.0, rhs), shl_i64(self.1, rhs), shl_i64(self.2, rhs))
    }
}

impl ShlSpecImpl<i64> for long3 {
    open spec fn obeys_shl_spec() -> bool {
        true
    }

    open spec fn shl_req(self, rhs: i64) -> bool {
        0 <= rhs < 64
    }

    open spec fn shl_spec(self, rhs: i64) -> long3 {
        long3(shl_i64(self.0, rhs), shl_i64(self.1, rhs), shl_i64(self.2, rhs))
    }
}

impl core::ops::Shl<long3> for i64 {
    type Output = long3;

    /// The scalar shifted left by every lane of `rhs`, each of which is below 64.
    fn shl(self, rhs: long3) -> (r: long3) {
        long3(shl_i64(self, rhs.0), shl_i64(self, rhs.1), shl_i64(self, rhs.2))
    }
}

impl ShlSpecImpl<long3> for i64 {
    open spec fn obeys_shl_spec() -> bool {
        true
    }

    open spec fn shl_req(self, rhs: long3) -> bool {
        0 <= rhs.0 < 64 && 0 <= rhs.1 < 64 && 0 <= rhs.2 < 64
    }

    open spec fn shl_spec(self, rhs: long3) -> long3 {
        long3(shl_i64(self, rhs.0), shl_i64(self, rhs.1), shl_i64(self, rhs.2))
    }
}

impl core::ops::Shr for long3 {
    type Output = long3;

    /// Every lane shifted right by the lane of `rhs`, which is below 64.
    fn shr(self, rhs: long3) -> (r: long3) {
        long3(shr_i64(self.0, rhs.0), shr_i64(self.1, rhs.1), shr_i64(self.2, rhs.2))
    }
}

impl ShrSpecImpl for long3 {
    open spec fn obeys_shr_spec() -> bool {
        true
    }

    open spec fn shr_req(self, rhs: long3) -> bool {
        0 <= rhs.0 < 64 && 0 <= rhs.1 < 64 && 0 <= rhs.2 < 64
    }

    open spec fn shr_spec(self, rhs: long3) -> long3 {
        long3(shr_i64(self.0, rhs.0), shr_i64(self.1, rhs.1), shr_i64(self.2, rhs.2))
    }
}

impl core::ops::Shr<i64> for long3 {
    type Output = long3;

    /// Every lane shifted right by `rhs`, which is below 64.
    fn shr(self, rhs: i64) -> (r: long3) {
        long3(shr_i64(self.0, rhs), shr_i64(self.1, rhs), shr_i64(self.2, rhs))
    }
}

impl ShrSpecImpl<i64> for long3 {
    open spec fn obeys_shr_spec() -> bool {
        true
    }

    open spec fn shr_req(self, rhs: i64) -> bool {
        0 <= rhs < 64
    }

    open spec fn shr_spec(self, rhs: i64) -> long3 {
        long3(shr_i64(self.0, rhs), shr_i64(self.1, rhs), shr_i64(self.2, rhs))
    }
}

impl core::ops::Shr<long3> for i64 {
    type Output = long3;

    /// The scalar shifted right by every lane of `rhs`, each of which is below 64.
    fn shr(self, rhs: long3) -> (r: long3) {
        long3(shr_i64(self, rhs.0), shr_i64(self, rhs.1), shr_i64(self, rhs.2))
    }
}

impl ShrSpecImpl<long3> for i64 {
    open spec fn obeys_shr_spec() -> bool {
        true
    }

    open spec fn shr_req(self, rhs: long3) -> bool {
        0 <= rhs.0 < 64 && 0 <= rhs.1 < 64 && 0 <= rhs.2 < 64
    }

    open spec fn shr_spec(self, rhs: long3) -> long3 {
        long3(shr_i64(self, rhs.0), shr_i64(self, rhs.1), shr_i64(self, rhs.2))
    }
}

impl core::ops::Rem for long3 {
    type Output = long3;

    /// The lane-wise remainder `self - (self / rhs) * rhs`. No lane of the divisor is zero.
    fn rem(self, rhs: long3) -> (r: long3) {
        long3(rem_i64(self.0, rhs.0), rem_i64(self.1, rhs.1), rem_i64(self.2, rhs.2))
    }
}

impl RemSpecImpl for long3 {
    open spec fn obeys_rem_spec() -> bool {
        true
    }

    open spec fn rem_req(self, rhs: long3) -> bool {
        rhs.0 != 0 && rhs.1 != 0 && rhs.2 != 0
    }

    open spec fn rem_spec(self, rhs: long3) -> long3 {
        long3(rem_i64(self.0, rhs.0), rem_i64(self.1, rhs.1), rem_i64(self.2, rhs.2))
    }
}

impl core::ops::Neg for long3 {
    type Output = long3;

    /// Zero minus every lane, wrapping around.
    fn neg(self) -> (r: long3) {
        long3(neg_i64(self.0), neg_i64(self.1), neg_i64(self.2))
    }
}

impl NegSpecImpl for long3 {
    open spec fn obeys_neg_spec() -> bool {
        true
    }

    open spec fn neg_req(self) -> bool {
        true
    }

    open spec fn neg_spec(self) -> long3 {
        long3(neg_i64(self.0), neg_i64(self.1), neg_i64(self.2))
    }
}

impl core::ops::Not for long3 {
    type Output = long3;

    /// Every lane with every bit flipped.
    fn not(self) -> (r: long3) {
        long3(not_i64(self.0), not_i64(self.1), not_i64(self.2))
    }
}

impl NotSpecImpl for long3 {
    open spec fn obeys_not_spec() -> bool {
        true
    }

    open spec fn not_req(self) -> bool {
        true
    }

    open spec fn not_spec(self) -> long3 {
        long3(not_i64(self.0), not_i64(self.1), not_i64(self.2))
    }
}

impl core::convert::From<isize> for long3 {
    /// The vector with `x`, wrapped to `i64`, in every lane.
    fn from(x: isize) -> (r: long3) {
        let v = isize_to_i64(x);
        long3(v, v, v)
    }
}

impl FromSpecImpl<isize> for long3 {
    open spec fn obeys_from_spec() -> bool {
        true
    }

    open spec fn from_spec(x: isize) -> long3 {
        long3(isize_to_i64(x), isize_to_i64(x), isize_to_i64(x))
    }
}

impl core::ops::Index<u32> for long3 {
    type Output = i64;

    /// Lane `i`, which is below 3.
    fn index(&self, i: u32) -> (r: &i64)
        ensures
            *r == self.lane(i as int),
    {
        match i {
            0 => &self.0,
            1 => &self.1,
            _ => &self.2,
        }
    }
}

impl vstd::std_specs::core::IndexSpecImpl<u32> for long3 {
    open spec fn index_req(&self, i: &u32) -> bool {
        *i < 3
    }
}

impl long3 {
    /// Lane `i`, counted from zero.
    pub open spec fn lane(self, i: int) -> i64
        recommends
            0 <= i < 3,
    {
        if i == 0 {
            self.0
        } else if i == 1 {
            self.1
        } else {
            self.2
        }
    }

    /// The vector of type `long3` with the bits of `x`, a value of a type that has as many bits,
    /// which is one with images of type `ushort16`.
    pub fn bitcast<U: Bitcast<Image = ushort16>>(x: U) -> (r: long3)
        ensures
            r == spec_bitcast::<U, long3>(x),
    {
        bitcast(x)
    }

    /// The vector with `x` in every lane.
    pub fn broadcast(x: i64) -> (r: long3)
        ensures
            r == long3(x, x, x),
    {
        long3(x, x, x)
    }

    /// Lane `i`, which is below 3.
    pub fn extract(self, i: u32) -> (r: i64)
        requires
            i < 3,
        ensures
            r == self.lane(i as int),
    {
        match i {
            0 => self.0,
            1 => self.1,
            _ => self.2,
        }
    }

    /// The vector with `x` in lane `i`, which is below 3, and the other lanes unchanged.
    pub fn replace(self, i: u32, x: i64) -> (r: long3)
        requires
            i < 3,
        ensures
            forall|j: int| 0 <= j < 3 ==> #[trigger] r.lane(j) == (if j == i {
                x
            } else {
                self.lane(j)
            }),
    {
        match i {
            0 => long3(x, self.1, self.2),
            1 => long3(self.0, x, self.2),
            _ => long3(self.0, self.1, x),
        }
    }

    /// The mask that is all ones where the lanes of `x` and `y` are equal, and zero elsewhere.
    pub fn eq(x: long3, y: long3) -> (r: long3)
        ensures
            r == long3(eq_i64(x.0, y.0), eq_i64(x.1, y.1), eq_i64(x.2, y.2)),
    {
        long3(eq_i64(x.0, y.0), eq_i64(x.1, y.1), eq_i64(x.2, y.2))
    }

    /// The mask that is all ones where the lanes of `x` and `y` differ, and zero elsewhere.
    pub fn ne(x: long3, y: long3) -> (r: long3)
        ensures
            r == long3(ne_i64(x.0, y.0), ne_i64(x.1, y.1), ne_i64(x.2, y.2)),
    {
        long3(ne_i64(x.0, y.0), ne_i64(x.1, y.1), ne_i64(x.2, y.2))
    }

    /// The mask that is all ones where the lane of `x` is less than that of `y`, and zero
    /// elsewhere.
    pub fn lt(x: long3, y: long3) -> (r: long3)
        ensures
            r == long3(lt_i64(x.0, y.0), lt_i64(x.1, y.1), lt_i64(x.2, y.2)),
    {
        long3(lt_i64(x.0, y.0), lt_i64(x.1, y.1), lt_i64(x.2, y.2))
    }

    /// The mask that is all ones where the lane of `x` is at most that of `y`, and zero elsewhere.
    pub fn le(x: long3, y: long3) -> (r: long3)
        ensures
            r == long3(le_i64(x.0, y.0), le_i64(x.1, y.1), le_i64(x.2, y.2)),
    {
        long3(le_i64(x.0, y.0), le_i64(x.1, y.1), le_i64(x.2, y.2))
    }

    /// The mask that is all ones where the lane of `x` is greater than that of `y`, and zero
    /// elsewhere.
    pub fn gt(x: long3, y: long3) -> (r: long3)
        ensures
            r == long3(gt_i64(x.0, y.0), gt_i64(x.1, y.1), gt_i64(x.2, y.2)),
    {
        long3(gt_i64(x.0, y.0), gt_i64(x.1, y.1), gt_i64(x.2, y.2))
    }

    /// The mask that is all ones where the lane of `x` is at least that of `y`, and zero elsewhere.
    pub fn ge(x: long3, y: long3) -> (r: long3)
        ensures
            r == long3(ge_i64(x.0, y.0), ge_i64(x.1, y.1), ge_i64(x.2, y.2)),
    {
        long3(ge_i64(x.0, y.0), ge_i64(x.1, y.1), ge_i64(x.2, y.2))
    }

    /// `x * y + z` lane by lane, wrapping around.
    pub fn madd(x: long3, y: long3, z: long3) -> (r: long3)
        ensures
            r == long3(madd_i64(x.0, y.0, z.0), madd_i64(x.1, y.1, z.1), madd_i64(x.2, y.2, z.2)),
    {
        long3(madd_i64(x.0, y.0, z.0), madd_i64(x.1, y.1, z.1), madd_i64(x.2, y.2, z.2))
    }

    /// The magnitude of every lane; that of `i64::MIN` wraps around to `i64::MIN`.
    pub fn abs(x: long3) -> (r: long3)
        ensures
            r == x.spec_abs(),
    {
        long3(abs_i64(x.0), abs_i64(x.1), abs_i64(x.2))
    }

    /// The greater lane of `x` and `y`, lane by lane.
    pub fn max(x: long3, y: long3) -> (r: long3)
        ensures
            r == x.spec_max(y),
    {
        long3(max_i64(x.0, y.0), max_i64(x.1, y.1), max_i64(x.2, y.2))
    }

    /// The smaller lane of `x` and `y`, lane by lane.
    pub fn min(x: long3, y: long3) -> (r: long3)
        ensures
            r == x.spec_min(y),
    {
        long3(min_i64(x.0, y.0), min_i64(x.1, y.1), min_i64(x.2, y.2))
    }

    /// Every lane of `x` raised to at least the lane of `lo`, then lowered to at most that of `hi`.
    pub fn clamp(x: long3, lo: long3, hi: long3) -> (r: long3)
        ensures
            r == x.spec_clamp(lo, hi),
    {
        long3(clamp_i64(x.0, lo.0, hi.0), clamp_i64(x.1, lo.1, hi.1), clamp_i64(x.2, lo.2, hi.2))
    }

    /// The sum of the lanes, wrapping around.
    pub fn reduce_add(x: long3) -> (r: i64)
        ensures
            r == x.spec_reduce_add(),
    {
        let s = add_i64(x.0, x.1);
        let ghost mut t: int = x.0 + x.1;
        proof {
            lemma_wrap_i64_sum(t, x.2 as int);
            t = t + x.2;
        }
        let s = add_i64(s, x.2);
        s
    }

    /// The smallest lane.
    pub fn reduce_min(x: long3) -> (r: i64)
        ensures
            r == x.spec_reduce_min(),
            r <= x.0 && r <= x.1 && r <= x.2,
            r == x.0 || r == x.1 || r == x.2,
    {
        let s = min_i64(x.0, x.1);
        let s = min_i64(s, x.2);
        s
    }

    /// The greatest lane.
    pub fn reduce_max(x: long3) -> (r: i64)
        ensures
            r == x.spec_reduce_max(),
            r >= x.0 && r >= x.1 && r >= x.2,
            r == x.0 || r == x.1 || r == x.2,
    {
        let s = max_i64(x.0, x.1);
        let s = max_i64(s, x.2);
        s
    }

    /// Every lane as `i8`: its low 8 bits, read as `i8`.
    pub fn to_char(x: long3) -> (r: char3)
        ensures
            r == char3(i64_to_i8(x.0), i64_to_i8(x.1), i64_to_i8(x.2)),
    {
        char3(i64_to_i8(x.0), i64_to_i8(x.1), i64_to_i8(x.2))
    }

    /// Every lane as `i8`, saturating: a lane outside the range of `i8` gives the nearest bound.
    pub fn to_char_sat(x: long3) -> (r: char3)
        ensures
            r == x.spec_to_char_sat(),
    {
        char3(i64_to_i8_sat(x.0), i64_to_i8_sat(x.1), i64_to_i8_sat(x.2))
    }

    /// Every lane as `u8`: its low 8 bits, read as `u8`.
    pub fn to_uchar(x: long3) -> (r: uchar3)
        ensures
            r == uchar3(i64_to_u8(x.0), i64_to_u8(x.1), i64_to_u8(x.2)),
    {
        uchar3(i64_to_u8(x.0), i64_to_u8(x.1), i64_to_u8(x.2))
    }

    /// Every lane as `u8`, saturating: a lane outside the range of `u8` gives the nearest bound.
    pub fn to_uchar_sat(x: long3) -> (r: uchar3)
        ensures
            r == x.spec_to_uchar_sat(),
    {
        uchar3(i64_to_u8_sat(x.0), i64_to_u8_sat(x.1), i64_to_u8_sat(x.2))
    }

    /// Every lane as `i16`: its low 16 bits, read as `i16`.
    pub fn to_short(x: long3) -> (r: short3)
        ensures
            r == short3(i64_to_i16(x.0), i64_to_i16(x.1), i64_to_i16(x.2)),
    {
        short3(i64_to_i16(x.0), i64_to_i16(x.1), i64_to_i16(x.2))
    }

    /// Every lane as `i16`, saturating: a lane outside the range of `i16` gives the nearest bound.
    pub fn to_short_sat(x: long3) -> (r: short3)
        ensures
            r == x.spec_to_short_sat(),
    {
        short3(i64_to_i16_sat(x.0), i64_to_i16_sat(x.1), i64_to_i16_sat(x.2))
    }

    /// Every lane as `u16`: its low 16 bits, read as `u16`.
    pub fn to_ushort(x: long3) -> (r: ushort3)
        ensures
            r == ushort3(i64_to_u16(x.0), i64_to_u16(x.1), i64_to_u16(x.2)),
    {
        ushort3(i64_to_u16(x.0), i64_to_u16(x.1), i64_to_u16(x.2))
    }

    /// Every lane as `u16`, saturating: a lane outside the range of `u16` gives the nearest bound.
    pub fn to_ushort_sat(x: long3) -> (r: ushort3)
        ensures
            r == x.spec_to_ushort_sat(),
    {
        ushort3(i64_to_u16_sat(x.0), i64_to_u16_sat(x.1), i64_to_u16_sat(x.2))
    }

    /// Every lane as `i32`: its low 32 bits, read as `i32`.
    pub fn to_int(x: long3) -> (r: int3)
        ensures
            r == int3(i64_to_i32(x.0), i64_to_i32(x.1), i64_to_i32(x.2)),
    {
        int3(i64_to_i32(x.0), i64_to_i32(x.1), i64_to_i32(x.2))
    }

    /// Every lane as `i32`, saturating: a lane outside the range of `i32` gives the nearest bound.
    pub fn to_int_sat(x: long3) -> (r: int3)
        ensures
            r == x.spec_to_int_sat(),
    {
        int3(i64_to_i32_sat(x.0), i64_to_i32_sat(x.1), i64_to_i32_sat(x.2))
    }

    /// Every lane as `u32`: its low 32 bits, read as `u32`.
    pub fn to_uint(x: long3) -> (r: uint3)
        ensures
            r == uint3(i64_to_u32(x.0), i64_to_u32(x.1), i64_to_u32(x.2)),
    {
        uint3(i64_to_u32(x.0), i64_to_u32(x.1), i64_to_u32(x.2))
    }

    /// Every lane as `u32`, saturating: a lane outside the range of `u32` gives the nearest bound.
    pub fn to_uint_sat(x: long3) -> (r: uint3)
        ensures
            r == x.spec_to_uint_sat(),
    {
        uint3(i64_to_u32_sat(x.0), i64_to_u32_sat(x.1), i64_to_u32_sat(x.2))
    }

    /// The vector itself: its lanes are `i64` already.
    pub fn to_long(x: long3) -> (r: long3)
        ensures
            r == x,
    {
        x
    }

    /// The vector itself: its lanes are `i64` already, and nothing saturates.
    pub fn to_long_sat(x: long3) -> (r: long3)
        ensures
            r == x.spec_to_long_sat(),
    {
        x
    }

    /// Every lane as `u64`: the same bits, read as `u64`.
    pub fn to_ulong(x: long3) -> (r: ulong3)
        ensures
            r == ulong3(i64_to_u64(x.0), i64_to_u64(x.1), i64_to_u64(x.2)),
    {
        ulong3(i64_to_u64(x.0), i64_to_u64(x.1), i64_to_u64(x.2))
    }

    /// Every lane as `u64`, saturating: a lane outside the range of `u64` gives the nearest bound.
    pub fn to_ulong_sat(x: long3) -> (r: ulong3)
        ensures
            r == x.spec_to_ulong_sat(),
    {
        ulong3(i64_to_u64_sat(x.0), i64_to_u64_sat(x.1), i64_to_u64_sat(x.2))
    }

    /// The low half: lanes 0 and 1.
    pub fn lo(self) -> (r: long2)
        ensures
            r == long2(self.0, self.1),
    {
        long2(self.0, self.1)
    }

    /// The high half: lane 2, then a zero in place of the lane that is not there.
    pub fn hi(self) -> (r: long2)
        ensures
            r == long2(self.2, 0),
    {
        long2(self.2, 0)
    }

    /// The odd lanes: lane 1, then a zero in place of the lane that is not there.
    pub fn odd(self) -> (r: long2)
        ensures
            r == long2(self.1, 0),
    {
        long2(self.1, 0)
    }

    /// The even lanes: lanes 0 and 2.
    pub fn even(self) -> (r: long2)
        ensures
            r == long2(self.0, self.2),
    {
        long2(self.0, self.2)
    }

    /// The vector of `f` applied to every lane. `f` accepts every lane.
    pub fn map_unary<F: Fn(i64) -> i64>(self, f: F) -> (r: long3)
        requires
            call_requires(f, (self.0,)),
            call_requires(f, (self.1,)),
            call_requires(f, (self.2,)),
        ensures
            call_ensures(f, (self.0,), r.0),
            call_ensures(f, (self.1,), r.1),
            call_ensures(f, (self.2,), r.2),
    {
        long3(f(self.0), f(self.1), f(self.2))
    }

    /// The vector of `f` applied to the lanes of the two vectors, lane by lane. `f` accepts every
    /// such pair of lanes.
    pub fn map_binary<F: Fn(i64, i64) -> i64>(self, other: long3, f: F) -> (r: long3)
        requires
            call_requires(f, (self.0, other.0)),
            call_requires(f, (self.1, other.1)),
            call_requires(f, (self.2, other.2)),
        ensures
            call_ensures(f, (self.0, other.0), r.0),
            call_ensures(f, (self.1, other.1), r.1),
            call_ensures(f, (self.2, other.2), r.2),
    {
        long3(f(self.0, other.0), f(self.1, other.1), f(self.2, other.2))
    }

    /// The lanes folded by `f`, from lane 0 upward: `f` is applied to lane 1 and lane 0, then to
    /// each further lane and what the lanes below it gave. `f` accepts every pair of scalars.
    pub fn reduce<F: Fn(i64, i64) -> i64>(self, f: F) -> (r: i64)
        requires
            forall|a: i64, b: i64| call_requires(f, (a, b)),
        ensures
            exists|s1: i64|
                call_ensures(f, (self.1, self.0), s1)
                    && call_ensures(f, (self.2, s1), r),
    {
        let s1 = f(self.1, self.0);
        let s2 = f(self.2, s1);
        s2
    }

    /// Addition commutes.
    pub proof fn lemma_add_commutes(x: long3, y: long3)
        ensures
            AddSpec::add_spec(x, y) == AddSpec::add_spec(y, x),
    {
        lemma_arith_i64(x.0, y.0, 0);
        lemma_arith_i64(x.1, y.1, 0);
        lemma_arith_i64(x.2, y.2, 0);
    }

    /// Addition associates, wrap-around or not.
    pub proof fn lemma_add_associates(x: long3, y: long3, z: long3)
        ensures
            AddSpec::add_spec(AddSpec::add_spec(x, y), z)
                == AddSpec::add_spec(x, AddSpec::add_spec(y, z)),
    {
        lemma_arith_i64(x.0, y.0, z.0);
        lemma_arith_i64(x.1, y.1, z.1);
        lemma_arith_i64(x.2, y.2, z.2);
    }

    /// Swapping the operands of a subtraction negates the difference.
    pub proof fn lemma_sub_swaps(x: long3, y: long3)
        ensures
            SubSpec::sub_spec(x, y) == NegSpec::neg_spec(SubSpec::sub_spec(y, x)),
    {
        lemma_arith_i64(x.0, y.0, 0);
        lemma_arith_i64(x.1, y.1, 0);
        lemma_arith_i64(x.2, y.2, 0);
    }

    /// The magnitude of a magnitude is that magnitude, and the magnitude of a lane other than
    /// `i64::MIN` is not negative.
    pub proof fn lemma_abs(x: long3)
        ensures
            x.spec_abs().spec_abs() == x.spec_abs(),
            forall|i: int|
                0 <= i < 3 && x.lane(i) != i64::MIN ==> #[trigger] x.spec_abs().lane(i) >= 0,
            forall|i: int|
                0 <= i < 3 && x.lane(i) == i64::MIN ==> #[trigger] x.spec_abs().lane(i) == i64::MIN,
    {
        lemma_abs_i64(x.0);
        lemma_abs_i64(x.1);
        lemma_abs_i64(x.2);
    }

    /// Flipping every bit of a lane gives minus one minus the lane.
    pub proof fn lemma_not(x: long3)
        ensures
            forall|i: int| 0 <= i < 3 ==> #[trigger] NotSpec::not_spec(x).lane(i) == -1 - x.lane(i),
    {
        lemma_not_i64(x.0);
        lemma_not_i64(x.1);
        lemma_not_i64(x.2);
    }

    /// The lanes of a vector with `k` in every lane add up to 3 times `k`, wrapped around.
    pub proof fn lemma_reduce_add_broadcast(k: i64)
        ensures
            long3(k, k, k).spec_reduce_add() == wrap_i64(3 * k),
    {
    }

    /// Saturating conversion to `i8` gives, lane by lane, the lane itself where `i8` holds it and
    /// the nearest bound of `i8` where it does not.
    pub proof fn lemma_to_char_sat(x: long3)
        ensures
            forall|i: int|
                0 <= i < 3 ==> #[trigger] x.spec_to_char_sat().lane(i) == sat_i8(x.lane(i) as int),
    {
    }

    /// Saturating conversion to `u8` gives, lane by lane, the lane itself where `u8` holds it and
    /// the nearest bound of `u8` where it does not.
    pub proof fn lemma_to_uchar_sat(x: long3)
        ensures
            forall|i: int|
                0 <= i < 3 ==> #[trigger] x.spec_to_uchar_sat().lane(i) == sat_u8(x.lane(i) as int),
    {
    }

    /// Saturating conversion to `i16` gives, lane by lane, the lane itself where `i16` holds it and
    /// the nearest bound of `i16` where it does not.
    pub proof fn lemma_to_short_sat(x: long3)
        ensures
            forall|i: int|
                0 <= i < 3 ==>
                    #[trigger] x.spec_to_short_sat().lane(i) == sat_i16(x.lane(i) as int),
    {
    }

    /// Saturating conversion to `u16` gives, lane by lane, the lane itself where `u16` holds it and
    /// the nearest bound of `u16` where it does not.
    pub proof fn lemma_to_ushort_sat(x: long3)
        ensures
            forall|i: int|
                0 <= i < 3 ==>
                    #[trigger] x.spec_to_ushort_sat().lane(i) == sat_u16(x.lane(i) as int),
    {
    }

    /// Saturating conversion to `i32` gives, lane by lane, the lane itself where `i32` holds it and
    /// the nearest bound of `i32` where it does not.
    pub proof fn lemma_to_int_sat(x: long3)
        ensures
            forall|i: int|
                0 <= i < 3 ==> #[trigger] x.spec_to_int_sat().lane(i) == sat_i32(x.lane(i) as int),
    {
    }

    /// Saturating conversion to `u32` gives, lane by lane, the lane itself where `u32` holds it and
    /// the nearest bound of `u32` where it does not.
    pub proof fn lemma_to_uint_sat(x: long3)
        ensures
            forall|i: int|
                0 <= i < 3 ==> #[trigger] x.spec_to_uint_sat().lane(i) == sat_u32(x.lane(i) as int),
    {
    }

    /// Saturating conversion to `u64` gives, lane by lane, the lane itself where `u64` holds it and
    /// the nearest bound of `u64` where it does not.
    pub proof fn lemma_to_ulong_sat(x: long3)
        ensures
            forall|i: int|
                0 <= i < 3 ==>
                    #[trigger] x.spec_to_ulong_sat().lane(i) == sat_u64(x.lane(i) as int),
    {
    }
}

impl Vector for long3 {
    type Scalar = i64;

    type Boolean = long3;

    type CharVector = char3;

    type ShortVector = short3;

    type IntVector = int3;

    type LongVector = long3;

    type UCharVector = uchar3;

    type UShortVector = ushort3;

    type UIntVector = uint3;

    type ULongVector = ulong3;

    type FloatVector = float3;

    type DoubleVector = double3;

    open spec fn spec_abs(self) -> long3 {
        long3(abs_i64(self.0), abs_i64(self.1), abs_i64(self.2))
    }

    open spec fn spec_max(self, other: long3) -> long3 {
        long3(max_i64(self.0, other.0), max_i64(self.1, other.1), max_i64(self.2, other.2))
    }

    open spec fn spec_min(self, other: long3) -> long3 {
        long3(min_i64(self.0, other.0), min_i64(self.1, other.1), min_i64(self.2, other.2))
    }

    open spec fn spec_clamp(self, lo: long3, hi: long3) -> long3 {
        long3(
            clamp_i64(self.0, lo.0, hi.0), clamp_i64(self.1, lo.1, hi.1),
            clamp_i64(self.2, lo.2, hi.2),
        )
    }

    open spec fn spec_reduce_add(self) -> i64 {
        wrap_i64(self.0 + self.1 + self.2)
    }

    open spec fn spec_reduce_min(self) -> i64 {
        let s = min_i64(self.0, self.1);
        let s = min_i64(s, self.2);
        s
    }

    open spec fn spec_reduce_max(self) -> i64 {
        let s = max_i64(self.0, self.1);
        let s = max_i64(s, self.2);
        s
    }

    open spec fn spec_to_char_sat(self) -> char3 {
        char3(i64_to_i8_sat(self.0), i64_to_i8_sat(self.1), i64_to_i8_sat(self.2))
    }

    open spec fn spec_to_uchar_sat(self) -> uchar3 {
        uchar3(i64_to_u8_sat(self.0), i64_to_u8_sat(self.1), i64_to_u8_sat(self.2))
    }

    open spec fn spec_to_short_sat(self) -> short3 {
        short3(i64_to_i16_sat(self.0), i64_to_i16_sat(self.1), i64_to_i16_sat(self.2))
    }

    open spec fn spec_to_ushort_sat(self) -> ushort3 {
        ushort3(i64_to_u16_sat(self.0), i64_to_u16_sat(self.1), i64_to_u16_sat(self.2))
    }

    open spec fn spec_to_int_sat(self) -> int3 {
        int3(i64_to_i32_sat(self.0), i64_to_i32_sat(self.1), i64_to_i32_sat(self.2))
    }

    open spec fn spec_to_uint_sat(self) -> uint3 {
        uint3(i64_to_u32_sat(self.0), i64_to_u32_sat(self.1), i64_to_u32_sat(self.2))
    }

    open spec fn spec_to_long_sat(self) -> long3 {
        self
    }

    open spec fn spec_to_ulong_sat(self) -> ulong3 {
        ulong3(i64_to_u64_sat(self.0), i64_to_u64_sat(self.1), i64_to_u64_sat(self.2))
    }

    fn abs(self) -> (r: long3) {
        long3::abs(self)
    }

    fn max(self, other: long3) -> (r: long3) {
        long3::max(self, other)
    }

    fn min(self, other: long3) -> (r: long3) {
        long3::min(self, other)
    }

    fn clamp(self, lo: long3, hi: long3) -> (r: long3) {
        long3::clamp(self, lo, hi)
    }

    fn reduce_add(self) -> (r: i64) {
        long3::reduce_add(self)
    }

    fn reduce_min(self) -> (r: i64) {
        long3::reduce_min(self)
    }

    fn reduce_max(self) -> (r: i64) {
        long3::reduce_max(self)
    }

    fn to_char_sat(self) -> (r: char3) {
        long3::to_char_sat(self)
    }

    fn to_uchar_sat(self) -> (r: uchar3) {
        long3::to_uchar_sat(self)
    }

    fn to_short_sat(self) -> (r: short3) {
        long3::to_short_sat(self)
    }

    fn to_ushort_sat(self) -> (r: ushort3) {
        long3::to_ushort_sat(self)
    }

    fn to_int_sat(self) -> (r: int3) {
        long3::to_int_sat(self)
    }

    fn to_uint_sat(self) -> (r: uint3) {
        long3::to_uint_sat(self)
    }

    fn to_long_sat(self) -> (r: long3) {
        long3::to_long_sat(self)
    }

    fn to_ulong_sat(self) -> (r: ulong3) {
        long3::to_ulong_sat(self)
    }
}

impl Integer for long3 {
    open spec fn spec_reduce_and(self) -> i64 {
        self.0 & self.1 & self.2
    }

    open spec fn spec_reduce_or(self) -> i64 {
        self.0 | self.1 | self.2
    }

    open spec fn spec_reduce_xor(self) -> i64 {
        self.0 ^ self.1 ^ self.2
    }

    open spec fn spec_all(self) -> bool {
        truth_i64(self.0) && truth_i64(self.1) && truth_i64(self.2)
    }

    open spec fn spec_any(self) -> bool {
        truth_i64(self.0) || truth_i64(self.1) || truth_i64(self.2)
    }

    fn reduce_and(self) -> (r: i64) {
        self.0 & self.1 & self.2
    }

    fn reduce_or(self) -> (r: i64) {
        self.0 | self.1 | self.2
    }

    fn reduce_xor(self) -> (r: i64) {
        self.0 ^ self.1 ^ self.2
    }

    fn all(self) -> (r: bool) {
        proof {
            let s = self.0 & self.1;
            lemma_bits_i64(self.0, self.1, 0, 0);
            lemma_bits_i64(s, self.2, 0, 0);
        }
        truth_i64(self.reduce_and())
    }

    fn any(self) -> (r: bool) {
        proof {
            let s = self.0 | self.1;
            lemma_bits_i64(self.0, self.1, 0, 0);
            lemma_bits_i64(s, self.2, 0, 0);
        }
        truth_i64(self.reduce_or())
    }
}

impl Dot for long3 {
    type DotProduct = i64;

    open spec fn spec_dot(self, other: long3) -> i64 {
        wrap_i64(self.0 * other.0 + self.1 * other.1 + self.2 * other.2)
    }

    fn dot(self, other: long3) -> (r: i64) {
        let s = mul_i64(self.0, other.0);
        let ghost mut t: int = self.0 * other.0;
        proof {
            lemma_wrap_i64_sum(t, self.1 * other.1);
            t = t + self.1 * other.1;
        }
        let s = madd_i64(self.1, other.1, s);
        proof {
            lemma_wrap_i64_sum(t, self.2 * other.2);
            t = t + self.2 * other.2;
        }
        let s = madd_i64(self.2, other.2, s);
        s
    }
}

impl Select<long3> for long3 {
    open spec fn spec_select(self, a: long3, b: long3) -> long3 {
        long3(
            select_i64(self.0, a.0, b.0), select_i64(self.1, a.1, b.1),
            select_i64(self.2, a.2, b.2),
        )
    }

    open spec fn spec_bitselect(self, a: long3, b: long3) -> long3 {
        long3(
            bitselect_i64(self.0, a.0, b.0), bitselect_i64(self.1, a.1, b.1),
            bitselect_i64(self.2, a.2, b.2),
        )
    }

    fn select(self, a: long3, b: long3) -> (r: long3) {
        long3(
            select_i64(self.0, a.0, b.0), select_i64(self.1, a.1, b.1),
            select_i64(self.2, a.2, b.2),
        )
    }

    fn bitselect(self, a: long3, b: long3) -> (r: long3) {
        long3(
            bitselect_i64(self.0, a.0, b.0), bitselect_i64(self.1, a.1, b.1),
            bitselect_i64(self.2, a.2, b.2),
        )
    }
}

impl Select<ulong3> for long3 {
    open spec fn spec_select(self, a: ulong3, b: ulong3) -> ulong3 {
        ulong3(
            select_u64(self.0, a.0, b.0), select_u64(self.1, a.1, b.1),
            select_u64(self.2, a.2, b.2),
        )
    }

    open spec fn spec_bitselect(self, a: ulong3, b: ulong3) -> ulong3 {
        ulong3(
            bitselect_u64(self.0, a.0, b.0), bitselect_u64(self.1, a.1, b.1),
            bitselect_u64(self.2, a.2, b.2),
        )
    }

    fn select(self, a: ulong3, b: ulong3) -> (r: ulong3) {
        ulong3(
            select_u64(self.0, a.0, b.0), select_u64(self.1, a.1, b.1),
            select_u64(self.2, a.2, b.2),
        )
    }

    fn bitselect(self, a: ulong3, b: ulong3) -> (r: ulong3) {
        ulong3(
            bitselect_u64(self.0, a.0, b.0), bitselect_u64(self.1, a.1, b.1),
            bitselect_u64(self.2, a.2, b.2),
        )
    }
}

impl Select<double3> for long3 {
    open spec fn spec_select(self, a: double3, b: double3) -> double3 {
        double3(
            select_u64(self.0, a.0, b.0), select_u64(self.1, a.1, b.1),
            select_u64(self.2, a.2, b.2),
        )
    }

    open spec fn spec_bitselect(self, a: double3, b: double3) -> double3 {
        double3(
            bitselect_u64(self.0, a.0, b.0), bitselect_u64(self.1, a.1, b.1),
            bitselect_u64(self.2, a.2, b.2),
        )
    }

    fn select(self, a: double3, b: double3) -> (r: double3) {
        double3(
            select_u64(self.0, a.0, b.0), select_u64(self.1, a.1, b.1),
            select_u64(self.2, a.2, b.2),
        )
    }

    fn bitselect(self, a: double3, b: double3) -> (r: double3) {
        double3(
            bitselect_u64(self.0, a.0, b.0), bitselect_u64(self.1, a.1, b.1),
            bitselect_u64(self.2, a.2, b.2),
        )
    }
}

impl long3 {
    /// A blend of two `long3` gives the lane of `b` where the mask is all ones and the lane of `a`
    /// where it is zero, whatever the other lanes hold.
    pub proof fn lemma_bitselect_long3(m: long3, a: long3, b: long3)
        ensures
            forall|i: int|
                0 <= i < 3 && m.lane(i) == -1 ==>
                    #[trigger] m.spec_bitselect(a, b).lane(i) == b.lane(i),
            forall|i: int|
                0 <= i < 3 && m.lane(i) == 0 ==>
                    #[trigger] m.spec_bitselect(a, b).lane(i) == a.lane(i),
    {
        lemma_blend_i64(m.0, a.0, b.0);
        lemma_blend_i64(m.1, a.1, b.1);
        lemma_blend_i64(m.2, a.2, b.2);
    }

    /// A choice between two `long3` goes by the sign bit of the mask alone: it gives the lane of
    /// `b` where the mask is negative and the lane of `a` elsewhere, as the blend does under the
    /// mask whose every lane has its sign spread over all its bits.
    pub proof fn lemma_select_long3(m: long3, a: long3, b: long3)
        ensures
            m.spec_select(a, b) == ShrSpec::shr_spec(m, 63i64).spec_bitselect(a, b),
            forall|i: int|
                0 <= i < 3 && m.lane(i) < 0 ==> #[trigger] m.spec_select(a, b).lane(i) == b.lane(i),
            forall|i: int|
                0 <= i < 3 && m.lane(i) >= 0 ==>
                    #[trigger] m.spec_select(a, b).lane(i) == a.lane(i),
    {
        lemma_blend_i64(m.0, a.0, b.0);
        lemma_blend_i64(m.1, a.1, b.1);
        lemma_blend_i64(m.2, a.2, b.2);
    }

    /// A blend of two `ulong3` gives the lane of `b` where the mask is all ones and the lane of `a`
    /// where it is zero, whatever the other lanes hold.
    pub proof fn lemma_bitselect_ulong3(m: long3, a: ulong3, b: ulong3)
        ensures
            forall|i: int|
                0 <= i < 3 && m.lane(i) == -1 ==>
                    #[trigger] m.spec_bitselect(a, b).lane(i) == b.lane(i),
            forall|i: int|
                0 <= i < 3 && m.lane(i) == 0 ==>
                    #[trigger] m.spec_bitselect(a, b).lane(i) == a.lane(i),
    {
        lemma_blend_u64(m.0, a.0, b.0);
        lemma_blend_u64(m.1, a.1, b.1);
        lemma_blend_u64(m.2, a.2, b.2);
    }

    /// A choice between two `ulong3` goes by the sign bit of the mask alone: it gives the lane of
    /// `b` where the mask is negative and the lane of `a` elsewhere, as the blend does under the
    /// mask whose every lane has its sign spread over all its bits.
    pub proof fn lemma_select_ulong3(m: long3, a: ulong3, b: ulong3)
        ensures
            m.spec_select(a, b) == ShrSpec::shr_spec(m, 63i64).spec_bitselect(a, b),
            forall|i: int|
                0 <= i < 3 && m.lane(i) < 0 ==> #[trigger] m.spec_select(a, b).lane(i) == b.lane(i),
            forall|i: int|
                0 <= i < 3 && m.lane(i) >= 0 ==>
                    #[trigger] m.spec_select(a, b).lane(i) == a.lane(i),
    {
        lemma_blend_u64(m.0, a.0, b.0);
        lemma_blend_u64(m.1, a.1, b.1);
        lemma_blend_u64(m.2, a.2, b.2);
    }

    /// A blend of two `double3` gives the lane of `b` where the mask is all ones and the lane of
    /// `a` where it is zero, whatever the other lanes hold.
    pub proof fn lemma_bitselect_double3(m: long3, a: double3, b: double3)
        ensures
            forall|i: int|
                0 <= i < 3 && m.lane(i) == -1 ==>
                    #[trigger] m.spec_bitselect(a, b).lane(i) == b.lane(i),
            forall|i: int|
                0 <= i < 3 && m.lane(i) == 0 ==>
                    #[trigger] m.spec_bitselect(a, b).lane(i) == a.lane(i),
    {
        lemma_blend_u64(m.0, a.0, b.0);
        lemma_blend_u64(m.1, a.1, b.1);
        lemma_blend_u64(m.2, a.2, b.2);
    }

    /// A choice between two `double3` goes by the sign bit of the mask alone: it gives the lane of
    /// `b` where the mask is negative and the lane of `a` elsewhere, as the blend does under the
    /// mask whose every lane has its sign spread over all its bits.
    pub proof fn lemma_select_double3(m: long3, a: double3, b: double3)
        ensures
            m.spec_select(a, b) == ShrSpec::shr_spec(m, 63i64).spec_bitselect(a, b),
            forall|i: int|
                0 <= i < 3 && m.lane(i) < 0 ==> #[trigger] m.spec_select(a, b).lane(i) == b.lane(i),
            forall|i: int|
                0 <= i < 3 && m.lane(i) >= 0 ==>
                    #[trigger] m.spec_select(a, b).lane(i) == a.lane(i),
    {
        lemma_blend_u64(m.0, a.0, b.0);
        lemma_blend_u64(m.1, a.1, b.1);
        lemma_blend_u64(m.2, a.2, b.2);
    }
}

impl Bitcast for long3 {
    type Image = ushort16;

    open spec fn spec_image(self) -> ushort16 {
        let d0 = split_u64_u16(i64_to_u64(self.0));
        let d1 = split_u64_u16(i64_to_u64(self.1));
        let d2 = split_u64_u16(i64_to_u64(self.2));
        ushort16(d0.0, d0.1, d0.2, d0.3, d1.0, d1.1, d1.2, d1.3, d2.0, d2.1, d2.2, d2.3, 0, 0, 0, 0)
    }

    open spec fn spec_from_image(image: ushort16) -> long3 {
        long3(
            u64_to_i64(join_u16_u64(image.0, image.1, image.2, image.3)),
            u64_to_i64(join_u16_u64(image.4, image.5, image.6, image.7)),
            u64_to_i64(join_u16_u64(image.8, image.9, image.10, image.11)),
        )
    }

    open spec fn spec_fills() -> bool {
        false
    }

    fn image(self) -> (r: ushort16) {
        let d0 = split_u64_u16(i64_to_u64(self.0));
        let d1 = split_u64_u16(i64_to_u64(self.1));
        let d2 = split_u64_u16(i64_to_u64(self.2));
        ushort16(d0.0, d0.1, d0.2, d0.3, d1.0, d1.1, d1.2, d1.3, d2.0, d2.1, d2.2, d2.3, 0, 0, 0, 0)
    }

    fn from_image(image: ushort16) -> (r: long3) {
        long3(
            u64_to_i64(join_u16_u64(image.0, image.1, image.2, image.3)),
            u64_to_i64(join_u16_u64(image.4, image.5, image.6, image.7)),
            u64_to_i64(join_u16_u64(image.8, image.9, image.10, image.11)),
        )
    }

    proof fn lemma_image(x: long3) {
        lemma_recast_i64(x.0);
        lemma_regroup_u16_u64(i64_to_u64(x.0), 0, 0, 0, 0);
        lemma_recast_i64(x.1);
        lemma_regroup_u16_u64(i64_to_u64(x.1), 0, 0, 0, 0);
        lemma_recast_i64(x.2);
        lemma_regroup_u16_u64(i64_to_u64(x.2), 0, 0, 0, 0);
    }

    proof fn lemma_from_image(image: ushort16) {
    }
}

impl long3 {
    /// Read as `ulong3`, which has lanes of the same width, a vector keeps the bits of every lane;
    /// read as `long3` again, it is what it was.
    pub proof fn lemma_bitcast_ulong3(x: long3)
        ensures
            spec_bitcast::<long3, ulong3>(x)
                == ulong3(i64_to_u64(x.0), i64_to_u64(x.1), i64_to_u64(x.2)),
            spec_bitcast::<ulong3, long3>(spec_bitcast::<long3, ulong3>(x)) == x,
    {
        lemma_recast_i64(x.0);
        lemma_regroup_u16_u64(i64_to_u64(x.0), 0, 0, 0, 0);
        lemma_recast_i64(x.1);
        lemma_regroup_u16_u64(i64_to_u64(x.1), 0, 0, 0, 0);
        lemma_recast_i64(x.2);
        lemma_regroup_u16_u64(i64_to_u64(x.2), 0, 0, 0, 0);
    }

    /// Read as `double3`, which has lanes of the same width, a vector keeps the bits of every lane;
    /// read as `long3` again, it is what it was.
    pub proof fn lemma_bitcast_double3(x: long3)
        ensures
            spec_bitcast::<long3, double3>(x)
                == double3(i64_to_u64(x.0), i64_to_u64(x.1), i64_to_u64(x.2)),
            spec_bitcast::<double3, long3>(spec_bitcast::<long3, double3>(x)) == x,
    {
        lemma_recast_i64(x.0);
        lemma_regroup_u16_u64(i64_to_u64(x.0), 0, 0, 0, 0);
        lemma_recast_i64(x.1);
        lemma_regroup_u16_u64(i64_to_u64(x.1), 0, 0, 0, 0);
        lemma_recast_i64(x.2);
        lemma_regroup_u16_u64(i64_to_u64(x.2), 0, 0, 0, 0);
    }
}

} // verus!
