//! `int3`: three lanes of `i32`.

use crate::scalar::lane_i32::{
    abs_i32, add_i32, bitselect_i32, clamp_i32, div_i32, eq_i32, ge_i32, gt_i32, i32_to_i16,
    i32_to_i16_sat, i32_to_i64, i32_to_i64_sat, i32_to_i8, i32_to_i8_sat, i32_to_u16,
    i32_to_u16_sat, i32_to_u32, i32_to_u32_sat, i32_to_u64, i32_to_u64_sat, i32_to_u8,
    i32_to_u8_sat, isize_to_i32, le_i32, lemma_abs_i32, lemma_arith_i32, lemma_bits_i32,
    lemma_blend_i32, lemma_not_i32, lemma_recast_i32, lt_i32, madd_i32, max_i32, min_i32, mul_i32,
    ne_i32, neg_i32, not_i32, rem_i32, select_i32, shl_i32, shr_i32, sub_i32, truth_i32,
};
use crate::scalar::lane_u32::{bitselect_u32, lemma_blend_u32, select_u32, u32_to_i32};
use crate::scalar::model::{
    lemma_wrap_i32_sum, sat_i16, sat_i64, sat_i8, sat_u16, sat_u32, sat_u64, sat_u8, wrap_i32,
};
use crate::scalar::regroup::{join_u8_u32, lemma_regroup_u8_u32, split_u32_u8};
use crate::traits::{Bitcast, Dot, Integer, Select, Vector, bitcast, spec_bitcast};
use crate::vector::char3::char3;
use crate::vector::double3::double3;
use crate::vector::float3::float3;
use crate::vector::int2::int2;
use crate::vector::long3::long3;
use crate::vector::short3::short3;
use crate::vector::uchar16::uchar16;
use crate::vector::uchar3::uchar3;
use crate::vector::uint3::uint3;
use crate::vector::ulong3::ulong3;
use crate::vector::ushort3::ushort3;
use vstd::prelude::*;
use vstd::std_specs::convert::FromSpecImpl;
use vstd::std_specs::ops::{
    AddSpec, AddSpecImpl, BitAndSpecImpl, BitOrSpecImpl, BitXorSpecImpl, DivSpecImpl, MulSpecImpl,
    NegSpec, NegSpecImpl, NotSpec, NotSpecImpl, RemSpecImpl, ShlSpecImpl, ShrSpec, ShrSpecImpl,
    SubSpec, SubSpecImpl,
};

verus! {

/// Three lanes of `i32`.
#[derive(Copy, Clone, Debug, PartialEq, Eq, Structural)]
pub struct int3(pub i32, pub i32, pub i32);

impl core::ops::Add for int3 {
    type Output = int3;

    /// The lane-wise sum of the two vectors, wrapping around.
    fn add(self, rhs: int3) -> (r: int3) {
        int3(add_i32(self.0, rhs.0), add_i32(self.1, rhs.1), add_i32(self.2, rhs.2))
    }
}

impl AddSpecImpl for int3 {
    open spec fn obeys_add_spec() -> bool {
        true
    }

    open spec fn add_req(self, rhs: int3) -> bool {
        true
    }

    open spec fn add_spec(self, rhs: int3) -> int3 {
        int3(add_i32(self.0, rhs.0), add_i32(self.1, rhs.1), add_i32(self.2, rhs.2))
    }
}

impl core::ops::Add<i32> for int3 {
    type Output = int3;

    /// The sum of every lane and the scalar, wrapping around.
    fn add(self, rhs: i32) -> (r: int3) {
        int3(add_i32(self.0, rhs), add_i32(self.1, rhs), add_i32(self.2, rhs))
    }
}

impl AddSpecImpl<i32> for int3 {
    open spec fn obeys_add_spec() -> bool {
        true
    }

    open spec fn add_req(self, rhs: i32) -> bool {
        true
    }

    open spec fn add_spec(self, rhs: i32) -> int3 {
        int3(add_i32(self.0, rhs), add_i32(self.1, rhs), add_i32(self.2, rhs))
    }
}

impl core::ops::Add<int3> for i32 {
    type Output = int3;

    /// The sum of the scalar and every lane, wrapping around.
    fn add(self, rhs: int3) -> (r: int3) {
        int3(add_i32(self, rhs.0), add_i32(self, rhs.1), add_i32(self, rhs.2))
    }
}

impl AddSpecImpl<int3> for i32 {
    open spec fn obeys_add_spec() -> bool {
        true
    }

    open spec fn add_req(self, rhs: int3) -> bool {
        true
    }

    open spec fn add_spec(self, rhs: int3) -> int3 {
        int3(add_i32(self, rhs.0), add_i32(self, rhs.1), add_i32(self, rhs.2))
    }
}

impl core::ops::Sub for int3 {
    type Output = int3;

    /// The lane-wise difference of the two vectors, wrapping around.
    fn sub(self, rhs: int3) -> (r: int3) {
        int3(sub_i32(self.0, rhs.0), sub_i32(self.1, rhs.1), sub_i32(self.2, rhs.2))
    }
}

impl SubSpecImpl for int3 {
    open spec fn obeys_sub_spec() -> bool {
        true
    }

    open spec fn sub_req(self, rhs: int3) -> bool {
        true
    }

    open spec fn sub_spec(self, rhs: int3) -> int3 {
        int3(sub_i32(self.0, rhs.0), sub_i32(self.1, rhs.1), sub_i32(self.2, rhs.2))
    }
}

impl core::ops::Sub<i32> for int3 {
    type Output = int3;

    /// The difference of every lane and the scalar, wrapping around.
    fn sub(self, rhs: i32) -> (r: int3) {
        int3(sub_i32(self.0, rhs), sub_i32(self.1, rhs), sub_i32(self.2, rhs))
    }
}

impl SubSpecImpl<i32> for int3 {
    open spec fn obeys_sub_spec() -> bool {
        true
    }

    open spec fn sub_req(self, rhs: i32) -> bool {
        true
    }

    open spec fn sub_spec(self, rhs: i32) -> int3 {
        int3(sub_i32(self.0, rhs), sub_i32(self.1, rhs), sub_i32(self.2, rhs))
    }
}

impl core::ops::Sub<int3> for i32 {
    type Output = int3;

    /// The difference of the scalar and every lane, wrapping around.
    fn sub(self, rhs: int3) -> (r: int3) {
        int3(sub_i32(self, rhs.0), sub_i32(self, rhs.1), sub_i32(self, rhs.2))
    }
}

impl SubSpecImpl<int3> for i32 {
    open spec fn obeys_sub_spec() -> bool {
        true
    }

    open spec fn sub_req(self, rhs: int3) -> bool {
        true
    }

    open spec fn sub_spec(self, rhs: int3) -> int3 {
        int3(sub_i32(self, rhs.0), sub_i32(self, rhs.1), sub_i32(self, rhs.2))
    }
}

impl core::ops::Mul for int3 {
    type Output = int3;

    /// The lane-wise product of the two vectors, wrapping around.
    fn mul(self, rhs: int3) -> (r: int3) {
        int3(mul_i32(self.0, rhs.0), mul_i32(self.1, rhs.1), mul_i32(self.2, rhs.2))
    }
}

impl MulSpecImpl for int3 {
    open spec fn obeys_mul_spec() -> bool {
        true
    }

    open spec fn mul_req(self, rhs: int3) -> bool {
        true
    }

    open spec fn mul_spec(self, rhs: int3) -> int3 {
        int3(mul_i32(self.0, rhs.0), mul_i32(self.1, rhs.1), mul_i32(self.2, rhs.2))
    }
}

impl core::ops::Mul<i32> for int3 {
    type Output = int3;

    /// The product of every lane and the scalar, wrapping around.
    fn mul(self, rhs: i32) -> (r: int3) {
        int3(mul_i32(self.0, rhs), mul_i32(self.1, rhs), mul_i32(self.2, rhs))
    }
}

impl MulSpecImpl<i32> for int3 {
    open spec fn obeys_mul_spec() -> bool {
        true
    }

    open spec fn mul_req(self, rhs: i32) -> bool {
        true
    }

    open spec fn mul_spec(self, rhs: i32) -> int3 {
        int3(mul_i32(self.0, rhs), mul_i32(self.1, rhs), mul_i32(self.2, rhs))
    }
}

impl core::ops::Mul<int3> for i32 {
    type Output = int3;

    /// The product of the scalar and every lane, wrapping around.
    fn mul(self, rhs: int3) -> (r: int3) {
        int3(mul_i32(self, rhs.0), mul_i32(self, rhs.1), mul_i32(self, rhs.2))
    }
}

impl MulSpecImpl<int3> for i32 {
    open spec fn obeys_mul_spec() -> bool {
        true
    }

    open spec fn mul_req(self, rhs: int3) -> bool {
        true
    }

    open spec fn mul_spec(self, rhs: int3) -> int3 {
        int3(mul_i32(self, rhs.0), mul_i32(self, rhs.1), mul_i32(self, rhs.2))
    }
}

impl core::ops::Div for int3 {
    type Output = int3;

    /// The lane-wise quotient of the two vectors, rounded toward zero. No lane of the divisor is
    /// zero.
    fn div(self, rhs: int3) -> (r: int3) {
        int3(div_i32(self.0, rhs.0), div_i32(self.1, rhs.1), div_i32(self.2, rhs.2))
    }
}

impl DivSpecImpl for int3 {
    open spec fn obeys_div_spec() -> bool {
        true
    }

    open spec fn div_req(self, rhs: int3) -> bool {
        rhs.0 != 0 && rhs.1 != 0 && rhs.2 != 0
    }

    open spec fn div_spec(self, rhs: int3) -> int3 {
        int3(div_i32(self.0, rhs.0), div_i32(self.1, rhs.1), div_i32(self.2, rhs.2))
    }
}

impl core::ops::Div<i32> for int3 {
    type Output = int3;

    /// The quotient of every lane by the scalar, rounded toward zero. The scalar is not zero.
    fn div(self, rhs: i32) -> (r: int3) {
        int3(div_i32(self.0, rhs), div_i32(self.1, rhs), div_i32(self.2, rhs))
    }
}

impl DivSpecImpl<i32> for int3 {
    open spec fn obeys_div_spec() -> bool {
        true
    }

    open spec fn div_req(self, rhs: i32) -> bool {
        rhs != 0
    }

    open spec fn div_spec(self, rhs: i32) -> int3 {
        int3(div_i32(self.0, rhs), div_i32(self.1, rhs), div_i32(self.2, rhs))
    }
}

impl core::ops::Div<int3> for i32 {
    type Output = int3;

    /// The quotient of the scalar by every lane, rounded toward zero. No lane is zero.
    fn div(self, rhs: int3) -> (r: int3) {
        int3(div_i32(self, rhs.0), div_i32(self, rhs.1), div_i32(self, rhs.2))
    }
}

impl DivSpecImpl<int3> for i32 {
    open spec fn obeys_div_spec() -> bool {
        true
    }

    open spec fn div_req(self, rhs: int3) -> bool {
        rhs.0 != 0 && rhs.1 != 0 && rhs.2 != 0
    }

    open spec fn div_spec(self, rhs: int3) -> int3 {
        int3(div_i32(self, rhs.0), div_i32(self, rhs.1), div_i32(self, rhs.2))
    }
}

impl core::ops::BitAnd for int3 {
    type Output = int3;

    /// The lane-wise conjunction of the two vectors, bit by bit.
    fn bitand(self, rhs: int3) -> (r: int3) {
        int3(self.0 & rhs.0, self.1 & rhs.1, self.2 & rhs.2)
    }
}

impl BitAndSpecImpl for int3 {
    open spec fn obeys_bitand_spec() -> bool {
        true
    }

    open spec fn bitand_req(self, rhs: int3) -> bool {
        true
    }

    open spec fn bitand_spec(self, rhs: int3) -> int3 {
        int3(self.0 & rhs.0, self.1 & rhs.1, self.2 & rhs.2)
    }
}

impl core::ops::BitAnd<i32> for int3 {
    type Output = int3;

    /// The conjunction of every lane and the scalar, bit by bit.
    fn bitand(self, rhs: i32) -> (r: int3) {
        int3(self.0 & rhs, self.1 & rhs, self.2 & rhs)
    }
}

impl BitAndSpecImpl<i32> for int3 {
    open spec fn obeys_bitand_spec() -> bool {
        true
    }

    open spec fn bitand_req(self, rhs: i32) -> bool {
        true
    }

    open spec fn bitand_spec(self, rhs: i32) -> int3 {
        int3(self.0 & rhs, self.1 & rhs, self.2 & rhs)
    }
}

impl core::ops::BitAnd<int3> for i32 {
    type Output = int3;

    /// The conjunction of the scalar and every lane, bit by bit.
    fn bitand(self, rhs: int3) -> (r: int3) {
        int3(self & rhs.0, self & rhs.1, self & rhs.2)
    }
}

impl BitAndSpecImpl<int3> for i32 {
    open spec fn obeys_bitand_spec() -> bool {
        true
    }

    open spec fn bitand_req(self, rhs: int3) -> bool {
        true
    }

    open spec fn bitand_spec(self, rhs: int3) -> int3 {
        int3(self & rhs.0, self & rhs.1, self & rhs.2)
    }
}

impl core::ops::BitOr for int3 {
    type Output = int3;

    /// The lane-wise disjunction of the two vectors, bit by bit.
    fn bitor(self, rhs: int3) -> (r: int3) {
        int3(self.0 | rhs.0, self.1 | rhs.1, self.2 | rhs.2)
    }
}

impl BitOrSpecImpl for int3 {
    open spec fn obeys_bitor_spec() -> bool {
        true
    }

    open spec fn bitor_req(self, rhs: int3) -> bool {
        true
    }

    open spec fn bitor_spec(self, rhs: int3) -> int3 {
        int3(self.0 | rhs.0, self.1 | rhs.1, self.2 | rhs.2)
    }
}

impl core::ops::BitOr<i32> for int3 {
    type Output = int3;

    /// The disjunction of every lane and the scalar, bit by bit.
    fn bitor(self, rhs: i32) -> (r: int3) {
        int3(self.0 | rhs, self.1 | rhs, self.2 | rhs)
    }
}

impl BitOrSpecImpl<i32> for int3 {
    open spec fn obeys_bitor_spec() -> bool {
        true
    }

    open spec fn bitor_req(self, rhs: i32) -> bool {
        true
    }

    open spec fn bitor_spec(self, rhs: i32) -> int3 {
        int3(self.0 | rhs, self.1 | rhs, self.2 | rhs)
    }
}

impl core::ops::BitOr<int3> for i32 {
    type Output = int3;

    /// The disjunction of the scalar and every lane, bit by bit.
    fn bitor(self, rhs: int3) -> (r: int3) {
        int3(self | rhs.0, self | rhs.1, self | rhs.2)
    }
}

impl BitOrSpecImpl<int3> for i32 {
    open spec fn obeys_bitor_spec() -> bool {
        true
    }

    open spec fn bitor_req(self, rhs: int3) -> bool {
        true
    }

    open spec fn bitor_spec(self, rhs: int3) -> int3 {
        int3(self | rhs.0, self | rhs.1, self | rhs.2)
    }
}

impl core::ops::BitXor for int3 {
    type Output = int3;

    /// The lane-wise exclusive disjunction of the two vectors, bit by bit.
    fn bitxor(self, rhs: int3) -> (r: int3) {
        int3(self.0 ^ rhs.0, self.1 ^ rhs.1, self.2 ^ rhs.2)
    }
}

impl BitXorSpecImpl for int3 {
    open spec fn obeys_bitxor_spec() -> bool {
        true
    }

    open spec fn bitxor_req(self, rhs: int3) -> bool {
        true
    }

    open spec fn bitxor_spec(self, rhs: int3) -> int3 {
        int3(self.0 ^ rhs.0, self.1 ^ rhs.1, self.2 ^ rhs.2)
    }
}

impl core::ops::BitXor<i32> for int3 {
    type Output = int3;

    /// The exclusive disjunction of every lane and the scalar, bit by bit.
    fn bitxor(self, rhs: i32) -> (r: int3) {
        int3(self.0 ^ rhs, self.1 ^ rhs, self.2 ^ rhs)
    }
}

impl BitXorSpecImpl<i32> for int3 {
    open spec fn obeys_bitxor_spec() -> bool {
        true
    }

    open spec fn bitxor_req(self, rhs: i32) -> bool {
        true
    }

    open spec fn bitxor_spec(self, rhs: i32) -> int3 {
        int3(self.0 ^ rhs, self.1 ^ rhs, self.2 ^ rhs)
    }
}

impl core::ops::BitXor<int3> for i32 {
    type Output = int3;

    /// The exclusive disjunction of the scalar and every lane, bit by bit.
    fn bitxor(self, rhs: int3) -> (r: int3) {
        int3(self ^ rhs.0, self ^ rhs.1, self ^ rhs.2)
    }
}

impl BitXorSpecImpl<int3> for i32 {
    open spec fn obeys_bitxor_spec() -> bool {
        true
    }

    open spec fn bitxor_req(self, rhs: int3) -> bool {
        true
    }

    open spec fn bitxor_spec(self, rhs: int3) -> int3 {
        int3(self ^ rhs.0, self ^ rhs.1, self ^ rhs.2)
    }
}

impl core::ops::Shl for int3 {
    type Output = int3;

    /// Every lane shifted left by the lane of `rhs`, which is below 32.
    fn shl(self, rhs: int3) -> (r: int3) {
        int3(shl_i32(self.0, rhs.0), shl_i32(self.1, rhs.1), shl_i32(self.2, rhs.2))
    }
}

impl ShlSpecImpl for int3 {
    open spec fn obeys_shl_spec() -> bool {
        true
    }

    open spec fn shl_req(self, rhs: int3) -> bool {
        0 <= rhs.0 < 32 && 0 <= rhs.1 < 32 && 0 <= rhs.2 < 32
    }

    open spec fn shl_spec(self, rhs: int3) -> int3 {
        int3(shl_i32(self.0, rhs.0), shl_i32(self.1, rhs.1), shl_i32(self.2, rhs.2))
    }
}

impl core::ops::Shl<i32> for int3 {
    type Output = int3;

    /// Every lane shifted left by `rhs`, which is below 32.
    fn shl(self, rhs: i32) -> (r: int3) {
        int3(shl_i32(self.0, rhs), shl_i32(self.1, rhs), shl_i32(self.2, rhs))
    }
}

impl ShlSpecImpl<i32> for int3 {
    open spec fn obeys_shl_spec() -> bool {
        true
    }

    open spec fn shl_req(self, rhs: i32) -> bool {
        0 <= rhs < 32
    }

    open spec fn shl_spec(self, rhs: i32) -> int3 {
        int3(shl_i32(self.0, rhs), shl_i32(self.1, rhs), shl_i32(self.2, rhs))
    }
}

impl core::ops::Shl<int3> for i32 {
    type Output = int3;

    /// The scalar shifted left by every lane of `rhs`, each of which is below 32.
    fn shl(self, rhs: int3) -> (r: int3) {
        int3(shl_i32(self, rhs.0), shl_i32(self, rhs.1), shl_i32(self, rhs.2))
    }
}

impl ShlSpecImpl<int3> for i32 {
    open spec fn obeys_shl_spec() -> bool {
        true
    }

    open spec fn shl_req(self, rhs: int3) -> bool {
        0 <= rhs.0 < 32 && 0 <= rhs.1 < 32 && 0 <= rhs.2 < 32
    }

    open spec fn shl_spec(self, rhs: int3) -> int3 {
        int3(shl_i32(self, rhs.0), shl_i32(self, rhs.1), shl_i32(self, rhs.2))
    }
}

impl core::ops::Shr for int3 {
    type Output = int3;

    /// Every lane shifted right by the lane of `rhs`, which is below 32.
    fn shr(self, rhs: int3) -> (r: int3) {
        int3(shr_i32(self.0, rhs.0), shr_i32(self.1, rhs.1), shr_i32(self.2, rhs.2))
    }
}

impl ShrSpecImpl for int3 {
    open spec fn obeys_shr_spec() -> bool {
        true
    }

    open spec fn shr_req(self, rhs: int3) -> bool {
        0 <= rhs.0 < 32 && 0 <= rhs.1 < 32 && 0 <= rhs.2 < 32
    }

    open spec fn shr_spec(self, rhs: int3) -> int3 {
        int3(shr_i32(self.0, rhs.0), shr_i32(self.1, rhs.1), shr_i32(self.2, rhs.2))
    }
}

impl core::ops::Shr<i32> for int3 {
    type Output = int3;

    /// Every lane shifted right by `rhs`, which is below 32.
    fn shr(self, rhs: i32) -> (r: int3) {
        int3(shr_i32(self.0, rhs), shr_i32(self.1, rhs), shr_i32(self.2, rhs))
    }
}

impl ShrSpecImpl<i32> for int3 {
    open spec fn obeys_shr_spec() -> bool {
        true
    }

    open spec fn shr_req(self, rhs: i32) -> bool {
        0 <= rhs < 32
    }

    open spec fn shr_spec(self, rhs: i32) -> int3 {
        int3(shr_i32(self.0, rhs), shr_i32(self.1, rhs), shr_i32(self.2, rhs))
    }
}

impl core::ops::Shr<int3> for i32 {
    type Output = int3;

    /// The scalar shifted right by every lane of `rhs`, each of which is below 32.
    fn shr(self, rhs: int3) -> (r: int3) {
        int3(shr_i32(self, rhs.0), shr_i32(self, rhs.1), shr_i32(self, rhs.2))
    }
}

impl ShrSpecImpl<int3> for i32 {
    open spec fn obeys_shr_spec() -> bool {
        true
    }

    open spec fn shr_req(self, rhs: int3) -> bool {
        0 <= rhs.0 < 32 && 0 <= rhs.1 < 32 && 0 <= rhs.2 < 32
    }

    open spec fn shr_spec(self, rhs: int3) -> int3 {
        int3(shr_i32(self, rhs.0), shr_i32(self, rhs.1), shr_i32(self, rhs.2))
    }
}

impl core::ops::Rem for int3 {
    type Output = int3;

    /// The lane-wise remainder `self - (self / rhs) * rhs`. No lane of the divisor is zero.
    fn rem(self, rhs: int3) -> (r: int3) {
        int3(rem_i32(self.0, rhs.0), rem_i32(self.1, rhs.1), rem_i32(self.2, rhs.2))
    }
}

impl RemSpecImpl for int3 {
    open spec fn obeys_rem_spec() -> bool {
        true
    }

    open spec fn rem_req(self, rhs: int3) -> bool {
        rhs.0 != 0 && rhs.1 != 0 && rhs.2 != 0
    }

    open spec fn rem_spec(self, rhs: int3) -> int3 {
        int3(rem_i32(self.0, rhs.0), rem_i32(self.1, rhs.1), rem_i32(self.2, rhs.2))
    }
}

impl core::ops::Neg for int3 {
    type Output = int3;

    /// Zero minus every lane, wrapping around.
    fn neg(self) -> (r: int3) {
        int3(neg_i32(self.0), neg_i32(self.1), neg_i32(self.2))
    }
}

impl NegSpecImpl for int3 {
    open spec fn obeys_neg_spec() -> bool {
        true
    }

    open spec fn neg_req(self) -> bool {
        true
    }

    open spec fn neg_spec(self) -> int3 {
        int3(neg_i32(self.0), neg_i32(self.1), neg_i32(self.2))
    }
}

impl core::ops::Not for int3 {
    type Output = int3;

    /// Every lane with every bit flipped.
    fn not(self) -> (r: int3) {
        int3(not_i32(self.0), not_i32(self.1), not_i32(self.2))
    }
}

impl NotSpecImpl for int3 {
    open spec fn obeys_not_spec() -> bool {
        true
    }

    open spec fn not_req(self) -> bool {
        true
    }

    open spec fn not_spec(self) -> int3 {
        int3(not_i32(self.0), not_i32(self.1), not_i32(self.2))
    }
}

impl core::convert::From<isize> for int3 {
    /// The vector with `x`, wrapped to `i32`, in every lane.
    fn from(x: isize) -> (r: int3) {
        let v = isize_to_i32(x);
        int3(v, v, v)
    }
}

impl FromSpecImpl<isize> for int3 {
    open spec fn obeys_from_spec() -> bool {
        true
    }

    open spec fn from_spec(x: isize) -> int3 {
        int3(isize_to_i32(x), isize_to_i32(x), isize_to_i32(x))
    }
}

impl core::ops::Index<u32> for int3 {
    type Output = i32;

    /// Lane `i`, which is below 3.
    fn index(&self, i: u32) -> (r: &i32)
        ensures
            *r == self.lane(i as int),
    {
        match i {
            0 => &self.0,
            1 => &self.1,
            _ => &self.2,
        }
    }
}

impl vstd::std_specs::core::IndexSpecImpl<u32> for int3 {
    open spec fn index_req(&self, i: &u32) -> bool {
        *i < 3
    }
}

impl int3 {
    /// Lane `i`, counted from zero.
    pub open spec fn lane(self, i: int) -> i32
        recommends
            0 <= i < 3,
    {
        if i == 0 {
            self.0
        } else if i == 1 {
            self.1
        } else {
            self.2
        }
    }

    /// The vector of type `int3` with the bits of `x`, a value of a type that has as many bits,
    /// which is one with images of type `uchar16`.
    pub fn bitcast<U: Bitcast<Image = uchar16>>(x: U) -> (r: int3)
        ensures
            r == spec_bitcast::<U, int3>(x),
    {
        bitcast(x)
    }

    /// The vector with `x` in every lane.
    pub fn broadcast(x: i32) -> (r: int3)
        ensures
            r == int3(x, x, x),
    {
        int3(x, x, x)
    }

    /// Lane `i`, which is below 3.
    pub fn extract(self, i: u32) -> (r: i32)
        requires
            i < 3,
        ensures
            r == self.lane(i as int),
    {
        match i {
            0 => self.0,
            1 => self.1,
            _ => self.2,
        }
    }

    /// The vector with `x` in lane `i`, which is below 3, and the other lanes unchanged.
    pub fn replace(self, i: u32, x: i32) -> (r: int3)
        requires
            i < 3,
        ensures
            forall|j: int| 0 <= j < 3 ==> #[trigger] r.lane(j) == (if j == i {
                x
            } else {
                self.lane(j)
            }),
    {
        match i {
            0 => int3(x, self.1, self.2),
            1 => int3(self.0, x, self.2),
            _ => int3(self.0, self.1, x),
        }
    }

    /// The mask that is all ones where the lanes of `x` and `y` are equal, and zero elsewhere.
    pub fn eq(x: int3, y: int3) -> (r: int3)
        ensures
            r == int3(eq_i32(x.0, y.0), eq_i32(x.1, y.1), eq_i32(x.2, y.2)),
    {
        int3(eq_i32(x.0, y.0), eq_i32(x.1, y.1), eq_i32(x.2, y.2))
    }

    /// The mask that is all ones where the lanes of `x` and `y` differ, and zero elsewhere.
    pub fn ne(x: int3, y: int3) -> (r: int3)
        ensures
            r == int3(ne_i32(x.0, y.0), ne_i32(x.1, y.1), ne_i32(x.2, y.2)),
    {
        int3(ne_i32(x.0, y.0), ne_i32(x.1, y.1), ne_i32(x.2, y.2))
    }

    /// The mask that is all ones where the lane of `x` is less than that of `y`, and zero
    /// elsewhere.
    pub fn lt(x: int3, y: int3) -> (r: int3)
        ensures
            r == int3(lt_i32(x.0, y.0), lt_i32(x.1, y.1), lt_i32(x.2, y.2)),
    {
        int3(lt_i32(x.0, y.0), lt_i32(x.1, y.1), lt_i32(x.2, y.2))
    }

    /// The mask that is all ones where the lane of `x` is at most that of `y`, and zero elsewhere.
    pub fn le(x: int3, y: int3) -> (r: int3)
        ensures
            r == int3(le_i32(x.0, y.0), le_i32(x.1, y.1), le_i32(x.2, y.2)),
    {
        int3(le_i32(x.0, y.0), le_i32(x.1, y.1), le_i32(x.2, y.2))
    }

    /// The mask that is all ones where the lane of `x` is greater than that of `y`, and zero
    /// elsewhere.
    pub fn gt(x: int3, y: int3) -> (r: int3)
        ensures
            r == int3(gt_i32(x.0, y.0), gt_i32(x.1, y.1), gt_i32(x.2, y.2)),
    {
        int3(gt_i32(x.0, y.0), gt_i32(x.1, y.1), gt_i32(x.2, y.2))
    }

    /// The mask that is all ones where the lane of `x` is at least that of `y`, and zero elsewhere.
    pub fn ge(x: int3, y: int3) -> (r: int3)
        ensures
            r == int3(ge_i32(x.0, y.0), ge_i32(x.1, y.1), ge_i32(x.2, y.2)),
    {
        int3(ge_i32(x.0, y.0), ge_i32(x.1, y.1), ge_i32(x.2, y.2))
    }

    /// `x * y + z` lane by lane, wrapping around.
    pub fn madd(x: int3, y: int3, z: int3) -> (r: int3)
        ensures
            r == int3(madd_i32(x.0, y.0, z.0), madd_i32(x.1, y.1, z.1), madd_i32(x.2, y.2, z.2)),
    {
        int3(madd_i32(x.0, y.0, z.0), madd_i32(x.1, y.1, z.1), madd_i32(x.2, y.2, z.2))
    }

    /// The magnitude of every lane; that of `i32::MIN` wraps around to `i32::MIN`.
    pub fn abs(x: int3) -> (r: int3)
        ensures
            r == x.spec_abs(),
    {
        int3(abs_i32(x.0), abs_i32(x.1), abs_i32(x.2))
    }

    /// The greater lane of `x` and `y`, lane by lane.
    pub fn max(x: int3, y: int3) -> (r: int3)
        ensures
            r == x.spec_max(y),
    {
        int3(max_i32(x.0, y.0), max_i32(x.1, y.1), max_i32(x.2, y.2))
    }

    /// The smaller lane of `x` and `y`, lane by lane.
    pub fn min(x: int3, y: int3) -> (r: int3)
        ensures
            r == x.spec_min(y),
    {
        int3(min_i32(x.0, y.0), min_i32(x.1, y.1), min_i32(x.2, y.2))
    }

    /// Every lane of `x` raised to at least the lane of `lo`, then lowered to at most that of `hi`.
    pub fn clamp(x: int3, lo: int3, hi: int3) -> (r: int3)
        ensures
            r == x.spec_clamp(lo, hi),
    {
        int3(clamp_i32(x.0, lo.0, hi.0), clamp_i32(x.1, lo.1, hi.1), clamp_i32(x.2, lo.2, hi.2))
    }

    /// The sum of the lanes, wrapping around.
    pub fn reduce_add(x: int3) -> (r: i32)
        ensures
            r == x.spec_reduce_add(),
    {
        let s = add_i32(x.0, x.1);
        let ghost mut t: int = x.0 + x.1;
        proof {
            lemma_wrap_i32_sum(t, x.2 as int);
            t = t + x.2;
        }
        let s = add_i32(s, x.2);
        s
    }

    /// The smallest lane.
    pub fn reduce_min(x: int3) -> (r: i32)
        ensures
            r == x.spec_reduce_min(),
            r <= x.0 && r <= x.1 && r <= x.2,
            r == x.0 || r == x.1 || r == x.2,
    {
        let s = min_i32(x.0, x.1);
        let s = min_i32(s, x.2);
        s
    }

    /// The greatest lane.
    pub fn reduce_max(x: int3) -> (r: i32)
        ensures
            r == x.spec_reduce_max(),
            r >= x.0 && r >= x.1 && r >= x.2,
            r == x.0 || r == x.1 || r == x.2,
    {
        let s = max_i32(x.0, x.1);
        let s = max_i32(s, x.2);
        s
    }

    /// Every lane as `i8`: its low 8 bits, read as `i8`.
    pub fn to_char(x: int3) -> (r: char3)
        ensures
            r == char3(i32_to_i8(x.0), i32_to_i8(x.1), i32_to_i8(x.2)),
    {
        char3(i32_to_i8(x.0), i32_to_i8(x.1), i32_to_i8(x.2))
    }

    /// Every lane as `i8`, saturating: a lane outside the range of `i8` gives the nearest bound.
    pub fn to_char_sat(x: int3) -> (r: char3)
        ensures
            r == x.spec_to_char_sat(),
    {
        char3(i32_to_i8_sat(x.0), i32_to_i8_sat(x.1), i32_to_i8_sat(x.2))
    }

    /// Every lane as `u8`: its low 8 bits, read as `u8`.
    pub fn to_uchar(x: int3) -> (r: uchar3)
        ensures
            r == uchar3(i32_to_u8(x.0), i32_to_u8(x.1), i32_to_u8(x.2)),
    {
        uchar3(i32_to_u8(x.0), i32_to_u8(x.1), i32_to_u8(x.2))
    }

    /// Every lane as `u8`, saturating: a lane outside the range of `u8` gives the nearest bound.
    pub fn to_uchar_sat(x: int3) -> (r: uchar3)
        ensures
            r == x.spec_to_uchar_sat(),
    {
        uchar3(i32_to_u8_sat(x.0), i32_to_u8_sat(x.1), i32_to_u8_sat(x.2))
    }

    /// Every lane as `i16`: its low 16 bits, read as `i16`.
    pub fn to_short(x: int3) -> (r: short3)
        ensures
            r == short3(i32_to_i16(x.0), i32_to_i16(x.1), i32_to_i16(x.2)),
    {
        short3(i32_to_i16(x.0), i32_to_i16(x.1), i32_to_i16(x.2))
    }

    /// Every lane as `i16`, saturating: a lane outside the range of `i16` gives the nearest bound.
    pub fn to_short_sat(x: int3) -> (r: short3)
        ensures
            r == x.spec_to_short_sat(),
    {
        short3(i32_to_i16_sat(x.0), i32_to_i16_sat(x.1), i32_to_i16_sat(x.2))
    }

    /// Every lane as `u16`: its low 16 bits, read as `u16`.
    pub fn to_ushort(x: int3) -> (r: ushort3)
        ensures
            r == ushort3(i32_to_u16(x.0), i32_to_u16(x.1), i32_to_u16(x.2)),
    {
        ushort3(i32_to_u16(x.0), i32_to_u16(x.1), i32_to_u16(x.2))
    }

    /// Every lane as `u16`, saturating: a lane outside the range of `u16` gives the nearest bound.
    pub fn to_ushort_sat(x: int3) -> (r: ushort3)
        ensures
            r == x.spec_to_ushort_sat(),
    {
        ushort3(i32_to_u16_sat(x.0), i32_to_u16_sat(x.1), i32_to_u16_sat(x.2))
    }

    /// The vector itself: its lanes are `i32` already.
    pub fn to_int(x: int3) -> (r: int3)
        ensures
            r == x,
    {
        x
    }

    /// The vector itself: its lanes are `i32` already, and nothing saturates.
    pub fn to_int_sat(x: int3) -> (r: int3)
        ensures
            r == x.spec_to_int_sat(),
    {
        x
    }

    /// Every lane as `u32`: the same bits, read as `u32`.
    pub fn to_uint(x: int3) -> (r: uint3)
        ensures
            r == uint3(i32_to_u32(x.0), i32_to_u32(x.1), i32_to_u32(x.2)),
    {
        uint3(i32_to_u32(x.0), i32_to_u32(x.1), i32_to_u32(x.2))
    }

    /// Every lane as `u32`, saturating: a lane outside the range of `u32` gives the nearest bound.
    pub fn to_uint_sat(x: int3) -> (r: uint3)
        ensures
            r == x.spec_to_uint_sat(),
    {
        uint3(i32_to_u32_sat(x.0), i32_to_u32_sat(x.1), i32_to_u32_sat(x.2))
    }

    /// Every lane as `i64`, which holds every `i32`.
    pub fn to_long(x: int3) -> (r: long3)
        ensures
            r == long3(i32_to_i64(x.0), i32_to_i64(x.1), i32_to_i64(x.2)),
    {
        long3(i32_to_i64(x.0), i32_to_i64(x.1), i32_to_i64(x.2))
    }

    /// Every lane as `i64`, saturating; nothing saturates, since `i64` holds every `i32`.
    pub fn to_long_sat(x: int3) -> (r: long3)
        ensures
            r == x.spec_to_long_sat(),
    {
        long3(i32_to_i64_sat(x.0), i32_to_i64_sat(x.1), i32_to_i64_sat(x.2))
    }

    /// Every lane as `u64`, sign-extended: a negative lane wraps around.
    pub fn to_ulong(x: int3) -> (r: ulong3)
        ensures
            r == ulong3(i32_to_u64(x.0), i32_to_u64(x.1), i32_to_u64(x.2)),
    {
        ulong3(i32_to_u64(x.0), i32_to_u64(x.1), i32_to_u64(x.2))
    }

    /// Every lane as `u64`, saturating: a lane outside the range of `u64` gives the nearest bound.
    pub fn to_ulong_sat(x: int3) -> (r: ulong3)
        ensures
            r == x.spec_to_ulong_sat(),
    {
        ulong3(i32_to_u64_sat(x.0), i32_to_u64_sat(x.1), i32_to_u64_sat(x.2))
    }

    /// The low half: lanes 0 and 1.
    pub fn lo(self) -> (r: int2)
        ensures
            r == int2(self.0, self.1),
    {
        int2(self.0, self.1)
    }

    /// The high half: lane 2, then a zero in place of the lane that is not there.
    pub fn hi(self) -> (r: int2)
        ensures
            r == int2(self.2, 0),
    {
        int2(self.2, 0)
    }

    /// The odd lanes: lane 1, then a zero in place of the lane that is not there.
    pub fn odd(self) -> (r: int2)
        ensures
            r == int2(self.1, 0),
    {
        int2(self.1, 0)
    }

    /// The even lanes: lanes 0 and 2.
    pub fn even(self) -> (r: int2)
        ensures
            r == int2(self.0, self.2),
    {
        int2(self.0, self.2)
    }

    /// The vector of `f` applied to every lane. `f` accepts every lane.
    pub fn map_unary<F: Fn(i32) -> i32>(self, f: F) -> (r: int3)
        requires
            call_requires(f, (self.0,)),
            call_requires(f, (self.1,)),
            call_requires(f, (self.2,)),
        ensures
            call_ensures(f, (self.0,), r.0),
            call_ensures(f, (self.1,), r.1),
            call_ensures(f, (self.2,), r.2),
    {
        int3(f(self.0), f(self.1), f(self.2))
    }

    /// The vector of `f` applied to the lanes of the two vectors, lane by lane. `f` accepts every
    /// such pair of lanes.
    pub fn map_binary<F: Fn(i32, i32) -> i32>(self, other: int3, f: F) -> (r: int3)
        requires
            call_requires(f, (self.0, other.0)),
            call_requires(f, (self.1, other.1)),
            call_requires(f, (self.2, other.2)),
        ensures
            call_ensures(f, (self.0, other.0), r.0),
            call_ensures(f, (self.1, other.1), r.1),
            call_ensures(f, (self.2, other.2), r.2),
    {
        int3(f(self.0, other.0), f(self.1, other.1), f(self.2, other.2))
    }

    /// The lanes folded by `f`, from lane 0 upward: `f` is applied to lane 1 and lane 0, then to
    /// each further lane and what the lanes below it gave. `f` accepts every pair of scalars.
    pub fn reduce<F: Fn(i32, i32) -> i32>(self, f: F) -> (r: i32)
        requires
            forall|a: i32, b: i32| call_requires(f, (a, b)),
        ensures
            exists|s1: i32|
                call_ensures(f, (self.1, self.0), s1)
                    && call_ensures(f, (self.2, s1), r),
    {
        let s1 = f(self.1, self.0);
        let s2 = f(self.2, s1);
        s2
    }

    /// Addition commutes.
    pub proof fn lemma_add_commutes(x: int3, y: int3)
        ensures
            AddSpec::add_spec(x, y) == AddSpec::add_spec(y, x),
    {
        lemma_arith_i32(x.0, y.0, 0);
        lemma_arith_i32(x.1, y.1, 0);
        lemma_arith_i32(x.2, y.2, 0);
    }

    /// Addition associates, wrap-around or not.
    pub proof fn lemma_add_associates(x: int3, y: int3, z: int3)
        ensures
            AddSpec::add_spec(AddSpec::add_spec(x, y), z)
                == AddSpec::add_spec(x, AddSpec::add_spec(y, z)),
    {
        lemma_arith_i32(x.0, y.0, z.0);
        lemma_arith_i32(x.1, y.1, z.1);
        lemma_arith_i32(x.2, y.2, z.2);
    }

    /// Swapping the operands of a subtraction negates the difference.
    pub proof fn lemma_sub_swaps(x: int3, y: int3)
        ensures
            SubSpec::sub_spec(x, y) == NegSpec::neg_spec(SubSpec::sub_spec(y, x)),
    {
        lemma_arith_i32(x.0, y.0, 0);
        lemma_arith_i32(x.1, y.1, 0);
        lemma_arith_i32(x.2, y.2, 0);
    }

    /// The magnitude of a magnitude is that magnitude, and the magnitude of a lane other than
    /// `i32::MIN` is not negative.
    pub proof fn lemma_abs(x: int3)
        ensures
            x.spec_abs().spec_abs() == x.spec_abs(),
            forall|i: int|
                0 <= i < 3 && x.lane(i) != i32::MIN ==> #[trigger] x.spec_abs().lane(i) >= 0,
            forall|i: int|
                0 <= i < 3 && x.lane(i) == i32::MIN ==> #[trigger] x.spec_abs().lane(i) == i32::MIN,
    {
        lemma_abs_i32(x.0);
        lemma_abs_i32(x.1);
        lemma_abs_i32(x.2);
    }

    /// Flipping every bit of a lane gives minus one minus the lane.
    pub proof fn lemma_not(x: int3)
        ensures
            forall|i: int| 0 <= i < 3 ==> #[trigger] NotSpec::not_spec(x).lane(i) == -1 - x.lane(i),
    {
        lemma_not_i32(x.0);
        lemma_not_i32(x.1);
        lemma_not_i32(x.2);
    }

    /// The lanes of a vector with `k` in every lane add up to 3 times `k`, wrapped around.
    pub proof fn lemma_reduce_add_broadcast(k: i32)
        ensures
            int3(k, k, k).spec_reduce_add() == wrap_i32(3 * k),
    {
    }

    /// Saturating conversion to `i8` gives, lane by lane, the lane itself where `i8` holds it and
    /// the nearest bound of `i8` where it does not.
    pub proof fn lemma_to_char_sat(x: int3)
        ensures
            forall|i: int|
                0 <= i < 3 ==> #[trigger] x.spec_to_char_sat().lane(i) == sat_i8(x.lane(i) as int),
    {
    }

    /// Saturating conversion to `u8` gives, lane by lane, the lane itself where `u8` holds it and
    /// the nearest bound of `u8` where it does not.
    pub proof fn lemma_to_uchar_sat(x: int3)
        ensures
            forall|i: int|
                0 <= i < 3 ==> #[trigger] x.spec_to_uchar_sat().lane(i) == sat_u8(x.lane(i) as int),
    {
    }

    /// Saturating conversion to `i16` gives, lane by lane, the lane itself where `i16` holds it and
    /// the nearest bound of `i16` where it does not.
    pub proof fn lemma_to_short_sat(x: int3)
        ensures
            forall|i: int|
                0 <= i < 3 ==>
                    #[trigger] x.spec_to_short_sat().lane(i) == sat_i16(x.lane(i) as int),
    {
    }

    /// Saturating conversion to `u16` gives, lane by lane, the lane itself where `u16` holds it and
    /// the nearest bound of `u16` where it does not.
    pub proof fn lemma_to_ushort_sat(x: int3)
        ensures
            forall|i: int|
                0 <= i < 3 ==>
                    #[trigger] x.spec_to_ushort_sat().lane(i) == sat_u16(x.lane(i) as int),
    {
    }

    /// Saturating conversion to `u32` gives, lane by lane, the lane itself where `u32` holds it and
    /// the nearest bound of `u32` where it does not.
    pub proof fn lemma_to_uint_sat(x: int3)
        ensures
            forall|i: int|
                0 <= i < 3 ==> #[trigger] x.spec_to_uint_sat().lane(i) == sat_u32(x.lane(i) as int),
    {
    }

    /// Saturating conversion to `i64` gives every lane unchanged: `i64` holds every `i32`.
    pub proof fn lemma_to_long_sat(x: int3)
        ensures
            forall|i: int|
                0 <= i < 3 ==> #[trigger] x.spec_to_long_sat().lane(i) == sat_i64(x.lane(i) as int),
            forall|i: int| 0 <= i < 3 ==> #[trigger] x.spec_to_long_sat().lane(i) == x.lane(i),
    {
    }

    /// Saturating conversion to `u64` gives, lane by lane, the lane itself where `u64` holds it and
    /// the nearest bound of `u64` where it does not.
    pub proof fn lemma_to_ulong_sat(x: int3)
        ensures
            forall|i: int|
                0 <= i < 3 ==>
                    #[trigger] x.spec_to_ulong_sat().lane(i) == sat_u64(x.lane(i) as int),
    {
    }
}

impl Vector for int3 {
    type Scalar = i32;

    type Boolean = int3;

    type CharVector = char3;

    type ShortVector = short3;

    type IntVector = int3;

    type LongVector = long3;

    type UCharVector = uchar3;

    type UShortVector = ushort3;

    type UIntVector = uint3;

    type ULongVector = ulong3;

    type FloatVector = float3;

    type DoubleVector = double3;

    open spec fn spec_abs(self) -> int3 {
        int3(abs_i32(self.0), abs_i32(self.1), abs_i32(self.2))
    }

    open spec fn spec_max(self, other: int3) -> int3 {
        int3(max_i32(self.0, other.0), max_i32(self.1, other.1), max_i32(self.2, other.2))
    }

    open spec fn spec_min(self, other: int3) -> int3 {
        int3(min_i32(self.0, other.0), min_i32(self.1, other.1), min_i32(self.2, other.2))
    }

    open spec fn spec_clamp(self, lo: int3, hi: int3) -> int3 {
        int3(
            clamp_i32(self.0, lo.0, hi.0), clamp_i32(self.1, lo.1, hi.1),
            clamp_i32(self.2, lo.2, hi.2),
        )
    }

    open spec fn spec_reduce_add(self) -> i32 {
        wrap_i32(self.0 + self.1 + self.2)
    }

    open spec fn spec_reduce_min(self) -> i32 {
        let s = min_i32(self.0, self.1);
        let s = min_i32(s, self.2);
        s
    }

    open spec fn spec_reduce_max(self) -> i32 {
        let s = max_i32(self.0, self.1);
        let s = max_i32(s, self.2);
        s
    }

    open spec fn spec_to_char_sat(self) -> char3 {
        char3(i32_to_i8_sat(self.0), i32_to_i8_sat(self.1), i32_to_i8_sat(self.2))
    }

    open spec fn spec_to_uchar_sat(self) -> uchar3 {
        uchar3(i32_to_u8_sat(self.0), i32_to_u8_sat(self.1), i32_to_u8_sat(self.2))
    }

    open spec fn spec_to_short_sat(self) -> short3 {
        short3(i32_to_i16_sat(self.0), i32_to_i16_sat(self.1), i32_to_i16_sat(self.2))
    }

    open spec fn spec_to_ushort_sat(self) -> ushort3 {
        ushort3(i32_to_u16_sat(self.0), i32_to_u16_sat(self.1), i32_to_u16_sat(self.2))
    }

    open spec fn spec_to_int_sat(self) -> int3 {
        self
    }

    open spec fn spec_to_uint_sat(self) -> uint3 {
        uint3(i32_to_u32_sat(self.0), i32_to_u32_sat(self.1), i32_to_u32_sat(self.2))
    }

    open spec fn spec_to_long_sat(self) -> long3 {
        long3(i32_to_i64_sat(self.0), i32_to_i64_sat(self.1), i32_to_i64_sat(self.2))
    }

    open spec fn spec_to_ulong_sat(self) -> ulong3 {
        ulong3(i32_to_u64_sat(self.0), i32_to_u64_sat(self.1), i32_to_u64_sat(self.2))
    }

    fn abs(self) -> (r: int3) {
        int3::abs(self)
    }

    fn max(self, other: int3) -> (r: int3) {
        int3::max(self, other)
    }

    fn min(self, other: int3) -> (r: int3) {
        int3::min(self, other)
    }

    fn clamp(self, lo: int3, hi: int3) -> (r: int3) {
        int3::clamp(self, lo, hi)
    }

    fn reduce_add(self) -> (r: i32) {
        int3::reduce_add(self)
    }

    fn reduce_min(self) -> (r: i32) {
        int3::reduce_min(self)
    }

    fn reduce_max(self) -> (r: i32) {
        int3::reduce_max(self)
    }

    fn to_char_sat(self) -> (r: char3) {
        int3::to_char_sat(self)
    }

    fn to_uchar_sat(self) -> (r: uchar3) {
        int3::to_uchar_sat(self)
    }

    fn to_short_sat(self) -> (r: short3) {
        int3::to_short_sat(self)
    }

    fn to_ushort_sat(self) -> (r: ushort3) {
        int3::to_ushort_sat(self)
    }

    fn to_int_sat(self) -> (r: int3) {
        int3::to_int_sat(self)
    }

    fn to_uint_sat(self) -> (r: uint3) {
        int3::to_uint_sat(self)
    }

    fn to_long_sat(self) -> (r: long3) {
        int3::to_long_sat(self)
    }

    fn to_ulong_sat(self) -> (r: ulong3) {
        int3::to_ulong_sat(self)
    }
}

impl Integer for int3 {
    open spec fn spec_reduce_and(self) -> i32 {
        self.0 & self.1 & self.2
    }

    open spec fn spec_reduce_or(self) -> i32 {
        self.0 | self.1 | self.2
    }

    open spec fn spec_reduce_xor(self) -> i32 {
        self.0 ^ self.1 ^ self.2
    }

    open spec fn spec_all(self) -> bool {
        truth_i32(self.0) && truth_i32(self.1) && truth_i32(self.2)
    }

    open spec fn spec_any(self) -> bool {
        truth_i32(self.0) || truth_i32(self.1) || truth_i32(self.2)
    }

    fn reduce_and(self) -> (r: i32) {
        self.0 & self.1 & self.2
    }

    fn reduce_or(self) -> (r: i32) {
        self.0 | self.1 | self.2
    }

    fn reduce_xor(self) -> (r: i32) {
        self.0 ^ self.1 ^ self.2
    }

    fn all(self) -> (r: bool) {
        proof {
            let s = self.0 & self.1;
            lemma_bits_i32(self.0, self.1, 0, 0);
            lemma_bits_i32(s, self.2, 0, 0);
        }
        truth_i32(self.reduce_and())
    }

    fn any(self) -> (r: bool) {
        proof {
            let s = self.0 | self.1;
            lemma_bits_i32(self.0, self.1, 0, 0);
            lemma_bits_i32(s, self.2, 0, 0);
        }
        truth_i32(self.reduce_or())
    }
}

impl Dot for int3 {
    type DotProduct = i32;

    open spec fn spec_dot(self, other: int3) -> i32 {
        wrap_i32(self.0 * other.0 + self.1 * other.1 + self.2 * other.2)
    }

    fn dot(self, other: int3) -> (r: i32) {
        let s = mul_i32(self.0, other.0);
        let ghost mut t: int = self.0 * other.0;
        proof {
            lemma_wrap_i32_sum(t, self.1 * other.1);
            t = t + self.1 * other.1;
        }
        let s = madd_i32(self.1, other.1, s);
        proof {
            lemma_wrap_i32_sum(t, self.2 * other.2);
            t = t + self.2 * other.2;
        }
        let s = madd_i32(self.2, other.2, s);
        s
    }
}

impl Select<int3> for int3 {
    open spec fn spec_select(self, a: int3, b: int3) -> int3 {
        int3(
            select_i32(self.0, a.0, b.0), select_i32(self.1, a.1, b.1),
            select_i32(self.2, a.2, b.2),
        )
    }

    open spec fn spec_bitselect(self, a: int3, b: int3) -> int3 {
        int3(
            bitselect_i32(self.0, a.0, b.0), bitselect_i32(self.1, a.1, b.1),
            bitselect_i32(self.2, a.2, b.2),
        )
    }

    fn select(self, a: int3, b: int3) -> (r: int3) {
        int3(
            select_i32(self.0, a.0, b.0), select_i32(self.1, a.1, b.1),
            select_i32(self.2, a.2, b.2),
        )
    }

    fn bitselect(self, a: int3, b: int3) -> (r: int3) {
        int3(
            bitselect_i32(self.0, a.0, b.0), bitselect_i32(self.1, a.1, b.1),
            bitselect_i32(self.2, a.2, b.2),
        )
    }
}

impl Select<uint3> for int3 {
    open spec fn spec_select(self, a: uint3, b: uint3) -> uint3 {
        uint3(
            select_u32(self.0, a.0, b.0), select_u32(self.1, a.1, b.1),
            select_u32(self.2, a.2, b.2),
        )
    }

    open spec fn spec_bitselect(self, a: uint3, b: uint3) -> uint3 {
        uint3(
            bitselect_u32(self.0, a.0, b.0), bitselect_u32(self.1, a.1, b.1),
            bitselect_u32(self.2, a.2, b.2),
        )
    }

    fn select(self, a: uint3, b: uint3) -> (r: uint3) {
        uint3(
            select_u32(self.0, a.0, b.0), select_u32(self.1, a.1, b.1),
            select_u32(self.2, a.2, b.2),
        )
    }

    fn bitselect(self, a: uint3, b: uint3) -> (r: uint3) {
        uint3(
            bitselect_u32(self.0, a.0, b.0), bitselect_u32(self.1, a.1, b.1),
            bitselect_u32(self.2, a.2, b.2),
        )
    }
}

impl Select<float3> for int3 {
    open spec fn spec_select(self, a: float3, b: float3) -> float3 {
        float3(
            select_u32(self.0, a.0, b.0), select_u32(self.1, a.1, b.1),
            select_u32(self.2, a.2, b.2),
        )
    }

    open spec fn spec_bitselect(self, a: float3, b: float3) -> float3 {
        float3(
            bitselect_u32(self.0, a.0, b.0), bitselect_u32(self.1, a.1, b.1),
            bitselect_u32(self.2, a.2, b.2),
        )
    }

    fn select(self, a: float3, b: float3) -> (r: float3) {
        float3(
            select_u32(self.0, a.0, b.0), select_u32(self.1, a.1, b.1),
            select_u32(self.2, a.2, b.2),
        )
    }

    fn bitselect(self, a: float3, b: float3) -> (r: float3) {
        float3(
            bitselect_u32(self.0, a.0, b.0), bitselect_u32(self.1, a.1, b.1),
            bitselect_u32(self.2, a.2, b.2),
        )
    }
}

impl int3 {
    /// A blend of two `int3` gives the lane of `b` where the mask is all ones and the lane of `a`
    /// where it is zero, whatever the other lanes hold.
    pub proof fn lemma_bitselect_int3(m: int3, a: int3, b: int3)
        ensures
            forall|i: int|
                0 <= i < 3 && m.lane(i) == -1 ==>
                    #[trigger] m.spec_bitselect(a, b).lane(i) == b.lane(i),
            forall|i: int|
                0 <= i < 3 && m.lane(i) == 0 ==>
                    #[trigger] m.spec_bitselect(a, b).lane(i) == a.lane(i),
    {
        lemma_blend_i32(m.0, a.0, b.0);
        lemma_blend_i32(m.1, a.1, b.1);
        lemma_blend_i32(m.2, a.2, b.2);
    }

    /// A choice between two `int3` goes by the sign bit of the mask alone: it gives the lane of `b`
    /// where the mask is negative and the lane of `a` elsewhere, as the blend does under the mask
    /// whose every lane has its sign spread over all its bits.
    pub proof fn lemma_select_int3(m: int3, a: int3, b: int3)
        ensures
            m.spec_select(a, b) == ShrSpec::shr_spec(m, 31i32).spec_bitselect(a, b),
            forall|i: int|
                0 <= i < 3 && m.lane(i) < 0 ==> #[trigger] m.spec_select(a, b).lane(i) == b.lane(i),
            forall|i: int|
                0 <= i < 3 && m.lane(i) >= 0 ==>
                    #[trigger] m.spec_select(a, b).lane(i) == a.lane(i),
    {
        lemma_blend_i32(m.0, a.0, b.0);
        lemma_blend_i32(m.1, a.1, b.1);
        lemma_blend_i32(m.2, a.2, b.2);
    }

    /// A blend of two `uint3` gives the lane of `b` where the mask is all ones and the lane of `a`
    /// where it is zero, whatever the other lanes hold.
    pub proof fn lemma_bitselect_uint3(m: int3, a: uint3, b: uint3)
        ensures
            forall|i: int|
                0 <= i < 3 && m.lane(i) == -1 ==>
                    #[trigger] m.spec_bitselect(a, b).lane(i) == b.lane(i),
            forall|i: int|
                0 <= i < 3 && m.lane(i) == 0 ==>
                    #[trigger] m.spec_bitselect(a, b).lane(i) == a.lane(i),
    {
        lemma_blend_u32(m.0, a.0, b.0);
        lemma_blend_u32(m.1, a.1, b.1);
        lemma_blend_u32(m.2, a.2, b.2);
    }

    /// A choice between two `uint3` goes by the sign bit of the mask alone: it gives the lane of
    /// `b` where the mask is negative and the lane of `a` elsewhere, as the blend does under the
    /// mask whose every lane has its sign spread over all its bits.
    pub proof fn lemma_select_uint3(m: int3, a: uint3, b: uint3)
        ensures
            m.spec_select(a, b) == ShrSpec::shr_spec(m, 31i32).spec_bitselect(a, b),
            forall|i: int|
                0 <= i < 3 && m.lane(i) < 0 ==> #[trigger] m.spec_select(a, b).lane(i) == b.lane(i),
            forall|i: int|
                0 <= i < 3 && m.lane(i) >= 0 ==>
                    #[trigger] m.spec_select(a, b).lane(i) == a.lane(i),
    {
        lemma_blend_u32(m.0, a.0, b.0);
        lemma_blend_u32(m.1, a.1, b.1);
        lemma_blend_u32(m.2, a.2, b.2);
    }

    /// A blend of two `float3` gives the lane of `b` where the mask is all ones and the lane of `a`
    /// where it is zero, whatever the other lanes hold.
    pub proof fn lemma_bitselect_float3(m: int3, a: float3, b: float3)
        ensures
            forall|i: int|
                0 <= i < 3 && m.lane(i) == -1 ==>
                    #[trigger] m.spec_bitselect(a, b).lane(i) == b.lane(i),
            forall|i: int|
                0 <= i < 3 && m.lane(i) == 0 ==>
                    #[trigger] m.spec_bitselect(a, b).lane(i) == a.lane(i),
    {
        lemma_blend_u32(m.0, a.0, b.0);
        lemma_blend_u32(m.1, a.1, b.1);
        lemma_blend_u32(m.2, a.2, b.2);
    }

    /// A choice between two `float3` goes by the sign bit of the mask alone: it gives the lane of
    /// `b` where the mask is negative and the lane of `a` elsewhere, as the blend does under the
    /// mask whose every lane has its sign spread over all its bits.
    pub proof fn lemma_select_float3(m: int3, a: float3, b: float3)
        ensures
            m.spec_select(a, b) == ShrSpec::shr_spec(m, 31i32).spec_bitselect(a, b),
            forall|i: int|
                0 <= i < 3 && m.lane(i) < 0 ==> #[trigger] m.spec_select(a, b).lane(i) == b.lane(i),
            forall|i: int|
                0 <= i < 3 && m.lane(i) >= 0 ==>
                    #[trigger] m.spec_select(a, b).lane(i) == a.lane(i),
    {
        lemma_blend_u32(m.0, a.0, b.0);
        lemma_blend_u32(m.1, a.1, b.1);
        lemma_blend_u32(m.2, a.2, b.2);
    }
}

impl Bitcast for int3 {
    type Image = uchar16;

    open spec fn spec_image(self) -> uchar16 {
        let d0 = split_u32_u8(i32_to_u32(self.0));
        let d1 = split_u32_u8(i32_to_u32(self.1));
        let d2 = split_u32_u8(i32_to_u32(self.2));
        uchar16(d0.0, d0.1, d0.2, d0.3, d1.0, d1.1, d1.2, d1.3, d2.0, d2.1, d2.2, d2.3, 0, 0, 0, 0)
    }

    open spec fn spec_from_image(image: uchar16) -> int3 {
        int3(
            u32_to_i32(join_u8_u32(image.0, image.1, image.2, image.3)),
            u32_to_i32(join_u8_u32(image.4, image.5, image.6, image.7)),
            u32_to_i32(join_u8_u32(image.8, image.9, image.10, image.11)),
        )
    }

    open spec fn spec_fills() -> bool {
        false
    }

    fn image(self) -> (r: uchar16) {
        let d0 = split_u32_u8(i32_to_u32(self.0));
        let d1 = split_u32_u8(i32_to_u32(self.1));
        let d2 = split_u32_u8(i32_to_u32(self.2));
        uchar16(d0.0, d0.1, d0.2, d0.3, d1.0, d1.1, d1.2, d1.3, d2.0, d2.1, d2.2, d2.3, 0, 0, 0, 0)
    }

    fn from_image(image: uchar16) -> (r: int3) {
        int3(
            u32_to_i32(join_u8_u32(image.0, image.1, image.2, image.3)),
            u32_to_i32(join_u8_u32(image.4, image.5, image.6, image.7)),
            u32_to_i32(join_u8_u32(image.8, image.9, image.10, image.11)),
        )
    }

    proof fn lemma_image(x: int3) {
        lemma_recast_i32(x.0);
        lemma_regroup_u8_u32(i32_to_u32(x.0), 0, 0, 0, 0);
        lemma_recast_i32(x.1);
        lemma_regroup_u8_u32(i32_to_u32(x.1), 0, 0, 0, 0);
        lemma_recast_i32(x.2);
        lemma_regroup_u8_u32(i32_to_u32(x.2), 0, 0, 0, 0);
    }

    proof fn lemma_from_image(image: uchar16) {
    }
}

impl int3 {
    /// Read as `uint3`, which has lanes of the same width, a vector keeps the bits of every lane;
    /// read as `int3` again, it is what it was.
    pub proof fn lemma_bitcast_uint3(x: int3)
        ensures
            spec_bitcast::<int3, uint3>(x)
                == uint3(i32_to_u32(x.0), i32_to_u32(x.1), i32_to_u32(x.2)),
            spec_bitcast::<uint3, int3>(spec_bitcast::<int3, uint3>(x)) == x,
    {
        lemma_recast_i32(x.0);
        lemma_regroup_u8_u32(i32_to_u32(x.0), 0, 0, 0, 0);
        lemma_recast_i32(x.1);
        lemma_regroup_u8_u32(i32_to_u32(x.1), 0, 0, 0, 0);
        lemma_recast_i32(x.2);
        lemma_regroup_u8_u32(i32_to_u32(x.2), 0, 0, 0, 0);
    }

    /// Read as `float3`, which has lanes of the same width, a vector keeps the bits of every lane;
    /// read as `int3` again, it is what it was.
    pub proof fn lemma_bitcast_float3(x: int3)
        ensures
            spec_bitcast::<int3, float3>(x)
                == float3(i32_to_u32(x.0), i32_to_u32(x.1), i32_to_u32(x.2)),
            spec_bitcast::<float3, int3>(spec_bitcast::<int3, float3>(x)) == x,
    {
        lemma_recast_i32(x.0);
        lemma_regroup_u8_u32(i32_to_u32(x.0), 0, 0, 0, 0);
        lemma_recast_i32(x.1);
        lemma_regroup_u8_u32(i32_to_u32(x.1), 0, 0, 0, 0);
        lemma_recast_i32(x.2);
        lemma_regroup_u8_u32(i32_to_u32(x.2), 0, 0, 0, 0);
    }
}

} // verus!
