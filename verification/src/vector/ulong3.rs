//! `ulong3`: three lanes of `u64`.

use crate::scalar::lane_u64::{
    abs_u64, add_u64, clamp_u64, div_u64, eq_u64, ge_u64, gt_u64, isize_to_u64, le_u64,
    lemma_arith_u64, lemma_bits_u64, lemma_not_u64, lemma_recast_u64, lt_u64, madd_u64, max_u64,
    min_u64, mul_u64, ne_u64, neg_u64, not_u64, rem_u64, shl_u64, shr_u64, sub_u64, truth_u64,
    u64_to_i16, u64_to_i16_sat, u64_to_i32, u64_to_i32_sat, u64_to_i64, u64_to_i64_sat, u64_to_i8,
    u64_to_i8_sat, u64_to_u16, u64_to_u16_sat, u64_to_u32, u64_to_u32_sat, u64_to_u8, u64_to_u8_sat,
};
use crate::scalar::model::{
    lemma_wrap_u64_sum, sat_i16, sat_i32, sat_i64, sat_i8, sat_u16, sat_u32, sat_u8, wrap_u64,
};
use crate::scalar::regroup::{join_u16_u64, lemma_regroup_u16_u64, split_u64_u16};
use crate::traits::{Bitcast, Dot, Integer, Vector, bitcast, spec_bitcast};
use crate::vector::char3::char3;
use crate::vector::double3::double3;
use crate::vector::float3::float3;
use crate::vector::int3::int3;
use crate::vector::long3::long3;
use crate::vector::short3::short3;
use crate::vector::uchar3::uchar3;
use crate::vector::uint3::uint3;
use crate::vector::ulong2::ulong2;
use crate::vector::ushort16::ushort16;
use crate::vector::ushort3::ushort3;
use vstd::prelude::*;
use vstd::std_specs::convert::FromSpecImpl;
use vstd::std_specs::ops::{
    AddSpec, AddSpecImpl, BitAndSpecImpl, BitOrSpecImpl, BitXorSpecImpl, DivSpecImpl, MulSpecImpl,
    NegSpec, NegSpecImpl, NotSpec, NotSpecImpl, RemSpecImpl, ShlSpecImpl, ShrSpecImpl, SubSpec,
    SubSpecImpl,
};

verus! {

/// Three lanes of `u64`.
#[derive(Copy, Clone, Debug, PartialEq, Eq, Structural)]
pub struct ulong3(pub u64, pub u64, pub u64);

impl core::ops::Add for ulong3 {
    type Output = ulong3;

    /// The lane-wise sum of the two vectors, wrapping around.
    fn add(self, rhs: ulong3) -> (r: ulong3) {
        ulong3(add_u64(self.0, rhs.0), add_u64(self.1, rhs.1), add_u64(self.2, rhs.2))
    }
}

impl AddSpecImpl for ulong3 {
    open spec fn obeys_add_spec() -> bool {
        true
    }

    open spec fn add_req(self, rhs: ulong3) -> bool {
        true
    }

    open spec fn add_spec(self, rhs: ulong3) -> ulong3 {
        ulong3(add_u64(self.0, rhs.0), add_u64(self.1, rhs.1), add_u64(self.2, rhs.2))
    }
}

impl core::ops::Add<u64> for ulong3 {
    type Output = ulong3;

    /// The sum of every lane and the scalar, wrapping around.
    fn add(self, rhs: u64) -> (r: ulong3) {
        ulong3(add_u64(self.0, rhs), add_u64(self.1, rhs), add_u64(self.2, rhs))
    }
}

impl AddSpecImpl<u64> for ulong3 {
    open spec fn obeys_add_spec() -> bool {
        true
    }

    open spec fn add_req(self, rhs: u64) -> bool {
        true
    }

    open spec fn add_spec(self, rhs: u64) -> ulong3 {
        ulong3(add_u64(self.0, rhs), add_u64(self.1, rhs), add_u64(self.2, rhs))
    }
}

impl core::ops::Add<ulong3> for u64 {
    type Output = ulong3;

    /// The sum of the scalar and every lane, wrapping around.
    fn add(self, rhs: ulong3) -> (r: ulong3) {
        ulong3(add_u64(self, rhs.0), add_u64(self, rhs.1), add_u64(self, rhs.2))
    }
}

impl AddSpecImpl<ulong3> for u64 {
    open spec fn obeys_add_spec() -> bool {
        true
    }

    open spec fn add_req(self, rhs: ulong3) -> bool {
        true
    }

    open spec fn add_spec(self, rhs: ulong3) -> ulong3 {
        ulong3(add_u64(self, rhs.0), add_u64(self, rhs.1), add_u64(self, rhs.2))
    }
}

impl core::ops::Sub for ulong3 {
    type Output = ulong3;

    /// The lane-wise difference of the two vectors, wrapping around.
    fn sub(self, rhs: ulong3) -> (r: ulong3) {
        ulong3(sub_u64(self.0, rhs.0), sub_u64(self.1, rhs.1), sub_u64(self.2, rhs.2))
    }
}

impl SubSpecImpl for ulong3 {
    open spec fn obeys_sub_spec() -> bool {
        true
    }

    open spec fn sub_req(self, rhs: ulong3) -> bool {
        true
    }

    open spec fn sub_spec(self, rhs: ulong3) -> ulong3 {
        ulong3(sub_u64(self.0, rhs.0), sub_u64(self.1, rhs.1), sub_u64(self.2, rhs.2))
    }
}

impl core::ops::Sub<u64> for ulong3 {
    type Output = ulong3;

    /// The difference of every lane and the scalar, wrapping around.
    fn sub(self, rhs: u64) -> (r: ulong3) {
        ulong3(sub_u64(self.0, rhs), sub_u64(self.1, rhs), sub_u64(self.2, rhs))
    }
}

impl SubSpecImpl<u64> for ulong3 {
    open spec fn obeys_sub_spec() -> bool {
        true
    }

    open spec fn sub_req(self, rhs: u64) -> bool {
        true
    }

    open spec fn sub_spec(self, rhs: u64) -> ulong3 {
        ulong3(sub_u64(self.0, rhs), sub_u64(self.1, rhs), sub_u64(self.2, rhs))
    }
}

impl core::ops::Sub<ulong3> for u64 {
    type Output = ulong3;

    /// The difference of the scalar and every lane, wrapping around.
    fn sub(self, rhs: ulong3) -> (r: ulong3) {
        ulong3(sub_u64(self, rhs.0), sub_u64(self, rhs.1), sub_u64(self, rhs.2))
    }
}

impl SubSpecImpl<ulong3> for u64 {
    open spec fn obeys_sub_spec() -> bool {
        true
    }

    open spec fn sub_req(self, rhs: ulong3) -> bool {
        true
    }

    open spec fn sub_spec(self, rhs: ulong3) -> ulong3 {
        ulong3(sub_u64(self, rhs.0), sub_u64(self, rhs.1), sub_u64(self, rhs.2))
    }
}

impl core::ops::Mul for ulong3 {
    type Output = ulong3;

    /// The lane-wise product of the two vectors, wrapping around.
    fn mul(self, rhs: ulong3) -> (r: ulong3) {
        ulong3(mul_u64(self.0, rhs.0), mul_u64(self.1, rhs.1), mul_u64(self.2, rhs.2))
    }
}

impl MulSpecImpl for ulong3 {
    open spec fn obeys_mul_spec() -> bool {
        true
    }

    open spec fn mul_req(self, rhs: ulong3) -> bool {
        true
    }

    open spec fn mul_spec(self, rhs: ulong3) -> ulong3 {
        ulong3(mul_u64(self.0, rhs.0), mul_u64(self.1, rhs.1), mul_u64(self.2, rhs.2))
    }
}

impl core::ops::Mul<u64> for ulong3 {
    type Output = ulong3;

    /// The product of every lane and the scalar, wrapping around.
    fn mul(self, rhs: u64) -> (r: ulong3) {
        ulong3(mul_u64(self.0, rhs), mul_u64(self.1, rhs), mul_u64(self.2, rhs))
    }
}

impl MulSpecImpl<u64> for ulong3 {
    open spec fn obeys_mul_spec() -> bool {
        true
    }

    open spec fn mul_req(self, rhs: u64) -> bool {
        true
    }

    open spec fn mul_spec(self, rhs: u64) -> ulong3 {
        ulong3(mul_u64(self.0, rhs), mul_u64(self.1, rhs), mul_u64(self.2, rhs))
    }
}

impl core::ops::Mul<ulong3> for u64 {
    type Output = ulong3;

    /// The product of the scalar and every lane, wrapping around.
    fn mul(self, rhs: ulong3) -> (r: ulong3) {
        ulong3(mul_u64(self, rhs.0), mul_u64(self, rhs.1), mul_u64(self, rhs.2))
    }
}

impl MulSpecImpl<ulong3> for u64 {
    open spec fn obeys_mul_spec() -> bool {
        true
    }

    open spec fn mul_req(self, rhs: ulong3) -> bool {
        true
    }

    open spec fn mul_spec(self, rhs: ulong3) -> ulong3 {
        ulong3(mul_u64(self, rhs.0), mul_u64(self, rhs.1), mul_u64(self, rhs.2))
    }
}

impl core::ops::Div for ulong3 {
    type Output = ulong3;

    /// The lane-wise quotient of the two vectors, rounded toward zero. No lane of the divisor is
    /// zero.
    fn div(self, rhs: ulong3) -> (r: ulong3) {
        ulong3(div_u64(self.0, rhs.0), div_u64(self.1, rhs.1), div_u64(self.2, rhs.2))
    }
}

impl DivSpecImpl for ulong3 {
    open spec fn obeys_div_spec() -> bool {
        true
    }

    open spec fn div_req(self, rhs: ulong3) -> bool {
        rhs.0 != 0 && rhs.1 != 0 && rhs.2 != 0
    }

    open spec fn div_spec(self, rhs: ulong3) -> ulong3 {
        ulong3(div_u64(self.0, rhs.0), div_u64(self.1, rhs.1), div_u64(self.2, rhs.2))
    }
}

impl core::ops::Div<u64> for ulong3 {
    type Output = ulong3;

    /// The quotient of every lane by the scalar, rounded toward zero. The scalar is not zero.
    fn div(self, rhs: u64) -> (r: ulong3) {
        ulong3(div_u64(self.0, rhs), div_u64(self.1, rhs), div_u64(self.2, rhs))
    }
}

impl DivSpecImpl<u64> for ulong3 {
    open spec fn obeys_div_spec() -> bool {
        true
    }

    open spec fn div_req(self, rhs: u64) -> bool {
        rhs != 0
    }

    open spec fn div_spec(self, rhs: u64) -> ulong3 {
        ulong3(div_u64(self.0, rhs), div_u64(self.1, rhs), div_u64(self.2, rhs))
    }
}

impl core::ops::Div<ulong3> for u64 {
    type Output = ulong3;

    /// The quotient of the scalar by every lane, rounded toward zero. No lane is zero.
    fn div(self, rhs: ulong3) -> (r: ulong3) {
        ulong3(div_u64(self, rhs.0), div_u64(self, rhs.1), div_u64(self, rhs.2))
    }
}

impl DivSpecImpl<ulong3> for u64 {
    open spec fn obeys_div_spec() -> bool {
        true
    }

    open spec fn div_req(self, rhs: ulong3) -> bool {
        rhs.0 != 0 && rhs.1 != 0 && rhs.2 != 0
    }

    open spec fn div_spec(self, rhs: ulong3) -> ulong3 {
        ulong3(div_u64(self, rhs.0), div_u64(self, rhs.1), div_u64(self, rhs.2))
    }
}

impl core::ops::BitAnd for ulong3 {
    type Output = ulong3;

    /// The lane-wise conjunction of the two vectors, bit by bit.
    fn bitand(self, rhs: ulong3) -> (r: ulong3) {
        ulong3(self.0 & rhs.0, self.1 & rhs.1, self.2 & rhs.2)
    }
}

impl BitAndSpecImpl for ulong3 {
    open spec fn obeys_bitand_spec() -> bool {
        true
    }

    open spec fn bitand_req(self, rhs: ulong3) -> bool {
        true
    }

    open spec fn bitand_spec(self, rhs: ulong3) -> ulong3 {
        ulong3(self.0 & rhs.0, self.1 & rhs.1, self.2 & rhs.2)
    }
}

impl core::ops::BitAnd<u64> for ulong3 {
    type Output = ulong3;

    /// The conjunction of every lane and the scalar, bit by bit.
    fn bitand(self, rhs: u64) -> (r: ulong3) {
        ulong3(self.0 & rhs, self.1 & rhs, self.2 & rhs)
    }
}

impl BitAndSpecImpl<u64> for ulong3 {
    open spec fn obeys_bitand_spec() -> bool {
        true
    }

    open spec fn bitand_req(self, rhs: u64) -> bool {
        true
    }

    open spec fn bitand_spec(self, rhs: u64) -> ulong3 {
        ulong3(self.0 & rhs, self.1 & rhs, self.2 & rhs)
    }
}

impl core::ops::BitAnd<ulong3> for u64 {
    type Output = ulong3;

    /// The conjunction of the scalar and every lane, bit by bit.
    fn bitand(self, rhs: ulong3) -> (r: ulong3) {
        ulong3(self & rhs.0, self & rhs.1, self & rhs.2)
    }
}

impl BitAndSpecImpl<ulong3> for u64 {
    open spec fn obeys_bitand_spec() -> bool {
        true
    }

    open spec fn bitand_req(self, rhs: ulong3) -> bool {
        true
    }

    open spec fn bitand_spec(self, rhs: ulong3) -> ulong3 {
        ulong3(self & rhs.0, self & rhs.1, self & rhs.2)
    }
}

impl core::ops::BitOr for ulong3 {
    type Output = ulong3;

    /// The lane-wise disjunction of the two vectors, bit by bit.
    fn bitor(self, rhs: ulong3) -> (r: ulong3) {
        ulong3(self.0 | rhs.0, self.1 | rhs.1, self.2 | rhs.2)
    }
}

impl BitOrSpecImpl for ulong3 {
    open spec fn obeys_bitor_spec() -> bool {
        true
    }

    open spec fn bitor_req(self, rhs: ulong3) -> bool {
        true
    }

    open spec fn bitor_spec(self, rhs: ulong3) -> ulong3 {
        ulong3(self.0 | rhs.0, self.1 | rhs.1, self.2 | rhs.2)
    }
}

impl core::ops::BitOr<u64> for ulong3 {
    type Output = ulong3;

    /// The disjunction of every lane and the scalar, bit by bit.
    fn bitor(self, rhs: u64) -> (r: ulong3) {
        ulong3(self.0 | rhs, self.1 | rhs, self.2 | rhs)
    }
}

impl BitOrSpecImpl<u64> for ulong3 {
    open spec fn obeys_bitor_spec() -> bool {
        true
    }

    open spec fn bitor_req(self, rhs: u64) -> bool {
        true
    }

    open spec fn bitor_spec(self, rhs: u64) -> ulong3 {
        ulong3(self.0 | rhs, self.1 | rhs, self.2 | rhs)
    }
}

impl core::ops::BitOr<ulong3> for u64 {
    type Output = ulong3;

    /// The disjunction of the scalar and every lane, bit by bit.
    fn bitor(self, rhs: ulong3) -> (r: ulong3) {
        ulong3(self | rhs.0, self | rhs.1, self | rhs.2)
    }
}

impl BitOrSpecImpl<ulong3> for u64 {
    open spec fn obeys_bitor_spec() -> bool {
        true
    }

    open spec fn bitor_req(self, rhs: ulong3) -> bool {
        true
    }

    open spec fn bitor_spec(self, rhs: ulong3) -> ulong3 {
        ulong3(self | rhs.0, self | rhs.1, self | rhs.2)
    }
}

impl core::ops::BitXor for ulong3 {
    type Output = ulong3;

    /// The lane-wise exclusive disjunction of the two vectors, bit by bit.
    fn bitxor(self, rhs: ulong3) -> (r: ulong3) {
        ulong3(self.0 ^ rhs.0, self.1 ^ rhs.1, self.2 ^ rhs.2)
    }
}

impl BitXorSpecImpl for ulong3 {
    open spec fn obeys_bitxor_spec() -> bool {
        true
    }

    open spec fn bitxor_req(self, rhs: ulong3) -> bool {
        true
    }

    open spec fn bitxor_spec(self, rhs: ulong3) -> ulong3 {
        ulong3(self.0 ^ rhs.0, self.1 ^ rhs.1, self.2 ^ rhs.2)
    }
}

impl core::ops::BitXor<u64> for ulong3 {
    type Output = ulong3;

    /// The exclusive disjunction of every lane and the scalar, bit by bit.
    fn bitxor(self, rhs: u64) -> (r: ulong3) {
        ulong3(self.0 ^ rhs, self.1 ^ rhs, self.2 ^ rhs)
    }
}

impl BitXorSpecImpl<u64> for ulong3 {
    open spec fn obeys_bitxor_spec() -> bool {
        true
    }

    open spec fn bitxor_req(self, rhs: u64) -> bool {
        true
    }

    open spec fn bitxor_spec(self, rhs: u64) -> ulong3 {
        ulong3(self.0 ^ rhs, self.1 ^ rhs, self.2 ^ rhs)
    }
}

impl core::ops::BitXor<ulong3> for u64 {
    type Output = ulong3;

    /// The exclusive disjunction of the scalar and every lane, bit by bit.
    fn bitxor(self, rhs: ulong3) -> (r: ulong3) {
        ulong3(self ^ rhs.0, self ^ rhs.1, self ^ rhs.2)
    }
}

impl BitXorSpecImpl<ulong3> for u64 {
    open spec fn obeys_bitxor_spec() -> bool {
        true
    }

    open spec fn bitxor_req(self, rhs: ulong3) -> bool {
        true
    }

    open spec fn bitxor_spec(self, rhs: ulong3) -> ulong3 {
        ulong3(self ^ rhs.0, self ^ rhs.1, self ^ rhs.2)
    }
}

impl core::ops::Shl for ulong3 {
    type Output = ulong3;

    /// Every lane shifted left by the lane of `rhs`, which is below 64.
    fn shl(self, rhs: ulong3) -> (r: ulong3) {
        ulong3(shl_u64(self.0, rhs.0), shl_u64(self.1, rhs.1), shl_u64(self.2, rhs.2))
    }
}

impl ShlSpecImpl for ulong3 {
    open spec fn obeys_shl_spec() -> bool {
        true
    }

    open spec fn shl_req(self, rhs: ulong3) -> bool {
        0 <= rhs.0 < 64 && 0 <= rhs.1 < 64 && 0 <= rhs.2 < 64
    }

    open spec fn shl_spec(self, rhs: ulong3) -> ulong3 {
        ulong3(shl_u64(self.0, rhs.0), shl_u64(self.1, rhs.1), shl_u64(self.2, rhs.2))
    }
}

impl core::ops::Shl<u64> for ulong3 {
    type Output = ulong3;

    /// Every lane shifted left by `rhs`, which is below 64.
    fn shl(self, rhs: u64) -> (r: ulong3) {
        ulong3(shl_u64(self.0, rhs), shl_u64(self.1, rhs), shl_u64(self.2, rhs))
    }
}

impl ShlSpecImpl<u64> for ulong3 {
    open spec fn obeys_shl_spec() -> bool {
        true
    }

    open spec fn shl_req(self, rhs: u64) -> bool {
        0 <= rhs < 64
    }

    open spec fn shl_spec(self, rhs: u64) -> ulong3 {
        ulong3(shl_u64(self.0, rhs), shl_u64(self.1, rhs), shl_u64(self.2, rhs))
    }
}

impl core::ops::Shl<ulong3> for u64 {
    type Output = ulong3;

    /// The scalar shifted left by every lane of `rhs`, each of which is below 64.
    fn shl(self, rhs: ulong3) -> (r: ulong3) {
        ulong3(shl_u64(self, rhs.0), shl_u64(self, rhs.1), shl_u64(self, rhs.2))
    }
}

impl ShlSpecImpl<ulong3> for u64 {
    open spec fn obeys_shl_spec() -> bool {
        true
    }

    open spec fn shl_req(self, rhs: ulong3) -> bool {
        0 <= rhs.0 < 64 && 0 <= rhs.1 < 64 && 0 <= rhs.2 < 64
    }

    open spec fn shl_spec(self, rhs: ulong3) -> ulong3 {
        ulong3(shl_u64(self, rhs.0), shl_u64(self, rhs.1), shl_u64(self, rhs.2))
    }
}

impl core::ops::Shr for ulong3 {
    type Output = ulong3;

    /// Every lane shifted right by the lane of `rhs`, which is below 64.
    fn shr(self, rhs: ulong3) -> (r: ulong3) {
        ulong3(shr_u64(self.0, rhs.0), shr_u64(self.1, rhs.1), shr_u64(self.2, rhs.2))
    }
}

impl ShrSpecImpl for ulong3 {
    open spec fn obeys_shr_spec() -> bool {
        true
    }

    open spec fn shr_req(self, rhs: ulong3) -> bool {
        0 <= rhs.0 < 64 && 0 <= rhs.1 < 64 && 0 <= rhs.2 < 64
    }

    open spec fn shr_spec(self, rhs: ulong3) -> ulong3 {
        ulong3(shr_u64(self.0, rhs.0), shr_u64(self.1, rhs.1), shr_u64(self.2, rhs.2))
    }
}

impl core::ops::Shr<u64> for ulong3 {
    type Output = ulong3;

    /// Every lane shifted right by `rhs`, which is below 64.
    fn shr(self, rhs: u64) -> (r: ulong3) {
        ulong3(shr_u64(self.0, rhs), shr_u64(self.1, rhs), shr_u64(self.2, rhs))
    }
}

impl ShrSpecImpl<u64> for ulong3 {
    open spec fn obeys_shr_spec() -> bool {
        true
    }

    open spec fn shr_req(self, rhs: u64) -> bool {
        0 <= rhs < 64
    }

    open spec fn shr_spec(self, rhs: u64) -> ulong3 {
        ulong3(shr_u64(self.0, rhs), shr_u64(self.1, rhs), shr_u64(self.2, rhs))
    }
}

impl core::ops::Shr<ulong3> for u64 {
    type Output = ulong3;

    /// The scalar shifted right by every lane of `rhs`, each of which is below 64.
    fn shr(self, rhs: ulong3) -> (r: ulong3) {
        ulong3(shr_u64(self, rhs.0), shr_u64(self, rhs.1), shr_u64(self, rhs.2))
    }
}

impl ShrSpecImpl<ulong3> for u64 {
    open spec fn obeys_shr_spec() -> bool {
        true
    }

    open spec fn shr_req(self, rhs: ulong3) -> bool {
        0 <= rhs.0 < 64 && 0 <= rhs.1 < 64 && 0 <= rhs.2 < 64
    }

    open spec fn shr_spec(self, rhs: ulong3) -> ulong3 {
        ulong3(shr_u64(self, rhs.0), shr_u64(self, rhs.1), shr_u64(self, rhs.2))
    }
}

impl core::ops::Rem for ulong3 {
    type Output = ulong3;

    /// The lane-wise remainder `self - (self / rhs) * rhs`. No lane of the divisor is zero.
    fn rem(self, rhs: ulong3) -> (r: ulong3) {
        ulong3(rem_u64(self.0, rhs.0), rem_u64(self.1, rhs.1), rem_u64(self.2, rhs.2))
    }
}

impl RemSpecImpl for ulong3 {
    open spec fn obeys_rem_spec() -> bool {
        true
    }

    open spec fn rem_req(self, rhs: ulong3) -> bool {
        rhs.0 != 0 && rhs.1 != 0 && rhs.2 != 0
    }

    open spec fn rem_spec(self, rhs: ulong3) -> ulong3 {
        ulong3(rem_u64(self.0, rhs.0), rem_u64(self.1, rhs.1), rem_u64(self.2, rhs.2))
    }
}

impl core::ops::Neg for ulong3 {
    type Output = ulong3;

    /// Zero minus every lane, wrapping around.
    fn neg(self) -> (r: ulong3) {
        ulong3(neg_u64(self.0), neg_u64(self.1), neg_u64(self.2))
    }
}

impl NegSpecImpl for ulong3 {
    open spec fn obeys_neg_spec() -> bool {
        true
    }

    open spec fn neg_req(self) -> bool {
        true
    }

    open spec fn neg_spec(self) -> ulong3 {
        ulong3(neg_u64(self.0), neg_u64(self.1), neg_u64(self.2))
    }
}

impl core::ops::Not for ulong3 {
    type Output = ulong3;

    /// Every lane with every bit flipped.
    fn not(self) -> (r: ulong3) {
        ulong3(not_u64(self.0), not_u64(self.1), not_u64(self.2))
    }
}

impl NotSpecImpl for ulong3 {
    open spec fn obeys_not_spec() -> bool {
        true
    }

    open spec fn not_req(self) -> bool {
        true
    }

    open spec fn not_spec(self) -> ulong3 {
        ulong3(not_u64(self.0), not_u64(self.1), not_u64(self.2))
    }
}

impl core::convert::From<isize> for ulong3 {
    /// The vector with `x`, wrapped to `u64`, in every lane.
    fn from(x: isize) -> (r: ulong3) {
        let v = isize_to_u64(x);
        ulong3(v, v, v)
    }
}

impl FromSpecImpl<isize> for ulong3 {
    open spec fn obeys_from_spec() -> bool {
        true
    }

    open spec fn from_spec(x: isize) -> ulong3 {
        ulong3(isize_to_u64(x), isize_to_u64(x), isize_to_u64(x))
    }
}

impl core::ops::Index<u32> for ulong3 {
    type Output = u64;

    /// Lane `i`, which is below 3.
    fn index(&self, i: u32) -> (r: &u64)
        ensures
            *r == self.lane(i as int),
    {
        match i {
            0 => &self.0,
            1 => &self.1,
            _ => &self.2,
        }
    }
}

impl vstd::std_specs::core::IndexSpecImpl<u32> for ulong3 {
    open spec fn index_req(&self, i: &u32) -> bool {
        *i < 3
    }
}

impl ulong3 {
    /// Lane `i`, counted from zero.
    pub open spec fn lane(self, i: int) -> u64
        recommends
            0 <= i < 3,
    {
        if i == 0 {
            self.0
        } else if i == 1 {
            self.1
        } else {
            self.2
        }
    }

    /// The vector of type `ulong3` with the bits of `x`, a value of a type that has as many bits,
    /// which is one with images of type `ushort16`.
    pub fn bitcast<U: Bitcast<Image = ushort16>>(x: U) -> (r: ulong3)
        ensures
            r == spec_bitcast::<U, ulong3>(x),
    {
        bitcast(x)
    }

    /// The vector with `x` in every lane.
    pub fn broadcast(x: u64) -> (r: ulong3)
        ensures
            r == ulong3(x, x, x),
    {
        ulong3(x, x, x)
    }

    /// Lane `i`, which is below 3.
    pub fn extract(self, i: u32) -> (r: u64)
        requires
            i < 3,
        ensures
            r == self.lane(i as int),
    {
        match i {
            0 => self.0,
            1 => self.1,
            _ => self.2,
        }
    }

    /// The vector with `x` in lane `i`, which is below 3, and the other lanes unchanged.
    pub fn replace(self, i: u32, x: u64) -> (r: ulong3)
        requires
            i < 3,
        ensures
            forall|j: int| 0 <= j < 3 ==> #[trigger] r.lane(j) == (if j == i {
                x
            } else {
                self.lane(j)
            }),
    {
        match i {
            0 => ulong3(x, self.1, self.2),
            1 => ulong3(self.0, x, self.2),
            _ => ulong3(self.0, self.1, x),
        }
    }

    /// The mask that is all ones where the lanes of `x` and `y` are equal, and zero elsewhere.
    pub fn eq(x: ulong3, y: ulong3) -> (r: long3)
        ensures
            r == long3(eq_u64(x.0, y.0), eq_u64(x.1, y.1), eq_u64(x.2, y.2)),
    {
        long3(eq_u64(x.0, y.0), eq_u64(x.1, y.1), eq_u64(x.2, y.2))
    }

    /// The mask that is all ones where the lanes of `x` and `y` differ, and zero elsewhere.
    pub fn ne(x: ulong3, y: ulong3) -> (r: long3)
        ensures
            r == long3(ne_u64(x.0, y.0), ne_u64(x.1, y.1), ne_u64(x.2, y.2)),
    {
        long3(ne_u64(x.0, y.0), ne_u64(x.1, y.1), ne_u64(x.2, y.2))
    }

    /// The mask that is all ones where the lane of `x` is less than that of `y`, and zero
    /// elsewhere.
    pub fn lt(x: ulong3, y: ulong3) -> (r: long3)
        ensures
            r == long3(lt_u64(x.0, y.0), lt_u64(x.1, y.1), lt_u64(x.2, y.2)),
    {
        long3(lt_u64(x.0, y.0), lt_u64(x.1, y.1), lt_u64(x.2, y.2))
    }

    /// The mask that is all ones where the lane of `x` is at most that of `y`, and zero elsewhere.
    pub fn le(x: ulong3, y: ulong3) -> (r: long3)
        ensures
            r == long3(le_u64(x.0, y.0), le_u64(x.1, y.1), le_u64(x.2, y.2)),
    {
        long3(le_u64(x.0, y.0), le_u64(x.1, y.1), le_u64(x.2, y.2))
    }

    /// The mask that is all ones where the lane of `x` is greater than that of `y`, and zero
    /// elsewhere.
    pub fn gt(x: ulong3, y: ulong3) -> (r: long3)
        ensures
            r == long3(gt_u64(x.0, y.0), gt_u64(x.1, y.1), gt_u64(x.2, y.2)),
    {
        long3(gt_u64(x.0, y.0), gt_u64(x.1, y.1), gt_u64(x.2, y.2))
    }

    /// The mask that is all ones where the lane of `x` is at least that of `y`, and zero elsewhere.
    pub fn ge(x: ulong3, y: ulong3) -> (r: long3)
        ensures
            r == long3(ge_u64(x.0, y.0), ge_u64(x.1, y.1), ge_u64(x.2, y.2)),
    {
        long3(ge_u64(x.0, y.0), ge_u64(x.1, y.1), ge_u64(x.2, y.2))
    }

    /// `x * y + z` lane by lane, wrapping around.
    pub fn madd(x: ulong3, y: ulong3, z: ulong3) -> (r: ulong3)
        ensures
            r == ulong3(madd_u64(x.0, y.0, z.0), madd_u64(x.1, y.1, z.1), madd_u64(x.2, y.2, z.2)),
    {
        ulong3(madd_u64(x.0, y.0, z.0), madd_u64(x.1, y.1, z.1), madd_u64(x.2, y.2, z.2))
    }

    /// The magnitude of every lane, which is the lane.
    pub fn abs(x: ulong3) -> (r: ulong3)
        ensures
            r == x.spec_abs(),
    {
        ulong3(abs_u64(x.0), abs_u64(x.1), abs_u64(x.2))
    }

    /// The greater lane of `x` and `y`, lane by lane.
    pub fn max(x: ulong3, y: ulong3) -> (r: ulong3)
        ensures
            r == x.spec_max(y),
    {
        ulong3(max_u64(x.0, y.0), max_u64(x.1, y.1), max_u64(x.2, y.2))
    }

    /// The smaller lane of `x` and `y`, lane by lane.
    pub fn min(x: ulong3, y: ulong3) -> (r: ulong3)
        ensures
            r == x.spec_min(y),
    {
        ulong3(min_u64(x.0, y.0), min_u64(x.1, y.1), min_u64(x.2, y.2))
    }

    /// Every lane of `x` raised to at least the lane of `lo`, then lowered to at most that of `hi`.
    pub fn clamp(x: ulong3, lo: ulong3, hi: ulong3) -> (r: ulong3)
        ensures
            r == x.spec_clamp(lo, hi),
    {
        ulong3(clamp_u64(x.0, lo.0, hi.0), clamp_u64(x.1, lo.1, hi.1), clamp_u64(x.2, lo.2, hi.2))
    }

    /// The sum of the lanes, wrapping around.
    pub fn reduce_add(x: ulong3) -> (r: u64)
        ensures
            r == x.spec_reduce_add(),
    {
        let s = add_u64(x.0, x.1);
        let ghost mut t: int = x.0 + x.1;
        proof {
            lemma_wrap_u64_sum(t, x.2 as int);
            t = t + x.2;
        }
        let s = add_u64(s, x.2);
        s
    }

    /// The smallest lane.
    pub fn reduce_min(x: ulong3) -> (r: u64)
        ensures
            r == x.spec_reduce_min(),
            r <= x.0 && r <= x.1 && r <= x.2,
            r == x.0 || r == x.1 || r == x.2,
    {
        let s = min_u64(x.0, x.1);
        let s = min_u64(s, x.2);
        s
    }

    /// The greatest lane.
    pub fn reduce_max(x: ulong3) -> (r: u64)
        ensures
            r == x.spec_reduce_max(),
            r >= x.0 && r >= x.1 && r >= x.2,
            r == x.0 || r == x.1 || r == x.2,
    {
        let s = max_u64(x.0, x.1);
        let s = max_u64(s, x.2);
        s
    }

    /// Every lane as `i8`: its low 8 bits, read as `i8`.
    pub fn to_char(x: ulong3) -> (r: char3)
        ensures
            r == char3(u64_to_i8(x.0), u64_to_i8(x.1), u64_to_i8(x.2)),
    {
        char3(u64_to_i8(x.0), u64_to_i8(x.1), u64_to_i8(x.2))
    }

    /// Every lane as `i8`, saturating: a lane outside the range of `i8` gives the nearest bound.
    pub fn to_char_sat(x: ulong3) -> (r: char3)
        ensures
            r == x.spec_to_char_sat(),
    {
        char3(u64_to_i8_sat(x.0), u64_to_i8_sat(x.1), u64_to_i8_sat(x.2))
    }

    /// Every lane as `u8`: its low 8 bits, read as `u8`.
    pub fn to_uchar(x: ulong3) -> (r: uchar3)
        ensures
            r == uchar3(u64_to_u8(x.0), u64_to_u8(x.1), u64_to_u8(x.2)),
    {
        uchar3(u64_to_u8(x.0), u64_to_u8(x.1), u64_to_u8(x.2))
    }

    /// Every lane as `u8`, saturating: a lane outside the range of `u8` gives the nearest bound.
    pub fn to_uchar_sat(x: ulong3) -> (r: uchar3)
        ensures
            r == x.spec_to_uchar_sat(),
    {
        uchar3(u64_to_u8_sat(x.0), u64_to_u8_sat(x.1), u64_to_u8_sat(x.2))
    }

    /// Every lane as `i16`: its low 16 bits, read as `i16`.
    pub fn to_short(x: ulong3) -> (r: short3)
        ensures
            r == short3(u64_to_i16(x.0), u64_to_i16(x.1), u64_to_i16(x.2)),
    {
        short3(u64_to_i16(x.0), u64_to_i16(x.1), u64_to_i16(x.2))
    }

    /// Every lane as `i16`, saturating: a lane outside the range of `i16` gives the nearest bound.
    pub fn to_short_sat(x: ulong3) -> (r: short3)
        ensures
            r == x.spec_to_short_sat(),
    {
        short3(u64_to_i16_sat(x.0), u64_to_i16_sat(x.1), u64_to_i16_sat(x.2))
    }

    /// Every lane as `u16`: its low 16 bits, read as `u16`.
    pub fn to_ushort(x: ulong3) -> (r: ushort3)
        ensures
            r == ushort3(u64_to_u16(x.0), u64_to_u16(x.1), u64_to_u16(x.2)),
    {
        ushort3(u64_to_u16(x.0), u64_to_u16(x.1), u64_to_u16(x.2))
    }

    /// Every lane as `u16`, saturating: a lane outside the range of `u16` gives the nearest bound.
    pub fn to_ushort_sat(x: ulong3) -> (r: ushort3)
        ensures
            r == x.spec_to_ushort_sat(),
    {
        ushort3(u64_to_u16_sat(x.0), u64_to_u16_sat(x.1), u64_to_u16_sat(x.2))
    }

    /// Every lane as `i32`: its low 32 bits, read as `i32`.
    pub fn to_int(x: ulong3) -> (r: int3)
        ensures
            r == int3(u64_to_i32(x.0), u64_to_i32(x.1), u64_to_i32(x.2)),
    {
        int3(u64_to_i32(x.0), u64_to_i32(x.1), u64_to_i32(x.2))
    }

    /// Every lane as `i32`, saturating: a lane outside the range of `i32` gives the nearest bound.
    pub fn to_int_sat(x: ulong3) -> (r: int3)
        ensures
            r == x.spec_to_int_sat(),
    {
        int3(u64_to_i32_sat(x.0), u64_to_i32_sat(x.1), u64_to_i32_sat(x.2))
    }

    /// Every lane as `u32`: its low 32 bits, read as `u32`.
    pub fn to_uint(x: ulong3) -> (r: uint3)
        ensures
            r == uint3(u64_to_u32(x.0), u64_to_u32(x.1), u64_to_u32(x.2)),
    {
        uint3(u64_to_u32(x.0), u64_to_u32(x.1), u64_to_u32(x.2))
    }

    /// Every lane as `u32`, saturating: a lane outside the range of `u32` gives the nearest bound.
    pub fn to_uint_sat(x: ulong3) -> (r: uint3)
        ensures
            r == x.spec_to_uint_sat(),
    {
        uint3(u64_to_u32_sat(x.0), u64_to_u32_sat(x.1), u64_to_u32_sat(x.2))
    }

    /// Every lane as `i64`: the same bits, read as `i64`.
    pub fn to_long(x: ulong3) -> (r: long3)
        ensures
            r == long3(u64_to_i64(x.0), u64_to_i64(x.1), u64_to_i64(x.2)),
    {
        long3(u64_to_i64(x.0), u64_to_i64(x.1), u64_to_i64(x.2))
    }

    /// Every lane as `i64`, saturating: a lane outside the range of `i64` gives the nearest bound.
    pub fn to_long_sat(x: ulong3) -> (r: long3)
        ensures
            r == x.spec_to_long_sat(),
    {
        long3(u64_to_i64_sat(x.0), u64_to_i64_sat(x.1), u64_to_i64_sat(x.2))
    }

    /// The vector itself: its lanes are `u64` already.
    pub fn to_ulong(x: ulong3) -> (r: ulong3)
        ensures
            r == x,
    {
        x
    }

    /// The vector itself: its lanes are `u64` already, and nothing saturates.
    pub fn to_ulong_sat(x: ulong3) -> (r: ulong3)
        ensures
            r == x.spec_to_ulong_sat(),
    {
        x
    }

    /// The low half: lanes 0 and 1.
    pub fn lo(self) -> (r: ulong2)
        ensures
            r == ulong2(self.0, self.1),
    {
        ulong2(self.0, self.1)
    }

    /// The high half: lane 2, then a zero in place of the lane that is not there.
    pub fn hi(self) -> (r: ulong2)
        ensures
            r == ulong2(self.2, 0),
    {
        ulong2(self.2, 0)
    }

    /// The odd lanes: lane 1, then a zero in place of the lane that is not there.
    pub fn odd(self) -> (r: ulong2)
        ensures
            r == ulong2(self.1, 0),
    {
        ulong2(self.1, 0)
    }

    /// The even lanes: lanes 0 and 2.
    pub fn even(self) -> (r: ulong2)
        ensures
            r == ulong2(self.0, self.2),
    {
        ulong2(self.0, self.2)
    }

    /// The vector of `f` applied to every lane. `f` accepts every lane.
    pub fn map_unary<F: Fn(u64) -> u64>(self, f: F) -> (r: ulong3)
        requires
            call_requires(f, (self.0,)),
            call_requires(f, (self.1,)),
            call_requires(f, (self.2,)),
        ensures
            call_ensures(f, (self.0,), r.0),
            call_ensures(f, (self.1,), r.1),
            call_ensures(f, (self.2,), r.2),
    {
        ulong3(f(self.0), f(self.1), f(self.2))
    }

    /// The vector of `f` applied to the lanes of the two vectors, lane by lane. `f` accepts every
    /// such pair of lanes.
    pub fn map_binary<F: Fn(u64, u64) -> u64>(self, other: ulong3, f: F) -> (r: ulong3)
        requires
            call_requires(f, (self.0, other.0)),
            call_requires(f, (self.1, other.1)),
            call_requires(f, (self.2, other.2)),
        ensures
            call_ensures(f, (self.0, other.0), r.0),
            call_ensures(f, (self.1, other.1), r.1),
            call_ensures(f, (self.2, other.2), r.2),
    {
        ulong3(f(self.0, other.0), f(self.1, other.1), f(self.2, other.2))
    }

    /// The lanes folded by `f`, from lane 0 upward: `f` is applied to lane 1 and lane 0, then to
    /// each further lane and what the lanes below it gave. `f` accepts every pair of scalars.
    pub fn reduce<F: Fn(u64, u64) -> u64>(self, f: F) -> (r: u64)
        requires
            forall|a: u64, b: u64| call_requires(f, (a, b)),
        ensures
            exists|s1: u64|
                call_ensures(f, (self.1, self.0), s1)
                    && call_ensures(f, (self.2, s1), r),
    {
        let s1 = f(self.1, self.0);
        let s2 = f(self.2, s1);
        s2
    }

    /// Addition commutes.
    pub proof fn lemma_add_commutes(x: ulong3, y: ulong3)
        ensures
            AddSpec::add_spec(x, y) == AddSpec::add_spec(y, x),
    {
        lemma_arith_u64(x.0, y.0, 0);
        lemma_arith_u64(x.1, y.1, 0);
        lemma_arith_u64(x.2, y.2, 0);
    }

    /// Addition associates, wrap-around or not.
    pub proof fn lemma_add_associates(x: ulong3, y: ulong3, z: ulong3)
        ensures
            AddSpec::add_spec(AddSpec::add_spec(x, y), z)
                == AddSpec::add_spec(x, AddSpec::add_spec(y, z)),
    {
        lemma_arith_u64(x.0, y.0, z.0);
        lemma_arith_u64(x.1, y.1, z.1);
        lemma_arith_u64(x.2, y.2, z.2);
    }

    /// Swapping the operands of a subtraction negates the difference.
    pub proof fn lemma_sub_swaps(x: ulong3, y: ulong3)
        ensures
            SubSpec::sub_spec(x, y) == NegSpec::neg_spec(SubSpec::sub_spec(y, x)),
    {
        lemma_arith_u64(x.0, y.0, 0);
        lemma_arith_u64(x.1, y.1, 0);
        lemma_arith_u64(x.2, y.2, 0);
    }

    /// The magnitude of an unsigned vector is the vector.
    pub proof fn lemma_abs(x: ulong3)
        ensures
            x.spec_abs() == x,
            x.spec_abs().spec_abs() == x.spec_abs(),
    {
    }

    /// Flipping every bit of a lane gives the greatest `u64` minus the lane.
    pub proof fn lemma_not(x: ulong3)
        ensures
            forall|i: int|
                0 <= i < 3 ==> #[trigger] NotSpec::not_spec(x).lane(i) == u64::MAX - x.lane(i),
    {
        lemma_not_u64(x.0);
        lemma_not_u64(x.1);
        lemma_not_u64(x.2);
    }

    /// The lanes of a vector with `k` in every lane add up to 3 times `k`, wrapped around.
    pub proof fn lemma_reduce_add_broadcast(k: u64)
        ensures
            ulong3(k, k, k).spec_reduce_add() == wrap_u64(3 * k),
    {
    }

    /// Saturating conversion to `i8` gives, lane by lane, the lane itself where `i8` holds it and
    /// the nearest bound of `i8` where it does not.
    pub proof fn lemma_to_char_sat(x: ulong3)
        ensures
            forall|i: int|
                0 <= i < 3 ==> #[trigger] x.spec_to_char_sat().lane(i) == sat_i8(x.lane(i) as int),
    {
    }

    /// Saturating conversion to `u8` gives, lane by lane, the lane itself where `u8` holds it and
    /// the nearest bound of `u8` where it does not.
    pub proof fn lemma_to_uchar_sat(x: ulong3)
        ensures
            forall|i: int|
                0 <= i < 3 ==> #[trigger] x.spec_to_uchar_sat().lane(i) == sat_u8(x.lane(i) as int),
    {
    }

    /// Saturating conversion to `i16` gives, lane by lane, the lane itself where `i16` holds it and
    /// the nearest bound of `i16` where it does not.
    pub proof fn lemma_to_short_sat(x: ulong3)
        ensures
            forall|i: int|
                0 <= i < 3 ==>
                    #[trigger] x.spec_to_short_sat().lane(i) == sat_i16(x.lane(i) as int),
    {
    }

    /// Saturating conversion to `u16` gives, lane by lane, the lane itself where `u16` holds it and
    /// the nearest bound of `u16` where it does not.
    pub proof fn lemma_to_ushort_sat(x: ulong3)
        ensures
            forall|i: int|
                0 <= i < 3 ==>
                    #[trigger] x.spec_to_ushort_sat().lane(i) == sat_u16(x.lane(i) as int),
    {
    }

    /// Saturating conversion to `i32` gives, lane by lane, the lane itself where `i32` holds it and
    /// the nearest bound of `i32` where it does not.
    pub proof fn lemma_to_int_sat(x: ulong3)
        ensures
            forall|i: int|
                0 <= i < 3 ==> #[trigger] x.spec_to_int_sat().lane(i) == sat_i32(x.lane(i) as int),
    {
    }

    /// Saturating conversion to `u32` gives, lane by lane, the lane itself where `u32` holds it and
    /// the nearest bound of `u32` where it does not.
    pub proof fn lemma_to_uint_sat(x: ulong3)
        ensures
            forall|i: int|
                0 <= i < 3 ==> #[trigger] x.spec_to_uint_sat().lane(i) == sat_u32(x.lane(i) as int),
    {
    }

    /// Saturating conversion to `i64` gives, lane by lane, the lane itself where `i64` holds it and
    /// the nearest bound of `i64` where it does not.
    pub proof fn lemma_to_long_sat(x: ulong3)
        ensures
            forall|i: int|
                0 <= i < 3 ==> #[trigger] x.spec_to_long_sat().lane(i) == sat_i64(x.lane(i) as int),
    {
    }
}

impl Vector for ulong3 {
    type Scalar = u64;

    type Boolean = long3;

    type CharVector = char3;

    type ShortVector = short3;

    type IntVector = int3;

    type LongVector = long3;

    type UCharVector = uchar3;

    type UShortVector = ushort3;

    type UIntVector = uint3;

    type ULongVector = ulong3;

    type FloatVector = float3;

    type DoubleVector = double3;

    open spec fn spec_abs(self) -> ulong3 {
        ulong3(abs_u64(self.0), abs_u64(self.1), abs_u64(self.2))
    }

    open spec fn spec_max(self, other: ulong3) -> ulong3 {
        ulong3(max_u64(self.0, other.0), max_u64(self.1, other.1), max_u64(self.2, other.2))
    }

    open spec fn spec_min(self, other: ulong3) -> ulong3 {
        ulong3(min_u64(self.0, other.0), min_u64(self.1, other.1), min_u64(self.2, other.2))
    }

    open spec fn spec_clamp(self, lo: ulong3, hi: ulong3) -> ulong3 {
        ulong3(
            clamp_u64(self.0, lo.0, hi.0), clamp_u64(self.1, lo.1, hi.1),
            clamp_u64(self.2, lo.2, hi.2),
        )
    }

    open spec fn spec_reduce_add(self) -> u64 {
        wrap_u64(self.0 + self.1 + self.2)
    }

    open spec fn spec_reduce_min(self) -> u64 {
        let s = min_u64(self.0, self.1);
        let s = min_u64(s, self.2);
        s
    }

    open spec fn spec_reduce_max(self) -> u64 {
        let s = max_u64(self.0, self.1);
        let s = max_u64(s, self.2);
        s
    }

    open spec fn spec_to_char_sat(self) -> char3 {
        char3(u64_to_i8_sat(self.0), u64_to_i8_sat(self.1), u64_to_i8_sat(self.2))
    }

    open spec fn spec_to_uchar_sat(self) -> uchar3 {
        uchar3(u64_to_u8_sat(self.0), u64_to_u8_sat(self.1), u64_to_u8_sat(self.2))
    }

    open spec fn spec_to_short_sat(self) -> short3 {
        short3(u64_to_i16_sat(self.0), u64_to_i16_sat(self.1), u64_to_i16_sat(self.2))
    }

    open spec fn spec_to_ushort_sat(self) -> ushort3 {
        ushort3(u64_to_u16_sat(self.0), u64_to_u16_sat(self.1), u64_to_u16_sat(self.2))
    }

    open spec fn spec_to_int_sat(self) -> int3 {
        int3(u64_to_i32_sat(self.0), u64_to_i32_sat(self.1), u64_to_i32_sat(self.2))
    }

    open spec fn spec_to_uint_sat(self) -> uint3 {
        uint3(u64_to_u32_sat(self.0), u64_to_u32_sat(self.1), u64_to_u32_sat(self.2))
    }

    open spec fn spec_to_long_sat(self) -> long3 {
        long3(u64_to_i64_sat(self.0), u64_to_i64_sat(self.1), u64_to_i64_sat(self.2))
    }

    open spec fn spec_to_ulong_sat(self) -> ulong3 {
        self
    }

    fn abs(self) -> (r: ulong3) {
        ulong3::abs(self)
    }

    fn max(self, other: ulong3) -> (r: ulong3) {
        ulong3::max(self, other)
    }

    fn min(self, other: ulong3) -> (r: ulong3) {
        ulong3::min(self, other)
    }

    fn clamp(self, lo: ulong3, hi: ulong3) -> (r: ulong3) {
        ulong3::clamp(self, lo, hi)
    }

    fn reduce_add(self) -> (r: u64) {
        ulong3::reduce_add(self)
    }

    fn reduce_min(self) -> (r: u64) {
        ulong3::reduce_min(self)
    }

    fn reduce_max(self) -> (r: u64) {
        ulong3::reduce_max(self)
    }

    fn to_char_sat(self) -> (r: char3) {
        ulong3::to_char_sat(self)
    }

    fn to_uchar_sat(self) -> (r: uchar3) {
        ulong3::to_uchar_sat(self)
    }

    fn to_short_sat(self) -> (r: short3) {
        ulong3::to_short_sat(self)
    }

    fn to_ushort_sat(self) -> (r: ushort3) {
        ulong3::to_ushort_sat(self)
    }

    fn to_int_sat(self) -> (r: int3) {
        ulong3::to_int_sat(self)
    }

    fn to_uint_sat(self) -> (r: uint3) {
        ulong3::to_uint_sat(self)
    }

    fn to_long_sat(self) -> (r: long3) {
        ulong3::to_long_sat(self)
    }

    fn to_ulong_sat(self) -> (r: ulong3) {
        ulong3::to_ulong_sat(self)
    }
}

impl Integer for ulong3 {
    open spec fn spec_reduce_and(self) -> u64 {
        self.0 & self.1 & self.2
    }

    open spec fn spec_reduce_or(self) -> u64 {
        self.0 | self.1 | self.2
    }

    open spec fn spec_reduce_xor(self) -> u64 {
        self.0 ^ self.1 ^ self.2
    }

    open spec fn spec_all(self) -> bool {
        truth_u64(self.0) && truth_u64(self.1) && truth_u64(self.2)
    }

    open spec fn spec_any(self) -> bool {
        truth_u64(self.0) || truth_u64(self.1) || truth_u64(self.2)
    }

    fn reduce_and(self) -> (r: u64) {
        self.0 & self.1 & self.2
    }

    fn reduce_or(self) -> (r: u64) {
        self.0 | self.1 | self.2
    }

    fn reduce_xor(self) -> (r: u64) {
        self.0 ^ self.1 ^ self.2
    }

    fn all(self) -> (r: bool) {
        proof {
            let s = self.0 & self.1;
            lemma_bits_u64(self.0, self.1, 0, 0, 0);
            lemma_bits_u64(s, self.2, 0, 0, 0);
        }
        truth_u64(self.reduce_and())
    }

    fn any(self) -> (r: bool) {
        proof {
            let s = self.0 | self.1;
            lemma_bits_u64(self.0, self.1, 0, 0, 0);
            lemma_bits_u64(s, self.2, 0, 0, 0);
        }
        truth_u64(self.reduce_or())
    }
}

impl Dot for ulong3 {
    type DotProduct = u64;

    open spec fn spec_dot(self, other: ulong3) -> u64 {
        wrap_u64(self.0 * other.0 + self.1 * other.1 + self.2 * other.2)
    }

    fn dot(self, other: ulong3) -> (r: u64) {
        let s = mul_u64(self.0, other.0);
        let ghost mut t: int = self.0 * other.0;
        proof {
            lemma_wrap_u64_sum(t, self.1 * other.1);
            t = t + self.1 * other.1;
        }
        let s = madd_u64(self.1, other.1, s);
        proof {
            lemma_wrap_u64_sum(t, self.2 * other.2);
            t = t + self.2 * other.2;
        }
        let s = madd_u64(self.2, other.2, s);
        s
    }
}

impl Bitcast for ulong3 {
    type Image = ushort16;

    open spec fn spec_image(self) -> ushort16 {
        let d0 = split_u64_u16(self.0);
        let d1 = split_u64_u16(self.1);
        let d2 = split_u64_u16(self.2);
        ushort16(d0.0, d0.1, d0.2, d0.3, d1.0, d1.1, d1.2, d1.3, d2.0, d2.1, d2.2, d2.3, 0, 0, 0, 0)
    }

    open spec fn spec_from_image(image: ushort16) -> ulong3 {
        ulong3(
            join_u16_u64(image.0, image.1, image.2, image.3),
            join_u16_u64(image.4, image.5, image.6, image.7),
            join_u16_u64(image.8, image.9, image.10, image.11),
        )
    }

    open spec fn spec_fills() -> bool {
        false
    }

    fn image(self) -> (r: ushort16) {
        let d0 = split_u64_u16(self.0);
        let d1 = split_u64_u16(self.1);
        let d2 = split_u64_u16(self.2);
        ushort16(d0.0, d0.1, d0.2, d0.3, d1.0, d1.1, d1.2, d1.3, d2.0, d2.1, d2.2, d2.3, 0, 0, 0, 0)
    }

    fn from_image(image: ushort16) -> (r: ulong3) {
        ulong3(
            join_u16_u64(image.0, image.1, image.2, image.3),
            join_u16_u64(image.4, image.5, image.6, image.7),
            join_u16_u64(image.8, image.9, image.10, image.11),
        )
    }

    proof fn lemma_image(x: ulong3) {
        lemma_regroup_u16_u64(x.0, 0, 0, 0, 0);
        lemma_regroup_u16_u64(x.1, 0, 0, 0, 0);
        lemma_regroup_u16_u64(x.2, 0, 0, 0, 0);
    }

    proof fn lemma_from_image(image: ushort16) {
    }
}

impl ulong3 {
    /// Read as `long3`, which has lanes of the same width, a vector keeps the bits of every lane;
    /// read as `ulong3` again, it is what it was.
    pub proof fn lemma_bitcast_long3(x: ulong3)
        ensures
            spec_bitcast::<ulong3, long3>(x)
                == long3(u64_to_i64(x.0), u64_to_i64(x.1), u64_to_i64(x.2)),
            spec_bitcast::<long3, ulong3>(spec_bitcast::<ulong3, long3>(x)) == x,
    {
        lemma_recast_u64(x.0);
        lemma_regroup_u16_u64(x.0, 0, 0, 0, 0);
        lemma_recast_u64(x.1);
        lemma_regroup_u16_u64(x.1, 0, 0, 0, 0);
        lemma_recast_u64(x.2);
        lemma_regroup_u16_u64(x.2, 0, 0, 0, 0);
    }

    /// Read as `double3`, which has lanes of the same width, a vector keeps the bits of every lane;
    /// read as `ulong3` again, it is what it was.
    pub proof fn lemma_bitcast_double3(x: ulong3)
        ensures
            spec_bitcast::<ulong3, double3>(x) == double3(x.0, x.1, x.2),
            spec_bitcast::<double3, ulong3>(spec_bitcast::<ulong3, double3>(x)) == x,
    {
        lemma_regroup_u16_u64(x.0, 0, 0, 0, 0);
        lemma_regroup_u16_u64(x.1, 0, 0, 0, 0);
        lemma_regroup_u16_u64(x.2, 0, 0, 0, 0);
    }
}

} // verus!
