//! `char3`: three lanes of `i8`.

use crate::scalar::lane_i8::{
    abs_i8, add_i8, bitselect_i8, clamp_i8, div_i8, eq_i8, ge_i8, gt_i8, i8_to_i16, i8_to_i16_sat,
    i8_to_i32, i8_to_i32_sat, i8_to_i64, i8_to_i64_sat, i8_to_u16, i8_to_u16_sat, i8_to_u32,
    i8_to_u32_sat, i8_to_u64, i8_to_u64_sat, i8_to_u8, i8_to_u8_sat, isize_to_i8, le_i8,
    lemma_abs_i8, lemma_arith_i8, lemma_bits_i8, lemma_blend_i8, lemma_not_i8, lemma_recast_i8,
    lt_i8, madd_i8, max_i8, min_i8, mul_i8, ne_i8, neg_i8, not_i8, rem_i8, select_i8, shl_i8,
    shr_i8, sub_i8, truth_i8,
};
use crate::scalar::lane_u8::{bitselect_u8, lemma_blend_u8, select_u8, u8_to_i8};
use crate::scalar::model::{
    lemma_wrap_i8_sum, sat_i16, sat_i32, sat_i64, sat_u16, sat_u32, sat_u64, sat_u8, wrap_i8,
};
use crate::traits::{Bitcast, Dot, Integer, Select, Vector, bitcast, spec_bitcast};
use crate::vector::char2::char2;
use crate::vector::double3::double3;
use crate::vector::float3::float3;
use crate::vector::int3::int3;
use crate::vector::long3::long3;
use crate::vector::short3::short3;
use crate::vector::uchar3::uchar3;
use crate::vector::uchar4::uchar4;
use crate::vector::uint3::uint3;
use crate::vector::ulong3::ulong3;
use crate::vector::ushort3::ushort3;
use vstd::prelude::*;
use vstd::std_specs::convert::FromSpecImpl;
use vstd::std_specs::ops::{
    AddSpec, AddSpecImpl, BitAndSpecImpl, BitOrSpecImpl, BitXorSpecImpl, DivSpecImpl, MulSpecImpl,
    NegSpec, NegSpecImpl, NotSpec, NotSpecImpl, RemSpecImpl, ShlSpecImpl, ShrSpec, ShrSpecImpl,
    SubSpec, SubSpecImpl,
};

verus! {

/// Three lanes of `i8`.
#[derive(Copy, Clone, Debug, PartialEq, Eq, Structural)]
pub struct char3(pub i8, pub i8, pub i8);

impl core::ops::Add for char3 {
    type Output = char3;

    /// The lane-wise sum of the two vectors, wrapping around.
    fn add(self, rhs: char3) -> (r: char3) {
        char3(add_i8(self.0, rhs.0), add_i8(self.1, rhs.1), add_i8(self.2, rhs.2))
    }
}

impl AddSpecImpl for char3 {
    open spec fn obeys_add_spec() -> bool {
        true
    }

    open spec fn add_req(self, rhs: char3) -> bool {
        true
    }

    open spec fn add_spec(self, rhs: char3) -> char3 {
        char3(add_i8(self.0, rhs.0), add_i8(self.1, rhs.1), add_i8(self.2, rhs.2))
    }
}

impl core::ops::Add<i8> for char3 {
    type Output = char3;

    /// The sum of every lane and the scalar, wrapping around.
    fn add(self, rhs: i8) -> (r: char3) {
        char3(add_i8(self.0, rhs), add_i8(self.1, rhs), add_i8(self.2, rhs))
    }
}

impl AddSpecImpl<i8> for char3 {
    open spec fn obeys_add_spec() -> bool {
        true
    }

    open spec fn add_req(self, rhs: i8) -> bool {
        true
    }

    open spec fn add_spec(self, rhs: i8) -> char3 {
        char3(add_i8(self.0, rhs), add_i8(self.1, rhs), add_i8(self.2, rhs))
    }
}

impl core::ops::Add<char3> for i8 {
    type Output = char3;

    /// The sum of the scalar and every lane, wrapping around.
    fn add(self, rhs: char3) -> (r: char3) {
        char3(add_i8(self, rhs.0), add_i8(self, rhs.1), add_i8(self, rhs.2))
    }
}

impl AddSpecImpl<char3> for i8 {
    open spec fn obeys_add_spec() -> bool {
        true
    }

    open spec fn add_req(self, rhs: char3) -> bool {
        true
    }

    open spec fn add_spec(self, rhs: char3) -> char3 {
        char3(add_i8(self, rhs.0), add_i8(self, rhs.1), add_i8(self, rhs.2))
    }
}

impl core::ops::Sub for char3 {
    type Output = char3;

    /// The lane-wise difference of the two vectors, wrapping around.
    fn sub(self, rhs: char3) -> (r: char3) {
        char3(sub_i8(self.0, rhs.0), sub_i8(self.1, rhs.1), sub_i8(self.2, rhs.2))
    }
}

impl SubSpecImpl for char3 {
    open spec fn obeys_sub_spec() -> bool {
        true
    }

    open spec fn sub_req(self, rhs: char3) -> bool {
        true
    }

    open spec fn sub_spec(self, rhs: char3) -> char3 {
        char3(sub_i8(self.0, rhs.0), sub_i8(self.1, rhs.1), sub_i8(self.2, rhs.2))
    }
}

impl core::ops::Sub<i8> for char3 {
    type Output = char3;

    /// The difference of every lane and the scalar, wrapping around.
    fn sub(self, rhs: i8) -> (r: char3) {
        char3(sub_i8(self.0, rhs), sub_i8(self.1, rhs), sub_i8(self.2, rhs))
    }
}

impl SubSpecImpl<i8> for char3 {
    open spec fn obeys_sub_spec() -> bool {
        true
    }

    open spec fn sub_req(self, rhs: i8) -> bool {
        true
    }

    open spec fn sub_spec(self, rhs: i8) -> char3 {
        char3(sub_i8(self.0, rhs), sub_i8(self.1, rhs), sub_i8(self.2, rhs))
    }
}

impl core::ops::Sub<char3> for i8 {
    type Output = char3;

    /// The difference of the scalar and every lane, wrapping around.
    fn sub(self, rhs: char3) -> (r: char3) {
        char3(sub_i8(self, rhs.0), sub_i8(self, rhs.1), sub_i8(self, rhs.2))
    }
}

impl SubSpecImpl<char3> for i8 {
    open spec fn obeys_sub_spec() -> bool {
        true
    }

    open spec fn sub_req(self, rhs: char3) -> bool {
        true
    }

    open spec fn sub_spec(self, rhs: char3) -> char3 {
        char3(sub_i8(self, rhs.0), sub_i8(self, rhs.1), sub_i8(self, rhs.2))
    }
}

impl core::ops::Mul for char3 {
    type Output = char3;

    /// The lane-wise product of the two vectors, wrapping around.
    fn mul(self, rhs: char3) -> (r: char3) {
        char3(mul_i8(self.0, rhs.0), mul_i8(self.1, rhs.1), mul_i8(self.2, rhs.2))
    }
}

impl MulSpecImpl for char3 {
    open spec fn obeys_mul_spec() -> bool {
        true
    }

    open spec fn mul_req(self, rhs: char3) -> bool {
        true
    }

    open spec fn mul_spec(self, rhs: char3) -> char3 {
        char3(mul_i8(self.0, rhs.0), mul_i8(self.1, rhs.1), mul_i8(self.2, rhs.2))
    }
}

impl core::ops::Mul<i8> for char3 {
    type Output = char3;

    /// The product of every lane and the scalar, wrapping around.
    fn mul(self, rhs: i8) -> (r: char3) {
        char3(mul_i8(self.0, rhs), mul_i8(self.1, rhs), mul_i8(self.2, rhs))
    }
}

impl MulSpecImpl<i8> for char3 {
    open spec fn obeys_mul_spec() -> bool {
        true
    }

    open spec fn mul_req(self, rhs: i8) -> bool {
        true
    }

    open spec fn mul_spec(self, rhs: i8) -> char3 {
        char3(mul_i8(self.0, rhs), mul_i8(self.1, rhs), mul_i8(self.2, rhs))
    }
}

impl core::ops::Mul<char3> for i8 {
    type Output = char3;

    /// The product of the scalar and every lane, wrapping around.
    fn mul(self, rhs: char3) -> (r: char3) {
        char3(mul_i8(self, rhs.0), mul_i8(self, rhs.1), mul_i8(self, rhs.2))
    }
}

impl MulSpecImpl<char3> for i8 {
    open spec fn obeys_mul_spec() -> bool {
        true
    }

    open spec fn mul_req(self, rhs: char3) -> bool {
        true
    }

    open spec fn mul_spec(self, rhs: char3) -> char3 {
        char3(mul_i8(self, rhs.0), mul_i8(self, rhs.1), mul_i8(self, rhs.2))
    }
}

impl core::ops::Div for char3 {
    type Output = char3;

    /// The lane-wise quotient of the two vectors, rounded toward zero. No lane of the divisor is
    /// zero.
    fn div(self, rhs: char3) -> (r: char3) {
        char3(div_i8(self.0, rhs.0), div_i8(self.1, rhs.1), div_i8(self.2, rhs.2))
    }
}

impl DivSpecImpl for char3 {
    open spec fn obeys_div_spec() -> bool {
        true
    }

    open spec fn div_req(self, rhs: char3) -> bool {
        rhs.0 != 0 && rhs.1 != 0 && rhs.2 != 0
    }

    open spec fn div_spec(self, rhs: char3) -> char3 {
        char3(div_i8(self.0, rhs.0), div_i8(self.1, rhs.1), div_i8(self.2, rhs.2))
    }
}

impl core::ops::Div<i8> for char3 {
    type Output = char3;

    /// The quotient of every lane by the scalar, rounded toward zero. The scalar is not zero.
    fn div(self, rhs: i8) -> (r: char3) {
        char3(div_i8(self.0, rhs), div_i8(self.1, rhs), div_i8(self.2, rhs))
    }
}

impl DivSpecImpl<i8> for char3 {
    open spec fn obeys_div_spec() -> bool {
        true
    }

    open spec fn div_req(self, rhs: i8) -> bool {
        rhs != 0
    }

    open spec fn div_spec(self, rhs: i8) -> char3 {
        char3(div_i8(self.0, rhs), div_i8(self.1, rhs), div_i8(self.2, rhs))
    }
}

impl core::ops::Div<char3> for i8 {
    type Output = char3;

    /// The quotient of the scalar by every lane, rounded toward zero. No lane is zero.
    fn div(self, rhs: char3) -> (r: char3) {
        char3(div_i8(self, rhs.0), div_i8(self, rhs.1), div_i8(self, rhs.2))
    }
}

impl DivSpecImpl<char3> for i8 {
    open spec fn obeys_div_spec() -> bool {
        true
    }

    open spec fn div_req(self, rhs: char3) -> bool {
        rhs.0 != 0 && rhs.1 != 0 && rhs.2 != 0
    }

    open spec fn div_spec(self, rhs: char3) -> char3 {
        char3(div_i8(self, rhs.0), div_i8(self, rhs.1), div_i8(self, rhs.2))
    }
}

impl core::ops::BitAnd for char3 {
    type Output = char3;

    /// The lane-wise conjunction of the two vectors, bit by bit.
    fn bitand(self, rhs: char3) -> (r: char3) {
        char3(self.0 & rhs.0, self.1 & rhs.1, self.2 & rhs.2)
    }
}

impl BitAndSpecImpl for char3 {
    open spec fn obeys_bitand_spec() -> bool {
        true
    }

    open spec fn bitand_req(self, rhs: char3) -> bool {
        true
    }

    open spec fn bitand_spec(self, rhs: char3) -> char3 {
        char3(self.0 & rhs.0, self.1 & rhs.1, self.2 & rhs.2)
    }
}

impl core::ops::BitAnd<i8> for char3 {
    type Output = char3;

    /// The conjunction of every lane and the scalar, bit by bit.
    fn bitand(self, rhs: i8) -> (r: char3) {
        char3(self.0 & rhs, self.1 & rhs, self.2 & rhs)
    }
}

impl BitAndSpecImpl<i8> for char3 {
    open spec fn obeys_bitand_spec() -> bool {
        true
    }

    open spec fn bitand_req(self, rhs: i8) -> bool {
        true
    }

    open spec fn bitand_spec(self, rhs: i8) -> char3 {
        char3(self.0 & rhs, self.1 & rhs, self.2 & rhs)
    }
}

impl core::ops::BitAnd<char3> for i8 {
    type Output = char3;

    /// The conjunction of the scalar and every lane, bit by bit.
    fn bitand(self, rhs: char3) -> (r: char3) {
        char3(self & rhs.0, self & rhs.1, self & rhs.2)
    }
}

impl BitAndSpecImpl<char3> for i8 {
    open spec fn obeys_bitand_spec() -> bool {
        true
    }

    open spec fn bitand_req(self, rhs: char3) -> bool {
        true
    }

    open spec fn bitand_spec(self, rhs: char3) -> char3 {
        char3(self & rhs.0, self & rhs.1, self & rhs.2)
    }
}

impl core::ops::BitOr for char3 {
    type Output = char3;

    /// The lane-wise disjunction of the two vectors, bit by bit.
    fn bitor(self, rhs: char3) -> (r: char3) {
        char3(self.0 | rhs.0, self.1 | rhs.1, self.2 | rhs.2)
    }
}

impl BitOrSpecImpl for char3 {
    open spec fn obeys_bitor_spec() -> bool {
        true
    }

    open spec fn bitor_req(self, rhs: char3) -> bool {
        true
    }

    open spec fn bitor_spec(self, rhs: char3) -> char3 {
        char3(self.0 | rhs.0, self.1 | rhs.1, self.2 | rhs.2)
    }
}

impl core::ops::BitOr<i8> for char3 {
    type Output = char3;

    /// The disjunction of every lane and the scalar, bit by bit.
    fn bitor(self, rhs: i8) -> (r: char3) {
        char3(self.0 | rhs, self.1 | rhs, self.2 | rhs)
    }
}

impl BitOrSpecImpl<i8> for char3 {
    open spec fn obeys_bitor_spec() -> bool {
        true
    }

    open spec fn bitor_req(self, rhs: i8) -> bool {
        true
    }

    open spec fn bitor_spec(self, rhs: i8) -> char3 {
        char3(self.0 | rhs, self.1 | rhs, self.2 | rhs)
    }
}

impl core::ops::BitOr<char3> for i8 {
    type Output = char3;

    /// The disjunction of the scalar and every lane, bit by bit.
    fn bitor(self, rhs: char3) -> (r: char3) {
        char3(self | rhs.0, self | rhs.1, self | rhs.2)
    }
}

impl BitOrSpecImpl<char3> for i8 {
    open spec fn obeys_bitor_spec() -> bool {
        true
    }

    open spec fn bitor_req(self, rhs: char3) -> bool {
        true
    }

    open spec fn bitor_spec(self, rhs: char3) -> char3 {
        char3(self | rhs.0, self | rhs.1, self | rhs.2)
    }
}

impl core::ops::BitXor for char3 {
    type Output = char3;

    /// The lane-wise exclusive disjunction of the two vectors, bit by bit.
    fn bitxor(self, rhs: char3) -> (r: char3) {
        char3(self.0 ^ rhs.0, self.1 ^ rhs.1, self.2 ^ rhs.2)
    }
}

impl BitXorSpecImpl for char3 {
    open spec fn obeys_bitxor_spec() -> bool {
        true
    }

    open spec fn bitxor_req(self, rhs: char3) -> bool {
        true
    }

    open spec fn bitxor_spec(self, rhs: char3) -> char3 {
        char3(self.0 ^ rhs.0, self.1 ^ rhs.1, self.2 ^ rhs.2)
    }
}

impl core::ops::BitXor<i8> for char3 {
    type Output = char3;

    /// The exclusive disjunction of every lane and the scalar, bit by bit.
    fn bitxor(self, rhs: i8) -> (r: char3) {
        char3(self.0 ^ rhs, self.1 ^ rhs, self.2 ^ rhs)
    }
}

impl BitXorSpecImpl<i8> for char3 {
    open spec fn obeys_bitxor_spec() -> bool {
        true
    }

    open spec fn bitxor_req(self, rhs: i8) -> bool {
        true
    }

    open spec fn bitxor_spec(self, rhs: i8) -> char3 {
        char3(self.0 ^ rhs, self.1 ^ rhs, self.2 ^ rhs)
    }
}

impl core::ops::BitXor<char3> for i8 {
    type Output = char3;

    /// The exclusive disjunction of the scalar and every lane, bit by bit.
    fn bitxor(self, rhs: char3) -> (r: char3) {
        char3(self ^ rhs.0, self ^ rhs.1, self ^ rhs.2)
    }
}

impl BitXorSpecImpl<char3> for i8 {
    open spec fn obeys_bitxor_spec() -> bool {
        true
    }

    open spec fn bitxor_req(self, rhs: char3) -> bool {
        true
    }

    open spec fn bitxor_spec(self, rhs: char3) -> char3 {
        char3(self ^ rhs.0, self ^ rhs.1, self ^ rhs.2)
    }
}

impl core::ops::Shl for char3 {
    type Output = char3;

    /// Every lane shifted left by the lane of `rhs`, which is below 8.
    fn shl(self, rhs: char3) -> (r: char3) {
        char3(shl_i8(self.0, rhs.0), shl_i8(self.1, rhs.1), shl_i8(self.2, rhs.2))
    }
}

impl ShlSpecImpl for char3 {
    open spec fn obeys_shl_spec() -> bool {
        true
    }

    open spec fn shl_req(self, rhs: char3) -> bool {
        0 <= rhs.0 < 8 && 0 <= rhs.1 < 8 && 0 <= rhs.2 < 8
    }

    open spec fn shl_spec(self, rhs: char3) -> char3 {
        char3(shl_i8(self.0, rhs.0), shl_i8(self.1, rhs.1), shl_i8(self.2, rhs.2))
    }
}

impl core::ops::Shl<i8> for char3 {
    type Output = char3;

    /// Every lane shifted left by `rhs`, which is below 8.
    fn shl(self, rhs: i8) -> (r: char3) {
        char3(shl_i8(self.0, rhs), shl_i8(self.1, rhs), shl_i8(self.2, rhs))
    }
}

impl ShlSpecImpl<i8> for char3 {
    open spec fn obeys_shl_spec() -> bool {
        true
    }

    open spec fn shl_req(self, rhs: i8) -> bool {
        0 <= rhs < 8
    }

    open spec fn shl_spec(self, rhs: i8) -> char3 {
        char3(shl_i8(self.0, rhs), shl_i8(self.1, rhs), shl_i8(self.2, rhs))
    }
}

impl core::ops::Shl<char3> for i8 {
    type Output = char3;

    /// The scalar shifted left by every lane of `rhs`, each of which is below 8.
    fn shl(self, rhs: char3) -> (r: char3) {
        char3(shl_i8(self, rhs.0), shl_i8(self, rhs.1), shl_i8(self, rhs.2))
    }
}

impl ShlSpecImpl<char3> for i8 {
    open spec fn obeys_shl_spec() -> bool {
        true
    }

    open spec fn shl_req(self, rhs: char3) -> bool {
        0 <= rhs.0 < 8 && 0 <= rhs.1 < 8 && 0 <= rhs.2 < 8
    }

    open spec fn shl_spec(self, rhs: char3) -> char3 {
        char3(shl_i8(self, rhs.0), shl_i8(self, rhs.1), shl_i8(self, rhs.2))
    }
}

impl core::ops::Shr for char3 {
    type Output = char3;

    /// Every lane shifted right by the lane of `rhs`, which is below 8.
    fn shr(self, rhs: char3) -> (r: char3) {
        char3(shr_i8(self.0, rhs.0), shr_i8(self.1, rhs.1), shr_i8(self.2, rhs.2))
    }
}

impl ShrSpecImpl for char3 {
    open spec fn obeys_shr_spec() -> bool {
        true
    }

    open spec fn shr_req(self, rhs: char3) -> bool {
        0 <= rhs.0 < 8 && 0 <= rhs.1 < 8 && 0 <= rhs.2 < 8
    }

    open spec fn shr_spec(self, rhs: char3) -> char3 {
        char3(shr_i8(self.0, rhs.0), shr_i8(self.1, rhs.1), shr_i8(self.2, rhs.2))
    }
}

impl core::ops::Shr<i8> for char3 {
    type Output = char3;

    /// Every lane shifted right by `rhs`, which is below 8.
    fn shr(self, rhs: i8) -> (r: char3) {
        char3(shr_i8(self.0, rhs), shr_i8(self.1, rhs), shr_i8(self.2, rhs))
    }
}

impl ShrSpecImpl<i8> for char3 {
    open spec fn obeys_shr_spec() -> bool {
        true
    }

    open spec fn shr_req(self, rhs: i8) -> bool {
        0 <= rhs < 8
    }

    open spec fn shr_spec(self, rhs: i8) -> char3 {
        char3(shr_i8(self.0, rhs), shr_i8(self.1, rhs), shr_i8(self.2, rhs))
    }
}

impl core::ops::Shr<char3> for i8 {
    type Output = char3;

    /// The scalar shifted right by every lane of `rhs`, each of which is below 8.
    fn shr(self, rhs: char3) -> (r: char3) {
        char3(shr_i8(self, rhs.0), shr_i8(self, rhs.1), shr_i8(self, rhs.2))
    }
}

impl ShrSpecImpl<char3> for i8 {
    open spec fn obeys_shr_spec() -> bool {
        true
    }

    open spec fn shr_req(self, rhs: char3) -> bool {
        0 <= rhs.0 < 8 && 0 <= rhs.1 < 8 && 0 <= rhs.2 < 8
    }

    open spec fn shr_spec(self, rhs: char3) -> char3 {
        char3(shr_i8(self, rhs.0), shr_i8(self, rhs.1), shr_i8(self, rhs.2))
    }
}

impl core::ops::Rem for char3 {
    type Output = char3;

    /// The lane-wise remainder `self - (self / rhs) * rhs`. No lane of the divisor is zero.
    fn rem(self, rhs: char3) -> (r: char3) {
        char3(rem_i8(self.0, rhs.0), rem_i8(self.1, rhs.1), rem_i8(self.2, rhs.2))
    }
}

impl RemSpecImpl for char3 {
    open spec fn obeys_rem_spec() -> bool {
        true
    }

    open spec fn rem_req(self, rhs: char3) -> bool {
        rhs.0 != 0 && rhs.1 != 0 && rhs.2 != 0
    }

    open spec fn rem_spec(self, rhs: char3) -> char3 {
        char3(rem_i8(self.0, rhs.0), rem_i8(self.1, rhs.1), rem_i8(self.2, rhs.2))
    }
}

impl core::ops::Neg for char3 {
    type Output = char3;

    /// Zero minus every lane, wrapping around.
    fn neg(self) -> (r: char3) {
        char3(neg_i8(self.0), neg_i8(self.1), neg_i8(self.2))
    }
}

impl NegSpecImpl for char3 {
    open spec fn obeys_neg_spec() -> bool {
        true
    }

    open spec fn neg_req(self) -> bool {
        true
    }

    open spec fn neg_spec(self) -> char3 {
        char3(neg_i8(self.0), neg_i8(self.1), neg_i8(self.2))
    }
}

impl core::ops::Not for char3 {
    type Output = char3;

    /// Every lane with every bit flipped.
    fn not(self) -> (r: char3) {
        char3(not_i8(self.0), not_i8(self.1), not_i8(self.2))
    }
}

impl NotSpecImpl for char3 {
    open spec fn obeys_not_spec() -> bool {
        true
    }

    open spec fn not_req(self) -> bool {
        true
    }

    open spec fn not_spec(self) -> char3 {
        char3(not_i8(self.0), not_i8(self.1), not_i8(self.2))
    }
}

impl core::convert::From<isize> for char3 {
    /// The vector with `x`, wrapped to `i8`, in every lane.
    fn from(x: isize) -> (r: char3) {
        let v = isize_to_i8(x);
        char3(v, v, v)
    }
}

impl FromSpecImpl<isize> for char3 {
    open spec fn obeys_from_spec() -> bool {
        true
    }

    open spec fn from_spec(x: isize) -> char3 {
        char3(isize_to_i8(x), isize_to_i8(x), isize_to_i8(x))
    }
}

impl core::ops::Index<u32> for char3 {
    type Output = i8;

    /// Lane `i`, which is below 3.
    fn index(&self, i: u32) -> (r: &i8)
        ensures
            *r == self.lane(i as int),
    {
        match i {
            0 => &self.0,
            1 => &self.1,
            _ => &self.2,
        }
    }
}

impl vstd::std_specs::core::IndexSpecImpl<u32> for char3 {
    open spec fn index_req(&self, i: &u32) -> bool {
        *i < 3
    }
}

impl char3 {
    /// Lane `i`, counted from zero.
    pub open spec fn lane(self, i: int) -> i8
        recommends
            0 <= i < 3,
    {
        if i == 0 {
            self.0
        } else if i == 1 {
            self.1
        } else {
            self.2
        }
    }

    /// The vector of type `char3` with the bits of `x`, a value of a type that has as many bits,
    /// which is one with images of type `uchar4`.
    pub fn bitcast<U: Bitcast<Image = uchar4>>(x: U) -> (r: char3)
        ensures
            r == spec_bitcast::<U, char3>(x),
    {
        bitcast(x)
    }

    /// The vector with `x` in every lane.
    pub fn broadcast(x: i8) -> (r: char3)
        ensures
            r == char3(x, x, x),
    {
        char3(x, x, x)
    }

    /// Lane `i`, which is below 3.
    pub fn extract(self, i: u32) -> (r: i8)
        requires
            i < 3,
        ensures
            r == self.lane(i as int),
    {
        match i {
            0 => self.0,
            1 => self.1,
            _ => self.2,
        }
    }

    /// The vector with `x` in lane `i`, which is below 3, and the other lanes unchanged.
    pub fn replace(self, i: u32, x: i8) -> (r: char3)
        requires
            i < 3,
        ensures
            forall|j: int| 0 <= j < 3 ==> #[trigger] r.lane(j) == (if j == i {
                x
            } else {
                self.lane(j)
            }),
    {
        match i {
            0 => char3(x, self.1, self.2),
            1 => char3(self.0, x, self.2),
            _ => char3(self.0, self.1, x),
        }
    }

    /// The mask that is all ones where the lanes of `x` and `y` are equal, and zero elsewhere.
    pub fn eq(x: char3, y: char3) -> (r: char3)
        ensures
            r == char3(eq_i8(x.0, y.0), eq_i8(x.1, y.1), eq_i8(x.2, y.2)),
    {
        char3(eq_i8(x.0, y.0), eq_i8(x.1, y.1), eq_i8(x.2, y.2))
    }

    /// The mask that is all ones where the lanes of `x` and `y` differ, and zero elsewhere.
    pub fn ne(x: char3, y: char3) -> (r: char3)
        ensures
            r == char3(ne_i8(x.0, y.0), ne_i8(x.1, y.1), ne_i8(x.2, y.2)),
    {
        char3(ne_i8(x.0, y.0), ne_i8(x.1, y.1), ne_i8(x.2, y.2))
    }

    /// The mask that is all ones where the lane of `x` is less than that of `y`, and zero
    /// elsewhere.
    pub fn lt(x: char3, y: char3) -> (r: char3)
        ensures
            r == char3(lt_i8(x.0, y.0), lt_i8(x.1, y.1), lt_i8(x.2, y.2)),
    {
        char3(lt_i8(x.0, y.0), lt_i8(x.1, y.1), lt_i8(x.2, y.2))
    }

    /// The mask that is all ones where the lane of `x` is at most that of `y`, and zero elsewhere.
    pub fn le(x: char3, y: char3) -> (r: char3)
        ensures
            r == char3(le_i8(x.0, y.0), le_i8(x.1, y.1), le_i8(x.2, y.2)),
    {
        char3(le_i8(x.0, y.0), le_i8(x.1, y.1), le_i8(x.2, y.2))
    }

    /// The mask that is all ones where the lane of `x` is greater than that of `y`, and zero
    /// elsewhere.
    pub fn gt(x: char3, y: char3) -> (r: char3)
        ensures
            r == char3(gt_i8(x.0, y.0), gt_i8(x.1, y.1), gt_i8(x.2, y.2)),
    {
        char3(gt_i8(x.0, y.0), gt_i8(x.1, y.1), gt_i8(x.2, y.2))
    }

    /// The mask that is all ones where the lane of `x` is at least that of `y`, and zero elsewhere.
    pub fn ge(x: char3, y: char3) -> (r: char3)
        ensures
            r == char3(ge_i8(x.0, y.0), ge_i8(x.1, y.1), ge_i8(x.2, y.2)),
    {
        char3(ge_i8(x.0, y.0), ge_i8(x.1, y.1), ge_i8(x.2, y.2))
    }

    /// `x * y + z` lane by lane, wrapping around.
    pub fn madd(x: char3, y: char3, z: char3) -> (r: char3)
        ensures
            r == char3(madd_i8(x.0, y.0, z.0), madd_i8(x.1, y.1, z.1), madd_i8(x.2, y.2, z.2)),
    {
        char3(madd_i8(x.0, y.0, z.0), madd_i8(x.1, y.1, z.1), madd_i8(x.2, y.2, z.2))
    }

    /// The magnitude of every lane; that of `i8::MIN` wraps around to `i8::MIN`.
    pub fn abs(x: char3) -> (r: char3)
        ensures
            r == x.spec_abs(),
    {
        char3(abs_i8(x.0), abs_i8(x.1), abs_i8(x.2))
    }

    /// The greater lane of `x` and `y`, lane by lane.
    pub fn max(x: char3, y: char3) -> (r: char3)
        ensures
            r == x.spec_max(y),
    {
        char3(max_i8(x.0, y.0), max_i8(x.1, y.1), max_i8(x.2, y.2))
    }

    /// The smaller lane of `x` and `y`, lane by lane.
    pub fn min(x: char3, y: char3) -> (r: char3)
        ensures
            r == x.spec_min(y),
    {
        char3(min_i8(x.0, y.0), min_i8(x.1, y.1), min_i8(x.2, y.2))
    }

    /// Every lane of `x` raised to at least the lane of `lo`, then lowered to at most that of `hi`.
    pub fn clamp(x: char3, lo: char3, hi: char3) -> (r: char3)
        ensures
            r == x.spec_clamp(lo, hi),
    {
        char3(clamp_i8(x.0, lo.0, hi.0), clamp_i8(x.1, lo.1, hi.1), clamp_i8(x.2, lo.2, hi.2))
    }

    /// The sum of the lanes, wrapping around.
    pub fn reduce_add(x: char3) -> (r: i8)
        ensures
            r == x.spec_reduce_add(),
    {
        let s = add_i8(x.0, x.1);
        let ghost mut t: int = x.0 + x.1;
        proof {
            lemma_wrap_i8_sum(t, x.2 as int);
            t = t + x.2;
        }
        let s = add_i8(s, x.2);
        s
    }

    /// The smallest lane.
    pub fn reduce_min(x: char3) -> (r: i8)
        ensures
            r == x.spec_reduce_min(),
            r <= x.0 && r <= x.1 && r <= x.2,
            r == x.0 || r == x.1 || r == x.2,
    {
        let s = min_i8(x.0, x.1);
        let s = min_i8(s, x.2);
        s
    }

    /// The greatest lane.
    pub fn reduce_max(x: char3) -> (r: i8)
        ensures
            r == x.spec_reduce_max(),
            r >= x.0 && r >= x.1 && r >= x.2,
            r == x.0 || r == x.1 || r == x.2,
    {
        let s = max_i8(x.0, x.1);
        let s = max_i8(s, x.2);
        s
    }

    /// The vector itself: its lanes are `i8` already.
    pub fn to_char(x: char3) -> (r: char3)
        ensures
            r == x,
    {
        x
    }

    /// The vector itself: its lanes are `i8` already, and nothing saturates.
    pub fn to_char_sat(x: char3) -> (r: char3)
        ensures
            r == x.spec_to_char_sat(),
    {
        x
    }

    /// Every lane as `u8`: the same bits, read as `u8`.
    pub fn to_uchar(x: char3) -> (r: uchar3)
        ensures
            r == uchar3(i8_to_u8(x.0), i8_to_u8(x.1), i8_to_u8(x.2)),
    {
        uchar3(i8_to_u8(x.0), i8_to_u8(x.1), i8_to_u8(x.2))
    }

    /// Every lane as `u8`, saturating: a lane outside the range of `u8` gives the nearest bound.
    pub fn to_uchar_sat(x: char3) -> (r: uchar3)
        ensures
            r == x.spec_to_uchar_sat(),
    {
        uchar3(i8_to_u8_sat(x.0), i8_to_u8_sat(x.1), i8_to_u8_sat(x.2))
    }

    /// Every lane as `i16`, which holds every `i8`.
    pub fn to_short(x: char3) -> (r: short3)
        ensures
            r == short3(i8_to_i16(x.0), i8_to_i16(x.1), i8_to_i16(x.2)),
    {
        short3(i8_to_i16(x.0), i8_to_i16(x.1), i8_to_i16(x.2))
    }

    /// Every lane as `i16`, saturating; nothing saturates, since `i16` holds every `i8`.
    pub fn to_short_sat(x: char3) -> (r: short3)
        ensures
            r == x.spec_to_short_sat(),
    {
        short3(i8_to_i16_sat(x.0), i8_to_i16_sat(x.1), i8_to_i16_sat(x.2))
    }

    /// Every lane as `u16`, sign-extended: a negative lane wraps around.
    pub fn to_ushort(x: char3) -> (r: ushort3)
        ensures
            r == ushort3(i8_to_u16(x.0), i8_to_u16(x.1), i8_to_u16(x.2)),
    {
        ushort3(i8_to_u16(x.0), i8_to_u16(x.1), i8_to_u16(x.2))
    }

    /// Every lane as `u16`, saturating: a lane outside the range of `u16` gives the nearest bound.
    pub fn to_ushort_sat(x: char3) -> (r: ushort3)
        ensures
            r == x.spec_to_ushort_sat(),
    {
        ushort3(i8_to_u16_sat(x.0), i8_to_u16_sat(x.1), i8_to_u16_sat(x.2))
    }

    /// Every lane as `i32`, which holds every `i8`.
    pub fn to_int(x: char3) -> (r: int3)
        ensures
            r == int3(i8_to_i32(x.0), i8_to_i32(x.1), i8_to_i32(x.2)),
    {
        int3(i8_to_i32(x.0), i8_to_i32(x.1), i8_to_i32(x.2))
    }

    /// Every lane as `i32`, saturating; nothing saturates, since `i32` holds every `i8`.
    pub fn to_int_sat(x: char3) -> (r: int3)
        ensures
            r == x.spec_to_int_sat(),
    {
        int3(i8_to_i32_sat(x.0), i8_to_i32_sat(x.1), i8_to_i32_sat(x.2))
    }

    /// Every lane as `u32`, sign-extended: a negative lane wraps around.
    pub fn to_uint(x: char3) -> (r: uint3)
        ensures
            r == uint3(i8_to_u32(x.0), i8_to_u32(x.1), i8_to_u32(x.2)),
    {
        uint3(i8_to_u32(x.0), i8_to_u32(x.1), i8_to_u32(x.2))
    }

    /// Every lane as `u32`, saturating: a lane outside the range of `u32` gives the nearest bound.
    pub fn to_uint_sat(x: char3) -> (r: uint3)
        ensures
            r == x.spec_to_uint_sat(),
    {
        uint3(i8_to_u32_sat(x.0), i8_to_u32_sat(x.1), i8_to_u32_sat(x.2))
    }

    /// Every lane as `i64`, which holds every `i8`.
    pub fn to_long(x: char3) -> (r: long3)
        ensures
            r == long3(i8_to_i64(x.0), i8_to_i64(x.1), i8_to_i64(x.2)),
    {
        long3(i8_to_i64(x.0), i8_to_i64(x.1), i8_to_i64(x.2))
    }

    /// Every lane as `i64`, saturating; nothing saturates, since `i64` holds every `i8`.
    pub fn to_long_sat(x: char3) -> (r: long3)
        ensures
            r == x.spec_to_long_sat(),
    {
        long3(i8_to_i64_sat(x.0), i8_to_i64_sat(x.1), i8_to_i64_sat(x.2))
    }

    /// Every lane as `u64`, sign-extended: a negative lane wraps around.
    pub fn to_ulong(x: char3) -> (r: ulong3)
        ensures
            r == ulong3(i8_to_u64(x.0), i8_to_u64(x.1), i8_to_u64(x.2)),
    {
        ulong3(i8_to_u64(x.0), i8_to_u64(x.1), i8_to_u64(x.2))
    }

    /// Every lane as `u64`, saturating: a lane outside the range of `u64` gives the nearest bound.
    pub fn to_ulong_sat(x: char3) -> (r: ulong3)
        ensures
            r == x.spec_to_ulong_sat(),
    {
        ulong3(i8_to_u64_sat(x.0), i8_to_u64_sat(x.1), i8_to_u64_sat(x.2))
    }

    /// The low half: lanes 0 and 1.
    pub fn lo(self) -> (r: char2)
        ensures
            r == char2(self.0, self.1),
    {
        char2(self.0, self.1)
    }

    /// The high half: lane 2, then a zero in place of the lane that is not there.
    pub fn hi(self) -> (r: char2)
        ensures
            r == char2(self.2, 0),
    {
        char2(self.2, 0)
    }

    /// The odd lanes: lane 1, then a zero in place of the lane that is not there.
    pub fn odd(self) -> (r: char2)
        ensures
            r == char2(self.1, 0),
    {
        char2(self.1, 0)
    }

    /// The even lanes: lanes 0 and 2.
    pub fn even(self) -> (r: char2)
        ensures
            r == char2(self.0, self.2),
    {
        char2(self.0, self.2)
    }

    /// The vector of `f` applied to every lane. `f` accepts every lane.
    pub fn map_unary<F: Fn(i8) -> i8>(self, f: F) -> (r: char3)
        requires
            call_requires(f, (self.0,)),
            call_requires(f, (self.1,)),
            call_requires(f, (self.2,)),
        ensures
            call_ensures(f, (self.0,), r.0),
            call_ensures(f, (self.1,), r.1),
            call_ensures(f, (self.2,), r.2),
    {
        char3(f(self.0), f(self.1), f(self.2))
    }

    /// The vector of `f` applied to the lanes of the two vectors, lane by lane. `f` accepts every
    /// such pair of lanes.
    pub fn map_binary<F: Fn(i8, i8) -> i8>(self, other: char3, f: F) -> (r: char3)
        requires
            call_requires(f, (self.0, other.0)),
            call_requires(f, (self.1, other.1)),
            call_requires(f, (self.2, other.2)),
        ensures
            call_ensures(f, (self.0, other.0), r.0),
            call_ensures(f, (self.1, other.1), r.1),
            call_ensures(f, (self.2, other.2), r.2),
    {
        char3(f(self.0, other.0), f(self.1, other.1), f(self.2, other.2))
    }

    /// The lanes folded by `f`, from lane 0 upward: `f` is applied to lane 1 and lane 0, then to
    /// each further lane and what the lanes below it gave. `f` accepts every pair of scalars.
    pub fn reduce<F: Fn(i8, i8) -> i8>(self, f: F) -> (r: i8)
        requires
            forall|a: i8, b: i8| call_requires(f, (a, b)),
        ensures
            exists|s1: i8|
                call_ensures(f, (self.1, self.0), s1)
                    && call_ensures(f, (self.2, s1), r),
    {
        let s1 = f(self.1, self.0);
        let s2 = f(self.2, s1);
        s2
    }

    /// Addition commutes.
    pub proof fn lemma_add_commutes(x: char3, y: char3)
        ensures
            AddSpec::add_spec(x, y) == AddSpec::add_spec(y, x),
    {
        lemma_arith_i8(x.0, y.0, 0);
        lemma_arith_i8(x.1, y.1, 0);
        lemma_arith_i8(x.2, y.2, 0);
    }

    /// Addition associates, wrap-around or not.
    pub proof fn lemma_add_associates(x: char3, y: char3, z: char3)
        ensures
            AddSpec::add_spec(AddSpec::add_spec(x, y), z)
                == AddSpec::add_spec(x, AddSpec::add_spec(y, z)),
    {
        lemma_arith_i8(x.0, y.0, z.0);
        lemma_arith_i8(x.1, y.1, z.1);
        lemma_arith_i8(x.2, y.2, z.2);
    }

    /// Swapping the operands of a subtraction negates the difference.
    pub proof fn lemma_sub_swaps(x: char3, y: char3)
        ensures
            SubSpec::sub_spec(x, y) == NegSpec::neg_spec(SubSpec::sub_spec(y, x)),
    {
        lemma_arith_i8(x.0, y.0, 0);
        lemma_arith_i8(x.1, y.1, 0);
        lemma_arith_i8(x.2, y.2, 0);
    }

    /// The magnitude of a magnitude is that magnitude, and the magnitude of a lane other than
    /// `i8::MIN` is not negative.
    pub proof fn lemma_abs(x: char3)
        ensures
            x.spec_abs().spec_abs() == x.spec_abs(),
            forall|i: int|
                0 <= i < 3 && x.lane(i) != i8::MIN ==> #[trigger] x.spec_abs().lane(i) >= 0,
            forall|i: int|
                0 <= i < 3 && x.lane(i) == i8::MIN ==> #[trigger] x.spec_abs().lane(i) == i8::MIN,
    {
        lemma_abs_i8(x.0);
        lemma_abs_i8(x.1);
        lemma_abs_i8(x.2);
    }

    /// Flipping every bit of a lane gives minus one minus the lane.
    pub proof fn lemma_not(x: char3)
        ensures
            forall|i: int| 0 <= i < 3 ==> #[trigger] NotSpec::not_spec(x).lane(i) == -1 - x.lane(i),
    {
        lemma_not_i8(x.0);
        lemma_not_i8(x.1);
        lemma_not_i8(x.2);
    }

    /// The lanes of a vector with `k` in every lane add up to 3 times `k`, wrapped around.
    pub proof fn lemma_reduce_add_broadcast(k: i8)
        ensures
            char3(k, k, k).spec_reduce_add() == wrap_i8(3 * k),
    {
    }

    /// Saturating conversion to `u8` gives, lane by lane, the lane itself where `u8` holds it and
    /// the nearest bound of `u8` where it does not.
    pub proof fn lemma_to_uchar_sat(x: char3)
        ensures
            forall|i: int|
                0 <= i < 3 ==> #[trigger] x.spec_to_uchar_sat().lane(i) == sat_u8(x.lane(i) as int),
    {
    }

    /// Saturating conversion to `i16` gives every lane unchanged: `i16` holds every `i8`.
    pub proof fn lemma_to_short_sat(x: char3)
        ensures
            forall|i: int|
                0 <= i < 3 ==>
                    #[trigger] x.spec_to_short_sat().lane(i) == sat_i16(x.lane(i) as int),
            forall|i: int| 0 <= i < 3 ==> #[trigger] x.spec_to_short_sat().lane(i) == x.lane(i),
    {
    }

    /// Saturating conversion to `u16` gives, lane by lane, the lane itself where `u16` holds it and
    /// the nearest bound of `u16` where it does not.
    pub proof fn lemma_to_ushort_sat(x: char3)
        ensures
            forall|i: int|
                0 <= i < 3 ==>
                    #[trigger] x.spec_to_ushort_sat().lane(i) == sat_u16(x.lane(i) as int),
    {
    }

    /// Saturating conversion to `i32` gives every lane unchanged: `i32` holds every `i8`.
    pub proof fn lemma_to_int_sat(x: char3)
        ensures
            forall|i: int|
                0 <= i < 3 ==> #[trigger] x.spec_to_int_sat().lane(i) == sat_i32(x.lane(i) as int),
            forall|i: int| 0 <= i < 3 ==> #[trigger] x.spec_to_int_sat().lane(i) == x.lane(i),
    {
    }

    /// Saturating conversion to `u32` gives, lane by lane, the lane itself where `u32` holds it and
    /// the nearest bound of `u32` where it does not.
    pub proof fn lemma_to_uint_sat(x: char3)
        ensures
            forall|i: int|
                0 <= i < 3 ==> #[trigger] x.spec_to_uint_sat().lane(i) == sat_u32(x.lane(i) as int),
    {
    }

    /// Saturating conversion to `i64` gives every lane unchanged: `i64` holds every `i8`.
    pub proof fn lemma_to_long_sat(x: char3)
        ensures
            forall|i: int|
                0 <= i < 3 ==> #[trigger] x.spec_to_long_sat().lane(i) == sat_i64(x.lane(i) as int),
            forall|i: int| 0 <= i < 3 ==> #[trigger] x.spec_to_long_sat().lane(i) == x.lane(i),
    {
    }

    /// Saturating conversion to `u64` gives, lane by lane, the lane itself where `u64` holds it and
    /// the nearest bound of `u64` where it does not.
    pub proof fn lemma_to_ulong_sat(x: char3)
        ensures
            forall|i: int|
                0 <= i < 3 ==>
                    #[trigger] x.spec_to_ulong_sat().lane(i) == sat_u64(x.lane(i) as int),
    {
    }
}

impl Vector for char3 {
    type Scalar = i8;

    type Boolean = char3;

    type CharVector = char3;

    type ShortVector = short3;

    type IntVector = int3;

    type LongVector = long3;

    type UCharVector = uchar3;

    type UShortVector = ushort3;

    type UIntVector = uint3;

    type ULongVector = ulong3;

    type FloatVector = float3;

    type DoubleVector = double3;

    open spec fn spec_abs(self) -> char3 {
        char3(abs_i8(self.0), abs_i8(self.1), abs_i8(self.2))
    }

    open spec fn spec_max(self, other: char3) -> char3 {
        char3(max_i8(self.0, other.0), max_i8(self.1, other.1), max_i8(self.2, other.2))
    }

    open spec fn spec_min(self, other: char3) -> char3 {
        char3(min_i8(self.0, other.0), min_i8(self.1, other.1), min_i8(self.2, other.2))
    }

    open spec fn spec_clamp(self, lo: char3, hi: char3) -> char3 {
        char3(
            clamp_i8(self.0, lo.0, hi.0), clamp_i8(self.1, lo.1, hi.1),
            clamp_i8(self.2, lo.2, hi.2),
        )
    }

    open spec fn spec_reduce_add(self) -> i8 {
        wrap_i8(self.0 + self.1 + self.2)
    }

    open spec fn spec_reduce_min(self) -> i8 {
        let s = min_i8(self.0, self.1);
        let s = min_i8(s, self.2);
        s
    }

    open spec fn spec_reduce_max(self) -> i8 {
        let s = max_i8(self.0, self.1);
        let s = max_i8(s, self.2);
        s
    }

    open spec fn spec_to_char_sat(self) -> char3 {
        self
    }

    open spec fn spec_to_uchar_sat(self) -> uchar3 {
        uchar3(i8_to_u8_sat(self.0), i8_to_u8_sat(self.1), i8_to_u8_sat(self.2))
    }

    open spec fn spec_to_short_sat(self) -> short3 {
        short3(i8_to_i16_sat(self.0), i8_to_i16_sat(self.1), i8_to_i16_sat(self.2))
    }

    open spec fn spec_to_ushort_sat(self) -> ushort3 {
        ushort3(i8_to_u16_sat(self.0), i8_to_u16_sat(self.1), i8_to_u16_sat(self.2))
    }

    open spec fn spec_to_int_sat(self) -> int3 {
        int3(i8_to_i32_sat(self.0), i8_to_i32_sat(self.1), i8_to_i32_sat(self.2))
    }

    open spec fn spec_to_uint_sat(self) -> uint3 {
        uint3(i8_to_u32_sat(self.0), i8_to_u32_sat(self.1), i8_to_u32_sat(self.2))
    }

    open spec fn spec_to_long_sat(self) -> long3 {
        long3(i8_to_i64_sat(self.0), i8_to_i64_sat(self.1), i8_to_i64_sat(self.2))
    }

    open spec fn spec_to_ulong_sat(self) -> ulong3 {
        ulong3(i8_to_u64_sat(self.0), i8_to_u64_sat(self.1), i8_to_u64_sat(self.2))
    }

    fn abs(self) -> (r: char3) {
        char3::abs(self)
    }

    fn max(self, other: char3) -> (r: char3) {
        char3::max(self, other)
    }

    fn min(self, other: char3) -> (r: char3) {
        char3::min(self, other)
    }

    fn clamp(self, lo: char3, hi: char3) -> (r: char3) {
        char3::clamp(self, lo, hi)
    }

    fn reduce_add(self) -> (r: i8) {
        char3::reduce_add(self)
    }

    fn reduce_min(self) -> (r: i8) {
        char3::reduce_min(self)
    }

    fn reduce_max(self) -> (r: i8) {
        char3::reduce_max(self)
    }

    fn to_char_sat(self) -> (r: char3) {
        char3::to_char_sat(self)
    }

    fn to_uchar_sat(self) -> (r: uchar3) {
        char3::to_uchar_sat(self)
    }

    fn to_short_sat(self) -> (r: short3) {
        char3::to_short_sat(self)
    }

    fn to_ushort_sat(self) -> (r: ushort3) {
        char3::to_ushort_sat(self)
    }

    fn to_int_sat(self) -> (r: int3) {
        char3::to_int_sat(self)
    }

    fn to_uint_sat(self) -> (r: uint3) {
        char3::to_uint_sat(self)
    }

    fn to_long_sat(self) -> (r: long3) {
        char3::to_long_sat(self)
    }

    fn to_ulong_sat(self) -> (r: ulong3) {
        char3::to_ulong_sat(self)
    }
}

impl Integer for char3 {
    open spec fn spec_reduce_and(self) -> i8 {
        self.0 & self.1 & self.2
    }

    open spec fn spec_reduce_or(self) -> i8 {
        self.0 | self.1 | self.2
    }

    open spec fn spec_reduce_xor(self) -> i8 {
        self.0 ^ self.1 ^ self.2
    }

    open spec fn spec_all(self) -> bool {
        truth_i8(self.0) && truth_i8(self.1) && truth_i8(self.2)
    }

    open spec fn spec_any(self) -> bool {
        truth_i8(self.0) || truth_i8(self.1) || truth_i8(self.2)
    }

    fn reduce_and(self) -> (r: i8) {
        self.0 & self.1 & self.2
    }

    fn reduce_or(self) -> (r: i8) {
        self.0 | self.1 | self.2
    }

    fn reduce_xor(self) -> (r: i8) {
        self.0 ^ self.1 ^ self.2
    }

    fn all(self) -> (r: bool) {
        proof {
            let s = self.0 & self.1;
            lemma_bits_i8(self.0, self.1, 0, 0);
            lemma_bits_i8(s, self.2, 0, 0);
        }
        truth_i8(self.reduce_and())
    }

    fn any(self) -> (r: bool) {
        proof {
            let s = self.0 | self.1;
            lemma_bits_i8(self.0, self.1, 0, 0);
            lemma_bits_i8(s, self.2, 0, 0);
        }
        truth_i8(self.reduce_or())
    }
}

impl Dot for char3 {
    type DotProduct = i8;

    open spec fn spec_dot(self, other: char3) -> i8 {
        wrap_i8(self.0 * other.0 + self.1 * other.1 + self.2 * other.2)
    }

    fn dot(self, other: char3) -> (r: i8) {
        let s = mul_i8(self.0, other.0);
        let ghost mut t: int = self.0 * other.0;
        proof {
            lemma_wrap_i8_sum(t, self.1 * other.1);
            t = t + self.1 * other.1;
        }
        let s = madd_i8(self.1, other.1, s);
        proof {
            lemma_wrap_i8_sum(t, self.2 * other.2);
            t = t + self.2 * other.2;
        }
        let s = madd_i8(self.2, other.2, s);
        s
    }
}

impl Select<char3> for char3 {
    open spec fn spec_select(self, a: char3, b: char3) -> char3 {
        char3(select_i8(self.0, a.0, b.0), select_i8(self.1, a.1, b.1), select_i8(self.2, a.2, b.2))
    }

    open spec fn spec_bitselect(self, a: char3, b: char3) -> char3 {
        char3(
            bitselect_i8(self.0, a.0, b.0), bitselect_i8(self.1, a.1, b.1),
            bitselect_i8(self.2, a.2, b.2),
        )
    }

    fn select(self, a: char3, b: char3) -> (r: char3) {
        char3(select_i8(self.0, a.0, b.0), select_i8(self.1, a.1, b.1), select_i8(self.2, a.2, b.2))
    }

    fn bitselect(self, a: char3, b: char3) -> (r: char3) {
        char3(
            bitselect_i8(self.0, a.0, b.0), bitselect_i8(self.1, a.1, b.1),
            bitselect_i8(self.2, a.2, b.2),
        )
    }
}

impl Select<uchar3> for char3 {
    open spec fn spec_select(self, a: uchar3, b: uchar3) -> uchar3 {
        uchar3(
            select_u8(self.0, a.0, b.0), select_u8(self.1, a.1, b.1), select_u8(self.2, a.2, b.2),
        )
    }

    open spec fn spec_bitselect(self, a: uchar3, b: uchar3) -> uchar3 {
        uchar3(
            bitselect_u8(self.0, a.0, b.0), bitselect_u8(self.1, a.1, b.1),
            bitselect_u8(self.2, a.2, b.2),
        )
    }

    fn select(self, a: uchar3, b: uchar3) -> (r: uchar3) {
        uchar3(
            select_u8(self.0, a.0, b.0), select_u8(self.1, a.1, b.1), select_u8(self.2, a.2, b.2),
        )
    }

    fn bitselect(self, a: uchar3, b: uchar3) -> (r: uchar3) {
        uchar3(
            bitselect_u8(self.0, a.0, b.0), bitselect_u8(self.1, a.1, b.1),
            bitselect_u8(self.2, a.2, b.2),
        )
    }
}

impl char3 {
    /// A blend of two `char3` gives the lane of `b` where the mask is all ones and the lane of `a`
    /// where it is zero, whatever the other lanes hold.
    pub proof fn lemma_bitselect_char3(m: char3, a: char3, b: char3)
        ensures
            forall|i: int|
                0 <= i < 3 && m.lane(i) == -1 ==>
                    #[trigger] m.spec_bitselect(a, b).lane(i) == b.lane(i),
            forall|i: int|
                0 <= i < 3 && m.lane(i) == 0 ==>
                    #[trigger] m.spec_bitselect(a, b).lane(i) == a.lane(i),
    {
        lemma_blend_i8(m.0, a.0, b.0);
        lemma_blend_i8(m.1, a.1, b.1);
        lemma_blend_i8(m.2, a.2, b.2);
    }

    /// A choice between two `char3` goes by the sign bit of the mask alone: it gives the lane of
    /// `b` where the mask is negative and the lane of `a` elsewhere, as the blend does under the
    /// mask whose every lane has its sign spread over all its bits.
    pub proof fn lemma_select_char3(m: char3, a: char3, b: char3)
        ensures
            m.spec_select(a, b) == ShrSpec::shr_spec(m, 7i8).spec_bitselect(a, b),
            forall|i: int|
                0 <= i < 3 && m.lane(i) < 0 ==> #[trigger] m.spec_select(a, b).lane(i) == b.lane(i),
            forall|i: int|
                0 <= i < 3 && m.lane(i) >= 0 ==>
                    #[trigger] m.spec_select(a, b).lane(i) == a.lane(i),
    {
        lemma_blend_i8(m.0, a.0, b.0);
        lemma_blend_i8(m.1, a.1, b.1);
        lemma_blend_i8(m.2, a.2, b.2);
    }

    /// A blend of two `uchar3` gives the lane of `b` where the mask is all ones and the lane of `a`
    /// where it is zero, whatever the other lanes hold.
    pub proof fn lemma_bitselect_uchar3(m: char3, a: uchar3, b: uchar3)
        ensures
            forall|i: int|
                0 <= i < 3 && m.lane(i) == -1 ==>
                    #[trigger] m.spec_bitselect(a, b).lane(i) == b.lane(i),
            forall|i: int|
                0 <= i < 3 && m.lane(i) == 0 ==>
                    #[trigger] m.spec_bitselect(a, b).lane(i) == a.lane(i),
    {
        lemma_blend_u8(m.0, a.0, b.0);
        lemma_blend_u8(m.1, a.1, b.1);
        lemma_blend_u8(m.2, a.2, b.2);
    }

    /// A choice between two `uchar3` goes by the sign bit of the mask alone: it gives the lane of
    /// `b` where the mask is negative and the lane of `a` elsewhere, as the blend does under the
    /// mask whose every lane has its sign spread over all its bits.
    pub proof fn lemma_select_uchar3(m: char3, a: uchar3, b: uchar3)
        ensures
            m.spec_select(a, b) == ShrSpec::shr_spec(m, 7i8).spec_bitselect(a, b),
            forall|i: int|
                0 <= i < 3 && m.lane(i) < 0 ==> #[trigger] m.spec_select(a, b).lane(i) == b.lane(i),
            forall|i: int|
                0 <= i < 3 && m.lane(i) >= 0 ==>
                    #[trigger] m.spec_select(a, b).lane(i) == a.lane(i),
    {
        lemma_blend_u8(m.0, a.0, b.0);
        lemma_blend_u8(m.1, a.1, b.1);
        lemma_blend_u8(m.2, a.2, b.2);
    }
}

impl Bitcast for char3 {
    type Image = uchar4;

    open spec fn spec_image(self) -> uchar4 {
        uchar4(i8_to_u8(self.0), i8_to_u8(self.1), i8_to_u8(self.2), 0)
    }

    open spec fn spec_from_image(image: uchar4) -> char3 {
        char3(u8_to_i8(image.0), u8_to_i8(image.1), u8_to_i8(image.2))
    }

    open spec fn spec_fills() -> bool {
        false
    }

    fn image(self) -> (r: uchar4) {
        uchar4(i8_to_u8(self.0), i8_to_u8(self.1), i8_to_u8(self.2), 0)
    }

    fn from_image(image: uchar4) -> (r: char3) {
        char3(u8_to_i8(image.0), u8_to_i8(image.1), u8_to_i8(image.2))
    }

    proof fn lemma_image(x: char3) {
        lemma_recast_i8(x.0);
        lemma_recast_i8(x.1);
        lemma_recast_i8(x.2);
    }

    proof fn lemma_from_image(image: uchar4) {
    }
}

impl char3 {
    /// Read as `uchar3`, which has lanes of the same width, a vector keeps the bits of every lane;
    /// read as `char3` again, it is what it was.
    pub proof fn lemma_bitcast_uchar3(x: char3)
        ensures
            spec_bitcast::<char3, uchar3>(x) == uchar3(i8_to_u8(x.0), i8_to_u8(x.1), i8_to_u8(x.2)),
            spec_bitcast::<uchar3, char3>(spec_bitcast::<char3, uchar3>(x)) == x,
    {
        lemma_recast_i8(x.0);
        lemma_recast_i8(x.1);
        lemma_recast_i8(x.2);
    }
}

} // verus!
