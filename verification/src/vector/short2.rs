//! `short2`: two lanes of `i16`.

use crate::scalar::lane_i16::{
    abs_i16, add_i16, bitselect_i16, clamp_i16, div_i16, eq_i16, ge_i16, gt_i16, i16_to_i32,
    i16_to_i32_sat, i16_to_i64, i16_to_i64_sat, i16_to_i8, i16_to_i8_sat, i16_to_u16,
    i16_to_u16_sat, i16_to_u32, i16_to_u32_sat, i16_to_u64, i16_to_u64_sat, i16_to_u8,
    i16_to_u8_sat, isize_to_i16, le_i16, lemma_abs_i16, lemma_arith_i16, lemma_bits_i16,
    lemma_blend_i16, lemma_not_i16, lemma_recast_i16, lt_i16, madd_i16, max_i16, min_i16, mul_i16,
    ne_i16, neg_i16, not_i16, rem_i16, select_i16, shl_i16, shr_i16, sub_i16, truth_i16,
};
use crate::scalar::lane_u16::{
    bitselect_u16, lemma_blend_u16, lemma_recast_u16, select_u16, u16_to_i16,
};
use crate::scalar::model::{
    lemma_wrap_i16_sum, sat_i32, sat_i64, sat_i8, sat_u16, sat_u32, sat_u64, sat_u8, wrap_i16,
};
use crate::scalar::regroup::{join_u8_u16, lemma_regroup_u8_u16, split_u16_u8};
use crate::traits::{Bitcast, Dot, Integer, Select, Vector, bitcast, spec_bitcast};
use crate::vector::char2::char2;
use crate::vector::double2::double2;
use crate::vector::float2::float2;
use crate::vector::int2::int2;
use crate::vector::long2::long2;
use crate::vector::uchar2::uchar2;
use crate::vector::uchar4::uchar4;
use crate::vector::uint2::uint2;
use crate::vector::ulong2::ulong2;
use crate::vector::ushort2::ushort2;
use vstd::prelude::*;
use vstd::std_specs::convert::FromSpecImpl;
use vstd::std_specs::ops::{
    AddSpec, AddSpecImpl, BitAndSpecImpl, BitOrSpecImpl, BitXorSpecImpl, DivSpecImpl, MulSpecImpl,
    NegSpec, NegSpecImpl, NotSpec, NotSpecImpl, RemSpecImpl, ShlSpecImpl, ShrSpec, ShrSpecImpl,
    SubSpec, SubSpecImpl,
};

verus! {

/// Two lanes of `i16`.
#[derive(Copy, Clone, Debug, PartialEq, Eq, Structural)]
pub struct short2(pub i16, pub i16);

impl core::ops::Add for short2 {
    type Output = short2;

    /// The lane-wise sum of the two vectors, wrapping around.
    fn add(self, rhs: short2) -> (r: short2) {
        short2(add_i16(self.0, rhs.0), add_i16(self.1, rhs.1))
    }
}

impl AddSpecImpl for short2 {
    open spec fn obeys_add_spec() -> bool {
        true
    }

    open spec fn add_req(self, rhs: short2) -> bool {
        true
    }

    open spec fn add_spec(self, rhs: short2) -> short2 {
        short2(add_i16(self.0, rhs.0), add_i16(self.1, rhs.1))
    }
}

impl core::ops::Add<i16> for short2 {
    type Output = short2;

    /// The sum of every lane and the scalar, wrapping around.
    fn add(self, rhs: i16) -> (r: short2) {
        short2(add_i16(self.0, rhs), add_i16(self.1, rhs))
    }
}

impl AddSpecImpl<i16> for short2 {
    open spec fn obeys_add_spec() -> bool {
        true
    }

    open spec fn add_req(self, rhs: i16) -> bool {
        true
    }

    open spec fn add_spec(self, rhs: i16) -> short2 {
        short2(add_i16(self.0, rhs), add_i16(self.1, rhs))
    }
}

impl core::ops::Add<short2> for i16 {
    type Output = short2;

    /// The sum of the scalar and every lane, wrapping around.
    fn add(self, rhs: short2) -> (r: short2) {
        short2(add_i16(self, rhs.0), add_i16(self, rhs.1))
    }
}

impl AddSpecImpl<short2> for i16 {
    open spec fn obeys_add_spec() -> bool {
        true
    }

    open spec fn add_req(self, rhs: short2) -> bool {
        true
    }

    open spec fn add_spec(self, rhs: short2) -> short2 {
        short2(add_i16(self, rhs.0), add_i16(self, rhs.1))
    }
}

impl core::ops::Sub for short2 {
    type Output = short2;

    /// The lane-wise difference of the two vectors, wrapping around.
    fn sub(self, rhs: short2) -> (r: short2) {
        short2(sub_i16(self.0, rhs.0), sub_i16(self.1, rhs.1))
    }
}

impl SubSpecImpl for short2 {
    open spec fn obeys_sub_spec() -> bool {
        true
    }

    open spec fn sub_req(self, rhs: short2) -> bool {
        true
    }

    open spec fn sub_spec(self, rhs: short2) -> short2 {
        short2(sub_i16(self.0, rhs.0), sub_i16(self.1, rhs.1))
    }
}

impl core::ops::Sub<i16> for short2 {
    type Output = short2;

    /// The difference of every lane and the scalar, wrapping around.
    fn sub(self, rhs: i16) -> (r: short2) {
        short2(sub_i16(self.0, rhs), sub_i16(self.1, rhs))
    }
}

impl SubSpecImpl<i16> for short2 {
    open spec fn obeys_sub_spec() -> bool {
        true
    }

    open spec fn sub_req(self, rhs: i16) -> bool {
        true
    }

    open spec fn sub_spec(self, rhs: i16) -> short2 {
        short2(sub_i16(self.0, rhs), sub_i16(self.1, rhs))
    }
}

impl core::ops::Sub<short2> for i16 {
    type Output = short2;

    /// The difference of the scalar and every lane, wrapping around.
    fn sub(self, rhs: short2) -> (r: short2) {
        short2(sub_i16(self, rhs.0), sub_i16(self, rhs.1))
    }
}

impl SubSpecImpl<short2> for i16 {
    open spec fn obeys_sub_spec() -> bool {
        true
    }

    open spec fn sub_req(self, rhs: short2) -> bool {
        true
    }

    open spec fn sub_spec(self, rhs: short2) -> short2 {
        short2(sub_i16(self, rhs.0), sub_i16(self, rhs.1))
    }
}

impl core::ops::Mul for short2 {
    type Output = short2;

    /// The lane-wise product of the two vectors, wrapping around.
    fn mul(self, rhs: short2) -> (r: short2) {
        short2(mul_i16(self.0, rhs.0), mul_i16(self.1, rhs.1))
    }
}

impl MulSpecImpl for short2 {
    open spec fn obeys_mul_spec() -> bool {
        true
    }

    open spec fn mul_req(self, rhs: short2) -> bool {
        true
    }

    open spec fn mul_spec(self, rhs: short2) -> short2 {
        short2(mul_i16(self.0, rhs.0), mul_i16(self.1, rhs.1))
    }
}

impl core::ops::Mul<i16> for short2 {
    type Output = short2;

    /// The product of every lane and the scalar, wrapping around.
    fn mul(self, rhs: i16) -> (r: short2) {
        short2(mul_i16(self.0, rhs), mul_i16(self.1, rhs))
    }
}

impl MulSpecImpl<i16> for short2 {
    open spec fn obeys_mul_spec() -> bool {
        true
    }

    open spec fn mul_req(self, rhs: i16) -> bool {
        true
    }

    open spec fn mul_spec(self, rhs: i16) -> short2 {
        short2(mul_i16(self.0, rhs), mul_i16(self.1, rhs))
    }
}

impl core::ops::Mul<short2> for i16 {
    type Output = short2;

    /// The product of the scalar and every lane, wrapping around.
    fn mul(self, rhs: short2) -> (r: short2) {
        short2(mul_i16(self, rhs.0), mul_i16(self, rhs.1))
    }
}

impl MulSpecImpl<short2> for i16 {
    open spec fn obeys_mul_spec() -> bool {
        true
    }

    open spec fn mul_req(self, rhs: short2) -> bool {
        true
    }

    open spec fn mul_spec(self, rhs: short2) -> short2 {
        short2(mul_i16(self, rhs.0), mul_i16(self, rhs.1))
    }
}

impl core::ops::Div for short2 {
    type Output = short2;

    /// The lane-wise quotient of the two vectors, rounded toward zero. No lane of the divisor is
    /// zero.
    fn div(self, rhs: short2) -> (r: short2) {
        short2(div_i16(self.0, rhs.0), div_i16(self.1, rhs.1))
    }
}

impl DivSpecImpl for short2 {
    open spec fn obeys_div_spec() -> bool {
        true
    }

    open spec fn div_req(self, rhs: short2) -> bool {
        rhs.0 != 0 && rhs.1 != 0
    }

    open spec fn div_spec(self, rhs: short2) -> short2 {
        short2(div_i16(self.0, rhs.0), div_i16(self.1, rhs.1))
    }
}

impl core::ops::Div<i16> for short2 {
    type Output = short2;

    /// The quotient of every lane by the scalar, rounded toward zero. The scalar is not zero.
    fn div(self, rhs: i16) -> (r: short2) {
        short2(div_i16(self.0, rhs), div_i16(self.1, rhs))
    }
}

impl DivSpecImpl<i16> for short2 {
    open spec fn obeys_div_spec() -> bool {
        true
    }

    open spec fn div_req(self, rhs: i16) -> bool {
        rhs != 0
    }

    open spec fn div_spec(self, rhs: i16) -> short2 {
        short2(div_i16(self.0, rhs), div_i16(self.1, rhs))
    }
}

impl core::ops::Div<short2> for i16 {
    type Output = short2;

    /// The quotient of the scalar by every lane, rounded toward zero. No lane is zero.
    fn div(self, rhs: short2) -> (r: short2) {
        short2(div_i16(self, rhs.0), div_i16(self, rhs.1))
    }
}

impl DivSpecImpl<short2> for i16 {
    open spec fn obeys_div_spec() -> bool {
        true
    }

    open spec fn div_req(self, rhs: short2) -> bool {
        rhs.0 != 0 && rhs.1 != 0
    }

    open spec fn div_spec(self, rhs: short2) -> short2 {
        short2(div_i16(self, rhs.0), div_i16(self, rhs.1))
    }
}

impl core::ops::BitAnd for short2 {
    type Output = short2;

    /// The lane-wise conjunction of the two vectors, bit by bit.
    fn bitand(self, rhs: short2) -> (r: short2) {
        short2(self.0 & rhs.0, self.1 & rhs.1)
    }
}

impl BitAndSpecImpl for short2 {
    open spec fn obeys_bitand_spec() -> bool {
        true
    }

    open spec fn bitand_req(self, rhs: short2) -> bool {
        true
    }

    open spec fn bitand_spec(self, rhs: short2) -> short2 {
        short2(self.0 & rhs.0, self.1 & rhs.1)
    }
}

impl core::ops::BitAnd<i16> for short2 {
    type Output = short2;

    /// The conjunction of every lane and the scalar, bit by bit.
    fn bitand(self, rhs: i16) -> (r: short2) {
        short2(self.0 & rhs, self.1 & rhs)
    }
}

impl BitAndSpecImpl<i16> for short2 {
    open spec fn obeys_bitand_spec() -> bool {
        true
    }

    open spec fn bitand_req(self, rhs: i16) -> bool {
        true
    }

    open spec fn bitand_spec(self, rhs: i16) -> short2 {
        short2(self.0 & rhs, self.1 & rhs)
    }
}

impl core::ops::BitAnd<short2> for i16 {
    type Output = short2;

    /// The conjunction of the scalar and every lane, bit by bit.
    fn bitand(self, rhs: short2) -> (r: short2) {
        short2(self & rhs.0, self & rhs.1)
    }
}

impl BitAndSpecImpl<short2> for i16 {
    open spec fn obeys_bitand_spec() -> bool {
        true
    }

    open spec fn bitand_req(self, rhs: short2) -> bool {
        true
    }

    open spec fn bitand_spec(self, rhs: short2) -> short2 {
        short2(self & rhs.0, self & rhs.1)
    }
}

impl core::ops::BitOr for short2 {
    type Output = short2;

    /// The lane-wise disjunction of the two vectors, bit by bit.
    fn bitor(self, rhs: short2) -> (r: short2) {
        short2(self.0 | rhs.0, self.1 | rhs.1)
    }
}

impl BitOrSpecImpl for short2 {
    open spec fn obeys_bitor_spec() -> bool {
        true
    }

    open spec fn bitor_req(self, rhs: short2) -> bool {
        true
    }

    open spec fn bitor_spec(self, rhs: short2) -> short2 {
        short2(self.0 | rhs.0, self.1 | rhs.1)
    }
}

impl core::ops::BitOr<i16> for short2 {
    type Output = short2;

    /// The disjunction of every lane and the scalar, bit by bit.
    fn bitor(self, rhs: i16) -> (r: short2) {
        short2(self.0 | rhs, self.1 | rhs)
    }
}

impl BitOrSpecImpl<i16> for short2 {
    open spec fn obeys_bitor_spec() -> bool {
        true
    }

    open spec fn bitor_req(self, rhs: i16) -> bool {
        true
    }

    open spec fn bitor_spec(self, rhs: i16) -> short2 {
        short2(self.0 | rhs, self.1 | rhs)
    }
}

impl core::ops::BitOr<short2> for i16 {
    type Output = short2;

    /// The disjunction of the scalar and every lane, bit by bit.
    fn bitor(self, rhs: short2) -> (r: short2) {
        short2(self | rhs.0, self | rhs.1)
    }
}

impl BitOrSpecImpl<short2> for i16 {
    open spec fn obeys_bitor_spec() -> bool {
        true
    }

    open spec fn bitor_req(self, rhs: short2) -> bool {
        true
    }

    open spec fn bitor_spec(self, rhs: short2) -> short2 {
        short2(self | rhs.0, self | rhs.1)
    }
}

impl core::ops::BitXor for short2 {
    type Output = short2;

    /// The lane-wise exclusive disjunction of the two vectors, bit by bit.
    fn bitxor(self, rhs: short2) -> (r: short2) {
        short2(self.0 ^ rhs.0, self.1 ^ rhs.1)
    }
}

impl BitXorSpecImpl for short2 {
    open spec fn obeys_bitxor_spec() -> bool {
        true
    }

    open spec fn bitxor_req(self, rhs: short2) -> bool {
        true
    }

    open spec fn bitxor_spec(self, rhs: short2) -> short2 {
        short2(self.0 ^ rhs.0, self.1 ^ rhs.1)
    }
}

impl core::ops::BitXor<i16> for short2 {
    type Output = short2;

    /// The exclusive disjunction of every lane and the scalar, bit by bit.
    fn bitxor(self, rhs: i16) -> (r: short2) {
        short2(self.0 ^ rhs, self.1 ^ rhs)
    }
}

impl BitXorSpecImpl<i16> for short2 {
    open spec fn obeys_bitxor_spec() -> bool {
        true
    }

    open spec fn bitxor_req(self, rhs: i16) -> bool {
        true
    }

    open spec fn bitxor_spec(self, rhs: i16) -> short2 {
        short2(self.0 ^ rhs, self.1 ^ rhs)
    }
}

impl core::ops::BitXor<short2> for i16 {
    type Output = short2;

    /// The exclusive disjunction of the scalar and every lane, bit by bit.
    fn bitxor(self, rhs: short2) -> (r: short2) {
        short2(self ^ rhs.0, self ^ rhs.1)
    }
}

impl BitXorSpecImpl<short2> for i16 {
    open spec fn obeys_bitxor_spec() -> bool {
        true
    }

    open spec fn bitxor_req(self, rhs: short2) -> bool {
        true
    }

    open spec fn bitxor_spec(self, rhs: short2) -> short2 {
        short2(self ^ rhs.0, self ^ rhs.1)
    }
}

impl core::ops::Shl for short2 {
    type Output = short2;

    /// Every lane shifted left by the lane of `rhs`, which is below 16.
    fn shl(self, rhs: short2) -> (r: short2) {
        short2(shl_i16(self.0, rhs.0), shl_i16(self.1, rhs.1))
    }
}

impl ShlSpecImpl for short2 {
    open spec fn obeys_shl_spec() -> bool {
        true
    }

    open spec fn shl_req(self, rhs: short2) -> bool {
        0 <= rhs.0 < 16 && 0 <= rhs.1 < 16
    }

    open spec fn shl_spec(self, rhs: short2) -> short2 {
        short2(shl_i16(self.0, rhs.0), shl_i16(self.1, rhs.1))
    }
}

impl core::ops::Shl<i16> for short2 {
    type Output = short2;

    /// Every lane shifted left by `rhs`, which is below 16.
    fn shl(self, rhs: i16) -> (r: short2) {
        short2(shl_i16(self.0, rhs), shl_i16(self.1, rhs))
    }
}

impl ShlSpecImpl<i16> for short2 {
    open spec fn obeys_shl_spec() -> bool {
        true
    }

    open spec fn shl_req(self, rhs: i16) -> bool {
        0 <= rhs < 16
    }

    open spec fn shl_spec(self, rhs: i16) -> short2 {
        short2(shl_i16(self.0, rhs), shl_i16(self.1, rhs))
    }
}

impl core::ops::Shl<short2> for i16 {
    type Output = short2;

    /// The scalar shifted left by every lane of `rhs`, each of which is below 16.
    fn shl(self, rhs: short2) -> (r: short2) {
        short2(shl_i16(self, rhs.0), shl_i16(self, rhs.1))
    }
}

impl ShlSpecImpl<short2> for i16 {
    open spec fn obeys_shl_spec() -> bool {
        true
    }

    open spec fn shl_req(self, rhs: short2) -> bool {
        0 <= rhs.0 < 16 && 0 <= rhs.1 < 16
    }

    open spec fn shl_spec(self, rhs: short2) -> short2 {
        short2(shl_i16(self, rhs.0), shl_i16(self, rhs.1))
    }
}

impl core::ops::Shr for short2 {
    type Output = short2;

    /// Every lane shifted right by the lane of `rhs`, which is below 16.
    fn shr(self, rhs: short2) -> (r: short2) {
        short2(shr_i16(self.0, rhs.0), shr_i16(self.1, rhs.1))
    }
}

impl ShrSpecImpl for short2 {
    open spec fn obeys_shr_spec() -> bool {
        true
    }

    open spec fn shr_req(self, rhs: short2) -> bool {
        0 <= rhs.0 < 16 && 0 <= rhs.1 < 16
    }

    open spec fn shr_spec(self, rhs: short2) -> short2 {
        short2(shr_i16(self.0, rhs.0), shr_i16(self.1, rhs.1))
    }
}

impl core::ops::Shr<i16> for short2 {
    type Output = short2;

    /// Every lane shifted right by `rhs`, which is below 16.
    fn shr(self, rhs: i16) -> (r: short2) {
        short2(shr_i16(self.0, rhs), shr_i16(self.1, rhs))
    }
}

impl ShrSpecImpl<i16> for short2 {
    open spec fn obeys_shr_spec() -> bool {
        true
    }

    open spec fn shr_req(self, rhs: i16) -> bool {
        0 <= rhs < 16
    }

    open spec fn shr_spec(self, rhs: i16) -> short2 {
        short2(shr_i16(self.0, rhs), shr_i16(self.1, rhs))
    }
}

impl core::ops::Shr<short2> for i16 {
    type Output = short2;

    /// The scalar shifted right by every lane of `rhs`, each of which is below 16.
    fn shr(self, rhs: short2) -> (r: short2) {
        short2(shr_i16(self, rhs.0), shr_i16(self, rhs.1))
    }
}

impl ShrSpecImpl<short2> for i16 {
    open spec fn obeys_shr_spec() -> bool {
        true
    }

    open spec fn shr_req(self, rhs: short2) -> bool {
        0 <= rhs.0 < 16 && 0 <= rhs.1 < 16
    }

    open spec fn shr_spec(self, rhs: short2) -> short2 {
        short2(shr_i16(self, rhs.0), shr_i16(self, rhs.1))
    }
}

impl core::ops::Rem for short2 {
    type Output = short2;

    /// The lane-wise remainder `self - (self / rhs) * rhs`. No lane of the divisor is zero.
    fn rem(self, rhs: short2) -> (r: short2) {
        short2(rem_i16(self.0, rhs.0), rem_i16(self.1, rhs.1))
    }
}

impl RemSpecImpl for short2 {
    open spec fn obeys_rem_spec() -> bool {
        true
    }

    open spec fn rem_req(self, rhs: short2) -> bool {
        rhs.0 != 0 && rhs.1 != 0
    }

    open spec fn rem_spec(self, rhs: short2) -> short2 {
        short2(rem_i16(self.0, rhs.0), rem_i16(self.1, rhs.1))
    }
}

impl core::ops::Neg for short2 {
    type Output = short2;

    /// Zero minus every lane, wrapping around.
    fn neg(self) -> (r: short2) {
        short2(neg_i16(self.0), neg_i16(self.1))
    }
}

impl NegSpecImpl for short2 {
    open spec fn obeys_neg_spec() -> bool {
        true
    }

    open spec fn neg_req(self) -> bool {
        true
    }

    open spec fn neg_spec(self) -> short2 {
        short2(neg_i16(self.0), neg_i16(self.1))
    }
}

impl core::ops::Not for short2 {
    type Output = short2;

    /// Every lane with every bit flipped.
    fn not(self) -> (r: short2) {
        short2(not_i16(self.0), not_i16(self.1))
    }
}

impl NotSpecImpl for short2 {
    open spec fn obeys_not_spec() -> bool {
        true
    }

    open spec fn not_req(self) -> bool {
        true
    }

    open spec fn not_spec(self) -> short2 {
        short2(not_i16(self.0), not_i16(self.1))
    }
}

impl core::convert::From<isize> for short2 {
    /// The vector with `x`, wrapped to `i16`, in every lane.
    fn from(x: isize) -> (r: short2) {
        let v = isize_to_i16(x);
        short2(v, v)
    }
}

impl FromSpecImpl<isize> for short2 {
    open spec fn obeys_from_spec() -> bool {
        true
    }

    open spec fn from_spec(x: isize) -> short2 {
        short2(isize_to_i16(x), isize_to_i16(x))
    }
}

impl core::ops::Index<u32> for short2 {
    type Output = i16;

    /// Lane `i`, which is below 2.
    fn index(&self, i: u32) -> (r: &i16)
        ensures
            *r == self.lane(i as int),
    {
        match i {
            0 => &self.0,
            _ => &self.1,
        }
    }
}

impl vstd::std_specs::core::IndexSpecImpl<u32> for short2 {
    open spec fn index_req(&self, i: &u32) -> bool {
        *i < 2
    }
}

impl short2 {
    /// Lane `i`, counted from zero.
    pub open spec fn lane(self, i: int) -> i16
        recommends
            0 <= i < 2,
    {
        if i == 0 {
            self.0
        } else {
            self.1
        }
    }

    /// The vector of type `short2` with the bits of `x`, a value of a type that has as many bits,
    /// which is one with images of type `uchar4`.
    pub fn bitcast<U: Bitcast<Image = uchar4>>(x: U) -> (r: short2)
        ensures
            r == spec_bitcast::<U, short2>(x),
    {
        bitcast(x)
    }

    /// The vector with `x` in every lane.
    pub fn broadcast(x: i16) -> (r: short2)
        ensures
            r == short2(x, x),
    {
        short2(x, x)
    }

    /// Lane `i`, which is below 2.
    pub fn extract(self, i: u32) -> (r: i16)
        requires
            i < 2,
        ensures
            r == self.lane(i as int),
    {
        match i {
            0 => self.0,
            _ => self.1,
        }
    }

    /// The vector with `x` in lane `i`, which is below 2, and the other lanes unchanged.
    pub fn replace(self, i: u32, x: i16) -> (r: short2)
        requires
            i < 2,
        ensures
            forall|j: int| 0 <= j < 2 ==> #[trigger] r.lane(j) == (if j == i {
                x
            } else {
                self.lane(j)
            }),
    {
        match i {
            0 => short2(x, self.1),
            _ => short2(self.0, x),
        }
    }

    /// The mask that is all ones where the lanes of `x` and `y` are equal, and zero elsewhere.
    pub fn eq(x: short2, y: short2) -> (r: short2)
        ensures
            r == short2(eq_i16(x.0, y.0), eq_i16(x.1, y.1)),
    {
        short2(eq_i16(x.0, y.0), eq_i16(x.1, y.1))
    }

    /// The mask that is all ones where the lanes of `x` and `y` differ, and zero elsewhere.
    pub fn ne(x: short2, y: short2) -> (r: short2)
        ensures
            r == short2(ne_i16(x.0, y.0), ne_i16(x.1, y.1)),
    {
        short2(ne_i16(x.0, y.0), ne_i16(x.1, y.1))
    }

    /// The mask that is all ones where the lane of `x` is less than that of `y`, and zero
    /// elsewhere.
    pub fn lt(x: short2, y: short2) -> (r: short2)
        ensures
            r == short2(lt_i16(x.0, y.0), lt_i16(x.1, y.1)),
    {
        short2(lt_i16(x.0, y.0), lt_i16(x.1, y.1))
    }

    /// The mask that is all ones where the lane of `x` is at most that of `y`, and zero elsewhere.
    pub fn le(x: short2, y: short2) -> (r: short2)
        ensures
            r == short2(le_i16(x.0, y.0), le_i16(x.1, y.1)),
    {
        short2(le_i16(x.0, y.0), le_i16(x.1, y.1))
    }

    /// The mask that is all ones where the lane of `x` is greater than that of `y`, and zero
    /// elsewhere.
    pub fn gt(x: short2, y: short2) -> (r: short2)
        ensures
            r == short2(gt_i16(x.0, y.0), gt_i16(x.1, y.1)),
    {
        short2(gt_i16(x.0, y.0), gt_i16(x.1, y.1))
    }

    /// The mask that is all ones where the lane of `x` is at least that of `y`, and zero elsewhere.
    pub fn ge(x: short2, y: short2) -> (r: short2)
        ensures
            r == short2(ge_i16(x.0, y.0), ge_i16(x.1, y.1)),
    {
        short2(ge_i16(x.0, y.0), ge_i16(x.1, y.1))
    }

    /// `x * y + z` lane by lane, wrapping around.
    pub fn madd(x: short2, y: short2, z: short2) -> (r: short2)
        ensures
            r == short2(madd_i16(x.0, y.0, z.0), madd_i16(x.1, y.1, z.1)),
    {
        short2(madd_i16(x.0, y.0, z.0), madd_i16(x.1, y.1, z.1))
    }

    /// The magnitude of every lane; that of `i16::MIN` wraps around to `i16::MIN`.
    pub fn abs(x: short2) -> (r: short2)
        ensures
            r == x.spec_abs(),
    {
        short2(abs_i16(x.0), abs_i16(x.1))
    }

    /// The greater lane of `x` and `y`, lane by lane.
    pub fn max(x: short2, y: short2) -> (r: short2)
        ensures
            r == x.spec_max(y),
    {
        short2(max_i16(x.0, y.0), max_i16(x.1, y.1))
    }

    /// The smaller lane of `x` and `y`, lane by lane.
    pub fn min(x: short2, y: short2) -> (r: short2)
        ensures
            r == x.spec_min(y),
    {
        short2(min_i16(x.0, y.0), min_i16(x.1, y.1))
    }

    /// Every lane of `x` raised to at least the lane of `lo`, then lowered to at most that of `hi`.
    pub fn clamp(x: short2, lo: short2, hi: short2) -> (r: short2)
        ensures
            r == x.spec_clamp(lo, hi),
    {
        short2(clamp_i16(x.0, lo.0, hi.0), clamp_i16(x.1, lo.1, hi.1))
    }

    /// The sum of the lanes, wrapping around.
    pub fn reduce_add(x: short2) -> (r: i16)
        ensures
            r == x.spec_reduce_add(),
    {
        add_i16(x.0, x.1)
    }

    /// The smallest lane.
    pub fn reduce_min(x: short2) -> (r: i16)
        ensures
            r == x.spec_reduce_min(),
            r <= x.0 && r <= x.1,
            r == x.0 || r == x.1,
    {
        min_i16(x.0, x.1)
    }

    /// The greatest lane.
    pub fn reduce_max(x: short2) -> (r: i16)
        ensures
            r == x.spec_reduce_max(),
            r >= x.0 && r >= x.1,
            r == x.0 || r == x.1,
    {
        max_i16(x.0, x.1)
    }

    /// Every lane as `i8`: its low 8 bits, read as `i8`.
    pub fn to_char(x: short2) -> (r: char2)
        ensures
            r == char2(i16_to_i8(x.0), i16_to_i8(x.1)),
    {
        char2(i16_to_i8(x.0), i16_to_i8(x.1))
    }

    /// Every lane as `i8`, saturating: a lane outside the range of `i8` gives the nearest bound.
    pub fn to_char_sat(x: short2) -> (r: char2)
        ensures
            r == x.spec_to_char_sat(),
    {
        char2(i16_to_i8_sat(x.0), i16_to_i8_sat(x.1))
    }

    /// Every lane as `u8`: its low 8 bits, read as `u8`.
    pub fn to_uchar(x: short2) -> (r: uchar2)
        ensures
            r == uchar2(i16_to_u8(x.0), i16_to_u8(x.1)),
    {
        uchar2(i16_to_u8(x.0), i16_to_u8(x.1))
    }

    /// Every lane as `u8`, saturating: a lane outside the range of `u8` gives the nearest bound.
    pub fn to_uchar_sat(x: short2) -> (r: uchar2)
        ensures
            r == x.spec_to_uchar_sat(),
    {
        uchar2(i16_to_u8_sat(x.0), i16_to_u8_sat(x.1))
    }

    /// The vector itself: its lanes are `i16` already.
    pub fn to_short(x: short2) -> (r: short2)
        ensures
            r == x,
    {
        x
    }

    /// The vector itself: its lanes are `i16` already, and nothing saturates.
    pub fn to_short_sat(x: short2) -> (r: short2)
        ensures
            r == x.spec_to_short_sat(),
    {
        x
    }

    /// Every lane as `u16`: the same bits, read as `u16`.
    pub fn to_ushort(x: short2) -> (r: ushort2)
        ensures
            r == ushort2(i16_to_u16(x.0), i16_to_u16(x.1)),
    {
        ushort2(i16_to_u16(x.0), i16_to_u16(x.1))
    }

    /// Every lane as `u16`, saturating: a lane outside the range of `u16` gives the nearest bound.
    pub fn to_ushort_sat(x: short2) -> (r: ushort2)
        ensures
            r == x.spec_to_ushort_sat(),
    {
        ushort2(i16_to_u16_sat(x.0), i16_to_u16_sat(x.1))
    }

    /// Every lane as `i32`, which holds every `i16`.
    pub fn to_int(x: short2) -> (r: int2)
        ensures
            r == int2(i16_to_i32(x.0), i16_to_i32(x.1)),
    {
        int2(i16_to_i32(x.0), i16_to_i32(x.1))
    }

    /// Every lane as `i32`, saturating; nothing saturates, since `i32` holds every `i16`.
    pub fn to_int_sat(x: short2) -> (r: int2)
        ensures
            r == x.spec_to_int_sat(),
    {
        int2(i16_to_i32_sat(x.0), i16_to_i32_sat(x.1))
    }

    /// Every lane as `u32`, sign-extended: a negative lane wraps around.
    pub fn to_uint(x: short2) -> (r: uint2)
        ensures
            r == uint2(i16_to_u32(x.0), i16_to_u32(x.1)),
    {
        uint2(i16_to_u32(x.0), i16_to_u32(x.1))
    }

    /// Every lane as `u32`, saturating: a lane outside the range of `u32` gives the nearest bound.
    pub fn to_uint_sat(x: short2) -> (r: uint2)
        ensures
            r == x.spec_to_uint_sat(),
    {
        uint2(i16_to_u32_sat(x.0), i16_to_u32_sat(x.1))
    }

    /// Every lane as `i64`, which holds every `i16`.
    pub fn to_long(x: short2) -> (r: long2)
        ensures
            r == long2(i16_to_i64(x.0), i16_to_i64(x.1)),
    {
        long2(i16_to_i64(x.0), i16_to_i64(x.1))
    }

    /// Every lane as `i64`, saturating; nothing saturates, since `i64` holds every `i16`.
    pub fn to_long_sat(x: short2) -> (r: long2)
        ensures
            r == x.spec_to_long_sat(),
    {
        long2(i16_to_i64_sat(x.0), i16_to_i64_sat(x.1))
    }

    /// Every lane as `u64`, sign-extended: a negative lane wraps around.
    pub fn to_ulong(x: short2) -> (r: ulong2)
        ensures
            r == ulong2(i16_to_u64(x.0), i16_to_u64(x.1)),
    {
        ulong2(i16_to_u64(x.0), i16_to_u64(x.1))
    }

    /// Every lane as `u64`, saturating: a lane outside the range of `u64` gives the nearest bound.
    pub fn to_ulong_sat(x: short2) -> (r: ulong2)
        ensures
            r == x.spec_to_ulong_sat(),
    {
        ulong2(i16_to_u64_sat(x.0), i16_to_u64_sat(x.1))
    }

    /// The low half: lane 0.
    pub fn lo(self) -> (r: i16)
        ensures
            r == self.0,
    {
        self.0
    }

    /// The high half: lane 1.
    pub fn hi(self) -> (r: i16)
        ensures
            r == self.1,
    {
        self.1
    }

    /// The odd lane: lane 1.
    pub fn odd(self) -> (r: i16)
        ensures
            r == self.1,
    {
        self.1
    }

    /// The even lane: lane 0.
    pub fn even(self) -> (r: i16)
        ensures
            r == self.0,
    {
        self.0
    }

    /// The vector of `f` applied to every lane. `f` accepts every lane.
    pub fn map_unary<F: Fn(i16) -> i16>(self, f: F) -> (r: short2)
        requires
            call_requires(f, (self.0,)),
            call_requires(f, (self.1,)),
        ensures
            call_ensures(f, (self.0,), r.0),
            call_ensures(f, (self.1,), r.1),
    {
        short2(f(self.0), f(self.1))
    }

    /// The vector of `f` applied to the lanes of the two vectors, lane by lane. `f` accepts every
    /// such pair of lanes.
    pub fn map_binary<F: Fn(i16, i16) -> i16>(self, other: short2, f: F) -> (r: short2)
        requires
            call_requires(f, (self.0, other.0)),
            call_requires(f, (self.1, other.1)),
        ensures
            call_ensures(f, (self.0, other.0), r.0),
            call_ensures(f, (self.1, other.1), r.1),
    {
        short2(f(self.0, other.0), f(self.1, other.1))
    }

    /// The lanes folded by `f`, from lane 0 upward: `f` is applied to lane 1 and lane 0, then to
    /// each further lane and what the lanes below it gave. `f` accepts every pair of scalars.
    pub fn reduce<F: Fn(i16, i16) -> i16>(self, f: F) -> (r: i16)
        requires
            forall|a: i16, b: i16| call_requires(f, (a, b)),
        ensures
            call_ensures(f, (self.1, self.0), r),
    {
        f(self.1, self.0)
    }

    /// Addition commutes.
    pub proof fn lemma_add_commutes(x: short2, y: short2)
        ensures
            AddSpec::add_spec(x, y) == AddSpec::add_spec(y, x),
    {
        lemma_arith_i16(x.0, y.0, 0);
        lemma_arith_i16(x.1, y.1, 0);
    }

    /// Addition associates, wrap-around or not.
    pub proof fn lemma_add_associates(x: short2, y: short2, z: short2)
        ensures
            AddSpec::add_spec(AddSpec::add_spec(x, y), z)
                == AddSpec::add_spec(x, AddSpec::add_spec(y, z)),
    {
        lemma_arith_i16(x.0, y.0, z.0);
        lemma_arith_i16(x.1, y.1, z.1);
    }

    /// Swapping the operands of a subtraction negates the difference.
    pub proof fn lemma_sub_swaps(x: short2, y: short2)
        ensures
            SubSpec::sub_spec(x, y) == NegSpec::neg_spec(SubSpec::sub_spec(y, x)),
    {
        lemma_arith_i16(x.0, y.0, 0);
        lemma_arith_i16(x.1, y.1, 0);
    }

    /// The magnitude of a magnitude is that magnitude, and the magnitude of a lane other than
    /// `i16::MIN` is not negative.
    pub proof fn lemma_abs(x: short2)
        ensures
            x.spec_abs().spec_abs() == x.spec_abs(),
            forall|i: int|
                0 <= i < 2 && x.lane(i) != i16::MIN ==> #[trigger] x.spec_abs().lane(i) >= 0,
            forall|i: int|
                0 <= i < 2 && x.lane(i) == i16::MIN ==> #[trigger] x.spec_abs().lane(i) == i16::MIN,
    {
        lemma_abs_i16(x.0);
        lemma_abs_i16(x.1);
    }

    /// Flipping every bit of a lane gives minus one minus the lane.
    pub proof fn lemma_not(x: short2)
        ensures
            forall|i: int| 0 <= i < 2 ==> #[trigger] NotSpec::not_spec(x).lane(i) == -1 - x.lane(i),
    {
        lemma_not_i16(x.0);
        lemma_not_i16(x.1);
    }

    /// The lanes of a vector with `k` in every lane add up to 2 times `k`, wrapped around.
    pub proof fn lemma_reduce_add_broadcast(k: i16)
        ensures
            short2(k, k).spec_reduce_add() == wrap_i16(2 * k),
    {
    }

    /// Saturating conversion to `i8` gives, lane by lane, the lane itself where `i8` holds it and
    /// the nearest bound of `i8` where it does not.
    pub proof fn lemma_to_char_sat(x: short2)
        ensures
            forall|i: int|
                0 <= i < 2 ==> #[trigger] x.spec_to_char_sat().lane(i) == sat_i8(x.lane(i) as int),
    {
    }

    /// Saturating conversion to `u8` gives, lane by lane, the lane itself where `u8` holds it and
    /// the nearest bound of `u8` where it does not.
    pub proof fn lemma_to_uchar_sat(x: short2)
        ensures
            forall|i: int|
                0 <= i < 2 ==> #[trigger] x.spec_to_uchar_sat().lane(i) == sat_u8(x.lane(i) as int),
    {
    }

    /// Saturating conversion to `u16` gives, lane by lane, the lane itself where `u16` holds it and
    /// the nearest bound of `u16` where it does not.
    pub proof fn lemma_to_ushort_sat(x: short2)
        ensures
            forall|i: int|
                0 <= i < 2 ==>
                    #[trigger] x.spec_to_ushort_sat().lane(i) == sat_u16(x.lane(i) as int),
    {
    }

    /// Saturating conversion to `i32` gives every lane unchanged: `i32` holds every `i16`.
    pub proof fn lemma_to_int_sat(x: short2)
        ensures
            forall|i: int|
                0 <= i < 2 ==> #[trigger] x.spec_to_int_sat().lane(i) == sat_i32(x.lane(i) as int),
            forall|i: int| 0 <= i < 2 ==> #[trigger] x.spec_to_int_sat().lane(i) == x.lane(i),
    {
    }

    /// Saturating conversion to `u32` gives, lane by lane, the lane itself where `u32` holds it and
    /// the nearest bound of `u32` where it does not.
    pub proof fn lemma_to_uint_sat(x: short2)
        ensures
            forall|i: int|
                0 <= i < 2 ==> #[trigger] x.spec_to_uint_sat().lane(i) == sat_u32(x.lane(i) as int),
    {
    }

    /// Saturating conversion to `i64` gives every lane unchanged: `i64` holds every `i16`.
    pub proof fn lemma_to_long_sat(x: short2)
        ensures
            forall|i: int|
                0 <= i < 2 ==> #[trigger] x.spec_to_long_sat().lane(i) == sat_i64(x.lane(i) as int),
            forall|i: int| 0 <= i < 2 ==> #[trigger] x.spec_to_long_sat().lane(i) == x.lane(i),
    {
    }

    /// Saturating conversion to `u64` gives, lane by lane, the lane itself where `u64` holds it and
    /// the nearest bound of `u64` where it does not.
    pub proof fn lemma_to_ulong_sat(x: short2)
        ensures
            forall|i: int|
                0 <= i < 2 ==>
                    #[trigger] x.spec_to_ulong_sat().lane(i) == sat_u64(x.lane(i) as int),
    {
    }
}

impl Vector for short2 {
    type Scalar = i16;

    type Boolean = short2;

    type CharVector = char2;

    type ShortVector = short2;

    type IntVector = int2;

    type LongVector = long2;

    type UCharVector = uchar2;

    type UShortVector = ushort2;

    type UIntVector = uint2;

    type ULongVector = ulong2;

    type FloatVector = float2;

    type DoubleVector = double2;

    open spec fn spec_abs(self) -> short2 {
        short2(abs_i16(self.0), abs_i16(self.1))
    }

    open spec fn spec_max(self, other: short2) -> short2 {
        short2(max_i16(self.0, other.0), max_i16(self.1, other.1))
    }

    open spec fn spec_min(self, other: short2) -> short2 {
        short2(min_i16(self.0, other.0), min_i16(self.1, other.1))
    }

    open spec fn spec_clamp(self, lo: short2, hi: short2) -> short2 {
        short2(clamp_i16(self.0, lo.0, hi.0), clamp_i16(self.1, lo.1, hi.1))
    }

    open spec fn spec_reduce_add(self) -> i16 {
        wrap_i16(self.0 + self.1)
    }

    open spec fn spec_reduce_min(self) -> i16 {
        min_i16(self.0, self.1)
    }

    open spec fn spec_reduce_max(self) -> i16 {
        max_i16(self.0, self.1)
    }

    open spec fn spec_to_char_sat(self) -> char2 {
        char2(i16_to_i8_sat(self.0), i16_to_i8_sat(self.1))
    }

    open spec fn spec_to_uchar_sat(self) -> uchar2 {
        uchar2(i16_to_u8_sat(self.0), i16_to_u8_sat(self.1))
    }

    open spec fn spec_to_short_sat(self) -> short2 {
        self
    }

    open spec fn spec_to_ushort_sat(self) -> ushort2 {
        ushort2(i16_to_u16_sat(self.0), i16_to_u16_sat(self.1))
    }

    open spec fn spec_to_int_sat(self) -> int2 {
        int2(i16_to_i32_sat(self.0), i16_to_i32_sat(self.1))
    }

    open spec fn spec_to_uint_sat(self) -> uint2 {
        uint2(i16_to_u32_sat(self.0), i16_to_u32_sat(self.1))
    }

    open spec fn spec_to_long_sat(self) -> long2 {
        long2(i16_to_i64_sat(self.0), i16_to_i64_sat(self.1))
    }

    open spec fn spec_to_ulong_sat(self) -> ulong2 {
        ulong2(i16_to_u64_sat(self.0), i16_to_u64_sat(self.1))
    }

    fn abs(self) -> (r: short2) {
        short2::abs(self)
    }

    fn max(self, other: short2) -> (r: short2) {
        short2::max(self, other)
    }

    fn min(self, other: short2) -> (r: short2) {
        short2::min(self, other)
    }

    fn clamp(self, lo: short2, hi: short2) -> (r: short2) {
        short2::clamp(self, lo, hi)
    }

    fn reduce_add(self) -> (r: i16) {
        short2::reduce_add(self)
    }

    fn reduce_min(self) -> (r: i16) {
        short2::reduce_min(self)
    }

    fn reduce_max(self) -> (r: i16) {
        short2::reduce_max(self)
    }

    fn to_char_sat(self) -> (r: char2) {
        short2::to_char_sat(self)
    }

    fn to_uchar_sat(self) -> (r: uchar2) {
        short2::to_uchar_sat(self)
    }

    fn to_short_sat(self) -> (r: short2) {
        short2::to_short_sat(self)
    }

    fn to_ushort_sat(self) -> (r: ushort2) {
        short2::to_ushort_sat(self)
    }

    fn to_int_sat(self) -> (r: int2) {
        short2::to_int_sat(self)
    }

    fn to_uint_sat(self) -> (r: uint2) {
        short2::to_uint_sat(self)
    }

    fn to_long_sat(self) -> (r: long2) {
        short2::to_long_sat(self)
    }

    fn to_ulong_sat(self) -> (r: ulong2) {
        short2::to_ulong_sat(self)
    }
}

impl Integer for short2 {
    open spec fn spec_reduce_and(self) -> i16 {
        self.0 & self.1
    }

    open spec fn spec_reduce_or(self) -> i16 {
        self.0 | self.1
    }

    open spec fn spec_reduce_xor(self) -> i16 {
        self.0 ^ self.1
    }

    open spec fn spec_all(self) -> bool {
        truth_i16(self.0) && truth_i16(self.1)
    }

    open spec fn spec_any(self) -> bool {
        truth_i16(self.0) || truth_i16(self.1)
    }

    fn reduce_and(self) -> (r: i16) {
        self.0 & self.1
    }

    fn reduce_or(self) -> (r: i16) {
        self.0 | self.1
    }

    fn reduce_xor(self) -> (r: i16) {
        self.0 ^ self.1
    }

    fn all(self) -> (r: bool) {
        proof {
            lemma_bits_i16(self.0, self.1, 0, 0);
        }
        truth_i16(self.reduce_and())
    }

    fn any(self) -> (r: bool) {
        proof {
            lemma_bits_i16(self.0, self.1, 0, 0);
        }
        truth_i16(self.reduce_or())
    }
}

impl Dot for short2 {
    type DotProduct = i16;

    open spec fn spec_dot(self, other: short2) -> i16 {
        wrap_i16(self.0 * other.0 + self.1 * other.1)
    }

    fn dot(self, other: short2) -> (r: i16) {
        let s = mul_i16(self.0, other.0);
        let ghost mut t: int = self.0 * other.0;
        proof {
            lemma_wrap_i16_sum(t, self.1 * other.1);
            t = t + self.1 * other.1;
        }
        let s = madd_i16(self.1, other.1, s);
        s
    }
}

impl Select<short2> for short2 {
    open spec fn spec_select(self, a: short2, b: short2) -> short2 {
        short2(select_i16(self.0, a.0, b.0), select_i16(self.1, a.1, b.1))
    }

    open spec fn spec_bitselect(self, a: short2, b: short2) -> short2 {
        short2(bitselect_i16(self.0, a.0, b.0), bitselect_i16(self.1, a.1, b.1))
    }

    fn select(self, a: short2, b: short2) -> (r: short2) {
        short2(select_i16(self.0, a.0, b.0), select_i16(self.1, a.1, b.1))
    }

    fn bitselect(self, a: short2, b: short2) -> (r: short2) {
        short2(bitselect_i16(self.0, a.0, b.0), bitselect_i16(self.1, a.1, b.1))
    }
}

impl Select<ushort2> for short2 {
    open spec fn spec_select(self, a: ushort2, b: ushort2) -> ushort2 {
        ushort2(select_u16(self.0, a.0, b.0), select_u16(self.1, a.1, b.1))
    }

    open spec fn spec_bitselect(self, a: ushort2, b: ushort2) -> ushort2 {
        ushort2(bitselect_u16(self.0, a.0, b.0), bitselect_u16(self.1, a.1, b.1))
    }

    fn select(self, a: ushort2, b: ushort2) -> (r: ushort2) {
        ushort2(select_u16(self.0, a.0, b.0), select_u16(self.1, a.1, b.1))
    }

    fn bitselect(self, a: ushort2, b: ushort2) -> (r: ushort2) {
        ushort2(bitselect_u16(self.0, a.0, b.0), bitselect_u16(self.1, a.1, b.1))
    }
}

impl short2 {
    /// A blend of two `short2` gives the lane of `b` where the mask is all ones and the lane of `a`
    /// where it is zero, whatever the other lanes hold.
    pub proof fn lemma_bitselect_short2(m: short2, a: short2, b: short2)
        ensures
            forall|i: int|
                0 <= i < 2 && m.lane(i) == -1 ==>
                    #[trigger] m.spec_bitselect(a, b).lane(i) == b.lane(i),
            forall|i: int|
                0 <= i < 2 && m.lane(i) == 0 ==>
                    #[trigger] m.spec_bitselect(a, b).lane(i) == a.lane(i),
    {
        lemma_blend_i16(m.0, a.0, b.0);
        lemma_blend_i16(m.1, a.1, b.1);
    }

    /// A choice between two `short2` goes by the sign bit of the mask alone: it gives the lane of
    /// `b` where the mask is negative and the lane of `a` elsewhere, as the blend does under the
    /// mask whose every lane has its sign spread over all its bits.
    pub proof fn lemma_select_short2(m: short2, a: short2, b: short2)
        ensures
            m.spec_select(a, b) == ShrSpec::shr_spec(m, 15i16).spec_bitselect(a, b),
            forall|i: int|
                0 <= i < 2 && m.lane(i) < 0 ==> #[trigger] m.spec_select(a, b).lane(i) == b.lane(i),
            forall|i: int|
                0 <= i < 2 && m.lane(i) >= 0 ==>
                    #[trigger] m.spec_select(a, b).lane(i) == a.lane(i),
    {
        lemma_blend_i16(m.0, a.0, b.0);
        lemma_blend_i16(m.1, a.1, b.1);
    }

    /// A blend of two `ushort2` gives the lane of `b` where the mask is all ones and the lane of
    /// `a` where it is zero, whatever the other lanes hold.
    pub proof fn lemma_bitselect_ushort2(m: short2, a: ushort2, b: ushort2)
        ensures
            forall|i: int|
                0 <= i < 2 && m.lane(i) == -1 ==>
                    #[trigger] m.spec_bitselect(a, b).lane(i) == b.lane(i),
            forall|i: int|
                0 <= i < 2 && m.lane(i) == 0 ==>
                    #[trigger] m.spec_bitselect(a, b).lane(i) == a.lane(i),
    {
        lemma_blend_u16(m.0, a.0, b.0);
        lemma_blend_u16(m.1, a.1, b.1);
    }

    /// A choice between two `ushort2` goes by the sign bit of the mask alone: it gives the lane of
    /// `b` where the mask is negative and the lane of `a` elsewhere, as the blend does under the
    /// mask whose every lane has its sign spread over all its bits.
    pub proof fn lemma_select_ushort2(m: short2, a: ushort2, b: ushort2)
        ensures
            m.spec_select(a, b) == ShrSpec::shr_spec(m, 15i16).spec_bitselect(a, b),
            forall|i: int|
                0 <= i < 2 && m.lane(i) < 0 ==> #[trigger] m.spec_select(a, b).lane(i) == b.lane(i),
            forall|i: int|
                0 <= i < 2 && m.lane(i) >= 0 ==>
                    #[trigger] m.spec_select(a, b).lane(i) == a.lane(i),
    {
        lemma_blend_u16(m.0, a.0, b.0);
        lemma_blend_u16(m.1, a.1, b.1);
    }
}

impl Bitcast for short2 {
    type Image = uchar4;

    open spec fn spec_image(self) -> uchar4 {
        let d0 = split_u16_u8(i16_to_u16(self.0));
        let d1 = split_u16_u8(i16_to_u16(self.1));
        uchar4(d0.0, d0.1, d1.0, d1.1)
    }

    open spec fn spec_from_image(image: uchar4) -> short2 {
        short2(u16_to_i16(join_u8_u16(image.0, image.1)), u16_to_i16(join_u8_u16(image.2, image.3)))
    }

    open spec fn spec_fills() -> bool {
        true
    }

    fn image(self) -> (r: uchar4) {
        let d0 = split_u16_u8(i16_to_u16(self.0));
        let d1 = split_u16_u8(i16_to_u16(self.1));
        uchar4(d0.0, d0.1, d1.0, d1.1)
    }

    fn from_image(image: uchar4) -> (r: short2) {
        short2(u16_to_i16(join_u8_u16(image.0, image.1)), u16_to_i16(join_u8_u16(image.2, image.3)))
    }

    proof fn lemma_image(x: short2) {
        lemma_recast_i16(x.0);
        lemma_regroup_u8_u16(i16_to_u16(x.0), 0, 0);
        lemma_recast_i16(x.1);
        lemma_regroup_u8_u16(i16_to_u16(x.1), 0, 0);
    }

    proof fn lemma_from_image(image: uchar4) {
        lemma_regroup_u8_u16(0, image.0, image.1);
        lemma_recast_u16(join_u8_u16(image.0, image.1));
        lemma_regroup_u8_u16(0, image.2, image.3);
        lemma_recast_u16(join_u8_u16(image.2, image.3));
    }
}

impl short2 {
    /// Read as `ushort2`, which has lanes of the same width, a vector keeps the bits of every lane;
    /// read as `short2` again, it is what it was.
    pub proof fn lemma_bitcast_ushort2(x: short2)
        ensures
            spec_bitcast::<short2, ushort2>(x) == ushort2(i16_to_u16(x.0), i16_to_u16(x.1)),
            spec_bitcast::<ushort2, short2>(spec_bitcast::<short2, ushort2>(x)) == x,
    {
        lemma_recast_i16(x.0);
        lemma_regroup_u8_u16(i16_to_u16(x.0), 0, 0);
        lemma_recast_i16(x.1);
        lemma_regroup_u8_u16(i16_to_u16(x.1), 0, 0);
    }
}

} // verus!
