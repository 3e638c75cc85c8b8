//! `uchar2`: two lanes of `u8`.

use crate::scalar::lane_u8::{
    abs_u8, add_u8, clamp_u8, div_u8, eq_u8, ge_u8, gt_u8, isize_to_u8, le_u8, lemma_arith_u8,
    lemma_bits_u8, lemma_not_u8, lemma_recast_u8, lt_u8, madd_u8, max_u8, min_u8, mul_u8, ne_u8,
    neg_u8, not_u8, rem_u8, shl_u8, shr_u8, sub_u8, truth_u8, u8_to_i16, u8_to_i16_sat, u8_to_i32,
    u8_to_i32_sat, u8_to_i64, u8_to_i64_sat, u8_to_i8, u8_to_i8_sat, u8_to_u16, u8_to_u16_sat,
    u8_to_u32, u8_to_u32_sat, u8_to_u64, u8_to_u64_sat,
};
use crate::scalar::model::{
    lemma_wrap_u8_sum, sat_i16, sat_i32, sat_i64, sat_i8, sat_u16, sat_u32, sat_u64, wrap_u8,
};
use crate::traits::{Bitcast, Dot, Integer, Vector, bitcast, spec_bitcast};
use crate::vector::char2::char2;
use crate::vector::double2::double2;
use crate::vector::float2::float2;
use crate::vector::int2::int2;
use crate::vector::long2::long2;
use crate::vector::short2::short2;
use crate::vector::uint2::uint2;
use crate::vector::ulong2::ulong2;
use crate::vector::ushort2::ushort2;
use vstd::prelude::*;
use vstd::std_specs::convert::FromSpecImpl;
use vstd::std_specs::ops::{
    AddSpec, AddSpecImpl, BitAndSpecImpl, BitOrSpecImpl, BitXorSpecImpl, DivSpecImpl, MulSpecImpl,
    NegSpec, NegSpecImpl, NotSpec, NotSpecImpl, RemSpecImpl, ShlSpecImpl, ShrSpecImpl, SubSpec,
    SubSpecImpl,
};

verus! {

/// Two lanes of `u8`.
#[derive(Copy, Clone, Debug, PartialEq, Eq, Structural)]
pub struct uchar2(pub u8, pub u8);

impl core::ops::Add for uchar2 {
    type Output = uchar2;

    /// The lane-wise sum of the two vectors, wrapping around.
    fn add(self, rhs: uchar2) -> (r: uchar2) {
        uchar2(add_u8(self.0, rhs.0), add_u8(self.1, rhs.1))
    }
}

impl AddSpecImpl for uchar2 {
    open spec fn obeys_add_spec() -> bool {
        true
    }

    open spec fn add_req(self, rhs: uchar2) -> bool {
        true
    }

    open spec fn add_spec(self, rhs: uchar2) -> uchar2 {
        uchar2(add_u8(self.0, rhs.0), add_u8(self.1, rhs.1))
    }
}

impl core::ops::Add<u8> for uchar2 {
    type Output = uchar2;

    /// The sum of every lane and the scalar, wrapping around.
    fn add(self, rhs: u8) -> (r: uchar2) {
        uchar2(add_u8(self.0, rhs), add_u8(self.1, rhs))
    }
}

impl AddSpecImpl<u8> for uchar2 {
    open spec fn obeys_add_spec() -> bool {
        true
    }

    open spec fn add_req(self, rhs: u8) -> bool {
        true
    }

    open spec fn add_spec(self, rhs: u8) -> uchar2 {
        uchar2(add_u8(self.0, rhs), add_u8(self.1, rhs))
    }
}

impl core::ops::Add<uchar2> for u8 {
    type Output = uchar2;

    /// The sum of the scalar and every lane, wrapping around.
    fn add(self, rhs: uchar2) -> (r: uchar2) {
        uchar2(add_u8(self, rhs.0), add_u8(self, rhs.1))
    }
}

impl AddSpecImpl<uchar2> for u8 {
    open spec fn obeys_add_spec() -> bool {
        true
    }

    open spec fn add_req(self, rhs: uchar2) -> bool {
        true
    }

    open spec fn add_spec(self, rhs: uchar2) -> uchar2 {
        uchar2(add_u8(self, rhs.0), add_u8(self, rhs.1))
    }
}

impl core::ops::Sub for uchar2 {
    type Output = uchar2;

    /// The lane-wise difference of the two vectors, wrapping around.
    fn sub(self, rhs: uchar2) -> (r: uchar2) {
        uchar2(sub_u8(self.0, rhs.0), sub_u8(self.1, rhs.1))
    }
}

impl SubSpecImpl for uchar2 {
    open spec fn obeys_sub_spec() -> bool {
        true
    }

    open spec fn sub_req(self, rhs: uchar2) -> bool {
        true
    }

    open spec fn sub_spec(self, rhs: uchar2) -> uchar2 {
        uchar2(sub_u8(self.0, rhs.0), sub_u8(self.1, rhs.1))
    }
}

impl core::ops::Sub<u8> for uchar2 {
    type Output = uchar2;

    /// The difference of every lane and the scalar, wrapping around.
    fn sub(self, rhs: u8) -> (r: uchar2) {
        uchar2(sub_u8(self.0, rhs), sub_u8(self.1, rhs))
    }
}

impl SubSpecImpl<u8> for uchar2 {
    open spec fn obeys_sub_spec() -> bool {
        true
    }

    open spec fn sub_req(self, rhs: u8) -> bool {
        true
    }

    open spec fn sub_spec(self, rhs: u8) -> uchar2 {
        uchar2(sub_u8(self.0, rhs), sub_u8(self.1, rhs))
    }
}

impl core::ops::Sub<uchar2> for u8 {
    type Output = uchar2;

    /// The difference of the scalar and every lane, wrapping around.
    fn sub(self, rhs: uchar2) -> (r: uchar2) {
        uchar2(sub_u8(self, rhs.0), sub_u8(self, rhs.1))
    }
}

impl SubSpecImpl<uchar2> for u8 {
    open spec fn obeys_sub_spec() -> bool {
        true
    }

    open spec fn sub_req(self, rhs: uchar2) -> bool {
        true
    }

    open spec fn sub_spec(self, rhs: uchar2) -> uchar2 {
        uchar2(sub_u8(self, rhs.0), sub_u8(self, rhs.1))
    }
}

impl core::ops::Mul for uchar2 {
    type Output = uchar2;

    /// The lane-wise product of the two vectors, wrapping around.
    fn mul(self, rhs: uchar2) -> (r: uchar2) {
        uchar2(mul_u8(self.0, rhs.0), mul_u8(self.1, rhs.1))
    }
}

impl MulSpecImpl for uchar2 {
    open spec fn obeys_mul_spec() -> bool {
        true
    }

    open spec fn mul_req(self, rhs: uchar2) -> bool {
        true
    }

    open spec fn mul_spec(self, rhs: uchar2) -> uchar2 {
        uchar2(mul_u8(self.0, rhs.0), mul_u8(self.1, rhs.1))
    }
}

impl core::ops::Mul<u8> for uchar2 {
    type Output = uchar2;

    /// The product of every lane and the scalar, wrapping around.
    fn mul(self, rhs: u8) -> (r: uchar2) {
        uchar2(mul_u8(self.0, rhs), mul_u8(self.1, rhs))
    }
}

impl MulSpecImpl<u8> for uchar2 {
    open spec fn obeys_mul_spec() -> bool {
        true
    }

    open spec fn mul_req(self, rhs: u8) -> bool {
        true
    }

    open spec fn mul_spec(self, rhs: u8) -> uchar2 {
        uchar2(mul_u8(self.0, rhs), mul_u8(self.1, rhs))
    }
}

impl core::ops::Mul<uchar2> for u8 {
    type Output = uchar2;

    /// The product of the scalar and every lane, wrapping around.
    fn mul(self, rhs: uchar2) -> (r: uchar2) {
        uchar2(mul_u8(self, rhs.0), mul_u8(self, rhs.1))
    }
}

impl MulSpecImpl<uchar2> for u8 {
    open spec fn obeys_mul_spec() -> bool {
        true
    }

    open spec fn mul_req(self, rhs: uchar2) -> bool {
        true
    }

    open spec fn mul_spec(self, rhs: uchar2) -> uchar2 {
        uchar2(mul_u8(self, rhs.0), mul_u8(self, rhs.1))
    }
}

impl core::ops::Div for uchar2 {
    type Output = uchar2;

    /// The lane-wise quotient of the two vectors, rounded toward zero. No lane of the divisor is
    /// zero.
    fn div(self, rhs: uchar2) -> (r: uchar2) {
        uchar2(div_u8(self.0, rhs.0), div_u8(self.1, rhs.1))
    }
}

impl DivSpecImpl for uchar2 {
    open spec fn obeys_div_spec() -> bool {
        true
    }

    open spec fn div_req(self, rhs: uchar2) -> bool {
        rhs.0 != 0 && rhs.1 != 0
    }

    open spec fn div_spec(self, rhs: uchar2) -> uchar2 {
        uchar2(div_u8(self.0, rhs.0), div_u8(self.1, rhs.1))
    }
}

impl core::ops::Div<u8> for uchar2 {
    type Output = uchar2;

    /// The quotient of every lane by the scalar, rounded toward zero. The scalar is not zero.
    fn div(self, rhs: u8) -> (r: uchar2) {
        uchar2(div_u8(self.0, rhs), div_u8(self.1, rhs))
    }
}

impl DivSpecImpl<u8> for uchar2 {
    open spec fn obeys_div_spec() -> bool {
        true
    }

    open spec fn div_req(self, rhs: u8) -> bool {
        rhs != 0
    }

    open spec fn div_spec(self, rhs: u8) -> uchar2 {
        uchar2(div_u8(self.0, rhs), div_u8(self.1, rhs))
    }
}

impl core::ops::Div<uchar2> for u8 {
    type Output = uchar2;

    /// The quotient of the scalar by every lane, rounded toward zero. No lane is zero.
    fn div(self, rhs: uchar2) -> (r: uchar2) {
        uchar2(div_u8(self, rhs.0), div_u8(self, rhs.1))
    }
}

impl DivSpecImpl<uchar2> for u8 {
    open spec fn obeys_div_spec() -> bool {
        true
    }

    open spec fn div_req(self, rhs: uchar2) -> bool {
        rhs.0 != 0 && rhs.1 != 0
    }

    open spec fn div_spec(self, rhs: uchar2) -> uchar2 {
        uchar2(div_u8(self, rhs.0), div_u8(self, rhs.1))
    }
}

impl core::ops::BitAnd for uchar2 {
    type Output = uchar2;

    /// The lane-wise conjunction of the two vectors, bit by bit.
    fn bitand(self, rhs: uchar2) -> (r: uchar2) {
        uchar2(self.0 & rhs.0, self.1 & rhs.1)
    }
}

impl BitAndSpecImpl for uchar2 {
    open spec fn obeys_bitand_spec() -> bool {
        true
    }

    open spec fn bitand_req(self, rhs: uchar2) -> bool {
        true
    }

    open spec fn bitand_spec(self, rhs: uchar2) -> uchar2 {
        uchar2(self.0 & rhs.0, self.1 & rhs.1)
    }
}

impl core::ops::BitAnd<u8> for uchar2 {
    type Output = uchar2;

    /// The conjunction of every lane and the scalar, bit by bit.
    fn bitand(self, rhs: u8) -> (r: uchar2) {
        uchar2(self.0 & rhs, self.1 & rhs)
    }
}

impl BitAndSpecImpl<u8> for uchar2 {
    open spec fn obeys_bitand_spec() -> bool {
        true
    }

    open spec fn bitand_req(self, rhs: u8) -> bool {
        true
    }

    open spec fn bitand_spec(self, rhs: u8) -> uchar2 {
        uchar2(self.0 & rhs, self.1 & rhs)
    }
}

impl core::ops::BitAnd<uchar2> for u8 {
    type Output = uchar2;

    /// The conjunction of the scalar and every lane, bit by bit.
    fn bitand(self, rhs: uchar2) -> (r: uchar2) {
        uchar2(self & rhs.0, self & rhs.1)
    }
}

impl BitAndSpecImpl<uchar2> for u8 {
    open spec fn obeys_bitand_spec() -> bool {
        true
    }

    open spec fn bitand_req(self, rhs: uchar2) -> bool {
        true
    }

    open spec fn bitand_spec(self, rhs: uchar2) -> uchar2 {
        uchar2(self & rhs.0, self & rhs.1)
    }
}

impl core::ops::BitOr for uchar2 {
    type Output = uchar2;

    /// The lane-wise disjunction of the two vectors, bit by bit.
    fn bitor(self, rhs: uchar2) -> (r: uchar2) {
        uchar2(self.0 | rhs.0, self.1 | rhs.1)
    }
}

impl BitOrSpecImpl for uchar2 {
    open spec fn obeys_bitor_spec() -> bool {
        true
    }

    open spec fn bitor_req(self, rhs: uchar2) -> bool {
        true
    }

    open spec fn bitor_spec(self, rhs: uchar2) -> uchar2 {
        uchar2(self.0 | rhs.0, self.1 | rhs.1)
    }
}

impl core::ops::BitOr<u8> for uchar2 {
    type Output = uchar2;

    /// The disjunction of every lane and the scalar, bit by bit.
    fn bitor(self, rhs: u8) -> (r: uchar2) {
        uchar2(self.0 | rhs, self.1 | rhs)
    }
}

impl BitOrSpecImpl<u8> for uchar2 {
    open spec fn obeys_bitor_spec() -> bool {
        true
    }

    open spec fn bitor_req(self, rhs: u8) -> bool {
        true
    }

    open spec fn bitor_spec(self, rhs: u8) -> uchar2 {
        uchar2(self.0 | rhs, self.1 | rhs)
    }
}

impl core::ops::BitOr<uchar2> for u8 {
    type Output = uchar2;

    /// The disjunction of the scalar and every lane, bit by bit.
    fn bitor(self, rhs: uchar2) -> (r: uchar2) {
        uchar2(self | rhs.0, self | rhs.1)
    }
}

impl BitOrSpecImpl<uchar2> for u8 {
    open spec fn obeys_bitor_spec() -> bool {
        true
    }

    open spec fn bitor_req(self, rhs: uchar2) -> bool {
        true
    }

    open spec fn bitor_spec(self, rhs: uchar2) -> uchar2 {
        uchar2(self | rhs.0, self | rhs.1)
    }
}

impl core::ops::BitXor for uchar2 {
    type Output = uchar2;

    /// The lane-wise exclusive disjunction of the two vectors, bit by bit.
    fn bitxor(self, rhs: uchar2) -> (r: uchar2) {
        uchar2(self.0 ^ rhs.0, self.1 ^ rhs.1)
    }
}

impl BitXorSpecImpl for uchar2 {
    open spec fn obeys_bitxor_spec() -> bool {
        true
    }

    open spec fn bitxor_req(self, rhs: uchar2) -> bool {
        true
    }

    open spec fn bitxor_spec(self, rhs: uchar2) -> uchar2 {
        uchar2(self.0 ^ rhs.0, self.1 ^ rhs.1)
    }
}

impl core::ops::BitXor<u8> for uchar2 {
    type Output = uchar2;

    /// The exclusive disjunction of every lane and the scalar, bit by bit.
    fn bitxor(self, rhs: u8) -> (r: uchar2) {
        uchar2(self.0 ^ rhs, self.1 ^ rhs)
    }
}

impl BitXorSpecImpl<u8> for uchar2 {
    open spec fn obeys_bitxor_spec() -> bool {
        true
    }

    open spec fn bitxor_req(self, rhs: u8) -> bool {
        true
    }

    open spec fn bitxor_spec(self, rhs: u8) -> uchar2 {
        uchar2(self.0 ^ rhs, self.1 ^ rhs)
    }
}

impl core::ops::BitXor<uchar2> for u8 {
    type Output = uchar2;

    /// The exclusive disjunction of the scalar and every lane, bit by bit.
    fn bitxor(self, rhs: uchar2) -> (r: uchar2) {
        uchar2(self ^ rhs.0, self ^ rhs.1)
    }
}

impl BitXorSpecImpl<uchar2> for u8 {
    open spec fn obeys_bitxor_spec() -> bool {
        true
    }

    open spec fn bitxor_req(self, rhs: uchar2) -> bool {
        true
    }

    open spec fn bitxor_spec(self, rhs: uchar2) -> uchar2 {
        uchar2(self ^ rhs.0, self ^ rhs.1)
    }
}

impl core::ops::Shl for uchar2 {
    type Output = uchar2;

    /// Every lane shifted left by the lane of `rhs`, which is below 8.
    fn shl(self, rhs: uchar2) -> (r: uchar2) {
        uchar2(shl_u8(self.0, rhs.0), shl_u8(self.1, rhs.1))
    }
}

impl ShlSpecImpl for uchar2 {
    open spec fn obeys_shl_spec() -> bool {
        true
    }

    open spec fn shl_req(self, rhs: uchar2) -> bool {
        0 <= rhs.0 < 8 && 0 <= rhs.1 < 8
    }

    open spec fn shl_spec(self, rhs: uchar2) -> uchar2 {
        uchar2(shl_u8(self.0, rhs.0), shl_u8(self.1, rhs.1))
    }
}

impl core::ops::Shl<u8> for uchar2 {
    type Output = uchar2;

    /// Every lane shifted left by `rhs`, which is below 8.
    fn shl(self, rhs: u8) -> (r: uchar2) {
        uchar2(shl_u8(self.0, rhs), shl_u8(self.1, rhs))
    }
}

impl ShlSpecImpl<u8> for uchar2 {
    open spec fn obeys_shl_spec() -> bool {
        true
    }

    open spec fn shl_req(self, rhs: u8) -> bool {
        0 <= rhs < 8
    }

    open spec fn shl_spec(self, rhs: u8) -> uchar2 {
        uchar2(shl_u8(self.0, rhs), shl_u8(self.1, rhs))
    }
}

impl core::ops::Shl<uchar2> for u8 {
    type Output = uchar2;

    /// The scalar shifted left by every lane of `rhs`, each of which is below 8.
    fn shl(self, rhs: uchar2) -> (r: uchar2) {
        uchar2(shl_u8(self, rhs.0), shl_u8(self, rhs.1))
    }
}

impl ShlSpecImpl<uchar2> for u8 {
    open spec fn obeys_shl_spec() -> bool {
        true
    }

    open spec fn shl_req(self, rhs: uchar2) -> bool {
        0 <= rhs.0 < 8 && 0 <= rhs.1 < 8
    }

    open spec fn shl_spec(self, rhs: uchar2) -> uchar2 {
        uchar2(shl_u8(self, rhs.0), shl_u8(self, rhs.1))
    }
}

impl core::ops::Shr for uchar2 {
    type Output = uchar2;

    /// Every lane shifted right by the lane of `rhs`, which is below 8.
    fn shr(self, rhs: uchar2) -> (r: uchar2) {
        uchar2(shr_u8(self.0, rhs.0), shr_u8(self.1, rhs.1))
    }
}

impl ShrSpecImpl for uchar2 {
    open spec fn obeys_shr_spec() -> bool {
        true
    }

    open spec fn shr_req(self, rhs: uchar2) -> bool {
        0 <= rhs.0 < 8 && 0 <= rhs.1 < 8
    }

    open spec fn shr_spec(self, rhs: uchar2) -> uchar2 {
        uchar2(shr_u8(self.0, rhs.0), shr_u8(self.1, rhs.1))
    }
}

impl core::ops::Shr<u8> for uchar2 {
    type Output = uchar2;

    /// Every lane shifted right by `rhs`, which is below 8.
    fn shr(self, rhs: u8) -> (r: uchar2) {
        uchar2(shr_u8(self.0, rhs), shr_u8(self.1, rhs))
    }
}

impl ShrSpecImpl<u8> for uchar2 {
    open spec fn obeys_shr_spec() -> bool {
        true
    }

    open spec fn shr_req(self, rhs: u8) -> bool {
        0 <= rhs < 8
    }

    open spec fn shr_spec(self, rhs: u8) -> uchar2 {
        uchar2(shr_u8(self.0, rhs), shr_u8(self.1, rhs))
    }
}

impl core::ops::Shr<uchar2> for u8 {
    type Output = uchar2;

    /// The scalar shifted right by every lane of `rhs`, each of which is below 8.
    fn shr(self, rhs: uchar2) -> (r: uchar2) {
        uchar2(shr_u8(self, rhs.0), shr_u8(self, rhs.1))
    }
}

impl ShrSpecImpl<uchar2> for u8 {
    open spec fn obeys_shr_spec() -> bool {
        true
    }

    open spec fn shr_req(self, rhs: uchar2) -> bool {
        0 <= rhs.0 < 8 && 0 <= rhs.1 < 8
    }

    open spec fn shr_spec(self, rhs: uchar2) -> uchar2 {
        uchar2(shr_u8(self, rhs.0), shr_u8(self, rhs.1))
    }
}

impl core::ops::Rem for uchar2 {
    type Output = uchar2;

    /// The lane-wise remainder `self - (self / rhs) * rhs`. No lane of the divisor is zero.
    fn rem(self, rhs: uchar2) -> (r: uchar2) {
        uchar2(rem_u8(self.0, rhs.0), rem_u8(self.1, rhs.1))
    }
}

impl RemSpecImpl for uchar2 {
    open spec fn obeys_rem_spec() -> bool {
        true
    }

    open spec fn rem_req(self, rhs: uchar2) -> bool {
        rhs.0 != 0 && rhs.1 != 0
    }

    open spec fn rem_spec(self, rhs: uchar2) -> uchar2 {
        uchar2(rem_u8(self.0, rhs.0), rem_u8(self.1, rhs.1))
    }
}

impl core::ops::Neg for uchar2 {
    type Output = uchar2;

    /// Zero minus every lane, wrapping around.
    fn neg(self) -> (r: uchar2) {
        uchar2(neg_u8(self.0), neg_u8(self.1))
    }
}

impl NegSpecImpl for uchar2 {
    open spec fn obeys_neg_spec() -> bool {
        true
    }

    open spec fn neg_req(self) -> bool {
        true
    }

    open spec fn neg_spec(self) -> uchar2 {
        uchar2(neg_u8(self.0), neg_u8(self.1))
    }
}

impl core::ops::Not for uchar2 {
    type Output = uchar2;

    /// Every lane with every bit flipped.
    fn not(self) -> (r: uchar2) {
        uchar2(not_u8(self.0), not_u8(self.1))
    }
}

impl NotSpecImpl for uchar2 {
    open spec fn obeys_not_spec() -> bool {
        true
    }

    open spec fn not_req(self) -> bool {
        true
    }

    open spec fn not_spec(self) -> uchar2 {
        uchar2(not_u8(self.0), not_u8(self.1))
    }
}

impl core::convert::From<isize> for uchar2 {
    /// The vector with `x`, wrapped to `u8`, in every lane.
    fn from(x: isize) -> (r: uchar2) {
        let v = isize_to_u8(x);
        uchar2(v, v)
    }
}

impl FromSpecImpl<isize> for uchar2 {
    open spec fn obeys_from_spec() -> bool {
        true
    }

    open spec fn from_spec(x: isize) -> uchar2 {
        uchar2(isize_to_u8(x), isize_to_u8(x))
    }
}

impl core::ops::Index<u32> for uchar2 {
    type Output = u8;

    /// Lane `i`, which is below 2.
    fn index(&self, i: u32) -> (r: &u8)
        ensures
            *r == self.lane(i as int),
    {
        match i {
            0 => &self.0,
            _ => &self.1,
        }
    }
}

impl vstd::std_specs::core::IndexSpecImpl<u32> for uchar2 {
    open spec fn index_req(&self, i: &u32) -> bool {
        *i < 2
    }
}

impl uchar2 {
    /// Lane `i`, counted from zero.
    pub open spec fn lane(self, i: int) -> u8
        recommends
            0 <= i < 2,
    {
        if i == 0 {
            self.0
        } else {
            self.1
        }
    }

    /// The vector of type `uchar2` with the bits of `x`, a value of a type that has as many bits,
    /// which is one with images of type `uchar2`.
    pub fn bitcast<U: Bitcast<Image = uchar2>>(x: U) -> (r: uchar2)
        ensures
            r == spec_bitcast::<U, uchar2>(x),
    {
        bitcast(x)
    }

    /// The vector with `x` in every lane.
    pub fn broadcast(x: u8) -> (r: uchar2)
        ensures
            r == uchar2(x, x),
    {
        uchar2(x, x)
    }

    /// Lane `i`, which is below 2.
    pub fn extract(self, i: u32) -> (r: u8)
        requires
            i < 2,
        ensures
            r == self.lane(i as int),
    {
        match i {
            0 => self.0,
            _ => self.1,
        }
    }

    /// The vector with `x` in lane `i`, which is below 2, and the other lanes unchanged.
    pub fn replace(self, i: u32, x: u8) -> (r: uchar2)
        requires
            i < 2,
        ensures
            forall|j: int| 0 <= j < 2 ==> #[trigger] r.lane(j) == (if j == i {
                x
            } else {
                self.lane(j)
            }),
    {
        match i {
            0 => uchar2(x, self.1),
            _ => uchar2(self.0, x),
        }
    }

    /// The mask that is all ones where the lanes of `x` and `y` are equal, and zero elsewhere.
    pub fn eq(x: uchar2, y: uchar2) -> (r: char2)
        ensures
            r == char2(eq_u8(x.0, y.0), eq_u8(x.1, y.1)),
    {
        char2(eq_u8(x.0, y.0), eq_u8(x.1, y.1))
    }

    /// The mask that is all ones where the lanes of `x` and `y` differ, and zero elsewhere.
    pub fn ne(x: uchar2, y: uchar2) -> (r: char2)
        ensures
            r == char2(ne_u8(x.0, y.0), ne_u8(x.1, y.1)),
    {
        char2(ne_u8(x.0, y.0), ne_u8(x.1, y.1))
    }

    /// The mask that is all ones where the lane of `x` is less than that of `y`, and zero
    /// elsewhere.
    pub fn lt(x: uchar2, y: uchar2) -> (r: char2)
        ensures
            r == char2(lt_u8(x.0, y.0), lt_u8(x.1, y.1)),
    {
        char2(lt_u8(x.0, y.0), lt_u8(x.1, y.1))
    }

    /// The mask that is all ones where the lane of `x` is at most that of `y`, and zero elsewhere.
    pub fn le(x: uchar2, y: uchar2) -> (r: char2)
        ensures
            r == char2(le_u8(x.0, y.0), le_u8(x.1, y.1)),
    {
        char2(le_u8(x.0, y.0), le_u8(x.1, y.1))
    }

    /// The mask that is all ones where the lane of `x` is greater than that of `y`, and zero
    /// elsewhere.
    pub fn gt(x: uchar2, y: uchar2) -> (r: char2)
        ensures
            r == char2(gt_u8(x.0, y.0), gt_u8(x.1, y.1)),
    {
        char2(gt_u8(x.0, y.0), gt_u8(x.1, y.1))
    }

    /// The mask that is all ones where the lane of `x` is at least that of `y`, and zero elsewhere.
    pub fn ge(x: uchar2, y: uchar2) -> (r: char2)
        ensures
            r == char2(ge_u8(x.0, y.0), ge_u8(x.1, y.1)),
    {
        char2(ge_u8(x.0, y.0), ge_u8(x.1, y.1))
    }

    /// `x * y + z` lane by lane, wrapping around.
    pub fn madd(x: uchar2, y: uchar2, z: uchar2) -> (r: uchar2)
        ensures
            r == uchar2(madd_u8(x.0, y.0, z.0), madd_u8(x.1, y.1, z.1)),
    {
        uchar2(madd_u8(x.0, y.0, z.0), madd_u8(x.1, y.1, z.1))
    }

    /// The magnitude of every lane, which is the lane.
    pub fn abs(x: uchar2) -> (r: uchar2)
        ensures
            r == x.spec_abs(),
    {
        uchar2(abs_u8(x.0), abs_u8(x.1))
    }

    /// The greater lane of `x` and `y`, lane by lane.
    pub fn max(x: uchar2, y: uchar2) -> (r: uchar2)
        ensures
            r == x.spec_max(y),
    {
        uchar2(max_u8(x.0, y.0), max_u8(x.1, y.1))
    }

    /// The smaller lane of `x` and `y`, lane by lane.
    pub fn min(x: uchar2, y: uchar2) -> (r: uchar2)
        ensures
            r == x.spec_min(y),
    {
        uchar2(min_u8(x.0, y.0), min_u8(x.1, y.1))
    }

    /// Every lane of `x` raised to at least the lane of `lo`, then lowered to at most that of `hi`.
    pub fn clamp(x: uchar2, lo: uchar2, hi: uchar2) -> (r: uchar2)
        ensures
            r == x.spec_clamp(lo, hi),
    {
        uchar2(clamp_u8(x.0, lo.0, hi.0), clamp_u8(x.1, lo.1, hi.1))
    }

    /// The sum of the lanes, wrapping around.
    pub fn reduce_add(x: uchar2) -> (r: u8)
        ensures
            r == x.spec_reduce_add(),
    {
        add_u8(x.0, x.1)
    }

    /// The smallest lane.
    pub fn reduce_min(x: uchar2) -> (r: u8)
        ensures
            r == x.spec_reduce_min(),
            r <= x.0 && r <= x.1,
            r == x.0 || r == x.1,
    {
        min_u8(x.0, x.1)
    }

    /// The greatest lane.
    pub fn reduce_max(x: uchar2) -> (r: u8)
        ensures
            r == x.spec_reduce_max(),
            r >= x.0 && r >= x.1,
            r == x.0 || r == x.1,
    {
        max_u8(x.0, x.1)
    }

    /// Every lane as `i8`: the same bits, read as `i8`.
    pub fn to_char(x: uchar2) -> (r: char2)
        ensures
            r == char2(u8_to_i8(x.0), u8_to_i8(x.1)),
    {
        char2(u8_to_i8(x.0), u8_to_i8(x.1))
    }

    /// Every lane as `i8`, saturating: a lane outside the range of `i8` gives the nearest bound.
    pub fn to_char_sat(x: uchar2) -> (r: char2)
        ensures
            r == x.spec_to_char_sat(),
    {
        char2(u8_to_i8_sat(x.0), u8_to_i8_sat(x.1))
    }

    /// The vector itself: its lanes are `u8` already.
    pub fn to_uchar(x: uchar2) -> (r: uchar2)
        ensures
            r == x,
    {
        x
    }

    /// The vector itself: its lanes are `u8` already, and nothing saturates.
    pub fn to_uchar_sat(x: uchar2) -> (r: uchar2)
        ensures
            r == x.spec_to_uchar_sat(),
    {
        x
    }

    /// Every lane as `i16`, which holds every `u8`.
    pub fn to_short(x: uchar2) -> (r: short2)
        ensures
            r == short2(u8_to_i16(x.0), u8_to_i16(x.1)),
    {
        short2(u8_to_i16(x.0), u8_to_i16(x.1))
    }

    /// Every lane as `i16`, saturating; nothing saturates, since `i16` holds every `u8`.
    pub fn to_short_sat(x: uchar2) -> (r: short2)
        ensures
            r == x.spec_to_short_sat(),
    {
        short2(u8_to_i16_sat(x.0), u8_to_i16_sat(x.1))
    }

    /// Every lane as `u16`, which holds every `u8`.
    pub fn to_ushort(x: uchar2) -> (r: ushort2)
        ensures
            r == ushort2(u8_to_u16(x.0), u8_to_u16(x.1)),
    {
        ushort2(u8_to_u16(x.0), u8_to_u16(x.1))
    }

    /// Every lane as `u16`, saturating; nothing saturates, since `u16` holds every `u8`.
    pub fn to_ushort_sat(x: uchar2) -> (r: ushort2)
        ensures
            r == x.spec_to_ushort_sat(),
    {
        ushort2(u8_to_u16_sat(x.0), u8_to_u16_sat(x.1))
    }

    /// Every lane as `i32`, which holds every `u8`.
    pub fn to_int(x: uchar2) -> (r: int2)
        ensures
            r == int2(u8_to_i32(x.0), u8_to_i32(x.1)),
    {
        int2(u8_to_i32(x.0), u8_to_i32(x.1))
    }

    /// Every lane as `i32`, saturating; nothing saturates, since `i32` holds every `u8`.
    pub fn to_int_sat(x: uchar2) -> (r: int2)
        ensures
            r == x.spec_to_int_sat(),
    {
        int2(u8_to_i32_sat(x.0), u8_to_i32_sat(x.1))
    }

    /// Every lane as `u32`, which holds every `u8`.
    pub fn to_uint(x: uchar2) -> (r: uint2)
        ensures
            r == uint2(u8_to_u32(x.0), u8_to_u32(x.1)),
    {
        uint2(u8_to_u32(x.0), u8_to_u32(x.1))
    }

    /// Every lane as `u32`, saturating; nothing saturates, since `u32` holds every `u8`.
    pub fn to_uint_sat(x: uchar2) -> (r: uint2)
        ensures
            r == x.spec_to_uint_sat(),
    {
        uint2(u8_to_u32_sat(x.0), u8_to_u32_sat(x.1))
    }

    /// Every lane as `i64`, which holds every `u8`.
    pub fn to_long(x: uchar2) -> (r: long2)
        ensures
            r == long2(u8_to_i64(x.0), u8_to_i64(x.1)),
    {
        long2(u8_to_i64(x.0), u8_to_i64(x.1))
    }

    /// Every lane as `i64`, saturating; nothing saturates, since `i64` holds every `u8`.
    pub fn to_long_sat(x: uchar2) -> (r: long2)
        ensures
            r == x.spec_to_long_sat(),
    {
        long2(u8_to_i64_sat(x.0), u8_to_i64_sat(x.1))
    }

    /// Every lane as `u64`, which holds every `u8`.
    pub fn to_ulong(x: uchar2) -> (r: ulong2)
        ensures
            r == ulong2(u8_to_u64(x.0), u8_to_u64(x.1)),
    {
        ulong2(u8_to_u64(x.0), u8_to_u64(x.1))
    }

    /// Every lane as `u64`, saturating; nothing saturates, since `u64` holds every `u8`.
    pub fn to_ulong_sat(x: uchar2) -> (r: ulong2)
        ensures
            r == x.spec_to_ulong_sat(),
    {
        ulong2(u8_to_u64_sat(x.0), u8_to_u64_sat(x.1))
    }

    /// The low half: lane 0.
    pub fn lo(self) -> (r: u8)
        ensures
            r == self.0,
    {
        self.0
    }

    /// The high half: lane 1.
    pub fn hi(self) -> (r: u8)
        ensures
            r == self.1,
    {
        self.1
    }

    /// The odd lane: lane 1.
    pub fn odd(self) -> (r: u8)
        ensures
            r == self.1,
    {
        self.1
    }

    /// The even lane: lane 0.
    pub fn even(self) -> (r: u8)
        ensures
            r == self.0,
    {
        self.0
    }

    /// The vector of `f` applied to every lane. `f` accepts every lane.
    pub fn map_unary<F: Fn(u8) -> u8>(self, f: F) -> (r: uchar2)
        requires
            call_requires(f, (self.0,)),
            call_requires(f, (self.1,)),
        ensures
            call_ensures(f, (self.0,), r.0),
            call_ensures(f, (self.1,), r.1),
    {
        uchar2(f(self.0), f(self.1))
    }

    /// The vector of `f` applied to the lanes of the two vectors, lane by lane. `f` accepts every
    /// such pair of lanes.
    pub fn map_binary<F: Fn(u8, u8) -> u8>(self, other: uchar2, f: F) -> (r: uchar2)
        requires
            call_requires(f, (self.0, other.0)),
            call_requires(f, (self.1, other.1)),
        ensures
            call_ensures(f, (self.0, other.0), r.0),
            call_ensures(f, (self.1, other.1), r.1),
    {
        uchar2(f(self.0, other.0), f(self.1, other.1))
    }

    /// The lanes folded by `f`, from lane 0 upward: `f` is applied to lane 1 and lane 0, then to
    /// each further lane and what the lanes below it gave. `f` accepts every pair of scalars.
    pub fn reduce<F: Fn(u8, u8) -> u8>(self, f: F) -> (r: u8)
        requires
            forall|a: u8, b: u8| call_requires(f, (a, b)),
        ensures
            call_ensures(f, (self.1, self.0), r),
    {
        f(self.1, self.0)
    }

    /// Addition commutes.
    pub proof fn lemma_add_commutes(x: uchar2, y: uchar2)
        ensures
            AddSpec::add_spec(x, y) == AddSpec::add_spec(y, x),
    {
        lemma_arith_u8(x.0, y.0, 0);
        lemma_arith_u8(x.1, y.1, 0);
    }

    /// Addition associates, wrap-around or not.
    pub proof fn lemma_add_associates(x: uchar2, y: uchar2, z: uchar2)
        ensures
            AddSpec::add_spec(AddSpec::add_spec(x, y), z)
                == AddSpec::add_spec(x, AddSpec::add_spec(y, z)),
    {
        lemma_arith_u8(x.0, y.0, z.0);
        lemma_arith_u8(x.1, y.1, z.1);
    }

    /// Swapping the operands of a subtraction negates the difference.
    pub proof fn lemma_sub_swaps(x: uchar2, y: uchar2)
        ensures
            SubSpec::sub_spec(x, y) == NegSpec::neg_spec(SubSpec::sub_spec(y, x)),
    {
        lemma_arith_u8(x.0, y.0, 0);
        lemma_arith_u8(x.1, y.1, 0);
    }

    /// The magnitude of an unsigned vector is the vector.
    pub proof fn lemma_abs(x: uchar2)
        ensures
            x.spec_abs() == x,
            x.spec_abs().spec_abs() == x.spec_abs(),
    {
    }

    /// Flipping every bit of a lane gives the greatest `u8` minus the lane.
    pub proof fn lemma_not(x: uchar2)
        ensures
            forall|i: int|
                0 <= i < 2 ==> #[trigger] NotSpec::not_spec(x).lane(i) == u8::MAX - x.lane(i),
    {
        lemma_not_u8(x.0);
        lemma_not_u8(x.1);
    }

    /// The lanes of a vector with `k` in every lane add up to 2 times `k`, wrapped around.
    pub proof fn lemma_reduce_add_broadcast(k: u8)
        ensures
            uchar2(k, k).spec_reduce_add() == wrap_u8(2 * k),
    {
    }

    /// Saturating conversion to `i8` gives, lane by lane, the lane itself where `i8` holds it and
    /// the nearest bound of `i8` where it does not.
    pub proof fn lemma_to_char_sat(x: uchar2)
        ensures
            forall|i: int|
                0 <= i < 2 ==> #[trigger] x.spec_to_char_sat().lane(i) == sat_i8(x.lane(i) as int),
    {
    }

    /// Saturating conversion to `i16` gives every lane unchanged: `i16` holds every `u8`.
    pub proof fn lemma_to_short_sat(x: uchar2)
        ensures
            forall|i: int|
                0 <= i < 2 ==>
                    #[trigger] x.spec_to_short_sat().lane(i) == sat_i16(x.lane(i) as int),
            forall|i: int| 0 <= i < 2 ==> #[trigger] x.spec_to_short_sat().lane(i) == x.lane(i),
    {
    }

    /// Saturating conversion to `u16` gives every lane unchanged: `u16` holds every `u8`.
    pub proof fn lemma_to_ushort_sat(x: uchar2)
        ensures
            forall|i: int|
                0 <= i < 2 ==>
                    #[trigger] x.spec_to_ushort_sat().lane(i) == sat_u16(x.lane(i) as int),
            forall|i: int| 0 <= i < 2 ==> #[trigger] x.spec_to_ushort_sat().lane(i) == x.lane(i),
    {
    }

    /// Saturating conversion to `i32` gives every lane unchanged: `i32` holds every `u8`.
    pub proof fn lemma_to_int_sat(x: uchar2)
        ensures
            forall|i: int|
                0 <= i < 2 ==> #[trigger] x.spec_to_int_sat().lane(i) == sat_i32(x.lane(i) as int),
            forall|i: int| 0 <= i < 2 ==> #[trigger] x.spec_to_int_sat().lane(i) == x.lane(i),
    {
    }

    /// Saturating conversion to `u32` gives every lane unchanged: `u32` holds every `u8`.
    pub proof fn lemma_to_uint_sat(x: uchar2)
        ensures
            forall|i: int|
                0 <= i < 2 ==> #[trigger] x.spec_to_uint_sat().lane(i) == sat_u32(x.lane(i) as int),
            forall|i: int| 0 <= i < 2 ==> #[trigger] x.spec_to_uint_sat().lane(i) == x.lane(i),
    {
    }

    /// Saturating conversion to `i64` gives every lane unchanged: `i64` holds every `u8`.
    pub proof fn lemma_to_long_sat(x: uchar2)
        ensures
            forall|i: int|
                0 <= i < 2 ==> #[trigger] x.spec_to_long_sat().lane(i) == sat_i64(x.lane(i) as int),
            forall|i: int| 0 <= i < 2 ==> #[trigger] x.spec_to_long_sat().lane(i) == x.lane(i),
    {
    }

    /// Saturating conversion to `u64` gives every lane unchanged: `u64` holds every `u8`.
    pub proof fn lemma_to_ulong_sat(x: uchar2)
        ensures
            forall|i: int|
                0 <= i < 2 ==>
                    #[trigger] x.spec_to_ulong_sat().lane(i) == sat_u64(x.lane(i) as int),
            forall|i: int| 0 <= i < 2 ==> #[trigger] x.spec_to_ulong_sat().lane(i) == x.lane(i),
    {
    }
}

impl Vector for uchar2 {
    type Scalar = u8;

    type Boolean = char2;

    type CharVector = char2;

    type ShortVector = short2;

    type IntVector = int2;

    type LongVector = long2;

    type UCharVector = uchar2;

    type UShortVector = ushort2;

    type UIntVector = uint2;

    type ULongVector = ulong2;

    type FloatVector = float2;

    type DoubleVector = double2;

    open spec fn spec_abs(self) -> uchar2 {
        uchar2(abs_u8(self.0), abs_u8(self.1))
    }

    open spec fn spec_max(self, other: uchar2) -> uchar2 {
        uchar2(max_u8(self.0, other.0), max_u8(self.1, other.1))
    }

    open spec fn spec_min(self, other: uchar2) -> uchar2 {
        uchar2(min_u8(self.0, other.0), min_u8(self.1, other.1))
    }

    open spec fn spec_clamp(self, lo: uchar2, hi: uchar2) -> uchar2 {
        uchar2(clamp_u8(self.0, lo.0, hi.0), clamp_u8(self.1, lo.1, hi.1))
    }

    open spec fn spec_reduce_add(self) -> u8 {
        wrap_u8(self.0 + self.1)
    }

    open spec fn spec_reduce_min(self) -> u8 {
        min_u8(self.0, self.1)
    }

    open spec fn spec_reduce_max(self) -> u8 {
        max_u8(self.0, self.1)
    }

    open spec fn spec_to_char_sat(self) -> char2 {
        char2(u8_to_i8_sat(self.0), u8_to_i8_sat(self.1))
    }

    open spec fn spec_to_uchar_sat(self) -> uchar2 {
        self
    }

    open spec fn spec_to_short_sat(self) -> short2 {
        short2(u8_to_i16_sat(self.0), u8_to_i16_sat(self.1))
    }

    open spec fn spec_to_ushort_sat(self) -> ushort2 {
        ushort2(u8_to_u16_sat(self.0), u8_to_u16_sat(self.1))
    }

    open spec fn spec_to_int_sat(self) -> int2 {
        int2(u8_to_i32_sat(self.0), u8_to_i32_sat(self.1))
    }

    open spec fn spec_to_uint_sat(self) -> uint2 {
        uint2(u8_to_u32_sat(self.0), u8_to_u32_sat(self.1))
    }

    open spec fn spec_to_long_sat(self) -> long2 {
        long2(u8_to_i64_sat(self.0), u8_to_i64_sat(self.1))
    }

    open spec fn spec_to_ulong_sat(self) -> ulong2 {
        ulong2(u8_to_u64_sat(self.0), u8_to_u64_sat(self.1))
    }

    fn abs(self) -> (r: uchar2) {
        uchar2::abs(self)
    }

    fn max(self, other: uchar2) -> (r: uchar2) {
        uchar2::max(self, other)
    }

    fn min(self, other: uchar2) -> (r: uchar2) {
        uchar2::min(self, other)
    }

    fn clamp(self, lo: uchar2, hi: uchar2) -> (r: uchar2) {
        uchar2::clamp(self, lo, hi)
    }

    fn reduce_add(self) -> (r: u8) {
        uchar2::reduce_add(self)
    }

    fn reduce_min(self) -> (r: u8) {
        uchar2::reduce_min(self)
    }

    fn reduce_max(self) -> (r: u8) {
        uchar2::reduce_max(self)
    }

    fn to_char_sat(self) -> (r: char2) {
        uchar2::to_char_sat(self)
    }

    fn to_uchar_sat(self) -> (r: uchar2) {
        uchar2::to_uchar_sat(self)
    }

    fn to_short_sat(self) -> (r: short2) {
        uchar2::to_short_sat(self)
    }

    fn to_ushort_sat(self) -> (r: ushort2) {
        uchar2::to_ushort_sat(self)
    }

    fn to_int_sat(self) -> (r: int2) {
        uchar2::to_int_sat(self)
    }

    fn to_uint_sat(self) -> (r: uint2) {
        uchar2::to_uint_sat(self)
    }

    fn to_long_sat(self) -> (r: long2) {
        uchar2::to_long_sat(self)
    }

    fn to_ulong_sat(self) -> (r: ulong2) {
        uchar2::to_ulong_sat(self)
    }
}

impl Integer for uchar2 {
    open spec fn spec_reduce_and(self) -> u8 {
        self.0 & self.1
    }

    open spec fn spec_reduce_or(self) -> u8 {
        self.0 | self.1
    }

    open spec fn spec_reduce_xor(self) -> u8 {
        self.0 ^ self.1
    }

    open spec fn spec_all(self) -> bool {
        truth_u8(self.0) && truth_u8(self.1)
    }

    open spec fn spec_any(self) -> bool {
        truth_u8(self.0) || truth_u8(self.1)
    }

    fn reduce_and(self) -> (r: u8) {
        self.0 & self.1
    }

    fn reduce_or(self) -> (r: u8) {
        self.0 | self.1
    }

    fn reduce_xor(self) -> (r: u8) {
        self.0 ^ self.1
    }

    fn all(self) -> (r: bool) {
        proof {
            lemma_bits_u8(self.0, self.1, 0, 0, 0);
        }
        truth_u8(self.reduce_and())
    }

    fn any(self) -> (r: bool) {
        proof {
            lemma_bits_u8(self.0, self.1, 0, 0, 0);
        }
        truth_u8(self.reduce_or())
    }
}

impl Dot for uchar2 {
    type DotProduct = u8;

    open spec fn spec_dot(self, other: uchar2) -> u8 {
        wrap_u8(self.0 * other.0 + self.1 * other.1)
    }

    fn dot(self, other: uchar2) -> (r: u8) {
        let s = mul_u8(self.0, other.0);
        let ghost mut t: int = self.0 * other.0;
        proof {
            lemma_wrap_u8_sum(t, self.1 * other.1);
            t = t + self.1 * other.1;
        }
        let s = madd_u8(self.1, other.1, s);
        s
    }
}

impl Bitcast for uchar2 {
    type Image = uchar2;

    open spec fn spec_image(self) -> uchar2 {
        self
    }

    open spec fn spec_from_image(image: uchar2) -> uchar2 {
        image
    }

    open spec fn spec_fills() -> bool {
        true
    }

    fn image(self) -> (r: uchar2) {
        self
    }

    fn from_image(image: uchar2) -> (r: uchar2) {
        image
    }

    proof fn lemma_image(x: uchar2) {
    }

    proof fn lemma_from_image(image: uchar2) {
    }
}

impl uchar2 {
    /// Read as `char2`, which has lanes of the same width, a vector keeps the bits of every lane;
    /// read as `uchar2` again, it is what it was.
    pub proof fn lemma_bitcast_char2(x: uchar2)
        ensures
            spec_bitcast::<uchar2, char2>(x) == char2(u8_to_i8(x.0), u8_to_i8(x.1)),
            spec_bitcast::<char2, uchar2>(spec_bitcast::<uchar2, char2>(x)) == x,
    {
        lemma_recast_u8(x.0);
        lemma_recast_u8(x.1);
    }
}

} // verus!
