//! `ulong2`: two lanes of `u64`.

use crate::scalar::lane_u64::{
    abs_u64, add_u64, clamp_u64, div_u64, eq_u64, ge_u64, gt_u64, isize_to_u64, le_u64,
    lemma_arith_u64, lemma_bits_u64, lemma_not_u64, lemma_recast_u64, lt_u64, madd_u64, max_u64,
    min_u64, mul_u64, ne_u64, neg_u64, not_u64, rem_u64, shl_u64, shr_u64, sub_u64, truth_u64,
    u64_to_i16, u64_to_i16_sat, u64_to_i32, u64_to_i32_sat, u64_to_i64, u64_to_i64_sat, u64_to_i8,
    u64_to_i8_sat, u64_to_u16, u64_to_u16_sat, u64_to_u32, u64_to_u32_sat, u64_to_u8, u64_to_u8_sat,
};
use crate::scalar::model::{
    lemma_wrap_u64_sum, sat_i16, sat_i32, sat_i64, sat_i8, sat_u16, sat_u32, sat_u8, wrap_u64,
};
use crate::scalar::regroup::{join_u8_u64, lemma_regroup_u8_u64, split_u64_u8};
use crate::traits::{Bitcast, Dot, Integer, Vector, bitcast, spec_bitcast};
use crate::vector::char2::char2;
use crate::vector::double2::double2;
use crate::vector::float2::float2;
use crate::vector::int2::int2;
use crate::vector::long2::long2;
use crate::vector::short2::short2;
use crate::vector::uchar16::uchar16;
use crate::vector::uchar2::uchar2;
use crate::vector::uint2::uint2;
use crate::vector::ushort2::ushort2;
use vstd::prelude::*;
use vstd::std_specs::convert::FromSpecImpl;
use vstd::std_specs::ops::{
    AddSpec, AddSpecImpl, BitAndSpecImpl, BitOrSpecImpl, BitXorSpecImpl, DivSpecImpl, MulSpecImpl,
    NegSpec, NegSpecImpl, NotSpec, NotSpecImpl, RemSpecImpl, ShlSpecImpl, ShrSpecImpl, SubSpec,
    SubSpecImpl,
};

verus! {

/// Two lanes of `u64`.
#[derive(Copy, Clone, Debug, PartialEq, Eq, Structural)]
pub struct ulong2(pub u64, pub u64);

impl core::ops::Add for ulong2 {
    type Output = ulong2;

    /// The lane-wise sum of the two vectors, wrapping around.
    fn add(self, rhs: ulong2) -> (r: ulong2) {
        ulong2(add_u64(self.0, rhs.0), add_u64(self.1, rhs.1))
    }
}

impl AddSpecImpl for ulong2 {
    open spec fn obeys_add_spec() -> bool {
        true
    }

    open spec fn add_req(self, rhs: ulong2) -> bool {
        true
    }

    open spec fn add_spec(self, rhs: ulong2) -> ulong2 {
        ulong2(add_u64(self.0, rhs.0), add_u64(self.1, rhs.1))
    }
}

impl core::ops::Add<u64> for ulong2 {
    type Output = ulong2;

    /// The sum of every lane and the scalar, wrapping around.
    fn add(self, rhs: u64) -> (r: ulong2) {
        ulong2(add_u64(self.0, rhs), add_u64(self.1, rhs))
    }
}

impl AddSpecImpl<u64> for ulong2 {
    open spec fn obeys_add_spec() -> bool {
        true
    }

    open spec fn add_req(self, rhs: u64) -> bool {
        true
    }

    open spec fn add_spec(self, rhs: u64) -> ulong2 {
        ulong2(add_u64(self.0, rhs), add_u64(self.1, rhs))
    }
}

impl core::ops::Add<ulong2> for u64 {
    type Output = ulong2;

    /// The sum of the scalar and every lane, wrapping around.
    fn add(self, rhs: ulong2) -> (r: ulong2) {
        ulong2(add_u64(self, rhs.0), add_u64(self, rhs.1))
    }
}

impl AddSpecImpl<ulong2> for u64 {
    open spec fn obeys_add_spec() -> bool {
        true
    }

    open spec fn add_req(self, rhs: ulong2) -> bool {
        true
    }

    open spec fn add_spec(self, rhs: ulong2) -> ulong2 {
        ulong2(add_u64(self, rhs.0), add_u64(self, rhs.1))
    }
}

impl core::ops::Sub for ulong2 {
    type Output = ulong2;

    /// The lane-wise difference of the two vectors, wrapping around.
    fn sub(self, rhs: ulong2) -> (r: ulong2) {
        ulong2(sub_u64(self.0, rhs.0), sub_u64(self.1, rhs.1))
    }
}

impl SubSpecImpl for ulong2 {
    open spec fn obeys_sub_spec() -> bool {
        true
    }

    open spec fn sub_req(self, rhs: ulong2) -> bool {
        true
    }

    open spec fn sub_spec(self, rhs: ulong2) -> ulong2 {
        ulong2(sub_u64(self.0, rhs.0), sub_u64(self.1, rhs.1))
    }
}

impl core::ops::Sub<u64> for ulong2 {
    type Output = ulong2;

    /// The difference of every lane and the scalar, wrapping around.
    fn sub(self, rhs: u64) -> (r: ulong2) {
        ulong2(sub_u64(self.0, rhs), sub_u64(self.1, rhs))
    }
}

impl SubSpecImpl<u64> for ulong2 {
    open spec fn obeys_sub_spec() -> bool {
        true
    }

    open spec fn sub_req(self, rhs: u64) -> bool {
        true
    }

    open spec fn sub_spec(self, rhs: u64) -> ulong2 {
        ulong2(sub_u64(self.0, rhs), sub_u64(self.1, rhs))
    }
}

impl core::ops::Sub<ulong2> for u64 {
    type Output = ulong2;

    /// The difference of the scalar and every lane, wrapping around.
    fn sub(self, rhs: ulong2) -> (r: ulong2) {
        ulong2(sub_u64(self, rhs.0), sub_u64(self, rhs.1))
    }
}

impl SubSpecImpl<ulong2> for u64 {
    open spec fn obeys_sub_spec() -> bool {
        true
    }

    open spec fn sub_req(self, rhs: ulong2) -> bool {
        true
    }

    open spec fn sub_spec(self, rhs: ulong2) -> ulong2 {
        ulong2(sub_u64(self, rhs.0), sub_u64(self, rhs.1))
    }
}

impl core::ops::Mul for ulong2 {
    type Output = ulong2;

    /// The lane-wise product of the two vectors, wrapping around.
    fn mul(self, rhs: ulong2) -> (r: ulong2) {
        ulong2(mul_u64(self.0, rhs.0), mul_u64(self.1, rhs.1))
    }
}

impl MulSpecImpl for ulong2 {
    open spec fn obeys_mul_spec() -> bool {
        true
    }

    open spec fn mul_req(self, rhs: ulong2) -> bool {
        true
    }

    open spec fn mul_spec(self, rhs: ulong2) -> ulong2 {
        ulong2(mul_u64(self.0, rhs.0), mul_u64(self.1, rhs.1))
    }
}

impl core::ops::Mul<u64> for ulong2 {
    type Output = ulong2;

    /// The product of every lane and the scalar, wrapping around.
    fn mul(self, rhs: u64) -> (r: ulong2) {
        ulong2(mul_u64(self.0, rhs), mul_u64(self.1, rhs))
    }
}

impl MulSpecImpl<u64> for ulong2 {
    open spec fn obeys_mul_spec() -> bool {
        true
    }

    open spec fn mul_req(self, rhs: u64) -> bool {
        true
    }

    open spec fn mul_spec(self, rhs: u64) -> ulong2 {
        ulong2(mul_u64(self.0, rhs), mul_u64(self.1, rhs))
    }
}

impl core::ops::Mul<ulong2> for u64 {
    type Output = ulong2;

    /// The product of the scalar and every lane, wrapping around.
    fn mul(self, rhs: ulong2) -> (r: ulong2) {
        ulong2(mul_u64(self, rhs.0), mul_u64(self, rhs.1))
    }
}

impl MulSpecImpl<ulong2> for u64 {
    open spec fn obeys_mul_spec() -> bool {
        true
    }

    open spec fn mul_req(self, rhs: ulong2) -> bool {
        true
    }

    open spec fn mul_spec(self, rhs: ulong2) -> ulong2 {
        ulong2(mul_u64(self, rhs.0), mul_u64(self, rhs.1))
    }
}

impl core::ops::Div for ulong2 {
    type Output = ulong2;

    /// The lane-wise quotient of the two vectors, rounded toward zero. No lane of the divisor is
    /// zero.
    fn div(self, rhs: ulong2) -> (r: ulong2) {
        ulong2(div_u64(self.0, rhs.0), div_u64(self.1, rhs.1))
    }
}

impl DivSpecImpl for ulong2 {
    open spec fn obeys_div_spec() -> bool {
        true
    }

    open spec fn div_req(self, rhs: ulong2) -> bool {
        rhs.0 != 0 && rhs.1 != 0
    }

    open spec fn div_spec(self, rhs: ulong2) -> ulong2 {
        ulong2(div_u64(self.0, rhs.0), div_u64(self.1, rhs.1))
    }
}

impl core::ops::Div<u64> for ulong2 {
    type Output = ulong2;

    /// The quotient of every lane by the scalar, rounded toward zero. The scalar is not zero.
    fn div(self, rhs: u64) -> (r: ulong2) {
        ulong2(div_u64(self.0, rhs), div_u64(self.1, rhs))
    }
}

impl DivSpecImpl<u64> for ulong2 {
    open spec fn obeys_div_spec() -> bool {
        true
    }

    open spec fn div_req(self, rhs: u64) -> bool {
        rhs != 0
    }

    open spec fn div_spec(self, rhs: u64) -> ulong2 {
        ulong2(div_u64(self.0, rhs), div_u64(self.1, rhs))
    }
}

impl core::ops::Div<ulong2> for u64 {
    type Output = ulong2;

    /// The quotient of the scalar by every lane, rounded toward zero. No lane is zero.
    fn div(self, rhs: ulong2) -> (r: ulong2) {
        ulong2(div_u64(self, rhs.0), div_u64(self, rhs.1))
    }
}

impl DivSpecImpl<ulong2> for u64 {
    open spec fn obeys_div_spec() -> bool {
        true
    }

    open spec fn div_req(self, rhs: ulong2) -> bool {
        rhs.0 != 0 && rhs.1 != 0
    }

    open spec fn div_spec(self, rhs: ulong2) -> ulong2 {
        ulong2(div_u64(self, rhs.0), div_u64(self, rhs.1))
    }
}

impl core::ops::BitAnd for ulong2 {
    type Output = ulong2;

    /// The lane-wise conjunction of the two vectors, bit by bit.
    fn bitand(self, rhs: ulong2) -> (r: ulong2) {
        ulong2(self.0 & rhs.0, self.1 & rhs.1)
    }
}

impl BitAndSpecImpl for ulong2 {
    open spec fn obeys_bitand_spec() -> bool {
        true
    }

    open spec fn bitand_req(self, rhs: ulong2) -> bool {
        true
    }

    open spec fn bitand_spec(self, rhs: ulong2) -> ulong2 {
        ulong2(self.0 & rhs.0, self.1 & rhs.1)
    }
}

impl core::ops::BitAnd<u64> for ulong2 {
    type Output = ulong2;

    /// The conjunction of every lane and the scalar, bit by bit.
    fn bitand(self, rhs: u64) -> (r: ulong2) {
        ulong2(self.0 & rhs, self.1 & rhs)
    }
}

impl BitAndSpecImpl<u64> for ulong2 {
    open spec fn obeys_bitand_spec() -> bool {
        true
    }

    open spec fn bitand_req(self, rhs: u64) -> bool {
        true
    }

    open spec fn bitand_spec(self, rhs: u64) -> ulong2 {
        ulong2(self.0 & rhs, self.1 & rhs)
    }
}

impl core::ops::BitAnd<ulong2> for u64 {
    type Output = ulong2;

    /// The conjunction of the scalar and every lane, bit by bit.
    fn bitand(self, rhs: ulong2) -> (r: ulong2) {
        ulong2(self & rhs.0, self & rhs.1)
    }
}

impl BitAndSpecImpl<ulong2> for u64 {
    open spec fn obeys_bitand_spec() -> bool {
        true
    }

    open spec fn bitand_req(self, rhs: ulong2) -> bool {
        true
    }

    open spec fn bitand_spec(self, rhs: ulong2) -> ulong2 {
        ulong2(self & rhs.0, self & rhs.1)
    }
}

impl core::ops::BitOr for ulong2 {
    type Output = ulong2;

    /// The lane-wise disjunction of the two vectors, bit by bit.
    fn bitor(self, rhs: ulong2) -> (r: ulong2) {
        ulong2(self.0 | rhs.0, self.1 | rhs.1)
    }
}

impl BitOrSpecImpl for ulong2 {
    open spec fn obeys_bitor_spec() -> bool {
        true
    }

    open spec fn bitor_req(self, rhs: ulong2) -> bool {
        true
    }

    open spec fn bitor_spec(self, rhs: ulong2) -> ulong2 {
        ulong2(self.0 | rhs.0, self.1 | rhs.1)
    }
}

impl core::ops::BitOr<u64> for ulong2 {
    type Output = ulong2;

    /// The disjunction of every lane and the scalar, bit by bit.
    fn bitor(self, rhs: u64) -> (r: ulong2) {
        ulong2(self.0 | rhs, self.1 | rhs)
    }
}

impl BitOrSpecImpl<u64> for ulong2 {
    open spec fn obeys_bitor_spec() -> bool {
        true
    }

    open spec fn bitor_req(self, rhs: u64) -> bool {
        true
    }

    open spec fn bitor_spec(self, rhs: u64) -> ulong2 {
        ulong2(self.0 | rhs, self.1 | rhs)
    }
}

impl core::ops::BitOr<ulong2> for u64 {
    type Output = ulong2;

    /// The disjunction of the scalar and every lane, bit by bit.
    fn bitor(self, rhs: ulong2) -> (r: ulong2) {
        ulong2(self | rhs.0, self | rhs.1)
    }
}

impl BitOrSpecImpl<ulong2> for u64 {
    open spec fn obeys_bitor_spec() -> bool {
        true
    }

    open spec fn bitor_req(self, rhs: ulong2) -> bool {
        true
    }

    open spec fn bitor_spec(self, rhs: ulong2) -> ulong2 {
        ulong2(self | rhs.0, self | rhs.1)
    }
}

impl core::ops::BitXor for ulong2 {
    type Output = ulong2;

    /// The lane-wise exclusive disjunction of the two vectors, bit by bit.
    fn bitxor(self, rhs: ulong2) -> (r: ulong2) {
        ulong2(self.0 ^ rhs.0, self.1 ^ rhs.1)
    }
}

impl BitXorSpecImpl for ulong2 {
    open spec fn obeys_bitxor_spec() -> bool {
        true
    }

    open spec fn bitxor_req(self, rhs: ulong2) -> bool {
        true
    }

    open spec fn bitxor_spec(self, rhs: ulong2) -> ulong2 {
        ulong2(self.0 ^ rhs.0, self.1 ^ rhs.1)
    }
}

impl core::ops::BitXor<u64> for ulong2 {
    type Output = ulong2;

    /// The exclusive disjunction of every lane and the scalar, bit by bit.
    fn bitxor(self, rhs: u64) -> (r: ulong2) {
        ulong2(self.0 ^ rhs, self.1 ^ rhs)
    }
}

impl BitXorSpecImpl<u64> for ulong2 {
    open spec fn obeys_bitxor_spec() -> bool {
        true
    }

    open spec fn bitxor_req(self, rhs: u64) -> bool {
        true
    }

    open spec fn bitxor_spec(self, rhs: u64) -> ulong2 {
        ulong2(self.0 ^ rhs, self.1 ^ rhs)
    }
}

impl core::ops::BitXor<ulong2> for u64 {
    type Output = ulong2;

    /// The exclusive disjunction of the scalar and every lane, bit by bit.
    fn bitxor(self, rhs: ulong2) -> (r: ulong2) {
        ulong2(self ^ rhs.0, self ^ rhs.1)
    }
}

impl BitXorSpecImpl<ulong2> for u64 {
    open spec fn obeys_bitxor_spec() -> bool {
        true
    }

    open spec fn bitxor_req(self, rhs: ulong2) -> bool {
        true
    }

    open spec fn bitxor_spec(self, rhs: ulong2) -> ulong2 {
        ulong2(self ^ rhs.0, self ^ rhs.1)
    }
}

impl core::ops::Shl for ulong2 {
    type Output = ulong2;

    /// Every lane shifted left by the lane of `rhs`, which is below 64.
    fn shl(self, rhs: ulong2) -> (r: ulong2) {
        ulong2(shl_u64(self.0, rhs.0), shl_u64(self.1, rhs.1))
    }
}

impl ShlSpecImpl for ulong2 {
    open spec fn obeys_shl_spec() -> bool {
        true
    }

    open spec fn shl_req(self, rhs: ulong2) -> bool {
        0 <= rhs.0 < 64 && 0 <= rhs.1 < 64
    }

    open spec fn shl_spec(self, rhs: ulong2) -> ulong2 {
        ulong2(shl_u64(self.0, rhs.0), shl_u64(self.1, rhs.1))
    }
}

impl core::ops::Shl<u64> for ulong2 {
    type Output = ulong2;

    /// Every lane shifted left by `rhs`, which is below 64.
    fn shl(self, rhs: u64) -> (r: ulong2) {
        ulong2(shl_u64(self.0, rhs), shl_u64(self.1, rhs))
    }
}

impl ShlSpecImpl<u64> for ulong2 {
    open spec fn obeys_shl_spec() -> bool {
        true
    }

    open spec fn shl_req(self, rhs: u64) -> bool {
        0 <= rhs < 64
    }

    open spec fn shl_spec(self, rhs: u64) -> ulong2 {
        ulong2(shl_u64(self.0, rhs), shl_u64(self.1, rhs))
    }
}

impl core::ops::Shl<ulong2> for u64 {
    type Output = ulong2;

    /// The scalar shifted left by every lane of `rhs`, each of which is below 64.
    fn shl(self, rhs: ulong2) -> (r: ulong2) {
        ulong2(shl_u64(self, rhs.0), shl_u64(self, rhs.1))
    }
}

impl ShlSpecImpl<ulong2> for u64 {
    open spec fn obeys_shl_spec() -> bool {
        true
    }

    open spec fn shl_req(self, rhs: ulong2) -> bool {
        0 <= rhs.0 < 64 && 0 <= rhs.1 < 64
    }

    open spec fn shl_spec(self, rhs: ulong2) -> ulong2 {
        ulong2(shl_u64(self, rhs.0), shl_u64(self, rhs.1))
    }
}

impl core::ops::Shr for ulong2 {
    type Output = ulong2;

    /// Every lane shifted right by the lane of `rhs`, which is below 64.
    fn shr(self, rhs: ulong2) -> (r: ulong2) {
        ulong2(shr_u64(self.0, rhs.0), shr_u64(self.1, rhs.1))
    }
}

impl ShrSpecImpl for ulong2 {
    open spec fn obeys_shr_spec() -> bool {
        true
    }

    open spec fn shr_req(self, rhs: ulong2) -> bool {
        0 <= rhs.0 < 64 && 0 <= rhs.1 < 64
    }

    open spec fn shr_spec(self, rhs: ulong2) -> ulong2 {
        ulong2(shr_u64(self.0, rhs.0), shr_u64(self.1, rhs.1))
    }
}

impl core::ops::Shr<u64> for ulong2 {
    type Output = ulong2;

    /// Every lane shifted right by `rhs`, which is below 64.
    fn shr(self, rhs: u64) -> (r: ulong2) {
        ulong2(shr_u64(self.0, rhs), shr_u64(self.1, rhs))
    }
}

impl ShrSpecImpl<u64> for ulong2 {
    open spec fn obeys_shr_spec() -> bool {
        true
    }

    open spec fn shr_req(self, rhs: u64) -> bool {
        0 <= rhs < 64
    }

    open spec fn shr_spec(self, rhs: u64) -> ulong2 {
        ulong2(shr_u64(self.0, rhs), shr_u64(self.1, rhs))
    }
}

impl core::ops::Shr<ulong2> for u64 {
    type Output = ulong2;

    /// The scalar shifted right by every lane of `rhs`, each of which is below 64.
    fn shr(self, rhs: ulong2) -> (r: ulong2) {
        ulong2(shr_u64(self, rhs.0), shr_u64(self, rhs.1))
    }
}

impl ShrSpecImpl<ulong2> for u64 {
    open spec fn obeys_shr_spec() -> bool {
        true
    }

    open spec fn shr_req(self, rhs: ulong2) -> bool {
        0 <= rhs.0 < 64 && 0 <= rhs.1 < 64
    }

    open spec fn shr_spec(self, rhs: ulong2) -> ulong2 {
        ulong2(shr_u64(self, rhs.0), shr_u64(self, rhs.1))
    }
}

impl core::ops::Rem for ulong2 {
    type Output = ulong2;

    /// The lane-wise remainder `self - (self / rhs) * rhs`. No lane of the divisor is zero.
    fn rem(self, rhs: ulong2) -> (r: ulong2) {
        ulong2(rem_u64(self.0, rhs.0), rem_u64(self.1, rhs.1))
    }
}

impl RemSpecImpl for ulong2 {
    open spec fn obeys_rem_spec() -> bool {
        true
    }

    open spec fn rem_req(self, rhs: ulong2) -> bool {
        rhs.0 != 0 && rhs.1 != 0
    }

    open spec fn rem_spec(self, rhs: ulong2) -> ulong2 {
        ulong2(rem_u64(self.0, rhs.0), rem_u64(self.1, rhs.1))
    }
}

impl core::ops::Neg for ulong2 {
    type Output = ulong2;

    /// Zero minus every lane, wrapping around.
    fn neg(self) -> (r: ulong2) {
        ulong2(neg_u64(self.0), neg_u64(self.1))
    }
}

impl NegSpecImpl for ulong2 {
    open spec fn obeys_neg_spec() -> bool {
        true
    }

    open spec fn neg_req(self) -> bool {
        true
    }

    open spec fn neg_spec(self) -> ulong2 {
        ulong2(neg_u64(self.0), neg_u64(self.1))
    }
}

impl core::ops::Not for ulong2 {
    type Output = ulong2;

    /// Every lane with every bit flipped.
    fn not(self) -> (r: ulong2) {
        ulong2(not_u64(self.0), not_u64(self.1))
    }
}

impl NotSpecImpl for ulong2 {
    open spec fn obeys_not_spec() -> bool {
        true
    }

    open spec fn not_req(self) -> bool {
        true
    }

    open spec fn not_spec(self) -> ulong2 {
        ulong2(not_u64(self.0), not_u64(self.1))
    }
}

impl core::convert::From<isize> for ulong2 {
    /// The vector with `x`, wrapped to `u64`, in every lane.
    fn from(x: isize) -> (r: ulong2) {
        let v = isize_to_u64(x);
        ulong2(v, v)
    }
}

impl FromSpecImpl<isize> for ulong2 {
    open spec fn obeys_from_spec() -> bool {
        true
    }

    open spec fn from_spec(x: isize) -> ulong2 {
        ulong2(isize_to_u64(x), isize_to_u64(x))
    }
}

impl core::ops::Index<u32> for ulong2 {
    type Output = u64;

    /// Lane `i`, which is below 2.
    fn index(&self, i: u32) -> (r: &u64)
        ensures
            *r == self.lane(i as int),
    {
        match i {
            0 => &self.0,
            _ => &self.1,
        }
    }
}

impl vstd::std_specs::core::IndexSpecImpl<u32> for ulong2 {
    open spec fn index_req(&self, i: &u32) -> bool {
        *i < 2
    }
}

impl ulong2 {
    /// Lane `i`, counted from zero.
    pub open spec fn lane(self, i: int) -> u64
        recommends
            0 <= i < 2,
    {
        if i == 0 {
            self.0
        } else {
            self.1
        }
    }

    /// The vector of type `ulong2` with the bits of `x`, a value of a type that has as many bits,
    /// which is one with images of type `uchar16`.
    pub fn bitcast<U: Bitcast<Image = uchar16>>(x: U) -> (r: ulong2)
        ensures
            r == spec_bitcast::<U, ulong2>(x),
    {
        bitcast(x)
    }

    /// The vector with `x` in every lane.
    pub fn broadcast(x: u64) -> (r: ulong2)
        ensures
            r == ulong2(x, x),
    {
        ulong2(x, x)
    }

    /// Lane `i`, which is below 2.
    pub fn extract(self, i: u32) -> (r: u64)
        requires
            i < 2,
        ensures
            r == self.lane(i as int),
    {
        match i {
            0 => self.0,
            _ => self.1,
        }
    }

    /// The vector with `x` in lane `i`, which is below 2, and the other lanes unchanged.
    pub fn replace(self, i: u32, x: u64) -> (r: ulong2)
        requires
            i < 2,
        ensures
            forall|j: int| 0 <= j < 2 ==> #[trigger] r.lane(j) == (if j == i {
                x
            } else {
                self.lane(j)
            }),
    {
        match i {
            0 => ulong2(x, self.1),
            _ => ulong2(self.0, x),
        }
    }

    /// The mask that is all ones where the lanes of `x` and `y` are equal, and zero elsewhere.
    pub fn eq(x: ulong2, y: ulong2) -> (r: long2)
        ensures
            r == long2(eq_u64(x.0, y.0), eq_u64(x.1, y.1)),
    {
        long2(eq_u64(x.0, y.0), eq_u64(x.1, y.1))
    }

    /// The mask that is all ones where the lanes of `x` and `y` differ, and zero elsewhere.
    pub fn ne(x: ulong2, y: ulong2) -> (r: long2)
        ensures
            r == long2(ne_u64(x.0, y.0), ne_u64(x.1, y.1)),
    {
        long2(ne_u64(x.0, y.0), ne_u64(x.1, y.1))
    }

    /// The mask that is all ones where the lane of `x` is less than that of `y`, and zero
    /// elsewhere.
    pub fn lt(x: ulong2, y: ulong2) -> (r: long2)
        ensures
            r == long2(lt_u64(x.0, y.0), lt_u64(x.1, y.1)),
    {
        long2(lt_u64(x.0, y.0), lt_u64(x.1, y.1))
    }

    /// The mask that is all ones where the lane of `x` is at most that of `y`, and zero elsewhere.
    pub fn le(x: ulong2, y: ulong2) -> (r: long2)
        ensures
            r == long2(le_u64(x.0, y.0), le_u64(x.1, y.1)),
    {
        long2(le_u64(x.0, y.0), le_u64(x.1, y.1))
    }

    /// The mask that is all ones where the lane of `x` is greater than that of `y`, and zero
    /// elsewhere.
    pub fn gt(x: ulong2, y: ulong2) -> (r: long2)
        ensures
            r == long2(gt_u64(x.0, y.0), gt_u64(x.1, y.1)),
    {
        long2(gt_u64(x.0, y.0), gt_u64(x.1, y.1))
    }

    /// The mask that is all ones where the lane of `x` is at least that of `y`, and zero elsewhere.
    pub fn ge(x: ulong2, y: ulong2) -> (r: long2)
        ensures
            r == long2(ge_u64(x.0, y.0), ge_u64(x.1, y.1)),
    {
        long2(ge_u64(x.0, y.0), ge_u64(x.1, y.1))
    }

    /// `x * y + z` lane by lane, wrapping around.
    pub fn madd(x: ulong2, y: ulong2, z: ulong2) -> (r: ulong2)
        ensures
            r == ulong2(madd_u64(x.0, y.0, z.0), madd_u64(x.1, y.1, z.1)),
    {
        ulong2(madd_u64(x.0, y.0, z.0), madd_u64(x.1, y.1, z.1))
    }

    /// The magnitude of every lane, which is the lane.
    pub fn abs(x: ulong2) -> (r: ulong2)
        ensures
            r == x.spec_abs(),
    {
        ulong2(abs_u64(x.0), abs_u64(x.1))
    }

    /// The greater lane of `x` and `y`, lane by lane.
    pub fn max(x: ulong2, y: ulong2) -> (r: ulong2)
        ensures
            r == x.spec_max(y),
    {
        ulong2(max_u64(x.0, y.0), max_u64(x.1, y.1))
    }

    /// The smaller lane of `x` and `y`, lane by lane.
    pub fn min(x: ulong2, y: ulong2) -> (r: ulong2)
        ensures
            r == x.spec_min(y),
    {
        ulong2(min_u64(x.0, y.0), min_u64(x.1, y.1))
    }

    /// Every lane of `x` raised to at least the lane of `lo`, then lowered to at most that of `hi`.
    pub fn clamp(x: ulong2, lo: ulong2, hi: ulong2) -> (r: ulong2)
        ensures
            r == x.spec_clamp(lo, hi),
    {
        ulong2(clamp_u64(x.0, lo.0, hi.0), clamp_u64(x.1, lo.1, hi.1))
    }

    /// The sum of the lanes, wrapping around.
    pub fn reduce_add(x: ulong2) -> (r: u64)
        ensures
            r == x.spec_reduce_add(),
    {
        add_u64(x.0, x.1)
    }

    /// The smallest lane.
    pub fn reduce_min(x: ulong2) -> (r: u64)
        ensures
            r == x.spec_reduce_min(),
            r <= x.0 && r <= x.1,
            r == x.0 || r == x.1,
    {
        min_u64(x.0, x.1)
    }

    /// The greatest lane.
    pub fn reduce_max(x: ulong2) -> (r: u64)
        ensures
            r == x.spec_reduce_max(),
            r >= x.0 && r >= x.1,
            r == x.0 || r == x.1,
    {
        max_u64(x.0, x.1)
    }

    /// Every lane as `i8`: its low 8 bits, read as `i8`.
    pub fn to_char(x: ulong2) -> (r: char2)
        ensures
            r == char2(u64_to_i8(x.0), u64_to_i8(x.1)),
    {
        char2(u64_to_i8(x.0), u64_to_i8(x.1))
    }

    /// Every lane as `i8`, saturating: a lane outside the range of `i8` gives the nearest bound.
    pub fn to_char_sat(x: ulong2) -> (r: char2)
        ensures
            r == x.spec_to_char_sat(),
    {
        char2(u64_to_i8_sat(x.0), u64_to_i8_sat(x.1))
    }

    /// Every lane as `u8`: its low 8 bits, read as `u8`.
    pub fn to_uchar(x: ulong2) -> (r: uchar2)
        ensures
            r == uchar2(u64_to_u8(x.0), u64_to_u8(x.1)),
    {
        uchar2(u64_to_u8(x.0), u64_to_u8(x.1))
    }

    /// Every lane as `u8`, saturating: a lane outside the range of `u8` gives the nearest bound.
    pub fn to_uchar_sat(x: ulong2) -> (r: uchar2)
        ensures
            r == x.spec_to_uchar_sat(),
    {
        uchar2(u64_to_u8_sat(x.0), u64_to_u8_sat(x.1))
    }

    /// Every lane as `i16`: its low 16 bits, read as `i16`.
    pub fn to_short(x: ulong2) -> (r: short2)
        ensures
            r == short2(u64_to_i16(x.0), u64_to_i16(x.1)),
    {
        short2(u64_to_i16(x.0), u64_to_i16(x.1))
    }

    /// Every lane as `i16`, saturating: a lane outside the range of `i16` gives the nearest bound.
    pub fn to_short_sat(x: ulong2) -> (r: short2)
        ensures
            r == x.spec_to_short_sat(),
    {
        short2(u64_to_i16_sat(x.0), u64_to_i16_sat(x.1))
    }

    /// Every lane as `u16`: its low 16 bits, read as `u16`.
    pub fn to_ushort(x: ulong2) -> (r: ushort2)
        ensures
            r == ushort2(u64_to_u16(x.0), u64_to_u16(x.1)),
    {
        ushort2(u64_to_u16(x.0), u64_to_u16(x.1))
    }

    /// Every lane as `u16`, saturating: a lane outside the range of `u16` gives the nearest bound.
    pub fn to_ushort_sat(x: ulong2) -> (r: ushort2)
        ensures
            r == x.spec_to_ushort_sat(),
    {
        ushort2(u64_to_u16_sat(x.0), u64_to_u16_sat(x.1))
    }

    /// Every lane as `i32`: its low 32 bits, read as `i32`.
    pub fn to_int(x: ulong2) -> (r: int2)
        ensures
            r == int2(u64_to_i32(x.0), u64_to_i32(x.1)),
    {
        int2(u64_to_i32(x.0), u64_to_i32(x.1))
    }

    /// Every lane as `i32`, saturating: a lane outside the range of `i32` gives the nearest bound.
    pub fn to_int_sat(x: ulong2) -> (r: int2)
        ensures
            r == x.spec_to_int_sat(),
    {
        int2(u64_to_i32_sat(x.0), u64_to_i32_sat(x.1))
    }

    /// Every lane as `u32`: its low 32 bits, read as `u32`.
    pub fn to_uint(x: ulong2) -> (r: uint2)
        ensures
            r == uint2(u64_to_u32(x.0), u64_to_u32(x.1)),
    {
        uint2(u64_to_u32(x.0), u64_to_u32(x.1))
    }

    /// Every lane as `u32`, saturating: a lane outside the range of `u32` gives the nearest bound.
    pub fn to_uint_sat(x: ulong2) -> (r: uint2)
        ensures
            r == x.spec_to_uint_sat(),
    {
        uint2(u64_to_u32_sat(x.0), u64_to_u32_sat(x.1))
    }

    /// Every lane as `i64`: the same bits, read as `i64`.
    pub fn to_long(x: ulong2) -> (r: long2)
        ensures
            r == long2(u64_to_i64(x.0), u64_to_i64(x.1)),
    {
        long2(u64_to_i64(x.0), u64_to_i64(x.1))
    }

    /// Every lane as `i64`, saturating: a lane outside the range of `i64` gives the nearest bound.
    pub fn to_long_sat(x: ulong2) -> (r: long2)
        ensures
            r == x.spec_to_long_sat(),
    {
        long2(u64_to_i64_sat(x.0), u64_to_i64_sat(x.1))
    }

    /// The vector itself: its lanes are `u64` already.
    pub fn to_ulong(x: ulong2) -> (r: ulong2)
        ensures
            r == x,
    {
        x
    }

    /// The vector itself: its lanes are `u64` already, and nothing saturates.
    pub fn to_ulong_sat(x: ulong2) -> (r: ulong2)
        ensures
            r == x.spec_to_ulong_sat(),
    {
        x
    }

    /// The low half: lane 0.
    pub fn lo(self) -> (r: u64)
        ensures
            r == self.0,
    {
        self.0
    }

    /// The high half: lane 1.
    pub fn hi(self) -> (r: u64)
        ensures
            r == self.1,
    {
        self.1
    }

    /// The odd lane: lane 1.
    pub fn odd(self) -> (r: u64)
        ensures
            r == self.1,
    {
        self.1
    }

    /// The even lane: lane 0.
    pub fn even(self) -> (r: u64)
        ensures
            r == self.0,
    {
        self.0
    }

    /// The vector of `f` applied to every lane. `f` accepts every lane.
    pub fn map_unary<F: Fn(u64) -> u64>(self, f: F) -> (r: ulong2)
        requires
            call_requires(f, (self.0,)),
            call_requires(f, (self.1,)),
        ensures
            call_ensures(f, (self.0,), r.0),
            call_ensures(f, (self.1,), r.1),
    {
        ulong2(f(self.0), f(self.1))
    }

    /// The vector of `f` applied to the lanes of the two vectors, lane by lane. `f` accepts every
    /// such pair of lanes.
    pub fn map_binary<F: Fn(u64, u64) -> u64>(self, other: ulong2, f: F) -> (r: ulong2)
        requires
            call_requires(f, (self.0, other.0)),
            call_requires(f, (self.1, other.1)),
        ensures
            call_ensures(f, (self.0, other.0), r.0),
            call_ensures(f, (self.1, other.1), r.1),
    {
        ulong2(f(self.0, other.0), f(self.1, other.1))
    }

    /// The lanes folded by `f`, from lane 0 upward: `f` is applied to lane 1 and lane 0, then to
    /// each further lane and what the lanes below it gave. `f` accepts every pair of scalars.
    pub fn reduce<F: Fn(u64, u64) -> u64>(self, f: F) -> (r: u64)
        requires
            forall|a: u64, b: u64| call_requires(f, (a, b)),
        ensures
            call_ensures(f, (self.1, self.0), r),
    {
        f(self.1, self.0)
    }

    /// Addition commutes.
    pub proof fn lemma_add_commutes(x: ulong2, y: ulong2)
        ensures
            AddSpec::add_spec(x, y) == AddSpec::add_spec(y, x),
    {
        lemma_arith_u64(x.0, y.0, 0);
        lemma_arith_u64(x.1, y.1, 0);
    }

    /// Addition associates, wrap-around or not.
    pub proof fn lemma_add_associates(x: ulong2, y: ulong2, z: ulong2)
        ensures
            AddSpec::add_spec(AddSpec::add_spec(x, y), z)
                == AddSpec::add_spec(x, AddSpec::add_spec(y, z)),
    {
        lemma_arith_u64(x.0, y.0, z.0);
        lemma_arith_u64(x.1, y.1, z.1);
    }

    /// Swapping the operands of a subtraction negates the difference.
    pub proof fn lemma_sub_swaps(x: ulong2, y: ulong2)
        ensures
            SubSpec::sub_spec(x, y) == NegSpec::neg_spec(SubSpec::sub_spec(y, x)),
    {
        lemma_arith_u64(x.0, y.0, 0);
        lemma_arith_u64(x.1, y.1, 0);
    }

    /// The magnitude of an unsigned vector is the vector.
    pub proof fn lemma_abs(x: ulong2)
        ensures
            x.spec_abs() == x,
            x.spec_abs().spec_abs() == x.spec_abs(),
    {
    }

    /// Flipping every bit of a lane gives the greatest `u64` minus the lane.
    pub proof fn lemma_not(x: ulong2)
        ensures
            forall|i: int|
                0 <= i < 2 ==> #[trigger] NotSpec::not_spec(x).lane(i) == u64::MAX - x.lane(i),
    {
        lemma_not_u64(x.0);
        lemma_not_u64(x.1);
    }

    /// The lanes of a vector with `k` in every lane add up to 2 times `k`, wrapped around.
    pub proof fn lemma_reduce_add_broadcast(k: u64)
        ensures
            ulong2(k, k).spec_reduce_add() == wrap_u64(2 * k),
    {
    }

    /// Saturating conversion to `i8` gives, lane by lane, the lane itself where `i8` holds it and
    /// the nearest bound of `i8` where it does not.
    pub proof fn lemma_to_char_sat(x: ulong2)
        ensures
            forall|i: int|
                0 <= i < 2 ==> #[trigger] x.spec_to_char_sat().lane(i) == sat_i8(x.lane(i) as int),
    {
    }

    /// Saturating conversion to `u8` gives, lane by lane, the lane itself where `u8` holds it and
    /// the nearest bound of `u8` where it does not.
    pub proof fn lemma_to_uchar_sat(x: ulong2)
        ensures
            forall|i: int|
                0 <= i < 2 ==> #[trigger] x.spec_to_uchar_sat().lane(i) == sat_u8(x.lane(i) as int),
    {
    }

    /// Saturating conversion to `i16` gives, lane by lane, the lane itself where `i16` holds it and
    /// the nearest bound of `i16` where it does not.
    pub proof fn lemma_to_short_sat(x: ulong2)
        ensures
            forall|i: int|
                0 <= i < 2 ==>
                    #[trigger] x.spec_to_short_sat().lane(i) == sat_i16(x.lane(i) as int),
    {
    }

    /// Saturating conversion to `u16` gives, lane by lane, the lane itself where `u16` holds it and
    /// the nearest bound of `u16` where it does not.
    pub proof fn lemma_to_ushort_sat(x: ulong2)
        ensures
            forall|i: int|
                0 <= i < 2 ==>
                    #[trigger] x.spec_to_ushort_sat().lane(i) == sat_u16(x.lane(i) as int),
    {
    }

    /// Saturating conversion to `i32` gives, lane by lane, the lane itself where `i32` holds it and
    /// the nearest bound of `i32` where it does not.
    pub proof fn lemma_to_int_sat(x: ulong2)
        ensures
            forall|i: int|
                0 <= i < 2 ==> #[trigger] x.spec_to_int_sat().lane(i) == sat_i32(x.lane(i) as int),
    {
    }

    /// Saturating conversion to `u32` gives, lane by lane, the lane itself where `u32` holds it and
    /// the nearest bound of `u32` where it does not.
    pub proof fn lemma_to_uint_sat(x: ulong2)
        ensures
            forall|i: int|
                0 <= i < 2 ==> #[trigger] x.spec_to_uint_sat().lane(i) == sat_u32(x.lane(i) as int),
    {
    }

    /// Saturating conversion to `i64` gives, lane by lane, the lane itself where `i64` holds it and
    /// the nearest bound of `i64` where it does not.
    pub proof fn lemma_to_long_sat(x: ulong2)
        ensures
            forall|i: int|
                0 <= i < 2 ==> #[trigger] x.spec_to_long_sat().lane(i) == sat_i64(x.lane(i) as int),
    {
    }
}

impl Vector for ulong2 {
    type Scalar = u64;

    type Boolean = long2;

    type CharVector = char2;

    type ShortVector = short2;

    type IntVector = int2;

    type LongVector = long2;

    type UCharVector = uchar2;

    type UShortVector = ushort2;

    type UIntVector = uint2;

    type ULongVector = ulong2;

    type FloatVector = float2;

    type DoubleVector = double2;

    open spec fn spec_abs(self) -> ulong2 {
        ulong2(abs_u64(self.0), abs_u64(self.1))
    }

    open spec fn spec_max(self, other: ulong2) -> ulong2 {
        ulong2(max_u64(self.0, other.0), max_u64(self.1, other.1))
    }

    open spec fn spec_min(self, other: ulong2) -> ulong2 {
        ulong2(min_u64(self.0, other.0), min_u64(self.1, other.1))
    }

    open spec fn spec_clamp(self, lo: ulong2, hi: ulong2) -> ulong2 {
        ulong2(clamp_u64(self.0, lo.0, hi.0), clamp_u64(self.1, lo.1, hi.1))
    }

    open spec fn spec_reduce_add(self) -> u64 {
        wrap_u64(self.0 + self.1)
    }

    open spec fn spec_reduce_min(self) -> u64 {
        min_u64(self.0, self.1)
    }

    open spec fn spec_reduce_max(self) -> u64 {
        max_u64(self.0, self.1)
    }

    open spec fn spec_to_char_sat(self) -> char2 {
        char2(u64_to_i8_sat(self.0), u64_to_i8_sat(self.1))
    }

    open spec fn spec_to_uchar_sat(self) -> uchar2 {
        uchar2(u64_to_u8_sat(self.0), u64_to_u8_sat(self.1))
    }

    open spec fn spec_to_short_sat(self) -> short2 {
        short2(u64_to_i16_sat(self.0), u64_to_i16_sat(self.1))
    }

    open spec fn spec_to_ushort_sat(self) -> ushort2 {
        ushort2(u64_to_u16_sat(self.0), u64_to_u16_sat(self.1))
    }

    open spec fn spec_to_int_sat(self) -> int2 {
        int2(u64_to_i32_sat(self.0), u64_to_i32_sat(self.1))
    }

    open spec fn spec_to_uint_sat(self) -> uint2 {
        uint2(u64_to_u32_sat(self.0), u64_to_u32_sat(self.1))
    }

    open spec fn spec_to_long_sat(self) -> long2 {
        long2(u64_to_i64_sat(self.0), u64_to_i64_sat(self.1))
    }

    open spec fn spec_to_ulong_sat(self) -> ulong2 {
        self
    }

    fn abs(self) -> (r: ulong2) {
        ulong2::abs(self)
    }

    fn max(self, other: ulong2) -> (r: ulong2) {
        ulong2::max(self, other)
    }

    fn min(self, other: ulong2) -> (r: ulong2) {
        ulong2::min(self, other)
    }

    fn clamp(self, lo: ulong2, hi: ulong2) -> (r: ulong2) {
        ulong2::clamp(self, lo, hi)
    }

    fn reduce_add(self) -> (r: u64) {
        ulong2::reduce_add(self)
    }

    fn reduce_min(self) -> (r: u64) {
        ulong2::reduce_min(self)
    }

    fn reduce_max(self) -> (r: u64) {
        ulong2::reduce_max(self)
    }

    fn to_char_sat(self) -> (r: char2) {
        ulong2::to_char_sat(self)
    }

    fn to_uchar_sat(self) -> (r: uchar2) {
        ulong2::to_uchar_sat(self)
    }

    fn to_short_sat(self) -> (r: short2) {
        ulong2::to_short_sat(self)
    }

    fn to_ushort_sat(self) -> (r: ushort2) {
        ulong2::to_ushort_sat(self)
    }

    fn to_int_sat(self) -> (r: int2) {
        ulong2::to_int_sat(self)
    }

    fn to_uint_sat(self) -> (r: uint2) {
        ulong2::to_uint_sat(self)
    }

    fn to_long_sat(self) -> (r: long2) {
        ulong2::to_long_sat(self)
    }

    fn to_ulong_sat(self) -> (r: ulong2) {
        ulong2::to_ulong_sat(self)
    }
}

impl Integer for ulong2 {
    open spec fn spec_reduce_and(self) -> u64 {
        self.0 & self.1
    }

    open spec fn spec_reduce_or(self) -> u64 {
        self.0 | self.1
    }

    open spec fn spec_reduce_xor(self) -> u64 {
        self.0 ^ self.1
    }

    open spec fn spec_all(self) -> bool {
        truth_u64(self.0) && truth_u64(self.1)
    }

    open spec fn spec_any(self) -> bool {
        truth_u64(self.0) || truth_u64(self.1)
    }

    fn reduce_and(self) -> (r: u64) {
        self.0 & self.1
    }

    fn reduce_or(self) -> (r: u64) {
        self.0 | self.1
    }

    fn reduce_xor(self) -> (r: u64) {
        self.0 ^ self.1
    }

    fn all(self) -> (r: bool) {
        proof {
            lemma_bits_u64(self.0, self.1, 0, 0, 0);
        }
        truth_u64(self.reduce_and())
    }

    fn any(self) -> (r: bool) {
        proof {
            lemma_bits_u64(self.0, self.1, 0, 0, 0);
        }
        truth_u64(self.reduce_or())
    }
}

impl Dot for ulong2 {
    type DotProduct = u64;

    open spec fn spec_dot(self, other: ulong2) -> u64 {
        wrap_u64(self.0 * other.0 + self.1 * other.1)
    }

    fn dot(self, other: ulong2) -> (r: u64) {
        let s = mul_u64(self.0, other.0);
        let ghost mut t: int = self.0 * other.0;
        proof {
            lemma_wrap_u64_sum(t, self.1 * other.1);
            t = t + self.1 * other.1;
        }
        let s = madd_u64(self.1, other.1, s);
        s
    }
}

impl Bitcast for ulong2 {
    type Image = uchar16;

    open spec fn spec_image(self) -> uchar16 {
        let d0 = split_u64_u8(self.0);
        let d1 = split_u64_u8(self.1);
        uchar16(
            d0.0, d0.1, d0.2, d0.3, d0.4, d0.5, d0.6, d0.7, d1.0, d1.1, d1.2, d1.3, d1.4, d1.5,
            d1.6, d1.7,
        )
    }

    open spec fn spec_from_image(image: uchar16) -> ulong2 {
        ulong2(
            join_u8_u64(image.0, image.1, image.2, image.3, image.4, image.5, image.6, image.7),
            join_u8_u64(image.8, image.9, image.10, image.11, image.12, image.13, image.14, image.15),
        )
    }

    open spec fn spec_fills() -> bool {
        true
    }

    fn image(self) -> (r: uchar16) {
        let d0 = split_u64_u8(self.0);
        let d1 = split_u64_u8(self.1);
        uchar16(
            d0.0, d0.1, d0.2, d0.3, d0.4, d0.5, d0.6, d0.7, d1.0, d1.1, d1.2, d1.3, d1.4, d1.5,
            d1.6, d1.7,
        )
    }

    fn from_image(image: uchar16) -> (r: ulong2) {
        ulong2(
            join_u8_u64(image.0, image.1, image.2, image.3, image.4, image.5, image.6, image.7),
            join_u8_u64(image.8, image.9, image.10, image.11, image.12, image.13, image.14, image.15),
        )
    }

    proof fn lemma_image(x: ulong2) {
        lemma_regroup_u8_u64(x.0, 0, 0, 0, 0, 0, 0, 0, 0);
        lemma_regroup_u8_u64(x.1, 0, 0, 0, 0, 0, 0, 0, 0);
    }

    proof fn lemma_from_image(image: uchar16) {
        lemma_regroup_u8_u64(0, image.0, image.1, image.2, image.3, image.4, image.5, image.6, image.7);
        lemma_regroup_u8_u64(0, image.8, image.9, image.10, image.11, image.12, image.13, image.14, image.15);
    }
}

impl ulong2 {
    /// Read as `long2`, which has lanes of the same width, a vector keeps the bits of every lane;
    /// read as `ulong2` again, it is what it was.
    pub proof fn lemma_bitcast_long2(x: ulong2)
        ensures
            spec_bitcast::<ulong2, long2>(x) == long2(u64_to_i64(x.0), u64_to_i64(x.1)),
            spec_bitcast::<long2, ulong2>(spec_bitcast::<ulong2, long2>(x)) == x,
    {
        lemma_recast_u64(x.0);
        lemma_regroup_u8_u64(x.0, 0, 0, 0, 0, 0, 0, 0, 0);
        lemma_recast_u64(x.1);
        lemma_regroup_u8_u64(x.1, 0, 0, 0, 0, 0, 0, 0, 0);
    }

    /// Read as `double2`, which has lanes of the same width, a vector keeps the bits of every lane;
    /// read as `ulong2` again, it is what it was.
    pub proof fn lemma_bitcast_double2(x: ulong2)
        ensures
            spec_bitcast::<ulong2, double2>(x) == double2(x.0, x.1),
            spec_bitcast::<double2, ulong2>(spec_bitcast::<ulong2, double2>(x)) == x,
    {
        lemma_regroup_u8_u64(x.0, 0, 0, 0, 0, 0, 0, 0, 0);
        lemma_regroup_u8_u64(x.1, 0, 0, 0, 0, 0, 0, 0, 0);
    }
}

} // verus!
