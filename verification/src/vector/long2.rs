//! `long2`: two lanes of `i64`.

use crate::scalar::lane_i64::{
    abs_i64, add_i64, bitselect_i64, clamp_i64, div_i64, eq_i64, ge_i64, gt_i64, i64_to_i16,
    i64_to_i16_sat, i64_to_i32, i64_to_i32_sat, i64_to_i8, i64_to_i8_sat, i64_to_u16,
    i64_to_u16_sat, i64_to_u32, i64_to_u32_sat, i64_to_u64, i64_to_u64_sat, i64_to_u8,
    i64_to_u8_sat, isize_to_i64, le_i64, lemma_abs_i64, lemma_arith_i64, lemma_bits_i64,
    lemma_blend_i64, lemma_not_i64, lemma_recast_i64, lt_i64, madd_i64, max_i64, min_i64, mul_i64,
    ne_i64, neg_i64, not_i64, rem_i64, select_i64, shl_i64, shr_i64, sub_i64, truth_i64,
};
use crate::scalar::lane_u64::{
    bitselect_u64, lemma_blend_u64, lemma_recast_u64, select_u64, u64_to_i64,
};
use crate::scalar::model::{
    lemma_wrap_i64_sum, sat_i16, sat_i32, sat_i8, sat_u16, sat_u32, sat_u64, sat_u8, wrap_i64,
};
use crate::scalar::regroup::{join_u8_u64, lemma_regroup_u8_u64, split_u64_u8};
use crate::traits::{Bitcast, Dot, Integer, Select, Vector, bitcast, spec_bitcast};
use crate::vector::char2::char2;
use crate::vector::double2::double2;
use crate::vector::float2::float2;
use crate::vector::int2::int2;
use crate::vector::short2::short2;
use crate::vector::uchar16::uchar16;
use crate::vector::uchar2::uchar2;
use crate::vector::uint2::uint2;
use crate::vector::ulong2::ulong2;
use crate::vector::ushort2::ushort2;
use vstd::prelude::*;
use vstd::std_specs::convert::FromSpecImpl;
use vstd::std_specs::ops::{
    AddSpec, AddSpecImpl, BitAndSpecImpl, BitOrSpecImpl, BitXorSpecImpl, DivSpecImpl, MulSpecImpl,
    NegSpec, NegSpecImpl, NotSpec, NotSpecImpl, RemSpecImpl, ShlSpecImpl, ShrSpec, ShrSpecImpl,
    SubSpec, SubSpecImpl,
};

verus! {

/// Two lanes of `i64`.
#[derive(Copy, Clone, Debug, PartialEq, Eq, Structural)]
pub struct long2(pub i64, pub i64);

impl core::ops::Add for long2 {
    type Output = long2;

    /// The lane-wise sum of the two vectors, wrapping around.
    fn add(self, rhs: long2) -> (r: long2) {
        long2(add_i64(self.0, rhs.0), add_i64(self.1, rhs.1))
    }
}

impl AddSpecImpl for long2 {
    open spec fn obeys_add_spec() -> bool {
        true
    }

    open spec fn add_req(self, rhs: long2) -> bool {
        true
    }

    open spec fn add_spec(self, rhs: long2) -> long2 {
        long2(add_i64(self.0, rhs.0), add_i64(self.1, rhs.1))
    }
}

impl core::ops::Add<i64> for long2 {
    type Output = long2;

    /// The sum of every lane and the scalar, wrapping around.
    fn add(self, rhs: i64) -> (r: long2) {
        long2(add_i64(self.0, rhs), add_i64(self.1, rhs))
    }
}

impl AddSpecImpl<i64> for long2 {
    open spec fn obeys_add_spec() -> bool {
        true
    }

    open spec fn add_req(self, rhs: i64) -> bool {
        true
    }

    open spec fn add_spec(self, rhs: i64) -> long2 {
        long2(add_i64(self.0, rhs), add_i64(self.1, rhs))
    }
}

impl core::ops::Add<long2> for i64 {
    type Output = long2;

    /// The sum of the scalar and every lane, wrapping around.
    fn add(self, rhs: long2) -> (r: long2) {
        long2(add_i64(self, rhs.0), add_i64(self, rhs.1))
    }
}

impl AddSpecImpl<long2> for i64 {
    open spec fn obeys_add_spec() -> bool {
        true
    }

    open spec fn add_req(self, rhs: long2) -> bool {
        true
    }

    open spec fn add_spec(self, rhs: long2) -> long2 {
        long2(add_i64(self, rhs.0), add_i64(self, rhs.1))
    }
}

impl core::ops::Sub for long2 {
    type Output = long2;

    /// The lane-wise difference of the two vectors, wrapping around.
    fn sub(self, rhs: long2) -> (r: long2) {
        long2(sub_i64(self.0, rhs.0), sub_i64(self.1, rhs.1))
    }
}

impl SubSpecImpl for long2 {
    open spec fn obeys_sub_spec() -> bool {
        true
    }

    open spec fn sub_req(self, rhs: long2) -> bool {
        true
    }

    open spec fn sub_spec(self, rhs: long2) -> long2 {
        long2(sub_i64(self.0, rhs.0), sub_i64(self.1, rhs.1))
    }
}

impl core::ops::Sub<i64> for long2 {
    type Output = long2;

    /// The difference of every lane and the scalar, wrapping around.
    fn sub(self, rhs: i64) -> (r: long2) {
        long2(sub_i64(self.0, rhs), sub_i64(self.1, rhs))
    }
}

impl SubSpecImpl<i64> for long2 {
    open spec fn obeys_sub_spec() -> bool {
        true
    }

    open spec fn sub_req(self, rhs: i64) -> bool {
        true
    }

    open spec fn sub_spec(self, rhs: i64) -> long2 {
        long2(sub_i64(self.0, rhs), sub_i64(self.1, rhs))
    }
}

impl core::ops::Sub<long2> for i64 {
    type Output = long2;

    /// The difference of the scalar and every lane, wrapping around.
    fn sub(self, rhs: long2) -> (r: long2) {
        long2(sub_i64(self, rhs.0), sub_i64(self, rhs.1))
    }
}

impl SubSpecImpl<long2> for i64 {
    open spec fn obeys_sub_spec() -> bool {
        true
    }

    open spec fn sub_req(self, rhs: long2) -> bool {
        true
    }

    open spec fn sub_spec(self, rhs: long2) -> long2 {
        long2(sub_i64(self, rhs.0), sub_i64(self, rhs.1))
    }
}

impl core::ops::Mul for long2 {
    type Output = long2;

    /// The lane-wise product of the two vectors, wrapping around.
    fn mul(self, rhs: long2) -> (r: long2) {
        long2(mul_i64(self.0, rhs.0), mul_i64(self.1, rhs.1))
    }
}

impl MulSpecImpl for long2 {
    open spec fn obeys_mul_spec() -> bool {
        true
    }

    open spec fn mul_req(self, rhs: long2) -> bool {
        true
    }

    open spec fn mul_spec(self, rhs: long2) -> long2 {
        long2(mul_i64(self.0, rhs.0), mul_i64(self.1, rhs.1))
    }
}

impl core::ops::Mul<i64> for long2 {
    type Output = long2;

    /// The product of every lane and the scalar, wrapping around.
    fn mul(self, rhs: i64) -> (r: long2) {
        long2(mul_i64(self.0, rhs), mul_i64(self.1, rhs))
    }
}

impl MulSpecImpl<i64> for long2 {
    open spec fn obeys_mul_spec() -> bool {
        true
    }

    open spec fn mul_req(self, rhs: i64) -> bool {
        true
    }

    open spec fn mul_spec(self, rhs: i64) -> long2 {
        long2(mul_i64(self.0, rhs), mul_i64(self.1, rhs))
    }
}

impl core::ops::Mul<long2> for i64 {
    type Output = long2;

    /// The product of the scalar and every lane, wrapping around.
    fn mul(self, rhs: long2) -> (r: long2) {
        long2(mul_i64(self, rhs.0), mul_i64(self, rhs.1))
    }
}

impl MulSpecImpl<long2> for i64 {
    open spec fn obeys_mul_spec() -> bool {
        true
    }

    open spec fn mul_req(self, rhs: long2) -> bool {
        true
    }

    open spec fn mul_spec(self, rhs: long2) -> long2 {
        long2(mul_i64(self, rhs.0), mul_i64(self, rhs.1))
    }
}

impl core::ops::Div for long2 {
    type Output = long2;

    /// The lane-wise quotient of the two vectors, rounded toward zero. No lane of the divisor is
    /// zero.
    fn div(self, rhs: long2) -> (r: long2) {
        long2(div_i64(self.0, rhs.0), div_i64(self.1, rhs.1))
    }
}

impl DivSpecImpl for long2 {
    open spec fn obeys_div_spec() -> bool {
        true
    }

    open spec fn div_req(self, rhs: long2) -> bool {
        rhs.0 != 0 && rhs.1 != 0
    }

    open spec fn div_spec(self, rhs: long2) -> long2 {
        long2(div_i64(self.0, rhs.0), div_i64(self.1, rhs.1))
    }
}

impl core::ops::Div<i64> for long2 {
    type Output = long2;

    /// The quotient of every lane by the scalar, rounded toward zero. The scalar is not zero.
    fn div(self, rhs: i64) -> (r: long2) {
        long2(div_i64(self.0, rhs), div_i64(self.1, rhs))
    }
}

impl DivSpecImpl<i64> for long2 {
    open spec fn obeys_div_spec() -> bool {
        true
    }

    open spec fn div_req(self, rhs: i64) -> bool {
        rhs != 0
    }

    open spec fn div_spec(self, rhs: i64) -> long2 {
        long2(div_i64(self.0, rhs), div_i64(self.1, rhs))
    }
}

impl core::ops::Div<long2> for i64 {
    type Output = long2;

    /// The quotient of the scalar by every lane, rounded toward zero. No lane is zero.
    fn div(self, rhs: long2) -> (r: long2) {
        long2(div_i64(self, rhs.0), div_i64(self, rhs.1))
    }
}

impl DivSpecImpl<long2> for i64 {
    open spec fn obeys_div_spec() -> bool {
        true
    }

    open spec fn div_req(self, rhs: long2) -> bool {
        rhs.0 != 0 && rhs.1 != 0
    }

    open spec fn div_spec(self, rhs: long2) -> long2 {
        long2(div_i64(self, rhs.0), div_i64(self, rhs.1))
    }
}

impl core::ops::BitAnd for long2 {
    type Output = long2;

    /// The lane-wise conjunction of the two vectors, bit by bit.
    fn bitand(self, rhs: long2) -> (r: long2) {
        long2(self.0 & rhs.0, self.1 & rhs.1)
    }
}

impl BitAndSpecImpl for long2 {
    open spec fn obeys_bitand_spec() -> bool {
        true
    }

    open spec fn bitand_req(self, rhs: long2) -> bool {
        true
    }

    open spec fn bitand_spec(self, rhs: long2) -> long2 {
        long2(self.0 & rhs.0, self.1 & rhs.1)
    }
}

impl core::ops::BitAnd<i64> for long2 {
    type Output = long2;

    /// The conjunction of every lane and the scalar, bit by bit.
    fn bitand(self, rhs: i64) -> (r: long2) {
        long2(self.0 & rhs, self.1 & rhs)
    }
}

impl BitAndSpecImpl<i64> for long2 {
    open spec fn obeys_bitand_spec() -> bool {
        true
    }

    open spec fn bitand_req(self, rhs: i64) -> bool {
        true
    }

    open spec fn bitand_spec(self, rhs: i64) -> long2 {
        long2(self.0 & rhs, self.1 & rhs)
    }
}

impl core::ops::BitAnd<long2> for i64 {
    type Output = long2;

    /// The conjunction of the scalar and every lane, bit by bit.
    fn bitand(self, rhs: long2) -> (r: long2) {
        long2(self & rhs.0, self & rhs.1)
    }
}

impl BitAndSpecImpl<long2> for i64 {
    open spec fn obeys_bitand_spec() -> bool {
        true
    }

    open spec fn bitand_req(self, rhs: long2) -> bool {
        true
    }

    open spec fn bitand_spec(self, rhs: long2) -> long2 {
        long2(self & rhs.0, self & rhs.1)
    }
}

impl core::ops::BitOr for long2 {
    type Output = long2;

    /// The lane-wise disjunction of the two vectors, bit by bit.
    fn bitor(self, rhs: long2) -> (r: long2) {
        long2(self.0 | rhs.0, self.1 | rhs.1)
    }
}

impl BitOrSpecImpl for long2 {
    open spec fn obeys_bitor_spec() -> bool {
        true
    }

    open spec fn bitor_req(self, rhs: long2) -> bool {
        true
    }

    open spec fn bitor_spec(self, rhs: long2) -> long2 {
        long2(self.0 | rhs.0, self.1 | rhs.1)
    }
}

impl core::ops::BitOr<i64> for long2 {
    type Output = long2;

    /// The disjunction of every lane and the scalar, bit by bit.
    fn bitor(self, rhs: i64) -> (r: long2) {
        long2(self.0 | rhs, self.1 | rhs)
    }
}

impl BitOrSpecImpl<i64> for long2 {
    open spec fn obeys_bitor_spec() -> bool {
        true
    }

    open spec fn bitor_req(self, rhs: i64) -> bool {
        true
    }

    open spec fn bitor_spec(self, rhs: i64) -> long2 {
        long2(self.0 | rhs, self.1 | rhs)
    }
}

impl core::ops::BitOr<long2> for i64 {
    type Output = long2;

    /// The disjunction of the scalar and every lane, bit by bit.
    fn bitor(self, rhs: long2) -> (r: long2) {
        long2(self | rhs.0, self | rhs.1)
    }
}

impl BitOrSpecImpl<long2> for i64 {
    open spec fn obeys_bitor_spec() -> bool {
        true
    }

    open spec fn bitor_req(self, rhs: long2) -> bool {
        true
    }

    open spec fn bitor_spec(self, rhs: long2) -> long2 {
        long2(self | rhs.0, self | rhs.1)
    }
}

impl core::ops::BitXor for long2 {
    type Output = long2;

    /// The lane-wise exclusive disjunction of the two vectors, bit by bit.
    fn bitxor(self, rhs: long2) -> (r: long2) {
        long2(self.0 ^ rhs.0, self.1 ^ rhs.1)
    }
}

impl BitXorSpecImpl for long2 {
    open spec fn obeys_bitxor_spec() -> bool {
        true
    }

    open spec fn bitxor_req(self, rhs: long2) -> bool {
        true
    }

    open spec fn bitxor_spec(self, rhs: long2) -> long2 {
        long2(self.0 ^ rhs.0, self.1 ^ rhs.1)
    }
}

impl core::ops::BitXor<i64> for long2 {
    type Output = long2;

    /// The exclusive disjunction of every lane and the scalar, bit by bit.
    fn bitxor(self, rhs: i64) -> (r: long2) {
        long2(self.0 ^ rhs, self.1 ^ rhs)
    }
}

impl BitXorSpecImpl<i64> for long2 {
    open spec fn obeys_bitxor_spec() -> bool {
        true
    }

    open spec fn bitxor_req(self, rhs: i64) -> bool {
        true
    }

    open spec fn bitxor_spec(self, rhs: i64) -> long2 {
        long2(self.0 ^ rhs, self.1 ^ rhs)
    }
}

impl core::ops::BitXor<long2> for i64 {
    type Output = long2;

    /// The exclusive disjunction of the scalar and every lane, bit by bit.
    fn bitxor(self, rhs: long2) -> (r: long2) {
        long2(self ^ rhs.0, self ^ rhs.1)
    }
}

impl BitXorSpecImpl<long2> for i64 {
    open spec fn obeys_bitxor_spec() -> bool {
        true
    }

    open spec fn bitxor_req(self, rhs: long2) -> bool {
        true
    }

    open spec fn bitxor_spec(self, rhs: long2) -> long2 {
        long2(self ^ rhs.0, self ^ rhs.1)
    }
}

impl core::ops::Shl for long2 {
    type Output = long2;

    /// Every lane shifted left by the lane of `rhs`, which is below 64.
    fn shl(self, rhs: long2) -> (r: long2) {
        long2(shl_i64(self.0, rhs.0), shl_i64(self.1, rhs.1))
    }
}

impl ShlSpecImpl for long2 {
    open spec fn obeys_shl_spec() -> bool {
        true
    }

    open spec fn shl_req(self, rhs: long2) -> bool {
        0 <= rhs.0 < 64 && 0 <= rhs.1 < 64
    }

    open spec fn shl_spec(self, rhs: long2) -> long2 {
        long2(shl_i64(self.0, rhs.0), shl_i64(self.1, rhs.1))
    }
}

impl core::ops::Shl<i64> for long2 {
    type Output = long2;

    /// Every lane shifted left by `rhs`, which is below 64.
    fn shl(self, rhs: i64) -> (r: long2) {
        long2(shl_i64(self.0, rhs), shl_i64(self.1, rhs))
    }
}

impl ShlSpecImpl<i64> for long2 {
    open spec fn obeys_shl_spec() -> bool {
        true
    }

    open spec fn shl_req(self, rhs: i64) -> bool {
        0 <= rhs < 64
    }

    open spec fn shl_spec(self, rhs: i64) -> long2 {
        long2(shl_i64(self.0, rhs), shl_i64(self.1, rhs))
    }
}

impl core::ops::Shl<long2> for i64 {
    type Output = long2;

    /// The scalar shifted left by every lane of `rhs`, each of which is below 64.
    fn shl(self, rhs: long2) -> (r: long2) {
        long2(shl_i64(self, rhs.0), shl_i64(self, rhs.1))
    }
}

impl ShlSpecImpl<long2> for i64 {
    open spec fn obeys_shl_spec() -> bool {
        true
    }

    open spec fn shl_req(self, rhs: long2) -> bool {
        0 <= rhs.0 < 64 && 0 <= rhs.1 < 64
    }

    open spec fn shl_spec(self, rhs: long2) -> long2 {
        long2(shl_i64(self, rhs.0), shl_i64(self, rhs.1))
    }
}

impl core::ops::Shr for long2 {
    type Output = long2;

    /// Every lane shifted right by the lane of `rhs`, which is below 64.
    fn shr(self, rhs: long2) -> (r: long2) {
        long2(shr_i64(self.0, rhs.0), shr_i64(self.1, rhs.1))
    }
}

impl ShrSpecImpl for long2 {
    open spec fn obeys_shr_spec() -> bool {
        true
    }

    open spec fn shr_req(self, rhs: long2) -> bool {
        0 <= rhs.0 < 64 && 0 <= rhs.1 < 64
    }

    open spec fn shr_spec(self, rhs: long2) -> long2 {
        long2(shr_i64(self.0, rhs.0), shr_i64(self.1, rhs.1))
    }
}

impl core::ops::Shr<i64> for long2 {
    type Output = long2;

    /// Every lane shifted right by `rhs`, which is below 64.
    fn shr(self, rhs: i64) -> (r: long2) {
        long2(shr_i64(self.0, rhs), shr_i64(self.1, rhs))
    }
}

impl ShrSpecImpl<i64> for long2 {
    open spec fn obeys_shr_spec() -> bool {
        true
    }

    open spec fn shr_req(self, rhs: i64) -> bool {
        0 <= rhs < 64
    }

    open spec fn shr_spec(self, rhs: i64) -> long2 {
        long2(shr_i64(self.0, rhs), shr_i64(self.1, rhs))
    }
}

impl core::ops::Shr<long2> for i64 {
    type Output = long2;

    /// The scalar shifted right by every lane of `rhs`, each of which is below 64.
    fn shr(self, rhs: long2) -> (r: long2) {
        long2(shr_i64(self, rhs.0), shr_i64(self, rhs.1))
    }
}

impl ShrSpecImpl<long2> for i64 {
    open spec fn obeys_shr_spec() -> bool {
        true
    }

    open spec fn shr_req(self, rhs: long2) -> bool {
        0 <= rhs.0 < 64 && 0 <= rhs.1 < 64
    }

    open spec fn shr_spec(self, rhs: long2) -> long2 {
        long2(shr_i64(self, rhs.0), shr_i64(self, rhs.1))
    }
}

impl core::ops::Rem for long2 {
    type Output = long2;

    /// The lane-wise remainder `self - (self / rhs) * rhs`. No lane of the divisor is zero.
    fn rem(self, rhs: long2) -> (r: long2) {
        long2(rem_i64(self.0, rhs.0), rem_i64(self.1, rhs.1))
    }
}

impl RemSpecImpl for long2 {
    open spec fn obeys_rem_spec() -> bool {
        true
    }

    open spec fn rem_req(self, rhs: long2) -> bool {
        rhs.0 != 0 && rhs.1 != 0
    }

    open spec fn rem_spec(self, rhs: long2) -> long2 {
        long2(rem_i64(self.0, rhs.0), rem_i64(self.1, rhs.1))
    }
}

impl core::ops::Neg for long2 {
    type Output = long2;

    /// Zero minus every lane, wrapping around.
    fn neg(self) -> (r: long2) {
        long2(neg_i64(self.0), neg_i64(self.1))
    }
}

impl NegSpecImpl for long2 {
    open spec fn obeys_neg_spec() -> bool {
        true
    }

    open spec fn neg_req(self) -> bool {
        true
    }

    open spec fn neg_spec(self) -> long2 {
        long2(neg_i64(self.0), neg_i64(self.1))
    }
}

impl core::ops::Not for long2 {
    type Output = long2;

    /// Every lane with every bit flipped.
    fn not(self) -> (r: long2) {
        long2(not_i64(self.0), not_i64(self.1))
    }
}

impl NotSpecImpl for long2 {
    open spec fn obeys_not_spec() -> bool {
        true
    }

    open spec fn not_req(self) -> bool {
        true
    }

    open spec fn not_spec(self) -> long2 {
        long2(not_i64(self.0), not_i64(self.1))
    }
}

impl core::convert::From<isize> for long2 {
    /// The vector with `x`, wrapped to `i64`, in every lane.
    fn from(x: isize) -> (r: long2) {
        let v = isize_to_i64(x);
        long2(v, v)
    }
}

impl FromSpecImpl<isize> for long2 {
    open spec fn obeys_from_spec() -> bool {
        true
    }

    open spec fn from_spec(x: isize) -> long2 {
        long2(isize_to_i64(x), isize_to_i64(x))
    }
}

impl core::ops::Index<u32> for long2 {
    type Output = i64;

    /// Lane `i`, which is below 2.
    fn index(&self, i: u32) -> (r: &i64)
        ensures
            *r == self.lane(i as int),
    {
        match i {
            0 => &self.0,
            _ => &self.1,
        }
    }
}

impl vstd::std_specs::core::IndexSpecImpl<u32> for long2 {
    open spec fn index_req(&self, i: &u32) -> bool {
        *i < 2
    }
}

impl long2 {
    /// Lane `i`, counted from zero.
    pub open spec fn lane(self, i: int) -> i64
        recommends
            0 <= i < 2,
    {
        if i == 0 {
            self.0
        } else {
            self.1
        }
    }

    /// The vector of type `long2` with the bits of `x`, a value of a type that has as many bits,
    /// which is one with images of type `uchar16`.
    pub fn bitcast<U: Bitcast<Image = uchar16>>(x: U) -> (r: long2)
        ensures
            r == spec_bitcast::<U, long2>(x),
    {
        bitcast(x)
    }

    /// The vector with `x` in every lane.
    pub fn broadcast(x: i64) -> (r: long2)
        ensures
            r == long2(x, x),
    {
        long2(x, x)
    }

    /// Lane `i`, which is below 2.
    pub fn extract(self, i: u32) -> (r: i64)
        requires
            i < 2,
        ensures
            r == self.lane(i as int),
    {
        match i {
            0 => self.0,
            _ => self.1,
        }
    }

    /// The vector with `x` in lane `i`, which is below 2, and the other lanes unchanged.
    pub fn replace(self, i: u32, x: i64) -> (r: long2)
        requires
            i < 2,
        ensures
            forall|j: int| 0 <= j < 2 ==> #[trigger] r.lane(j) == (if j == i {
                x
            } else {
                self.lane(j)
            }),
    {
        match i {
            0 => long2(x, self.1),
            _ => long2(self.0, x),
        }
    }

    /// The mask that is all ones where the lanes of `x` and `y` are equal, and zero elsewhere.
    pub fn eq(x: long2, y: long2) -> (r: long2)
        ensures
            r == long2(eq_i64(x.0, y.0), eq_i64(x.1, y.1)),
    {
        long2(eq_i64(x.0, y.0), eq_i64(x.1, y.1))
    }

    /// The mask that is all ones where the lanes of `x` and `y` differ, and zero elsewhere.
    pub fn ne(x: long2, y: long2) -> (r: long2)
        ensures
            r == long2(ne_i64(x.0, y.0), ne_i64(x.1, y.1)),
    {
        long2(ne_i64(x.0, y.0), ne_i64(x.1, y.1))
    }

    /// The mask that is all ones where the lane of `x` is less than that of `y`, and zero
    /// elsewhere.
    pub fn lt(x: long2, y: long2) -> (r: long2)
        ensures
            r == long2(lt_i64(x.0, y.0), lt_i64(x.1, y.1)),
    {
        long2(lt_i64(x.0, y.0), lt_i64(x.1, y.1))
    }

    /// The mask that is all ones where the lane of `x` is at most that of `y`, and zero elsewhere.
    pub fn le(x: long2, y: long2) -> (r: long2)
        ensures
            r == long2(le_i64(x.0, y.0), le_i64(x.1, y.1)),
    {
        long2(le_i64(x.0, y.0), le_i64(x.1, y.1))
    }

    /// The mask that is all ones where the lane of `x` is greater than that of `y`, and zero
    /// elsewhere.
    pub fn gt(x: long2, y: long2) -> (r: long2)
        ensures
            r == long2(gt_i64(x.0, y.0), gt_i64(x.1, y.1)),
    {
        long2(gt_i64(x.0, y.0), gt_i64(x.1, y.1))
    }

    /// The mask that is all ones where the lane of `x` is at least that of `y`, and zero elsewhere.
    pub fn ge(x: long2, y: long2) -> (r: long2)
        ensures
            r == long2(ge_i64(x.0, y.0), ge_i64(x.1, y.1)),
    {
        long2(ge_i64(x.0, y.0), ge_i64(x.1, y.1))
    }

    /// `x * y + z` lane by lane, wrapping around.
    pub fn madd(x: long2, y: long2, z: long2) -> (r: long2)
        ensures
            r == long2(madd_i64(x.0, y.0, z.0), madd_i64(x.1, y.1, z.1)),
    {
        long2(madd_i64(x.0, y.0, z.0), madd_i64(x.1, y.1, z.1))
    }

    /// The magnitude of every lane; that of `i64::MIN` wraps around to `i64::MIN`.
    pub fn abs(x: long2) -> (r: long2)
        ensures
            r == x.spec_abs(),
    {
        long2(abs_i64(x.0), abs_i64(x.1))
    }

    /// The greater lane of `x` and `y`, lane by lane.
    pub fn max(x: long2, y: long2) -> (r: long2)
        ensures
            r == x.spec_max(y),
    {
        long2(max_i64(x.0, y.0), max_i64(x.1, y.1))
    }

    /// The smaller lane of `x` and `y`, lane by lane.
    pub fn min(x: long2, y: long2) -> (r: long2)
        ensures
            r == x.spec_min(y),
    {
        long2(min_i64(x.0, y.0), min_i64(x.1, y.1))
    }

    /// Every lane of `x` raised to at least the lane of `lo`, then lowered to at most that of `hi`.
    pub fn clamp(x: long2, lo: long2, hi: long2) -> (r: long2)
        ensures
            r == x.spec_clamp(lo, hi),
    {
        long2(clamp_i64(x.0, lo.0, hi.0), clamp_i64(x.1, lo.1, hi.1))
    }

    /// The sum of the lanes, wrapping around.
    pub fn reduce_add(x: long2) -> (r: i64)
        ensures
            r == x.spec_reduce_add(),
    {
        add_i64(x.0, x.1)
    }

    /// The smallest lane.
    pub fn reduce_min(x: long2) -> (r: i64)
        ensures
            r == x.spec_reduce_min(),
            r <= x.0 && r <= x.1,
            r == x.0 || r == x.1,
    {
        min_i64(x.0, x.1)
    }

    /// The greatest lane.
    pub fn reduce_max(x: long2) -> (r: i64)
        ensures
            r == x.spec_reduce_max(),
            r >= x.0 && r >= x.1,
            r == x.0 || r == x.1,
    {
        max_i64(x.0, x.1)
    }

    /// Every lane as `i8`: its low 8 bits, read as `i8`.
    pub fn to_char(x: long2) -> (r: char2)
        ensures
            r == char2(i64_to_i8(x.0), i64_to_i8(x.1)),
    {
        char2(i64_to_i8(x.0), i64_to_i8(x.1))
    }

    /// Every lane as `i8`, saturating: a lane outside the range of `i8` gives the nearest bound.
    pub fn to_char_sat(x: long2) -> (r: char2)
        ensures
            r == x.spec_to_char_sat(),
    {
        char2(i64_to_i8_sat(x.0), i64_to_i8_sat(x.1))
    }

    /// Every lane as `u8`: its low 8 bits, read as `u8`.
    pub fn to_uchar(x: long2) -> (r: uchar2)
        ensures
            r == uchar2(i64_to_u8(x.0), i64_to_u8(x.1)),
    {
        uchar2(i64_to_u8(x.0), i64_to_u8(x.1))
    }

    /// Every lane as `u8`, saturating: a lane outside the range of `u8` gives the nearest bound.
    pub fn to_uchar_sat(x: long2) -> (r: uchar2)
        ensures
            r == x.spec_to_uchar_sat(),
    {
        uchar2(i64_to_u8_sat(x.0), i64_to_u8_sat(x.1))
    }

    /// Every lane as `i16`: its low 16 bits, read as `i16`.
    pub fn to_short(x: long2) -> (r: short2)
        ensures
            r == short2(i64_to_i16(x.0), i64_to_i16(x.1)),
    {
        short2(i64_to_i16(x.0), i64_to_i16(x.1))
    }

    /// Every lane as `i16`, saturating: a lane outside the range of `i16` gives the nearest bound.
    pub fn to_short_sat(x: long2) -> (r: short2)
        ensures
            r == x.spec_to_short_sat(),
    {
        short2(i64_to_i16_sat(x.0), i64_to_i16_sat(x.1))
    }

    /// Every lane as `u16`: its low 16 bits, read as `u16`.
    pub fn to_ushort(x: long2) -> (r: ushort2)
        ensures
            r == ushort2(i64_to_u16(x.0), i64_to_u16(x.1)),
    {
        ushort2(i64_to_u16(x.0), i64_to_u16(x.1))
    }

    /// Every lane as `u16`, saturating: a lane outside the range of `u16` gives the nearest bound.
    pub fn to_ushort_sat(x: long2) -> (r: ushort2)
        ensures
            r == x.spec_to_ushort_sat(),
    {
        ushort2(i64_to_u16_sat(x.0), i64_to_u16_sat(x.1))
    }

    /// Every lane as `i32`: its low 32 bits, read as `i32`.
    pub fn to_int(x: long2) -> (r: int2)
        ensures
            r == int2(i64_to_i32(x.0), i64_to_i32(x.1)),
    {
        int2(i64_to_i32(x.0), i64_to_i32(x.1))
    }

    /// Every lane as `i32`, saturating: a lane outside the range of `i32` gives the nearest bound.
    pub fn to_int_sat(x: long2) -> (r: int2)
        ensures
            r == x.spec_to_int_sat(),
    {
        int2(i64_to_i32_sat(x.0), i64_to_i32_sat(x.1))
    }

    /// Every lane as `u32`: its low 32 bits, read as `u32`.
    pub fn to_uint(x: long2) -> (r: uint2)
        ensures
            r == uint2(i64_to_u32(x.0), i64_to_u32(x.1)),
    {
        uint2(i64_to_u32(x.0), i64_to_u32(x.1))
    }

    /// Every lane as `u32`, saturating: a lane outside the range of `u32` gives the nearest bound.
    pub fn to_uint_sat(x: long2) -> (r: uint2)
        ensures
            r == x.spec_to_uint_sat(),
    {
        uint2(i64_to_u32_sat(x.0), i64_to_u32_sat(x.1))
    }

    /// The vector itself: its lanes are `i64` already.
    pub fn to_long(x: long2) -> (r: long2)
        ensures
            r == x,
    {
        x
    }

    /// The vector itself: its lanes are `i64` already, and nothing saturates.
    pub fn to_long_sat(x: long2) -> (r: long2)
        ensures
            r == x.spec_to_long_sat(),
    {
        x
    }

    /// Every lane as `u64`: the same bits, read as `u64`.
    pub fn to_ulong(x: long2) -> (r: ulong2)
        ensures
            r == ulong2(i64_to_u64(x.0), i64_to_u64(x.1)),
    {
        ulong2(i64_to_u64(x.0), i64_to_u64(x.1))
    }

    /// Every lane as `u64`, saturating: a lane outside the range of `u64` gives the nearest bound.
    pub fn to_ulong_sat(x: long2) -> (r: ulong2)
        ensures
            r == x.spec_to_ulong_sat(),
    {
        ulong2(i64_to_u64_sat(x.0), i64_to_u64_sat(x.1))
    }

    /// The low half: lane 0.
    pub fn lo(self) -> (r: i64)
        ensures
            r == self.0,
    {
        self.0
    }

    /// The high half: lane 1.
    pub fn hi(self) -> (r: i64)
        ensures
            r == self.1,
    {
        self.1
    }

    /// The odd lane: lane 1.
    pub fn odd(self) -> (r: i64)
        ensures
            r == self.1,
    {
        self.1
    }

    /// The even lane: lane 0.
    pub fn even(self) -> (r: i64)
        ensures
            r == self.0,
    {
        self.0
    }

    /// The vector of `f` applied to every lane. `f` accepts every lane.
    pub fn map_unary<F: Fn(i64) -> i64>(self, f: F) -> (r: long2)
        requires
            call_requires(f, (self.0,)),
            call_requires(f, (self.1,)),
        ensures
            call_ensures(f, (self.0,), r.0),
            call_ensures(f, (self.1,), r.1),
    {
        long2(f(self.0), f(self.1))
    }

    /// The vector of `f` applied to the lanes of the two vectors, lane by lane. `f` accepts every
    /// such pair of lanes.
    pub fn map_binary<F: Fn(i64, i64) -> i64>(self, other: long2, f: F) -> (r: long2)
        requires
            call_requires(f, (self.0, other.0)),
            call_requires(f, (self.1, other.1)),
        ensures
            call_ensures(f, (self.0, other.0), r.0),
            call_ensures(f, (self.1, other.1), r.1),
    {
        long2(f(self.0, other.0), f(self.1, other.1))
    }

    /// The lanes folded by `f`, from lane 0 upward: `f` is applied to lane 1 and lane 0, then to
    /// each further lane and what the lanes below it gave. `f` accepts every pair of scalars.
    pub fn reduce<F: Fn(i64, i64) -> i64>(self, f: F) -> (r: i64)
        requires
            forall|a: i64, b: i64| call_requires(f, (a, b)),
        ensures
            call_ensures(f, (self.1, self.0), r),
    {
        f(self.1, self.0)
    }

    /// Addition commutes.
    pub proof fn lemma_add_commutes(x: long2, y: long2)
        ensures
            AddSpec::add_spec(x, y) == AddSpec::add_spec(y, x),
    {
        lemma_arith_i64(x.0, y.0, 0);
        lemma_arith_i64(x.1, y.1, 0);
    }

    /// Addition associates, wrap-around or not.
    pub proof fn lemma_add_associates(x: long2, y: long2, z: long2)
        ensures
            AddSpec::add_spec(AddSpec::add_spec(x, y), z)
                == AddSpec::add_spec(x, AddSpec::add_spec(y, z)),
    {
        lemma_arith_i64(x.0, y.0, z.0);
        lemma_arith_i64(x.1, y.1, z.1);
    }

    /// Swapping the operands of a subtraction negates the difference.
    pub proof fn lemma_sub_swaps(x: long2, y: long2)
        ensures
            SubSpec::sub_spec(x, y) == NegSpec::neg_spec(SubSpec::sub_spec(y, x)),
    {
        lemma_arith_i64(x.0, y.0, 0);
        lemma_arith_i64(x.1, y.1, 0);
    }

    /// The magnitude of a magnitude is that magnitude, and the magnitude of a lane other than
    /// `i64::MIN` is not negative.
    pub proof fn lemma_abs(x: long2)
        ensures
            x.spec_abs().spec_abs() == x.spec_abs(),
            forall|i: int|
                0 <= i < 2 && x.lane(i) != i64::MIN ==> #[trigger] x.spec_abs().lane(i) >= 0,
            forall|i: int|
                0 <= i < 2 && x.lane(i) == i64::MIN ==> #[trigger] x.spec_abs().lane(i) == i64::MIN,
    {
        lemma_abs_i64(x.0);
        lemma_abs_i64(x.1);
    }

    /// Flipping every bit of a lane gives minus one minus the lane.
    pub proof fn lemma_not(x: long2)
        ensures
            forall|i: int| 0 <= i < 2 ==> #[trigger] NotSpec::not_spec(x).lane(i) == -1 - x.lane(i),
    {
        lemma_not_i64(x.0);
        lemma_not_i64(x.1);
    }

    /// The lanes of a vector with `k` in every lane add up to 2 times `k`, wrapped around.
    pub proof fn lemma_reduce_add_broadcast(k: i64)
        ensures
            long2(k, k).spec_reduce_add() == wrap_i64(2 * k),
    {
    }

    /// Saturating conversion to `i8` gives, lane by lane, the lane itself where `i8` holds it and
    /// the nearest bound of `i8` where it does not.
    pub proof fn lemma_to_char_sat(x: long2)
        ensures
            forall|i: int|
                0 <= i < 2 ==> #[trigger] x.spec_to_char_sat().lane(i) == sat_i8(x.lane(i) as int),
    {
    }

    /// Saturating conversion to `u8` gives, lane by lane, the lane itself where `u8` holds it and
    /// the nearest bound of `u8` where it does not.
    pub proof fn lemma_to_uchar_sat(x: long2)
        ensures
            forall|i: int|
                0 <= i < 2 ==> #[trigger] x.spec_to_uchar_sat().lane(i) == sat_u8(x.lane(i) as int),
    {
    }

    /// Saturating conversion to `i16` gives, lane by lane, the lane itself where `i16` holds it and
    /// the nearest bound of `i16` where it does not.
    pub proof fn lemma_to_short_sat(x: long2)
        ensures
            forall|i: int|
                0 <= i < 2 ==>
                    #[trigger] x.spec_to_short_sat().lane(i) == sat_i16(x.lane(i) as int),
    {
    }

    /// Saturating conversion to `u16` gives, lane by lane, the lane itself where `u16` holds it and
    /// the nearest bound of `u16` where it does not.
    pub proof fn lemma_to_ushort_sat(x: long2)
        ensures
            forall|i: int|
                0 <= i < 2 ==>
                    #[trigger] x.spec_to_ushort_sat().lane(i) == sat_u16(x.lane(i) as int),
    {
    }

    /// Saturating conversion to `i32` gives, lane by lane, the lane itself where `i32` holds it and
    /// the nearest bound of `i32` where it does not.
    pub proof fn lemma_to_int_sat(x: long2)
        ensures
            forall|i: int|
                0 <= i < 2 ==> #[trigger] x.spec_to_int_sat().lane(i) == sat_i32(x.lane(i) as int),
    {
    }

    /// Saturating conversion to `u32` gives, lane by lane, the lane itself where `u32` holds it and
    /// the nearest bound of `u32` where it does not.
    pub proof fn lemma_to_uint_sat(x: long2)
        ensures
            forall|i: int|
                0 <= i < 2 ==> #[trigger] x.spec_to_uint_sat().lane(i) == sat_u32(x.lane(i) as int),
    {
    }

    /// Saturating conversion to `u64` gives, lane by lane, the lane itself where `u64` holds it and
    /// the nearest bound of `u64` where it does not.
    pub proof fn lemma_to_ulong_sat(x: long2)
        ensures
            forall|i: int|
                0 <= i < 2 ==>
                    #[trigger] x.spec_to_ulong_sat().lane(i) == sat_u64(x.lane(i) as int),
    {
    }
}

impl Vector for long2 {
    type Scalar = i64;

    type Boolean = long2;

    type CharVector = char2;

    type ShortVector = short2;

    type IntVector = int2;

    type LongVector = long2;

    type UCharVector = uchar2;

    type UShortVector = ushort2;

    type UIntVector = uint2;

    type ULongVector = ulong2;

    type FloatVector = float2;

    type DoubleVector = double2;

    open spec fn spec_abs(self) -> long2 {
        long2(abs_i64(self.0), abs_i64(self.1))
    }

    open spec fn spec_max(self, other: long2) -> long2 {
        long2(max_i64(self.0, other.0), max_i64(self.1, other.1))
    }

    open spec fn spec_min(self, other: long2) -> long2 {
        long2(min_i64(self.0, other.0), min_i64(self.1, other.1))
    }

    open spec fn spec_clamp(self, lo: long2, hi: long2) -> long2 {
        long2(clamp_i64(self.0, lo.0, hi.0), clamp_i64(self.1, lo.1, hi.1))
    }

    open spec fn spec_reduce_add(self) -> i64 {
        wrap_i64(self.0 + self.1)
    }

    open spec fn spec_reduce_min(self) -> i64 {
        min_i64(self.0, self.1)
    }

    open spec fn spec_reduce_max(self) -> i64 {
        max_i64(self.0, self.1)
    }

    open spec fn spec_to_char_sat(self) -> char2 {
        char2(i64_to_i8_sat(self.0), i64_to_i8_sat(self.1))
    }

    open spec fn spec_to_uchar_sat(self) -> uchar2 {
        uchar2(i64_to_u8_sat(self.0), i64_to_u8_sat(self.1))
    }

    open spec fn spec_to_short_sat(self) -> short2 {
        short2(i64_to_i16_sat(self.0), i64_to_i16_sat(self.1))
    }

    open spec fn spec_to_ushort_sat(self) -> ushort2 {
        ushort2(i64_to_u16_sat(self.0), i64_to_u16_sat(self.1))
    }

    open spec fn spec_to_int_sat(self) -> int2 {
        int2(i64_to_i32_sat(self.0), i64_to_i32_sat(self.1))
    }

    open spec fn spec_to_uint_sat(self) -> uint2 {
        uint2(i64_to_u32_sat(self.0), i64_to_u32_sat(self.1))
    }

    open spec fn spec_to_long_sat(self) -> long2 {
        self
    }

    open spec fn spec_to_ulong_sat(self) -> ulong2 {
        ulong2(i64_to_u64_sat(self.0), i64_to_u64_sat(self.1))
    }

    fn abs(self) -> (r: long2) {
        long2::abs(self)
    }

    fn max(self, other: long2) -> (r: long2) {
        long2::max(self, other)
    }

    fn min(self, other: long2) -> (r: long2) {
        long2::min(self, other)
    }

    fn clamp(self, lo: long2, hi: long2) -> (r: long2) {
        long2::clamp(self, lo, hi)
    }

    fn reduce_add(self) -> (r: i64) {
        long2::reduce_add(self)
    }

    fn reduce_min(self) -> (r: i64) {
        long2::reduce_min(self)
    }

    fn reduce_max(self) -> (r: i64) {
        long2::reduce_max(self)
    }

    fn to_char_sat(self) -> (r: char2) {
        long2::to_char_sat(self)
    }

    fn to_uchar_sat(self) -> (r: uchar2) {
        long2::to_uchar_sat(self)
    }

    fn to_short_sat(self) -> (r: short2) {
        long2::to_short_sat(self)
    }

    fn to_ushort_sat(self) -> (r: ushort2) {
        long2::to_ushort_sat(self)
    }

    fn to_int_sat(self) -> (r: int2) {
        long2::to_int_sat(self)
    }

    fn to_uint_sat(self) -> (r: uint2) {
        long2::to_uint_sat(self)
    }

    fn to_long_sat(self) -> (r: long2) {
        long2::to_long_sat(self)
    }

    fn to_ulong_sat(self) -> (r: ulong2) {
        long2::to_ulong_sat(self)
    }
}

impl Integer for long2 {
    open spec fn spec_reduce_and(self) -> i64 {
        self.0 & self.1
    }

    open spec fn spec_reduce_or(self) -> i64 {
        self.0 | self.1
    }

    open spec fn spec_reduce_xor(self) -> i64 {
        self.0 ^ self.1
    }

    open spec fn spec_all(self) -> bool {
        truth_i64(self.0) && truth_i64(self.1)
    }

    open spec fn spec_any(self) -> bool {
        truth_i64(self.0) || truth_i64(self.1)
    }

    fn reduce_and(self) -> (r: i64) {
        self.0 & self.1
    }

    fn reduce_or(self) -> (r: i64) {
        self.0 | self.1
    }

    fn reduce_xor(self) -> (r: i64) {
        self.0 ^ self.1
    }

    fn all(self) -> (r: bool) {
        proof {
            lemma_bits_i64(self.0, self.1, 0, 0);
        }
        truth_i64(self.reduce_and())
    }

    fn any(self) -> (r: bool) {
        proof {
            lemma_bits_i64(self.0, self.1, 0, 0);
        }
        truth_i64(self.reduce_or())
    }
}

impl Dot for long2 {
    type DotProduct = i64;

    open spec fn spec_dot(self, other: long2) -> i64 {
        wrap_i64(self.0 * other.0 + self.1 * other.1)
    }

    fn dot(self, other: long2) -> (r: i64) {
        let s = mul_i64(self.0, other.0);
        let ghost mut t: int = self.0 * other.0;
        proof {
            lemma_wrap_i64_sum(t, self.1 * other.1);
            t = t + self.1 * other.1;
        }
        let s = madd_i64(self.1, other.1, s);
        s
    }
}

impl Select<long2> for long2 {
    open spec fn spec_select(self, a: long2, b: long2) -> long2 {
        long2(select_i64(self.0, a.0, b.0), select_i64(self.1, a.1, b.1))
    }

    open spec fn spec_bitselect(self, a: long2, b: long2) -> long2 {
        long2(bitselect_i64(self.0, a.0, b.0), bitselect_i64(self.1, a.1, b.1))
    }

    fn select(self, a: long2, b: long2) -> (r: long2) {
        long2(select_i64(self.0, a.0, b.0), select_i64(self.1, a.1, b.1))
    }

    fn bitselect(self, a: long2, b: long2) -> (r: long2) {
        long2(bitselect_i64(self.0, a.0, b.0), bitselect_i64(self.1, a.1, b.1))
    }
}

impl Select<ulong2> for long2 {
    open spec fn spec_select(self, a: ulong2, b: ulong2) -> ulong2 {
        ulong2(select_u64(self.0, a.0, b.0), select_u64(self.1, a.1, b.1))
    }

    open spec fn spec_bitselect(self, a: ulong2, b: ulong2) -> ulong2 {
        ulong2(bitselect_u64(self.0, a.0, b.0), bitselect_u64(self.1, a.1, b.1))
    }

    fn select(self, a: ulong2, b: ulong2) -> (r: ulong2) {
        ulong2(select_u64(self.0, a.0, b.0), select_u64(self.1, a.1, b.1))
    }

    fn bitselect(self, a: ulong2, b: ulong2) -> (r: ulong2) {
        ulong2(bitselect_u64(self.0, a.0, b.0), bitselect_u64(self.1, a.1, b.1))
    }
}

impl Select<double2> for long2 {
    open spec fn spec_select(self, a: double2, b: double2) -> double2 {
        double2(select_u64(self.0, a.0, b.0), select_u64(self.1, a.1, b.1))
    }

    open spec fn spec_bitselect(self, a: double2, b: double2) -> double2 {
        double2(bitselect_u64(self.0, a.0, b.0), bitselect_u64(self.1, a.1, b.1))
    }

    fn select(self, a: double2, b: double2) -> (r: double2) {
        double2(select_u64(self.0, a.0, b.0), select_u64(self.1, a.1, b.1))
    }

    fn bitselect(self, a: double2, b: double2) -> (r: double2) {
        double2(bitselect_u64(self.0, a.0, b.0), bitselect_u64(self.1, a.1, b.1))
    }
}

impl long2 {
    /// A blend of two `long2` gives the lane of `b` where the mask is all ones and the lane of `a`
    /// where it is zero, whatever the other lanes hold.
    pub proof fn lemma_bitselect_long2(m: long2, a: long2, b: long2)
        ensures
            forall|i: int|
                0 <= i < 2 && m.lane(i) == -1 ==>
                    #[trigger] m.spec_bitselect(a, b).lane(i) == b.lane(i),
            forall|i: int|
                0 <= i < 2 && m.lane(i) == 0 ==>
                    #[trigger] m.spec_bitselect(a, b).lane(i) == a.lane(i),
    {
        lemma_blend_i64(m.0, a.0, b.0);
        lemma_blend_i64(m.1, a.1, b.1);
    }

    /// A choice between two `long2` goes by the sign bit of the mask alone: it gives the lane of
    /// `b` where the mask is negative and the lane of `a` elsewhere, as the blend does under the
    /// mask whose every lane has its sign spread over all its bits.
    pub proof fn lemma_select_long2(m: long2, a: long2, b: long2)
        ensures
            m.spec_select(a, b) == ShrSpec::shr_spec(m, 63i64).spec_bitselect(a, b),
            forall|i: int|
                0 <= i < 2 && m.lane(i) < 0 ==> #[trigger] m.spec_select(a, b).lane(i) == b.lane(i),
            forall|i: int|
                0 <= i < 2 && m.lane(i) >= 0 ==>
                    #[trigger] m.spec_select(a, b).lane(i) == a.lane(i),
    {
        lemma_blend_i64(m.0, a.0, b.0);
        lemma_blend_i64(m.1, a.1, b.1);
    }

    /// A blend of two `ulong2` gives the lane of `b` where the mask is all ones and the lane of `a`
    /// where it is zero, whatever the other lanes hold.
    pub proof fn lemma_bitselect_ulong2(m: long2, a: ulong2, b: ulong2)
        ensures
            forall|i: int|
                0 <= i < 2 && m.lane(i) == -1 ==>
                    #[trigger] m.spec_bitselect(a, b).lane(i) == b.lane(i),
            forall|i: int|
                0 <= i < 2 && m.lane(i) == 0 ==>
                    #[trigger] m.spec_bitselect(a, b).lane(i) == a.lane(i),
    {
        lemma_blend_u64(m.0, a.0, b.0);
        lemma_blend_u64(m.1, a.1, b.1);
    }

    /// A choice between two `ulong2` goes by the sign bit of the mask alone: it gives the lane of
    /// `b` where the mask is negative and the lane of `a` elsewhere, as the blend does under the
    /// mask whose every lane has its sign spread over all its bits.
    pub proof fn lemma_select_ulong2(m: long2, a: ulong2, b: ulong2)
        ensures
            m.spec_select(a, b) == ShrSpec::shr_spec(m, 63i64).spec_bitselect(a, b),
            forall|i: int|
                0 <= i < 2 && m.lane(i) < 0 ==> #[trigger] m.spec_select(a, b).lane(i) == b.lane(i),
            forall|i: int|
                0 <= i < 2 && m.lane(i) >= 0 ==>
                    #[trigger] m.spec_select(a, b).lane(i) == a.lane(i),
    {
        lemma_blend_u64(m.0, a.0, b.0);
        lemma_blend_u64(m.1, a.1, b.1);
    }

    /// A blend of two `double2` gives the lane of `b` where the mask is all ones and the lane of
    /// `a` where it is zero, whatever the other lanes hold.
    pub proof fn lemma_bitselect_double2(m: long2, a: double2, b: double2)
        ensures
            forall|i: int|
                0 <= i < 2 && m.lane(i) == -1 ==>
                    #[trigger] m.spec_bitselect(a, b).lane(i) == b.lane(i),
            forall|i: int|
                0 <= i < 2 && m.lane(i) == 0 ==>
                    #[trigger] m.spec_bitselect(a, b).lane(i) == a.lane(i),
    {
        lemma_blend_u64(m.0, a.0, b.0);
        lemma_blend_u64(m.1, a.1, b.1);
    }

    /// A choice between two `double2` goes by the sign bit of the mask alone: it gives the lane of
    /// `b` where the mask is negative and the lane of `a` elsewhere, as the blend does under the
    /// mask whose every lane has its sign spread over all its bits.
    pub proof fn lemma_select_double2(m: long2, a: double2, b: double2)
        ensures
            m.spec_select(a, b) == ShrSpec::shr_spec(m, 63i64).spec_bitselect(a, b),
            forall|i: int|
                0 <= i < 2 && m.lane(i) < 0 ==> #[trigger] m.spec_select(a, b).lane(i) == b.lane(i),
            forall|i: int|
                0 <= i < 2 && m.lane(i) >= 0 ==>
                    #[trigger] m.spec_select(a, b).lane(i) == a.lane(i),
    {
        lemma_blend_u64(m.0, a.0, b.0);
        lemma_blend_u64(m.1, a.1, b.1);
    }
}

impl Bitcast for long2 {
    type Image = uchar16;

    open spec fn spec_image(self) -> uchar16 {
        let d0 = split_u64_u8(i64_to_u64(self.0));
        let d1 = split_u64_u8(i64_to_u64(self.1));
        uchar16(
            d0.0, d0.1, d0.2, d0.3, d0.4, d0.5, d0.6, d0.7, d1.0, d1.1, d1.2, d1.3, d1.4, d1.5,
            d1.6, d1.7,
        )
    }

    open spec fn spec_from_image(image: uchar16) -> long2 {
        long2(
            u64_to_i64(join_u8_u64(image.0, image.1, image.2, image.3, image.4, image.5, image.6, image.7)),
            u64_to_i64(join_u8_u64(image.8, image.9, image.10, image.11, image.12, image.13, image.14, image.15)),
        )
    }

    open spec fn spec_fills() -> bool {
        true
    }

    fn image(self) -> (r: uchar16) {
        let d0 = split_u64_u8(i64_to_u64(self.0));
        let d1 = split_u64_u8(i64_to_u64(self.1));
        uchar16(
            d0.0, d0.1, d0.2, d0.3, d0.4, d0.5, d0.6, d0.7, d1.0, d1.1, d1.2, d1.3, d1.4, d1.5,
            d1.6, d1.7,
        )
    }

    fn from_image(image: uchar16) -> (r: long2) {
        long2(
            u64_to_i64(join_u8_u64(image.0, image.1, image.2, image.3, image.4, image.5, image.6, image.7)),
            u64_to_i64(join_u8_u64(image.8, image.9, image.10, image.11, image.12, image.13, image.14, image.15)),
        )
    }

    proof fn lemma_image(x: long2) {
        lemma_recast_i64(x.0);
        lemma_regroup_u8_u64(i64_to_u64(x.0), 0, 0, 0, 0, 0, 0, 0, 0);
        lemma_recast_i64(x.1);
        lemma_regroup_u8_u64(i64_to_u64(x.1), 0, 0, 0, 0, 0, 0, 0, 0);
    }

    proof fn lemma_from_image(image: uchar16) {
        lemma_regroup_u8_u64(0, image.0, image.1, image.2, image.3, image.4, image.5, image.6, image.7);
        lemma_recast_u64(join_u8_u64(image.0, image.1, image.2, image.3, image.4, image.5, image.6, image.7));
        lemma_regroup_u8_u64(0, image.8, image.9, image.10, image.11, image.12, image.13, image.14, image.15);
        lemma_recast_u64(join_u8_u64(image.8, image.9, image.10, image.11, image.12, image.13, image.14, image.15));
    }
}

impl long2 {
    /// Read as `ulong2`, which has lanes of the same width, a vector keeps the bits of every lane;
    /// read as `long2` again, it is what it was.
    pub proof fn lemma_bitcast_ulong2(x: long2)
        ensures
            spec_bitcast::<long2, ulong2>(x) == ulong2(i64_to_u64(x.0), i64_to_u64(x.1)),
            spec_bitcast::<ulong2, long2>(spec_bitcast::<long2, ulong2>(x)) == x,
    {
        lemma_recast_i64(x.0);
        lemma_regroup_u8_u64(i64_to_u64(x.0), 0, 0, 0, 0, 0, 0, 0, 0);
        lemma_recast_i64(x.1);
        lemma_regroup_u8_u64(i64_to_u64(x.1), 0, 0, 0, 0, 0, 0, 0, 0);
    }

    /// Read as `double2`, which has lanes of the same width, a vector keeps the bits of every lane;
    /// read as `long2` again, it is what it was.
    pub proof fn lemma_bitcast_double2(x: long2)
        ensures
            spec_bitcast::<long2, double2>(x) == double2(i64_to_u64(x.0), i64_to_u64(x.1)),
            spec_bitcast::<double2, long2>(spec_bitcast::<long2, double2>(x)) == x,
    {
        lemma_recast_i64(x.0);
        lemma_regroup_u8_u64(i64_to_u64(x.0), 0, 0, 0, 0, 0, 0, 0, 0);
        lemma_recast_i64(x.1);
        lemma_regroup_u8_u64(i64_to_u64(x.1), 0, 0, 0, 0, 0, 0, 0, 0);
    }
}

} // verus!
