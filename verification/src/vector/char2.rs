//! `char2`: two lanes of `i8`.

use crate::scalar::lane_i8::{
    abs_i8, add_i8, bitselect_i8, clamp_i8, div_i8, eq_i8, ge_i8, gt_i8, i8_to_i16, i8_to_i16_sat,
    i8_to_i32, i8_to_i32_sat, i8_to_i64, i8_to_i64_sat, i8_to_u16, i8_to_u16_sat, i8_to_u32,
    i8_to_u32_sat, i8_to_u64, i8_to_u64_sat, i8_to_u8, i8_to_u8_sat, isize_to_i8, le_i8,
    lemma_abs_i8, lemma_arith_i8, lemma_bits_i8, lemma_blend_i8, lemma_not_i8, lemma_recast_i8,
    lt_i8, madd_i8, max_i8, min_i8, mul_i8, ne_i8, neg_i8, not_i8, rem_i8, select_i8, shl_i8,
    shr_i8, sub_i8, truth_i8,
};
use crate::scalar::lane_u8::{bitselect_u8, lemma_blend_u8, lemma_recast_u8, select_u8, u8_to_i8};
use crate::scalar::model::{
    lemma_wrap_i8_sum, sat_i16, sat_i32, sat_i64, sat_u16, sat_u32, sat_u64, sat_u8, wrap_i8,
};
use crate::traits::{Bitcast, Dot, Integer, Select, Vector, bitcast, spec_bitcast};
use crate::vector::double2::double2;
use crate::vector::float2::float2;
use crate::vector::int2::int2;
use crate::vector::long2::long2;
use crate::vector::short2::short2;
use crate::vector::uchar2::uchar2;
use crate::vector::uint2::uint2;
use crate::vector::ulong2::ulong2;
use crate::vector::ushort2::ushort2;
use vstd::prelude::*;
use vstd::std_specs::convert::FromSpecImpl;
use vstd::std_specs::ops::{
    AddSpec, AddSpecImpl, BitAndSpecImpl, BitOrSpecImpl, BitXorSpecImpl, DivSpecImpl, MulSpecImpl,
    NegSpec, NegSpecImpl, NotSpec, NotSpecImpl, RemSpecImpl, ShlSpecImpl, ShrSpec, ShrSpecImpl,
    SubSpec, SubSpecImpl,
};

verus! {

/// Two lanes of `i8`.
#[derive(Copy, Clone, Debug, PartialEq, Eq, Structural)]
pub struct char2(pub i8, pub i8);

impl core::ops::Add for char2 {
    type Output = char2;

    /// The lane-wise sum of the two vectors, wrapping around.
    fn add(self, rhs: char2) -> (r: char2) {
        char2(add_i8(self.0, rhs.0), add_i8(self.1, rhs.1))
    }
}

impl AddSpecImpl for char2 {
    open spec fn obeys_add_spec() -> bool {
        true
    }

    open spec fn add_req(self, rhs: char2) -> bool {
        true
    }

    open spec fn add_spec(self, rhs: char2) -> char2 {
        char2(add_i8(self.0, rhs.0), add_i8(self.1, rhs.1))
    }
}

impl core::ops::Add<i8> for char2 {
    type Output = char2;

    /// The sum of every lane and the scalar, wrapping around.
    fn add(self, rhs: i8) -> (r: char2) {
        char2(add_i8(self.0, rhs), add_i8(self.1, rhs))
    }
}

impl AddSpecImpl<i8> for char2 {
    open spec fn obeys_add_spec() -> bool {
        true
    }

    open spec fn add_req(self, rhs: i8) -> bool {
        true
    }

    open spec fn add_spec(self, rhs: i8) -> char2 {
        char2(add_i8(self.0, rhs), add_i8(self.1, rhs))
    }
}

impl core::ops::Add<char2> for i8 {
    type Output = char2;

    /// The sum of the scalar and every lane, wrapping around.
    fn add(self, rhs: char2) -> (r: char2) {
        char2(add_i8(self, rhs.0), add_i8(self, rhs.1))
    }
}

impl AddSpecImpl<char2> for i8 {
    open spec fn obeys_add_spec() -> bool {
        true
    }

    open spec fn add_req(self, rhs: char2) -> bool {
        true
    }

    open spec fn add_spec(self, rhs: char2) -> char2 {
        char2(add_i8(self, rhs.0), add_i8(self, rhs.1))
    }
}

impl core::ops::Sub for char2 {
    type Output = char2;

    /// The lane-wise difference of the two vectors, wrapping around.
    fn sub(self, rhs: char2) -> (r: char2) {
        char2(sub_i8(self.0, rhs.0), sub_i8(self.1, rhs.1))
    }
}

impl SubSpecImpl for char2 {
    open spec fn obeys_sub_spec() -> bool {
        true
    }

    open spec fn sub_req(self, rhs: char2) -> bool {
        true
    }

    open spec fn sub_spec(self, rhs: char2) -> char2 {
        char2(sub_i8(self.0, rhs.0), sub_i8(self.1, rhs.1))
    }
}

impl core::ops::Sub<i8> for char2 {
    type Output = char2;

    /// The difference of every lane and the scalar, wrapping around.
    fn sub(self, rhs: i8) -> (r: char2) {
        char2(sub_i8(self.0, rhs), sub_i8(self.1, rhs))
    }
}

impl SubSpecImpl<i8> for char2 {
    open spec fn obeys_sub_spec() -> bool {
        true
    }

    open spec fn sub_req(self, rhs: i8) -> bool {
        true
    }

    open spec fn sub_spec(self, rhs: i8) -> char2 {
        char2(sub_i8(self.0, rhs), sub_i8(self.1, rhs))
    }
}

impl core::ops::Sub<char2> for i8 {
    type Output = char2;

    /// The difference of the scalar and every lane, wrapping around.
    fn sub(self, rhs: char2) -> (r: char2) {
        char2(sub_i8(self, rhs.0), sub_i8(self, rhs.1))
    }
}

impl SubSpecImpl<char2> for i8 {
    open spec fn obeys_sub_spec() -> bool {
        true
    }

    open spec fn sub_req(self, rhs: char2) -> bool {
        true
    }

    open spec fn sub_spec(self, rhs: char2) -> char2 {
        char2(sub_i8(self, rhs.0), sub_i8(self, rhs.1))
    }
}

impl core::ops::Mul for char2 {
    type Output = char2;

    /// The lane-wise product of the two vectors, wrapping around.
    fn mul(self, rhs: char2) -> (r: char2) {
        char2(mul_i8(self.0, rhs.0), mul_i8(self.1, rhs.1))
    }
}

impl MulSpecImpl for char2 {
    open spec fn obeys_mul_spec() -> bool {
        true
    }

    open spec fn mul_req(self, rhs: char2) -> bool {
        true
    }

    open spec fn mul_spec(self, rhs: char2) -> char2 {
        char2(mul_i8(self.0, rhs.0), mul_i8(self.1, rhs.1))
    }
}

impl core::ops::Mul<i8> for char2 {
    type Output = char2;

    /// The product of every lane and the scalar, wrapping around.
    fn mul(self, rhs: i8) -> (r: char2) {
        char2(mul_i8(self.0, rhs), mul_i8(self.1, rhs))
    }
}

impl MulSpecImpl<i8> for char2 {
    open spec fn obeys_mul_spec() -> bool {
        true
    }

    open spec fn mul_req(self, rhs: i8) -> bool {
        true
    }

    open spec fn mul_spec(self, rhs: i8) -> char2 {
        char2(mul_i8(self.0, rhs), mul_i8(self.1, rhs))
    }
}

impl core::ops::Mul<char2> for i8 {
    type Output = char2;

    /// The product of the scalar and every lane, wrapping around.
    fn mul(self, rhs: char2) -> (r: char2) {
        char2(mul_i8(self, rhs.0), mul_i8(self, rhs.1))
    }
}

impl MulSpecImpl<char2> for i8 {
    open spec fn obeys_mul_spec() -> bool {
        true
    }

    open spec fn mul_req(self, rhs: char2) -> bool {
        true
    }

    open spec fn mul_spec(self, rhs: char2) -> char2 {
        char2(mul_i8(self, rhs.0), mul_i8(self, rhs.1))
    }
}

impl core::ops::Div for char2 {
    type Output = char2;

    /// The lane-wise quotient of the two vectors, rounded toward zero. No lane of the divisor is
    /// zero.
    fn div(self, rhs: char2) -> (r: char2) {
        char2(div_i8(self.0, rhs.0), div_i8(self.1, rhs.1))
    }
}

impl DivSpecImpl for char2 {
    open spec fn obeys_div_spec() -> bool {
        true
    }

    open spec fn div_req(self, rhs: char2) -> bool {
        rhs.0 != 0 && rhs.1 != 0
    }

    open spec fn div_spec(self, rhs: char2) -> char2 {
        char2(div_i8(self.0, rhs.0), div_i8(self.1, rhs.1))
    }
}

impl core::ops::Div<i8> for char2 {
    type Output = char2;

    /// The quotient of every lane by the scalar, rounded toward zero. The scalar is not zero.
    fn div(self, rhs: i8) -> (r: char2) {
        char2(div_i8(self.0, rhs), div_i8(self.1, rhs))
    }
}

impl DivSpecImpl<i8> for char2 {
    open spec fn obeys_div_spec() -> bool {
        true
    }

    open spec fn div_req(self, rhs: i8) -> bool {
        rhs != 0
    }

    open spec fn div_spec(self, rhs: i8) -> char2 {
        char2(div_i8(self.0, rhs), div_i8(self.1, rhs))
    }
}

impl core::ops::Div<char2> for i8 {
    type Output = char2;

    /// The quotient of the scalar by every lane, rounded toward zero. No lane is zero.
    fn div(self, rhs: char2) -> (r: char2) {
        char2(div_i8(self, rhs.0), div_i8(self, rhs.1))
    }
}

impl DivSpecImpl<char2> for i8 {
    open spec fn obeys_div_spec() -> bool {
        true
    }

    open spec fn div_req(self, rhs: char2) -> bool {
        rhs.0 != 0 && rhs.1 != 0
    }

    open spec fn div_spec(self, rhs: char2) -> char2 {
        char2(div_i8(self, rhs.0), div_i8(self, rhs.1))
    }
}

impl core::ops::BitAnd for char2 {
    type Output = char2;

    /// The lane-wise conjunction of the two vectors, bit by bit.
    fn bitand(self, rhs: char2) -> (r: char2) {
        char2(self.0 & rhs.0, self.1 & rhs.1)
    }
}

impl BitAndSpecImpl for char2 {
    open spec fn obeys_bitand_spec() -> bool {
        true
    }

    open spec fn bitand_req(self, rhs: char2) -> bool {
        true
    }

    open spec fn bitand_spec(self, rhs: char2) -> char2 {
        char2(self.0 & rhs.0, self.1 & rhs.1)
    }
}

impl core::ops::BitAnd<i8> for char2 {
    type Output = char2;

    /// The conjunction of every lane and the scalar, bit by bit.
    fn bitand(self, rhs: i8) -> (r: char2) {
        char2(self.0 & rhs, self.1 & rhs)
    }
}

impl BitAndSpecImpl<i8> for char2 {
    open spec fn obeys_bitand_spec() -> bool {
        true
    }

    open spec fn bitand_req(self, rhs: i8) -> bool {
        true
    }

    open spec fn bitand_spec(self, rhs: i8) -> char2 {
        char2(self.0 & rhs, self.1 & rhs)
    }
}

impl core::ops::BitAnd<char2> for i8 {
    type Output = char2;

    /// The conjunction of the scalar and every lane, bit by bit.
    fn bitand(self, rhs: char2) -> (r: char2) {
        char2(self & rhs.0, self & rhs.1)
    }
}

impl BitAndSpecImpl<char2> for i8 {
    open spec fn obeys_bitand_spec() -> bool {
        true
    }

    open spec fn bitand_req(self, rhs: char2) -> bool {
        true
    }

    open spec fn bitand_spec(self, rhs: char2) -> char2 {
        char2(self & rhs.0, self & rhs.1)
    }
}

impl core::ops::BitOr for char2 {
    type Output = char2;

    /// The lane-wise disjunction of the two vectors, bit by bit.
    fn bitor(self, rhs: char2) -> (r: char2) {
        char2(self.0 | rhs.0, self.1 | rhs.1)
    }
}

impl BitOrSpecImpl for char2 {
    open spec fn obeys_bitor_spec() -> bool {
        true
    }

    open spec fn bitor_req(self, rhs: char2) -> bool {
        true
    }

    open spec fn bitor_spec(self, rhs: char2) -> char2 {
        char2(self.0 | rhs.0, self.1 | rhs.1)
    }
}

impl core::ops::BitOr<i8> for char2 {
    type Output = char2;

    /// The disjunction of every lane and the scalar, bit by bit.
    fn bitor(self, rhs: i8) -> (r: char2) {
        char2(self.0 | rhs, self.1 | rhs)
    }
}

impl BitOrSpecImpl<i8> for char2 {
    open spec fn obeys_bitor_spec() -> bool {
        true
    }

    open spec fn bitor_req(self, rhs: i8) -> bool {
        true
    }

    open spec fn bitor_spec(self, rhs: i8) -> char2 {
        char2(self.0 | rhs, self.1 | rhs)
    }
}

impl core::ops::BitOr<char2> for i8 {
    type Output = char2;

    /// The disjunction of the scalar and every lane, bit by bit.
    fn bitor(self, rhs: char2) -> (r: char2) {
        char2(self | rhs.0, self | rhs.1)
    }
}

impl BitOrSpecImpl<char2> for i8 {
    open spec fn obeys_bitor_spec() -> bool {
        true
    }

    open spec fn bitor_req(self, rhs: char2) -> bool {
        true
    }

    open spec fn bitor_spec(self, rhs: char2) -> char2 {
        char2(self | rhs.0, self | rhs.1)
    }
}

impl core::ops::BitXor for char2 {
    type Output = char2;

    /// The lane-wise exclusive disjunction of the two vectors, bit by bit.
    fn bitxor(self, rhs: char2) -> (r: char2) {
        char2(self.0 ^ rhs.0, self.1 ^ rhs.1)
    }
}

impl BitXorSpecImpl for char2 {
    open spec fn obeys_bitxor_spec() -> bool {
        true
    }

    open spec fn bitxor_req(self, rhs: char2) -> bool {
        true
    }

    open spec fn bitxor_spec(self, rhs: char2) -> char2 {
        char2(self.0 ^ rhs.0, self.1 ^ rhs.1)
    }
}

impl core::ops::BitXor<i8> for char2 {
    type Output = char2;

    /// The exclusive disjunction of every lane and the scalar, bit by bit.
    fn bitxor(self, rhs: i8) -> (r: char2) {
        char2(self.0 ^ rhs, self.1 ^ rhs)
    }
}

impl BitXorSpecImpl<i8> for char2 {
    open spec fn obeys_bitxor_spec() -> bool {
        true
    }

    open spec fn bitxor_req(self, rhs: i8) -> bool {
        true
    }

    open spec fn bitxor_spec(self, rhs: i8) -> char2 {
        char2(self.0 ^ rhs, self.1 ^ rhs)
    }
}

impl core::ops::BitXor<char2> for i8 {
    type Output = char2;

    /// The exclusive disjunction of the scalar and every lane, bit by bit.
    fn bitxor(self, rhs: char2) -> (r: char2) {
        char2(self ^ rhs.0, self ^ rhs.1)
    }
}

impl BitXorSpecImpl<char2> for i8 {
    open spec fn obeys_bitxor_spec() -> bool {
        true
    }

    open spec fn bitxor_req(self, rhs: char2) -> bool {
        true
    }

    open spec fn bitxor_spec(self, rhs: char2) -> char2 {
        char2(self ^ rhs.0, self ^ rhs.1)
    }
}

impl core::ops::Shl for char2 {
    type Output = char2;

    /// Every lane shifted left by the lane of `rhs`, which is below 8.
    fn shl(self, rhs: char2) -> (r: char2) {
        char2(shl_i8(self.0, rhs.0), shl_i8(self.1, rhs.1))
    }
}

impl ShlSpecImpl for char2 {
    open spec fn obeys_shl_spec() -> bool {
        true
    }

    open spec fn shl_req(self, rhs: char2) -> bool {
        0 <= rhs.0 < 8 && 0 <= rhs.1 < 8
    }

    open spec fn shl_spec(self, rhs: char2) -> char2 {
        char2(shl_i8(self.0, rhs.0), shl_i8(self.1, rhs.1))
    }
}

impl core::ops::Shl<i8> for char2 {
    type Output = char2;

    /// Every lane shifted left by `rhs`, which is below 8.
    fn shl(self, rhs: i8) -> (r: char2) {
        char2(shl_i8(self.0, rhs), shl_i8(self.1, rhs))
    }
}

impl ShlSpecImpl<i8> for char2 {
    open spec fn obeys_shl_spec() -> bool {
        true
    }

    open spec fn shl_req(self, rhs: i8) -> bool {
        0 <= rhs < 8
    }

    open spec fn shl_spec(self, rhs: i8) -> char2 {
        char2(shl_i8(self.0, rhs), shl_i8(self.1, rhs))
    }
}

impl core::ops::Shl<char2> for i8 {
    type Output = char2;

    /// The scalar shifted left by every lane of `rhs`, each of which is below 8.
    fn shl(self, rhs: char2) -> (r: char2) {
        char2(shl_i8(self, rhs.0), shl_i8(self, rhs.1))
    }
}

impl ShlSpecImpl<char2> for i8 {
    open spec fn obeys_shl_spec() -> bool {
        true
    }

    open spec fn shl_req(self, rhs: char2) -> bool {
        0 <= rhs.0 < 8 && 0 <= rhs.1 < 8
    }

    open spec fn shl_spec(self, rhs: char2) -> char2 {
        char2(shl_i8(self, rhs.0), shl_i8(self, rhs.1))
    }
}

impl core::ops::Shr for char2 {
    type Output = char2;

    /// Every lane shifted right by the lane of `rhs`, which is below 8.
    fn shr(self, rhs: char2) -> (r: char2) {
        char2(shr_i8(self.0, rhs.0), shr_i8(self.1, rhs.1))
    }
}

impl ShrSpecImpl for char2 {
    open spec fn obeys_shr_spec() -> bool {
        true
    }

    open spec fn shr_req(self, rhs: char2) -> bool {
        0 <= rhs.0 < 8 && 0 <= rhs.1 < 8
    }

    open spec fn shr_spec(self, rhs: char2) -> char2 {
        char2(shr_i8(self.0, rhs.0), shr_i8(self.1, rhs.1))
    }
}

impl core::ops::Shr<i8> for char2 {
    type Output = char2;

    /// Every lane shifted right by `rhs`, which is below 8.
    fn shr(self, rhs: i8) -> (r: char2) {
        char2(shr_i8(self.0, rhs), shr_i8(self.1, rhs))
    }
}

impl ShrSpecImpl<i8> for char2 {
    open spec fn obeys_shr_spec() -> bool {
        true
    }

    open spec fn shr_req(self, rhs: i8) -> bool {
        0 <= rhs < 8
    }

    open spec fn shr_spec(self, rhs: i8) -> char2 {
        char2(shr_i8(self.0, rhs), shr_i8(self.1, rhs))
    }
}

impl core::ops::Shr<char2> for i8 {
    type Output = char2;

    /// The scalar shifted right by every lane of `rhs`, each of which is below 8.
    fn shr(self, rhs: char2) -> (r: char2) {
        char2(shr_i8(self, rhs.0), shr_i8(self, rhs.1))
    }
}

impl ShrSpecImpl<char2> for i8 {
    open spec fn obeys_shr_spec() -> bool {
        true
    }

    open spec fn shr_req(self, rhs: char2) -> bool {
        0 <= rhs.0 < 8 && 0 <= rhs.1 < 8
    }

    open spec fn shr_spec(self, rhs: char2) -> char2 {
        char2(shr_i8(self, rhs.0), shr_i8(self, rhs.1))
    }
}

impl core::ops::Rem for char2 {
    type Output = char2;

    /// The lane-wise remainder `self - (self / rhs) * rhs`. No lane of the divisor is zero.
    fn rem(self, rhs: char2) -> (r: char2) {
        char2(rem_i8(self.0, rhs.0), rem_i8(self.1, rhs.1))
    }
}

impl RemSpecImpl for char2 {
    open spec fn obeys_rem_spec() -> bool {
        true
    }

    open spec fn rem_req(self, rhs: char2) -> bool {
        rhs.0 != 0 && rhs.1 != 0
    }

    open spec fn rem_spec(self, rhs: char2) -> char2 {
        char2(rem_i8(self.0, rhs.0), rem_i8(self.1, rhs.1))
    }
}

impl core::ops::Neg for char2 {
    type Output = char2;

    /// Zero minus every lane, wrapping around.
    fn neg(self) -> (r: char2) {
        char2(neg_i8(self.0), neg_i8(self.1))
    }
}

impl NegSpecImpl for char2 {
    open spec fn obeys_neg_spec() -> bool {
        true
    }

    open spec fn neg_req(self) -> bool {
        true
    }

    open spec fn neg_spec(self) -> char2 {
        char2(neg_i8(self.0), neg_i8(self.1))
    }
}

impl core::ops::Not for char2 {
    type Output = char2;

    /// Every lane with every bit flipped.
    fn not(self) -> (r: char2) {
        char2(not_i8(self.0), not_i8(self.1))
    }
}

impl NotSpecImpl for char2 {
    open spec fn obeys_not_spec() -> bool {
        true
    }

    open spec fn not_req(self) -> bool {
        true
    }

    open spec fn not_spec(self) -> char2 {
        char2(not_i8(self.0), not_i8(self.1))
    }
}

impl core::convert::From<isize> for char2 {
    /// The vector with `x`, wrapped to `i8`, in every lane.
    fn from(x: isize) -> (r: char2) {
        let v = isize_to_i8(x);
        char2(v, v)
    }
}

impl FromSpecImpl<isize> for char2 {
    open spec fn obeys_from_spec() -> bool {
        true
    }

    open spec fn from_spec(x: isize) -> char2 {
        char2(isize_to_i8(x), isize_to_i8(x))
    }
}

impl core::ops::Index<u32> for char2 {
    type Output = i8;

    /// Lane `i`, which is below 2.
    fn index(&self, i: u32) -> (r: &i8)
        ensures
            *r == self.lane(i as int),
    {
        match i {
            0 => &self.0,
            _ => &self.1,
        }
    }
}

impl vstd::std_specs::core::IndexSpecImpl<u32> for char2 {
    open spec fn index_req(&self, i: &u32) -> bool {
        *i < 2
    }
}

impl char2 {
    /// Lane `i`, counted from zero.
    pub open spec fn lane(self, i: int) -> i8
        recommends
            0 <= i < 2,
    {
        if i == 0 {
            self.0
        } else {
            self.1
        }
    }

    /// The vector of type `char2` with the bits of `x`, a value of a type that has as many bits,
    /// which is one with images of type `uchar2`.
    pub fn bitcast<U: Bitcast<Image = uchar2>>(x: U) -> (r: char2)
        ensures
            r == spec_bitcast::<U, char2>(x),
    {
        bitcast(x)
    }

    /// The vector with `x` in every lane.
    pub fn broadcast(x: i8) -> (r: char2)
        ensures
            r == char2(x, x),
    {
        char2(x, x)
    }

    /// Lane `i`, which is below 2.
    pub fn extract(self, i: u32) -> (r: i8)
        requires
            i < 2,
        ensures
            r == self.lane(i as int),
    {
        match i {
            0 => self.0,
            _ => self.1,
        }
    }

    /// The vector with `x` in lane `i`, which is below 2, and the other lanes unchanged.
    pub fn replace(self, i: u32, x: i8) -> (r: char2)
        requires
            i < 2,
        ensures
            forall|j: int| 0 <= j < 2 ==> #[trigger] r.lane(j) == (if j == i {
                x
            } else {
                self.lane(j)
            }),
    {
        match i {
            0 => char2(x, self.1),
            _ => char2(self.0, x),
        }
    }

    /// The mask that is all ones where the lanes of `x` and `y` are equal, and zero elsewhere.
    pub fn eq(x: char2, y: char2) -> (r: char2)
        ensures
            r == char2(eq_i8(x.0, y.0), eq_i8(x.1, y.1)),
    {
        char2(eq_i8(x.0, y.0), eq_i8(x.1, y.1))
    }

    /// The mask that is all ones where the lanes of `x` and `y` differ, and zero elsewhere.
    pub fn ne(x: char2, y: char2) -> (r: char2)
        ensures
            r == char2(ne_i8(x.0, y.0), ne_i8(x.1, y.1)),
    {
        char2(ne_i8(x.0, y.0), ne_i8(x.1, y.1))
    }

    /// The mask that is all ones where the lane of `x` is less than that of `y`, and zero
    /// elsewhere.
    pub fn lt(x: char2, y: char2) -> (r: char2)
        ensures
            r == char2(lt_i8(x.0, y.0), lt_i8(x.1, y.1)),
    {
        char2(lt_i8(x.0, y.0), lt_i8(x.1, y.1))
    }

    /// The mask that is all ones where the lane of `x` is at most that of `y`, and zero elsewhere.
    pub fn le(x: char2, y: char2) -> (r: char2)
        ensures
            r == char2(le_i8(x.0, y.0), le_i8(x.1, y.1)),
    {
        char2(le_i8(x.0, y.0), le_i8(x.1, y.1))
    }

    /// The mask that is all ones where the lane of `x` is greater than that of `y`, and zero
    /// elsewhere.
    pub fn gt(x: char2, y: char2) -> (r: char2)
        ensures
            r == char2(gt_i8(x.0, y.0), gt_i8(x.1, y.1)),
    {
        char2(gt_i8(x.0, y.0), gt_i8(x.1, y.1))
    }

    /// The mask that is all ones where the lane of `x` is at least that of `y`, and zero elsewhere.
    pub fn ge(x: char2, y: char2) -> (r: char2)
        ensures
            r == char2(ge_i8(x.0, y.0), ge_i8(x.1, y.1)),
    {
        char2(ge_i8(x.0, y.0), ge_i8(x.1, y.1))
    }

    /// `x * y + z` lane by lane, wrapping around.
    pub fn madd(x: char2, y: char2, z: char2) -> (r: char2)
        ensures
            r == char2(madd_i8(x.0, y.0, z.0), madd_i8(x.1, y.1, z.1)),
    {
        char2(madd_i8(x.0, y.0, z.0), madd_i8(x.1, y.1, z.1))
    }

    /// The magnitude of every lane; that of `i8::MIN` wraps around to `i8::MIN`.
    pub fn abs(x: char2) -> (r: char2)
        ensures
            r == x.spec_abs(),
    {
        char2(abs_i8(x.0), abs_i8(x.1))
    }

    /// The greater lane of `x` and `y`, lane by lane.
    pub fn max(x: char2, y: char2) -> (r: char2)
        ensures
            r == x.spec_max(y),
    {
        char2(max_i8(x.0, y.0), max_i8(x.1, y.1))
    }

    /// The smaller lane of `x` and `y`, lane by lane.
    pub fn min(x: char2, y: char2) -> (r: char2)
        ensures
            r == x.spec_min(y),
    {
        char2(min_i8(x.0, y.0), min_i8(x.1, y.1))
    }

    /// Every lane of `x` raised to at least the lane of `lo`, then lowered to at most that of `hi`.
    pub fn clamp(x: char2, lo: char2, hi: char2) -> (r: char2)
        ensures
            r == x.spec_clamp(lo, hi),
    {
        char2(clamp_i8(x.0, lo.0, hi.0), clamp_i8(x.1, lo.1, hi.1))
    }

    /// The sum of the lanes, wrapping around.
    pub fn reduce_add(x: char2) -> (r: i8)
        ensures
            r == x.spec_reduce_add(),
    {
        add_i8(x.0, x.1)
    }

    /// The smallest lane.
    pub fn reduce_min(x: char2) -> (r: i8)
        ensures
            r == x.spec_reduce_min(),
            r <= x.0 && r <= x.1,
            r == x.0 || r == x.1,
    {
        min_i8(x.0, x.1)
    }

    /// The greatest lane.
    pub fn reduce_max(x: char2) -> (r: i8)
        ensures
            r == x.spec_reduce_max(),
            r >= x.0 && r >= x.1,
            r == x.0 || r == x.1,
    {
        max_i8(x.0, x.1)
    }

    /// The vector itself: its lanes are `i8` already.
    pub fn to_char(x: char2) -> (r: char2)
        ensures
            r == x,
    {
        x
    }

    /// The vector itself: its lanes are `i8` already, and nothing saturates.
    pub fn to_char_sat(x: char2) -> (r: char2)
        ensures
            r == x.spec_to_char_sat(),
    {
        x
    }

    /// Every lane as `u8`: the same bits, read as `u8`.
    pub fn to_uchar(x: char2) -> (r: uchar2)
        ensures
            r == uchar2(i8_to_u8(x.0), i8_to_u8(x.1)),
    {
        uchar2(i8_to_u8(x.0), i8_to_u8(x.1))
    }

    /// Every lane as `u8`, saturating: a lane outside the range of `u8` gives the nearest bound.
    pub fn to_uchar_sat(x: char2) -> (r: uchar2)
        ensures
            r == x.spec_to_uchar_sat(),
    {
        uchar2(i8_to_u8_sat(x.0), i8_to_u8_sat(x.1))
    }

    /// Every lane as `i16`, which holds every `i8`.
    pub fn to_short(x: char2) -> (r: short2)
        ensures
            r == short2(i8_to_i16(x.0), i8_to_i16(x.1)),
    {
        short2(i8_to_i16(x.0), i8_to_i16(x.1))
    }

    /// Every lane as `i16`, saturating; nothing saturates, since `i16` holds every `i8`.
    pub fn to_short_sat(x: char2) -> (r: short2)
        ensures
            r == x.spec_to_short_sat(),
    {
        short2(i8_to_i16_sat(x.0), i8_to_i16_sat(x.1))
    }

    /// Every lane as `u16`, sign-extended: a negative lane wraps around.
    pub fn to_ushort(x: char2) -> (r: ushort2)
        ensures
            r == ushort2(i8_to_u16(x.0), i8_to_u16(x.1)),
    {
        ushort2(i8_to_u16(x.0), i8_to_u16(x.1))
    }

    /// Every lane as `u16`, saturating: a lane outside the range of `u16` gives the nearest bound.
    pub fn to_ushort_sat(x: char2) -> (r: ushort2)
        ensures
            r == x.spec_to_ushort_sat(),
    {
        ushort2(i8_to_u16_sat(x.0), i8_to_u16_sat(x.1))
    }

    /// Every lane as `i32`, which holds every `i8`.
    pub fn to_int(x: char2) -> (r: int2)
        ensures
            r == int2(i8_to_i32(x.0), i8_to_i32(x.1)),
    {
        int2(i8_to_i32(x.0), i8_to_i32(x.1))
    }

    /// Every lane as `i32`, saturating; nothing saturates, since `i32` holds every `i8`.
    pub fn to_int_sat(x: char2) -> (r: int2)
        ensures
            r == x.spec_to_int_sat(),
    {
        int2(i8_to_i32_sat(x.0), i8_to_i32_sat(x.1))
    }

    /// Every lane as `u32`, sign-extended: a negative lane wraps around.
    pub fn to_uint(x: char2) -> (r: uint2)
        ensures
            r == uint2(i8_to_u32(x.0), i8_to_u32(x.1)),
    {
        uint2(i8_to_u32(x.0), i8_to_u32(x.1))
    }

    /// Every lane as `u32`, saturating: a lane outside the range of `u32` gives the nearest bound.
    pub fn to_uint_sat(x: char2) -> (r: uint2)
        ensures
            r == x.spec_to_uint_sat(),
    {
        uint2(i8_to_u32_sat(x.0), i8_to_u32_sat(x.1))
    }

    /// Every lane as `i64`, which holds every `i8`.
    pub fn to_long(x: char2) -> (r: long2)
        ensures
            r == long2(i8_to_i64(x.0), i8_to_i64(x.1)),
    {
        long2(i8_to_i64(x.0), i8_to_i64(x.1))
    }

    /// Every lane as `i64`, saturating; nothing saturates, since `i64` holds every `i8`.
    pub fn to_long_sat(x: char2) -> (r: long2)
        ensures
            r == x.spec_to_long_sat(),
    {
        long2(i8_to_i64_sat(x.0), i8_to_i64_sat(x.1))
    }

    /// Every lane as `u64`, sign-extended: a negative lane wraps around.
    pub fn to_ulong(x: char2) -> (r: ulong2)
        ensures
            r == ulong2(i8_to_u64(x.0), i8_to_u64(x.1)),
    {
        ulong2(i8_to_u64(x.0), i8_to_u64(x.1))
    }

    /// Every lane as `u64`, saturating: a lane outside the range of `u64` gives the nearest bound.
    pub fn to_ulong_sat(x: char2) -> (r: ulong2)
        ensures
            r == x.spec_to_ulong_sat(),
    {
        ulong2(i8_to_u64_sat(x.0), i8_to_u64_sat(x.1))
    }

    /// The low half: lane 0.
    pub fn lo(self) -> (r: i8)
        ensures
            r == self.0,
    {
        self.0
    }

    /// The high half: lane 1.
    pub fn hi(self) -> (r: i8)
        ensures
            r == self.1,
    {
        self.1
    }

    /// The odd lane: lane 1.
    pub fn odd(self) -> (r: i8)
        ensures
            r == self.1,
    {
        self.1
    }

    /// The even lane: lane 0.
    pub fn even(self) -> (r: i8)
        ensures
            r == self.0,
    {
        self.0
    }

    /// The vector of `f` applied to every lane. `f` accepts every lane.
    pub fn map_unary<F: Fn(i8) -> i8>(self, f: F) -> (r: char2)
        requires
            call_requires(f, (self.0,)),
            call_requires(f, (self.1,)),
        ensures
            call_ensures(f, (self.0,), r.0),
            call_ensures(f, (self.1,), r.1),
    {
        char2(f(self.0), f(self.1))
    }

    /// The vector of `f` applied to the lanes of the two vectors, lane by lane. `f` accepts every
    /// such pair of lanes.
    pub fn map_binary<F: Fn(i8, i8) -> i8>(self, other: char2, f: F) -> (r: char2)
        requires
            call_requires(f, (self.0, other.0)),
            call_requires(f, (self.1, other.1)),
        ensures
            call_ensures(f, (self.0, other.0), r.0),
            call_ensures(f, (self.1, other.1), r.1),
    {
        char2(f(self.0, other.0), f(self.1, other.1))
    }

    /// The lanes folded by `f`, from lane 0 upward: `f` is applied to lane 1 and lane 0, then to
    /// each further lane and what the lanes below it gave. `f` accepts every pair of scalars.
    pub fn reduce<F: Fn(i8, i8) -> i8>(self, f: F) -> (r: i8)
        requires
            forall|a: i8, b: i8| call_requires(f, (a, b)),
        ensures
            call_ensures(f, (self.1, self.0), r),
    {
        f(self.1, self.0)
    }

    /// Addition commutes.
    pub proof fn lemma_add_commutes(x: char2, y: char2)
        ensures
            AddSpec::add_spec(x, y) == AddSpec::add_spec(y, x),
    {
        lemma_arith_i8(x.0, y.0, 0);
        lemma_arith_i8(x.1, y.1, 0);
    }

    /// Addition associates, wrap-around or not.
    pub proof fn lemma_add_associates(x: char2, y: char2, z: char2)
        ensures
            AddSpec::add_spec(AddSpec::add_spec(x, y), z)
                == AddSpec::add_spec(x, AddSpec::add_spec(y, z)),
    {
        lemma_arith_i8(x.0, y.0, z.0);
        lemma_arith_i8(x.1, y.1, z.1);
    }

    /// Swapping the operands of a subtraction negates the difference.
    pub proof fn lemma_sub_swaps(x: char2, y: char2)
        ensures
            SubSpec::sub_spec(x, y) == NegSpec::neg_spec(SubSpec::sub_spec(y, x)),
    {
        lemma_arith_i8(x.0, y.0, 0);
        lemma_arith_i8(x.1, y.1, 0);
    }

    /// The magnitude of a magnitude is that magnitude, and the magnitude of a lane other than
    /// `i8::MIN` is not negative.
    pub proof fn lemma_abs(x: char2)
        ensures
            x.spec_abs().spec_abs() == x.spec_abs(),
            forall|i: int|
                0 <= i < 2 && x.lane(i) != i8::MIN ==> #[trigger] x.spec_abs().lane(i) >= 0,
            forall|i: int|
                0 <= i < 2 && x.lane(i) == i8::MIN ==> #[trigger] x.spec_abs().lane(i) == i8::MIN,
    {
        lemma_abs_i8(x.0);
        lemma_abs_i8(x.1);
    }

    /// Flipping every bit of a lane gives minus one minus the lane.
    pub proof fn lemma_not(x: char2)
        ensures
            forall|i: int| 0 <= i < 2 ==> #[trigger] NotSpec::not_spec(x).lane(i) == -1 - x.lane(i),
    {
        lemma_not_i8(x.0);
        lemma_not_i8(x.1);
    }

    /// The lanes of a vector with `k` in every lane add up to 2 times `k`, wrapped around.
    pub proof fn lemma_reduce_add_broadcast(k: i8)
        ensures
            char2(k, k).spec_reduce_add() == wrap_i8(2 * k),
    {
    }

    /// Saturating conversion to `u8` gives, lane by lane, the lane itself where `u8` holds it and
    /// the nearest bound of `u8` where it does not.
    pub proof fn lemma_to_uchar_sat(x: char2)
        ensures
            forall|i: int|
                0 <= i < 2 ==> #[trigger] x.spec_to_uchar_sat().lane(i) == sat_u8(x.lane(i) as int),
    {
    }

    /// Saturating conversion to `i16` gives every lane unchanged: `i16` holds every `i8`.
    pub proof fn lemma_to_short_sat(x: char2)
        ensures
            forall|i: int|
                0 <= i < 2 ==>
                    #[trigger] x.spec_to_short_sat().lane(i) == sat_i16(x.lane(i) as int),
            forall|i: int| 0 <= i < 2 ==> #[trigger] x.spec_to_short_sat().lane(i) == x.lane(i),
    {
    }

    /// Saturating conversion to `u16` gives, lane by lane, the lane itself where `u16` holds it and
    /// the nearest bound of `u16` where it does not.
    pub proof fn lemma_to_ushort_sat(x: char2)
        ensures
            forall|i: int|
                0 <= i < 2 ==>
                    #[trigger] x.spec_to_ushort_sat().lane(i) == sat_u16(x.lane(i) as int),
    {
    }

    /// Saturating conversion to `i32` gives every lane unchanged: `i32` holds every `i8`.
    pub proof fn lemma_to_int_sat(x: char2)
        ensures
            forall|i: int|
                0 <= i < 2 ==> #[trigger] x.spec_to_int_sat().lane(i) == sat_i32(x.lane(i) as int),
            forall|i: int| 0 <= i < 2 ==> #[trigger] x.spec_to_int_sat().lane(i) == x.lane(i),
    {
    }

    /// Saturating conversion to `u32` gives, lane by lane, the lane itself where `u32` holds it and
    /// the nearest bound of `u32` where it does not.
    pub proof fn lemma_to_uint_sat(x: char2)
        ensures
            forall|i: int|
                0 <= i < 2 ==> #[trigger] x.spec_to_uint_sat().lane(i) == sat_u32(x.lane(i) as int),
    {
    }

    /// Saturating conversion to `i64` gives every lane unchanged: `i64` holds every `i8`.
    pub proof fn lemma_to_long_sat(x: char2)
        ensures
            forall|i: int|
                0 <= i < 2 ==> #[trigger] x.spec_to_long_sat().lane(i) == sat_i64(x.lane(i) as int),
            forall|i: int| 0 <= i < 2 ==> #[trigger] x.spec_to_long_sat().lane(i) == x.lane(i),
    {
    }

    /// Saturating conversion to `u64` gives, lane by lane, the lane itself where `u64` holds it and
    /// the nearest bound of `u64` where it does not.
    pub proof fn lemma_to_ulong_sat(x: char2)
        ensures
            forall|i: int|
                0 <= i < 2 ==>
                    #[trigger] x.spec_to_ulong_sat().lane(i) == sat_u64(x.lane(i) as int),
    {
    }
}

impl Vector for char2 {
    type Scalar = i8;

    type Boolean = char2;

    type CharVector = char2;

    type ShortVector = short2;

    type IntVector = int2;

    type LongVector = long2;

    type UCharVector = uchar2;

    type UShortVector = ushort2;

    type UIntVector = uint2;

    type ULongVector = ulong2;

    type FloatVector = float2;

    type DoubleVector = double2;

    open spec fn spec_abs(self) -> char2 {
        char2(abs_i8(self.0), abs_i8(self.1))
    }

    open spec fn spec_max(self, other: char2) -> char2 {
        char2(max_i8(self.0, other.0), max_i8(self.1, other.1))
    }

    open spec fn spec_min(self, other: char2) -> char2 {
        char2(min_i8(self.0, other.0), min_i8(self.1, other.1))
    }

    open spec fn spec_clamp(self, lo: char2, hi: char2) -> char2 {
        char2(clamp_i8(self.0, lo.0, hi.0), clamp_i8(self.1, lo.1, hi.1))
    }

    open spec fn spec_reduce_add(self) -> i8 {
        wrap_i8(self.0 + self.1)
    }

    open spec fn spec_reduce_min(self) -> i8 {
        min_i8(self.0, self.1)
    }

    open spec fn spec_reduce_max(self) -> i8 {
        max_i8(self.0, self.1)
    }

    open spec fn spec_to_char_sat(self) -> char2 {
        self
    }

    open spec fn spec_to_uchar_sat(self) -> uchar2 {
        uchar2(i8_to_u8_sat(self.0), i8_to_u8_sat(self.1))
    }

    open spec fn spec_to_short_sat(self) -> short2 {
        short2(i8_to_i16_sat(self.0), i8_to_i16_sat(self.1))
    }

    open spec fn spec_to_ushort_sat(self) -> ushort2 {
        ushort2(i8_to_u16_sat(self.0), i8_to_u16_sat(self.1))
    }

    open spec fn spec_to_int_sat(self) -> int2 {
        int2(i8_to_i32_sat(self.0), i8_to_i32_sat(self.1))
    }

    open spec fn spec_to_uint_sat(self) -> uint2 {
        uint2(i8_to_u32_sat(self.0), i8_to_u32_sat(self.1))
    }

    open spec fn spec_to_long_sat(self) -> long2 {
        long2(i8_to_i64_sat(self.0), i8_to_i64_sat(self.1))
    }

    open spec fn spec_to_ulong_sat(self) -> ulong2 {
        ulong2(i8_to_u64_sat(self.0), i8_to_u64_sat(self.1))
    }

    fn abs(self) -> (r: char2) {
        char2::abs(self)
    }

    fn max(self, other: char2) -> (r: char2) {
        char2::max(self, other)
    }

    fn min(self, other: char2) -> (r: char2) {
        char2::min(self, other)
    }

    fn clamp(self, lo: char2, hi: char2) -> (r: char2) {
        char2::clamp(self, lo, hi)
    }

    fn reduce_add(self) -> (r: i8) {
        char2::reduce_add(self)
    }

    fn reduce_min(self) -> (r: i8) {
        char2::reduce_min(self)
    }

    fn reduce_max(self) -> (r: i8) {
        char2::reduce_max(self)
    }

    fn to_char_sat(self) -> (r: char2) {
        char2::to_char_sat(self)
    }

    fn to_uchar_sat(self) -> (r: uchar2) {
        char2::to_uchar_sat(self)
    }

    fn to_short_sat(self) -> (r: short2) {
        char2::to_short_sat(self)
    }

    fn to_ushort_sat(self) -> (r: ushort2) {
        char2::to_ushort_sat(self)
    }

    fn to_int_sat(self) -> (r: int2) {
        char2::to_int_sat(self)
    }

    fn to_uint_sat(self) -> (r: uint2) {
        char2::to_uint_sat(self)
    }

    fn to_long_sat(self) -> (r: long2) {
        char2::to_long_sat(self)
    }

    fn to_ulong_sat(self) -> (r: ulong2) {
        char2::to_ulong_sat(self)
    }
}

impl Integer for char2 {
    open spec fn spec_reduce_and(self) -> i8 {
        self.0 & self.1
    }

    open spec fn spec_reduce_or(self) -> i8 {
        self.0 | self.1
    }

    open spec fn spec_reduce_xor(self) -> i8 {
        self.0 ^ self.1
    }

    open spec fn spec_all(self) -> bool {
        truth_i8(self.0) && truth_i8(self.1)
    }

    open spec fn spec_any(self) -> bool {
        truth_i8(self.0) || truth_i8(self.1)
    }

    fn reduce_and(self) -> (r: i8) {
        self.0 & self.1
    }

    fn reduce_or(self) -> (r: i8) {
        self.0 | self.1
    }

    fn reduce_xor(self) -> (r: i8) {
        self.0 ^ self.1
    }

    fn all(self) -> (r: bool) {
        proof {
            lemma_bits_i8(self.0, self.1, 0, 0);
        }
        truth_i8(self.reduce_and())
    }

    fn any(self) -> (r: bool) {
        proof {
            lemma_bits_i8(self.0, self.1, 0, 0);
        }
        truth_i8(self.reduce_or())
    }
}

impl Dot for char2 {
    type DotProduct = i8;

    open spec fn spec_dot(self, other: char2) -> i8 {
        wrap_i8(self.0 * other.0 + self.1 * other.1)
    }

    fn dot(self, other: char2) -> (r: i8) {
        let s = mul_i8(self.0, other.0);
        let ghost mut t: int = self.0 * other.0;
        proof {
            lemma_wrap_i8_sum(t, self.1 * other.1);
            t = t + self.1 * other.1;
        }
        let s = madd_i8(self.1, other.1, s);
        s
    }
}

impl Select<char2> for char2 {
    open spec fn spec_select(self, a: char2, b: char2) -> char2 {
        char2(select_i8(self.0, a.0, b.0), select_i8(self.1, a.1, b.1))
    }

    open spec fn spec_bitselect(self, a: char2, b: char2) -> char2 {
        char2(bitselect_i8(self.0, a.0, b.0), bitselect_i8(self.1, a.1, b.1))
    }

    fn select(self, a: char2, b: char2) -> (r: char2) {
        char2(select_i8(self.0, a.0, b.0), select_i8(self.1, a.1, b.1))
    }

    fn bitselect(self, a: char2, b: char2) -> (r: char2) {
        char2(bitselect_i8(self.0, a.0, b.0), bitselect_i8(self.1, a.1, b.1))
    }
}

impl Select<uchar2> for char2 {
    open spec fn spec_select(self, a: uchar2, b: uchar2) -> uchar2 {
        uchar2(select_u8(self.0, a.0, b.0), select_u8(self.1, a.1, b.1))
    }

    open spec fn spec_bitselect(self, a: uchar2, b: uchar2) -> uchar2 {
        uchar2(bitselect_u8(self.0, a.0, b.0), bitselect_u8(self.1, a.1, b.1))
    }

    fn select(self, a: uchar2, b: uchar2) -> (r: uchar2) {
        uchar2(select_u8(self.0, a.0, b.0), select_u8(self.1, a.1, b.1))
    }

    fn bitselect(self, a: uchar2, b: uchar2) -> (r: uchar2) {
        uchar2(bitselect_u8(self.0, a.0, b.0), bitselect_u8(self.1, a.1, b.1))
    }
}

impl char2 {
    /// A blend of two `char2` gives the lane of `b` where the mask is all ones and the lane of `a`
    /// where it is zero, whatever the other lanes hold.
    pub proof fn lemma_bitselect_char2(m: char2, a: char2, b: char2)
        ensures
            forall|i: int|
                0 <= i < 2 && m.lane(i) == -1 ==>
                    #[trigger] m.spec_bitselect(a, b).lane(i) == b.lane(i),
            forall|i: int|
                0 <= i < 2 && m.lane(i) == 0 ==>
                    #[trigger] m.spec_bitselect(a, b).lane(i) == a.lane(i),
    {
        lemma_blend_i8(m.0, a.0, b.0);
        lemma_blend_i8(m.1, a.1, b.1);
    }

    /// A choice between two `char2` goes by the sign bit of the mask alone: it gives the lane of
    /// `b` where the mask is negative and the lane of `a` elsewhere, as the blend does under the
    /// mask whose every lane has its sign spread over all its bits.
    pub proof fn lemma_select_char2(m: char2, a: char2, b: char2)
        ensures
            m.spec_select(a, b) == ShrSpec::shr_spec(m, 7i8).spec_bitselect(a, b),
            forall|i: int|
                0 <= i < 2 && m.lane(i) < 0 ==> #[trigger] m.spec_select(a, b).lane(i) == b.lane(i),
            forall|i: int|
                0 <= i < 2 && m.lane(i) >= 0 ==>
                    #[trigger] m.spec_select(a, b).lane(i) == a.lane(i),
    {
        lemma_blend_i8(m.0, a.0, b.0);
        lemma_blend_i8(m.1, a.1, b.1);
    }

    /// A blend of two `uchar2` gives the lane of `b` where the mask is all ones and the lane of `a`
    /// where it is zero, whatever the other lanes hold.
    pub proof fn lemma_bitselect_uchar2(m: char2, a: uchar2, b: uchar2)
        ensures
            forall|i: int|
                0 <= i < 2 && m.lane(i) == -1 ==>
                    #[trigger] m.spec_bitselect(a, b).lane(i) == b.lane(i),
            forall|i: int|
                0 <= i < 2 && m.lane(i) == 0 ==>
                    #[trigger] m.spec_bitselect(a, b).lane(i) == a.lane(i),
    {
        lemma_blend_u8(m.0, a.0, b.0);
        lemma_blend_u8(m.1, a.1, b.1);
    }

    /// A choice between two `uchar2` goes by the sign bit of the mask alone: it gives the lane of
    /// `b` where the mask is negative and the lane of `a` elsewhere, as the blend does under the
    /// mask whose every lane has its sign spread over all its bits.
    pub proof fn lemma_select_uchar2(m: char2, a: uchar2, b: uchar2)
        ensures
            m.spec_select(a, b) == ShrSpec::shr_spec(m, 7i8).spec_bitselect(a, b),
            forall|i: int|
                0 <= i < 2 && m.lane(i) < 0 ==> #[trigger] m.spec_select(a, b).lane(i) == b.lane(i),
            forall|i: int|
                0 <= i < 2 && m.lane(i) >= 0 ==>
                    #[trigger] m.spec_select(a, b).lane(i) == a.lane(i),
    {
        lemma_blend_u8(m.0, a.0, b.0);
        lemma_blend_u8(m.1, a.1, b.1);
    }
}

impl Bitcast for char2 {
    type Image = uchar2;

    open spec fn spec_image(self) -> uchar2 {
        uchar2(i8_to_u8(self.0), i8_to_u8(self.1))
    }

    open spec fn spec_from_image(image: uchar2) -> char2 {
        char2(u8_to_i8(image.0), u8_to_i8(image.1))
    }

    open spec fn spec_fills() -> bool {
        true
    }

    fn image(self) -> (r: uchar2) {
        uchar2(i8_to_u8(self.0), i8_to_u8(self.1))
    }

    fn from_image(image: uchar2) -> (r: char2) {
        char2(u8_to_i8(image.0), u8_to_i8(image.1))
    }

    proof fn lemma_image(x: char2) {
        lemma_recast_i8(x.0);
        lemma_recast_i8(x.1);
    }

    proof fn lemma_from_image(image: uchar2) {
        lemma_recast_u8(image.0);
        lemma_recast_u8(image.1);
    }
}

impl char2 {
    /// Read as `uchar2`, which has lanes of the same width, a vector keeps the bits of every lane;
    /// read as `char2` again, it is what it was.
    pub proof fn lemma_bitcast_uchar2(x: char2)
        ensures
            spec_bitcast::<char2, uchar2>(x) == uchar2(i8_to_u8(x.0), i8_to_u8(x.1)),
            spec_bitcast::<uchar2, char2>(spec_bitcast::<char2, uchar2>(x)) == x,
    {
        lemma_recast_i8(x.0);
        lemma_recast_i8(x.1);
    }
}

} // verus!
