//! `uchar4`: four lanes of `u8`.

use crate::scalar::lane_u8::{
    abs_u8, add_u8, clamp_u8, div_u8, eq_u8, ge_u8, gt_u8, isize_to_u8, le_u8, lemma_arith_u8,
    lemma_bits_u8, lemma_not_u8, lemma_recast_u8, lt_u8, madd_u8, max_u8, min_u8, mul_u8, ne_u8,
    neg_u8, not_u8, rem_u8, shl_u8, shr_u8, sub_u8, truth_u8, u8_to_i16, u8_to_i16_sat, u8_to_i32,
    u8_to_i32_sat, u8_to_i64, u8_to_i64_sat, u8_to_i8, u8_to_i8_sat, u8_to_u16, u8_to_u16_sat,
    u8_to_u32, u8_to_u32_sat, u8_to_u64, u8_to_u64_sat,
};
use crate::scalar::model::{
    lemma_wrap_u8_sum, sat_i16, sat_i32, sat_i64, sat_i8, sat_u16, sat_u32, sat_u64, wrap_u8,
};
use crate::traits::{Bitcast, Dot, Integer, Vector, bitcast, spec_bitcast};
use crate::vector::char4::char4;
use crate::vector::double4::double4;
use crate::vector::float4::float4;
use crate::vector::int4::int4;
use crate::vector::long4::long4;
use crate::vector::short4::short4;
use crate::vector::uchar2::uchar2;
use crate::vector::uint4::uint4;
use crate::vector::ulong4::ulong4;
use crate::vector::ushort4::ushort4;
use vstd::prelude::*;
use vstd::std_specs::convert::FromSpecImpl;
use vstd::std_specs::ops::{
    AddSpec, AddSpecImpl, BitAndSpecImpl, BitOrSpecImpl, BitXorSpecImpl, DivSpecImpl, MulSpecImpl,
    NegSpec, NegSpecImpl, NotSpec, NotSpecImpl, RemSpecImpl, ShlSpecImpl, ShrSpecImpl, SubSpec,
    SubSpecImpl,
};

verus! {

/// Four lanes of `u8`.
#[derive(Copy, Clone, Debug, PartialEq, Eq, Structural)]
pub struct uchar4(pub u8, pub u8, pub u8, pub u8);

impl core::ops::Add for uchar4 {
    type Output = uchar4;

    /// The lane-wise sum of the two vectors, wrapping around.
    fn add(self, rhs: uchar4) -> (r: uchar4) {
        uchar4(
            add_u8(self.0, rhs.0), add_u8(self.1, rhs.1), add_u8(self.2, rhs.2),
            add_u8(self.3, rhs.3),
        )
    }
}

impl AddSpecImpl for uchar4 {
    open spec fn obeys_add_spec() -> bool {
        true
    }

    open spec fn add_req(self, rhs: uchar4) -> bool {
        true
    }

    open spec fn add_spec(self, rhs: uchar4) -> uchar4 {
        uchar4(
            add_u8(self.0, rhs.0), add_u8(self.1, rhs.1), add_u8(self.2, rhs.2),
            add_u8(self.3, rhs.3),
        )
    }
}

impl core::ops::Add<u8> for uchar4 {
    type Output = uchar4;

    /// The sum of every lane and the scalar, wrapping around.
    fn add(self, rhs: u8) -> (r: uchar4) {
        uchar4(add_u8(self.0, rhs), add_u8(self.1, rhs), add_u8(self.2, rhs), add_u8(self.3, rhs))
    }
}

impl AddSpecImpl<u8> for uchar4 {
    open spec fn obeys_add_spec() -> bool {
        true
    }

    open spec fn add_req(self, rhs: u8) -> bool {
        true
    }

    open spec fn add_spec(self, rhs: u8) -> uchar4 {
        uchar4(add_u8(self.0, rhs), add_u8(self.1, rhs), add_u8(self.2, rhs), add_u8(self.3, rhs))
    }
}

impl core::ops::Add<uchar4> for u8 {
    type Output = uchar4;

    /// The sum of the scalar and every lane, wrapping around.
    fn add(self, rhs: uchar4) -> (r: uchar4) {
        uchar4(add_u8(self, rhs.0), add_u8(self, rhs.1), add_u8(self, rhs.2), add_u8(self, rhs.3))
    }
}

impl AddSpecImpl<uchar4> for u8 {
    open spec fn obeys_add_spec() -> bool {
        true
    }

    open spec fn add_req(self, rhs: uchar4) -> bool {
        true
    }

    open spec fn add_spec(self, rhs: uchar4) -> uchar4 {
        uchar4(add_u8(self, rhs.0), add_u8(self, rhs.1), add_u8(self, rhs.2), add_u8(self, rhs.3))
    }
}

impl core::ops::Sub for uchar4 {
    type Output = uchar4;

    /// The lane-wise difference of the two vectors, wrapping around.
    fn sub(self, rhs: uchar4) -> (r: uchar4) {
        uchar4(
            sub_u8(self.0, rhs.0), sub_u8(self.1, rhs.1), sub_u8(self.2, rhs.2),
            sub_u8(self.3, rhs.3),
        )
    }
}

impl SubSpecImpl for uchar4 {
    open spec fn obeys_sub_spec() -> bool {
        true
    }

    open spec fn sub_req(self, rhs: uchar4) -> bool {
        true
    }

    open spec fn sub_spec(self, rhs: uchar4) -> uchar4 {
        uchar4(
            sub_u8(self.0, rhs.0), sub_u8(self.1, rhs.1), sub_u8(self.2, rhs.2),
            sub_u8(self.3, rhs.3),
        )
    }
}

impl core::ops::Sub<u8> for uchar4 {
    type Output = uchar4;

    /// The difference of every lane and the scalar, wrapping around.
    fn sub(self, rhs: u8) -> (r: uchar4) {
        uchar4(sub_u8(self.0, rhs), sub_u8(self.1, rhs), sub_u8(self.2, rhs), sub_u8(self.3, rhs))
    }
}

impl SubSpecImpl<u8> for uchar4 {
    open spec fn obeys_sub_spec() -> bool {
        true
    }

    open spec fn sub_req(self, rhs: u8) -> bool {
        true
    }

    open spec fn sub_spec(self, rhs: u8) -> uchar4 {
        uchar4(sub_u8(self.0, rhs), sub_u8(self.1, rhs), sub_u8(self.2, rhs), sub_u8(self.3, rhs))
    }
}

impl core::ops::Sub<uchar4> for u8 {
    type Output = uchar4;

    /// The difference of the scalar and every lane, wrapping around.
    fn sub(self, rhs: uchar4) -> (r: uchar4) {
        uchar4(sub_u8(self, rhs.0), sub_u8(self, rhs.1), sub_u8(self, rhs.2), sub_u8(self, rhs.3))
    }
}

impl SubSpecImpl<uchar4> for u8 {
    open spec fn obeys_sub_spec() -> bool {
        true
    }

    open spec fn sub_req(self, rhs: uchar4) -> bool {
        true
    }

    open spec fn sub_spec(self, rhs: uchar4) -> uchar4 {
        uchar4(sub_u8(self, rhs.0), sub_u8(self, rhs.1), sub_u8(self, rhs.2), sub_u8(self, rhs.3))
    }
}

impl core::ops::Mul for uchar4 {
    type Output = uchar4;

    /// The lane-wise product of the two vectors, wrapping around.
    fn mul(self, rhs: uchar4) -> (r: uchar4) {
        uchar4(
            mul_u8(self.0, rhs.0), mul_u8(self.1, rhs.1), mul_u8(self.2, rhs.2),
            mul_u8(self.3, rhs.3),
        )
    }
}

impl MulSpecImpl for uchar4 {
    open spec fn obeys_mul_spec() -> bool {
        true
    }

    open spec fn mul_req(self, rhs: uchar4) -> bool {
        true
    }

    open spec fn mul_spec(self, rhs: uchar4) -> uchar4 {
        uchar4(
            mul_u8(self.0, rhs.0), mul_u8(self.1, rhs.1), mul_u8(self.2, rhs.2),
            mul_u8(self.3, rhs.3),
        )
    }
}

impl core::ops::Mul<u8> for uchar4 {
    type Output = uchar4;

    /// The product of every lane and the scalar, wrapping around.
    fn mul(self, rhs: u8) -> (r: uchar4) {
        uchar4(mul_u8(self.0, rhs), mul_u8(self.1, rhs), mul_u8(self.2, rhs), mul_u8(self.3, rhs))
    }
}

impl MulSpecImpl<u8> for uchar4 {
    open spec fn obeys_mul_spec() -> bool {
        true
    }

    open spec fn mul_req(self, rhs: u8) -> bool {
        true
    }

    open spec fn mul_spec(self, rhs: u8) -> uchar4 {
        uchar4(mul_u8(self.0, rhs), mul_u8(self.1, rhs), mul_u8(self.2, rhs), mul_u8(self.3, rhs))
    }
}

impl core::ops::Mul<uchar4> for u8 {
    type Output = uchar4;

    /// The product of the scalar and every lane, wrapping around.
    fn mul(self, rhs: uchar4) -> (r: uchar4) {
        uchar4(mul_u8(self, rhs.0), mul_u8(self, rhs.1), mul_u8(self, rhs.2), mul_u8(self, rhs.3))
    }
}

impl MulSpecImpl<uchar4> for u8 {
    open spec fn obeys_mul_spec() -> bool {
        true
    }

    open spec fn mul_req(self, rhs: uchar4) -> bool {
        true
    }

    open spec fn mul_spec(self, rhs: uchar4) -> uchar4 {
        uchar4(mul_u8(self, rhs.0), mul_u8(self, rhs.1), mul_u8(self, rhs.2), mul_u8(self, rhs.3))
    }
}

impl core::ops::Div for uchar4 {
    type Output = uchar4;

    /// The lane-wise quotient of the two vectors, rounded toward zero. No lane of the divisor is
    /// zero.
    fn div(self, rhs: uchar4) -> (r: uchar4) {
        uchar4(
            div_u8(self.0, rhs.0), div_u8(self.1, rhs.1), div_u8(self.2, rhs.2),
            div_u8(self.3, rhs.3),
        )
    }
}

impl DivSpecImpl for uchar4 {
    open spec fn obeys_div_spec() -> bool {
        true
    }

    open spec fn div_req(self, rhs: uchar4) -> bool {
        rhs.0 != 0 && rhs.1 != 0 && rhs.2 != 0 && rhs.3 != 0
    }

    open spec fn div_spec(self, rhs: uchar4) -> uchar4 {
        uchar4(
            div_u8(self.0, rhs.0), div_u8(self.1, rhs.1), div_u8(self.2, rhs.2),
            div_u8(self.3, rhs.3),
        )
    }
}

impl core::ops::Div<u8> for uchar4 {
    type Output = uchar4;

    /// The quotient of every lane by the scalar, rounded toward zero. The scalar is not zero.
    fn div(self, rhs: u8) -> (r: uchar4) {
        uchar4(div_u8(self.0, rhs), div_u8(self.1, rhs), div_u8(self.2, rhs), div_u8(self.3, rhs))
    }
}

impl DivSpecImpl<u8> for uchar4 {
    open spec fn obeys_div_spec() -> bool {
        true
    }

    open spec fn div_req(self, rhs: u8) -> bool {
        rhs != 0
    }

    open spec fn div_spec(self, rhs: u8) -> uchar4 {
        uchar4(div_u8(self.0, rhs), div_u8(self.1, rhs), div_u8(self.2, rhs), div_u8(self.3, rhs))
    }
}

impl core::ops::Div<uchar4> for u8 {
    type Output = uchar4;

    /// The quotient of the scalar by every lane, rounded toward zero. No lane is zero.
    fn div(self, rhs: uchar4) -> (r: uchar4) {
        uchar4(div_u8(self, rhs.0), div_u8(self, rhs.1), div_u8(self, rhs.2), div_u8(self, rhs.3))
    }
}

impl DivSpecImpl<uchar4> for u8 {
    open spec fn obeys_div_spec() -> bool {
        true
    }

    open spec fn div_req(self, rhs: uchar4) -> bool {
        rhs.0 != 0 && rhs.1 != 0 && rhs.2 != 0 && rhs.3 != 0
    }

    open spec fn div_spec(self, rhs: uchar4) -> uchar4 {
        uchar4(div_u8(self, rhs.0), div_u8(self, rhs.1), div_u8(self, rhs.2), div_u8(self, rhs.3))
    }
}

impl core::ops::BitAnd for uchar4 {
    type Output = uchar4;

    /// The lane-wise conjunction of the two vectors, bit by bit.
    fn bitand(self, rhs: uchar4) -> (r: uchar4) {
        uchar4(self.0 & rhs.0, self.1 & rhs.1, self.2 & rhs.2, self.3 & rhs.3)
    }
}

impl BitAndSpecImpl for uchar4 {
    open spec fn obeys_bitand_spec() -> bool {
        true
    }

    open spec fn bitand_req(self, rhs: uchar4) -> bool {
        true
    }

    open spec fn bitand_spec(self, rhs: uchar4) -> uchar4 {
        uchar4(self.0 & rhs.0, self.1 & rhs.1, self.2 & rhs.2, self.3 & rhs.3)
    }
}

impl core::ops::BitAnd<u8> for uchar4 {
    type Output = uchar4;

    /// The conjunction of every lane and the scalar, bit by bit.
    fn bitand(self, rhs: u8) -> (r: uchar4) {
        uchar4(self.0 & rhs, self.1 & rhs, self.2 & rhs, self.3 & rhs)
    }
}

impl BitAndSpecImpl<u8> for uchar4 {
    open spec fn obeys_bitand_spec() -> bool {
        true
    }

    open spec fn bitand_req(self, rhs: u8) -> bool {
        true
    }

    open spec fn bitand_spec(self, rhs: u8) -> uchar4 {
        uchar4(self.0 & rhs, self.1 & rhs, self.2 & rhs, self.3 & rhs)
    }
}

impl core::ops::BitAnd<uchar4> for u8 {
    type Output = uchar4;

    /// The conjunction of the scalar and every lane, bit by bit.
    fn bitand(self, rhs: uchar4) -> (r: uchar4) {
        uchar4(self & rhs.0, self & rhs.1, self & rhs.2, self & rhs.3)
    }
}

impl BitAndSpecImpl<uchar4> for u8 {
    open spec fn obeys_bitand_spec() -> bool {
        true
    }

    open spec fn bitand_req(self, rhs: uchar4) -> bool {
        true
    }

    open spec fn bitand_spec(self, rhs: uchar4) -> uchar4 {
        uchar4(self & rhs.0, self & rhs.1, self & rhs.2, self & rhs.3)
    }
}

impl core::ops::BitOr for uchar4 {
    type Output = uchar4;

    /// The lane-wise disjunction of the two vectors, bit by bit.
    fn bitor(self, rhs: uchar4) -> (r: uchar4) {
        uchar4(self.0 | rhs.0, self.1 | rhs.1, self.2 | rhs.2, self.3 | rhs.3)
    }
}

impl BitOrSpecImpl for uchar4 {
    open spec fn obeys_bitor_spec() -> bool {
        true
    }

    open spec fn bitor_req(self, rhs: uchar4) -> bool {
        true
    }

    open spec fn bitor_spec(self, rhs: uchar4) -> uchar4 {
        uchar4(self.0 | rhs.0, self.1 | rhs.1, self.2 | rhs.2, self.3 | rhs.3)
    }
}

impl core::ops::BitOr<u8> for uchar4 {
    type Output = uchar4;

    /// The disjunction of every lane and the scalar, bit by bit.
    fn bitor(self, rhs: u8) -> (r: uchar4) {
        uchar4(self.0 | rhs, self.1 | rhs, self.2 | rhs, self.3 | rhs)
    }
}

impl BitOrSpecImpl<u8> for uchar4 {
    open spec fn obeys_bitor_spec() -> bool {
        true
    }

    open spec fn bitor_req(self, rhs: u8) -> bool {
        true
    }

    open spec fn bitor_spec(self, rhs: u8) -> uchar4 {
        uchar4(self.0 | rhs, self.1 | rhs, self.2 | rhs, self.3 | rhs)
    }
}

impl core::ops::BitOr<uchar4> for u8 {
    type Output = uchar4;

    /// The disjunction of the scalar and every lane, bit by bit.
    fn bitor(self, rhs: uchar4) -> (r: uchar4) {
        uchar4(self | rhs.0, self | rhs.1, self | rhs.2, self | rhs.3)
    }
}

impl BitOrSpecImpl<uchar4> for u8 {
    open spec fn obeys_bitor_spec() -> bool {
        true
    }

    open spec fn bitor_req(self, rhs: uchar4) -> bool {
        true
    }

    open spec fn bitor_spec(self, rhs: uchar4) -> uchar4 {
        uchar4(self | rhs.0, self | rhs.1, self | rhs.2, self | rhs.3)
    }
}

impl core::ops::BitXor for uchar4 {
    type Output = uchar4;

    /// The lane-wise exclusive disjunction of the two vectors, bit by bit.
    fn bitxor(self, rhs: uchar4) -> (r: uchar4) {
        uchar4(self.0 ^ rhs.0, self.1 ^ rhs.1, self.2 ^ rhs.2, self.3 ^ rhs.3)
    }
}

impl BitXorSpecImpl for uchar4 {
    open spec fn obeys_bitxor_spec() -> bool {
        true
    }

    open spec fn bitxor_req(self, rhs: uchar4) -> bool {
        true
    }

    open spec fn bitxor_spec(self, rhs: uchar4) -> uchar4 {
        uchar4(self.0 ^ rhs.0, self.1 ^ rhs.1, self.2 ^ rhs.2, self.3 ^ rhs.3)
    }
}

impl core::ops::BitXor<u8> for uchar4 {
    type Output = uchar4;

    /// The exclusive disjunction of every lane and the scalar, bit by bit.
    fn bitxor(self, rhs: u8) -> (r: uchar4) {
        uchar4(self.0 ^ rhs, self.1 ^ rhs, self.2 ^ rhs, self.3 ^ rhs)
    }
}

impl BitXorSpecImpl<u8> for uchar4 {
    open spec fn obeys_bitxor_spec() -> bool {
        true
    }

    open spec fn bitxor_req(self, rhs: u8) -> bool {
        true
    }

    open spec fn bitxor_spec(self, rhs: u8) -> uchar4 {
        uchar4(self.0 ^ rhs, self.1 ^ rhs, self.2 ^ rhs, self.3 ^ rhs)
    }
}

impl core::ops::BitXor<uchar4> for u8 {
    type Output = uchar4;

    /// The exclusive disjunction of the scalar and every lane, bit by bit.
    fn bitxor(self, rhs: uchar4) -> (r: uchar4) {
        uchar4(self ^ rhs.0, self ^ rhs.1, self ^ rhs.2, self ^ rhs.3)
    }
}

impl BitXorSpecImpl<uchar4> for u8 {
    open spec fn obeys_bitxor_spec() -> bool {
        true
    }

    open spec fn bitxor_req(self, rhs: uchar4) -> bool {
        true
    }

    open spec fn bitxor_spec(self, rhs: uchar4) -> uchar4 {
        uchar4(self ^ rhs.0, self ^ rhs.1, self ^ rhs.2, self ^ rhs.3)
    }
}

impl core::ops::Shl for uchar4 {
    type Output = uchar4;

    /// Every lane shifted left by the lane of `rhs`, which is below 8.
    fn shl(self, rhs: uchar4) -> (r: uchar4) {
        uchar4(
            shl_u8(self.0, rhs.0), shl_u8(self.1, rhs.1), shl_u8(self.2, rhs.2),
            shl_u8(self.3, rhs.3),
        )
    }
}

impl ShlSpecImpl for uchar4 {
    open spec fn obeys_shl_spec() -> bool {
        true
    }

    open spec fn shl_req(self, rhs: uchar4) -> bool {
        0 <= rhs.0 < 8 && 0 <= rhs.1 < 8 && 0 <= rhs.2 < 8 && 0 <= rhs.3 < 8
    }

    open spec fn shl_spec(self, rhs: uchar4) -> uchar4 {
        uchar4(
            shl_u8(self.0, rhs.0), shl_u8(self.1, rhs.1), shl_u8(self.2, rhs.2),
            shl_u8(self.3, rhs.3),
        )
    }
}

impl core::ops::Shl<u8> for uchar4 {
    type Output = uchar4;

    /// Every lane shifted left by `rhs`, which is below 8.
    fn shl(self, rhs: u8) -> (r: uchar4) {
        uchar4(shl_u8(self.0, rhs), shl_u8(self.1, rhs), shl_u8(self.2, rhs), shl_u8(self.3, rhs))
    }
}

impl ShlSpecImpl<u8> for uchar4 {
    open spec fn obeys_shl_spec() -> bool {
        true
    }

    open spec fn shl_req(self, rhs: u8) -> bool {
        0 <= rhs < 8
    }

    open spec fn shl_spec(self, rhs: u8) -> uchar4 {
        uchar4(shl_u8(self.0, rhs), shl_u8(self.1, rhs), shl_u8(self.2, rhs), shl_u8(self.3, rhs))
    }
}

impl core::ops::Shl<uchar4> for u8 {
    type Output = uchar4;

    /// The scalar shifted left by every lane of `rhs`, each of which is below 8.
    fn shl(self, rhs: uchar4) -> (r: uchar4) {
        uchar4(shl_u8(self, rhs.0), shl_u8(self, rhs.1), shl_u8(self, rhs.2), shl_u8(self, rhs.3))
    }
}

impl ShlSpecImpl<uchar4> for u8 {
    open spec fn obeys_shl_spec() -> bool {
        true
    }

    open spec fn shl_req(self, rhs: uchar4) -> bool {
        0 <= rhs.0 < 8 && 0 <= rhs.1 < 8 && 0 <= rhs.2 < 8 && 0 <= rhs.3 < 8
    }

    open spec fn shl_spec(self, rhs: uchar4) -> uchar4 {
        uchar4(shl_u8(self, rhs.0), shl_u8(self, rhs.1), shl_u8(self, rhs.2), shl_u8(self, rhs.3))
    }
}

impl core::ops::Shr for uchar4 {
    type Output = uchar4;

    /// Every lane shifted right by the lane of `rhs`, which is below 8.
    fn shr(self, rhs: uchar4) -> (r: uchar4) {
        uchar4(
            shr_u8(self.0, rhs.0), shr_u8(self.1, rhs.1), shr_u8(self.2, rhs.2),
            shr_u8(self.3, rhs.3),
        )
    }
}

impl ShrSpecImpl for uchar4 {
    open spec fn obeys_shr_spec() -> bool {
        true
    }

    open spec fn shr_req(self, rhs: uchar4) -> bool {
        0 <= rhs.0 < 8 && 0 <= rhs.1 < 8 && 0 <= rhs.2 < 8 && 0 <= rhs.3 < 8
    }

    open spec fn shr_spec(self, rhs: uchar4) -> uchar4 {
        uchar4(
            shr_u8(self.0, rhs.0), shr_u8(self.1, rhs.1), shr_u8(self.2, rhs.2),
            shr_u8(self.3, rhs.3),
        )
    }
}

impl core::ops::Shr<u8> for uchar4 {
    type Output = uchar4;

    /// Every lane shifted right by `rhs`, which is below 8.
    fn shr(self, rhs: u8) -> (r: uchar4) {
        uchar4(shr_u8(self.0, rhs), shr_u8(self.1, rhs), shr_u8(self.2, rhs), shr_u8(self.3, rhs))
    }
}

impl ShrSpecImpl<u8> for uchar4 {
    open spec fn obeys_shr_spec() -> bool {
        true
    }

    open spec fn shr_req(self, rhs: u8) -> bool {
        0 <= rhs < 8
    }

    open spec fn shr_spec(self, rhs: u8) -> uchar4 {
        uchar4(shr_u8(self.0, rhs), shr_u8(self.1, rhs), shr_u8(self.2, rhs), shr_u8(self.3, rhs))
    }
}

impl core::ops::Shr<uchar4> for u8 {
    type Output = uchar4;

    /// The scalar shifted right by every lane of `rhs`, each of which is below 8.
    fn shr(self, rhs: uchar4) -> (r: uchar4) {
        uchar4(shr_u8(self, rhs.0), shr_u8(self, rhs.1), shr_u8(self, rhs.2), shr_u8(self, rhs.3))
    }
}

impl ShrSpecImpl<uchar4> for u8 {
    open spec fn obeys_shr_spec() -> bool {
        true
    }

    open spec fn shr_req(self, rhs: uchar4) -> bool {
        0 <= rhs.0 < 8 && 0 <= rhs.1 < 8 && 0 <= rhs.2 < 8 && 0 <= rhs.3 < 8
    }

    open spec fn shr_spec(self, rhs: uchar4) -> uchar4 {
        uchar4(shr_u8(self, rhs.0), shr_u8(self, rhs.1), shr_u8(self, rhs.2), shr_u8(self, rhs.3))
    }
}

impl core::ops::Rem for uchar4 {
    type Output = uchar4;

    /// The lane-wise remainder `self - (self / rhs) * rhs`. No lane of the divisor is zero.
    fn rem(self, rhs: uchar4) -> (r: uchar4) {
        uchar4(
            rem_u8(self.0, rhs.0), rem_u8(self.1, rhs.1), rem_u8(self.2, rhs.2),
            rem_u8(self.3, rhs.3),
        )
    }
}

impl RemSpecImpl for uchar4 {
    open spec fn obeys_rem_spec() -> bool {
        true
    }

    open spec fn rem_req(self, rhs: uchar4) -> bool {
        rhs.0 != 0 && rhs.1 != 0 && rhs.2 != 0 && rhs.3 != 0
    }

    open spec fn rem_spec(self, rhs: uchar4) -> uchar4 {
        uchar4(
            rem_u8(self.0, rhs.0), rem_u8(self.1, rhs.1), rem_u8(self.2, rhs.2),
            rem_u8(self.3, rhs.3),
        )
    }
}

impl core::ops::Neg for uchar4 {
    type Output = uchar4;

    /// Zero minus every lane, wrapping around.
    fn neg(self) -> (r: uchar4) {
        uchar4(neg_u8(self.0), neg_u8(self.1), neg_u8(self.2), neg_u8(self.3))
    }
}

impl NegSpecImpl for uchar4 {
    open spec fn obeys_neg_spec() -> bool {
        true
    }

    open spec fn neg_req(self) -> bool {
        true
    }

    open spec fn neg_spec(self) -> uchar4 {
        uchar4(neg_u8(self.0), neg_u8(self.1), neg_u8(self.2), neg_u8(self.3))
    }
}

impl core::ops::Not for uchar4 {
    type Output = uchar4;

    /// Every lane with every bit flipped.
    fn not(self) -> (r: uchar4) {
        uchar4(not_u8(self.0), not_u8(self.1), not_u8(self.2), not_u8(self.3))
    }
}

impl NotSpecImpl for uchar4 {
    open spec fn obeys_not_spec() -> bool {
        true
    }

    open spec fn not_req(self) -> bool {
        true
    }

    open spec fn not_spec(self) -> uchar4 {
        uchar4(not_u8(self.0), not_u8(self.1), not_u8(self.2), not_u8(self.3))
    }
}

impl core::convert::From<isize> for uchar4 {
    /// The vector with `x`, wrapped to `u8`, in every lane.
    fn from(x: isize) -> (r: uchar4) {
        let v = isize_to_u8(x);
        uchar4(v, v, v, v)
    }
}

impl FromSpecImpl<isize> for uchar4 {
    open spec fn obeys_from_spec() -> bool {
        true
    }

    open spec fn from_spec(x: isize) -> uchar4 {
        uchar4(isize_to_u8(x), isize_to_u8(x), isize_to_u8(x), isize_to_u8(x))
    }
}

impl core::ops::Index<u32> for uchar4 {
    type Output = u8;

    /// Lane `i`, which is below 4.
    fn index(&self, i: u32) -> (r: &u8)
        ensures
            *r == self.lane(i as int),
    {
        match i {
            0 => &self.0,
            1 => &self.1,
            2 => &self.2,
            _ => &self.3,
        }
    }
}

impl vstd::std_specs::core::IndexSpecImpl<u32> for uchar4 {
    open spec fn index_req(&self, i: &u32) -> bool {
        *i < 4
    }
}

impl uchar4 {
    /// Lane `i`, counted from zero.
    pub open spec fn lane(self, i: int) -> u8
        recommends
            0 <= i < 4,
    {
        if i == 0 {
            self.0
        } else if i == 1 {
            self.1
        } else if i == 2 {
            self.2
        } else {
            self.3
        }
    }

    /// The vector of type `uchar4` with the bits of `x`, a value of a type that has as many bits,
    /// which is one with images of type `uchar4`.
    pub fn bitcast<U: Bitcast<Image = uchar4>>(x: U) -> (r: uchar4)
        ensures
            r == spec_bitcast::<U, uchar4>(x),
    {
        bitcast(x)
    }

    /// The vector with `x` in every lane.
    pub fn broadcast(x: u8) -> (r: uchar4)
        ensures
            r == uchar4(x, x, x, x),
    {
        uchar4(x, x, x, x)
    }

    /// Lane `i`, which is below 4.
    pub fn extract(self, i: u32) -> (r: u8)
        requires
            i < 4,
        ensures
            r == self.lane(i as int),
    {
        match i {
            0 => self.0,
            1 => self.1,
            2 => self.2,
            _ => self.3,
        }
    }

    /// The vector with `x` in lane `i`, which is below 4, and the other lanes unchanged.
    pub fn replace(self, i: u32, x: u8) -> (r: uchar4)
        requires
            i < 4,
        ensures
            forall|j: int| 0 <= j < 4 ==> #[trigger] r.lane(j) == (if j == i {
                x
            } else {
                self.lane(j)
            }),
    {
        match i {
            0 => uchar4(x, self.1, self.2, self.3),
            1 => uchar4(self.0, x, self.2, self.3),
            2 => uchar4(self.0, self.1, x, self.3),
            _ => uchar4(self.0, self.1, self.2, x),
        }
    }

    /// The mask that is all ones where the lanes of `x` and `y` are equal, and zero elsewhere.
    pub fn eq(x: uchar4, y: uchar4) -> (r: char4)
        ensures
            r == char4(eq_u8(x.0, y.0), eq_u8(x.1, y.1), eq_u8(x.2, y.2), eq_u8(x.3, y.3)),
    {
        char4(eq_u8(x.0, y.0), eq_u8(x.1, y.1), eq_u8(x.2, y.2), eq_u8(x.3, y.3))
    }

    /// The mask that is all ones where the lanes of `x` and `y` differ, and zero elsewhere.
    pub fn ne(x: uchar4, y: uchar4) -> (r: char4)
        ensures
            r == char4(ne_u8(x.0, y.0), ne_u8(x.1, y.1), ne_u8(x.2, y.2), ne_u8(x.3, y.3)),
    {
        char4(ne_u8(x.0, y.0), ne_u8(x.1, y.1), ne_u8(x.2, y.2), ne_u8(x.3, y.3))
    }

    /// The mask that is all ones where the lane of `x` is less than that of `y`, and zero
    /// elsewhere.
    pub fn lt(x: uchar4, y: uchar4) -> (r: char4)
        ensures
            r == char4(lt_u8(x.0, y.0), lt_u8(x.1, y.1), lt_u8(x.2, y.2), lt_u8(x.3, y.3)),
    {
        char4(lt_u8(x.0, y.0), lt_u8(x.1, y.1), lt_u8(x.2, y.2), lt_u8(x.3, y.3))
    }

    /// The mask that is all ones where the lane of `x` is at most that of `y`, and zero elsewhere.
    pub fn le(x: uchar4, y: uchar4) -> (r: char4)
        ensures
            r == char4(le_u8(x.0, y.0), le_u8(x.1, y.1), le_u8(x.2, y.2), le_u8(x.3, y.3)),
    {
        char4(le_u8(x.0, y.0), le_u8(x.1, y.1), le_u8(x.2, y.2), le_u8(x.3, y.3))
    }

    /// The mask that is all ones where the lane of `x` is greater than that of `y`, and zero
    /// elsewhere.
    pub fn gt(x: uchar4, y: uchar4) -> (r: char4)
        ensures
            r == char4(gt_u8(x.0, y.0), gt_u8(x.1, y.1), gt_u8(x.2, y.2), gt_u8(x.3, y.3)),
    {
        char4(gt_u8(x.0, y.0), gt_u8(x.1, y.1), gt_u8(x.2, y.2), gt_u8(x.3, y.3))
    }

    /// The mask that is all ones where the lane of `x` is at least that of `y`, and zero elsewhere.
    pub fn ge(x: uchar4, y: uchar4) -> (r: char4)
        ensures
            r == char4(ge_u8(x.0, y.0), ge_u8(x.1, y.1), ge_u8(x.2, y.2), ge_u8(x.3, y.3)),
    {
        char4(ge_u8(x.0, y.0), ge_u8(x.1, y.1), ge_u8(x.2, y.2), ge_u8(x.3, y.3))
    }

    /// `x * y + z` lane by lane, wrapping around.
    pub fn madd(x: uchar4, y: uchar4, z: uchar4) -> (r: uchar4)
        ensures
            r == uchar4(
                madd_u8(x.0, y.0, z.0), madd_u8(x.1, y.1, z.1), madd_u8(x.2, y.2, z.2),
                madd_u8(x.3, y.3, z.3),
            ),
    {
        uchar4(
            madd_u8(x.0, y.0, z.0), madd_u8(x.1, y.1, z.1), madd_u8(x.2, y.2, z.2),
            madd_u8(x.3, y.3, z.3),
        )
    }

    /// The magnitude of every lane, which is the lane.
    pub fn abs(x: uchar4) -> (r: uchar4)
        ensures
            r == x.spec_abs(),
    {
        uchar4(abs_u8(x.0), abs_u8(x.1), abs_u8(x.2), abs_u8(x.3))
    }

    /// The greater lane of `x` and `y`, lane by lane.
    pub fn max(x: uchar4, y: uchar4) -> (r: uchar4)
        ensures
            r == x.spec_max(y),
    {
        uchar4(max_u8(x.0, y.0), max_u8(x.1, y.1), max_u8(x.2, y.2), max_u8(x.3, y.3))
    }

    /// The smaller lane of `x` and `y`, lane by lane.
    pub fn min(x: uchar4, y: uchar4) -> (r: uchar4)
        ensures
            r == x.spec_min(y),
    {
        uchar4(min_u8(x.0, y.0), min_u8(x.1, y.1), min_u8(x.2, y.2), min_u8(x.3, y.3))
    }

    /// Every lane of `x` raised to at least the lane of `lo`, then lowered to at most that of `hi`.
    pub fn clamp(x: uchar4, lo: uchar4, hi: uchar4) -> (r: uchar4)
        ensures
            r == x.spec_clamp(lo, hi),
    {
        uchar4(
            clamp_u8(x.0, lo.0, hi.0), clamp_u8(x.1, lo.1, hi.1), clamp_u8(x.2, lo.2, hi.2),
            clamp_u8(x.3, lo.3, hi.3),
        )
    }

    /// The sum of the lanes, wrapping around.
    pub fn reduce_add(x: uchar4) -> (r: u8)
        ensures
            r == x.spec_reduce_add(),
    {
        let s = add_u8(x.0, x.1);
        let ghost mut t: int = x.0 + x.1;
        proof {
            lemma_wrap_u8_sum(t, x.2 as int);
            t = t + x.2;
        }
        let s = add_u8(s, x.2);
        proof {
            lemma_wrap_u8_sum(t, x.3 as int);
            t = t + x.3;
        }
        let s = add_u8(s, x.3);
        s
    }

    /// The smallest lane.
    pub fn reduce_min(x: uchar4) -> (r: u8)
        ensures
            r == x.spec_reduce_min(),
            r <= x.0 && r <= x.1 && r <= x.2 && r <= x.3,
            r == x.0 || r == x.1 || r == x.2 || r == x.3,
    {
        let s = min_u8(x.0, x.1);
        let s = min_u8(s, x.2);
        let s = min_u8(s, x.3);
        s
    }

    /// The greatest lane.
    pub fn reduce_max(x: uchar4) -> (r: u8)
        ensures
            r == x.spec_reduce_max(),
            r >= x.0 && r >= x.1 && r >= x.2 && r >= x.3,
            r == x.0 || r == x.1 || r == x.2 || r == x.3,
    {
        let s = max_u8(x.0, x.1);
        let s = max_u8(s, x.2);
        let s = max_u8(s, x.3);
        s
    }

    /// Every lane as `i8`: the same bits, read as `i8`.
    pub fn to_char(x: uchar4) -> (r: char4)
        ensures
            r == char4(u8_to_i8(x.0), u8_to_i8(x.1), u8_to_i8(x.2), u8_to_i8(x.3)),
    {
        char4(u8_to_i8(x.0), u8_to_i8(x.1), u8_to_i8(x.2), u8_to_i8(x.3))
    }

    /// Every lane as `i8`, saturating: a lane outside the range of `i8` gives the nearest bound.
    pub fn to_char_sat(x: uchar4) -> (r: char4)
        ensures
            r == x.spec_to_char_sat(),
    {
        char4(u8_to_i8_sat(x.0), u8_to_i8_sat(x.1), u8_to_i8_sat(x.2), u8_to_i8_sat(x.3))
    }

    /// The vector itself: its lanes are `u8` already.
    pub fn to_uchar(x: uchar4) -> (r: uchar4)
        ensures
            r == x,
    {
        x
    }

    /// The vector itself: its lanes are `u8` already, and nothing saturates.
    pub fn to_uchar_sat(x: uchar4) -> (r: uchar4)
        ensures
            r == x.spec_to_uchar_sat(),
    {
        x
    }

    /// Every lane as `i16`, which holds every `u8`.
    pub fn to_short(x: uchar4) -> (r: short4)
        ensures
            r == short4(u8_to_i16(x.0), u8_to_i16(x.1), u8_to_i16(x.2), u8_to_i16(x.3)),
    {
        short4(u8_to_i16(x.0), u8_to_i16(x.1), u8_to_i16(x.2), u8_to_i16(x.3))
    }

    /// Every lane as `i16`, saturating; nothing saturates, since `i16` holds every `u8`.
    pub fn to_short_sat(x: uchar4) -> (r: short4)
        ensures
            r == x.spec_to_short_sat(),
    {
        short4(u8_to_i16_sat(x.0), u8_to_i16_sat(x.1), u8_to_i16_sat(x.2), u8_to_i16_sat(x.3))
    }

    /// Every lane as `u16`, which holds every `u8`.
    pub fn to_ushort(x: uchar4) -> (r: ushort4)
        ensures
            r == ushort4(u8_to_u16(x.0), u8_to_u16(x.1), u8_to_u16(x.2), u8_to_u16(x.3)),
    {
        ushort4(u8_to_u16(x.0), u8_to_u16(x.1), u8_to_u16(x.2), u8_to_u16(x.3))
    }

    /// Every lane as `u16`, saturating; nothing saturates, since `u16` holds every `u8`.
    pub fn to_ushort_sat(x: uchar4) -> (r: ushort4)
        ensures
            r == x.spec_to_ushort_sat(),
    {
        ushort4(u8_to_u16_sat(x.0), u8_to_u16_sat(x.1), u8_to_u16_sat(x.2), u8_to_u16_sat(x.3))
    }

    /// Every lane as `i32`, which holds every `u8`.
    pub fn to_int(x: uchar4) -> (r: int4)
        ensures
            r == int4(u8_to_i32(x.0), u8_to_i32(x.1), u8_to_i32(x.2), u8_to_i32(x.3)),
    {
        int4(u8_to_i32(x.0), u8_to_i32(x.1), u8_to_i32(x.2), u8_to_i32(x.3))
    }

    /// Every lane as `i32`, saturating; nothing saturates, since `i32` holds every `u8`.
    pub fn to_int_sat(x: uchar4) -> (r: int4)
        ensures
            r == x.spec_to_int_sat(),
    {
        int4(u8_to_i32_sat(x.0), u8_to_i32_sat(x.1), u8_to_i32_sat(x.2), u8_to_i32_sat(x.3))
    }

    /// Every lane as `u32`, which holds every `u8`.
    pub fn to_uint(x: uchar4) -> (r: uint4)
        ensures
            r == uint4(u8_to_u32(x.0), u8_to_u32(x.1), u8_to_u32(x.2), u8_to_u32(x.3)),
    {
        uint4(u8_to_u32(x.0), u8_to_u32(x.1), u8_to_u32(x.2), u8_to_u32(x.3))
    }

    /// Every lane as `u32`, saturating; nothing saturates, since `u32` holds every `u8`.
    pub fn to_uint_sat(x: uchar4) -> (r: uint4)
        ensures
            r == x.spec_to_uint_sat(),
    {
        uint4(u8_to_u32_sat(x.0), u8_to_u32_sat(x.1), u8_to_u32_sat(x.2), u8_to_u32_sat(x.3))
    }

    /// Every lane as `i64`, which holds every `u8`.
    pub fn to_long(x: uchar4) -> (r: long4)
        ensures
            r == long4(u8_to_i64(x.0), u8_to_i64(x.1), u8_to_i64(x.2), u8_to_i64(x.3)),
    {
        long4(u8_to_i64(x.0), u8_to_i64(x.1), u8_to_i64(x.2), u8_to_i64(x.3))
    }

    /// Every lane as `i64`, saturating; nothing saturates, since `i64` holds every `u8`.
    pub fn to_long_sat(x: uchar4) -> (r: long4)
        ensures
            r == x.spec_to_long_sat(),
    {
        long4(u8_to_i64_sat(x.0), u8_to_i64_sat(x.1), u8_to_i64_sat(x.2), u8_to_i64_sat(x.3))
    }

    /// Every lane as `u64`, which holds every `u8`.
    pub fn to_ulong(x: uchar4) -> (r: ulong4)
        ensures
            r == ulong4(u8_to_u64(x.0), u8_to_u64(x.1), u8_to_u64(x.2), u8_to_u64(x.3)),
    {
        ulong4(u8_to_u64(x.0), u8_to_u64(x.1), u8_to_u64(x.2), u8_to_u64(x.3))
    }

    /// Every lane as `u64`, saturating; nothing saturates, since `u64` holds every `u8`.
    pub fn to_ulong_sat(x: uchar4) -> (r: ulong4)
        ensures
            r == x.spec_to_ulong_sat(),
    {
        ulong4(u8_to_u64_sat(x.0), u8_to_u64_sat(x.1), u8_to_u64_sat(x.2), u8_to_u64_sat(x.3))
    }

    /// The low half: lanes 0 to 1.
    pub fn lo(self) -> (r: uchar2)
        ensures
            r == uchar2(self.0, self.1),
    {
        uchar2(self.0, self.1)
    }

    /// The high half: lanes 2 to 3.
    pub fn hi(self) -> (r: uchar2)
        ensures
            r == uchar2(self.2, self.3),
    {
        uchar2(self.2, self.3)
    }

    /// The odd lanes: lanes 1, 3 and so on.
    pub fn odd(self) -> (r: uchar2)
        ensures
            r == uchar2(self.1, self.3),
    {
        uchar2(self.1, self.3)
    }

    /// The even lanes: lanes 0, 2 and so on.
    pub fn even(self) -> (r: uchar2)
        ensures
            r == uchar2(self.0, self.2),
    {
        uchar2(self.0, self.2)
    }

    /// The vector of `f` applied to every lane. `f` accepts every lane.
    pub fn map_unary<F: Fn(u8) -> u8>(self, f: F) -> (r: uchar4)
        requires
            call_requires(f, (self.0,)),
            call_requires(f, (self.1,)),
            call_requires(f, (self.2,)),
            call_requires(f, (self.3,)),
        ensures
            call_ensures(f, (self.0,), r.0),
            call_ensures(f, (self.1,), r.1),
            call_ensures(f, (self.2,), r.2),
            call_ensures(f, (self.3,), r.3),
    {
        uchar4(f(self.0), f(self.1), f(self.2), f(self.3))
    }

    /// The vector of `f` applied to the lanes of the two vectors, lane by lane. `f` accepts every
    /// such pair of lanes.
    pub fn map_binary<F: Fn(u8, u8) -> u8>(self, other: uchar4, f: F) -> (r: uchar4)
        requires
            call_requires(f, (self.0, other.0)),
            call_requires(f, (self.1, other.1)),
            call_requires(f, (self.2, other.2)),
            call_requires(f, (self.3, other.3)),
        ensures
            call_ensures(f, (self.0, other.0), r.0),
            call_ensures(f, (self.1, other.1), r.1),
            call_ensures(f, (self.2, other.2), r.2),
            call_ensures(f, (self.3, other.3), r.3),
    {
        uchar4(f(self.0, other.0), f(self.1, other.1), f(self.2, other.2), f(self.3, other.3))
    }

    /// The lanes folded by `f`, from lane 0 upward: `f` is applied to lane 1 and lane 0, then to
    /// each further lane and what the lanes below it gave. `f` accepts every pair of scalars.
    pub fn reduce<F: Fn(u8, u8) -> u8>(self, f: F) -> (r: u8)
        requires
            forall|a: u8, b: u8| call_requires(f, (a, b)),
        ensures
            exists|s1: u8, s2: u8|
                call_ensures(f, (self.1, self.0), s1)
                    && call_ensures(f, (self.2, s1), s2)
                    && call_ensures(f, (self.3, s2), r),
    {
        let s1 = f(self.1, self.0);
        let s2 = f(self.2, s1);
        let s3 = f(self.3, s2);
        s3
    }

    /// Addition commutes.
    pub proof fn lemma_add_commutes(x: uchar4, y: uchar4)
        ensures
            AddSpec::add_spec(x, y) == AddSpec::add_spec(y, x),
    {
        lemma_arith_u8(x.0, y.0, 0);
        lemma_arith_u8(x.1, y.1, 0);
        lemma_arith_u8(x.2, y.2, 0);
        lemma_arith_u8(x.3, y.3, 0);
    }

    /// Addition associates, wrap-around or not.
    pub proof fn lemma_add_associates(x: uchar4, y: uchar4, z: uchar4)
        ensures
            AddSpec::add_spec(AddSpec::add_spec(x, y), z)
                == AddSpec::add_spec(x, AddSpec::add_spec(y, z)),
    {
        lemma_arith_u8(x.0, y.0, z.0);
        lemma_arith_u8(x.1, y.1, z.1);
        lemma_arith_u8(x.2, y.2, z.2);
        lemma_arith_u8(x.3, y.3, z.3);
    }

    /// Swapping the operands of a subtraction negates the difference.
    pub proof fn lemma_sub_swaps(x: uchar4, y: uchar4)
        ensures
            SubSpec::sub_spec(x, y) == NegSpec::neg_spec(SubSpec::sub_spec(y, x)),
    {
        lemma_arith_u8(x.0, y.0, 0);
        lemma_arith_u8(x.1, y.1, 0);
        lemma_arith_u8(x.2, y.2, 0);
        lemma_arith_u8(x.3, y.3, 0);
    }

    /// The magnitude of an unsigned vector is the vector.
    pub proof fn lemma_abs(x: uchar4)
        ensures
            x.spec_abs() == x,
            x.spec_abs().spec_abs() == x.spec_abs(),
    {
    }

    /// Flipping every bit of a lane gives the greatest `u8` minus the lane.
    pub proof fn lemma_not(x: uchar4)
        ensures
            forall|i: int|
                0 <= i < 4 ==> #[trigger] NotSpec::not_spec(x).lane(i) == u8::MAX - x.lane(i),
    {
        lemma_not_u8(x.0);
        lemma_not_u8(x.1);
        lemma_not_u8(x.2);
        lemma_not_u8(x.3);
    }

    /// The lanes of a vector with `k` in every lane add up to 4 times `k`, wrapped around.
    pub proof fn lemma_reduce_add_broadcast(k: u8)
        ensures
            uchar4(k, k, k, k).spec_reduce_add() == wrap_u8(4 * k),
    {
    }

    /// Saturating conversion to `i8` gives, lane by lane, the lane itself where `i8` holds it and
    /// the nearest bound of `i8` where it does not.
    pub proof fn lemma_to_char_sat(x: uchar4)
        ensures
            forall|i: int|
                0 <= i < 4 ==> #[trigger] x.spec_to_char_sat().lane(i) == sat_i8(x.lane(i) as int),
    {
    }

    /// Saturating conversion to `i16` gives every lane unchanged: `i16` holds every `u8`.
    pub proof fn lemma_to_short_sat(x: uchar4)
        ensures
            forall|i: int|
                0 <= i < 4 ==>
                    #[trigger] x.spec_to_short_sat().lane(i) == sat_i16(x.lane(i) as int),
            forall|i: int| 0 <= i < 4 ==> #[trigger] x.spec_to_short_sat().lane(i) == x.lane(i),
    {
    }

    /// Saturating conversion to `u16` gives every lane unchanged: `u16` holds every `u8`.
    pub proof fn lemma_to_ushort_sat(x: uchar4)
        ensures
            forall|i: int|
                0 <= i < 4 ==>
                    #[trigger] x.spec_to_ushort_sat().lane(i) == sat_u16(x.lane(i) as int),
            forall|i: int| 0 <= i < 4 ==> #[trigger] x.spec_to_ushort_sat().lane(i) == x.lane(i),
    {
    }

    /// Saturating conversion to `i32` gives every lane unchanged: `i32` holds every `u8`.
    pub proof fn lemma_to_int_sat(x: uchar4)
        ensures
            forall|i: int|
                0 <= i < 4 ==> #[trigger] x.spec_to_int_sat().lane(i) == sat_i32(x.lane(i) as int),
            forall|i: int| 0 <= i < 4 ==> #[trigger] x.spec_to_int_sat().lane(i) == x.lane(i),
    {
    }

    /// Saturating conversion to `u32` gives every lane unchanged: `u32` holds every `u8`.
    pub proof fn lemma_to_uint_sat(x: uchar4)
        ensures
            forall|i: int|
                0 <= i < 4 ==> #[trigger] x.spec_to_uint_sat().lane(i) == sat_u32(x.lane(i) as int),
            forall|i: int| 0 <= i < 4 ==> #[trigger] x.spec_to_uint_sat().lane(i) == x.lane(i),
    {
    }

    /// Saturating conversion to `i64` gives every lane unchanged: `i64` holds every `u8`.
    pub proof fn lemma_to_long_sat(x: uchar4)
        ensures
            forall|i: int|
                0 <= i < 4 ==> #[trigger] x.spec_to_long_sat().lane(i) == sat_i64(x.lane(i) as int),
            forall|i: int| 0 <= i < 4 ==> #[trigger] x.spec_to_long_sat().lane(i) == x.lane(i),
    {
    }

    /// Saturating conversion to `u64` gives every lane unchanged: `u64` holds every `u8`.
    pub proof fn lemma_to_ulong_sat(x: uchar4)
        ensures
            forall|i: int|
                0 <= i < 4 ==>
                    #[trigger] x.spec_to_ulong_sat().lane(i) == sat_u64(x.lane(i) as int),
            forall|i: int| 0 <= i < 4 ==> #[trigger] x.spec_to_ulong_sat().lane(i) == x.lane(i),
    {
    }
}

impl Vector for uchar4 {
    type Scalar = u8;

    type Boolean = char4;

    type CharVector = char4;

    type ShortVector = short4;

    type IntVector = int4;

    type LongVector = long4;

    type UCharVector = uchar4;

    type UShortVector = ushort4;

    type UIntVector = uint4;

    type ULongVector = ulong4;

    type FloatVector = float4;

    type DoubleVector = double4;

    open spec fn spec_abs(self) -> uchar4 {
        uchar4(abs_u8(self.0), abs_u8(self.1), abs_u8(self.2), abs_u8(self.3))
    }

    open spec fn spec_max(self, other: uchar4) -> uchar4 {
        uchar4(
            max_u8(self.0, other.0), max_u8(self.1, other.1), max_u8(self.2, other.2),
            max_u8(self.3, other.3),
        )
    }

    open spec fn spec_min(self, other: uchar4) -> uchar4 {
        uchar4(
            min_u8(self.0, other.0), min_u8(self.1, other.1), min_u8(self.2, other.2),
            min_u8(self.3, other.3),
        )
    }

    open spec fn spec_clamp(self, lo: uchar4, hi: uchar4) -> uchar4 {
        uchar4(
            clamp_u8(self.0, lo.0, hi.0), clamp_u8(self.1, lo.1, hi.1),
            clamp_u8(self.2, lo.2, hi.2), clamp_u8(self.3, lo.3, hi.3),
        )
    }

    open spec fn spec_reduce_add(self) -> u8 {
        wrap_u8(self.0 + self.1 + self.2 + self.3)
    }

    open spec fn spec_reduce_min(self) -> u8 {
        let s = min_u8(self.0, self.1);
        let s = min_u8(s, self.2);
        let s = min_u8(s, self.3);
        s
    }

    open spec fn spec_reduce_max(self) -> u8 {
        let s = max_u8(self.0, self.1);
        let s = max_u8(s, self.2);
        let s = max_u8(s, self.3);
        s
    }

    open spec fn spec_to_char_sat(self) -> char4 {
        char4(
            u8_to_i8_sat(self.0), u8_to_i8_sat(self.1), u8_to_i8_sat(self.2), u8_to_i8_sat(self.3),
        )
    }

    open spec fn spec_to_uchar_sat(self) -> uchar4 {
        self
    }

    open spec fn spec_to_short_sat(self) -> short4 {
        short4(
            u8_to_i16_sat(self.0), u8_to_i16_sat(self.1), u8_to_i16_sat(self.2),
            u8_to_i16_sat(self.3),
        )
    }

    open spec fn spec_to_ushort_sat(self) -> ushort4 {
        ushort4(
            u8_to_u16_sat(self.0), u8_to_u16_sat(self.1), u8_to_u16_sat(self.2),
            u8_to_u16_sat(self.3),
        )
    }

    open spec fn spec_to_int_sat(self) -> int4 {
        int4(
            u8_to_i32_sat(self.0), u8_to_i32_sat(self.1), u8_to_i32_sat(self.2),
            u8_to_i32_sat(self.3),
        )
    }

    open spec fn spec_to_uint_sat(self) -> uint4 {
        uint4(
            u8_to_u32_sat(self.0), u8_to_u32_sat(self.1), u8_to_u32_sat(self.2),
            u8_to_u32_sat(self.3),
        )
    }

    open spec fn spec_to_long_sat(self) -> long4 {
        long4(
            u8_to_i64_sat(self.0), u8_to_i64_sat(self.1), u8_to_i64_sat(self.2),
            u8_to_i64_sat(self.3),
        )
    }

    open spec fn spec_to_ulong_sat(self) -> ulong4 {
        ulong4(
            u8_to_u64_sat(self.0), u8_to_u64_sat(self.1), u8_to_u64_sat(self.2),
            u8_to_u64_sat(self.3),
        )
    }

    fn abs(self) -> (r: uchar4) {
        uchar4::abs(self)
    }

    fn max(self, other: uchar4) -> (r: uchar4) {
        uchar4::max(self, other)
    }

    fn min(self, other: uchar4) -> (r: uchar4) {
        uchar4::min(self, other)
    }

    fn clamp(self, lo: uchar4, hi: uchar4) -> (r: uchar4) {
        uchar4::clamp(self, lo, hi)
    }

    fn reduce_add(self) -> (r: u8) {
        uchar4::reduce_add(self)
    }

    fn reduce_min(self) -> (r: u8) {
        uchar4::reduce_min(self)
    }

    fn reduce_max(self) -> (r: u8) {
        uchar4::reduce_max(self)
    }

    fn to_char_sat(self) -> (r: char4) {
        uchar4::to_char_sat(self)
    }

    fn to_uchar_sat(self) -> (r: uchar4) {
        uchar4::to_uchar_sat(self)
    }

    fn to_short_sat(self) -> (r: short4) {
        uchar4::to_short_sat(self)
    }

    fn to_ushort_sat(self) -> (r: ushort4) {
        uchar4::to_ushort_sat(self)
    }

    fn to_int_sat(self) -> (r: int4) {
        uchar4::to_int_sat(self)
    }

    fn to_uint_sat(self) -> (r: uint4) {
        uchar4::to_uint_sat(self)
    }

    fn to_long_sat(self) -> (r: long4) {
        uchar4::to_long_sat(self)
    }

    fn to_ulong_sat(self) -> (r: ulong4) {
        uchar4::to_ulong_sat(self)
    }
}

impl Integer for uchar4 {
    open spec fn spec_reduce_and(self) -> u8 {
        self.0 & self.1 & self.2 & self.3
    }

    open spec fn spec_reduce_or(self) -> u8 {
        self.0 | self.1 | self.2 | self.3
    }

    open spec fn spec_reduce_xor(self) -> u8 {
        self.0 ^ self.1 ^ self.2 ^ self.3
    }

    open spec fn spec_all(self) -> bool {
        truth_u8(self.0) && truth_u8(self.1) && truth_u8(self.2) && truth_u8(self.3)
    }

    open spec fn spec_any(self) -> bool {
        truth_u8(self.0) || truth_u8(self.1) || truth_u8(self.2) || truth_u8(self.3)
    }

    fn reduce_and(self) -> (r: u8) {
        self.0 & self.1 & self.2 & self.3
    }

    fn reduce_or(self) -> (r: u8) {
        self.0 | self.1 | self.2 | self.3
    }

    fn reduce_xor(self) -> (r: u8) {
        self.0 ^ self.1 ^ self.2 ^ self.3
    }

    fn all(self) -> (r: bool) {
        proof {
            let s = self.0 & self.1;
            lemma_bits_u8(self.0, self.1, 0, 0, 0);
            lemma_bits_u8(s, self.2, 0, 0, 0);
            let s = s & self.2;
            lemma_bits_u8(s, self.3, 0, 0, 0);
        }
        truth_u8(self.reduce_and())
    }

    fn any(self) -> (r: bool) {
        proof {
            let s = self.0 | self.1;
            lemma_bits_u8(self.0, self.1, 0, 0, 0);
            lemma_bits_u8(s, self.2, 0, 0, 0);
            let s = s | self.2;
            lemma_bits_u8(s, self.3, 0, 0, 0);
        }
        truth_u8(self.reduce_or())
    }
}

impl Dot for uchar4 {
    type DotProduct = u8;

    open spec fn spec_dot(self, other: uchar4) -> u8 {
        wrap_u8(self.0 * other.0 + self.1 * other.1 + self.2 * other.2 + self.3 * other.3)
    }

    fn dot(self, other: uchar4) -> (r: u8) {
        let s = mul_u8(self.0, other.0);
        let ghost mut t: int = self.0 * other.0;
        proof {
            lemma_wrap_u8_sum(t, self.1 * other.1);
            t = t + self.1 * other.1;
        }
        let s = madd_u8(self.1, other.1, s);
        proof {
            lemma_wrap_u8_sum(t, self.2 * other.2);
            t = t + self.2 * other.2;
        }
        let s = madd_u8(self.2, other.2, s);
        proof {
            lemma_wrap_u8_sum(t, self.3 * other.3);
            t = t + self.3 * other.3;
        }
        let s = madd_u8(self.3, other.3, s);
        s
    }
}

impl Bitcast for uchar4 {
    type Image = uchar4;

    open spec fn spec_image(self) -> uchar4 {
        self
    }

    open spec fn spec_from_image(image: uchar4) -> uchar4 {
        image
    }

    open spec fn spec_fills() -> bool {
        true
    }

    fn image(self) -> (r: uchar4) {
        self
    }

    fn from_image(image: uchar4) -> (r: uchar4) {
        image
    }

    proof fn lemma_image(x: uchar4) {
    }

    proof fn lemma_from_image(image: uchar4) {
    }
}

impl uchar4 {
    /// Read as `char4`, which has lanes of the same width, a vector keeps the bits of every lane;
    /// read as `uchar4` again, it is what it was.
    pub proof fn lemma_bitcast_char4(x: uchar4)
        ensures
            spec_bitcast::<uchar4, char4>(x)
                == char4(u8_to_i8(x.0), u8_to_i8(x.1), u8_to_i8(x.2), u8_to_i8(x.3)),
            spec_bitcast::<char4, uchar4>(spec_bitcast::<uchar4, char4>(x)) == x,
    {
        lemma_recast_u8(x.0);
        lemma_recast_u8(x.1);
        lemma_recast_u8(x.2);
        lemma_recast_u8(x.3);
    }
}

} // verus!
