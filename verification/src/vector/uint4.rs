//! `uint4`: four lanes of `u32`.

use crate::scalar::lane_u32::{
    abs_u32, add_u32, clamp_u32, div_u32, eq_u32, ge_u32, gt_u32, isize_to_u32, le_u32,
    lemma_arith_u32, lemma_bits_u32, lemma_not_u32, lemma_recast_u32, lt_u32, madd_u32, max_u32,
    min_u32, mul_u32, ne_u32, neg_u32, not_u32, rem_u32, shl_u32, shr_u32, sub_u32, truth_u32,
    u32_to_i16, u32_to_i16_sat, u32_to_i32, u32_to_i32_sat, u32_to_i64, u32_to_i64_sat, u32_to_i8,
    u32_to_i8_sat, u32_to_u16, u32_to_u16_sat, u32_to_u64, u32_to_u64_sat, u32_to_u8, u32_to_u8_sat,
};
use crate::scalar::model::{
    lemma_wrap_u32_sum, sat_i16, sat_i32, sat_i64, sat_i8, sat_u16, sat_u64, sat_u8, wrap_u32,
};
use crate::scalar::regroup::{join_u8_u32, lemma_regroup_u8_u32, split_u32_u8};
use crate::traits::{Bitcast, Dot, Integer, Vector, bitcast, spec_bitcast};
use crate::vector::char4::char4;
use crate::vector::double4::double4;
use crate::vector::float4::float4;
use crate::vector::int4::int4;
use crate::vector::long4::long4;
use crate::vector::short4::short4;
use crate::vector::uchar16::uchar16;
use crate::vector::uchar4::uchar4;
use crate::vector::uint2::uint2;
use crate::vector::ulong4::ulong4;
use crate::vector::ushort4::ushort4;
use vstd::prelude::*;
use vstd::std_specs::convert::FromSpecImpl;
use vstd::std_specs::ops::{
    AddSpec, AddSpecImpl, BitAndSpecImpl, BitOrSpecImpl, BitXorSpecImpl, DivSpecImpl, MulSpecImpl,
    NegSpec, NegSpecImpl, NotSpec, NotSpecImpl, RemSpecImpl, ShlSpecImpl, ShrSpecImpl, SubSpec,
    SubSpecImpl,
};

verus! {

/// Four lanes of `u32`.
#[derive(Copy, Clone, Debug, PartialEq, Eq, Structural)]
pub struct uint4(pub u32, pub u32, pub u32, pub u32);

impl core::ops::Add for uint4 {
    type Output = uint4;

    /// The lane-wise sum of the two vectors, wrapping around.
    fn add(self, rhs: uint4) -> (r: uint4) {
        uint4(
            add_u32(self.0, rhs.0), add_u32(self.1, rhs.1), add_u32(self.2, rhs.2),
            add_u32(self.3, rhs.3),
        )
    }
}

impl AddSpecImpl for uint4 {
    open spec fn obeys_add_spec() -> bool {
        true
    }

    open spec fn add_req(self, rhs: uint4) -> bool {
        true
    }

    open spec fn add_spec(self, rhs: uint4) -> uint4 {
        uint4(
            add_u32(self.0, rhs.0), add_u32(self.1, rhs.1), add_u32(self.2, rhs.2),
            add_u32(self.3, rhs.3),
        )
    }
}

impl core::ops::Add<u32> for uint4 {
    type Output = uint4;

    /// The sum of every lane and the scalar, wrapping around.
    fn add(self, rhs: u32) -> (r: uint4) {
        uint4(
            add_u32(self.0, rhs), add_u32(self.1, rhs), add_u32(self.2, rhs), add_u32(self.3, rhs),
        )
    }
}

impl AddSpecImpl<u32> for uint4 {
    open spec fn obeys_add_spec() -> bool {
        true
    }

    open spec fn add_req(self, rhs: u32) -> bool {
        true
    }

    open spec fn add_spec(self, rhs: u32) -> uint4 {
        uint4(
            add_u32(self.0, rhs), add_u32(self.1, rhs), add_u32(self.2, rhs), add_u32(self.3, rhs),
        )
    }
}

impl core::ops::Add<uint4> for u32 {
    type Output = uint4;

    /// The sum of the scalar and every lane, wrapping around.
    fn add(self, rhs: uint4) -> (r: uint4) {
        uint4(
            add_u32(self, rhs.0), add_u32(self, rhs.1), add_u32(self, rhs.2), add_u32(self, rhs.3),
        )
    }
}

impl AddSpecImpl<uint4> for u32 {
    open spec fn obeys_add_spec() -> bool {
        true
    }

    open spec fn add_req(self, rhs: uint4) -> bool {
        true
    }

    open spec fn add_spec(self, rhs: uint4) -> uint4 {
        uint4(
            add_u32(self, rhs.0), add_u32(self, rhs.1), add_u32(self, rhs.2), add_u32(self, rhs.3),
        )
    }
}

impl core::ops::Sub for uint4 {
    type Output = uint4;

    /// The lane-wise difference of the two vectors, wrapping around.
    fn sub(self, rhs: uint4) -> (r: uint4) {
        uint4(
            sub_u32(self.0, rhs.0), sub_u32(self.1, rhs.1), sub_u32(self.2, rhs.2),
            sub_u32(self.3, rhs.3),
        )
    }
}

impl SubSpecImpl for uint4 {
    open spec fn obeys_sub_spec() -> bool {
        true
    }

    open spec fn sub_req(self, rhs: uint4) -> bool {
        true
    }

    open spec fn sub_spec(self, rhs: uint4) -> uint4 {
        uint4(
            sub_u32(self.0, rhs.0), sub_u32(self.1, rhs.1), sub_u32(self.2, rhs.2),
            sub_u32(self.3, rhs.3),
        )
    }
}

impl core::ops::Sub<u32> for uint4 {
    type Output = uint4;

    /// The difference of every lane and the scalar, wrapping around.
    fn sub(self, rhs: u32) -> (r: uint4) {
        uint4(
            sub_u32(self.0, rhs), sub_u32(self.1, rhs), sub_u32(self.2, rhs), sub_u32(self.3, rhs),
        )
    }
}

impl SubSpecImpl<u32> for uint4 {
    open spec fn obeys_sub_spec() -> bool {
        true
    }

    open spec fn sub_req(self, rhs: u32) -> bool {
        true
    }

    open spec fn sub_spec(self, rhs: u32) -> uint4 {
        uint4(
            sub_u32(self.0, rhs), sub_u32(self.1, rhs), sub_u32(self.2, rhs), sub_u32(self.3, rhs),
        )
    }
}

impl core::ops::Sub<uint4> for u32 {
    type Output = uint4;

    /// The difference of the scalar and every lane, wrapping around.
    fn sub(self, rhs: uint4) -> (r: uint4) {
        uint4(
            sub_u32(self, rhs.0), sub_u32(self, rhs.1), sub_u32(self, rhs.2), sub_u32(self, rhs.3),
        )
    }
}

impl SubSpecImpl<uint4> for u32 {
    open spec fn obeys_sub_spec() -> bool {
        true
    }

    open spec fn sub_req(self, rhs: uint4) -> bool {
        true
    }

    open spec fn sub_spec(self, rhs: uint4) -> uint4 {
        uint4(
            sub_u32(self, rhs.0), sub_u32(self, rhs.1), sub_u32(self, rhs.2), sub_u32(self, rhs.3),
        )
    }
}

impl core::ops::Mul for uint4 {
    type Output = uint4;

    /// The lane-wise product of the two vectors, wrapping around.
    fn mul(self, rhs: uint4) -> (r: uint4) {
        uint4(
            mul_u32(self.0, rhs.0), mul_u32(self.1, rhs.1), mul_u32(self.2, rhs.2),
            mul_u32(self.3, rhs.3),
        )
    }
}

impl MulSpecImpl for uint4 {
    open spec fn obeys_mul_spec() -> bool {
        true
    }

    open spec fn mul_req(self, rhs: uint4) -> bool {
        true
    }

    open spec fn mul_spec(self, rhs: uint4) -> uint4 {
        uint4(
            mul_u32(self.0, rhs.0), mul_u32(self.1, rhs.1), mul_u32(self.2, rhs.2),
            mul_u32(self.3, rhs.3),
        )
    }
}

impl core::ops::Mul<u32> for uint4 {
    type Output = uint4;

    /// The product of every lane and the scalar, wrapping around.
    fn mul(self, rhs: u32) -> (r: uint4) {
        uint4(
            mul_u32(self.0, rhs), mul_u32(self.1, rhs), mul_u32(self.2, rhs), mul_u32(self.3, rhs),
        )
    }
}

impl MulSpecImpl<u32> for uint4 {
    open spec fn obeys_mul_spec() -> bool {
        true
    }

    open spec fn mul_req(self, rhs: u32) -> bool {
        true
    }

    open spec fn mul_spec(self, rhs: u32) -> uint4 {
        uint4(
            mul_u32(self.0, rhs), mul_u32(self.1, rhs), mul_u32(self.2, rhs), mul_u32(self.3, rhs),
        )
    }
}

impl core::ops::Mul<uint4> for u32 {
    type Output = uint4;

    /// The product of the scalar and every lane, wrapping around.
    fn mul(self, rhs: uint4) -> (r: uint4) {
        uint4(
            mul_u32(self, rhs.0), mul_u32(self, rhs.1), mul_u32(self, rhs.2), mul_u32(self, rhs.3),
        )
    }
}

impl MulSpecImpl<uint4> for u32 {
    open spec fn obeys_mul_spec() -> bool {
        true
    }

    open spec fn mul_req(self, rhs: uint4) -> bool {
        true
    }

    open spec fn mul_spec(self, rhs: uint4) -> uint4 {
        uint4(
            mul_u32(self, rhs.0), mul_u32(self, rhs.1), mul_u32(self, rhs.2), mul_u32(self, rhs.3),
        )
    }
}

impl core::ops::Div for uint4 {
    type Output = uint4;

    /// The lane-wise quotient of the two vectors, rounded toward zero. No lane of the divisor is
    /// zero.
    fn div(self, rhs: uint4) -> (r: uint4) {
        uint4(
            div_u32(self.0, rhs.0), div_u32(self.1, rhs.1), div_u32(self.2, rhs.2),
            div_u32(self.3, rhs.3),
        )
    }
}

impl DivSpecImpl for uint4 {
    open spec fn obeys_div_spec() -> bool {
        true
    }

    open spec fn div_req(self, rhs: uint4) -> bool {
        rhs.0 != 0 && rhs.1 != 0 && rhs.2 != 0 && rhs.3 != 0
    }

    open spec fn div_spec(self, rhs: uint4) -> uint4 {
        uint4(
            div_u32(self.0, rhs.0), div_u32(self.1, rhs.1), div_u32(self.2, rhs.2),
            div_u32(self.3, rhs.3),
        )
    }
}

impl core::ops::Div<u32> for uint4 {
    type Output = uint4;

    /// The quotient of every lane by the scalar, rounded toward zero. The scalar is not zero.
    fn div(self, rhs: u32) -> (r: uint4) {
        uint4(
            div_u32(self.0, rhs), div_u32(self.1, rhs), div_u32(self.2, rhs), div_u32(self.3, rhs),
        )
    }
}

impl DivSpecImpl<u32> for uint4 {
    open spec fn obeys_div_spec() -> bool {
        true
    }

    open spec fn div_req(self, rhs: u32) -> bool {
        rhs != 0
    }

    open spec fn div_spec(self, rhs: u32) -> uint4 {
        uint4(
            div_u32(self.0, rhs), div_u32(self.1, rhs), div_u32(self.2, rhs), div_u32(self.3, rhs),
        )
    }
}

impl core::ops::Div<uint4> for u32 {
    type Output = uint4;

    /// The quotient of the scalar by every lane, rounded toward zero. No lane is zero.
    fn div(self, rhs: uint4) -> (r: uint4) {
        uint4(
            div_u32(self, rhs.0), div_u32(self, rhs.1), div_u32(self, rhs.2), div_u32(self, rhs.3),
        )
    }
}

impl DivSpecImpl<uint4> for u32 {
    open spec fn obeys_div_spec() -> bool {
        true
    }

    open spec fn div_req(self, rhs: uint4) -> bool {
        rhs.0 != 0 && rhs.1 != 0 && rhs.2 != 0 && rhs.3 != 0
    }

    open spec fn div_spec(self, rhs: uint4) -> uint4 {
        uint4(
            div_u32(self, rhs.0), div_u32(self, rhs.1), div_u32(self, rhs.2), div_u32(self, rhs.3),
        )
    }
}

impl core::ops::BitAnd for uint4 {
    type Output = uint4;

    /// The lane-wise conjunction of the two vectors, bit by bit.
    fn bitand(self, rhs: uint4) -> (r: uint4) {
        uint4(self.0 & rhs.0, self.1 & rhs.1, self.2 & rhs.2, self.3 & rhs.3)
    }
}

impl BitAndSpecImpl for uint4 {
    open spec fn obeys_bitand_spec() -> bool {
        true
    }

    open spec fn bitand_req(self, rhs: uint4) -> bool {
        true
    }

    open spec fn bitand_spec(self, rhs: uint4) -> uint4 {
        uint4(self.0 & rhs.0, self.1 & rhs.1, self.2 & rhs.2, self.3 & rhs.3)
    }
}

impl core::ops::BitAnd<u32> for uint4 {
    type Output = uint4;

    /// The conjunction of every lane and the scalar, bit by bit.
    fn bitand(self, rhs: u32) -> (r: uint4) {
        uint4(self.0 & rhs, self.1 & rhs, self.2 & rhs, self.3 & rhs)
    }
}

impl BitAndSpecImpl<u32> for uint4 {
    open spec fn obeys_bitand_spec() -> bool {
        true
    }

    open spec fn bitand_req(self, rhs: u32) -> bool {
        true
    }

    open spec fn bitand_spec(self, rhs: u32) -> uint4 {
        uint4(self.0 & rhs, self.1 & rhs, self.2 & rhs, self.3 & rhs)
    }
}

impl core::ops::BitAnd<uint4> for u32 {
    type Output = uint4;

    /// The conjunction of the scalar and every lane, bit by bit.
    fn bitand(self, rhs: uint4) -> (r: uint4) {
        uint4(self & rhs.0, self & rhs.1, self & rhs.2, self & rhs.3)
    }
}

impl BitAndSpecImpl<uint4> for u32 {
    open spec fn obeys_bitand_spec() -> bool {
        true
    }

    open spec fn bitand_req(self, rhs: uint4) -> bool {
        true
    }

    open spec fn bitand_spec(self, rhs: uint4) -> uint4 {
        uint4(self & rhs.0, self & rhs.1, self & rhs.2, self & rhs.3)
    }
}

impl core::ops::BitOr for uint4 {
    type Output = uint4;

    /// The lane-wise disjunction of the two vectors, bit by bit.
    fn bitor(self, rhs: uint4) -> (r: uint4) {
        uint4(self.0 | rhs.0, self.1 | rhs.1, self.2 | rhs.2, self.3 | rhs.3)
    }
}

impl BitOrSpecImpl for uint4 {
    open spec fn obeys_bitor_spec() -> bool {
        true
    }

    open spec fn bitor_req(self, rhs: uint4) -> bool {
        true
    }

    open spec fn bitor_spec(self, rhs: uint4) -> uint4 {
        uint4(self.0 | rhs.0, self.1 | rhs.1, self.2 | rhs.2, self.3 | rhs.3)
    }
}

impl core::ops::BitOr<u32> for uint4 {
    type Output = uint4;

    /// The disjunction of every lane and the scalar, bit by bit.
    fn bitor(self, rhs: u32) -> (r: uint4) {
        uint4(self.0 | rhs, self.1 | rhs, self.2 | rhs, self.3 | rhs)
    }
}

impl BitOrSpecImpl<u32> for uint4 {
    open spec fn obeys_bitor_spec() -> bool {
        true
    }

    open spec fn bitor_req(self, rhs: u32) -> bool {
        true
    }

    open spec fn bitor_spec(self, rhs: u32) -> uint4 {
        uint4(self.0 | rhs, self.1 | rhs, self.2 | rhs, self.3 | rhs)
    }
}

impl core::ops::BitOr<uint4> for u32 {
    type Output = uint4;

    /// The disjunction of the scalar and every lane, bit by bit.
    fn bitor(self, rhs: uint4) -> (r: uint4) {
        uint4(self | rhs.0, self | rhs.1, self | rhs.2, self | rhs.3)
    }
}

impl BitOrSpecImpl<uint4> for u32 {
    open spec fn obeys_bitor_spec() -> bool {
        true
    }

    open spec fn bitor_req(self, rhs: uint4) -> bool {
        true
    }

    open spec fn bitor_spec(self, rhs: uint4) -> uint4 {
        uint4(self | rhs.0, self | rhs.1, self | rhs.2, self | rhs.3)
    }
}

impl core::ops::BitXor for uint4 {
    type Output = uint4;

    /// The lane-wise exclusive disjunction of the two vectors, bit by bit.
    fn bitxor(self, rhs: uint4) -> (r: uint4) {
        uint4(self.0 ^ rhs.0, self.1 ^ rhs.1, self.2 ^ rhs.2, self.3 ^ rhs.3)
    }
}

impl BitXorSpecImpl for uint4 {
    open spec fn obeys_bitxor_spec() -> bool {
        true
    }

    open spec fn bitxor_req(self, rhs: uint4) -> bool {
        true
    }

    open spec fn bitxor_spec(self, rhs: uint4) -> uint4 {
        uint4(self.0 ^ rhs.0, self.1 ^ rhs.1, self.2 ^ rhs.2, self.3 ^ rhs.3)
    }
}

impl core::ops::BitXor<u32> for uint4 {
    type Output = uint4;

    /// The exclusive disjunction of every lane and the scalar, bit by bit.
    fn bitxor(self, rhs: u32) -> (r: uint4) {
        uint4(self.0 ^ rhs, self.1 ^ rhs, self.2 ^ rhs, self.3 ^ rhs)
    }
}

impl BitXorSpecImpl<u32> for uint4 {
    open spec fn obeys_bitxor_spec() -> bool {
        true
    }

    open spec fn bitxor_req(self, rhs: u32) -> bool {
        true
    }

    open spec fn bitxor_spec(self, rhs: u32) -> uint4 {
        uint4(self.0 ^ rhs, self.1 ^ rhs, self.2 ^ rhs, self.3 ^ rhs)
    }
}

impl core::ops::BitXor<uint4> for u32 {
    type Output = uint4;

    /// The exclusive disjunction of the scalar and every lane, bit by bit.
    fn bitxor(self, rhs: uint4) -> (r: uint4) {
        uint4(self ^ rhs.0, self ^ rhs.1, self ^ rhs.2, self ^ rhs.3)
    }
}

impl BitXorSpecImpl<uint4> for u32 {
    open spec fn obeys_bitxor_spec() -> bool {
        true
    }

    open spec fn bitxor_req(self, rhs: uint4) -> bool {
        true
    }

    open spec fn bitxor_spec(self, rhs: uint4) -> uint4 {
        uint4(self ^ rhs.0, self ^ rhs.1, self ^ rhs.2, self ^ rhs.3)
    }
}

impl core::ops::Shl for uint4 {
    type Output = uint4;

    /// Every lane shifted left by the lane of `rhs`, which is below 32.
    fn shl(self, rhs: uint4) -> (r: uint4) {
        uint4(
            shl_u32(self.0, rhs.0), shl_u32(self.1, rhs.1), shl_u32(self.2, rhs.2),
            shl_u32(self.3, rhs.3),
        )
    }
}

impl ShlSpecImpl for uint4 {
    open spec fn obeys_shl_spec() -> bool {
        true
    }

    open spec fn shl_req(self, rhs: uint4) -> bool {
        0 <= rhs.0 < 32 && 0 <= rhs.1 < 32 && 0 <= rhs.2 < 32 && 0 <= rhs.3 < 32
    }

    open spec fn shl_spec(self, rhs: uint4) -> uint4 {
        uint4(
            shl_u32(self.0, rhs.0), shl_u32(self.1, rhs.1), shl_u32(self.2, rhs.2),
            shl_u32(self.3, rhs.3),
        )
    }
}

impl core::ops::Shl<u32> for uint4 {
    type Output = uint4;

    /// Every lane shifted left by `rhs`, which is below 32.
    fn shl(self, rhs: u32) -> (r: uint4) {
        uint4(
            shl_u32(self.0, rhs), shl_u32(self.1, rhs), shl_u32(self.2, rhs), shl_u32(self.3, rhs),
        )
    }
}

impl ShlSpecImpl<u32> for uint4 {
    open spec fn obeys_shl_spec() -> bool {
        true
    }

    open spec fn shl_req(self, rhs: u32) -> bool {
        0 <= rhs < 32
    }

    open spec fn shl_spec(self, rhs: u32) -> uint4 {
        uint4(
            shl_u32(self.0, rhs), shl_u32(self.1, rhs), shl_u32(self.2, rhs), shl_u32(self.3, rhs),
        )
    }
}

impl core::ops::Shl<uint4> for u32 {
    type Output = uint4;

    /// The scalar shifted left by every lane of `rhs`, each of which is below 32.
    fn shl(self, rhs: uint4) -> (r: uint4) {
        uint4(
            shl_u32(self, rhs.0), shl_u32(self, rhs.1), shl_u32(self, rhs.2), shl_u32(self, rhs.3),
        )
    }
}

impl ShlSpecImpl<uint4> for u32 {
    open spec fn obeys_shl_spec() -> bool {
        true
    }

    open spec fn shl_req(self, rhs: uint4) -> bool {
        0 <= rhs.0 < 32 && 0 <= rhs.1 < 32 && 0 <= rhs.2 < 32 && 0 <= rhs.3 < 32
    }

    open spec fn shl_spec(self, rhs: uint4) -> uint4 {
        uint4(
            shl_u32(self, rhs.0), shl_u32(self, rhs.1), shl_u32(self, rhs.2), shl_u32(self, rhs.3),
        )
    }
}

impl core::ops::Shr for uint4 {
    type Output = uint4;

    /// Every lane shifted right by the lane of `rhs`, which is below 32.
    fn shr(self, rhs: uint4) -> (r: uint4) {
        uint4(
            shr_u32(self.0, rhs.0), shr_u32(self.1, rhs.1), shr_u32(self.2, rhs.2),
            shr_u32(self.3, rhs.3),
        )
    }
}

impl ShrSpecImpl for uint4 {
    open spec fn obeys_shr_spec() -> bool {
        true
    }

    open spec fn shr_req(self, rhs: uint4) -> bool {
        0 <= rhs.0 < 32 && 0 <= rhs.1 < 32 && 0 <= rhs.2 < 32 && 0 <= rhs.3 < 32
    }

    open spec fn shr_spec(self, rhs: uint4) -> uint4 {
        uint4(
            shr_u32(self.0, rhs.0), shr_u32(self.1, rhs.1), shr_u32(self.2, rhs.2),
            shr_u32(self.3, rhs.3),
        )
    }
}

impl core::ops::Shr<u32> for uint4 {
    type Output = uint4;

    /// Every lane shifted right by `rhs`, which is below 32.
    fn shr(self, rhs: u32) -> (r: uint4) {
        uint4(
            shr_u32(self.0, rhs), shr_u32(self.1, rhs), shr_u32(self.2, rhs), shr_u32(self.3, rhs),
        )
    }
}

impl ShrSpecImpl<u32> for uint4 {
    open spec fn obeys_shr_spec() -> bool {
        true
    }

    open spec fn shr_req(self, rhs: u32) -> bool {
        0 <= rhs < 32
    }

    open spec fn shr_spec(self, rhs: u32) -> uint4 {
        uint4(
            shr_u32(self.0, rhs), shr_u32(self.1, rhs), shr_u32(self.2, rhs), shr_u32(self.3, rhs),
        )
    }
}

impl core::ops::Shr<uint4> for u32 {
    type Output = uint4;

    /// The scalar shifted right by every lane of `rhs`, each of which is below 32.
    fn shr(self, rhs: uint4) -> (r: uint4) {
        uint4(
            shr_u32(self, rhs.0), shr_u32(self, rhs.1), shr_u32(self, rhs.2), shr_u32(self, rhs.3),
        )
    }
}

impl ShrSpecImpl<uint4> for u32 {
    open spec fn obeys_shr_spec() -> bool {
        true
    }

    open spec fn shr_req(self, rhs: uint4) -> bool {
        0 <= rhs.0 < 32 && 0 <= rhs.1 < 32 && 0 <= rhs.2 < 32 && 0 <= rhs.3 < 32
    }

    open spec fn shr_spec(self, rhs: uint4) -> uint4 {
        uint4(
            shr_u32(self, rhs.0), shr_u32(self, rhs.1), shr_u32(self, rhs.2), shr_u32(self, rhs.3),
        )
    }
}

impl core::ops::Rem for uint4 {
    type Output = uint4;

    /// The lane-wise remainder `self - (self / rhs) * rhs`. No lane of the divisor is zero.
    fn rem(self, rhs: uint4) -> (r: uint4) {
        uint4(
            rem_u32(self.0, rhs.0), rem_u32(self.1, rhs.1), rem_u32(self.2, rhs.2),
            rem_u32(self.3, rhs.3),
        )
    }
}

impl RemSpecImpl for uint4 {
    open spec fn obeys_rem_spec() -> bool {
        true
    }

    open spec fn rem_req(self, rhs: uint4) -> bool {
        rhs.0 != 0 && rhs.1 != 0 && rhs.2 != 0 && rhs.3 != 0
    }

    open spec fn rem_spec(self, rhs: uint4) -> uint4 {
        uint4(
            rem_u32(self.0, rhs.0), rem_u32(self.1, rhs.1), rem_u32(self.2, rhs.2),
            rem_u32(self.3, rhs.3),
        )
    }
}

impl core::ops::Neg for uint4 {
    type Output = uint4;

    /// Zero minus every lane, wrapping around.
    fn neg(self) -> (r: uint4) {
        uint4(neg_u32(self.0), neg_u32(self.1), neg_u32(self.2), neg_u32(self.3))
    }
}

impl NegSpecImpl for uint4 {
    open spec fn obeys_neg_spec() -> bool {
        true
    }

    open spec fn neg_req(self) -> bool {
        true
    }

    open spec fn neg_spec(self) -> uint4 {
        uint4(neg_u32(self.0), neg_u32(self.1), neg_u32(self.2), neg_u32(self.3))
    }
}

impl core::ops::Not for uint4 {
    type Output = uint4;

    /// Every lane with every bit flipped.
    fn not(self) -> (r: uint4) {
        uint4(not_u32(self.0), not_u32(self.1), not_u32(self.2), not_u32(self.3))
    }
}

impl NotSpecImpl for uint4 {
    open spec fn obeys_not_spec() -> bool {
        true
    }

    open spec fn not_req(self) -> bool {
        true
    }

    open spec fn not_spec(self) -> uint4 {
        uint4(not_u32(self.0), not_u32(self.1), not_u32(self.2), not_u32(self.3))
    }
}

impl core::convert::From<isize> for uint4 {
    /// The vector with `x`, wrapped to `u32`, in every lane.
    fn from(x: isize) -> (r: uint4) {
        let v = isize_to_u32(x);
        uint4(v, v, v, v)
    }
}

impl FromSpecImpl<isize> for uint4 {
    open spec fn obeys_from_spec() -> bool {
        true
    }

    open spec fn from_spec(x: isize) -> uint4 {
        uint4(isize_to_u32(x), isize_to_u32(x), isize_to_u32(x), isize_to_u32(x))
    }
}

impl core::ops::Index<u32> for uint4 {
    type Output = u32;

    /// Lane `i`, which is below 4.
    fn index(&self, i: u32) -> (r: &u32)
        ensures
            *r == self.lane(i as int),
    {
        match i {
            0 => &self.0,
            1 => &self.1,
            2 => &self.2,
            _ => &self.3,
        }
    }
}

impl vstd::std_specs::core::IndexSpecImpl<u32> for uint4 {
    open spec fn index_req(&self, i: &u32) -> bool {
        *i < 4
    }
}

impl uint4 {
    /// Lane `i`, counted from zero.
    pub open spec fn lane(self, i: int) -> u32
        recommends
            0 <= i < 4,
    {
        if i == 0 {
            self.0
        } else if i == 1 {
            self.1
        } else if i == 2 {
            self.2
        } else {
            self.3
        }
    }

    /// The vector of type `uint4` with the bits of `x`, a value of a type that has as many bits,
    /// which is one with images of type `uchar16`.
    pub fn bitcast<U: Bitcast<Image = uchar16>>(x: U) -> (r: uint4)
        ensures
            r == spec_bitcast::<U, uint4>(x),
    {
        bitcast(x)
    }

    /// The vector with `x` in every lane.
    pub fn broadcast(x: u32) -> (r: uint4)
        ensures
            r == uint4(x, x, x, x),
    {
        uint4(x, x, x, x)
    }

    /// Lane `i`, which is below 4.
    pub fn extract(self, i: u32) -> (r: u32)
        requires
            i < 4,
        ensures
            r == self.lane(i as int),
    {
        match i {
            0 => self.0,
            1 => self.1,
            2 => self.2,
            _ => self.3,
        }
    }

    /// The vector with `x` in lane `i`, which is below 4, and the other lanes unchanged.
    pub fn replace(self, i: u32, x: u32) -> (r: uint4)
        requires
            i < 4,
        ensures
            forall|j: int| 0 <= j < 4 ==> #[trigger] r.lane(j) == (if j == i {
                x
            } else {
                self.lane(j)
            }),
    {
        match i {
            0 => uint4(x, self.1, self.2, self.3),
            1 => uint4(self.0, x, self.2, self.3),
            2 => uint4(self.0, self.1, x, self.3),
            _ => uint4(self.0, self.1, self.2, x),
        }
    }

    /// The mask that is all ones where the lanes of `x` and `y` are equal, and zero elsewhere.
    pub fn eq(x: uint4, y: uint4) -> (r: int4)
        ensures
            r == int4(eq_u32(x.0, y.0), eq_u32(x.1, y.1), eq_u32(x.2, y.2), eq_u32(x.3, y.3)),
    {
        int4(eq_u32(x.0, y.0), eq_u32(x.1, y.1), eq_u32(x.2, y.2), eq_u32(x.3, y.3))
    }

    /// The mask that is all ones where the lanes of `x` and `y` differ, and zero elsewhere.
    pub fn ne(x: uint4, y: uint4) -> (r: int4)
        ensures
            r == int4(ne_u32(x.0, y.0), ne_u32(x.1, y.1), ne_u32(x.2, y.2), ne_u32(x.3, y.3)),
    {
        int4(ne_u32(x.0, y.0), ne_u32(x.1, y.1), ne_u32(x.2, y.2), ne_u32(x.3, y.3))
    }

    /// The mask that is all ones where the lane of `x` is less than that of `y`, and zero
    /// elsewhere.
    pub fn lt(x: uint4, y: uint4) -> (r: int4)
        ensures
            r == int4(lt_u32(x.0, y.0), lt_u32(x.1, y.1), lt_u32(x.2, y.2), lt_u32(x.3, y.3)),
    {
        int4(lt_u32(x.0, y.0), lt_u32(x.1, y.1), lt_u32(x.2, y.2), lt_u32(x.3, y.3))
    }

    /// The mask that is all ones where the lane of `x` is at most that of `y`, and zero elsewhere.
    pub fn le(x: uint4, y: uint4) -> (r: int4)
        ensures
            r == int4(le_u32(x.0, y.0), le_u32(x.1, y.1), le_u32(x.2, y.2), le_u32(x.3, y.3)),
    {
        int4(le_u32(x.0, y.0), le_u32(x.1, y.1), le_u32(x.2, y.2), le_u32(x.3, y.3))
    }

    /// The mask that is all ones where the lane of `x` is greater than that of `y`, and zero
    /// elsewhere.
    pub fn gt(x: uint4, y: uint4) -> (r: int4)
        ensures
            r == int4(gt_u32(x.0, y.0), gt_u32(x.1, y.1), gt_u32(x.2, y.2), gt_u32(x.3, y.3)),
    {
        int4(gt_u32(x.0, y.0), gt_u32(x.1, y.1), gt_u32(x.2, y.2), gt_u32(x.3, y.3))
    }

    /// The mask that is all ones where the lane of `x` is at least that of `y`, and zero elsewhere.
    pub fn ge(x: uint4, y: uint4) -> (r: int4)
        ensures
            r == int4(ge_u32(x.0, y.0), ge_u32(x.1, y.1), ge_u32(x.2, y.2), ge_u32(x.3, y.3)),
    {
        int4(ge_u32(x.0, y.0), ge_u32(x.1, y.1), ge_u32(x.2, y.2), ge_u32(x.3, y.3))
    }

    /// `x * y + z` lane by lane, wrapping around.
    pub fn madd(x: uint4, y: uint4, z: uint4) -> (r: uint4)
        ensures
            r == uint4(
                madd_u32(x.0, y.0, z.0), madd_u32(x.1, y.1, z.1), madd_u32(x.2, y.2, z.2),
                madd_u32(x.3, y.3, z.3),
            ),
    {
        uint4(
            madd_u32(x.0, y.0, z.0), madd_u32(x.1, y.1, z.1), madd_u32(x.2, y.2, z.2),
            madd_u32(x.3, y.3, z.3),
        )
    }

    /// The magnitude of every lane, which is the lane.
    pub fn abs(x: uint4) -> (r: uint4)
        ensures
            r == x.spec_abs(),
    {
        uint4(abs_u32(x.0), abs_u32(x.1), abs_u32(x.2), abs_u32(x.3))
    }

    /// The greater lane of `x` and `y`, lane by lane.
    pub fn max(x: uint4, y: uint4) -> (r: uint4)
        ensures
            r == x.spec_max(y),
    {
        uint4(max_u32(x.0, y.0), max_u32(x.1, y.1), max_u32(x.2, y.2), max_u32(x.3, y.3))
    }

    /// The smaller lane of `x` and `y`, lane by lane.
    pub fn min(x: uint4, y: uint4) -> (r: uint4)
        ensures
            r == x.spec_min(y),
    {
        uint4(min_u32(x.0, y.0), min_u32(x.1, y.1), min_u32(x.2, y.2), min_u32(x.3, y.3))
    }

    /// Every lane of `x` raised to at least the lane of `lo`, then lowered to at most that of `hi`.
    pub fn clamp(x: uint4, lo: uint4, hi: uint4) -> (r: uint4)
        ensures
            r == x.spec_clamp(lo, hi),
    {
        uint4(
            clamp_u32(x.0, lo.0, hi.0), clamp_u32(x.1, lo.1, hi.1), clamp_u32(x.2, lo.2, hi.2),
            clamp_u32(x.3, lo.3, hi.3),
        )
    }

    /// The sum of the lanes, wrapping around.
    pub fn reduce_add(x: uint4) -> (r: u32)
        ensures
            r == x.spec_reduce_add(),
    {
        let s = add_u32(x.0, x.1);
        let ghost mut t: int = x.0 + x.1;
        proof {
            lemma_wrap_u32_sum(t, x.2 as int);
            t = t + x.2;
        }
        let s = add_u32(s, x.2);
        proof {
            lemma_wrap_u32_sum(t, x.3 as int);
            t = t + x.3;
        }
        let s = add_u32(s, x.3);
        s
    }

    /// The smallest lane.
    pub fn reduce_min(x: uint4) -> (r: u32)
        ensures
            r == x.spec_reduce_min(),
            r <= x.0 && r <= x.1 && r <= x.2 && r <= x.3,
            r == x.0 || r == x.1 || r == x.2 || r == x.3,
    {
        let s = min_u32(x.0, x.1);
        let s = min_u32(s, x.2);
        let s = min_u32(s, x.3);
        s
    }

    /// The greatest lane.
    pub fn reduce_max(x: uint4) -> (r: u32)
        ensures
            r == x.spec_reduce_max(),
            r >= x.0 && r >= x.1 && r >= x.2 && r >= x.3,
            r == x.0 || r == x.1 || r == x.2 || r == x.3,
    {
        let s = max_u32(x.0, x.1);
        let s = max_u32(s, x.2);
        let s = max_u32(s, x.3);
        s
    }

    /// Every lane as `i8`: its low 8 bits, read as `i8`.
    pub fn to_char(x: uint4) -> (r: char4)
        ensures
            r == char4(u32_to_i8(x.0), u32_to_i8(x.1), u32_to_i8(x.2), u32_to_i8(x.3)),
    {
        char4(u32_to_i8(x.0), u32_to_i8(x.1), u32_to_i8(x.2), u32_to_i8(x.3))
    }

    /// Every lane as `i8`, saturating: a lane outside the range of `i8` gives the nearest bound.
    pub fn to_char_sat(x: uint4) -> (r: char4)
        ensures
            r == x.spec_to_char_sat(),
    {
        char4(u32_to_i8_sat(x.0), u32_to_i8_sat(x.1), u32_to_i8_sat(x.2), u32_to_i8_sat(x.3))
    }

    /// Every lane as `u8`: its low 8 bits, read as `u8`.
    pub fn to_uchar(x: uint4) -> (r: uchar4)
        ensures
            r == uchar4(u32_to_u8(x.0), u32_to_u8(x.1), u32_to_u8(x.2), u32_to_u8(x.3)),
    {
        uchar4(u32_to_u8(x.0), u32_to_u8(x.1), u32_to_u8(x.2), u32_to_u8(x.3))
    }

    /// Every lane as `u8`, saturating: a lane outside the range of `u8` gives the nearest bound.
    pub fn to_uchar_sat(x: uint4) -> (r: uchar4)
        ensures
            r == x.spec_to_uchar_sat(),
    {
        uchar4(u32_to_u8_sat(x.0), u32_to_u8_sat(x.1), u32_to_u8_sat(x.2), u32_to_u8_sat(x.3))
    }

    /// Every lane as `i16`: its low 16 bits, read as `i16`.
    pub fn to_short(x: uint4) -> (r: short4)
        ensures
            r == short4(u32_to_i16(x.0), u32_to_i16(x.1), u32_to_i16(x.2), u32_to_i16(x.3)),
    {
        short4(u32_to_i16(x.0), u32_to_i16(x.1), u32_to_i16(x.2), u32_to_i16(x.3))
    }

    /// Every lane as `i16`, saturating: a lane outside the range of `i16` gives the nearest bound.
    pub fn to_short_sat(x: uint4) -> (r: short4)
        ensures
            r == x.spec_to_short_sat(),
    {
        short4(u32_to_i16_sat(x.0), u32_to_i16_sat(x.1), u32_to_i16_sat(x.2), u32_to_i16_sat(x.3))
    }

    /// Every lane as `u16`: its low 16 bits, read as `u16`.
    pub fn to_ushort(x: uint4) -> (r: ushort4)
        ensures
            r == ushort4(u32_to_u16(x.0), u32_to_u16(x.1), u32_to_u16(x.2), u32_to_u16(x.3)),
    {
        ushort4(u32_to_u16(x.0), u32_to_u16(x.1), u32_to_u16(x.2), u32_to_u16(x.3))
    }

    /// Every lane as `u16`, saturating: a lane outside the range of `u16` gives the nearest bound.
    pub fn to_ushort_sat(x: uint4) -> (r: ushort4)
        ensures
            r == x.spec_to_ushort_sat(),
    {
        ushort4(u32_to_u16_sat(x.0), u32_to_u16_sat(x.1), u32_to_u16_sat(x.2), u32_to_u16_sat(x.3))
    }

    /// Every lane as `i32`: the same bits, read as `i32`.
    pub fn to_int(x: uint4) -> (r: int4)
        ensures
            r == int4(u32_to_i32(x.0), u32_to_i32(x.1), u32_to_i32(x.2), u32_to_i32(x.3)),
    {
        int4(u32_to_i32(x.0), u32_to_i32(x.1), u32_to_i32(x.2), u32_to_i32(x.3))
    }

    /// Every lane as `i32`, saturating: a lane outside the range of `i32` gives the nearest bound.
    pub fn to_int_sat(x: uint4) -> (r: int4)
        ensures
            r == x.spec_to_int_sat(),
    {
        int4(u32_to_i32_sat(x.0), u32_to_i32_sat(x.1), u32_to_i32_sat(x.2), u32_to_i32_sat(x.3))
    }

    /// The vector itself: its lanes are `u32` already.
    pub fn to_uint(x: uint4) -> (r: uint4)
        ensures
            r == x,
    {
        x
    }

    /// The vector itself: its lanes are `u32` already, and nothing saturates.
    pub fn to_uint_sat(x: uint4) -> (r: uint4)
        ensures
            r == x.spec_to_uint_sat(),
    {
        x
    }

    /// Every lane as `i64`, which holds every `u32`.
    pub fn to_long(x: uint4) -> (r: long4)
        ensures
            r == long4(u32_to_i64(x.0), u32_to_i64(x.1), u32_to_i64(x.2), u32_to_i64(x.3)),
    {
        long4(u32_to_i64(x.0), u32_to_i64(x.1), u32_to_i64(x.2), u32_to_i64(x.3))
    }

    /// Every lane as `i64`, saturating; nothing saturates, since `i64` holds every `u32`.
    pub fn to_long_sat(x: uint4) -> (r: long4)
        ensures
            r == x.spec_to_long_sat(),
    {
        long4(u32_to_i64_sat(x.0), u32_to_i64_sat(x.1), u32_to_i64_sat(x.2), u32_to_i64_sat(x.3))
    }

    /// Every lane as `u64`, which holds every `u32`.
    pub fn to_ulong(x: uint4) -> (r: ulong4)
        ensures
            r == ulong4(u32_to_u64(x.0), u32_to_u64(x.1), u32_to_u64(x.2), u32_to_u64(x.3)),
    {
        ulong4(u32_to_u64(x.0), u32_to_u64(x.1), u32_to_u64(x.2), u32_to_u64(x.3))
    }

    /// Every lane as `u64`, saturating; nothing saturates, since `u64` holds every `u32`.
    pub fn to_ulong_sat(x: uint4) -> (r: ulong4)
        ensures
            r == x.spec_to_ulong_sat(),
    {
        ulong4(u32_to_u64_sat(x.0), u32_to_u64_sat(x.1), u32_to_u64_sat(x.2), u32_to_u64_sat(x.3))
    }

    /// The low half: lanes 0 to 1.
    pub fn lo(self) -> (r: uint2)
        ensures
            r == uint2(self.0, self.1),
    {
        uint2(self.0, self.1)
    }

    /// The high half: lanes 2 to 3.
    pub fn hi(self) -> (r: uint2)
        ensures
            r == uint2(self.2, self.3),
    {
        uint2(self.2, self.3)
    }

    /// The odd lanes: lanes 1, 3 and so on.
    pub fn odd(self) -> (r: uint2)
        ensures
            r == uint2(self.1, self.3),
    {
        uint2(self.1, self.3)
    }

    /// The even lanes: lanes 0, 2 and so on.
    pub fn even(self) -> (r: uint2)
        ensures
            r == uint2(self.0, self.2),
    {
        uint2(self.0, self.2)
    }

    /// The vector of `f` applied to every lane. `f` accepts every lane.
    pub fn map_unary<F: Fn(u32) -> u32>(self, f: F) -> (r: uint4)
        requires
            call_requires(f, (self.0,)),
            call_requires(f, (self.1,)),
            call_requires(f, (self.2,)),
            call_requires(f, (self.3,)),
        ensures
            call_ensures(f, (self.0,), r.0),
            call_ensures(f, (self.1,), r.1),
            call_ensures(f, (self.2,), r.2),
            call_ensures(f, (self.3,), r.3),
    {
        uint4(f(self.0), f(self.1), f(self.2), f(self.3))
    }

    /// The vector of `f` applied to the lanes of the two vectors, lane by lane. `f` accepts every
    /// such pair of lanes.
    pub fn map_binary<F: Fn(u32, u32) -> u32>(self, other: uint4, f: F) -> (r: uint4)
        requires
            call_requires(f, (self.0, other.0)),
            call_requires(f, (self.1, other.1)),
            call_requires(f, (self.2, other.2)),
            call_requires(f, (self.3, other.3)),
        ensures
            call_ensures(f, (self.0, other.0), r.0),
            call_ensures(f, (self.1, other.1), r.1),
            call_ensures(f, (self.2, other.2), r.2),
            call_ensures(f, (self.3, other.3), r.3),
    {
        uint4(f(self.0, other.0), f(self.1, other.1), f(self.2, other.2), f(self.3, other.3))
    }

    /// The lanes folded by `f`, from lane 0 upward: `f` is applied to lane 1 and lane 0, then to
    /// each further lane and what the lanes below it gave. `f` accepts every pair of scalars.
    pub fn reduce<F: Fn(u32, u32) -> u32>(self, f: F) -> (r: u32)
        requires
            forall|a: u32, b: u32| call_requires(f, (a, b)),
        ensures
            exists|s1: u32, s2: u32|
                call_ensures(f, (self.1, self.0), s1)
                    && call_ensures(f, (self.2, s1), s2)
                    && call_ensures(f, (self.3, s2), r),
    {
        let s1 = f(self.1, self.0);
        let s2 = f(self.2, s1);
        let s3 = f(self.3, s2);
        s3
    }

    /// Addition commutes.
    pub proof fn lemma_add_commutes(x: uint4, y: uint4)
        ensures
            AddSpec::add_spec(x, y) == AddSpec::add_spec(y, x),
    {
        lemma_arith_u32(x.0, y.0, 0);
        lemma_arith_u32(x.1, y.1, 0);
        lemma_arith_u32(x.2, y.2, 0);
        lemma_arith_u32(x.3, y.3, 0);
    }

    /// Addition associates, wrap-around or not.
    pub proof fn lemma_add_associates(x: uint4, y: uint4, z: uint4)
        ensures
            AddSpec::add_spec(AddSpec::add_spec(x, y), z)
                == AddSpec::add_spec(x, AddSpec::add_spec(y, z)),
    {
        lemma_arith_u32(x.0, y.0, z.0);
        lemma_arith_u32(x.1, y.1, z.1);
        lemma_arith_u32(x.2, y.2, z.2);
        lemma_arith_u32(x.3, y.3, z.3);
    }

    /// Swapping the operands of a subtraction negates the difference.
    pub proof fn lemma_sub_swaps(x: uint4, y: uint4)
        ensures
            SubSpec::sub_spec(x, y) == NegSpec::neg_spec(SubSpec::sub_spec(y, x)),
    {
        lemma_arith_u32(x.0, y.0, 0);
        lemma_arith_u32(x.1, y.1, 0);
        lemma_arith_u32(x.2, y.2, 0);
        lemma_arith_u32(x.3, y.3, 0);
    }

    /// The magnitude of an unsigned vector is the vector.
    pub proof fn lemma_abs(x: uint4)
        ensures
            x.spec_abs() == x,
            x.spec_abs().spec_abs() == x.spec_abs(),
    {
    }

    /// Flipping every bit of a lane gives the greatest `u32` minus the lane.
    pub proof fn lemma_not(x: uint4)
        ensures
            forall|i: int|
                0 <= i < 4 ==> #[trigger] NotSpec::not_spec(x).lane(i) == u32::MAX - x.lane(i),
    {
        lemma_not_u32(x.0);
        lemma_not_u32(x.1);
        lemma_not_u32(x.2);
        lemma_not_u32(x.3);
    }

    /// The lanes of a vector with `k` in every lane add up to 4 times `k`, wrapped around.
    pub proof fn lemma_reduce_add_broadcast(k: u32)
        ensures
            uint4(k, k, k, k).spec_reduce_add() == wrap_u32(4 * k),
    {
    }

    /// Saturating conversion to `i8` gives, lane by lane, the lane itself where `i8` holds it and
    /// the nearest bound of `i8` where it does not.
    pub proof fn lemma_to_char_sat(x: uint4)
        ensures
            forall|i: int|
                0 <= i < 4 ==> #[trigger] x.spec_to_char_sat().lane(i) == sat_i8(x.lane(i) as int),
    {
    }

    /// Saturating conversion to `u8` gives, lane by lane, the lane itself where `u8` holds it and
    /// the nearest bound of `u8` where it does not.
    pub proof fn lemma_to_uchar_sat(x: uint4)
        ensures
            forall|i: int|
                0 <= i < 4 ==> #[trigger] x.spec_to_uchar_sat().lane(i) == sat_u8(x.lane(i) as int),
    {
    }

    /// Saturating conversion to `i16` gives, lane by lane, the lane itself where `i16` holds it and
    /// the nearest bound of `i16` where it does not.
    pub proof fn lemma_to_short_sat(x: uint4)
        ensures
            forall|i: int|
                0 <= i < 4 ==>
                    #[trigger] x.spec_to_short_sat().lane(i) == sat_i16(x.lane(i) as int),
    {
    }

    /// Saturating conversion to `u16` gives, lane by lane, the lane itself where `u16` holds it and
    /// the nearest bound of `u16` where it does not.
    pub proof fn lemma_to_ushort_sat(x: uint4)
        ensures
            forall|i: int|
                0 <= i < 4 ==>
                    #[trigger] x.spec_to_ushort_sat().lane(i) == sat_u16(x.lane(i) as int),
    {
    }

    /// Saturating conversion to `i32` gives, lane by lane, the lane itself where `i32` holds it and
    /// the nearest bound of `i32` where it does not.
    pub proof fn lemma_to_int_sat(x: uint4)
        ensures
            forall|i: int|
                0 <= i < 4 ==> #[trigger] x.spec_to_int_sat().lane(i) == sat_i32(x.lane(i) as int),
    {
    }

    /// Saturating conversion to `i64` gives every lane unchanged: `i64` holds every `u32`.
    pub proof fn lemma_to_long_sat(x: uint4)
        ensures
            forall|i: int|
                0 <= i < 4 ==> #[trigger] x.spec_to_long_sat().lane(i) == sat_i64(x.lane(i) as int),
            forall|i: int| 0 <= i < 4 ==> #[trigger] x.spec_to_long_sat().lane(i) == x.lane(i),
    {
    }

    /// Saturating conversion to `u64` gives every lane unchanged: `u64` holds every `u32`.
    pub proof fn lemma_to_ulong_sat(x: uint4)
        ensures
            forall|i: int|
                0 <= i < 4 ==>
                    #[trigger] x.spec_to_ulong_sat().lane(i) == sat_u64(x.lane(i) as int),
            forall|i: int| 0 <= i < 4 ==> #[trigger] x.spec_to_ulong_sat().lane(i) == x.lane(i),
    {
    }
}

impl Vector for uint4 {
    type Scalar = u32;

    type Boolean = int4;

    type CharVector = char4;

    type ShortVector = short4;

    type IntVector = int4;

    type LongVector = long4;

    type UCharVector = uchar4;

    type UShortVector = ushort4;

    type UIntVector = uint4;

    type ULongVector = ulong4;

    type FloatVector = float4;

    type DoubleVector = double4;

    open spec fn spec_abs(self) -> uint4 {
        uint4(abs_u32(self.0), abs_u32(self.1), abs_u32(self.2), abs_u32(self.3))
    }

    open spec fn spec_max(self, other: uint4) -> uint4 {
        uint4(
            max_u32(self.0, other.0), max_u32(self.1, other.1), max_u32(self.2, other.2),
            max_u32(self.3, other.3),
        )
    }

    open spec fn spec_min(self, other: uint4) -> uint4 {
        uint4(
            min_u32(self.0, other.0), min_u32(self.1, other.1), min_u32(self.2, other.2),
            min_u32(self.3, other.3),
        )
    }

    open spec fn spec_clamp(self, lo: uint4, hi: uint4) -> uint4 {
        uint4(
            clamp_u32(self.0, lo.0, hi.0), clamp_u32(self.1, lo.1, hi.1),
            clamp_u32(self.2, lo.2, hi.2), clamp_u32(self.3, lo.3, hi.3),
        )
    }

    open spec fn spec_reduce_add(self) -> u32 {
        wrap_u32(self.0 + self.1 + self.2 + self.3)
    }

    open spec fn spec_reduce_min(self) -> u32 {
        let s = min_u32(self.0, self.1);
        let s = min_u32(s, self.2);
        let s = min_u32(s, self.3);
        s
    }

    open spec fn spec_reduce_max(self) -> u32 {
        let s = max_u32(self.0, self.1);
        let s = max_u32(s, self.2);
        let s = max_u32(s, self.3);
        s
    }

    open spec fn spec_to_char_sat(self) -> char4 {
        char4(
            u32_to_i8_sat(self.0), u32_to_i8_sat(self.1), u32_to_i8_sat(self.2),
            u32_to_i8_sat(self.3),
        )
    }

    open spec fn spec_to_uchar_sat(self) -> uchar4 {
        uchar4(
            u32_to_u8_sat(self.0), u32_to_u8_sat(self.1), u32_to_u8_sat(self.2),
            u32_to_u8_sat(self.3),
        )
    }

    open spec fn spec_to_short_sat(self) -> short4 {
        short4(
            u32_to_i16_sat(self.0), u32_to_i16_sat(self.1), u32_to_i16_sat(self.2),
            u32_to_i16_sat(self.3),
        )
    }

    open spec fn spec_to_ushort_sat(self) -> ushort4 {
        ushort4(
            u32_to_u16_sat(self.0), u32_to_u16_sat(self.1), u32_to_u16_sat(self.2),
            u32_to_u16_sat(self.3),
        )
    }

    open spec fn spec_to_int_sat(self) -> int4 {
        int4(
            u32_to_i32_sat(self.0), u32_to_i32_sat(self.1), u32_to_i32_sat(self.2),
            u32_to_i32_sat(self.3),
        )
    }

    open spec fn spec_to_uint_sat(self) -> uint4 {
        self
    }

    open spec fn spec_to_long_sat(self) -> long4 {
        long4(
            u32_to_i64_sat(self.0), u32_to_i64_sat(self.1), u32_to_i64_sat(self.2),
            u32_to_i64_sat(self.3),
        )
    }

    open spec fn spec_to_ulong_sat(self) -> ulong4 {
        ulong4(
            u32_to_u64_sat(self.0), u32_to_u64_sat(self.1), u32_to_u64_sat(self.2),
            u32_to_u64_sat(self.3),
        )
    }

    fn abs(self) -> (r: uint4) {
        uint4::abs(self)
    }

    fn max(self, other: uint4) -> (r: uint4) {
        uint4::max(self, other)
    }

    fn min(self, other: uint4) -> (r: uint4) {
        uint4::min(self, other)
    }

    fn clamp(self, lo: uint4, hi: uint4) -> (r: uint4) {
        uint4::clamp(self, lo, hi)
    }

    fn reduce_add(self) -> (r: u32) {
        uint4::reduce_add(self)
    }

    fn reduce_min(self) -> (r: u32) {
        uint4::reduce_min(self)
    }

    fn reduce_max(self) -> (r: u32) {
        uint4::reduce_max(self)
    }

    fn to_char_sat(self) -> (r: char4) {
        uint4::to_char_sat(self)
    }

    fn to_uchar_sat(self) -> (r: uchar4) {
        uint4::to_uchar_sat(self)
    }

    fn to_short_sat(self) -> (r: short4) {
        uint4::to_short_sat(self)
    }

    fn to_ushort_sat(self) -> (r: ushort4) {
        uint4::to_ushort_sat(self)
    }

    fn to_int_sat(self) -> (r: int4) {
        uint4::to_int_sat(self)
    }

    fn to_uint_sat(self) -> (r: uint4) {
        uint4::to_uint_sat(self)
    }

    fn to_long_sat(self) -> (r: long4) {
        uint4::to_long_sat(self)
    }

    fn to_ulong_sat(self) -> (r: ulong4) {
        uint4::to_ulong_sat(self)
    }
}

impl Integer for uint4 {
    open spec fn spec_reduce_and(self) -> u32 {
        self.0 & self.1 & self.2 & self.3
    }

    open spec fn spec_reduce_or(self) -> u32 {
        self.0 | self.1 | self.2 | self.3
    }

    open spec fn spec_reduce_xor(self) -> u32 {
        self.0 ^ self.1 ^ self.2 ^ self.3
    }

    open spec fn spec_all(self) -> bool {
        truth_u32(self.0) && truth_u32(self.1) && truth_u32(self.2) && truth_u32(self.3)
    }

    open spec fn spec_any(self) -> bool {
        truth_u32(self.0) || truth_u32(self.1) || truth_u32(self.2) || truth_u32(self.3)
    }

    fn reduce_and(self) -> (r: u32) {
        self.0 & self.1 & self.2 & self.3
    }

    fn reduce_or(self) -> (r: u32) {
        self.0 | self.1 | self.2 | self.3
    }

    fn reduce_xor(self) -> (r: u32) {
        self.0 ^ self.1 ^ self.2 ^ self.3
    }

    fn all(self) -> (r: bool) {
        proof {
            let s = self.0 & self.1;
            lemma_bits_u32(self.0, self.1, 0, 0, 0);
            lemma_bits_u32(s, self.2, 0, 0, 0);
            let s = s & self.2;
            lemma_bits_u32(s, self.3, 0, 0, 0);
        }
        truth_u32(self.reduce_and())
    }

    fn any(self) -> (r: bool) {
        proof {
            let s = self.0 | self.1;
            lemma_bits_u32(self.0, self.1, 0, 0, 0);
            lemma_bits_u32(s, self.2, 0, 0, 0);
            let s = s | self.2;
            lemma_bits_u32(s, self.3, 0, 0, 0);
        }
        truth_u32(self.reduce_or())
    }
}

impl Dot for uint4 {
    type DotProduct = u32;

    open spec fn spec_dot(self, other: uint4) -> u32 {
        wrap_u32(self.0 * other.0 + self.1 * other.1 + self.2 * other.2 + self.3 * other.3)
    }

    fn dot(self, other: uint4) -> (r: u32) {
        let s = mul_u32(self.0, other.0);
        let ghost mut t: int = self.0 * other.0;
        proof {
            lemma_wrap_u32_sum(t, self.1 * other.1);
            t = t + self.1 * other.1;
        }
        let s = madd_u32(self.1, other.1, s);
        proof {
            lemma_wrap_u32_sum(t, self.2 * other.2);
            t = t + self.2 * other.2;
        }
        let s = madd_u32(self.2, other.2, s);
        proof {
            lemma_wrap_u32_sum(t, self.3 * other.3);
            t = t + self.3 * other.3;
        }
        let s = madd_u32(self.3, other.3, s);
        s
    }
}

impl Bitcast for uint4 {
    type Image = uchar16;

    open spec fn spec_image(self) -> uchar16 {
        let d0 = split_u32_u8(self.0);
        let d1 = split_u32_u8(self.1);
        let d2 = split_u32_u8(self.2);
        let d3 = split_u32_u8(self.3);
        uchar16(
            d0.0, d0.1, d0.2, d0.3, d1.0, d1.1, d1.2, d1.3, d2.0, d2.1, d2.2, d2.3, d3.0, d3.1,
            d3.2, d3.3,
        )
    }

    open spec fn spec_from_image(image: uchar16) -> uint4 {
        uint4(
            join_u8_u32(image.0, image.1, image.2, image.3),
            join_u8_u32(image.4, image.5, image.6, image.7),
            join_u8_u32(image.8, image.9, image.10, image.11),
            join_u8_u32(image.12, image.13, image.14, image.15),
        )
    }

    open spec fn spec_fills() -> bool {
        true
    }

    fn image(self) -> (r: uchar16) {
        let d0 = split_u32_u8(self.0);
        let d1 = split_u32_u8(self.1);
        let d2 = split_u32_u8(self.2);
        let d3 = split_u32_u8(self.3);
        uchar16(
            d0.0, d0.1, d0.2, d0.3, d1.0, d1.1, d1.2, d1.3, d2.0, d2.1, d2.2, d2.3, d3.0, d3.1,
            d3.2, d3.3,
        )
    }

    fn from_image(image: uchar16) -> (r: uint4) {
        uint4(
            join_u8_u32(image.0, image.1, image.2, image.3),
            join_u8_u32(image.4, image.5, image.6, image.7),
            join_u8_u32(image.8, image.9, image.10, image.11),
            join_u8_u32(image.12, image.13, image.14, image.15),
        )
    }

    proof fn lemma_image(x: uint4) {
        lemma_regroup_u8_u32(x.0, 0, 0, 0, 0);
        lemma_regroup_u8_u32(x.1, 0, 0, 0, 0);
        lemma_regroup_u8_u32(x.2, 0, 0, 0, 0);
        lemma_regroup_u8_u32(x.3, 0, 0, 0, 0);
    }

    proof fn lemma_from_image(image: uchar16) {
        lemma_regroup_u8_u32(0, image.0, image.1, image.2, image.3);
        lemma_regroup_u8_u32(0, image.4, image.5, image.6, image.7);
        lemma_regroup_u8_u32(0, image.8, image.9, image.10, image.11);
        lemma_regroup_u8_u32(0, image.12, image.13, image.14, image.15);
    }
}

impl uint4 {
    /// Read as `int4`, which has lanes of the same width, a vector keeps the bits of every lane;
    /// read as `uint4` again, it is what it was.
    pub proof fn lemma_bitcast_int4(x: uint4)
        ensures
            spec_bitcast::<uint4, int4>(x)
                == int4(u32_to_i32(x.0), u32_to_i32(x.1), u32_to_i32(x.2), u32_to_i32(x.3)),
            spec_bitcast::<int4, uint4>(spec_bitcast::<uint4, int4>(x)) == x,
    {
        lemma_recast_u32(x.0);
        lemma_regroup_u8_u32(x.0, 0, 0, 0, 0);
        lemma_recast_u32(x.1);
        lemma_regroup_u8_u32(x.1, 0, 0, 0, 0);
        lemma_recast_u32(x.2);
        lemma_regroup_u8_u32(x.2, 0, 0, 0, 0);
        lemma_recast_u32(x.3);
        lemma_regroup_u8_u32(x.3, 0, 0, 0, 0);
    }

    /// Read as `float4`, which has lanes of the same width, a vector keeps the bits of every lane;
    /// read as `uint4` again, it is what it was.
    pub proof fn lemma_bitcast_float4(x: uint4)
        ensures
            spec_bitcast::<uint4, float4>(x) == float4(x.0, x.1, x.2, x.3),
            spec_bitcast::<float4, uint4>(spec_bitcast::<uint4, float4>(x)) == x,
    {
        lemma_regroup_u8_u32(x.0, 0, 0, 0, 0);
        lemma_regroup_u8_u32(x.1, 0, 0, 0, 0);
        lemma_regroup_u8_u32(x.2, 0, 0, 0, 0);
        lemma_regroup_u8_u32(x.3, 0, 0, 0, 0);
    }
}

} // verus!
