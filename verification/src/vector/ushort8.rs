//! `ushort8`: eight lanes of `u16`.

use crate::scalar::lane_u16::{
    abs_u16, add_u16, clamp_u16, div_u16, eq_u16, ge_u16, gt_u16, isize_to_u16, le_u16,
    lemma_arith_u16, lemma_bits_u16, lemma_not_u16, lemma_recast_u16, lt_u16, madd_u16, max_u16,
    min_u16, mul_u16, ne_u16, neg_u16, not_u16, rem_u16, shl_u16, shr_u16, sub_u16, truth_u16,
    u16_to_i16, u16_to_i16_sat, u16_to_i32, u16_to_i32_sat, u16_to_i64, u16_to_i64_sat, u16_to_i8,
    u16_to_i8_sat, u16_to_u32, u16_to_u32_sat, u16_to_u64, u16_to_u64_sat, u16_to_u8, u16_to_u8_sat,
};
use crate::scalar::model::{
    lemma_wrap_u16_sum, sat_i16, sat_i32, sat_i64, sat_i8, sat_u32, sat_u64, sat_u8, wrap_u16,
};
use crate::scalar::regroup::{join_u8_u16, lemma_regroup_u8_u16, split_u16_u8};
use crate::traits::{Bitcast, Dot, Integer, Vector, bitcast, spec_bitcast};
use crate::vector::char8::char8;
use crate::vector::double8::double8;
use crate::vector::float8::float8;
use crate::vector::int8::int8;
use crate::vector::long8::long8;
use crate::vector::short8::short8;
use crate::vector::uchar16::uchar16;
use crate::vector::uchar8::uchar8;
use crate::vector::uint8::uint8;
use crate::vector::ulong8::ulong8;
use crate::vector::ushort4::ushort4;
use vstd::prelude::*;
use vstd::std_specs::convert::FromSpecImpl;
use vstd::std_specs::ops::{
    AddSpec, AddSpecImpl, BitAndSpecImpl, BitOrSpecImpl, BitXorSpecImpl, DivSpecImpl, MulSpecImpl,
    NegSpec, NegSpecImpl, NotSpec, NotSpecImpl, RemSpecImpl, ShlSpecImpl, ShrSpecImpl, SubSpec,
    SubSpecImpl,
};

verus! {

/// Eight lanes of `u16`.
#[derive(Copy, Clone, Debug, PartialEq, Eq, Structural)]
pub struct ushort8(pub u16, pub u16, pub u16, pub u16, pub u16, pub u16, pub u16, pub u16);

impl core::ops::Add for ushort8 {
    type Output = ushort8;

    /// The lane-wise sum of the two vectors, wrapping around.
    fn add(self, rhs: ushort8) -> (r: ushort8) {
        ushort8(
            add_u16(self.0, rhs.0), add_u16(self.1, rhs.1), add_u16(self.2, rhs.2),
            add_u16(self.3, rhs.3), add_u16(self.4, rhs.4), add_u16(self.5, rhs.5),
            add_u16(self.6, rhs.6), add_u16(self.7, rhs.7),
        )
    }
}

impl AddSpecImpl for ushort8 {
    open spec fn obeys_add_spec() -> bool {
        true
    }

    open spec fn add_req(self, rhs: ushort8) -> bool {
        true
    }

    open spec fn add_spec(self, rhs: ushort8) -> ushort8 {
        ushort8(
            add_u16(self.0, rhs.0), add_u16(self.1, rhs.1), add_u16(self.2, rhs.2),
            add_u16(self.3, rhs.3), add_u16(self.4, rhs.4), add_u16(self.5, rhs.5),
            add_u16(self.6, rhs.6), add_u16(self.7, rhs.7),
        )
    }
}

impl core::ops::Add<u16> for ushort8 {
    type Output = ushort8;

    /// The sum of every lane and the scalar, wrapping around.
    fn add(self, rhs: u16) -> (r: ushort8) {
        ushort8(
            add_u16(self.0, rhs), add_u16(self.1, rhs), add_u16(self.2, rhs), add_u16(self.3, rhs),
            add_u16(self.4, rhs), add_u16(self.5, rhs), add_u16(self.6, rhs), add_u16(self.7, rhs),
        )
    }
}

impl AddSpecImpl<u16> for ushort8 {
    open spec fn obeys_add_spec() -> bool {
        true
    }

    open spec fn add_req(self, rhs: u16) -> bool {
        true
    }

    open spec fn add_spec(self, rhs: u16) -> ushort8 {
        ushort8(
            add_u16(self.0, rhs), add_u16(self.1, rhs), add_u16(self.2, rhs), add_u16(self.3, rhs),
            add_u16(self.4, rhs), add_u16(self.5, rhs), add_u16(self.6, rhs), add_u16(self.7, rhs),
        )
    }
}

impl core::ops::Add<ushort8> for u16 {
    type Output = ushort8;

    /// The sum of the scalar and every lane, wrapping around.
    fn add(self, rhs: ushort8) -> (r: ushort8) {
        ushort8(
            add_u16(self, rhs.0), add_u16(self, rhs.1), add_u16(self, rhs.2), add_u16(self, rhs.3),
            add_u16(self, rhs.4), add_u16(self, rhs.5), add_u16(self, rhs.6), add_u16(self, rhs.7),
        )
    }
}

impl AddSpecImpl<ushort8> for u16 {
    open spec fn obeys_add_spec() -> bool {
        true
    }

    open spec fn add_req(self, rhs: ushort8) -> bool {
        true
    }

    open spec fn add_spec(self, rhs: ushort8) -> ushort8 {
        ushort8(
            add_u16(self, rhs.0), add_u16(self, rhs.1), add_u16(self, rhs.2), add_u16(self, rhs.3),
            add_u16(self, rhs.4), add_u16(self, rhs.5), add_u16(self, rhs.6), add_u16(self, rhs.7),
        )
    }
}

impl core::ops::Sub for ushort8 {
    type Output = ushort8;

    /// The lane-wise difference of the two vectors, wrapping around.
    fn sub(self, rhs: ushort8) -> (r: ushort8) {
        ushort8(
            sub_u16(self.0, rhs.0), sub_u16(self.1, rhs.1), sub_u16(self.2, rhs.2),
            sub_u16(self.3, rhs.3), sub_u16(self.4, rhs.4), sub_u16(self.5, rhs.5),
            sub_u16(self.6, rhs.6), sub_u16(self.7, rhs.7),
        )
    }
}

impl SubSpecImpl for ushort8 {
    open spec fn obeys_sub_spec() -> bool {
        true
    }

    open spec fn sub_req(self, rhs: ushort8) -> bool {
        true
    }

    open spec fn sub_spec(self, rhs: ushort8) -> ushort8 {
        ushort8(
            sub_u16(self.0, rhs.0), sub_u16(self.1, rhs.1), sub_u16(self.2, rhs.2),
            sub_u16(self.3, rhs.3), sub_u16(self.4, rhs.4), sub_u16(self.5, rhs.5),
            sub_u16(self.6, rhs.6), sub_u16(self.7, rhs.7),
        )
    }
}

impl core::ops::Sub<u16> for ushort8 {
    type Output = ushort8;

    /// The difference of every lane and the scalar, wrapping around.
    fn sub(self, rhs: u16) -> (r: ushort8) {
        ushort8(
            sub_u16(self.0, rhs), sub_u16(self.1, rhs), sub_u16(self.2, rhs), sub_u16(self.3, rhs),
            sub_u16(self.4, rhs), sub_u16(self.5, rhs), sub_u16(self.6, rhs), sub_u16(self.7, rhs),
        )
    }
}

impl SubSpecImpl<u16> for ushort8 {
    open spec fn obeys_sub_spec() -> bool {
        true
    }

    open spec fn sub_req(self, rhs: u16) -> bool {
        true
    }

    open spec fn sub_spec(self, rhs: u16) -> ushort8 {
        ushort8(
            sub_u16(self.0, rhs), sub_u16(self.1, rhs), sub_u16(self.2, rhs), sub_u16(self.3, rhs),
            sub_u16(self.4, rhs), sub_u16(self.5, rhs), sub_u16(self.6, rhs), sub_u16(self.7, rhs),
        )
    }
}

impl core::ops::Sub<ushort8> for u16 {
    type Output = ushort8;

    /// The difference of the scalar and every lane, wrapping around.
    fn sub(self, rhs: ushort8) -> (r: ushort8) {
        ushort8(
            sub_u16(self, rhs.0), sub_u16(self, rhs.1), sub_u16(self, rhs.2), sub_u16(self, rhs.3),
            sub_u16(self, rhs.4), sub_u16(self, rhs.5), sub_u16(self, rhs.6), sub_u16(self, rhs.7),
        )
    }
}

impl SubSpecImpl<ushort8> for u16 {
    open spec fn obeys_sub_spec() -> bool {
        true
    }

    open spec fn sub_req(self, rhs: ushort8) -> bool {
        true
    }

    open spec fn sub_spec(self, rhs: ushort8) -> ushort8 {
        ushort8(
            sub_u16(self, rhs.0), sub_u16(self, rhs.1), sub_u16(self, rhs.2), sub_u16(self, rhs.3),
            sub_u16(self, rhs.4), sub_u16(self, rhs.5), sub_u16(self, rhs.6), sub_u16(self, rhs.7),
        )
    }
}

impl core::ops::Mul for ushort8 {
    type Output = ushort8;

    /// The lane-wise product of the two vectors, wrapping around.
    fn mul(self, rhs: ushort8) -> (r: ushort8) {
        ushort8(
            mul_u16(self.0, rhs.0), mul_u16(self.1, rhs.1), mul_u16(self.2, rhs.2),
            mul_u16(self.3, rhs.3), mul_u16(self.4, rhs.4), mul_u16(self.5, rhs.5),
            mul_u16(self.6, rhs.6), mul_u16(self.7, rhs.7),
        )
    }
}

impl MulSpecImpl for ushort8 {
    open spec fn obeys_mul_spec() -> bool {
        true
    }

    open spec fn mul_req(self, rhs: ushort8) -> bool {
        true
    }

    open spec fn mul_spec(self, rhs: ushort8) -> ushort8 {
        ushort8(
            mul_u16(self.0, rhs.0), mul_u16(self.1, rhs.1), mul_u16(self.2, rhs.2),
            mul_u16(self.3, rhs.3), mul_u16(self.4, rhs.4), mul_u16(self.5, rhs.5),
            mul_u16(self.6, rhs.6), mul_u16(self.7, rhs.7),
        )
    }
}

impl core::ops::Mul<u16> for ushort8 {
    type Output = ushort8;

    /// The product of every lane and the scalar, wrapping around.
    fn mul(self, rhs: u16) -> (r: ushort8) {
        ushort8(
            mul_u16(self.0, rhs), mul_u16(self.1, rhs), mul_u16(self.2, rhs), mul_u16(self.3, rhs),
            mul_u16(self.4, rhs), mul_u16(self.5, rhs), mul_u16(self.6, rhs), mul_u16(self.7, rhs),
        )
    }
}

impl MulSpecImpl<u16> for ushort8 {
    open spec fn obeys_mul_spec() -> bool {
        true
    }

    open spec fn mul_req(self, rhs: u16) -> bool {
        true
    }

    open spec fn mul_spec(self, rhs: u16) -> ushort8 {
        ushort8(
            mul_u16(self.0, rhs), mul_u16(self.1, rhs), mul_u16(self.2, rhs), mul_u16(self.3, rhs),
            mul_u16(self.4, rhs), mul_u16(self.5, rhs), mul_u16(self.6, rhs), mul_u16(self.7, rhs),
        )
    }
}

impl core::ops::Mul<ushort8> for u16 {
    type Output = ushort8;

    /// The product of the scalar and every lane, wrapping around.
    fn mul(self, rhs: ushort8) -> (r: ushort8) {
        ushort8(
            mul_u16(self, rhs.0), mul_u16(self, rhs.1), mul_u16(self, rhs.2), mul_u16(self, rhs.3),
            mul_u16(self, rhs.4), mul_u16(self, rhs.5), mul_u16(self, rhs.6), mul_u16(self, rhs.7),
        )
    }
}

impl MulSpecImpl<ushort8> for u16 {
    open spec fn obeys_mul_spec() -> bool {
        true
    }

    open spec fn mul_req(self, rhs: ushort8) -> bool {
        true
    }

    open spec fn mul_spec(self, rhs: ushort8) -> ushort8 {
        ushort8(
            mul_u16(self, rhs.0), mul_u16(self, rhs.1), mul_u16(self, rhs.2), mul_u16(self, rhs.3),
            mul_u16(self, rhs.4), mul_u16(self, rhs.5), mul_u16(self, rhs.6), mul_u16(self, rhs.7),
        )
    }
}

impl core::ops::Div for ushort8 {
    type Output = ushort8;

    /// The lane-wise quotient of the two vectors, rounded toward zero. No lane of the divisor is
    /// zero.
    fn div(self, rhs: ushort8) -> (r: ushort8) {
        ushort8(
            div_u16(self.0, rhs.0), div_u16(self.1, rhs.1), div_u16(self.2, rhs.2),
            div_u16(self.3, rhs.3), div_u16(self.4, rhs.4), div_u16(self.5, rhs.5),
            div_u16(self.6, rhs.6), div_u16(self.7, rhs.7),
        )
    }
}

impl DivSpecImpl for ushort8 {
    open spec fn obeys_div_spec() -> bool {
        true
    }

    open spec fn div_req(self, rhs: ushort8) -> bool {
        rhs.0 != 0 && rhs.1 != 0 && rhs.2 != 0 && rhs.3 != 0 && rhs.4 != 0 && rhs.5 != 0
            && rhs.6 != 0 && rhs.7 != 0
    }

    open spec fn div_spec(self, rhs: ushort8) -> ushort8 {
        ushort8(
            div_u16(self.0, rhs.0), div_u16(self.1, rhs.1), div_u16(self.2, rhs.2),
            div_u16(self.3, rhs.3), div_u16(self.4, rhs.4), div_u16(self.5, rhs.5),
            div_u16(self.6, rhs.6), div_u16(self.7, rhs.7),
        )
    }
}

impl core::ops::Div<u16> for ushort8 {
    type Output = ushort8;

    /// The quotient of every lane by the scalar, rounded toward zero. The scalar is not zero.
    fn div(self, rhs: u16) -> (r: ushort8) {
        ushort8(
            div_u16(self.0, rhs), div_u16(self.1, rhs), div_u16(self.2, rhs), div_u16(self.3, rhs),
            div_u16(self.4, rhs), div_u16(self.5, rhs), div_u16(self.6, rhs), div_u16(self.7, rhs),
        )
    }
}

impl DivSpecImpl<u16> for ushort8 {
    open spec fn obeys_div_spec() -> bool {
        true
    }

    open spec fn div_req(self, rhs: u16) -> bool {
        rhs != 0
    }

    open spec fn div_spec(self, rhs: u16) -> ushort8 {
        ushort8(
            div_u16(self.0, rhs), div_u16(self.1, rhs), div_u16(self.2, rhs), div_u16(self.3, rhs),
            div_u16(self.4, rhs), div_u16(self.5, rhs), div_u16(self.6, rhs), div_u16(self.7, rhs),
        )
    }
}

impl core::ops::Div<ushort8> for u16 {
    type Output = ushort8;

    /// The quotient of the scalar by every lane, rounded toward zero. No lane is zero.
    fn div(self, rhs: ushort8) -> (r: ushort8) {
        ushort8(
            div_u16(self, rhs.0), div_u16(self, rhs.1), div_u16(self, rhs.2), div_u16(self, rhs.3),
            div_u16(self, rhs.4), div_u16(self, rhs.5), div_u16(self, rhs.6), div_u16(self, rhs.7),
        )
    }
}

impl DivSpecImpl<ushort8> for u16 {
    open spec fn obeys_div_spec() -> bool {
        true
    }

    open spec fn div_req(self, rhs: ushort8) -> bool {
        rhs.0 != 0 && rhs.1 != 0 && rhs.2 != 0 && rhs.3 != 0 && rhs.4 != 0 && rhs.5 != 0
            && rhs.6 != 0 && rhs.7 != 0
    }

    open spec fn div_spec(self, rhs: ushort8) -> ushort8 {
        ushort8(
            div_u16(self, rhs.0), div_u16(self, rhs.1), div_u16(self, rhs.2), div_u16(self, rhs.3),
            div_u16(self, rhs.4), div_u16(self, rhs.5), div_u16(self, rhs.6), div_u16(self, rhs.7),
        )
    }
}

impl core::ops::BitAnd for ushort8 {
    type Output = ushort8;

    /// The lane-wise conjunction of the two vectors, bit by bit.
    fn bitand(self, rhs: ushort8) -> (r: ushort8) {
        ushort8(
            self.0 & rhs.0, self.1 & rhs.1, self.2 & rhs.2, self.3 & rhs.3, self.4 & rhs.4,
            self.5 & rhs.5, self.6 & rhs.6, self.7 & rhs.7,
        )
    }
}

impl BitAndSpecImpl for ushort8 {
    open spec fn obeys_bitand_spec() -> bool {
        true
    }

    open spec fn bitand_req(self, rhs: ushort8) -> bool {
        true
    }

    open spec fn bitand_spec(self, rhs: ushort8) -> ushort8 {
        ushort8(
            self.0 & rhs.0, self.1 & rhs.1, self.2 & rhs.2, self.3 & rhs.3, self.4 & rhs.4,
            self.5 & rhs.5, self.6 & rhs.6, self.7 & rhs.7,
        )
    }
}

impl core::ops::BitAnd<u16> for ushort8 {
    type Output = ushort8;

    /// The conjunction of every lane and the scalar, bit by bit.
    fn bitand(self, rhs: u16) -> (r: ushort8) {
        ushort8(
            self.0 & rhs, self.1 & rhs, self.2 & rhs, self.3 & rhs, self.4 & rhs, self.5 & rhs,
            self.6 & rhs, self.7 & rhs,
        )
    }
}

impl BitAndSpecImpl<u16> for ushort8 {
    open spec fn obeys_bitand_spec() -> bool {
        true
    }

    open spec fn bitand_req(self, rhs: u16) -> bool {
        true
    }

    open spec fn bitand_spec(self, rhs: u16) -> ushort8 {
        ushort8(
            self.0 & rhs, self.1 & rhs, self.2 & rhs, self.3 & rhs, self.4 & rhs, self.5 & rhs,
            self.6 & rhs, self.7 & rhs,
        )
    }
}

impl core::ops::BitAnd<ushort8> for u16 {
    type Output = ushort8;

    /// The conjunction of the scalar and every lane, bit by bit.
    fn bitand(self, rhs: ushort8) -> (r: ushort8) {
        ushort8(
            self & rhs.0, self & rhs.1, self & rhs.2, self & rhs.3, self & rhs.4, self & rhs.5,
            self & rhs.6, self & rhs.7,
        )
    }
}

impl BitAndSpecImpl<ushort8> for u16 {
    open spec fn obeys_bitand_spec() -> bool {
        true
    }

    open spec fn bitand_req(self, rhs: ushort8) -> bool {
        true
    }

    open spec fn bitand_spec(self, rhs: ushort8) -> ushort8 {
        ushort8(
            self & rhs.0, self & rhs.1, self & rhs.2, self & rhs.3, self & rhs.4, self & rhs.5,
            self & rhs.6, self & rhs.7,
        )
    }
}

impl core::ops::BitOr for ushort8 {
    type Output = ushort8;

    /// The lane-wise disjunction of the two vectors, bit by bit.
    fn bitor(self, rhs: ushort8) -> (r: ushort8) {
        ushort8(
            self.0 | rhs.0, self.1 | rhs.1, self.2 | rhs.2, self.3 | rhs.3, self.4 | rhs.4,
            self.5 | rhs.5, self.6 | rhs.6, self.7 | rhs.7,
        )
    }
}

impl BitOrSpecImpl for ushort8 {
    open spec fn obeys_bitor_spec() -> bool {
        true
    }

    open spec fn bitor_req(self, rhs: ushort8) -> bool {
        true
    }

    open spec fn bitor_spec(self, rhs: ushort8) -> ushort8 {
        ushort8(
            self.0 | rhs.0, self.1 | rhs.1, self.2 | rhs.2, self.3 | rhs.3, self.4 | rhs.4,
            self.5 | rhs.5, self.6 | rhs.6, self.7 | rhs.7,
        )
    }
}

impl core::ops::BitOr<u16> for ushort8 {
    type Output = ushort8;

    /// The disjunction of every lane and the scalar, bit by bit.
    fn bitor(self, rhs: u16) -> (r: ushort8) {
        ushort8(
            self.0 | rhs, self.1 | rhs, self.2 | rhs, self.3 | rhs, self.4 | rhs, self.5 | rhs,
            self.6 | rhs, self.7 | rhs,
        )
    }
}

impl BitOrSpecImpl<u16> for ushort8 {
    open spec fn obeys_bitor_spec() -> bool {
        true
    }

    open spec fn bitor_req(self, rhs: u16) -> bool {
        true
    }

    open spec fn bitor_spec(self, rhs: u16) -> ushort8 {
        ushort8(
            self.0 | rhs, self.1 | rhs, self.2 | rhs, self.3 | rhs, self.4 | rhs, self.5 | rhs,
            self.6 | rhs, self.7 | rhs,
        )
    }
}

impl core::ops::BitOr<ushort8> for u16 {
    type Output = ushort8;

    /// The disjunction of the scalar and every lane, bit by bit.
    fn bitor(self, rhs: ushort8) -> (r: ushort8) {
        ushort8(
            self | rhs.0, self | rhs.1, self | rhs.2, self | rhs.3, self | rhs.4, self | rhs.5,
            self | rhs.6, self | rhs.7,
        )
    }
}

impl BitOrSpecImpl<ushort8> for u16 {
    open spec fn obeys_bitor_spec() -> bool {
        true
    }

    open spec fn bitor_req(self, rhs: ushort8) -> bool {
        true
    }

    open spec fn bitor_spec(self, rhs: ushort8) -> ushort8 {
        ushort8(
            self | rhs.0, self | rhs.1, self | rhs.2, self | rhs.3, self | rhs.4, self | rhs.5,
            self | rhs.6, self | rhs.7,
        )
    }
}

impl core::ops::BitXor for ushort8 {
    type Output = ushort8;

    /// The lane-wise exclusive disjunction of the two vectors, bit by bit.
    fn bitxor(self, rhs: ushort8) -> (r: ushort8) {
        ushort8(
            self.0 ^ rhs.0, self.1 ^ rhs.1, self.2 ^ rhs.2, self.3 ^ rhs.3, self.4 ^ rhs.4,
            self.5 ^ rhs.5, self.6 ^ rhs.6, self.7 ^ rhs.7,
        )
    }
}

impl BitXorSpecImpl for ushort8 {
    open spec fn obeys_bitxor_spec() -> bool {
        true
    }

    open spec fn bitxor_req(self, rhs: ushort8) -> bool {
        true
    }

    open spec fn bitxor_spec(self, rhs: ushort8) -> ushort8 {
        ushort8(
            self.0 ^ rhs.0, self.1 ^ rhs.1, self.2 ^ rhs.2, self.3 ^ rhs.3, self.4 ^ rhs.4,
            self.5 ^ rhs.5, self.6 ^ rhs.6, self.7 ^ rhs.7,
        )
    }
}

impl core::ops::BitXor<u16> for ushort8 {
    type Output = ushort8;

    /// The exclusive disjunction of every lane and the scalar, bit by bit.
    fn bitxor(self, rhs: u16) -> (r: ushort8) {
        ushort8(
            self.0 ^ rhs, self.1 ^ rhs, self.2 ^ rhs, self.3 ^ rhs, self.4 ^ rhs, self.5 ^ rhs,
            self.6 ^ rhs, self.7 ^ rhs,
        )
    }
}

impl BitXorSpecImpl<u16> for ushort8 {
    open spec fn obeys_bitxor_spec() -> bool {
        true
    }

    open spec fn bitxor_req(self, rhs: u16) -> bool {
        true
    }

    open spec fn bitxor_spec(self, rhs: u16) -> ushort8 {
        ushort8(
            self.0 ^ rhs, self.1 ^ rhs, self.2 ^ rhs, self.3 ^ rhs, self.4 ^ rhs, self.5 ^ rhs,
            self.6 ^ rhs, self.7 ^ rhs,
        )
    }
}

impl core::ops::BitXor<ushort8> for u16 {
    type Output = ushort8;

    /// The exclusive disjunction of the scalar and every lane, bit by bit.
    fn bitxor(self, rhs: ushort8) -> (r: ushort8) {
        ushort8(
            self ^ rhs.0, self ^ rhs.1, self ^ rhs.2, self ^ rhs.3, self ^ rhs.4, self ^ rhs.5,
            self ^ rhs.6, self ^ rhs.7,
        )
    }
}

impl BitXorSpecImpl<ushort8> for u16 {
    open spec fn obeys_bitxor_spec() -> bool {
        true
    }

    open spec fn bitxor_req(self, rhs: ushort8) -> bool {
        true
    }

    open spec fn bitxor_spec(self, rhs: ushort8) -> ushort8 {
        ushort8(
            self ^ rhs.0, self ^ rhs.1, self ^ rhs.2, self ^ rhs.3, self ^ rhs.4, self ^ rhs.5,
            self ^ rhs.6, self ^ rhs.7,
        )
    }
}

impl core::ops::Shl for ushort8 {
    type Output = ushort8;

    /// Every lane shifted left by the lane of `rhs`, which is below 16.
    fn shl(self, rhs: ushort8) -> (r: ushort8) {
        ushort8(
            shl_u16(self.0, rhs.0), shl_u16(self.1, rhs.1), shl_u16(self.2, rhs.2),
            shl_u16(self.3, rhs.3), shl_u16(self.4, rhs.4), shl_u16(self.5, rhs.5),
            shl_u16(self.6, rhs.6), shl_u16(self.7, rhs.7),
        )
    }
}

impl ShlSpecImpl for ushort8 {
    open spec fn obeys_shl_spec() -> bool {
        true
    }

    open spec fn shl_req(self, rhs: ushort8) -> bool {
        0 <= rhs.0 < 16 && 0 <= rhs.1 < 16 && 0 <= rhs.2 < 16 && 0 <= rhs.3 < 16 && 0 <= rhs.4 < 16
            && 0 <= rhs.5 < 16 && 0 <= rhs.6 < 16 && 0 <= rhs.7 < 16
    }

    open spec fn shl_spec(self, rhs: ushort8) -> ushort8 {
        ushort8(
            shl_u16(self.0, rhs.0), shl_u16(self.1, rhs.1), shl_u16(self.2, rhs.2),
            shl_u16(self.3, rhs.3), shl_u16(self.4, rhs.4), shl_u16(self.5, rhs.5),
            shl_u16(self.6, rhs.6), shl_u16(self.7, rhs.7),
        )
    }
}

impl core::ops::Shl<u16> for ushort8 {
    type Output = ushort8;

    /// Every lane shifted left by `rhs`, which is below 16.
    fn shl(self, rhs: u16) -> (r: ushort8) {
        ushort8(
            shl_u16(self.0, rhs), shl_u16(self.1, rhs), shl_u16(self.2, rhs), shl_u16(self.3, rhs),
            shl_u16(self.4, rhs), shl_u16(self.5, rhs), shl_u16(self.6, rhs), shl_u16(self.7, rhs),
        )
    }
}

impl ShlSpecImpl<u16> for ushort8 {
    open spec fn obeys_shl_spec() -> bool {
        true
    }

    open spec fn shl_req(self, rhs: u16) -> bool {
        0 <= rhs < 16
    }

    open spec fn shl_spec(self, rhs: u16) -> ushort8 {
        ushort8(
            shl_u16(self.0, rhs), shl_u16(self.1, rhs), shl_u16(self.2, rhs), shl_u16(self.3, rhs),
            shl_u16(self.4, rhs), shl_u16(self.5, rhs), shl_u16(self.6, rhs), shl_u16(self.7, rhs),
        )
    }
}

impl core::ops::Shl<ushort8> for u16 {
    type Output = ushort8;

    /// The scalar shifted left by every lane of `rhs`, each of which is below 16.
    fn shl(self, rhs: ushort8) -> (r: ushort8) {
        ushort8(
            shl_u16(self, rhs.0), shl_u16(self, rhs.1), shl_u16(self, rhs.2), shl_u16(self, rhs.3),
            shl_u16(self, rhs.4), shl_u16(self, rhs.5), shl_u16(self, rhs.6), shl_u16(self, rhs.7),
        )
    }
}

impl ShlSpecImpl<ushort8> for u16 {
    open spec fn obeys_shl_spec() -> bool {
        true
    }

    open spec fn shl_req(self, rhs: ushort8) -> bool {
        0 <= rhs.0 < 16 && 0 <= rhs.1 < 16 && 0 <= rhs.2 < 16 && 0 <= rhs.3 < 16 && 0 <= rhs.4 < 16
            && 0 <= rhs.5 < 16 && 0 <= rhs.6 < 16 && 0 <= rhs.7 < 16
    }

    open spec fn shl_spec(self, rhs: ushort8) -> ushort8 {
        ushort8(
            shl_u16(self, rhs.0), shl_u16(self, rhs.1), shl_u16(self, rhs.2), shl_u16(self, rhs.3),
            shl_u16(self, rhs.4), shl_u16(self, rhs.5), shl_u16(self, rhs.6), shl_u16(self, rhs.7),
        )
    }
}

impl core::ops::Shr for ushort8 {
    type Output = ushort8;

    /// Every lane shifted right by the lane of `rhs`, which is below 16.
    fn shr(self, rhs: ushort8) -> (r: ushort8) {
        ushort8(
            shr_u16(self.0, rhs.0), shr_u16(self.1, rhs.1), shr_u16(self.2, rhs.2),
            shr_u16(self.3, rhs.3), shr_u16(self.4, rhs.4), shr_u16(self.5, rhs.5),
            shr_u16(self.6, rhs.6), shr_u16(self.7, rhs.7),
        )
    }
}

impl ShrSpecImpl for ushort8 {
    open spec fn obeys_shr_spec() -> bool {
        true
    }

    open spec fn shr_req(self, rhs: ushort8) -> bool {
        0 <= rhs.0 < 16 && 0 <= rhs.1 < 16 && 0 <= rhs.2 < 16 && 0 <= rhs.3 < 16 && 0 <= rhs.4 < 16
            && 0 <= rhs.5 < 16 && 0 <= rhs.6 < 16 && 0 <= rhs.7 < 16
    }

    open spec fn shr_spec(self, rhs: ushort8) -> ushort8 {
        ushort8(
            shr_u16(self.0, rhs.0), shr_u16(self.1, rhs.1), shr_u16(self.2, rhs.2),
            shr_u16(self.3, rhs.3), shr_u16(self.4, rhs.4), shr_u16(self.5, rhs.5),
            shr_u16(self.6, rhs.6), shr_u16(self.7, rhs.7),
        )
    }
}

impl core::ops::Shr<u16> for ushort8 {
    type Output = ushort8;

    /// Every lane shifted right by `rhs`, which is below 16.
    fn shr(self, rhs: u16) -> (r: ushort8) {
        ushort8(
            shr_u16(self.0, rhs), shr_u16(self.1, rhs), shr_u16(self.2, rhs), shr_u16(self.3, rhs),
            shr_u16(self.4, rhs), shr_u16(self.5, rhs), shr_u16(self.6, rhs), shr_u16(self.7, rhs),
        )
    }
}

impl ShrSpecImpl<u16> for ushort8 {
    open spec fn obeys_shr_spec() -> bool {
        true
    }

    open spec fn shr_req(self, rhs: u16) -> bool {
        0 <= rhs < 16
    }

    open spec fn shr_spec(self, rhs: u16) -> ushort8 {
        ushort8(
            shr_u16(self.0, rhs), shr_u16(self.1, rhs), shr_u16(self.2, rhs), shr_u16(self.3, rhs),
            shr_u16(self.4, rhs), shr_u16(self.5, rhs), shr_u16(self.6, rhs), shr_u16(self.7, rhs),
        )
    }
}

impl core::ops::Shr<ushort8> for u16 {
    type Output = ushort8;

    /// The scalar shifted right by every lane of `rhs`, each of which is below 16.
    fn shr(self, rhs: ushort8) -> (r: ushort8) {
        ushort8(
            shr_u16(self, rhs.0), shr_u16(self, rhs.1), shr_u16(self, rhs.2), shr_u16(self, rhs.3),
            shr_u16(self, rhs.4), shr_u16(self, rhs.5), shr_u16(self, rhs.6), shr_u16(self, rhs.7),
        )
    }
}

impl ShrSpecImpl<ushort8> for u16 {
    open spec fn obeys_shr_spec() -> bool {
        true
    }

    open spec fn shr_req(self, rhs: ushort8) -> bool {
        0 <= rhs.0 < 16 && 0 <= rhs.1 < 16 && 0 <= rhs.2 < 16 && 0 <= rhs.3 < 16 && 0 <= rhs.4 < 16
            && 0 <= rhs.5 < 16 && 0 <= rhs.6 < 16 && 0 <= rhs.7 < 16
    }

    open spec fn shr_spec(self, rhs: ushort8) -> ushort8 {
        ushort8(
            shr_u16(self, rhs.0), shr_u16(self, rhs.1), shr_u16(self, rhs.2), shr_u16(self, rhs.3),
            shr_u16(self, rhs.4), shr_u16(self, rhs.5), shr_u16(self, rhs.6), shr_u16(self, rhs.7),
        )
    }
}

impl core::ops::Rem for ushort8 {
    type Output = ushort8;

    /// The lane-wise remainder `self - (self / rhs) * rhs`. No lane of the divisor is zero.
    fn rem(self, rhs: ushort8) -> (r: ushort8) {
        ushort8(
            rem_u16(self.0, rhs.0), rem_u16(self.1, rhs.1), rem_u16(self.2, rhs.2),
            rem_u16(self.3, rhs.3), rem_u16(self.4, rhs.4), rem_u16(self.5, rhs.5),
            rem_u16(self.6, rhs.6), rem_u16(self.7, rhs.7),
        )
    }
}

impl RemSpecImpl for ushort8 {
    open spec fn obeys_rem_spec() -> bool {
        true
    }

    open spec fn rem_req(self, rhs: ushort8) -> bool {
        rhs.0 != 0 && rhs.1 != 0 && rhs.2 != 0 && rhs.3 != 0 && rhs.4 != 0 && rhs.5 != 0
            && rhs.6 != 0 && rhs.7 != 0
    }

    open spec fn rem_spec(self, rhs: ushort8) -> ushort8 {
        ushort8(
            rem_u16(self.0, rhs.0), rem_u16(self.1, rhs.1), rem_u16(self.2, rhs.2),
            rem_u16(self.3, rhs.3), rem_u16(self.4, rhs.4), rem_u16(self.5, rhs.5),
            rem_u16(self.6, rhs.6), rem_u16(self.7, rhs.7),
        )
    }
}

impl core::ops::Neg for ushort8 {
    type Output = ushort8;

    /// Zero minus every lane, wrapping around.
    fn neg(self) -> (r: ushort8) {
        ushort8(
            neg_u16(self.0), neg_u16(self.1), neg_u16(self.2), neg_u16(self.3), neg_u16(self.4),
            neg_u16(self.5), neg_u16(self.6), neg_u16(self.7),
        )
    }
}

impl NegSpecImpl for ushort8 {
    open spec fn obeys_neg_spec() -> bool {
        true
    }

    open spec fn neg_req(self) -> bool {
        true
    }

    open spec fn neg_spec(self) -> ushort8 {
        ushort8(
            neg_u16(self.0), neg_u16(self.1), neg_u16(self.2), neg_u16(self.3), neg_u16(self.4),
            neg_u16(self.5), neg_u16(self.6), neg_u16(self.7),
        )
    }
}

impl core::ops::Not for ushort8 {
    type Output = ushort8;

    /// Every lane with every bit flipped.
    fn not(self) -> (r: ushort8) {
        ushort8(
            not_u16(self.0), not_u16(self.1), not_u16(self.2), not_u16(self.3), not_u16(self.4),
            not_u16(self.5), not_u16(self.6), not_u16(self.7),
        )
    }
}

impl NotSpecImpl for ushort8 {
    open spec fn obeys_not_spec() -> bool {
        true
    }

    open spec fn not_req(self) -> bool {
        true
    }

    open spec fn not_spec(self) -> ushort8 {
        ushort8(
            not_u16(self.0), not_u16(self.1), not_u16(self.2), not_u16(self.3), not_u16(self.4),
            not_u16(self.5), not_u16(self.6), not_u16(self.7),
        )
    }
}

impl core::convert::From<isize> for ushort8 {
    /// The vector with `x`, wrapped to `u16`, in every lane.
    fn from(x: isize) -> (r: ushort8) {
        let v = isize_to_u16(x);
        ushort8(v, v, v, v, v, v, v, v)
    }
}

impl FromSpecImpl<isize> for ushort8 {
    open spec fn obeys_from_spec() -> bool {
        true
    }

    open spec fn from_spec(x: isize) -> ushort8 {
        ushort8(
            isize_to_u16(x), isize_to_u16(x), isize_to_u16(x), isize_to_u16(x), isize_to_u16(x),
            isize_to_u16(x), isize_to_u16(x), isize_to_u16(x),
        )
    }
}

impl core::ops::Index<u32> for ushort8 {
    type Output = u16;

    /// Lane `i`, which is below 8.
    fn index(&self, i: u32) -> (r: &u16)
        ensures
            *r == self.lane(i as int),
    {
        match i {
            0 => &self.0,
            1 => &self.1,
            2 => &self.2,
            3 => &self.3,
            4 => &self.4,
            5 => &self.5,
            6 => &self.6,
            _ => &self.7,
        }
    }
}

impl vstd::std_specs::core::IndexSpecImpl<u32> for ushort8 {
    open spec fn index_req(&self, i: &u32) -> bool {
        *i < 8
    }
}

impl ushort8 {
    /// Lane `i`, counted from zero.
    pub open spec fn lane(self, i: int) -> u16
        recommends
            0 <= i < 8,
    {
        if i == 0 {
            self.0
        } else if i == 1 {
            self.1
        } else if i == 2 {
            self.2
        } else if i == 3 {
            self.3
        } else if i == 4 {
            self.4
        } else if i == 5 {
            self.5
        } else if i == 6 {
            self.6
        } else {
            self.7
        }
    }

    /// The vector of type `ushort8` with the bits of `x`, a value of a type that has as many bits,
    /// which is one with images of type `uchar16`.
    pub fn bitcast<U: Bitcast<Image = uchar16>>(x: U) -> (r: ushort8)
        ensures
            r == spec_bitcast::<U, ushort8>(x),
    {
        bitcast(x)
    }

    /// The vector with `x` in every lane.
    pub fn broadcast(x: u16) -> (r: ushort8)
        ensures
            r == ushort8(x, x, x, x, x, x, x, x),
    {
        ushort8(x, x, x, x, x, x, x, x)
    }

    /// Lane `i`, which is below 8.
    pub fn extract(self, i: u32) -> (r: u16)
        requires
            i < 8,
        ensures
            r == self.lane(i as int),
    {
        match i {
            0 => self.0,
            1 => self.1,
            2 => self.2,
            3 => self.3,
            4 => self.4,
            5 => self.5,
            6 => self.6,
            _ => self.7,
        }
    }

    /// The vector with `x` in lane `i`, which is below 8, and the other lanes unchanged.
    pub fn replace(self, i: u32, x: u16) -> (r: ushort8)
        requires
            i < 8,
        ensures
            forall|j: int| 0 <= j < 8 ==> #[trigger] r.lane(j) == (if j == i {
                x
            } else {
                self.lane(j)
            }),
    {
        match i {
            0 => ushort8(x, self.1, self.2, self.3, self.4, self.5, self.6, self.7),
            1 => ushort8(self.0, x, self.2, self.3, self.4, self.5, self.6, self.7),
            2 => ushort8(self.0, self.1, x, self.3, self.4, self.5, self.6, self.7),
            3 => ushort8(self.0, self.1, self.2, x, self.4, self.5, self.6, self.7),
            4 => ushort8(self.0, self.1, self.2, self.3, x, self.5, self.6, self.7),
            5 => ushort8(self.0, self.1, self.2, self.3, self.4, x, self.6, self.7),
            6 => ushort8(self.0, self.1, self.2, self.3, self.4, self.5, x, self.7),
            _ => ushort8(self.0, self.1, self.2, self.3, self.4, self.5, self.6, x),
        }
    }

    /// The mask that is all ones where the lanes of `x` and `y` are equal, and zero elsewhere.
    pub fn eq(x: ushort8, y: ushort8) -> (r: short8)
        ensures
            r == short8(
                eq_u16(x.0, y.0), eq_u16(x.1, y.1), eq_u16(x.2, y.2), eq_u16(x.3, y.3),
                eq_u16(x.4, y.4), eq_u16(x.5, y.5), eq_u16(x.6, y.6), eq_u16(x.7, y.7),
            ),
    {
        short8(
            eq_u16(x.0, y.0), eq_u16(x.1, y.1), eq_u16(x.2, y.2), eq_u16(x.3, y.3),
            eq_u16(x.4, y.4), eq_u16(x.5, y.5), eq_u16(x.6, y.6), eq_u16(x.7, y.7),
        )
    }

    /// The mask that is all ones where the lanes of `x` and `y` differ, and zero elsewhere.
    pub fn ne(x: ushort8, y: ushort8) -> (r: short8)
        ensures
            r == short8(
                ne_u16(x.0, y.0), ne_u16(x.1, y.1), ne_u16(x.2, y.2), ne_u16(x.3, y.3),
                ne_u16(x.4, y.4), ne_u16(x.5, y.5), ne_u16(x.6, y.6), ne_u16(x.7, y.7),
            ),
    {
        short8(
            ne_u16(x.0, y.0), ne_u16(x.1, y.1), ne_u16(x.2, y.2), ne_u16(x.3, y.3),
            ne_u16(x.4, y.4), ne_u16(x.5, y.5), ne_u16(x.6, y.6), ne_u16(x.7, y.7),
        )
    }

    /// The mask that is all ones where the lane of `x` is less than that of `y`, and zero
    /// elsewhere.
    pub fn lt(x: ushort8, y: ushort8) -> (r: short8)
        ensures
            r == short8(
                lt_u16(x.0, y.0), lt_u16(x.1, y.1), lt_u16(x.2, y.2), lt_u16(x.3, y.3),
                lt_u16(x.4, y.4), lt_u16(x.5, y.5), lt_u16(x.6, y.6), lt_u16(x.7, y.7),
            ),
    {
        short8(
            lt_u16(x.0, y.0), lt_u16(x.1, y.1), lt_u16(x.2, y.2), lt_u16(x.3, y.3),
            lt_u16(x.4, y.4), lt_u16(x.5, y.5), lt_u16(x.6, y.6), lt_u16(x.7, y.7),
        )
    }

    /// The mask that is all ones where the lane of `x` is at most that of `y`, and zero elsewhere.
    pub fn le(x: ushort8, y: ushort8) -> (r: short8)
        ensures
            r == short8(
                le_u16(x.0, y.0), le_u16(x.1, y.1), le_u16(x.2, y.2), le_u16(x.3, y.3),
                le_u16(x.4, y.4), le_u16(x.5, y.5), le_u16(x.6, y.6), le_u16(x.7, y.7),
            ),
    {
        short8(
            le_u16(x.0, y.0), le_u16(x.1, y.1), le_u16(x.2, y.2), le_u16(x.3, y.3),
            le_u16(x.4, y.4), le_u16(x.5, y.5), le_u16(x.6, y.6), le_u16(x.7, y.7),
        )
    }

    /// The mask that is all ones where the lane of `x` is greater than that of `y`, and zero
    /// elsewhere.
    pub fn gt(x: ushort8, y: ushort8) -> (r: short8)
        ensures
            r == short8(
                gt_u16(x.0, y.0), gt_u16(x.1, y.1), gt_u16(x.2, y.2), gt_u16(x.3, y.3),
                gt_u16(x.4, y.4), gt_u16(x.5, y.5), gt_u16(x.6, y.6), gt_u16(x.7, y.7),
            ),
    {
        short8(
            gt_u16(x.0, y.0), gt_u16(x.1, y.1), gt_u16(x.2, y.2), gt_u16(x.3, y.3),
            gt_u16(x.4, y.4), gt_u16(x.5, y.5), gt_u16(x.6, y.6), gt_u16(x.7, y.7),
        )
    }

    /// The mask that is all ones where the lane of `x` is at least that of `y`, and zero elsewhere.
    pub fn ge(x: ushort8, y: ushort8) -> (r: short8)
        ensures
            r == short8(
                ge_u16(x.0, y.0), ge_u16(x.1, y.1), ge_u16(x.2, y.2), ge_u16(x.3, y.3),
                ge_u16(x.4, y.4), ge_u16(x.5, y.5), ge_u16(x.6, y.6), ge_u16(x.7, y.7),
            ),
    {
        short8(
            ge_u16(x.0, y.0), ge_u16(x.1, y.1), ge_u16(x.2, y.2), ge_u16(x.3, y.3),
            ge_u16(x.4, y.4), ge_u16(x.5, y.5), ge_u16(x.6, y.6), ge_u16(x.7, y.7),
        )
    }

    /// `x * y + z` lane by lane, wrapping around.
    pub fn madd(x: ushort8, y: ushort8, z: ushort8) -> (r: ushort8)
        ensures
            r == ushort8(
                madd_u16(x.0, y.0, z.0), madd_u16(x.1, y.1, z.1), madd_u16(x.2, y.2, z.2),
                madd_u16(x.3, y.3, z.3), madd_u16(x.4, y.4, z.4), madd_u16(x.5, y.5, z.5),
                madd_u16(x.6, y.6, z.6), madd_u16(x.7, y.7, z.7),
            ),
    {
        ushort8(
            madd_u16(x.0, y.0, z.0), madd_u16(x.1, y.1, z.1), madd_u16(x.2, y.2, z.2),
            madd_u16(x.3, y.3, z.3), madd_u16(x.4, y.4, z.4), madd_u16(x.5, y.5, z.5),
            madd_u16(x.6, y.6, z.6), madd_u16(x.7, y.7, z.7),
        )
    }

    /// The magnitude of every lane, which is the lane.
    pub fn abs(x: ushort8) -> (r: ushort8)
        ensures
            r == x.spec_abs(),
    {
        ushort8(
            abs_u16(x.0), abs_u16(x.1), abs_u16(x.2), abs_u16(x.3), abs_u16(x.4), abs_u16(x.5),
            abs_u16(x.6), abs_u16(x.7),
        )
    }

    /// The greater lane of `x` and `y`, lane by lane.
    pub fn max(x: ushort8, y: ushort8) -> (r: ushort8)
        ensures
            r == x.spec_max(y),
    {
        ushort8(
            max_u16(x.0, y.0), max_u16(x.1, y.1), max_u16(x.2, y.2), max_u16(x.3, y.3),
            max_u16(x.4, y.4), max_u16(x.5, y.5), max_u16(x.6, y.6), max_u16(x.7, y.7),
        )
    }

    /// The smaller lane of `x` and `y`, lane by lane.
    pub fn min(x: ushort8, y: ushort8) -> (r: ushort8)
        ensures
            r == x.spec_min(y),
    {
        ushort8(
            min_u16(x.0, y.0), min_u16(x.1, y.1), min_u16(x.2, y.2), min_u16(x.3, y.3),
            min_u16(x.4, y.4), min_u16(x.5, y.5), min_u16(x.6, y.6), min_u16(x.7, y.7),
        )
    }

    /// Every lane of `x` raised to at least the lane of `lo`, then lowered to at most that of `hi`.
    pub fn clamp(x: ushort8, lo: ushort8, hi: ushort8) -> (r: ushort8)
        ensures
            r == x.spec_clamp(lo, hi),
    {
        ushort8(
            clamp_u16(x.0, lo.0, hi.0), clamp_u16(x.1, lo.1, hi.1), clamp_u16(x.2, lo.2, hi.2),
            clamp_u16(x.3, lo.3, hi.3), clamp_u16(x.4, lo.4, hi.4), clamp_u16(x.5, lo.5, hi.5),
            clamp_u16(x.6, lo.6, hi.6), clamp_u16(x.7, lo.7, hi.7),
        )
    }

    /// The sum of the lanes, wrapping around.
    pub fn reduce_add(x: ushort8) -> (r: u16)
        ensures
            r == x.spec_reduce_add(),
    {
        let s = add_u16(x.0, x.1);
        let ghost mut t: int = x.0 + x.1;
        proof {
            lemma_wrap_u16_sum(t, x.2 as int);
            t = t + x.2;
        }
        let s = add_u16(s, x.2);
        proof {
            lemma_wrap_u16_sum(t, x.3 as int);
            t = t + x.3;
        }
        let s = add_u16(s, x.3);
        proof {
            lemma_wrap_u16_sum(t, x.4 as int);
            t = t + x.4;
        }
        let s = add_u16(s, x.4);
        proof {
            lemma_wrap_u16_sum(t, x.5 as int);
            t = t + x.5;
        }
        let s = add_u16(s, x.5);
        proof {
            lemma_wrap_u16_sum(t, x.6 as int);
            t = t + x.6;
        }
        let s = add_u16(s, x.6);
        proof {
            lemma_wrap_u16_sum(t, x.7 as int);
            t = t + x.7;
        }
        let s = add_u16(s, x.7);
        s
    }

    /// The smallest lane.
    pub fn reduce_min(x: ushort8) -> (r: u16)
        ensures
            r == x.spec_reduce_min(),
            r <= x.0 && r <= x.1 && r <= x.2 && r <= x.3 && r <= x.4 && r <= x.5 && r <= x.6
                && r <= x.7,
            r == x.0 || r == x.1 || r == x.2 || r == x.3 || r == x.4 || r == x.5 || r == x.6
                || r == x.7,
    {
        let s = min_u16(x.0, x.1);
        let s = min_u16(s, x.2);
        let s = min_u16(s, x.3);
        let s = min_u16(s, x.4);
        let s = min_u16(s, x.5);
        let s = min_u16(s, x.6);
        let s = min_u16(s, x.7);
        s
    }

    /// The greatest lane.
    pub fn reduce_max(x: ushort8) -> (r: u16)
        ensures
            r == x.spec_reduce_max(),
            r >= x.0 && r >= x.1 && r >= x.2 && r >= x.3 && r >= x.4 && r >= x.5 && r >= x.6
                && r >= x.7,
            r == x.0 || r == x.1 || r == x.2 || r == x.3 || r == x.4 || r == x.5 || r == x.6
                || r == x.7,
    {
        let s = max_u16(x.0, x.1);
        let s = max_u16(s, x.2);
        let s = max_u16(s, x.3);
        let s = max_u16(s, x.4);
        let s = max_u16(s, x.5);
        let s = max_u16(s, x.6);
        let s = max_u16(s, x.7);
        s
    }

    /// Every lane as `i8`: its low 8 bits, read as `i8`.
    pub fn to_char(x: ushort8) -> (r: char8)
        ensures
            r == char8(
                u16_to_i8(x.0), u16_to_i8(x.1), u16_to_i8(x.2), u16_to_i8(x.3), u16_to_i8(x.4),
                u16_to_i8(x.5), u16_to_i8(x.6), u16_to_i8(x.7),
            ),
    {
        char8(
            u16_to_i8(x.0), u16_to_i8(x.1), u16_to_i8(x.2), u16_to_i8(x.3), u16_to_i8(x.4),
            u16_to_i8(x.5), u16_to_i8(x.6), u16_to_i8(x.7),
        )
    }

    /// Every lane as `i8`, saturating: a lane outside the range of `i8` gives the nearest bound.
    pub fn to_char_sat(x: ushort8) -> (r: char8)
        ensures
            r == x.spec_to_char_sat(),
    {
        char8(
            u16_to_i8_sat(x.0), u16_to_i8_sat(x.1), u16_to_i8_sat(x.2), u16_to_i8_sat(x.3),
            u16_to_i8_sat(x.4), u16_to_i8_sat(x.5), u16_to_i8_sat(x.6), u16_to_i8_sat(x.7),
        )
    }

    /// Every lane as `u8`: its low 8 bits, read as `u8`.
    pub fn to_uchar(x: ushort8) -> (r: uchar8)
        ensures
            r == uchar8(
                u16_to_u8(x.0), u16_to_u8(x.1), u16_to_u8(x.2), u16_to_u8(x.3), u16_to_u8(x.4),
                u16_to_u8(x.5), u16_to_u8(x.6), u16_to_u8(x.7),
            ),
    {
        uchar8(
            u16_to_u8(x.0), u16_to_u8(x.1), u16_to_u8(x.2), u16_to_u8(x.3), u16_to_u8(x.4),
            u16_to_u8(x.5), u16_to_u8(x.6), u16_to_u8(x.7),
        )
    }

    /// Every lane as `u8`, saturating: a lane outside the range of `u8` gives the nearest bound.
    pub fn to_uchar_sat(x: ushort8) -> (r: uchar8)
        ensures
            r == x.spec_to_uchar_sat(),
    {
        uchar8(
            u16_to_u8_sat(x.0), u16_to_u8_sat(x.1), u16_to_u8_sat(x.2), u16_to_u8_sat(x.3),
            u16_to_u8_sat(x.4), u16_to_u8_sat(x.5), u16_to_u8_sat(x.6), u16_to_u8_sat(x.7),
        )
    }

    /// Every lane as `i16`: the same bits, read as `i16`.
    pub fn to_short(x: ushort8) -> (r: short8)
        ensures
            r == short8(
                u16_to_i16(x.0), u16_to_i16(x.1), u16_to_i16(x.2), u16_to_i16(x.3), u16_to_i16(x.4),
                u16_to_i16(x.5), u16_to_i16(x.6), u16_to_i16(x.7),
            ),
    {
        short8(
            u16_to_i16(x.0), u16_to_i16(x.1), u16_to_i16(x.2), u16_to_i16(x.3), u16_to_i16(x.4),
            u16_to_i16(x.5), u16_to_i16(x.6), u16_to_i16(x.7),
        )
    }

    /// Every lane as `i16`, saturating: a lane outside the range of `i16` gives the nearest bound.
    pub fn to_short_sat(x: ushort8) -> (r: short8)
        ensures
            r == x.spec_to_short_sat(),
    {
        short8(
            u16_to_i16_sat(x.0), u16_to_i16_sat(x.1), u16_to_i16_sat(x.2), u16_to_i16_sat(x.3),
            u16_to_i16_sat(x.4), u16_to_i16_sat(x.5), u16_to_i16_sat(x.6), u16_to_i16_sat(x.7),
        )
    }

    /// The vector itself: its lanes are `u16` already.
    pub fn to_ushort(x: ushort8) -> (r: ushort8)
        ensures
            r == x,
    {
        x
    }

    /// The vector itself: its lanes are `u16` already, and nothing saturates.
    pub fn to_ushort_sat(x: ushort8) -> (r: ushort8)
        ensures
            r == x.spec_to_ushort_sat(),
    {
        x
    }

    /// Every lane as `i32`, which holds every `u16`.
    pub fn to_int(x: ushort8) -> (r: int8)
        ensures
            r == int8(
                u16_to_i32(x.0), u16_to_i32(x.1), u16_to_i32(x.2), u16_to_i32(x.3), u16_to_i32(x.4),
                u16_to_i32(x.5), u16_to_i32(x.6), u16_to_i32(x.7),
            ),
    {
        int8(
            u16_to_i32(x.0), u16_to_i32(x.1), u16_to_i32(x.2), u16_to_i32(x.3), u16_to_i32(x.4),
            u16_to_i32(x.5), u16_to_i32(x.6), u16_to_i32(x.7),
        )
    }

    /// Every lane as `i32`, saturating; nothing saturates, since `i32` holds every `u16`.
    pub fn to_int_sat(x: ushort8) -> (r: int8)
        ensures
            r == x.spec_to_int_sat(),
    {
        int8(
            u16_to_i32_sat(x.0), u16_to_i32_sat(x.1), u16_to_i32_sat(x.2), u16_to_i32_sat(x.3),
            u16_to_i32_sat(x.4), u16_to_i32_sat(x.5), u16_to_i32_sat(x.6), u16_to_i32_sat(x.7),
        )
    }

    /// Every lane as `u32`, which holds every `u16`.
    pub fn to_uint(x: ushort8) -> (r: uint8)
        ensures
            r == uint8(
                u16_to_u32(x.0), u16_to_u32(x.1), u16_to_u32(x.2), u16_to_u32(x.3), u16_to_u32(x.4),
                u16_to_u32(x.5), u16_to_u32(x.6), u16_to_u32(x.7),
            ),
    {
        uint8(
            u16_to_u32(x.0), u16_to_u32(x.1), u16_to_u32(x.2), u16_to_u32(x.3), u16_to_u32(x.4),
            u16_to_u32(x.5), u16_to_u32(x.6), u16_to_u32(x.7),
        )
    }

    /// Every lane as `u32`, saturating; nothing saturates, since `u32` holds every `u16`.
    pub fn to_uint_sat(x: ushort8) -> (r: uint8)
        ensures
            r == x.spec_to_uint_sat(),
    {
        uint8(
            u16_to_u32_sat(x.0), u16_to_u32_sat(x.1), u16_to_u32_sat(x.2), u16_to_u32_sat(x.3),
            u16_to_u32_sat(x.4), u16_to_u32_sat(x.5), u16_to_u32_sat(x.6), u16_to_u32_sat(x.7),
        )
    }

    /// Every lane as `i64`, which holds every `u16`.
    pub fn to_long(x: ushort8) -> (r: long8)
        ensures
            r == long8(
                u16_to_i64(x.0), u16_to_i64(x.1), u16_to_i64(x.2), u16_to_i64(x.3), u16_to_i64(x.4),
                u16_to_i64(x.5), u16_to_i64(x.6), u16_to_i64(x.7),
            ),
    {
        long8(
            u16_to_i64(x.0), u16_to_i64(x.1), u16_to_i64(x.2), u16_to_i64(x.3), u16_to_i64(x.4),
            u16_to_i64(x.5), u16_to_i64(x.6), u16_to_i64(x.7),
        )
    }

    /// Every lane as `i64`, saturating; nothing saturates, since `i64` holds every `u16`.
    pub fn to_long_sat(x: ushort8) -> (r: long8)
        ensures
            r == x.spec_to_long_sat(),
    {
        long8(
            u16_to_i64_sat(x.0), u16_to_i64_sat(x.1), u16_to_i64_sat(x.2), u16_to_i64_sat(x.3),
            u16_to_i64_sat(x.4), u16_to_i64_sat(x.5), u16_to_i64_sat(x.6), u16_to_i64_sat(x.7),
        )
    }

    /// Every lane as `u64`, which holds every `u16`.
    pub fn to_ulong(x: ushort8) -> (r: ulong8)
        ensures
            r == ulong8(
                u16_to_u64(x.0), u16_to_u64(x.1), u16_to_u64(x.2), u16_to_u64(x.3), u16_to_u64(x.4),
                u16_to_u64(x.5), u16_to_u64(x.6), u16_to_u64(x.7),
            ),
    {
        ulong8(
            u16_to_u64(x.0), u16_to_u64(x.1), u16_to_u64(x.2), u16_to_u64(x.3), u16_to_u64(x.4),
            u16_to_u64(x.5), u16_to_u64(x.6), u16_to_u64(x.7),
        )
    }

    /// Every lane as `u64`, saturating; nothing saturates, since `u64` holds every `u16`.
    pub fn to_ulong_sat(x: ushort8) -> (r: ulong8)
        ensures
            r == x.spec_to_ulong_sat(),
    {
        ulong8(
            u16_to_u64_sat(x.0), u16_to_u64_sat(x.1), u16_to_u64_sat(x.2), u16_to_u64_sat(x.3),
            u16_to_u64_sat(x.4), u16_to_u64_sat(x.5), u16_to_u64_sat(x.6), u16_to_u64_sat(x.7),
        )
    }

    /// The low half: lanes 0 to 3.
    pub fn lo(self) -> (r: ushort4)
        ensures
            r == ushort4(self.0, self.1, self.2, self.3),
    {
        ushort4(self.0, self.1, self.2, self.3)
    }

    /// The high half: lanes 4 to 7.
    pub fn hi(self) -> (r: ushort4)
        ensures
            r == ushort4(self.4, self.5, self.6, self.7),
    {
        ushort4(self.4, self.5, self.6, self.7)
    }

    /// The odd lanes: lanes 1, 3 and so on.
    pub fn odd(self) -> (r: ushort4)
        ensures
            r == ushort4(self.1, self.3, self.5, self.7),
    {
        ushort4(self.1, self.3, self.5, self.7)
    }

    /// The even lanes: lanes 0, 2 and so on.
    pub fn even(self) -> (r: ushort4)
        ensures
            r == ushort4(self.0, self.2, self.4, self.6),
    {
        ushort4(self.0, self.2, self.4, self.6)
    }

    /// The vector of `f` applied to every lane. `f` accepts every lane.
    pub fn map_unary<F: Fn(u16) -> u16>(self, f: F) -> (r: ushort8)
        requires
            call_requires(f, (self.0,)),
            call_requires(f, (self.1,)),
            call_requires(f, (self.2,)),
            call_requires(f, (self.3,)),
            call_requires(f, (self.4,)),
            call_requires(f, (self.5,)),
            call_requires(f, (self.6,)),
            call_requires(f, (self.7,)),
        ensures
            call_ensures(f, (self.0,), r.0),
            call_ensures(f, (self.1,), r.1),
            call_ensures(f, (self.2,), r.2),
            call_ensures(f, (self.3,), r.3),
            call_ensures(f, (self.4,), r.4),
            call_ensures(f, (self.5,), r.5),
            call_ensures(f, (self.6,), r.6),
            call_ensures(f, (self.7,), r.7),
    {
        ushort8(
            f(self.0), f(self.1), f(self.2), f(self.3), f(self.4), f(self.5), f(self.6), f(self.7),
        )
    }

    /// The vector of `f` applied to the lanes of the two vectors, lane by lane. `f` accepts every
    /// such pair of lanes.
    pub fn map_binary<F: Fn(u16, u16) -> u16>(self, other: ushort8, f: F) -> (r: ushort8)
        requires
            call_requires(f, (self.0, other.0)),
            call_requires(f, (self.1, other.1)),
            call_requires(f, (self.2, other.2)),
            call_requires(f, (self.3, other.3)),
            call_requires(f, (self.4, other.4)),
            call_requires(f, (self.5, other.5)),
            call_requires(f, (self.6, other.6)),
            call_requires(f, (self.7, other.7)),
        ensures
            call_ensures(f, (self.0, other.0), r.0),
            call_ensures(f, (self.1, other.1), r.1),
            call_ensures(f, (self.2, other.2), r.2),
            call_ensures(f, (self.3, other.3), r.3),
            call_ensures(f, (self.4, other.4), r.4),
            call_ensures(f, (self.5, other.5), r.5),
            call_ensures(f, (self.6, other.6), r.6),
            call_ensures(f, (self.7, other.7), r.7),
    {
        ushort8(
            f(self.0, other.0), f(self.1, other.1), f(self.2, other.2), f(self.3, other.3),
            f(self.4, other.4), f(self.5, other.5), f(self.6, other.6), f(self.7, other.7),
        )
    }

    /// The lanes folded by `f`, from lane 0 upward: `f` is applied to lane 1 and lane 0, then to
    /// each further lane and what the lanes below it gave. `f` accepts every pair of scalars.
    pub fn reduce<F: Fn(u16, u16) -> u16>(self, f: F) -> (r: u16)
        requires
            forall|a: u16, b: u16| call_requires(f, (a, b)),
        ensures
            exists|s1: u16, s2: u16, s3: u16, s4: u16, s5: u16, s6: u16|
                call_ensures(f, (self.1, self.0), s1)
                    && call_ensures(f, (self.2, s1), s2)
                    && call_ensures(f, (self.3, s2), s3)
                    && call_ensures(f, (self.4, s3), s4)
                    && call_ensures(f, (self.5, s4), s5)
                    && call_ensures(f, (self.6, s5), s6)
                    && call_ensures(f, (self.7, s6), r),
    {
        let s1 = f(self.1, self.0);
        let s2 = f(self.2, s1);
        let s3 = f(self.3, s2);
        let s4 = f(self.4, s3);
        let s5 = f(self.5, s4);
        let s6 = f(self.6, s5);
        let s7 = f(self.7, s6);
        s7
    }

    /// Addition commutes.
    pub proof fn lemma_add_commutes(x: ushort8, y: ushort8)
        ensures
            AddSpec::add_spec(x, y) == AddSpec::add_spec(y, x),
    {
        lemma_arith_u16(x.0, y.0, 0);
        lemma_arith_u16(x.1, y.1, 0);
        lemma_arith_u16(x.2, y.2, 0);
        lemma_arith_u16(x.3, y.3, 0);
        lemma_arith_u16(x.4, y.4, 0);
        lemma_arith_u16(x.5, y.5, 0);
        lemma_arith_u16(x.6, y.6, 0);
        lemma_arith_u16(x.7, y.7, 0);
    }

    /// Addition associates, wrap-around or not.
    pub proof fn lemma_add_associates(x: ushort8, y: ushort8, z: ushort8)
        ensures
            AddSpec::add_spec(AddSpec::add_spec(x, y), z)
                == AddSpec::add_spec(x, AddSpec::add_spec(y, z)),
    {
        lemma_arith_u16(x.0, y.0, z.0);
        lemma_arith_u16(x.1, y.1, z.1);
        lemma_arith_u16(x.2, y.2, z.2);
        lemma_arith_u16(x.3, y.3, z.3);
        lemma_arith_u16(x.4, y.4, z.4);
        lemma_arith_u16(x.5, y.5, z.5);
        lemma_arith_u16(x.6, y.6, z.6);
        lemma_arith_u16(x.7, y.7, z.7);
    }

    /// Swapping the operands of a subtraction negates the difference.
    pub proof fn lemma_sub_swaps(x: ushort8, y: ushort8)
        ensures
            SubSpec::sub_spec(x, y) == NegSpec::neg_spec(SubSpec::sub_spec(y, x)),
    {
        lemma_arith_u16(x.0, y.0, 0);
        lemma_arith_u16(x.1, y.1, 0);
        lemma_arith_u16(x.2, y.2, 0);
        lemma_arith_u16(x.3, y.3, 0);
        lemma_arith_u16(x.4, y.4, 0);
        lemma_arith_u16(x.5, y.5, 0);
        lemma_arith_u16(x.6, y.6, 0);
        lemma_arith_u16(x.7, y.7, 0);
    }

    /// The magnitude of an unsigned vector is the vector.
    pub proof fn lemma_abs(x: ushort8)
        ensures
            x.spec_abs() == x,
            x.spec_abs().spec_abs() == x.spec_abs(),
    {
    }

    /// Flipping every bit of a lane gives the greatest `u16` minus the lane.
    pub proof fn lemma_not(x: ushort8)
        ensures
            forall|i: int|
                0 <= i < 8 ==> #[trigger] NotSpec::not_spec(x).lane(i) == u16::MAX - x.lane(i),
    {
        lemma_not_u16(x.0);
        lemma_not_u16(x.1);
        lemma_not_u16(x.2);
        lemma_not_u16(x.3);
        lemma_not_u16(x.4);
        lemma_not_u16(x.5);
        lemma_not_u16(x.6);
        lemma_not_u16(x.7);
    }

    /// The lanes of a vector with `k` in every lane add up to 8 times `k`, wrapped around.
    pub proof fn lemma_reduce_add_broadcast(k: u16)
        ensures
            ushort8(k, k, k, k, k, k, k, k).spec_reduce_add() == wrap_u16(8 * k),
    {
    }

    /// Saturating conversion to `i8` gives, lane by lane, the lane itself where `i8` holds it and
    /// the nearest bound of `i8` where it does not.
    pub proof fn lemma_to_char_sat(x: ushort8)
        ensures
            forall|i: int|
                0 <= i < 8 ==> #[trigger] x.spec_to_char_sat().lane(i) == sat_i8(x.lane(i) as int),
    {
    }

    /// Saturating conversion to `u8` gives, lane by lane, the lane itself where `u8` holds it and
    /// the nearest bound of `u8` where it does not.
    pub proof fn lemma_to_uchar_sat(x: ushort8)
        ensures
            forall|i: int|
                0 <= i < 8 ==> #[trigger] x.spec_to_uchar_sat().lane(i) == sat_u8(x.lane(i) as int),
    {
    }

    /// Saturating conversion to `i16` gives, lane by lane, the lane itself where `i16` holds it and
    /// the nearest bound of `i16` where it does not.
    pub proof fn lemma_to_short_sat(x: ushort8)
        ensures
            forall|i: int|
                0 <= i < 8 ==>
                    #[trigger] x.spec_to_short_sat().lane(i) == sat_i16(x.lane(i) as int),
    {
    }

    /// Saturating conversion to `i32` gives every lane unchanged: `i32` holds every `u16`.
    pub proof fn lemma_to_int_sat(x: ushort8)
        ensures
            forall|i: int|
                0 <= i < 8 ==> #[trigger] x.spec_to_int_sat().lane(i) == sat_i32(x.lane(i) as int),
            forall|i: int| 0 <= i < 8 ==> #[trigger] x.spec_to_int_sat().lane(i) == x.lane(i),
    {
    }

    /// Saturating conversion to `u32` gives every lane unchanged: `u32` holds every `u16`.
    pub proof fn lemma_to_uint_sat(x: ushort8)
        ensures
            forall|i: int|
                0 <= i < 8 ==> #[trigger] x.spec_to_uint_sat().lane(i) == sat_u32(x.lane(i) as int),
            forall|i: int| 0 <= i < 8 ==> #[trigger] x.spec_to_uint_sat().lane(i) == x.lane(i),
    {
    }

    /// Saturating conversion to `i64` gives every lane unchanged: `i64` holds every `u16`.
    pub proof fn lemma_to_long_sat(x: ushort8)
        ensures
            forall|i: int|
                0 <= i < 8 ==> #[trigger] x.spec_to_long_sat().lane(i) == sat_i64(x.lane(i) as int),
            forall|i: int| 0 <= i < 8 ==> #[trigger] x.spec_to_long_sat().lane(i) == x.lane(i),
    {
    }

    /// Saturating conversion to `u64` gives every lane unchanged: `u64` holds every `u16`.
    pub proof fn lemma_to_ulong_sat(x: ushort8)
        ensures
            forall|i: int|
                0 <= i < 8 ==>
                    #[trigger] x.spec_to_ulong_sat().lane(i) == sat_u64(x.lane(i) as int),
            forall|i: int| 0 <= i < 8 ==> #[trigger] x.spec_to_ulong_sat().lane(i) == x.lane(i),
    {
    }
}

impl Vector for ushort8 {
    type Scalar = u16;

    type Boolean = short8;

    type CharVector = char8;

    type ShortVector = short8;

    type IntVector = int8;

    type LongVector = long8;

    type UCharVector = uchar8;

    type UShortVector = ushort8;

    type UIntVector = uint8;

    type ULongVector = ulong8;

    type FloatVector = float8;

    type DoubleVector = double8;

    open spec fn spec_abs(self) -> ushort8 {
        ushort8(
            abs_u16(self.0), abs_u16(self.1), abs_u16(self.2), abs_u16(self.3), abs_u16(self.4),
            abs_u16(self.5), abs_u16(self.6), abs_u16(self.7),
        )
    }

    open spec fn spec_max(self, other: ushort8) -> ushort8 {
        ushort8(
            max_u16(self.0, other.0), max_u16(self.1, other.1), max_u16(self.2, other.2),
            max_u16(self.3, other.3), max_u16(self.4, other.4), max_u16(self.5, other.5),
            max_u16(self.6, other.6), max_u16(self.7, other.7),
        )
    }

    open spec fn spec_min(self, other: ushort8) -> ushort8 {
        ushort8(
            min_u16(self.0, other.0), min_u16(self.1, other.1), min_u16(self.2, other.2),
            min_u16(self.3, other.3), min_u16(self.4, other.4), min_u16(self.5, other.5),
            min_u16(self.6, other.6), min_u16(self.7, other.7),
        )
    }

    open spec fn spec_clamp(self, lo: ushort8, hi: ushort8) -> ushort8 {
        ushort8(
            clamp_u16(self.0, lo.0, hi.0), clamp_u16(self.1, lo.1, hi.1),
            clamp_u16(self.2, lo.2, hi.2), clamp_u16(self.3, lo.3, hi.3),
            clamp_u16(self.4, lo.4, hi.4), clamp_u16(self.5, lo.5, hi.5),
            clamp_u16(self.6, lo.6, hi.6), clamp_u16(self.7, lo.7, hi.7),
        )
    }

    open spec fn spec_reduce_add(self) -> u16 {
        wrap_u16(self.0 + self.1 + self.2 + self.3 + self.4 + self.5 + self.6 + self.7)
    }

    open spec fn spec_reduce_min(self) -> u16 {
        let s = min_u16(self.0, self.1);
        let s = min_u16(s, self.2);
        let s = min_u16(s, self.3);
        let s = min_u16(s, self.4);
        let s = min_u16(s, self.5);
        let s = min_u16(s, self.6);
        let s = min_u16(s, self.7);
        s
    }

    open spec fn spec_reduce_max(self) -> u16 {
        let s = max_u16(self.0, self.1);
        let s = max_u16(s, self.2);
        let s = max_u16(s, self.3);
        let s = max_u16(s, self.4);
        let s = max_u16(s, self.5);
        let s = max_u16(s, self.6);
        let s = max_u16(s, self.7);
        s
    }

    open spec fn spec_to_char_sat(self) -> char8 {
        char8(
            u16_to_i8_sat(self.0), u16_to_i8_sat(self.1), u16_to_i8_sat(self.2),
            u16_to_i8_sat(self.3), u16_to_i8_sat(self.4), u16_to_i8_sat(self.5),
            u16_to_i8_sat(self.6), u16_to_i8_sat(self.7),
        )
    }

    open spec fn spec_to_uchar_sat(self) -> uchar8 {
        uchar8(
            u16_to_u8_sat(self.0), u16_to_u8_sat(self.1), u16_to_u8_sat(self.2),
            u16_to_u8_sat(self.3), u16_to_u8_sat(self.4), u16_to_u8_sat(self.5),
            u16_to_u8_sat(self.6), u16_to_u8_sat(self.7),
        )
    }

    open spec fn spec_to_short_sat(self) -> short8 {
        short8(
            u16_to_i16_sat(self.0), u16_to_i16_sat(self.1), u16_to_i16_sat(self.2),
            u16_to_i16_sat(self.3), u16_to_i16_sat(self.4), u16_to_i16_sat(self.5),
            u16_to_i16_sat(self.6), u16_to_i16_sat(self.7),
        )
    }

    open spec fn spec_to_ushort_sat(self) -> ushort8 {
        self
    }

    open spec fn spec_to_int_sat(self) -> int8 {
        int8(
            u16_to_i32_sat(self.0), u16_to_i32_sat(self.1), u16_to_i32_sat(self.2),
            u16_to_i32_sat(self.3), u16_to_i32_sat(self.4), u16_to_i32_sat(self.5),
            u16_to_i32_sat(self.6), u16_to_i32_sat(self.7),
        )
    }

    open spec fn spec_to_uint_sat(self) -> uint8 {
        uint8(
            u16_to_u32_sat(self.0), u16_to_u32_sat(self.1), u16_to_u32_sat(self.2),
            u16_to_u32_sat(self.3), u16_to_u32_sat(self.4), u16_to_u32_sat(self.5),
            u16_to_u32_sat(self.6), u16_to_u32_sat(self.7),
        )
    }

    open spec fn spec_to_long_sat(self) -> long8 {
        long8(
            u16_to_i64_sat(self.0), u16_to_i64_sat(self.1), u16_to_i64_sat(self.2),
            u16_to_i64_sat(self.3), u16_to_i64_sat(self.4), u16_to_i64_sat(self.5),
            u16_to_i64_sat(self.6), u16_to_i64_sat(self.7),
        )
    }

    open spec fn spec_to_ulong_sat(self) -> ulong8 {
        ulong8(
            u16_to_u64_sat(self.0), u16_to_u64_sat(self.1), u16_to_u64_sat(self.2),
            u16_to_u64_sat(self.3), u16_to_u64_sat(self.4), u16_to_u64_sat(self.5),
            u16_to_u64_sat(self.6), u16_to_u64_sat(self.7),
        )
    }

    fn abs(self) -> (r: ushort8) {
        ushort8::abs(self)
    }

    fn max(self, other: ushort8) -> (r: ushort8) {
        ushort8::max(self, other)
    }

    fn min(self, other: ushort8) -> (r: ushort8) {
        ushort8::min(self, other)
    }

    fn clamp(self, lo: ushort8, hi: ushort8) -> (r: ushort8) {
        ushort8::clamp(self, lo, hi)
    }

    fn reduce_add(self) -> (r: u16) {
        ushort8::reduce_add(self)
    }

    fn reduce_min(self) -> (r: u16) {
        ushort8::reduce_min(self)
    }

    fn reduce_max(self) -> (r: u16) {
        ushort8::reduce_max(self)
    }

    fn to_char_sat(self) -> (r: char8) {
        ushort8::to_char_sat(self)
    }

    fn to_uchar_sat(self) -> (r: uchar8) {
        ushort8::to_uchar_sat(self)
    }

    fn to_short_sat(self) -> (r: short8) {
        ushort8::to_short_sat(self)
    }

    fn to_ushort_sat(self) -> (r: ushort8) {
        ushort8::to_ushort_sat(self)
    }

    fn to_int_sat(self) -> (r: int8) {
        ushort8::to_int_sat(self)
    }

    fn to_uint_sat(self) -> (r: uint8) {
        ushort8::to_uint_sat(self)
    }

    fn to_long_sat(self) -> (r: long8) {
        ushort8::to_long_sat(self)
    }

    fn to_ulong_sat(self) -> (r: ulong8) {
        ushort8::to_ulong_sat(self)
    }
}

impl Integer for ushort8 {
    open spec fn spec_reduce_and(self) -> u16 {
        self.0 & self.1 & self.2 & self.3 & self.4 & self.5 & self.6 & self.7
    }

    open spec fn spec_reduce_or(self) -> u16 {
        self.0 | self.1 | self.2 | self.3 | self.4 | self.5 | self.6 | self.7
    }

    open spec fn spec_reduce_xor(self) -> u16 {
        self.0 ^ self.1 ^ self.2 ^ self.3 ^ self.4 ^ self.5 ^ self.6 ^ self.7
    }

    open spec fn spec_all(self) -> bool {
        truth_u16(self.0) && truth_u16(self.1) && truth_u16(self.2) && truth_u16(self.3)
            && truth_u16(self.4) && truth_u16(self.5) && truth_u16(self.6) && truth_u16(self.7)
    }

    open spec fn spec_any(self) -> bool {
        truth_u16(self.0) || truth_u16(self.1) || truth_u16(self.2) || truth_u16(self.3)
            || truth_u16(self.4) || truth_u16(self.5) || truth_u16(self.6) || truth_u16(self.7)
    }

    fn reduce_and(self) -> (r: u16) {
        self.0 & self.1 & self.2 & self.3 & self.4 & self.5 & self.6 & self.7
    }

    fn reduce_or(self) -> (r: u16) {
        self.0 | self.1 | self.2 | self.3 | self.4 | self.5 | self.6 | self.7
    }

    fn reduce_xor(self) -> (r: u16) {
        self.0 ^ self.1 ^ self.2 ^ self.3 ^ self.4 ^ self.5 ^ self.6 ^ self.7
    }

    fn all(self) -> (r: bool) {
        proof {
            let s = self.0 & self.1;
            lemma_bits_u16(self.0, self.1, 0, 0, 0);
            lemma_bits_u16(s, self.2, 0, 0, 0);
            let s = s & self.2;
            lemma_bits_u16(s, self.3, 0, 0, 0);
            let s = s & self.3;
            lemma_bits_u16(s, self.4, 0, 0, 0);
            let s = s & self.4;
            lemma_bits_u16(s, self.5, 0, 0, 0);
            let s = s & self.5;
            lemma_bits_u16(s, self.6, 0, 0, 0);
            let s = s & self.6;
            lemma_bits_u16(s, self.7, 0, 0, 0);
        }
        truth_u16(self.reduce_and())
    }

    fn any(self) -> (r: bool) {
        proof {
            let s = self.0 | self.1;
            lemma_bits_u16(self.0, self.1, 0, 0, 0);
            lemma_bits_u16(s, self.2, 0, 0, 0);
            let s = s | self.2;
            lemma_bits_u16(s, self.3, 0, 0, 0);
            let s = s | self.3;
            lemma_bits_u16(s, self.4, 0, 0, 0);
            let s = s | self.4;
            lemma_bits_u16(s, self.5, 0, 0, 0);
            let s = s | self.5;
            lemma_bits_u16(s, self.6, 0, 0, 0);
            let s = s | self.6;
            lemma_bits_u16(s, self.7, 0, 0, 0);
        }
        truth_u16(self.reduce_or())
    }
}

impl Dot for ushort8 {
    type DotProduct = u16;

    open spec fn spec_dot(self, other: ushort8) -> u16 {
        wrap_u16(
            self.0 * other.0 + self.1 * other.1 + self.2 * other.2 + self.3 * other.3
                + self.4 * other.4 + self.5 * other.5 + self.6 * other.6 + self.7 * other.7
        )
    }

    fn dot(self, other: ushort8) -> (r: u16) {
        let s = mul_u16(self.0, other.0);
        let ghost mut t: int = self.0 * other.0;
        proof {
            lemma_wrap_u16_sum(t, self.1 * other.1);
            t = t + self.1 * other.1;
        }
        let s = madd_u16(self.1, other.1, s);
        proof {
            lemma_wrap_u16_sum(t, self.2 * other.2);
            t = t + self.2 * other.2;
        }
        let s = madd_u16(self.2, other.2, s);
        proof {
            lemma_wrap_u16_sum(t, self.3 * other.3);
            t = t + self.3 * other.3;
        }
        let s = madd_u16(self.3, other.3, s);
        proof {
            lemma_wrap_u16_sum(t, self.4 * other.4);
            t = t + self.4 * other.4;
        }
        let s = madd_u16(self.4, other.4, s);
        proof {
            lemma_wrap_u16_sum(t, self.5 * other.5);
            t = t + self.5 * other.5;
        }
        let s = madd_u16(self.5, other.5, s);
        proof {
            lemma_wrap_u16_sum(t, self.6 * other.6);
            t = t + self.6 * other.6;
        }
        let s = madd_u16(self.6, other.6, s);
        proof {
            lemma_wrap_u16_sum(t, self.7 * other.7);
            t = t + self.7 * other.7;
        }
        let s = madd_u16(self.7, other.7, s);
        s
    }
}

impl Bitcast for ushort8 {
    type Image = uchar16;

    open spec fn spec_image(self) -> uchar16 {
        let d0 = split_u16_u8(self.0);
        let d1 = split_u16_u8(self.1);
        let d2 = split_u16_u8(self.2);
        let d3 = split_u16_u8(self.3);
        let d4 = split_u16_u8(self.4);
        let d5 = split_u16_u8(self.5);
        let d6 = split_u16_u8(self.6);
        let d7 = split_u16_u8(self.7);
        uchar16(
            d0.0, d0.1, d1.0, d1.1, d2.0, d2.1, d3.0, d3.1, d4.0, d4.1, d5.0, d5.1, d6.0, d6.1,
            d7.0, d7.1,
        )
    }

    open spec fn spec_from_image(image: uchar16) -> ushort8 {
        ushort8(
            join_u8_u16(image.0, image.1), join_u8_u16(image.2, image.3),
            join_u8_u16(image.4, image.5), join_u8_u16(image.6, image.7),
            join_u8_u16(image.8, image.9), join_u8_u16(image.10, image.11),
            join_u8_u16(image.12, image.13), join_u8_u16(image.14, image.15),
        )
    }

    open spec fn spec_fills() -> bool {
        true
    }

    fn image(self) -> (r: uchar16) {
        let d0 = split_u16_u8(self.0);
        let d1 = split_u16_u8(self.1);
        let d2 = split_u16_u8(self.2);
        let d3 = split_u16_u8(self.3);
        let d4 = split_u16_u8(self.4);
        let d5 = split_u16_u8(self.5);
        let d6 = split_u16_u8(self.6);
        let d7 = split_u16_u8(self.7);
        uchar16(
            d0.0, d0.1, d1.0, d1.1, d2.0, d2.1, d3.0, d3.1, d4.0, d4.1, d5.0, d5.1, d6.0, d6.1,
            d7.0, d7.1,
        )
    }

    fn from_image(image: uchar16) -> (r: ushort8) {
        ushort8(
            join_u8_u16(image.0, image.1), join_u8_u16(image.2, image.3),
            join_u8_u16(image.4, image.5), join_u8_u16(image.6, image.7),
            join_u8_u16(image.8, image.9), join_u8_u16(image.10, image.11),
            join_u8_u16(image.12, image.13), join_u8_u16(image.14, image.15),
        )
    }

    proof fn lemma_image(x: ushort8) {
        lemma_regroup_u8_u16(x.0, 0, 0);
        lemma_regroup_u8_u16(x.1, 0, 0);
        lemma_regroup_u8_u16(x.2, 0, 0);
        lemma_regroup_u8_u16(x.3, 0, 0);
        lemma_regroup_u8_u16(x.4, 0, 0);
        lemma_regroup_u8_u16(x.5, 0, 0);
        lemma_regroup_u8_u16(x.6, 0, 0);
        lemma_regroup_u8_u16(x.7, 0, 0);
    }

    proof fn lemma_from_image(image: uchar16) {
        lemma_regroup_u8_u16(0, image.0, image.1);
        lemma_regroup_u8_u16(0, image.2, image.3);
        lemma_regroup_u8_u16(0, image.4, image.5);
        lemma_regroup_u8_u16(0, image.6, image.7);
        lemma_regroup_u8_u16(0, image.8, image.9);
        lemma_regroup_u8_u16(0, image.10, image.11);
        lemma_regroup_u8_u16(0, image.12, image.13);
        lemma_regroup_u8_u16(0, image.14, image.15);
    }
}

impl ushort8 {
    /// Read as `short8`, which has lanes of the same width, a vector keeps the bits of every lane;
    /// read as `ushort8` again, it is what it was.
    pub proof fn lemma_bitcast_short8(x: ushort8)
        ensures
            spec_bitcast::<ushort8, short8>(x) == short8(
                    u16_to_i16(x.0), u16_to_i16(x.1), u16_to_i16(x.2), u16_to_i16(x.3),
                    u16_to_i16(x.4), u16_to_i16(x.5), u16_to_i16(x.6), u16_to_i16(x.7),
                ),
            spec_bitcast::<short8, ushort8>(spec_bitcast::<ushort8, short8>(x)) == x,
    {
        lemma_recast_u16(x.0);
        lemma_regroup_u8_u16(x.0, 0, 0);
        lemma_recast_u16(x.1);
        lemma_regroup_u8_u16(x.1, 0, 0);
        lemma_recast_u16(x.2);
        lemma_regroup_u8_u16(x.2, 0, 0);
        lemma_recast_u16(x.3);
        lemma_regroup_u8_u16(x.3, 0, 0);
        lemma_recast_u16(x.4);
        lemma_regroup_u8_u16(x.4, 0, 0);
        lemma_recast_u16(x.5);
        lemma_regroup_u8_u16(x.5, 0, 0);
        lemma_recast_u16(x.6);
        lemma_regroup_u8_u16(x.6, 0, 0);
        lemma_recast_u16(x.7);
        lemma_regroup_u8_u16(x.7, 0, 0);
    }
}

} // verus!
