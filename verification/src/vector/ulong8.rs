//! `ulong8`: eight lanes of `u64`.

use crate::scalar::lane_u64::{
    abs_u64, add_u64, clamp_u64, div_u64, eq_u64, ge_u64, gt_u64, isize_to_u64, le_u64,
    lemma_arith_u64, lemma_bits_u64, lemma_not_u64, lemma_recast_u64, lt_u64, madd_u64, max_u64,
    min_u64, mul_u64, ne_u64, neg_u64, not_u64, rem_u64, shl_u64, shr_u64, sub_u64, truth_u64,
    u64_to_i16, u64_to_i16_sat, u64_to_i32, u64_to_i32_sat, u64_to_i64, u64_to_i64_sat, u64_to_i8,
    u64_to_i8_sat, u64_to_u16, u64_to_u16_sat, u64_to_u32, u64_to_u32_sat, u64_to_u8, u64_to_u8_sat,
};
use crate::scalar::model::{
    lemma_wrap_u64_sum, sat_i16, sat_i32, sat_i64, sat_i8, sat_u16, sat_u32, sat_u8, wrap_u64,
};
use crate::scalar::regroup::{join_u32_u64, lemma_regroup_u32_u64, split_u64_u32};
use crate::traits::{Bitcast, Dot, Integer, Vector, bitcast, spec_bitcast};
use crate::vector::char8::char8;
use crate::vector::double8::double8;
use crate::vector::float8::float8;
use crate::vector::int8::int8;
use crate::vector::long8::long8;
use crate::vector::short8::short8;
use crate::vector::uchar8::uchar8;
use crate::vector::uint16::uint16;
use crate::vector::uint8::uint8;
use crate::vector::ulong4::ulong4;
use crate::vector::ushort8::ushort8;
use vstd::prelude::*;
use vstd::std_specs::convert::FromSpecImpl;
use vstd::std_specs::ops::{
    AddSpec, AddSpecImpl, BitAndSpecImpl, BitOrSpecImpl, BitXorSpecImpl, DivSpecImpl, MulSpecImpl,
    NegSpec, NegSpecImpl, NotSpec, NotSpecImpl, RemSpecImpl, ShlSpecImpl, ShrSpecImpl, SubSpec,
    SubSpecImpl,
};

verus! {

/// Eight lanes of `u64`.
#[derive(Copy, Clone, Debug, PartialEq, Eq, Structural)]
pub struct ulong8(pub u64, pub u64, pub u64, pub u64, pub u64, pub u64, pub u64, pub u64);

impl core::ops::Add for ulong8 {
    type Output = ulong8;

    /// The lane-wise sum of the two vectors, wrapping around.
    fn add(self, rhs: ulong8) -> (r: ulong8) {
        ulong8(
            add_u64(self.0, rhs.0), add_u64(self.1, rhs.1), add_u64(self.2, rhs.2),
            add_u64(self.3, rhs.3), add_u64(self.4, rhs.4), add_u64(self.5, rhs.5),
            add_u64(self.6, rhs.6), add_u64(self.7, rhs.7),
        )
    }
}

impl AddSpecImpl for ulong8 {
    open spec fn obeys_add_spec() -> bool {
        true
    }

    open spec fn add_req(self, rhs: ulong8) -> bool {
        true
    }

    open spec fn add_spec(self, rhs: ulong8) -> ulong8 {
        ulong8(
            add_u64(self.0, rhs.0), add_u64(self.1, rhs.1), add_u64(self.2, rhs.2),
            add_u64(self.3, rhs.3), add_u64(self.4, rhs.4), add_u64(self.5, rhs.5),
            add_u64(self.6, rhs.6), add_u64(self.7, rhs.7),
        )
    }
}

impl core::ops::Add<u64> for ulong8 {
    type Output = ulong8;

    /// The sum of every lane and the scalar, wrapping around.
    fn add(self, rhs: u64) -> (r: ulong8) {
        ulong8(
            add_u64(self.0, rhs), add_u64(self.1, rhs), add_u64(self.2, rhs), add_u64(self.3, rhs),
            add_u64(self.4, rhs), add_u64(self.5, rhs), add_u64(self.6, rhs), add_u64(self.7, rhs),
        )
    }
}

impl AddSpecImpl<u64> for ulong8 {
    open spec fn obeys_add_spec() -> bool {
        true
    }

    open spec fn add_req(self, rhs: u64) -> bool {
        true
    }

    open spec fn add_spec(self, rhs: u64) -> ulong8 {
        ulong8(
            add_u64(self.0, rhs), add_u64(self.1, rhs), add_u64(self.2, rhs), add_u64(self.3, rhs),
            add_u64(self.4, rhs), add_u64(self.5, rhs), add_u64(self.6, rhs), add_u64(self.7, rhs),
        )
    }
}

impl core::ops::Add<ulong8> for u64 {
    type Output = ulong8;

    /// The sum of the scalar and every lane, wrapping around.
    fn add(self, rhs: ulong8) -> (r: ulong8) {
        ulong8(
            add_u64(self, rhs.0), add_u64(self, rhs.1), add_u64(self, rhs.2), add_u64(self, rhs.3),
            add_u64(self, rhs.4), add_u64(self, rhs.5), add_u64(self, rhs.6), add_u64(self, rhs.7),
        )
    }
}

impl AddSpecImpl<ulong8> for u64 {
    open spec fn obeys_add_spec() -> bool {
        true
    }

    open spec fn add_req(self, rhs: ulong8) -> bool {
        true
    }

    open spec fn add_spec(self, rhs: ulong8) -> ulong8 {
        ulong8(
            add_u64(self, rhs.0), add_u64(self, rhs.1), add_u64(self, rhs.2), add_u64(self, rhs.3),
            add_u64(self, rhs.4), add_u64(self, rhs.5), add_u64(self, rhs.6), add_u64(self, rhs.7),
        )
    }
}

impl core::ops::Sub for ulong8 {
    type Output = ulong8;

    /// The lane-wise difference of the two vectors, wrapping around.
    fn sub(self, rhs: ulong8) -> (r: ulong8) {
        ulong8(
            sub_u64(self.0, rhs.0), sub_u64(self.1, rhs.1), sub_u64(self.2, rhs.2),
            sub_u64(self.3, rhs.3), sub_u64(self.4, rhs.4), sub_u64(self.5, rhs.5),
            sub_u64(self.6, rhs.6), sub_u64(self.7, rhs.7),
        )
    }
}

impl SubSpecImpl for ulong8 {
    open spec fn obeys_sub_spec() -> bool {
        true
    }

    open spec fn sub_req(self, rhs: ulong8) -> bool {
        true
    }

    open spec fn sub_spec(self, rhs: ulong8) -> ulong8 {
        ulong8(
            sub_u64(self.0, rhs.0), sub_u64(self.1, rhs.1), sub_u64(self.2, rhs.2),
            sub_u64(self.3, rhs.3), sub_u64(self.4, rhs.4), sub_u64(self.5, rhs.5),
            sub_u64(self.6, rhs.6), sub_u64(self.7, rhs.7),
        )
    }
}

impl core::ops::Sub<u64> for ulong8 {
    type Output = ulong8;

    /// The difference of every lane and the scalar, wrapping around.
    fn sub(self, rhs: u64) -> (r: ulong8) {
        ulong8(
            sub_u64(self.0, rhs), sub_u64(self.1, rhs), sub_u64(self.2, rhs), sub_u64(self.3, rhs),
            sub_u64(self.4, rhs), sub_u64(self.5, rhs), sub_u64(self.6, rhs), sub_u64(self.7, rhs),
        )
    }
}

impl SubSpecImpl<u64> for ulong8 {
    open spec fn obeys_sub_spec() -> bool {
        true
    }

    open spec fn sub_req(self, rhs: u64) -> bool {
        true
    }

    open spec fn sub_spec(self, rhs: u64) -> ulong8 {
        ulong8(
            sub_u64(self.0, rhs), sub_u64(self.1, rhs), sub_u64(self.2, rhs), sub_u64(self.3, rhs),
            sub_u64(self.4, rhs), sub_u64(self.5, rhs), sub_u64(self.6, rhs), sub_u64(self.7, rhs),
        )
    }
}

impl core::ops::Sub<ulong8> for u64 {
    type Output = ulong8;

    /// The difference of the scalar and every lane, wrapping around.
    fn sub(self, rhs: ulong8) -> (r: ulong8) {
        ulong8(
            sub_u64(self, rhs.0), sub_u64(self, rhs.1), sub_u64(self, rhs.2), sub_u64(self, rhs.3),
            sub_u64(self, rhs.4), sub_u64(self, rhs.5), sub_u64(self, rhs.6), sub_u64(self, rhs.7),
        )
    }
}

impl SubSpecImpl<ulong8> for u64 {
    open spec fn obeys_sub_spec() -> bool {
        true
    }

    open spec fn sub_req(self, rhs: ulong8) -> bool {
        true
    }

    open spec fn sub_spec(self, rhs: ulong8) -> ulong8 {
        ulong8(
            sub_u64(self, rhs.0), sub_u64(self, rhs.1), sub_u64(self, rhs.2), sub_u64(self, rhs.3),
            sub_u64(self, rhs.4), sub_u64(self, rhs.5), sub_u64(self, rhs.6), sub_u64(self, rhs.7),
        )
    }
}

impl core::ops::Mul for ulong8 {
    type Output = ulong8;

    /// The lane-wise product of the two vectors, wrapping around.
    fn mul(self, rhs: ulong8) -> (r: ulong8) {
        ulong8(
            mul_u64(self.0, rhs.0), mul_u64(self.1, rhs.1), mul_u64(self.2, rhs.2),
            mul_u64(self.3, rhs.3), mul_u64(self.4, rhs.4), mul_u64(self.5, rhs.5),
            mul_u64(self.6, rhs.6), mul_u64(self.7, rhs.7),
        )
    }
}

impl MulSpecImpl for ulong8 {
    open spec fn obeys_mul_spec() -> bool {
        true
    }

    open spec fn mul_req(self, rhs: ulong8) -> bool {
        true
    }

    open spec fn mul_spec(self, rhs: ulong8) -> ulong8 {
        ulong8(
            mul_u64(self.0, rhs.0), mul_u64(self.1, rhs.1), mul_u64(self.2, rhs.2),
            mul_u64(self.3, rhs.3), mul_u64(self.4, rhs.4), mul_u64(self.5, rhs.5),
            mul_u64(self.6, rhs.6), mul_u64(self.7, rhs.7),
        )
    }
}

impl core::ops::Mul<u64> for ulong8 {
    type Output = ulong8;

    /// The product of every lane and the scalar, wrapping around.
    fn mul(self, rhs: u64) -> (r: ulong8) {
        ulong8(
            mul_u64(self.0, rhs), mul_u64(self.1, rhs), mul_u64(self.2, rhs), mul_u64(self.3, rhs),
            mul_u64(self.4, rhs), mul_u64(self.5, rhs), mul_u64(self.6, rhs), mul_u64(self.7, rhs),
        )
    }
}

impl MulSpecImpl<u64> for ulong8 {
    open spec fn obeys_mul_spec() -> bool {
        true
    }

    open spec fn mul_req(self, rhs: u64) -> bool {
        true
    }

    open spec fn mul_spec(self, rhs: u64) -> ulong8 {
        ulong8(
            mul_u64(self.0, rhs), mul_u64(self.1, rhs), mul_u64(self.2, rhs), mul_u64(self.3, rhs),
            mul_u64(self.4, rhs), mul_u64(self.5, rhs), mul_u64(self.6, rhs), mul_u64(self.7, rhs),
        )
    }
}

impl core::ops::Mul<ulong8> for u64 {
    type Output = ulong8;

    /// The product of the scalar and every lane, wrapping around.
    fn mul(self, rhs: ulong8) -> (r: ulong8) {
        ulong8(
            mul_u64(self, rhs.0), mul_u64(self, rhs.1), mul_u64(self, rhs.2), mul_u64(self, rhs.3),
            mul_u64(self, rhs.4), mul_u64(self, rhs.5), mul_u64(self, rhs.6), mul_u64(self, rhs.7),
        )
    }
}

impl MulSpecImpl<ulong8> for u64 {
    open spec fn obeys_mul_spec() -> bool {
        true
    }

    open spec fn mul_req(self, rhs: ulong8) -> bool {
        true
    }

    open spec fn mul_spec(self, rhs: ulong8) -> ulong8 {
        ulong8(
            mul_u64(self, rhs.0), mul_u64(self, rhs.1), mul_u64(self, rhs.2), mul_u64(self, rhs.3),
            mul_u64(self, rhs.4), mul_u64(self, rhs.5), mul_u64(self, rhs.6), mul_u64(self, rhs.7),
        )
    }
}

impl core::ops::Div for ulong8 {
    type Output = ulong8;

    /// The lane-wise quotient of the two vectors, rounded toward zero. No lane of the divisor is
    /// zero.
    fn div(self, rhs: ulong8) -> (r: ulong8) {
        ulong8(
            div_u64(self.0, rhs.0), div_u64(self.1, rhs.1), div_u64(self.2, rhs.2),
            div_u64(self.3, rhs.3), div_u64(self.4, rhs.4), div_u64(self.5, rhs.5),
            div_u64(self.6, rhs.6), div_u64(self.7, rhs.7),
        )
    }
}

impl DivSpecImpl for ulong8 {
    open spec fn obeys_div_spec() -> bool {
        true
    }

    open spec fn div_req(self, rhs: ulong8) -> bool {
        rhs.0 != 0 && rhs.1 != 0 && rhs.2 != 0 && rhs.3 != 0 && rhs.4 != 0 && rhs.5 != 0
            && rhs.6 != 0 && rhs.7 != 0
    }

    open spec fn div_spec(self, rhs: ulong8) -> ulong8 {
        ulong8(
            div_u64(self.0, rhs.0), div_u64(self.1, rhs.1), div_u64(self.2, rhs.2),
            div_u64(self.3, rhs.3), div_u64(self.4, rhs.4), div_u64(self.5, rhs.5),
            div_u64(self.6, rhs.6), div_u64(self.7, rhs.7),
        )
    }
}

impl core::ops::Div<u64> for ulong8 {
    type Output = ulong8;

    /// The quotient of every lane by the scalar, rounded toward zero. The scalar is not zero.
    fn div(self, rhs: u64) -> (r: ulong8) {
        ulong8(
            div_u64(self.0, rhs), div_u64(self.1, rhs), div_u64(self.2, rhs), div_u64(self.3, rhs),
            div_u64(self.4, rhs), div_u64(self.5, rhs), div_u64(self.6, rhs), div_u64(self.7, rhs),
        )
    }
}

impl DivSpecImpl<u64> for ulong8 {
    open spec fn obeys_div_spec() -> bool {
        true
    }

    open spec fn div_req(self, rhs: u64) -> bool {
        rhs != 0
    }

    open spec fn div_spec(self, rhs: u64) -> ulong8 {
        ulong8(
            div_u64(self.0, rhs), div_u64(self.1, rhs), div_u64(self.2, rhs), div_u64(self.3, rhs),
            div_u64(self.4, rhs), div_u64(self.5, rhs), div_u64(self.6, rhs), div_u64(self.7, rhs),
        )
    }
}

impl core::ops::Div<ulong8> for u64 {
    type Output = ulong8;

    /// The quotient of the scalar by every lane, rounded toward zero. No lane is zero.
    fn div(self, rhs: ulong8) -> (r: ulong8) {
        ulong8(
            div_u64(self, rhs.0), div_u64(self, rhs.1), div_u64(self, rhs.2), div_u64(self, rhs.3),
            div_u64(self, rhs.4), div_u64(self, rhs.5), div_u64(self, rhs.6), div_u64(self, rhs.7),
        )
    }
}

impl DivSpecImpl<ulong8> for u64 {
    open spec fn obeys_div_spec() -> bool {
        true
    }

    open spec fn div_req(self, rhs: ulong8) -> bool {
        rhs.0 != 0 && rhs.1 != 0 && rhs.2 != 0 && rhs.3 != 0 && rhs.4 != 0 && rhs.5 != 0
            && rhs.6 != 0 && rhs.7 != 0
    }

    open spec fn div_spec(self, rhs: ulong8) -> ulong8 {
        ulong8(
            div_u64(self, rhs.0), div_u64(self, rhs.1), div_u64(self, rhs.2), div_u64(self, rhs.3),
            div_u64(self, rhs.4), div_u64(self, rhs.5), div_u64(self, rhs.6), div_u64(self, rhs.7),
        )
    }
}

impl core::ops::BitAnd for ulong8 {
    type Output = ulong8;

    /// The lane-wise conjunction of the two vectors, bit by bit.
    fn bitand(self, rhs: ulong8) -> (r: ulong8) {
        ulong8(
            self.0 & rhs.0, self.1 & rhs.1, self.2 & rhs.2, self.3 & rhs.3, self.4 & rhs.4,
            self.5 & rhs.5, self.6 & rhs.6, self.7 & rhs.7,
        )
    }
}

impl BitAndSpecImpl for ulong8 {
    open spec fn obeys_bitand_spec() -> bool {
        true
    }

    open spec fn bitand_req(self, rhs: ulong8) -> bool {
        true
    }

    open spec fn bitand_spec(self, rhs: ulong8) -> ulong8 {
        ulong8(
            self.0 & rhs.0, self.1 & rhs.1, self.2 & rhs.2, self.3 & rhs.3, self.4 & rhs.4,
            self.5 & rhs.5, self.6 & rhs.6, self.7 & rhs.7,
        )
    }
}

impl core::ops::BitAnd<u64> for ulong8 {
    type Output = ulong8;

    /// The conjunction of every lane and the scalar, bit by bit.
    fn bitand(self, rhs: u64) -> (r: ulong8) {
        ulong8(
            self.0 & rhs, self.1 & rhs, self.2 & rhs, self.3 & rhs, self.4 & rhs, self.5 & rhs,
            self.6 & rhs, self.7 & rhs,
        )
    }
}

impl BitAndSpecImpl<u64> for ulong8 {
    open spec fn obeys_bitand_spec() -> bool {
        true
    }

    open spec fn bitand_req(self, rhs: u64) -> bool {
        true
    }

    open spec fn bitand_spec(self, rhs: u64) -> ulong8 {
        ulong8(
            self.0 & rhs, self.1 & rhs, self.2 & rhs, self.3 & rhs, self.4 & rhs, self.5 & rhs,
            self.6 & rhs, self.7 & rhs,
        )
    }
}

impl core::ops::BitAnd<ulong8> for u64 {
    type Output = ulong8;

    /// The conjunction of the scalar and every lane, bit by bit.
    fn bitand(self, rhs: ulong8) -> (r: ulong8) {
        ulong8(
            self & rhs.0, self & rhs.1, self & rhs.2, self & rhs.3, self & rhs.4, self & rhs.5,
            self & rhs.6, self & rhs.7,
        )
    }
}

impl BitAndSpecImpl<ulong8> for u64 {
    open spec fn obeys_bitand_spec() -> bool {
        true
    }

    open spec fn bitand_req(self, rhs: ulong8) -> bool {
        true
    }

    open spec fn bitand_spec(self, rhs: ulong8) -> ulong8 {
        ulong8(
            self & rhs.0, self & rhs.1, self & rhs.2, self & rhs.3, self & rhs.4, self & rhs.5,
            self & rhs.6, self & rhs.7,
        )
    }
}

impl core::ops::BitOr for ulong8 {
    type Output = ulong8;

    /// The lane-wise disjunction of the two vectors, bit by bit.
    fn bitor(self, rhs: ulong8) -> (r: ulong8) {
        ulong8(
            self.0 | rhs.0, self.1 | rhs.1, self.2 | rhs.2, self.3 | rhs.3, self.4 | rhs.4,
            self.5 | rhs.5, self.6 | rhs.6, self.7 | rhs.7,
        )
    }
}

impl BitOrSpecImpl for ulong8 {
    open spec fn obeys_bitor_spec() -> bool {
        true
    }

    open spec fn bitor_req(self, rhs: ulong8) -> bool {
        true
    }

    open spec fn bitor_spec(self, rhs: ulong8) -> ulong8 {
        ulong8(
            self.0 | rhs.0, self.1 | rhs.1, self.2 | rhs.2, self.3 | rhs.3, self.4 | rhs.4,
            self.5 | rhs.5, self.6 | rhs.6, self.7 | rhs.7,
        )
    }
}

impl core::ops::BitOr<u64> for ulong8 {
    type Output = ulong8;

    /// The disjunction of every lane and the scalar, bit by bit.
    fn bitor(self, rhs: u64) -> (r: ulong8) {
        ulong8(
            self.0 | rhs, self.1 | rhs, self.2 | rhs, self.3 | rhs, self.4 | rhs, self.5 | rhs,
            self.6 | rhs, self.7 | rhs,
        )
    }
}

impl BitOrSpecImpl<u64> for ulong8 {
    open spec fn obeys_bitor_spec() -> bool {
        true
    }

    open spec fn bitor_req(self, rhs: u64) -> bool {
        true
    }

    open spec fn bitor_spec(self, rhs: u64) -> ulong8 {
        ulong8(
            self.0 | rhs, self.1 | rhs, self.2 | rhs, self.3 | rhs, self.4 | rhs, self.5 | rhs,
            self.6 | rhs, self.7 | rhs,
        )
    }
}

impl core::ops::BitOr<ulong8> for u64 {
    type Output = ulong8;

    /// The disjunction of the scalar and every lane, bit by bit.
    fn bitor(self, rhs: ulong8) -> (r: ulong8) {
        ulong8(
            self | rhs.0, self | rhs.1, self | rhs.2, self | rhs.3, self | rhs.4, self | rhs.5,
            self | rhs.6, self | rhs.7,
        )
    }
}

impl BitOrSpecImpl<ulong8> for u64 {
    open spec fn obeys_bitor_spec() -> bool {
        true
    }

    open spec fn bitor_req(self, rhs: ulong8) -> bool {
        true
    }

    open spec fn bitor_spec(self, rhs: ulong8) -> ulong8 {
        ulong8(
            self | rhs.0, self | rhs.1, self | rhs.2, self | rhs.3, self | rhs.4, self | rhs.5,
            self | rhs.6, self | rhs.7,
        )
    }
}

impl core::ops::BitXor for ulong8 {
    type Output = ulong8;

    /// The lane-wise exclusive disjunction of the two vectors, bit by bit.
    fn bitxor(self, rhs: ulong8) -> (r: ulong8) {
        ulong8(
            self.0 ^ rhs.0, self.1 ^ rhs.1, self.2 ^ rhs.2, self.3 ^ rhs.3, self.4 ^ rhs.4,
            self.5 ^ rhs.5, self.6 ^ rhs.6, self.7 ^ rhs.7,
        )
    }
}

impl BitXorSpecImpl for ulong8 {
    open spec fn obeys_bitxor_spec() -> bool {
        true
    }

    open spec fn bitxor_req(self, rhs: ulong8) -> bool {
        true
    }

    open spec fn bitxor_spec(self, rhs: ulong8) -> ulong8 {
        ulong8(
            self.0 ^ rhs.0, self.1 ^ rhs.1, self.2 ^ rhs.2, self.3 ^ rhs.3, self.4 ^ rhs.4,
            self.5 ^ rhs.5, self.6 ^ rhs.6, self.7 ^ rhs.7,
        )
    }
}

impl core::ops::BitXor<u64> for ulong8 {
    type Output = ulong8;

    /// The exclusive disjunction of every lane and the scalar, bit by bit.
    fn bitxor(self, rhs: u64) -> (r: ulong8) {
        ulong8(
            self.0 ^ rhs, self.1 ^ rhs, self.2 ^ rhs, self.3 ^ rhs, self.4 ^ rhs, self.5 ^ rhs,
            self.6 ^ rhs, self.7 ^ rhs,
        )
    }
}

impl BitXorSpecImpl<u64> for ulong8 {
    open spec fn obeys_bitxor_spec() -> bool {
        true
    }

    open spec fn bitxor_req(self, rhs: u64) -> bool {
        true
    }

    open spec fn bitxor_spec(self, rhs: u64) -> ulong8 {
        ulong8(
            self.0 ^ rhs, self.1 ^ rhs, self.2 ^ rhs, self.3 ^ rhs, self.4 ^ rhs, self.5 ^ rhs,
            self.6 ^ rhs, self.7 ^ rhs,
        )
    }
}

impl core::ops::BitXor<ulong8> for u64 {
    type Output = ulong8;

    /// The exclusive disjunction of the scalar and every lane, bit by bit.
    fn bitxor(self, rhs: ulong8) -> (r: ulong8) {
        ulong8(
            self ^ rhs.0, self ^ rhs.1, self ^ rhs.2, self ^ rhs.3, self ^ rhs.4, self ^ rhs.5,
            self ^ rhs.6, self ^ rhs.7,
        )
    }
}

impl BitXorSpecImpl<ulong8> for u64 {
    open spec fn obeys_bitxor_spec() -> bool {
        true
    }

    open spec fn bitxor_req(self, rhs: ulong8) -> bool {
        true
    }

    open spec fn bitxor_spec(self, rhs: ulong8) -> ulong8 {
        ulong8(
            self ^ rhs.0, self ^ rhs.1, self ^ rhs.2, self ^ rhs.3, self ^ rhs.4, self ^ rhs.5,
            self ^ rhs.6, self ^ rhs.7,
        )
    }
}

impl core::ops::Shl for ulong8 {
    type Output = ulong8;

    /// Every lane shifted left by the lane of `rhs`, which is below 64.
    fn shl(self, rhs: ulong8) -> (r: ulong8) {
        ulong8(
            shl_u64(self.0, rhs.0), shl_u64(self.1, rhs.1), shl_u64(self.2, rhs.2),
            shl_u64(self.3, rhs.3), shl_u64(self.4, rhs.4), shl_u64(self.5, rhs.5),
            shl_u64(self.6, rhs.6), shl_u64(self.7, rhs.7),
        )
    }
}

impl ShlSpecImpl for ulong8 {
    open spec fn obeys_shl_spec() -> bool {
        true
    }

    open spec fn shl_req(self, rhs: ulong8) -> bool {
        0 <= rhs.0 < 64 && 0 <= rhs.1 < 64 && 0 <= rhs.2 < 64 && 0 <= rhs.3 < 64 && 0 <= rhs.4 < 64
            && 0 <= rhs.5 < 64 && 0 <= rhs.6 < 64 && 0 <= rhs.7 < 64
    }

    open spec fn shl_spec(self, rhs: ulong8) -> ulong8 {
        ulong8(
            shl_u64(self.0, rhs.0), shl_u64(self.1, rhs.1), shl_u64(self.2, rhs.2),
            shl_u64(self.3, rhs.3), shl_u64(self.4, rhs.4), shl_u64(self.5, rhs.5),
            shl_u64(self.6, rhs.6), shl_u64(self.7, rhs.7),
        )
    }
}

impl core::ops::Shl<u64> for ulong8 {
    type Output = ulong8;

    /// Every lane shifted left by `rhs`, which is below 64.
    fn shl(self, rhs: u64) -> (r: ulong8) {
        ulong8(
            shl_u64(self.0, rhs), shl_u64(self.1, rhs), shl_u64(self.2, rhs), shl_u64(self.3, rhs),
            shl_u64(self.4, rhs), shl_u64(self.5, rhs), shl_u64(self.6, rhs), shl_u64(self.7, rhs),
        )
    }
}

impl ShlSpecImpl<u64> for ulong8 {
    open spec fn obeys_shl_spec() -> bool {
        true
    }

    open spec fn shl_req(self, rhs: u64) -> bool {
        0 <= rhs < 64
    }

    open spec fn shl_spec(self, rhs: u64) -> ulong8 {
        ulong8(
            shl_u64(self.0, rhs), shl_u64(self.1, rhs), shl_u64(self.2, rhs), shl_u64(self.3, rhs),
            shl_u64(self.4, rhs), shl_u64(self.5, rhs), shl_u64(self.6, rhs), shl_u64(self.7, rhs),
        )
    }
}

impl core::ops::Shl<ulong8> for u64 {
    type Output = ulong8;

    /// The scalar shifted left by every lane of `rhs`, each of which is below 64.
    fn shl(self, rhs: ulong8) -> (r: ulong8) {
        ulong8(
            shl_u64(self, rhs.0), shl_u64(self, rhs.1), shl_u64(self, rhs.2), shl_u64(self, rhs.3),
            shl_u64(self, rhs.4), shl_u64(self, rhs.5), shl_u64(self, rhs.6), shl_u64(self, rhs.7),
        )
    }
}

impl ShlSpecImpl<ulong8> for u64 {
    open spec fn obeys_shl_spec() -> bool {
        true
    }

    open spec fn shl_req(self, rhs: ulong8) -> bool {
        0 <= rhs.0 < 64 && 0 <= rhs.1 < 64 && 0 <= rhs.2 < 64 && 0 <= rhs.3 < 64 && 0 <= rhs.4 < 64
            && 0 <= rhs.5 < 64 && 0 <= rhs.6 < 64 && 0 <= rhs.7 < 64
    }

    open spec fn shl_spec(self, rhs: ulong8) -> ulong8 {
        ulong8(
            shl_u64(self, rhs.0), shl_u64(self, rhs.1), shl_u64(self, rhs.2), shl_u64(self, rhs.3),
            shl_u64(self, rhs.4), shl_u64(self, rhs.5), shl_u64(self, rhs.6), shl_u64(self, rhs.7),
        )
    }
}

impl core::ops::Shr for ulong8 {
    type Output = ulong8;

    /// Every lane shifted right by the lane of `rhs`, which is below 64.
    fn shr(self, rhs: ulong8) -> (r: ulong8) {
        ulong8(
            shr_u64(self.0, rhs.0), shr_u64(self.1, rhs.1), shr_u64(self.2, rhs.2),
            shr_u64(self.3, rhs.3), shr_u64(self.4, rhs.4), shr_u64(self.5, rhs.5),
            shr_u64(self.6, rhs.6), shr_u64(self.7, rhs.7),
        )
    }
}

impl ShrSpecImpl for ulong8 {
    open spec fn obeys_shr_spec() -> bool {
        true
    }

    open spec fn shr_req(self, rhs: ulong8) -> bool {
        0 <= rhs.0 < 64 && 0 <= rhs.1 < 64 && 0 <= rhs.2 < 64 && 0 <= rhs.3 < 64 && 0 <= rhs.4 < 64
            && 0 <= rhs.5 < 64 && 0 <= rhs.6 < 64 && 0 <= rhs.7 < 64
    }

    open spec fn shr_spec(self, rhs: ulong8) -> ulong8 {
        ulong8(
            shr_u64(self.0, rhs.0), shr_u64(self.1, rhs.1), shr_u64(self.2, rhs.2),
            shr_u64(self.3, rhs.3), shr_u64(self.4, rhs.4), shr_u64(self.5, rhs.5),
            shr_u64(self.6, rhs.6), shr_u64(self.7, rhs.7),
        )
    }
}

impl core::ops::Shr<u64> for ulong8 {
    type Output = ulong8;

    /// Every lane shifted right by `rhs`, which is below 64.
    fn shr(self, rhs: u64) -> (r: ulong8) {
        ulong8(
            shr_u64(self.0, rhs), shr_u64(self.1, rhs), shr_u64(self.2, rhs), shr_u64(self.3, rhs),
            shr_u64(self.4, rhs), shr_u64(self.5, rhs), shr_u64(self.6, rhs), shr_u64(self.7, rhs),
        )
    }
}

impl ShrSpecImpl<u64> for ulong8 {
    open spec fn obeys_shr_spec() -> bool {
        true
    }

    open spec fn shr_req(self, rhs: u64) -> bool {
        0 <= rhs < 64
    }

    open spec fn shr_spec(self, rhs: u64) -> ulong8 {
        ulong8(
            shr_u64(self.0, rhs), shr_u64(self.1, rhs), shr_u64(self.2, rhs), shr_u64(self.3, rhs),
            shr_u64(self.4, rhs), shr_u64(self.5, rhs), shr_u64(self.6, rhs), shr_u64(self.7, rhs),
        )
    }
}

impl core::ops::Shr<ulong8> for u64 {
    type Output = ulong8;

    /// The scalar shifted right by every lane of `rhs`, each of which is below 64.
    fn shr(self, rhs: ulong8) -> (r: ulong8) {
        ulong8(
            shr_u64(self, rhs.0), shr_u64(self, rhs.1), shr_u64(self, rhs.2), shr_u64(self, rhs.3),
            shr_u64(self, rhs.4), shr_u64(self, rhs.5), shr_u64(self, rhs.6), shr_u64(self, rhs.7),
        )
    }
}

impl ShrSpecImpl<ulong8> for u64 {
    open spec fn obeys_shr_spec() -> bool {
        true
    }

    open spec fn shr_req(self, rhs: ulong8) -> bool {
        0 <= rhs.0 < 64 && 0 <= rhs.1 < 64 && 0 <= rhs.2 < 64 && 0 <= rhs.3 < 64 && 0 <= rhs.4 < 64
            && 0 <= rhs.5 < 64 && 0 <= rhs.6 < 64 && 0 <= rhs.7 < 64
    }

    open spec fn shr_spec(self, rhs: ulong8) -> ulong8 {
        ulong8(
            shr_u64(self, rhs.0), shr_u64(self, rhs.1), shr_u64(self, rhs.2), shr_u64(self, rhs.3),
            shr_u64(self, rhs.4), shr_u64(self, rhs.5), shr_u64(self, rhs.6), shr_u64(self, rhs.7),
        )
    }
}

impl core::ops::Rem for ulong8 {
    type Output = ulong8;

    /// The lane-wise remainder `self - (self / rhs) * rhs`. No lane of the divisor is zero.
    fn rem(self, rhs: ulong8) -> (r: ulong8) {
        ulong8(
            rem_u64(self.0, rhs.0), rem_u64(self.1, rhs.1), rem_u64(self.2, rhs.2),
            rem_u64(self.3, rhs.3), rem_u64(self.4, rhs.4), rem_u64(self.5, rhs.5),
            rem_u64(self.6, rhs.6), rem_u64(self.7, rhs.7),
        )
    }
}

impl RemSpecImpl for ulong8 {
    open spec fn obeys_rem_spec() -> bool {
        true
    }

    open spec fn rem_req(self, rhs: ulong8) -> bool {
        rhs.0 != 0 && rhs.1 != 0 && rhs.2 != 0 && rhs.3 != 0 && rhs.4 != 0 && rhs.5 != 0
            && rhs.6 != 0 && rhs.7 != 0
    }

    open spec fn rem_spec(self, rhs: ulong8) -> ulong8 {
        ulong8(
            rem_u64(self.0, rhs.0), rem_u64(self.1, rhs.1), rem_u64(self.2, rhs.2),
            rem_u64(self.3, rhs.3), rem_u64(self.4, rhs.4), rem_u64(self.5, rhs.5),
            rem_u64(self.6, rhs.6), rem_u64(self.7, rhs.7),
        )
    }
}

impl core::ops::Neg for ulong8 {
    type Output = ulong8;

    /// Zero minus every lane, wrapping around.
    fn neg(self) -> (r: ulong8) {
        ulong8(
            neg_u64(self.0), neg_u64(self.1), neg_u64(self.2), neg_u64(self.3), neg_u64(self.4),
            neg_u64(self.5), neg_u64(self.6), neg_u64(self.7),
        )
    }
}

impl NegSpecImpl for ulong8 {
    open spec fn obeys_neg_spec() -> bool {
        true
    }

    open spec fn neg_req(self) -> bool {
        true
    }

    open spec fn neg_spec(self) -> ulong8 {
        ulong8(
            neg_u64(self.0), neg_u64(self.1), neg_u64(self.2), neg_u64(self.3), neg_u64(self.4),
            neg_u64(self.5), neg_u64(self.6), neg_u64(self.7),
        )
    }
}

impl core::ops::Not for ulong8 {
    type Output = ulong8;

    /// Every lane with every bit flipped.
    fn not(self) -> (r: ulong8) {
        ulong8(
            not_u64(self.0), not_u64(self.1), not_u64(self.2), not_u64(self.3), not_u64(self.4),
            not_u64(self.5), not_u64(self.6), not_u64(self.7),
        )
    }
}

impl NotSpecImpl for ulong8 {
    open spec fn obeys_not_spec() -> bool {
        true
    }

    open spec fn not_req(self) -> bool {
        true
    }

    open spec fn not_spec(self) -> ulong8 {
        ulong8(
            not_u64(self.0), not_u64(self.1), not_u64(self.2), not_u64(self.3), not_u64(self.4),
            not_u64(self.5), not_u64(self.6), not_u64(self.7),
        )
    }
}

impl core::convert::From<isize> for ulong8 {
    /// The vector with `x`, wrapped to `u64`, in every lane.
    fn from(x: isize) -> (r: ulong8) {
        let v = isize_to_u64(x);
        ulong8(v, v, v, v, v, v, v, v)
    }
}

impl FromSpecImpl<isize> for ulong8 {
    open spec fn obeys_from_spec() -> bool {
        true
    }

    open spec fn from_spec(x: isize) -> ulong8 {
        ulong8(
            isize_to_u64(x), isize_to_u64(x), isize_to_u64(x), isize_to_u64(x), isize_to_u64(x),
            isize_to_u64(x), isize_to_u64(x), isize_to_u64(x),
        )
    }
}

impl core::ops::Index<u32> for ulong8 {
    type Output = u64;

    /// Lane `i`, which is below 8.
    fn index(&self, i: u32) -> (r: &u64)
        ensures
            *r == self.lane(i as int),
    {
        match i {
            0 => &self.0,
            1 => &self.1,
            2 => &self.2,
            3 => &self.3,
            4 => &self.4,
            5 => &self.5,
            6 => &self.6,
            _ => &self.7,
        }
    }
}

impl vstd::std_specs::core::IndexSpecImpl<u32> for ulong8 {
    open spec fn index_req(&self, i: &u32) -> bool {
        *i < 8
    }
}

impl ulong8 {
    /// Lane `i`, counted from zero.
    pub open spec fn lane(self, i: int) -> u64
        recommends
            0 <= i < 8,
    {
        if i == 0 {
            self.0
        } else if i == 1 {
            self.1
        } else if i == 2 {
            self.2
        } else if i == 3 {
            self.3
        } else if i == 4 {
            self.4
        } else if i == 5 {
            self.5
        } else if i == 6 {
            self.6
        } else {
            self.7
        }
    }

    /// The vector of type `ulong8` with the bits of `x`, a value of a type that has as many bits,
    /// which is one with images of type `uint16`.
    pub fn bitcast<U: Bitcast<Image = uint16>>(x: U) -> (r: ulong8)
        ensures
            r == spec_bitcast::<U, ulong8>(x),
    {
        bitcast(x)
    }

    /// The vector with `x` in every lane.
    pub fn broadcast(x: u64) -> (r: ulong8)
        ensures
            r == ulong8(x, x, x, x, x, x, x, x),
    {
        ulong8(x, x, x, x, x, x, x, x)
    }

    /// Lane `i`, which is below 8.
    pub fn extract(self, i: u32) -> (r: u64)
        requires
            i < 8,
        ensures
            r == self.lane(i as int),
    {
        match i {
            0 => self.0,
            1 => self.1,
            2 => self.2,
            3 => self.3,
            4 => self.4,
            5 => self.5,
            6 => self.6,
            _ => self.7,
        }
    }

    /// The vector with `x` in lane `i`, which is below 8, and the other lanes unchanged.
    pub fn replace(self, i: u32, x: u64) -> (r: ulong8)
        requires
            i < 8,
        ensures
            forall|j: int| 0 <= j < 8 ==> #[trigger] r.lane(j) == (if j == i {
                x
            } else {
                self.lane(j)
            }),
    {
        match i {
            0 => ulong8(x, self.1, self.2, self.3, self.4, self.5, self.6, self.7),
            1 => ulong8(self.0, x, self.2, self.3, self.4, self.5, self.6, self.7),
            2 => ulong8(self.0, self.1, x, self.3, self.4, self.5, self.6, self.7),
            3 => ulong8(self.0, self.1, self.2, x, self.4, self.5, self.6, self.7),
            4 => ulong8(self.0, self.1, self.2, self.3, x, self.5, self.6, self.7),
            5 => ulong8(self.0, self.1, self.2, self.3, self.4, x, self.6, self.7),
            6 => ulong8(self.0, self.1, self.2, self.3, self.4, self.5, x, self.7),
            _ => ulong8(self.0, self.1, self.2, self.3, self.4, self.5, self.6, x),
        }
    }

    /// The mask that is all ones where the lanes of `x` and `y` are equal, and zero elsewhere.
    pub fn eq(x: ulong8, y: ulong8) -> (r: long8)
        ensures
            r == long8(
                eq_u64(x.0, y.0), eq_u64(x.1, y.1), eq_u64(x.2, y.2), eq_u64(x.3, y.3),
                eq_u64(x.4, y.4), eq_u64(x.5, y.5), eq_u64(x.6, y.6), eq_u64(x.7, y.7),
            ),
    {
        long8(
            eq_u64(x.0, y.0), eq_u64(x.1, y.1), eq_u64(x.2, y.2), eq_u64(x.3, y.3),
            eq_u64(x.4, y.4), eq_u64(x.5, y.5), eq_u64(x.6, y.6), eq_u64(x.7, y.7),
        )
    }

    /// The mask that is all ones where the lanes of `x` and `y` differ, and zero elsewhere.
    pub fn ne(x: ulong8, y: ulong8) -> (r: long8)
        ensures
            r == long8(
                ne_u64(x.0, y.0), ne_u64(x.1, y.1), ne_u64(x.2, y.2), ne_u64(x.3, y.3),
                ne_u64(x.4, y.4), ne_u64(x.5, y.5), ne_u64(x.6, y.6), ne_u64(x.7, y.7),
            ),
    {
        long8(
            ne_u64(x.0, y.0), ne_u64(x.1, y.1), ne_u64(x.2, y.2), ne_u64(x.3, y.3),
            ne_u64(x.4, y.4), ne_u64(x.5, y.5), ne_u64(x.6, y.6), ne_u64(x.7, y.7),
        )
    }

    /// The mask that is all ones where the lane of `x` is less than that of `y`, and zero
    /// elsewhere.
    pub fn lt(x: ulong8, y: ulong8) -> (r: long8)
        ensures
            r == long8(
                lt_u64(x.0, y.0), lt_u64(x.1, y.1), lt_u64(x.2, y.2), lt_u64(x.3, y.3),
                lt_u64(x.4, y.4), lt_u64(x.5, y.5), lt_u64(x.6, y.6), lt_u64(x.7, y.7),
            ),
    {
        long8(
            lt_u64(x.0, y.0), lt_u64(x.1, y.1), lt_u64(x.2, y.2), lt_u64(x.3, y.3),
            lt_u64(x.4, y.4), lt_u64(x.5, y.5), lt_u64(x.6, y.6), lt_u64(x.7, y.7),
        )
    }

    /// The mask that is all ones where the lane of `x` is at most that of `y`, and zero elsewhere.
    pub fn le(x: ulong8, y: ulong8) -> (r: long8)
        ensures
            r == long8(
                le_u64(x.0, y.0), le_u64(x.1, y.1), le_u64(x.2, y.2), le_u64(x.3, y.3),
                le_u64(x.4, y.4), le_u64(x.5, y.5), le_u64(x.6, y.6), le_u64(x.7, y.7),
            ),
    {
        long8(
            le_u64(x.0, y.0), le_u64(x.1, y.1), le_u64(x.2, y.2), le_u64(x.3, y.3),
            le_u64(x.4, y.4), le_u64(x.5, y.5), le_u64(x.6, y.6), le_u64(x.7, y.7),
        )
    }

    /// The mask that is all ones where the lane of `x` is greater than that of `y`, and zero
    /// elsewhere.
    pub fn gt(x: ulong8, y: ulong8) -> (r: long8)
        ensures
            r == long8(
                gt_u64(x.0, y.0), gt_u64(x.1, y.1), gt_u64(x.2, y.2), gt_u64(x.3, y.3),
                gt_u64(x.4, y.4), gt_u64(x.5, y.5), gt_u64(x.6, y.6), gt_u64(x.7, y.7),
            ),
    {
        long8(
            gt_u64(x.0, y.0), gt_u64(x.1, y.1), gt_u64(x.2, y.2), gt_u64(x.3, y.3),
            gt_u64(x.4, y.4), gt_u64(x.5, y.5), gt_u64(x.6, y.6), gt_u64(x.7, y.7),
        )
    }

    /// The mask that is all ones where the lane of `x` is at least that of `y`, and zero elsewhere.
    pub fn ge(x: ulong8, y: ulong8) -> (r: long8)
        ensures
            r == long8(
                ge_u64(x.0, y.0), ge_u64(x.1, y.1), ge_u64(x.2, y.2), ge_u64(x.3, y.3),
                ge_u64(x.4, y.4), ge_u64(x.5, y.5), ge_u64(x.6, y.6), ge_u64(x.7, y.7),
            ),
    {
        long8(
            ge_u64(x.0, y.0), ge_u64(x.1, y.1), ge_u64(x.2, y.2), ge_u64(x.3, y.3),
            ge_u64(x.4, y.4), ge_u64(x.5, y.5), ge_u64(x.6, y.6), ge_u64(x.7, y.7),
        )
    }

    /// `x * y + z` lane by lane, wrapping around.
    pub fn madd(x: ulong8, y: ulong8, z: ulong8) -> (r: ulong8)
        ensures
            r == ulong8(
                madd_u64(x.0, y.0, z.0), madd_u64(x.1, y.1, z.1), madd_u64(x.2, y.2, z.2),
                madd_u64(x.3, y.3, z.3), madd_u64(x.4, y.4, z.4), madd_u64(x.5, y.5, z.5),
                madd_u64(x.6, y.6, z.6), madd_u64(x.7, y.7, z.7),
            ),
    {
        ulong8(
            madd_u64(x.0, y.0, z.0), madd_u64(x.1, y.1, z.1), madd_u64(x.2, y.2, z.2),
            madd_u64(x.3, y.3, z.3), madd_u64(x.4, y.4, z.4), madd_u64(x.5, y.5, z.5),
            madd_u64(x.6, y.6, z.6), madd_u64(x.7, y.7, z.7),
        )
    }

    /// The magnitude of every lane, which is the lane.
    pub fn abs(x: ulong8) -> (r: ulong8)
        ensures
            r == x.spec_abs(),
    {
        ulong8(
            abs_u64(x.0), abs_u64(x.1), abs_u64(x.2), abs_u64(x.3), abs_u64(x.4), abs_u64(x.5),
            abs_u64(x.6), abs_u64(x.7),
        )
    }

    /// The greater lane of `x` and `y`, lane by lane.
    pub fn max(x: ulong8, y: ulong8) -> (r: ulong8)
        ensures
            r == x.spec_max(y),
    {
        ulong8(
            max_u64(x.0, y.0), max_u64(x.1, y.1), max_u64(x.2, y.2), max_u64(x.3, y.3),
            max_u64(x.4, y.4), max_u64(x.5, y.5), max_u64(x.6, y.6), max_u64(x.7, y.7),
        )
    }

    /// The smaller lane of `x` and `y`, lane by lane.
    pub fn min(x: ulong8, y: ulong8) -> (r: ulong8)
        ensures
            r == x.spec_min(y),
    {
        ulong8(
            min_u64(x.0, y.0), min_u64(x.1, y.1), min_u64(x.2, y.2), min_u64(x.3, y.3),
            min_u64(x.4, y.4), min_u64(x.5, y.5), min_u64(x.6, y.6), min_u64(x.7, y.7),
        )
    }

    /// Every lane of `x` raised to at least the lane of `lo`, then lowered to at most that of `hi`.
    pub fn clamp(x: ulong8, lo: ulong8, hi: ulong8) -> (r: ulong8)
        ensures
            r == x.spec_clamp(lo, hi),
    {
        ulong8(
            clamp_u64(x.0, lo.0, hi.0), clamp_u64(x.1, lo.1, hi.1), clamp_u64(x.2, lo.2, hi.2),
            clamp_u64(x.3, lo.3, hi.3), clamp_u64(x.4, lo.4, hi.4), clamp_u64(x.5, lo.5, hi.5),
            clamp_u64(x.6, lo.6, hi.6), clamp_u64(x.7, lo.7, hi.7),
        )
    }

    /// The sum of the lanes, wrapping around.
    pub fn reduce_add(x: ulong8) -> (r: u64)
        ensures
            r == x.spec_reduce_add(),
    {
        let s = add_u64(x.0, x.1);
        let ghost mut t: int = x.0 + x.1;
        proof {
            lemma_wrap_u64_sum(t, x.2 as int);
            t = t + x.2;
        }
        let s = add_u64(s, x.2);
        proof {
            lemma_wrap_u64_sum(t, x.3 as int);
            t = t + x.3;
        }
        let s = add_u64(s, x.3);
        proof {
            lemma_wrap_u64_sum(t, x.4 as int);
            t = t + x.4;
        }
        let s = add_u64(s, x.4);
        proof {
            lemma_wrap_u64_sum(t, x.5 as int);
            t = t + x.5;
        }
        let s = add_u64(s, x.5);
        proof {
            lemma_wrap_u64_sum(t, x.6 as int);
            t = t + x.6;
        }
        let s = add_u64(s, x.6);
        proof {
            lemma_wrap_u64_sum(t, x.7 as int);
            t = t + x.7;
        }
        let s = add_u64(s, x.7);
        s
    }

    /// The smallest lane.
    pub fn reduce_min(x: ulong8) -> (r: u64)
        ensures
            r == x.spec_reduce_min(),
            r <= x.0 && r <= x.1 && r <= x.2 && r <= x.3 && r <= x.4 && r <= x.5 && r <= x.6
                && r <= x.7,
            r == x.0 || r == x.1 || r == x.2 || r == x.3 || r == x.4 || r == x.5 || r == x.6
                || r == x.7,
    {
        let s = min_u64(x.0, x.1);
        let s = min_u64(s, x.2);
        let s = min_u64(s, x.3);
        let s = min_u64(s, x.4);
        let s = min_u64(s, x.5);
        let s = min_u64(s, x.6);
        let s = min_u64(s, x.7);
        s
    }

    /// The greatest lane.
    pub fn reduce_max(x: ulong8) -> (r: u64)
        ensures
            r == x.spec_reduce_max(),
            r >= x.0 && r >= x.1 && r >= x.2 && r >= x.3 && r >= x.4 && r >= x.5 && r >= x.6
                && r >= x.7,
            r == x.0 || r == x.1 || r == x.2 || r == x.3 || r == x.4 || r == x.5 || r == x.6
                || r == x.7,
    {
        let s = max_u64(x.0, x.1);
        let s = max_u64(s, x.2);
        let s = max_u64(s, x.3);
        let s = max_u64(s, x.4);
        let s = max_u64(s, x.5);
        let s = max_u64(s, x.6);
        let s = max_u64(s, x.7);
        s
    }

    /// Every lane as `i8`: its low 8 bits, read as `i8`.
    pub fn to_char(x: ulong8) -> (r: char8)
        ensures
            r == char8(
                u64_to_i8(x.0), u64_to_i8(x.1), u64_to_i8(x.2), u64_to_i8(x.3), u64_to_i8(x.4),
                u64_to_i8(x.5), u64_to_i8(x.6), u64_to_i8(x.7),
            ),
    {
        char8(
            u64_to_i8(x.0), u64_to_i8(x.1), u64_to_i8(x.2), u64_to_i8(x.3), u64_to_i8(x.4),
            u64_to_i8(x.5), u64_to_i8(x.6), u64_to_i8(x.7),
        )
    }

    /// Every lane as `i8`, saturating: a lane outside the range of `i8` gives the nearest bound.
    pub fn to_char_sat(x: ulong8) -> (r: char8)
        ensures
            r == x.spec_to_char_sat(),
    {
        char8(
            u64_to_i8_sat(x.0), u64_to_i8_sat(x.1), u64_to_i8_sat(x.2), u64_to_i8_sat(x.3),
            u64_to_i8_sat(x.4), u64_to_i8_sat(x.5), u64_to_i8_sat(x.6), u64_to_i8_sat(x.7),
        )
    }

    /// Every lane as `u8`: its low 8 bits, read as `u8`.
    pub fn to_uchar(x: ulong8) -> (r: uchar8)
        ensures
            r == uchar8(
                u64_to_u8(x.0), u64_to_u8(x.1), u64_to_u8(x.2), u64_to_u8(x.3), u64_to_u8(x.4),
                u64_to_u8(x.5), u64_to_u8(x.6), u64_to_u8(x.7),
            ),
    {
        uchar8(
            u64_to_u8(x.0), u64_to_u8(x.1), u64_to_u8(x.2), u64_to_u8(x.3), u64_to_u8(x.4),
            u64_to_u8(x.5), u64_to_u8(x.6), u64_to_u8(x.7),
        )
    }

    /// Every lane as `u8`, saturating: a lane outside the range of `u8` gives the nearest bound.
    pub fn to_uchar_sat(x: ulong8) -> (r: uchar8)
        ensures
            r == x.spec_to_uchar_sat(),
    {
        uchar8(
            u64_to_u8_sat(x.0), u64_to_u8_sat(x.1), u64_to_u8_sat(x.2), u64_to_u8_sat(x.3),
            u64_to_u8_sat(x.4), u64_to_u8_sat(x.5), u64_to_u8_sat(x.6), u64_to_u8_sat(x.7),
        )
    }

    /// Every lane as `i16`: its low 16 bits, read as `i16`.
    pub fn to_short(x: ulong8) -> (r: short8)
        ensures
            r == short8(
                u64_to_i16(x.0), u64_to_i16(x.1), u64_to_i16(x.2), u64_to_i16(x.3), u64_to_i16(x.4),
                u64_to_i16(x.5), u64_to_i16(x.6), u64_to_i16(x.7),
            ),
    {
        short8(
            u64_to_i16(x.0), u64_to_i16(x.1), u64_to_i16(x.2), u64_to_i16(x.3), u64_to_i16(x.4),
            u64_to_i16(x.5), u64_to_i16(x.6), u64_to_i16(x.7),
        )
    }

    /// Every lane as `i16`, saturating: a lane outside the range of `i16` gives the nearest bound.
    pub fn to_short_sat(x: ulong8) -> (r: short8)
        ensures
            r == x.spec_to_short_sat(),
    {
        short8(
            u64_to_i16_sat(x.0), u64_to_i16_sat(x.1), u64_to_i16_sat(x.2), u64_to_i16_sat(x.3),
            u64_to_i16_sat(x.4), u64_to_i16_sat(x.5), u64_to_i16_sat(x.6), u64_to_i16_sat(x.7),
        )
    }

    /// Every lane as `u16`: its low 16 bits, read as `u16`.
    pub fn to_ushort(x: ulong8) -> (r: ushort8)
        ensures
            r == ushort8(
                u64_to_u16(x.0), u64_to_u16(x.1), u64_to_u16(x.2), u64_to_u16(x.3), u64_to_u16(x.4),
                u64_to_u16(x.5), u64_to_u16(x.6), u64_to_u16(x.7),
            ),
    {
        ushort8(
            u64_to_u16(x.0), u64_to_u16(x.1), u64_to_u16(x.2), u64_to_u16(x.3), u64_to_u16(x.4),
            u64_to_u16(x.5), u64_to_u16(x.6), u64_to_u16(x.7),
        )
    }

    /// Every lane as `u16`, saturating: a lane outside the range of `u16` gives the nearest bound.
    pub fn to_ushort_sat(x: ulong8) -> (r: ushort8)
        ensures
            r == x.spec_to_ushort_sat(),
    {
        ushort8(
            u64_to_u16_sat(x.0), u64_to_u16_sat(x.1), u64_to_u16_sat(x.2), u64_to_u16_sat(x.3),
            u64_to_u16_sat(x.4), u64_to_u16_sat(x.5), u64_to_u16_sat(x.6), u64_to_u16_sat(x.7),
        )
    }

    /// Every lane as `i32`: its low 32 bits, read as `i32`.
    pub fn to_int(x: ulong8) -> (r: int8)
        ensures
            r == int8(
                u64_to_i32(x.0), u64_to_i32(x.1), u64_to_i32(x.2), u64_to_i32(x.3), u64_to_i32(x.4),
                u64_to_i32(x.5), u64_to_i32(x.6), u64_to_i32(x.7),
            ),
    {
        int8(
            u64_to_i32(x.0), u64_to_i32(x.1), u64_to_i32(x.2), u64_to_i32(x.3), u64_to_i32(x.4),
            u64_to_i32(x.5), u64_to_i32(x.6), u64_to_i32(x.7),
        )
    }

    /// Every lane as `i32`, saturating: a lane outside the range of `i32` gives the nearest bound.
    pub fn to_int_sat(x: ulong8) -> (r: int8)
        ensures
            r == x.spec_to_int_sat(),
    {
        int8(
            u64_to_i32_sat(x.0), u64_to_i32_sat(x.1), u64_to_i32_sat(x.2), u64_to_i32_sat(x.3),
            u64_to_i32_sat(x.4), u64_to_i32_sat(x.5), u64_to_i32_sat(x.6), u64_to_i32_sat(x.7),
        )
    }

    /// Every lane as `u32`: its low 32 bits, read as `u32`.
    pub fn to_uint(x: ulong8) -> (r: uint8)
        ensures
            r == uint8(
                u64_to_u32(x.0), u64_to_u32(x.1), u64_to_u32(x.2), u64_to_u32(x.3), u64_to_u32(x.4),
                u64_to_u32(x.5), u64_to_u32(x.6), u64_to_u32(x.7),
            ),
    {
        uint8(
            u64_to_u32(x.0), u64_to_u32(x.1), u64_to_u32(x.2), u64_to_u32(x.3), u64_to_u32(x.4),
            u64_to_u32(x.5), u64_to_u32(x.6), u64_to_u32(x.7),
        )
    }

    /// Every lane as `u32`, saturating: a lane outside the range of `u32` gives the nearest bound.
    pub fn to_uint_sat(x: ulong8) -> (r: uint8)
        ensures
            r == x.spec_to_uint_sat(),
    {
        uint8(
            u64_to_u32_sat(x.0), u64_to_u32_sat(x.1), u64_to_u32_sat(x.2), u64_to_u32_sat(x.3),
            u64_to_u32_sat(x.4), u64_to_u32_sat(x.5), u64_to_u32_sat(x.6), u64_to_u32_sat(x.7),
        )
    }

    /// Every lane as `i64`: the same bits, read as `i64`.
    pub fn to_long(x: ulong8) -> (r: long8)
        ensures
            r == long8(
                u64_to_i64(x.0), u64_to_i64(x.1), u64_to_i64(x.2), u64_to_i64(x.3), u64_to_i64(x.4),
                u64_to_i64(x.5), u64_to_i64(x.6), u64_to_i64(x.7),
            ),
    {
        long8(
            u64_to_i64(x.0), u64_to_i64(x.1), u64_to_i64(x.2), u64_to_i64(x.3), u64_to_i64(x.4),
            u64_to_i64(x.5), u64_to_i64(x.6), u64_to_i64(x.7),
        )
    }

    /// Every lane as `i64`, saturating: a lane outside the range of `i64` gives the nearest bound.
    pub fn to_long_sat(x: ulong8) -> (r: long8)
        ensures
            r == x.spec_to_long_sat(),
    {
        long8(
            u64_to_i64_sat(x.0), u64_to_i64_sat(x.1), u64_to_i64_sat(x.2), u64_to_i64_sat(x.3),
            u64_to_i64_sat(x.4), u64_to_i64_sat(x.5), u64_to_i64_sat(x.6), u64_to_i64_sat(x.7),
        )
    }

    /// The vector itself: its lanes are `u64` already.
    pub fn to_ulong(x: ulong8) -> (r: ulong8)
        ensures
            r == x,
    {
        x
    }

    /// The vector itself: its lanes are `u64` already, and nothing saturates.
    pub fn to_ulong_sat(x: ulong8) -> (r: ulong8)
        ensures
            r == x.spec_to_ulong_sat(),
    {
        x
    }

    /// The low half: lanes 0 to 3.
    pub fn lo(self) -> (r: ulong4)
        ensures
            r == ulong4(self.0, self.1, self.2, self.3),
    {
        ulong4(self.0, self.1, self.2, self.3)
    }

    /// The high half: lanes 4 to 7.
    pub fn hi(self) -> (r: ulong4)
        ensures
            r == ulong4(self.4, self.5, self.6, self.7),
    {
        ulong4(self.4, self.5, self.6, self.7)
    }

    /// The odd lanes: lanes 1, 3 and so on.
    pub fn odd(self) -> (r: ulong4)
        ensures
            r == ulong4(self.1, self.3, self.5, self.7),
    {
        ulong4(self.1, self.3, self.5, self.7)
    }

    /// The even lanes: lanes 0, 2 and so on.
    pub fn even(self) -> (r: ulong4)
        ensures
            r == ulong4(self.0, self.2, self.4, self.6),
    {
        ulong4(self.0, self.2, self.4, self.6)
    }

    /// The vector of `f` applied to every lane. `f` accepts every lane.
    pub fn map_unary<F: Fn(u64) -> u64>(self, f: F) -> (r: ulong8)
        requires
            call_requires(f, (self.0,)),
            call_requires(f, (self.1,)),
            call_requires(f, (self.2,)),
            call_requires(f, (self.3,)),
            call_requires(f, (self.4,)),
            call_requires(f, (self.5,)),
            call_requires(f, (self.6,)),
            call_requires(f, (self.7,)),
        ensures
            call_ensures(f, (self.0,), r.0),
            call_ensures(f, (self.1,), r.1),
            call_ensures(f, (self.2,), r.2),
            call_ensures(f, (self.3,), r.3),
            call_ensures(f, (self.4,), r.4),
            call_ensures(f, (self.5,), r.5),
            call_ensures(f, (self.6,), r.6),
            call_ensures(f, (self.7,), r.7),
    {
        ulong8(
            f(self.0), f(self.1), f(self.2), f(self.3), f(self.4), f(self.5), f(self.6), f(self.7),
        )
    }

    /// The vector of `f` applied to the lanes of the two vectors, lane by lane. `f` accepts every
    /// such pair of lanes.
    pub fn map_binary<F: Fn(u64, u64) -> u64>(self, other: ulong8, f: F) -> (r: ulong8)
        requires
            call_requires(f, (self.0, other.0)),
            call_requires(f, (self.1, other.1)),
            call_requires(f, (self.2, other.2)),
            call_requires(f, (self.3, other.3)),
            call_requires(f, (self.4, other.4)),
            call_requires(f, (self.5, other.5)),
            call_requires(f, (self.6, other.6)),
            call_requires(f, (self.7, other.7)),
        ensures
            call_ensures(f, (self.0, other.0), r.0),
            call_ensures(f, (self.1, other.1), r.1),
            call_ensures(f, (self.2, other.2), r.2),
            call_ensures(f, (self.3, other.3), r.3),
            call_ensures(f, (self.4, other.4), r.4),
            call_ensures(f, (self.5, other.5), r.5),
            call_ensures(f, (self.6, other.6), r.6),
            call_ensures(f, (self.7, other.7), r.7),
    {
        ulong8(
            f(self.0, other.0), f(self.1, other.1), f(self.2, other.2), f(self.3, other.3),
            f(self.4, other.4), f(self.5, other.5), f(self.6, other.6), f(self.7, other.7),
        )
    }

    /// The lanes folded by `f`, from lane 0 upward: `f` is applied to lane 1 and lane 0, then to
    /// each further lane and what the lanes below it gave. `f` accepts every pair of scalars.
    pub fn reduce<F: Fn(u64, u64) -> u64>(self, f: F) -> (r: u64)
        requires
            forall|a: u64, b: u64| call_requires(f, (a, b)),
        ensures
            exists|s1: u64, s2: u64, s3: u64, s4: u64, s5: u64, s6: u64|
                call_ensures(f, (self.1, self.0), s1)
                    && call_ensures(f, (self.2, s1), s2)
                    && call_ensures(f, (self.3, s2), s3)
                    && call_ensures(f, (self.4, s3), s4)
                    && call_ensures(f, (self.5, s4), s5)
                    && call_ensures(f, (self.6, s5), s6)
                    && call_ensures(f, (self.7, s6), r),
    {
        let s1 = f(self.1, self.0);
        let s2 = f(self.2, s1);
        let s3 = f(self.3, s2);
        let s4 = f(self.4, s3);
        let s5 = f(self.5, s4);
        let s6 = f(self.6, s5);
        let s7 = f(self.7, s6);
        s7
    }

    /// Addition commutes.
    pub proof fn lemma_add_commutes(x: ulong8, y: ulong8)
        ensures
            AddSpec::add_spec(x, y) == AddSpec::add_spec(y, x),
    {
        lemma_arith_u64(x.0, y.0, 0);
        lemma_arith_u64(x.1, y.1, 0);
        lemma_arith_u64(x.2, y.2, 0);
        lemma_arith_u64(x.3, y.3, 0);
        lemma_arith_u64(x.4, y.4, 0);
        lemma_arith_u64(x.5, y.5, 0);
        lemma_arith_u64(x.6, y.6, 0);
        lemma_arith_u64(x.7, y.7, 0);
    }

    /// Addition associates, wrap-around or not.
    pub proof fn lemma_add_associates(x: ulong8, y: ulong8, z: ulong8)
        ensures
            AddSpec::add_spec(AddSpec::add_spec(x, y), z)
                == AddSpec::add_spec(x, AddSpec::add_spec(y, z)),
    {
        lemma_arith_u64(x.0, y.0, z.0);
        lemma_arith_u64(x.1, y.1, z.1);
        lemma_arith_u64(x.2, y.2, z.2);
        lemma_arith_u64(x.3, y.3, z.3);
        lemma_arith_u64(x.4, y.4, z.4);
        lemma_arith_u64(x.5, y.5, z.5);
        lemma_arith_u64(x.6, y.6, z.6);
        lemma_arith_u64(x.7, y.7, z.7);
    }

    /// Swapping the operands of a subtraction negates the difference.
    pub proof fn lemma_sub_swaps(x: ulong8, y: ulong8)
        ensures
            SubSpec::sub_spec(x, y) == NegSpec::neg_spec(SubSpec::sub_spec(y, x)),
    {
        lemma_arith_u64(x.0, y.0, 0);
        lemma_arith_u64(x.1, y.1, 0);
        lemma_arith_u64(x.2, y.2, 0);
        lemma_arith_u64(x.3, y.3, 0);
        lemma_arith_u64(x.4, y.4, 0);
        lemma_arith_u64(x.5, y.5, 0);
        lemma_arith_u64(x.6, y.6, 0);
        lemma_arith_u64(x.7, y.7, 0);
    }

    /// The magnitude of an unsigned vector is the vector.
    pub proof fn lemma_abs(x: ulong8)
        ensures
            x.spec_abs() == x,
            x.spec_abs().spec_abs() == x.spec_abs(),
    {
    }

    /// Flipping every bit of a lane gives the greatest `u64` minus the lane.
    pub proof fn lemma_not(x: ulong8)
        ensures
            forall|i: int|
                0 <= i < 8 ==> #[trigger] NotSpec::not_spec(x).lane(i) == u64::MAX - x.lane(i),
    {
        lemma_not_u64(x.0);
        lemma_not_u64(x.1);
        lemma_not_u64(x.2);
        lemma_not_u64(x.3);
        lemma_not_u64(x.4);
        lemma_not_u64(x.5);
        lemma_not_u64(x.6);
        lemma_not_u64(x.7);
    }

    /// The lanes of a vector with `k` in every lane add up to 8 times `k`, wrapped around.
    pub proof fn lemma_reduce_add_broadcast(k: u64)
        ensures
            ulong8(k, k, k, k, k, k, k, k).spec_reduce_add() == wrap_u64(8 * k),
    {
    }

    /// Saturating conversion to `i8` gives, lane by lane, the lane itself where `i8` holds it and
    /// the nearest bound of `i8` where it does not.
    pub proof fn lemma_to_char_sat(x: ulong8)
        ensures
            forall|i: int|
                0 <= i < 8 ==> #[trigger] x.spec_to_char_sat().lane(i) == sat_i8(x.lane(i) as int),
    {
    }

    /// Saturating conversion to `u8` gives, lane by lane, the lane itself where `u8` holds it and
    /// the nearest bound of `u8` where it does not.
    pub proof fn lemma_to_uchar_sat(x: ulong8)
        ensures
            forall|i: int|
                0 <= i < 8 ==> #[trigger] x.spec_to_uchar_sat().lane(i) == sat_u8(x.lane(i) as int),
    {
    }

    /// Saturating conversion to `i16` gives, lane by lane, the lane itself where `i16` holds it and
    /// the nearest bound of `i16` where it does not.
    pub proof fn lemma_to_short_sat(x: ulong8)
        ensures
            forall|i: int|
                0 <= i < 8 ==>
                    #[trigger] x.spec_to_short_sat().lane(i) == sat_i16(x.lane(i) as int),
    {
    }

    /// Saturating conversion to `u16` gives, lane by lane, the lane itself where `u16` holds it and
    /// the nearest bound of `u16` where it does not.
    pub proof fn lemma_to_ushort_sat(x: ulong8)
        ensures
            forall|i: int|
                0 <= i < 8 ==>
                    #[trigger] x.spec_to_ushort_sat().lane(i) == sat_u16(x.lane(i) as int),
    {
    }

    /// Saturating conversion to `i32` gives, lane by lane, the lane itself where `i32` holds it and
    /// the nearest bound of `i32` where it does not.
    pub proof fn lemma_to_int_sat(x: ulong8)
        ensures
            forall|i: int|
                0 <= i < 8 ==> #[trigger] x.spec_to_int_sat().lane(i) == sat_i32(x.lane(i) as int),
    {
    }

    /// Saturating conversion to `u32` gives, lane by lane, the lane itself where `u32` holds it and
    /// the nearest bound of `u32` where it does not.
    pub proof fn lemma_to_uint_sat(x: ulong8)
        ensures
            forall|i: int|
                0 <= i < 8 ==> #[trigger] x.spec_to_uint_sat().lane(i) == sat_u32(x.lane(i) as int),
    {
    }

    /// Saturating conversion to `i64` gives, lane by lane, the lane itself where `i64` holds it and
    /// the nearest bound of `i64` where it does not.
    pub proof fn lemma_to_long_sat(x: ulong8)
        ensures
            forall|i: int|
                0 <= i < 8 ==> #[trigger] x.spec_to_long_sat().lane(i) == sat_i64(x.lane(i) as int),
    {
    }
}

impl Vector for ulong8 {
    type Scalar = u64;

    type Boolean = long8;

    type CharVector = char8;

    type ShortVector = short8;

    type IntVector = int8;

    type LongVector = long8;

    type UCharVector = uchar8;

    type UShortVector = ushort8;

    type UIntVector = uint8;

    type ULongVector = ulong8;

    type FloatVector = float8;

    type DoubleVector = double8;

    open spec fn spec_abs(self) -> ulong8 {
        ulong8(
            abs_u64(self.0), abs_u64(self.1), abs_u64(self.2), abs_u64(self.3), abs_u64(self.4),
            abs_u64(self.5), abs_u64(self.6), abs_u64(self.7),
        )
    }

    open spec fn spec_max(self, other: ulong8) -> ulong8 {
        ulong8(
            max_u64(self.0, other.0), max_u64(self.1, other.1), max_u64(self.2, other.2),
            max_u64(self.3, other.3), max_u64(self.4, other.4), max_u64(self.5, other.5),
            max_u64(self.6, other.6), max_u64(self.7, other.7),
        )
    }

    open spec fn spec_min(self, other: ulong8) -> ulong8 {
        ulong8(
            min_u64(self.0, other.0), min_u64(self.1, other.1), min_u64(self.2, other.2),
            min_u64(self.3, other.3), min_u64(self.4, other.4), min_u64(self.5, other.5),
            min_u64(self.6, other.6), min_u64(self.7, other.7),
        )
    }

    open spec fn spec_clamp(self, lo: ulong8, hi: ulong8) -> ulong8 {
        ulong8(
            clamp_u64(self.0, lo.0, hi.0), clamp_u64(self.1, lo.1, hi.1),
            clamp_u64(self.2, lo.2, hi.2), clamp_u64(self.3, lo.3, hi.3),
            clamp_u64(self.4, lo.4, hi.4), clamp_u64(self.5, lo.5, hi.5),
            clamp_u64(self.6, lo.6, hi.6), clamp_u64(self.7, lo.7, hi.7),
        )
    }

    open spec fn spec_reduce_add(self) -> u64 {
        wrap_u64(self.0 + self.1 + self.2 + self.3 + self.4 + self.5 + self.6 + self.7)
    }

    open spec fn spec_reduce_min(self) -> u64 {
        let s = min_u64(self.0, self.1);
        let s = min_u64(s, self.2);
        let s = min_u64(s, self.3);
        let s = min_u64(s, self.4);
        let s = min_u64(s, self.5);
        let s = min_u64(s, self.6);
        let s = min_u64(s, self.7);
        s
    }

    open spec fn spec_reduce_max(self) -> u64 {
        let s = max_u64(self.0, self.1);
        let s = max_u64(s, self.2);
        let s = max_u64(s, self.3);
        let s = max_u64(s, self.4);
        let s = max_u64(s, self.5);
        let s = max_u64(s, self.6);
        let s = max_u64(s, self.7);
        s
    }

    open spec fn spec_to_char_sat(self) -> char8 {
        char8(
            u64_to_i8_sat(self.0), u64_to_i8_sat(self.1), u64_to_i8_sat(self.2),
            u64_to_i8_sat(self.3), u64_to_i8_sat(self.4), u64_to_i8_sat(self.5),
            u64_to_i8_sat(self.6), u64_to_i8_sat(self.7),
        )
    }

    open spec fn spec_to_uchar_sat(self) -> uchar8 {
        uchar8(
            u64_to_u8_sat(self.0), u64_to_u8_sat(self.1), u64_to_u8_sat(self.2),
            u64_to_u8_sat(self.3), u64_to_u8_sat(self.4), u64_to_u8_sat(self.5),
            u64_to_u8_sat(self.6), u64_to_u8_sat(self.7),
        )
    }

    open spec fn spec_to_short_sat(self) -> short8 {
        short8(
            u64_to_i16_sat(self.0), u64_to_i16_sat(self.1), u64_to_i16_sat(self.2),
            u64_to_i16_sat(self.3), u64_to_i16_sat(self.4), u64_to_i16_sat(self.5),
            u64_to_i16_sat(self.6), u64_to_i16_sat(self.7),
        )
    }

    open spec fn spec_to_ushort_sat(self) -> ushort8 {
        ushort8(
            u64_to_u16_sat(self.0), u64_to_u16_sat(self.1), u64_to_u16_sat(self.2),
            u64_to_u16_sat(self.3), u64_to_u16_sat(self.4), u64_to_u16_sat(self.5),
            u64_to_u16_sat(self.6), u64_to_u16_sat(self.7),
        )
    }

    open spec fn spec_to_int_sat(self) -> int8 {
        int8(
            u64_to_i32_sat(self.0), u64_to_i32_sat(self.1), u64_to_i32_sat(self.2),
            u64_to_i32_sat(self.3), u64_to_i32_sat(self.4), u64_to_i32_sat(self.5),
            u64_to_i32_sat(self.6), u64_to_i32_sat(self.7),
        )
    }

    open spec fn spec_to_uint_sat(self) -> uint8 {
        uint8(
            u64_to_u32_sat(self.0), u64_to_u32_sat(self.1), u64_to_u32_sat(self.2),
            u64_to_u32_sat(self.3), u64_to_u32_sat(self.4), u64_to_u32_sat(self.5),
            u64_to_u32_sat(self.6), u64_to_u32_sat(self.7),
        )
    }

    open spec fn spec_to_long_sat(self) -> long8 {
        long8(
            u64_to_i64_sat(self.0), u64_to_i64_sat(self.1), u64_to_i64_sat(self.2),
            u64_to_i64_sat(self.3), u64_to_i64_sat(self.4), u64_to_i64_sat(self.5),
            u64_to_i64_sat(self.6), u64_to_i64_sat(self.7),
        )
    }

    open spec fn spec_to_ulong_sat(self) -> ulong8 {
        self
    }

    fn abs(self) -> (r: ulong8) {
        ulong8::abs(self)
    }

    fn max(self, other: ulong8) -> (r: ulong8) {
        ulong8::max(self, other)
    }

    fn min(self, other: ulong8) -> (r: ulong8) {
        ulong8::min(self, other)
    }

    fn clamp(self, lo: ulong8, hi: ulong8) -> (r: ulong8) {
        ulong8::clamp(self, lo, hi)
    }

    fn reduce_add(self) -> (r: u64) {
        ulong8::reduce_add(self)
    }

    fn reduce_min(self) -> (r: u64) {
        ulong8::reduce_min(self)
    }

    fn reduce_max(self) -> (r: u64) {
        ulong8::reduce_max(self)
    }

    fn to_char_sat(self) -> (r: char8) {
        ulong8::to_char_sat(self)
    }

    fn to_uchar_sat(self) -> (r: uchar8) {
        ulong8::to_uchar_sat(self)
    }

    fn to_short_sat(self) -> (r: short8) {
        ulong8::to_short_sat(self)
    }

    fn to_ushort_sat(self) -> (r: ushort8) {
        ulong8::to_ushort_sat(self)
    }

    fn to_int_sat(self) -> (r: int8) {
        ulong8::to_int_sat(self)
    }

    fn to_uint_sat(self) -> (r: uint8) {
        ulong8::to_uint_sat(self)
    }

    fn to_long_sat(self) -> (r: long8) {
        ulong8::to_long_sat(self)
    }

    fn to_ulong_sat(self) -> (r: ulong8) {
        ulong8::to_ulong_sat(self)
    }
}

impl Integer for ulong8 {
    open spec fn spec_reduce_and(self) -> u64 {
        self.0 & self.1 & self.2 & self.3 & self.4 & self.5 & self.6 & self.7
    }

    open spec fn spec_reduce_or(self) -> u64 {
        self.0 | self.1 | self.2 | self.3 | self.4 | self.5 | self.6 | self.7
    }

    open spec fn spec_reduce_xor(self) -> u64 {
        self.0 ^ self.1 ^ self.2 ^ self.3 ^ self.4 ^ self.5 ^ self.6 ^ self.7
    }

    open spec fn spec_all(self) -> bool {
        truth_u64(self.0) && truth_u64(self.1) && truth_u64(self.2) && truth_u64(self.3)
            && truth_u64(self.4) && truth_u64(self.5) && truth_u64(self.6) && truth_u64(self.7)
    }

    open spec fn spec_any(self) -> bool {
        truth_u64(self.0) || truth_u64(self.1) || truth_u64(self.2) || truth_u64(self.3)
            || truth_u64(self.4) || truth_u64(self.5) || truth_u64(self.6) || truth_u64(self.7)
    }

    fn reduce_and(self) -> (r: u64) {
        self.0 & self.1 & self.2 & self.3 & self.4 & self.5 & self.6 & self.7
    }

    fn reduce_or(self) -> (r: u64) {
        self.0 | self.1 | self.2 | self.3 | self.4 | self.5 | self.6 | self.7
    }

    fn reduce_xor(self) -> (r: u64) {
        self.0 ^ self.1 ^ self.2 ^ self.3 ^ self.4 ^ self.5 ^ self.6 ^ self.7
    }

    fn all(self) -> (r: bool) {
        proof {
            let s = self.0 & self.1;
            lemma_bits_u64(self.0, self.1, 0, 0, 0);
            lemma_bits_u64(s, self.2, 0, 0, 0);
            let s = s & self.2;
            lemma_bits_u64(s, self.3, 0, 0, 0);
            let s = s & self.3;
            lemma_bits_u64(s, self.4, 0, 0, 0);
            let s = s & self.4;
            lemma_bits_u64(s, self.5, 0, 0, 0);
            let s = s & self.5;
            lemma_bits_u64(s, self.6, 0, 0, 0);
            let s = s & self.6;
            lemma_bits_u64(s, self.7, 0, 0, 0);
        }
        truth_u64(self.reduce_and())
    }

    fn any(self) -> (r: bool) {
        proof {
            let s = self.0 | self.1;
            lemma_bits_u64(self.0, self.1, 0, 0, 0);
            lemma_bits_u64(s, self.2, 0, 0, 0);
            let s = s | self.2;
            lemma_bits_u64(s, self.3, 0, 0, 0);
            let s = s | self.3;
            lemma_bits_u64(s, self.4, 0, 0, 0);
            let s = s | self.4;
            lemma_bits_u64(s, self.5, 0, 0, 0);
            let s = s | self.5;
            lemma_bits_u64(s, self.6, 0, 0, 0);
            let s = s | self.6;
            lemma_bits_u64(s, self.7, 0, 0, 0);
        }
        truth_u64(self.reduce_or())
    }
}

impl Dot for ulong8 {
    type DotProduct = u64;

    open spec fn spec_dot(self, other: ulong8) -> u64 {
        wrap_u64(
            self.0 * other.0 + self.1 * other.1 + self.2 * other.2 + self.3 * other.3
                + self.4 * other.4 + self.5 * other.5 + self.6 * other.6 + self.7 * other.7
        )
    }

    fn dot(self, other: ulong8) -> (r: u64) {
        let s = mul_u64(self.0, other.0);
        let ghost mut t: int = self.0 * other.0;
        proof {
            lemma_wrap_u64_sum(t, self.1 * other.1);
            t = t + self.1 * other.1;
        }
        let s = madd_u64(self.1, other.1, s);
        proof {
            lemma_wrap_u64_sum(t, self.2 * other.2);
            t = t + self.2 * other.2;
        }
        let s = madd_u64(self.2, other.2, s);
        proof {
            lemma_wrap_u64_sum(t, self.3 * other.3);
            t = t + self.3 * other.3;
        }
        let s = madd_u64(self.3, other.3, s);
        proof {
            lemma_wrap_u64_sum(t, self.4 * other.4);
            t = t + self.4 * other.4;
        }
        let s = madd_u64(self.4, other.4, s);
        proof {
            lemma_wrap_u64_sum(t, self.5 * other.5);
            t = t + self.5 * other.5;
        }
        let s = madd_u64(self.5, other.5, s);
        proof {
            lemma_wrap_u64_sum(t, self.6 * other.6);
            t = t + self.6 * other.6;
        }
        let s = madd_u64(self.6, other.6, s);
        proof {
            lemma_wrap_u64_sum(t, self.7 * other.7);
            t = t + self.7 * other.7;
        }
        let s = madd_u64(self.7, other.7, s);
        s
    }
}

impl Bitcast for ulong8 {
    type Image = uint16;

    open spec fn spec_image(self) -> uint16 {
        let d0 = split_u64_u32(self.0);
        let d1 = split_u64_u32(self.1);
        let d2 = split_u64_u32(self.2);
        let d3 = split_u64_u32(self.3);
        let d4 = split_u64_u32(self.4);
        let d5 = split_u64_u32(self.5);
        let d6 = split_u64_u32(self.6);
        let d7 = split_u64_u32(self.7);
        uint16(
            d0.0, d0.1, d1.0, d1.1, d2.0, d2.1, d3.0, d3.1, d4.0, d4.1, d5.0, d5.1, d6.0, d6.1,
            d7.0, d7.1,
        )
    }

    open spec fn spec_from_image(image: uint16) -> ulong8 {
        ulong8(
            join_u32_u64(image.0, image.1), join_u32_u64(image.2, image.3),
            join_u32_u64(image.4, image.5), join_u32_u64(image.6, image.7),
            join_u32_u64(image.8, image.9), join_u32_u64(image.10, image.11),
            join_u32_u64(image.12, image.13), join_u32_u64(image.14, image.15),
        )
    }

    open spec fn spec_fills() -> bool {
        true
    }

    fn image(self) -> (r: uint16) {
        let d0 = split_u64_u32(self.0);
        let d1 = split_u64_u32(self.1);
        let d2 = split_u64_u32(self.2);
        let d3 = split_u64_u32(self.3);
        let d4 = split_u64_u32(self.4);
        let d5 = split_u64_u32(self.5);
        let d6 = split_u64_u32(self.6);
        let d7 = split_u64_u32(self.7);
        uint16(
            d0.0, d0.1, d1.0, d1.1, d2.0, d2.1, d3.0, d3.1, d4.0, d4.1, d5.0, d5.1, d6.0, d6.1,
            d7.0, d7.1,
        )
    }

    fn from_image(image: uint16) -> (r: ulong8) {
        ulong8(
            join_u32_u64(image.0, image.1), join_u32_u64(image.2, image.3),
            join_u32_u64(image.4, image.5), join_u32_u64(image.6, image.7),
            join_u32_u64(image.8, image.9), join_u32_u64(image.10, image.11),
            join_u32_u64(image.12, image.13), join_u32_u64(image.14, image.15),
        )
    }

    proof fn lemma_image(x: ulong8) {
        lemma_regroup_u32_u64(x.0, 0, 0);
        lemma_regroup_u32_u64(x.1, 0, 0);
        lemma_regroup_u32_u64(x.2, 0, 0);
        lemma_regroup_u32_u64(x.3, 0, 0);
        lemma_regroup_u32_u64(x.4, 0, 0);
        lemma_regroup_u32_u64(x.5, 0, 0);
        lemma_regroup_u32_u64(x.6, 0, 0);
        lemma_regroup_u32_u64(x.7, 0, 0);
    }

    proof fn lemma_from_image(image: uint16) {
        lemma_regroup_u32_u64(0, image.0, image.1);
        lemma_regroup_u32_u64(0, image.2, image.3);
        lemma_regroup_u32_u64(0, image.4, image.5);
        lemma_regroup_u32_u64(0, image.6, image.7);
        lemma_regroup_u32_u64(0, image.8, image.9);
        lemma_regroup_u32_u64(0, image.10, image.11);
        lemma_regroup_u32_u64(0, image.12, image.13);
        lemma_regroup_u32_u64(0, image.14, image.15);
    }
}

impl ulong8 {
    /// Read as `long8`, which has lanes of the same width, a vector keeps the bits of every lane;
    /// read as `ulong8` again, it is what it was.
    pub proof fn lemma_bitcast_long8(x: ulong8)
        ensures
            spec_bitcast::<ulong8, long8>(x) == long8(
                    u64_to_i64(x.0), u64_to_i64(x.1), u64_to_i64(x.2), u64_to_i64(x.3),
                    u64_to_i64(x.4), u64_to_i64(x.5), u64_to_i64(x.6), u64_to_i64(x.7),
                ),
            spec_bitcast::<long8, ulong8>(spec_bitcast::<ulong8, long8>(x)) == x,
    {
        lemma_recast_u64(x.0);
        lemma_regroup_u32_u64(x.0, 0, 0);
        lemma_recast_u64(x.1);
        lemma_regroup_u32_u64(x.1, 0, 0);
        lemma_recast_u64(x.2);
        lemma_regroup_u32_u64(x.2, 0, 0);
        lemma_recast_u64(x.3);
        lemma_regroup_u32_u64(x.3, 0, 0);
        lemma_recast_u64(x.4);
        lemma_regroup_u32_u64(x.4, 0, 0);
        lemma_recast_u64(x.5);
        lemma_regroup_u32_u64(x.5, 0, 0);
        lemma_recast_u64(x.6);
        lemma_regroup_u32_u64(x.6, 0, 0);
        lemma_recast_u64(x.7);
        lemma_regroup_u32_u64(x.7, 0, 0);
    }

    /// Read as `double8`, which has lanes of the same width, a vector keeps the bits of every lane;
    /// read as `ulong8` again, it is what it was.
    pub proof fn lemma_bitcast_double8(x: ulong8)
        ensures
            spec_bitcast::<ulong8, double8>(x) == double8(x.0, x.1, x.2, x.3, x.4, x.5, x.6, x.7),
            spec_bitcast::<double8, ulong8>(spec_bitcast::<ulong8, double8>(x)) == x,
    {
        lemma_regroup_u32_u64(x.0, 0, 0);
        lemma_regroup_u32_u64(x.1, 0, 0);
        lemma_regroup_u32_u64(x.2, 0, 0);
        lemma_regroup_u32_u64(x.3, 0, 0);
        lemma_regroup_u32_u64(x.4, 0, 0);
        lemma_regroup_u32_u64(x.5, 0, 0);
        lemma_regroup_u32_u64(x.6, 0, 0);
        lemma_regroup_u32_u64(x.7, 0, 0);
    }
}

} // verus!
