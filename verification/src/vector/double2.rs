//! `double2`: two lanes of 64-bit floating point, held as bit patterns.

use crate::scalar::lane_u64::{lemma_recast_u64, u64_to_i64};
use crate::scalar::lane_double::{abs_double, copysign_double, lemma_sign_double};
use crate::scalar::regroup::{join_u8_u64, lemma_regroup_u8_u64, split_u64_u8};
use crate::traits::{Bitcast, bitcast, spec_bitcast};
use crate::vector::long2::long2;
use crate::vector::uchar16::uchar16;
use crate::vector::ulong2::ulong2;
use vstd::prelude::*;

verus! {

/// Two lanes of 64-bit floating point. A lane is held as its IEEE-754 bit pattern, a `u64`, so that
/// the vector can be built, taken apart, blended under a mask and read anew as integers. Floating-
/// point arithmetic on the lanes is no part of this crate.
#[derive(Copy, Clone, Debug)]
pub struct double2(pub u64, pub u64);

impl core::ops::Index<u32> for double2 {
    type Output = u64;

    /// The bit pattern of lane `i`, which is below 2.
    fn index(&self, i: u32) -> (r: &u64)
        ensures
            *r == self.lane(i as int),
    {
        match i {
            0 => &self.0,
            _ => &self.1,
        }
    }
}

impl vstd::std_specs::core::IndexSpecImpl<u32> for double2 {
    open spec fn index_req(&self, i: &u32) -> bool {
        *i < 2
    }
}

impl double2 {
    /// The bit pattern of lane `i`, counted from zero.
    pub open spec fn lane(self, i: int) -> u64
        recommends
            0 <= i < 2,
    {
        if i == 0 {
            self.0
        } else {
            self.1
        }
    }

    /// The magnitude of every lane: the lane with its sign bit cleared.
    pub open spec fn spec_abs(x: double2) -> double2 {
        double2(abs_double(x.0), abs_double(x.1))
    }

    /// Every lane of `x` with the sign bit of the lane of `y`.
    pub open spec fn spec_copysign(x: double2, y: double2) -> double2 {
        double2(copysign_double(x.0, y.0), copysign_double(x.1, y.1))
    }

    /// The vector of type `double2` with the bits of `x`, a value of a type that has as many bits,
    /// which is one with images of type `uchar16`.
    pub fn bitcast<U: Bitcast<Image = uchar16>>(x: U) -> (r: double2)
        ensures
            r == spec_bitcast::<U, double2>(x),
    {
        bitcast(x)
    }

    /// The vector with the bit pattern `x` in every lane.
    pub fn broadcast(x: u64) -> (r: double2)
        ensures
            r == double2(x, x),
    {
        double2(x, x)
    }

    /// The bit pattern of lane `i`, which is below 2.
    pub fn extract(self, i: u32) -> (r: u64)
        requires
            i < 2,
        ensures
            r == self.lane(i as int),
    {
        match i {
            0 => self.0,
            _ => self.1,
        }
    }

    /// The vector with the bit pattern `x` in lane `i`, which is below 2, and the other lanes
    /// unchanged.
    pub fn replace(self, i: u32, x: u64) -> (r: double2)
        requires
            i < 2,
        ensures
            forall|j: int| 0 <= j < 2 ==> #[trigger] r.lane(j) == (if j == i {
                x
            } else {
                self.lane(j)
            }),
    {
        match i {
            0 => double2(x, self.1),
            _ => double2(self.0, x),
        }
    }

    /// The magnitude of every lane: the lane with its sign bit cleared.
    pub fn abs(x: double2) -> (r: double2)
        ensures
            r == double2::spec_abs(x),
    {
        double2(abs_double(x.0), abs_double(x.1))
    }

    /// Every lane of `x` with the sign of the lane of `y`.
    pub fn copysign(x: double2, y: double2) -> (r: double2)
        ensures
            r == double2::spec_copysign(x, y),
    {
        double2(copysign_double(x.0, y.0), copysign_double(x.1, y.1))
    }

    /// The low half: lane 0.
    pub fn lo(self) -> (r: u64)
        ensures
            r == self.0,
    {
        self.0
    }

    /// The high half: lane 1.
    pub fn hi(self) -> (r: u64)
        ensures
            r == self.1,
    {
        self.1
    }

    /// The odd lane: lane 1.
    pub fn odd(self) -> (r: u64)
        ensures
            r == self.1,
    {
        self.1
    }

    /// The even lane: lane 0.
    pub fn even(self) -> (r: u64)
        ensures
            r == self.0,
    {
        self.0
    }

    /// The magnitude of a magnitude is that magnitude; a vector with its own signs is itself; and a
    /// vector with the signs of another has the magnitudes that it had.
    pub proof fn lemma_sign(x: double2, y: double2)
        ensures
            double2::spec_abs(double2::spec_abs(x)) == double2::spec_abs(x),
            double2::spec_copysign(x, x) == x,
            double2::spec_abs(double2::spec_copysign(x, y)) == double2::spec_abs(x),
    {
        lemma_sign_double(x.0, y.0);
        lemma_sign_double(x.1, y.1);
    }
}

impl Bitcast for double2 {
    type Image = uchar16;

    open spec fn spec_image(self) -> uchar16 {
        let d0 = split_u64_u8(self.0);
        let d1 = split_u64_u8(self.1);
        uchar16(
            d0.0, d0.1, d0.2, d0.3, d0.4, d0.5, d0.6, d0.7, d1.0, d1.1, d1.2, d1.3, d1.4, d1.5,
            d1.6, d1.7,
        )
    }

    open spec fn spec_from_image(image: uchar16) -> double2 {
        double2(
            join_u8_u64(image.0, image.1, image.2, image.3, image.4, image.5, image.6, image.7),
            join_u8_u64(image.8, image.9, image.10, image.11, image.12, image.13, image.14, image.15),
        )
    }

    open spec fn spec_fills() -> bool {
        true
    }

    fn image(self) -> (r: uchar16) {
        let d0 = split_u64_u8(self.0);
        let d1 = split_u64_u8(self.1);
        uchar16(
            d0.0, d0.1, d0.2, d0.3, d0.4, d0.5, d0.6, d0.7, d1.0, d1.1, d1.2, d1.3, d1.4, d1.5,
            d1.6, d1.7,
        )
    }

    fn from_image(image: uchar16) -> (r: double2) {
        double2(
            join_u8_u64(image.0, image.1, image.2, image.3, image.4, image.5, image.6, image.7),
            join_u8_u64(image.8, image.9, image.10, image.11, image.12, image.13, image.14, image.15),
        )
    }

    proof fn lemma_image(x: double2) {
        lemma_regroup_u8_u64(x.0, 0, 0, 0, 0, 0, 0, 0, 0);
        lemma_regroup_u8_u64(x.1, 0, 0, 0, 0, 0, 0, 0, 0);
    }

    proof fn lemma_from_image(image: uchar16) {
        lemma_regroup_u8_u64(0, image.0, image.1, image.2, image.3, image.4, image.5, image.6, image.7);
        lemma_regroup_u8_u64(0, image.8, image.9, image.10, image.11, image.12, image.13, image.14, image.15);
    }
}

impl double2 {
    /// Read as `long2`, which has lanes of the same width, a vector keeps the bits of every lane;
    /// read as `double2` again, it is what it was.
    pub proof fn lemma_bitcast_long2(x: double2)
        ensures
            spec_bitcast::<double2, long2>(x) == long2(u64_to_i64(x.0), u64_to_i64(x.1)),
            spec_bitcast::<long2, double2>(spec_bitcast::<double2, long2>(x)) == x,
    {
        lemma_recast_u64(x.0);
        lemma_regroup_u8_u64(x.0, 0, 0, 0, 0, 0, 0, 0, 0);
        lemma_recast_u64(x.1);
        lemma_regroup_u8_u64(x.1, 0, 0, 0, 0, 0, 0, 0, 0);
    }

    /// Read as `ulong2`, which has lanes of the same width, a vector keeps the bits of every lane;
    /// read as `double2` again, it is what it was.
    pub proof fn lemma_bitcast_ulong2(x: double2)
        ensures
            spec_bitcast::<double2, ulong2>(x) == ulong2(x.0, x.1),
            spec_bitcast::<ulong2, double2>(spec_bitcast::<double2, ulong2>(x)) == x,
    {
        lemma_regroup_u8_u64(x.0, 0, 0, 0, 0, 0, 0, 0, 0);
        lemma_regroup_u8_u64(x.1, 0, 0, 0, 0, 0, 0, 0, 0);
    }
}

} // verus!
