//! `double4`: four lanes of 64-bit floating point, held as bit patterns.

use crate::scalar::lane_u64::{lemma_recast_u64, u64_to_i64};
use crate::scalar::lane_double::{abs_double, copysign_double, lemma_sign_double};
use crate::scalar::regroup::{join_u16_u64, lemma_regroup_u16_u64, split_u64_u16};
use crate::traits::{Bitcast, bitcast, spec_bitcast};
use crate::vector::double2::double2;
use crate::vector::long4::long4;
use crate::vector::ulong4::ulong4;
use crate::vector::ushort16::ushort16;
use vstd::prelude::*;

verus! {

/// Four lanes of 64-bit floating point. A lane is held as its IEEE-754 bit pattern, a `u64`, so
/// that the vector can be built, taken apart, blended under a mask and read anew as integers.
/// Floating-point arithmetic on the lanes is no part of this crate.
#[derive(Copy, Clone, Debug)]
pub struct double4(pub u64, pub u64, pub u64, pub u64);

impl core::ops::Index<u32> for double4 {
    type Output = u64;

    /// The bit pattern of lane `i`, which is below 4.
    fn index(&self, i: u32) -> (r: &u64)
        ensures
            *r == self.lane(i as int),
    {
        match i {
            0 => &self.0,
            1 => &self.1,
            2 => &self.2,
            _ => &self.3,
        }
    }
}

impl vstd::std_specs::core::IndexSpecImpl<u32> for double4 {
    open spec fn index_req(&self, i: &u32) -> bool {
        *i < 4
    }
}

impl double4 {
    /// The bit pattern of lane `i`, counted from zero.
    pub open spec fn lane(self, i: int) -> u64
        recommends
            0 <= i < 4,
    {
        if i == 0 {
            self.0
        } else if i == 1 {
            self.1
        } else if i == 2 {
            self.2
        } else {
            self.3
        }
    }

    /// The magnitude of every lane: the lane with its sign bit cleared.
    pub open spec fn spec_abs(x: double4) -> double4 {
        double4(abs_double(x.0), abs_double(x.1), abs_double(x.2), abs_double(x.3))
    }

    /// Every lane of `x` with the sign bit of the lane of `y`.
    pub open spec fn spec_copysign(x: double4, y: double4) -> double4 {
        double4(
            copysign_double(x.0, y.0), copysign_double(x.1, y.1), copysign_double(x.2, y.2),
            copysign_double(x.3, y.3),
        )
    }

    /// The vector of type `double4` with the bits of `x`, a value of a type that has as many bits,
    /// which is one with images of type `ushort16`.
    pub fn bitcast<U: Bitcast<Image = ushort16>>(x: U) -> (r: double4)
        ensures
            r == spec_bitcast::<U, double4>(x),
    {
        bitcast(x)
    }

    /// The vector with the bit pattern `x` in every lane.
    pub fn broadcast(x: u64) -> (r: double4)
        ensures
            r == double4(x, x, x, x),
    {
        double4(x, x, x, x)
    }

    /// The bit pattern of lane `i`, which is below 4.
    pub fn extract(self, i: u32) -> (r: u64)
        requires
            i < 4,
        ensures
            r == self.lane(i as int),
    {
        match i {
            0 => self.0,
            1 => self.1,
            2 => self.2,
            _ => self.3,
        }
    }

    /// The vector with the bit pattern `x` in lane `i`, which is below 4, and the other lanes
    /// unchanged.
    pub fn replace(self, i: u32, x: u64) -> (r: double4)
        requires
            i < 4,
        ensures
            forall|j: int| 0 <= j < 4 ==> #[trigger] r.lane(j) == (if j == i {
                x
            } else {
                self.lane(j)
            }),
    {
        match i {
            0 => double4(x, self.1, self.2, self.3),
            1 => double4(self.0, x, self.2, self.3),
            2 => double4(self.0, self.1, x, self.3),
            _ => double4(self.0, self.1, self.2, x),
        }
    }

    /// The magnitude of every lane: the lane with its sign bit cleared.
    pub fn abs(x: double4) -> (r: double4)
        ensures
            r == double4::spec_abs(x),
    {
        double4(abs_double(x.0), abs_double(x.1), abs_double(x.2), abs_double(x.3))
    }

    /// Every lane of `x` with the sign of the lane of `y`.
    pub fn copysign(x: double4, y: double4) -> (r: double4)
        ensures
            r == double4::spec_copysign(x, y),
    {
        double4(
            copysign_double(x.0, y.0), copysign_double(x.1, y.1), copysign_double(x.2, y.2),
            copysign_double(x.3, y.3),
        )
    }

    /// The low half: lanes 0 to 1.
    pub fn lo(self) -> (r: double2)
        ensures
            r == double2(self.0, self.1),
    {
        double2(self.0, self.1)
    }

    /// The high half: lanes 2 to 3.
    pub fn hi(self) -> (r: double2)
        ensures
            r == double2(self.2, self.3),
    {
        double2(self.2, self.3)
    }

    /// The odd lanes: lanes 1, 3 and so on.
    pub fn odd(self) -> (r: double2)
        ensures
            r == double2(self.1, self.3),
    {
        double2(self.1, self.3)
    }

    /// The even lanes: lanes 0, 2 and so on.
    pub fn even(self) -> (r: double2)
        ensures
            r == double2(self.0, self.2),
    {
        double2(self.0, self.2)
    }

    /// The magnitude of a magnitude is that magnitude; a vector with its own signs is itself; and a
    /// vector with the signs of another has the magnitudes that it had.
    pub proof fn lemma_sign(x: double4, y: double4)
        ensures
            double4::spec_abs(double4::spec_abs(x)) == double4::spec_abs(x),
            double4::spec_copysign(x, x) == x,
            double4::spec_abs(double4::spec_copysign(x, y)) == double4::spec_abs(x),
    {
        lemma_sign_double(x.0, y.0);
        lemma_sign_double(x.1, y.1);
        lemma_sign_double(x.2, y.2);
        lemma_sign_double(x.3, y.3);
    }
}

impl Bitcast for double4 {
    type Image = ushort16;

    open spec fn spec_image(self) -> ushort16 {
        let d0 = split_u64_u16(self.0);
        let d1 = split_u64_u16(self.1);
        let d2 = split_u64_u16(self.2);
        let d3 = split_u64_u16(self.3);
        ushort16(
            d0.0, d0.1, d0.2, d0.3, d1.0, d1.1, d1.2, d1.3, d2.0, d2.1, d2.2, d2.3, d3.0, d3.1,
            d3.2, d3.3,
        )
    }

    open spec fn spec_from_image(image: ushort16) -> double4 {
        double4(
            join_u16_u64(image.0, image.1, image.2, image.3),
            join_u16_u64(image.4, image.5, image.6, image.7),
            join_u16_u64(image.8, image.9, image.10, image.11),
            join_u16_u64(image.12, image.13, image.14, image.15),
        )
    }

    open spec fn spec_fills() -> bool {
        true
    }

    fn image(self) -> (r: ushort16) {
        let d0 = split_u64_u16(self.0);
        let d1 = split_u64_u16(self.1);
        let d2 = split_u64_u16(self.2);
        let d3 = split_u64_u16(self.3);
        ushort16(
            d0.0, d0.1, d0.2, d0.3, d1.0, d1.1, d1.2, d1.3, d2.0, d2.1, d2.2, d2.3, d3.0, d3.1,
            d3.2, d3.3,
        )
    }

    fn from_image(image: ushort16) -> (r: double4) {
        double4(
            join_u16_u64(image.0, image.1, image.2, image.3),
            join_u16_u64(image.4, image.5, image.6, image.7),
            join_u16_u64(image.8, image.9, image.10, image.11),
            join_u16_u64(image.12, image.13, image.14, image.15),
        )
    }

    proof fn lemma_image(x: double4) {
        lemma_regroup_u16_u64(x.0, 0, 0, 0, 0);
        lemma_regroup_u16_u64(x.1, 0, 0, 0, 0);
        lemma_regroup_u16_u64(x.2, 0, 0, 0, 0);
        lemma_regroup_u16_u64(x.3, 0, 0, 0, 0);
    }

    proof fn lemma_from_image(image: ushort16) {
        lemma_regroup_u16_u64(0, image.0, image.1, image.2, image.3);
        lemma_regroup_u16_u64(0, image.4, image.5, image.6, image.7);
        lemma_regroup_u16_u64(0, image.8, image.9, image.10, image.11);
        lemma_regroup_u16_u64(0, image.12, image.13, image.14, image.15);
    }
}

impl double4 {
    /// Read as `long4`, which has lanes of the same width, a vector keeps the bits of every lane;
    /// read as `double4` again, it is what it was.
    pub proof fn lemma_bitcast_long4(x: double4)
        ensures
            spec_bitcast::<double4, long4>(x)
                == long4(u64_to_i64(x.0), u64_to_i64(x.1), u64_to_i64(x.2), u64_to_i64(x.3)),
            spec_bitcast::<long4, double4>(spec_bitcast::<double4, long4>(x)) == x,
    {
        lemma_recast_u64(x.0);
        lemma_regroup_u16_u64(x.0, 0, 0, 0, 0);
        lemma_recast_u64(x.1);
        lemma_regroup_u16_u64(x.1, 0, 0, 0, 0);
        lemma_recast_u64(x.2);
        lemma_regroup_u16_u64(x.2, 0, 0, 0, 0);
        lemma_recast_u64(x.3);
        lemma_regroup_u16_u64(x.3, 0, 0, 0, 0);
    }

    /// Read as `ulong4`, which has lanes of the same width, a vector keeps the bits of every lane;
    /// read as `double4` again, it is what it was.
    pub proof fn lemma_bitcast_ulong4(x: double4)
        ensures
            spec_bitcast::<double4, ulong4>(x) == ulong4(x.0, x.1, x.2, x.3),
            spec_bitcast::<ulong4, double4>(spec_bitcast::<double4, ulong4>(x)) == x,
    {
        lemma_regroup_u16_u64(x.0, 0, 0, 0, 0);
        lemma_regroup_u16_u64(x.1, 0, 0, 0, 0);
        lemma_regroup_u16_u64(x.2, 0, 0, 0, 0);
        lemma_regroup_u16_u64(x.3, 0, 0, 0, 0);
    }
}

} // verus!
