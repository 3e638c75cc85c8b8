//! `double8`: eight lanes of 64-bit floating point, held as bit patterns.

use crate::scalar::lane_u64::{lemma_recast_u64, u64_to_i64};
use crate::scalar::lane_double::{abs_double, copysign_double, lemma_sign_double};
use crate::scalar::regroup::{join_u32_u64, lemma_regroup_u32_u64, split_u64_u32};
use crate::traits::{Bitcast, bitcast, spec_bitcast};
use crate::vector::double4::double4;
use crate::vector::long8::long8;
use crate::vector::uint16::uint16;
use crate::vector::ulong8::ulong8;
use vstd::prelude::*;

verus! {

/// Eight lanes of 64-bit floating point. A lane is held as its IEEE-754 bit pattern, a `u64`, so
/// that the vector can be built, taken apart, blended under a mask and read anew as integers.
/// Floating-point arithmetic on the lanes is no part of this crate.
#[derive(Copy, Clone, Debug)]
pub struct double8(pub u64, pub u64, pub u64, pub u64, pub u64, pub u64, pub u64, pub u64);

impl core::ops::Index<u32> for double8 {
    type Output = u64;

    /// The bit pattern of lane `i`, which is below 8.
    fn index(&self, i: u32) -> (r: &u64)
        ensures
            *r == self.lane(i as int),
    {
        match i {
            0 => &self.0,
            1 => &self.1,
            2 => &self.2,
            3 => &self.3,
            4 => &self.4,
            5 => &self.5,
            6 => &self.6,
            _ => &self.7,
        }
    }
}

impl vstd::std_specs::core::IndexSpecImpl<u32> for double8 {
    open spec fn index_req(&self, i: &u32) -> bool {
        *i < 8
    }
}

impl double8 {
    /// The bit pattern of lane `i`, counted from zero.
    pub open spec fn lane(self, i: int) -> u64
        recommends
            0 <= i < 8,
    {
        if i == 0 {
            self.0
        } else if i == 1 {
            self.1
        } else if i == 2 {
            self.2
        } else if i == 3 {
            self.3
        } else if i == 4 {
            self.4
        } else if i == 5 {
            self.5
        } else if i == 6 {
            self.6
        } else {
            self.7
        }
    }

    /// The magnitude of every lane: the lane with its sign bit cleared.
    pub open spec fn spec_abs(x: double8) -> double8 {
        double8(
            abs_double(x.0), abs_double(x.1), abs_double(x.2), abs_double(x.3), abs_double(x.4),
            abs_double(x.5), abs_double(x.6), abs_double(x.7),
        )
    }

    /// Every lane of `x` with the sign bit of the lane of `y`.
    pub open spec fn spec_copysign(x: double8, y: double8) -> double8 {
        double8(
            copysign_double(x.0, y.0), copysign_double(x.1, y.1), copysign_double(x.2, y.2),
            copysign_double(x.3, y.3), copysign_double(x.4, y.4), copysign_double(x.5, y.5),
            copysign_double(x.6, y.6), copysign_double(x.7, y.7),
        )
    }

    /// The vector of type `double8` with the bits of `x`, a value of a type that has as many bits,
    /// which is one with images of type `uint16`.
    pub fn bitcast<U: Bitcast<Image = uint16>>(x: U) -> (r: double8)
        ensures
            r == spec_bitcast::<U, double8>(x),
    {
        bitcast(x)
    }

    /// The vector with the bit pattern `x` in every lane.
    pub fn broadcast(x: u64) -> (r: double8)
        ensures
            r == double8(x, x, x, x, x, x, x, x),
    {
        double8(x, x, x, x, x, x, x, x)
    }

    /// The bit pattern of lane `i`, which is below 8.
    pub fn extract(self, i: u32) -> (r: u64)
        requires
            i < 8,
        ensures
            r == self.lane(i as int),
    {
        match i {
            0 => self.0,
            1 => self.1,
            2 => self.2,
            3 => self.3,
            4 => self.4,
            5 => self.5,
            6 => self.6,
            _ => self.7,
        }
    }

    /// The vector with the bit pattern `x` in lane `i`, which is below 8, and the other lanes
    /// unchanged.
    pub fn replace(self, i: u32, x: u64) -> (r: double8)
        requires
            i < 8,
        ensures
            forall|j: int| 0 <= j < 8 ==> #[trigger] r.lane(j) == (if j == i {
                x
            } else {
                self.lane(j)
            }),
    {
        match i {
            0 => double8(x, self.1, self.2, self.3, self.4, self.5, self.6, self.7),
            1 => double8(self.0, x, self.2, self.3, self.4, self.5, self.6, self.7),
            2 => double8(self.0, self.1, x, self.3, self.4, self.5, self.6, self.7),
            3 => double8(self.0, self.1, self.2, x, self.4, self.5, self.6, self.7),
            4 => double8(self.0, self.1, self.2, self.3, x, self.5, self.6, self.7),
            5 => double8(self.0, self.1, self.2, self.3, self.4, x, self.6, self.7),
            6 => double8(self.0, self.1, self.2, self.3, self.4, self.5, x, self.7),
            _ => double8(self.0, self.1, self.2, self.3, self.4, self.5, self.6, x),
        }
    }

    /// The magnitude of every lane: the lane with its sign bit cleared.
    pub fn abs(x: double8) -> (r: double8)
        ensures
            r == double8::spec_abs(x),
    {
        double8(
            abs_double(x.0), abs_double(x.1), abs_double(x.2), abs_double(x.3), abs_double(x.4),
            abs_double(x.5), abs_double(x.6), abs_double(x.7),
        )
    }

    /// Every lane of `x` with the sign of the lane of `y`.
    pub fn copysign(x: double8, y: double8) -> (r: double8)
        ensures
            r == double8::spec_copysign(x, y),
    {
        double8(
            copysign_double(x.0, y.0), copysign_double(x.1, y.1), copysign_double(x.2, y.2),
            copysign_double(x.3, y.3), copysign_double(x.4, y.4), copysign_double(x.5, y.5),
            copysign_double(x.6, y.6), copysign_double(x.7, y.7),
        )
    }

    /// The low half: lanes 0 to 3.
    pub fn lo(self) -> (r: double4)
        ensures
            r == double4(self.0, self.1, self.2, self.3),
    {
        double4(self.0, self.1, self.2, self.3)
    }

    /// The high half: lanes 4 to 7.
    pub fn hi(self) -> (r: double4)
        ensures
            r == double4(self.4, self.5, self.6, self.7),
    {
        double4(self.4, self.5, self.6, self.7)
    }

    /// The odd lanes: lanes 1, 3 and so on.
    pub fn odd(self) -> (r: double4)
        ensures
            r == double4(self.1, self.3, self.5, self.7),
    {
        double4(self.1, self.3, self.5, self.7)
    }

    /// The even lanes: lanes 0, 2 and so on.
    pub fn even(self) -> (r: double4)
        ensures
            r == double4(self.0, self.2, self.4, self.6),
    {
        double4(self.0, self.2, self.4, self.6)
    }

    /// The magnitude of a magnitude is that magnitude; a vector with its own signs is itself; and a
    /// vector with the signs of another has the magnitudes that it had.
    pub proof fn lemma_sign(x: double8, y: double8)
        ensures
            double8::spec_abs(double8::spec_abs(x)) == double8::spec_abs(x),
            double8::spec_copysign(x, x) == x,
            double8::spec_abs(double8::spec_copysign(x, y)) == double8::spec_abs(x),
    {
        lemma_sign_double(x.0, y.0);
        lemma_sign_double(x.1, y.1);
        lemma_sign_double(x.2, y.2);
        lemma_sign_double(x.3, y.3);
        lemma_sign_double(x.4, y.4);
        lemma_sign_double(x.5, y.5);
        lemma_sign_double(x.6, y.6);
        lemma_sign_double(x.7, y.7);
    }
}

impl Bitcast for double8 {
    type Image = uint16;

    open spec fn spec_image(self) -> uint16 {
        let d0 = split_u64_u32(self.0);
        let d1 = split_u64_u32(self.1);
        let d2 = split_u64_u32(self.2);
        let d3 = split_u64_u32(self.3);
        let d4 = split_u64_u32(self.4);
        let d5 = split_u64_u32(self.5);
        let d6 = split_u64_u32(self.6);
        let d7 = split_u64_u32(self.7);
        uint16(
            d0.0, d0.1, d1.0, d1.1, d2.0, d2.1, d3.0, d3.1, d4.0, d4.1, d5.0, d5.1, d6.0, d6.1,
            d7.0, d7.1,
        )
    }

    open spec fn spec_from_image(image: uint16) -> double8 {
        double8(
            join_u32_u64(image.0, image.1), join_u32_u64(image.2, image.3),
            join_u32_u64(image.4, image.5), join_u32_u64(image.6, image.7),
            join_u32_u64(image.8, image.9), join_u32_u64(image.10, image.11),
            join_u32_u64(image.12, image.13), join_u32_u64(image.14, image.15),
        )
    }

    open spec fn spec_fills() -> bool {
        true
    }

    fn image(self) -> (r: uint16) {
        let d0 = split_u64_u32(self.0);
        let d1 = split_u64_u32(self.1);
        let d2 = split_u64_u32(self.2);
        let d3 = split_u64_u32(self.3);
        let d4 = split_u64_u32(self.4);
        let d5 = split_u64_u32(self.5);
        let d6 = split_u64_u32(self.6);
        let d7 = split_u64_u32(self.7);
        uint16(
            d0.0, d0.1, d1.0, d1.1, d2.0, d2.1, d3.0, d3.1, d4.0, d4.1, d5.0, d5.1, d6.0, d6.1,
            d7.0, d7.1,
        )
    }

    fn from_image(image: uint16) -> (r: double8) {
        double8(
            join_u32_u64(image.0, image.1), join_u32_u64(image.2, image.3),
            join_u32_u64(image.4, image.5), join_u32_u64(image.6, image.7),
            join_u32_u64(image.8, image.9), join_u32_u64(image.10, image.11),
            join_u32_u64(image.12, image.13), join_u32_u64(image.14, image.15),
        )
    }

    proof fn lemma_image(x: double8) {
        lemma_regroup_u32_u64(x.0, 0, 0);
        lemma_regroup_u32_u64(x.1, 0, 0);
        lemma_regroup_u32_u64(x.2, 0, 0);
        lemma_regroup_u32_u64(x.3, 0, 0);
        lemma_regroup_u32_u64(x.4, 0, 0);
        lemma_regroup_u32_u64(x.5, 0, 0);
        lemma_regroup_u32_u64(x.6, 0, 0);
        lemma_regroup_u32_u64(x.7, 0, 0);
    }

    proof fn lemma_from_image(image: uint16) {
        lemma_regroup_u32_u64(0, image.0, image.1);
        lemma_regroup_u32_u64(0, image.2, image.3);
        lemma_regroup_u32_u64(0, image.4, image.5);
        lemma_regroup_u32_u64(0, image.6, image.7);
        lemma_regroup_u32_u64(0, image.8, image.9);
        lemma_regroup_u32_u64(0, image.10, image.11);
        lemma_regroup_u32_u64(0, image.12, image.13);
        lemma_regroup_u32_u64(0, image.14, image.15);
    }
}

impl double8 {
    /// Read as `long8`, which has lanes of the same width, a vector keeps the bits of every lane;
    /// read as `double8` again, it is what it was.
    pub proof fn lemma_bitcast_long8(x: double8)
        ensures
            spec_bitcast::<double8, long8>(x) == long8(
                    u64_to_i64(x.0), u64_to_i64(x.1), u64_to_i64(x.2), u64_to_i64(x.3),
                    u64_to_i64(x.4), u64_to_i64(x.5), u64_to_i64(x.6), u64_to_i64(x.7),
                ),
            spec_bitcast::<long8, double8>(spec_bitcast::<double8, long8>(x)) == x,
    {
        lemma_recast_u64(x.0);
        lemma_regroup_u32_u64(x.0, 0, 0);
        lemma_recast_u64(x.1);
        lemma_regroup_u32_u64(x.1, 0, 0);
        lemma_recast_u64(x.2);
        lemma_regroup_u32_u64(x.2, 0, 0);
        lemma_recast_u64(x.3);
        lemma_regroup_u32_u64(x.3, 0, 0);
        lemma_recast_u64(x.4);
        lemma_regroup_u32_u64(x.4, 0, 0);
        lemma_recast_u64(x.5);
        lemma_regroup_u32_u64(x.5, 0, 0);
        lemma_recast_u64(x.6);
        lemma_regroup_u32_u64(x.6, 0, 0);
        lemma_recast_u64(x.7);
        lemma_regroup_u32_u64(x.7, 0, 0);
    }

    /// Read as `ulong8`, which has lanes of the same width, a vector keeps the bits of every lane;
    /// read as `double8` again, it is what it was.
    pub proof fn lemma_bitcast_ulong8(x: double8)
        ensures
            spec_bitcast::<double8, ulong8>(x) == ulong8(x.0, x.1, x.2, x.3, x.4, x.5, x.6, x.7),
            spec_bitcast::<ulong8, double8>(spec_bitcast::<double8, ulong8>(x)) == x,
    {
        lemma_regroup_u32_u64(x.0, 0, 0);
        lemma_regroup_u32_u64(x.1, 0, 0);
        lemma_regroup_u32_u64(x.2, 0, 0);
        lemma_regroup_u32_u64(x.3, 0, 0);
        lemma_regroup_u32_u64(x.4, 0, 0);
        lemma_regroup_u32_u64(x.5, 0, 0);
        lemma_regroup_u32_u64(x.6, 0, 0);
        lemma_regroup_u32_u64(x.7, 0, 0);
    }
}

} // verus!
