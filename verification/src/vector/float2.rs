//! `float2`: two lanes of 32-bit floating point, held as bit patterns.

use crate::scalar::lane_u32::{lemma_recast_u32, u32_to_i32};
use crate::scalar::lane_float::{abs_float, copysign_float, lemma_sign_float};
use crate::scalar::regroup::{join_u8_u32, lemma_regroup_u8_u32, split_u32_u8};
use crate::traits::{Bitcast, bitcast, spec_bitcast};
use crate::vector::int2::int2;
use crate::vector::uchar8::uchar8;
use crate::vector::uint2::uint2;
use vstd::prelude::*;

verus! {

/// Two lanes of 32-bit floating point. A lane is held as its IEEE-754 bit pattern, a `u32`, so that
/// the vector can be built, taken apart, blended under a mask and read anew as integers. Floating-
/// point arithmetic on the lanes is no part of this crate.
#[derive(Copy, Clone, Debug)]
pub struct float2(pub u32, pub u32);

impl core::ops::Index<u32> for float2 {
    type Output = u32;

    /// The bit pattern of lane `i`, which is below 2.
    fn index(&self, i: u32) -> (r: &u32)
        ensures
            *r == self.lane(i as int),
    {
        match i {
            0 => &self.0,
            _ => &self.1,
        }
    }
}

impl vstd::std_specs::core::IndexSpecImpl<u32> for float2 {
    open spec fn index_req(&self, i: &u32) -> bool {
        *i < 2
    }
}

impl float2 {
    /// The bit pattern of lane `i`, counted from zero.
    pub open spec fn lane(self, i: int) -> u32
        recommends
            0 <= i < 2,
    {
        if i == 0 {
            self.0
        } else {
            self.1
        }
    }

    /// The magnitude of every lane: the lane with its sign bit cleared.
    pub open spec fn spec_abs(x: float2) -> float2 {
        float2(abs_float(x.0), abs_float(x.1))
    }

    /// Every lane of `x` with the sign bit of the lane of `y`.
    pub open spec fn spec_copysign(x: float2, y: float2) -> float2 {
        float2(copysign_float(x.0, y.0), copysign_float(x.1, y.1))
    }

    /// The vector of type `float2` with the bits of `x`, a value of a type that has as many bits,
    /// which is one with images of type `uchar8`.
    pub fn bitcast<U: Bitcast<Image = uchar8>>(x: U) -> (r: float2)
        ensures
            r == spec_bitcast::<U, float2>(x),
    {
        bitcast(x)
    }

    /// The vector with the bit pattern `x` in every lane.
    pub fn broadcast(x: u32) -> (r: float2)
        ensures
            r == float2(x, x),
    {
        float2(x, x)
    }

    /// The bit pattern of lane `i`, which is below 2.
    pub fn extract(self, i: u32) -> (r: u32)
        requires
            i < 2,
        ensures
            r == self.lane(i as int),
    {
        match i {
            0 => self.0,
            _ => self.1,
        }
    }

    /// The vector with the bit pattern `x` in lane `i`, which is below 2, and the other lanes
    /// unchanged.
    pub fn replace(self, i: u32, x: u32) -> (r: float2)
        requires
            i < 2,
        ensures
            forall|j: int| 0 <= j < 2 ==> #[trigger] r.lane(j) == (if j == i {
                x
            } else {
                self.lane(j)
            }),
    {
        match i {
            0 => float2(x, self.1),
            _ => float2(self.0, x),
        }
    }

    /// The magnitude of every lane: the lane with its sign bit cleared.
    pub fn abs(x: float2) -> (r: float2)
        ensures
            r == float2::spec_abs(x),
    {
        float2(abs_float(x.0), abs_float(x.1))
    }

    /// Every lane of `x` with the sign of the lane of `y`.
    pub fn copysign(x: float2, y: float2) -> (r: float2)
        ensures
            r == float2::spec_copysign(x, y),
    {
        float2(copysign_float(x.0, y.0), copysign_float(x.1, y.1))
    }

    /// The low half: lane 0.
    pub fn lo(self) -> (r: u32)
        ensures
            r == self.0,
    {
        self.0
    }

    /// The high half: lane 1.
    pub fn hi(self) -> (r: u32)
        ensures
            r == self.1,
    {
        self.1
    }

    /// The odd lane: lane 1.
    pub fn odd(self) -> (r: u32)
        ensures
            r == self.1,
    {
        self.1
    }

    /// The even lane: lane 0.
    pub fn even(self) -> (r: u32)
        ensures
            r == self.0,
    {
        self.0
    }

    /// The magnitude of a magnitude is that magnitude; a vector with its own signs is itself; and a
    /// vector with the signs of another has the magnitudes that it had.
    pub proof fn lemma_sign(x: float2, y: float2)
        ensures
            float2::spec_abs(float2::spec_abs(x)) == float2::spec_abs(x),
            float2::spec_copysign(x, x) == x,
            float2::spec_abs(float2::spec_copysign(x, y)) == float2::spec_abs(x),
    {
        lemma_sign_float(x.0, y.0);
        lemma_sign_float(x.1, y.1);
    }
}

impl Bitcast for float2 {
    type Image = uchar8;

    open spec fn spec_image(self) -> uchar8 {
        let d0 = split_u32_u8(self.0);
        let d1 = split_u32_u8(self.1);
        uchar8(d0.0, d0.1, d0.2, d0.3, d1.0, d1.1, d1.2, d1.3)
    }

    open spec fn spec_from_image(image: uchar8) -> float2 {
        float2(
            join_u8_u32(image.0, image.1, image.2, image.3),
            join_u8_u32(image.4, image.5, image.6, image.7),
        )
    }

    open spec fn spec_fills() -> bool {
        true
    }

    fn image(self) -> (r: uchar8) {
        let d0 = split_u32_u8(self.0);
        let d1 = split_u32_u8(self.1);
        uchar8(d0.0, d0.1, d0.2, d0.3, d1.0, d1.1, d1.2, d1.3)
    }

    fn from_image(image: uchar8) -> (r: float2) {
        float2(
            join_u8_u32(image.0, image.1, image.2, image.3),
            join_u8_u32(image.4, image.5, image.6, image.7),
        )
    }

    proof fn lemma_image(x: float2) {
        lemma_regroup_u8_u32(x.0, 0, 0, 0, 0);
        lemma_regroup_u8_u32(x.1, 0, 0, 0, 0);
    }

    proof fn lemma_from_image(image: uchar8) {
        lemma_regroup_u8_u32(0, image.0, image.1, image.2, image.3);
        lemma_regroup_u8_u32(0, image.4, image.5, image.6, image.7);
    }
}

impl float2 {
    /// Read as `int2`, which has lanes of the same width, a vector keeps the bits of every lane;
    /// read as `float2` again, it is what it was.
    pub proof fn lemma_bitcast_int2(x: float2)
        ensures
            spec_bitcast::<float2, int2>(x) == int2(u32_to_i32(x.0), u32_to_i32(x.1)),
            spec_bitcast::<int2, float2>(spec_bitcast::<float2, int2>(x)) == x,
    {
        lemma_recast_u32(x.0);
        lemma_regroup_u8_u32(x.0, 0, 0, 0, 0);
        lemma_recast_u32(x.1);
        lemma_regroup_u8_u32(x.1, 0, 0, 0, 0);
    }

    /// Read as `uint2`, which has lanes of the same width, a vector keeps the bits of every lane;
    /// read as `float2` again, it is what it was.
    pub proof fn lemma_bitcast_uint2(x: float2)
        ensures
            spec_bitcast::<float2, uint2>(x) == uint2(x.0, x.1),
            spec_bitcast::<uint2, float2>(spec_bitcast::<float2, uint2>(x)) == x,
    {
        lemma_regroup_u8_u32(x.0, 0, 0, 0, 0);
        lemma_regroup_u8_u32(x.1, 0, 0, 0, 0);
    }
}

} // verus!
