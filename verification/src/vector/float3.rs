//! `float3`: three lanes of 32-bit floating point, held as bit patterns.

use crate::scalar::lane_u32::{lemma_recast_u32, u32_to_i32};
use crate::scalar::lane_float::{abs_float, copysign_float, lemma_sign_float};
use crate::scalar::regroup::{join_u8_u32, lemma_regroup_u8_u32, split_u32_u8};
use crate::traits::{Bitcast, bitcast, spec_bitcast};
use crate::vector::float2::float2;
use crate::vector::int3::int3;
use crate::vector::uchar16::uchar16;
use crate::vector::uint3::uint3;
use vstd::prelude::*;

verus! {

/// Three lanes of 32-bit floating point. A lane is held as its IEEE-754 bit pattern, a `u32`, so
/// that the vector can be built, taken apart, blended under a mask and read anew as integers.
/// Floating-point arithmetic on the lanes is no part of this crate.
#[derive(Copy, Clone, Debug)]
pub struct float3(pub u32, pub u32, pub u32);

impl core::ops::Index<u32> for float3 {
    type Output = u32;

    /// The bit pattern of lane `i`, which is below 3.
    fn index(&self, i: u32) -> (r: &u32)
        ensures
            *r == self.lane(i as int),
    {
        match i {
            0 => &self.0,
            1 => &self.1,
            _ => &self.2,
        }
    }
}

impl vstd::std_specs::core::IndexSpecImpl<u32> for float3 {
    open spec fn index_req(&self, i: &u32) -> bool {
        *i < 3
    }
}

impl float3 {
    /// The bit pattern of lane `i`, counted from zero.
    pub open spec fn lane(self, i: int) -> u32
        recommends
            0 <= i < 3,
    {
        if i == 0 {
            self.0
        } else if i == 1 {
            self.1
        } else {
            self.2
        }
    }

    /// The magnitude of every lane: the lane with its sign bit cleared.
    pub open spec fn spec_abs(x: float3) -> float3 {
        float3(abs_float(x.0), abs_float(x.1), abs_float(x.2))
    }

    /// Every lane of `x` with the sign bit of the lane of `y`.
    pub open spec fn spec_copysign(x: float3, y: float3) -> float3 {
        float3(copysign_float(x.0, y.0), copysign_float(x.1, y.1), copysign_float(x.2, y.2))
    }

    /// The vector of type `float3` with the bits of `x`, a value of a type that has as many bits,
    /// which is one with images of type `uchar16`.
    pub fn bitcast<U: Bitcast<Image = uchar16>>(x: U) -> (r: float3)
        ensures
            r == spec_bitcast::<U, float3>(x),
    {
        bitcast(x)
    }

    /// The vector with the bit pattern `x` in every lane.
    pub fn broadcast(x: u32) -> (r: float3)
        ensures
            r == float3(x, x, x),
    {
        float3(x, x, x)
    }

    /// The bit pattern of lane `i`, which is below 3.
    pub fn extract(self, i: u32) -> (r: u32)
        requires
            i < 3,
        ensures
            r == self.lane(i as int),
    {
        match i {
            0 => self.0,
            1 => self.1,
            _ => self.2,
        }
    }

    /// The vector with the bit pattern `x` in lane `i`, which is below 3, and the other lanes
    /// unchanged.
    pub fn replace(self, i: u32, x: u32) -> (r: float3)
        requires
            i < 3,
        ensures
            forall|j: int| 0 <= j < 3 ==> #[trigger] r.lane(j) == (if j == i {
                x
            } else {
                self.lane(j)
            }),
    {
        match i {
            0 => float3(x, self.1, self.2),
            1 => float3(self.0, x, self.2),
            _ => float3(self.0, self.1, x),
        }
    }

    /// The magnitude of every lane: the lane with its sign bit cleared.
    pub fn abs(x: float3) -> (r: float3)
        ensures
            r == float3::spec_abs(x),
    {
        float3(abs_float(x.0), abs_float(x.1), abs_float(x.2))
    }

    /// Every lane of `x` with the sign of the lane of `y`.
    pub fn copysign(x: float3, y: float3) -> (r: float3)
        ensures
            r == float3::spec_copysign(x, y),
    {
        float3(copysign_float(x.0, y.0), copysign_float(x.1, y.1), copysign_float(x.2, y.2))
    }

    /// The low half: lanes 0 and 1.
    pub fn lo(self) -> (r: float2)
        ensures
            r == float2(self.0, self.1),
    {
        float2(self.0, self.1)
    }

    /// The high half: lane 2, then a zero in place of the lane that is not there.
    pub fn hi(self) -> (r: float2)
        ensures
            r == float2(self.2, 0),
    {
        float2(self.2, 0)
    }

    /// The odd lanes: lane 1, then a zero in place of the lane that is not there.
    pub fn odd(self) -> (r: float2)
        ensures
            r == float2(self.1, 0),
    {
        float2(self.1, 0)
    }

    /// The even lanes: lanes 0 and 2.
    pub fn even(self) -> (r: float2)
        ensures
            r == float2(self.0, self.2),
    {
        float2(self.0, self.2)
    }

    /// The magnitude of a magnitude is that magnitude; a vector with its own signs is itself; and a
    /// vector with the signs of another has the magnitudes that it had.
    pub proof fn lemma_sign(x: float3, y: float3)
        ensures
            float3::spec_abs(float3::spec_abs(x)) == float3::spec_abs(x),
            float3::spec_copysign(x, x) == x,
            float3::spec_abs(float3::spec_copysign(x, y)) == float3::spec_abs(x),
    {
        lemma_sign_float(x.0, y.0);
        lemma_sign_float(x.1, y.1);
        lemma_sign_float(x.2, y.2);
    }
}

impl Bitcast for float3 {
    type Image = uchar16;

    open spec fn spec_image(self) -> uchar16 {
        let d0 = split_u32_u8(self.0);
        let d1 = split_u32_u8(self.1);
        let d2 = split_u32_u8(self.2);
        uchar16(d0.0, d0.1, d0.2, d0.3, d1.0, d1.1, d1.2, d1.3, d2.0, d2.1, d2.2, d2.3, 0, 0, 0, 0)
    }

    open spec fn spec_from_image(image: uchar16) -> float3 {
        float3(
            join_u8_u32(image.0, image.1, image.2, image.3),
            join_u8_u32(image.4, image.5, image.6, image.7),
            join_u8_u32(image.8, image.9, image.10, image.11),
        )
    }

    open spec fn spec_fills() -> bool {
        false
    }

    fn image(self) -> (r: uchar16) {
        let d0 = split_u32_u8(self.0);
        let d1 = split_u32_u8(self.1);
        let d2 = split_u32_u8(self.2);
        uchar16(d0.0, d0.1, d0.2, d0.3, d1.0, d1.1, d1.2, d1.3, d2.0, d2.1, d2.2, d2.3, 0, 0, 0, 0)
    }

    fn from_image(image: uchar16) -> (r: float3) {
        float3(
            join_u8_u32(image.0, image.1, image.2, image.3),
            join_u8_u32(image.4, image.5, image.6, image.7),
            join_u8_u32(image.8, image.9, image.10, image.11),
        )
    }

    proof fn lemma_image(x: float3) {
        lemma_regroup_u8_u32(x.0, 0, 0, 0, 0);
        lemma_regroup_u8_u32(x.1, 0, 0, 0, 0);
        lemma_regroup_u8_u32(x.2, 0, 0, 0, 0);
    }

    proof fn lemma_from_image(image: uchar16) {
    }
}

impl float3 {
    /// Read as `int3`, which has lanes of the same width, a vector keeps the bits of every lane;
    /// read as `float3` again, it is what it was.
    pub proof fn lemma_bitcast_int3(x: float3)
        ensures
            spec_bitcast::<float3, int3>(x)
                == int3(u32_to_i32(x.0), u32_to_i32(x.1), u32_to_i32(x.2)),
            spec_bitcast::<int3, float3>(spec_bitcast::<float3, int3>(x)) == x,
    {
        lemma_recast_u32(x.0);
        lemma_regroup_u8_u32(x.0, 0, 0, 0, 0);
        lemma_recast_u32(x.1);
        lemma_regroup_u8_u32(x.1, 0, 0, 0, 0);
        lemma_recast_u32(x.2);
        lemma_regroup_u8_u32(x.2, 0, 0, 0, 0);
    }

    /// Read as `uint3`, which has lanes of the same width, a vector keeps the bits of every lane;
    /// read as `float3` again, it is what it was.
    pub proof fn lemma_bitcast_uint3(x: float3)
        ensures
            spec_bitcast::<float3, uint3>(x) == uint3(x.0, x.1, x.2),
            spec_bitcast::<uint3, float3>(spec_bitcast::<float3, uint3>(x)) == x,
    {
        lemma_regroup_u8_u32(x.0, 0, 0, 0, 0);
        lemma_regroup_u8_u32(x.1, 0, 0, 0, 0);
        lemma_regroup_u8_u32(x.2, 0, 0, 0, 0);
    }
}

} // verus!
