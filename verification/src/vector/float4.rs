//! `float4`: four lanes of 32-bit floating point, held as bit patterns.

use crate::scalar::lane_u32::{lemma_recast_u32, u32_to_i32};
use crate::scalar::lane_float::{abs_float, copysign_float, lemma_sign_float};
use crate::scalar::regroup::{join_u8_u32, lemma_regroup_u8_u32, split_u32_u8};
use crate::traits::{Bitcast, bitcast, spec_bitcast};
use crate::vector::float2::float2;
use crate::vector::int4::int4;
use crate::vector::uchar16::uchar16;
use crate::vector::uint4::uint4;
use vstd::prelude::*;

verus! {

/// Four lanes of 32-bit floating point. A lane is held as its IEEE-754 bit pattern, a `u32`, so
/// that the vector can be built, taken apart, blended under a mask and read anew as integers.
/// Floating-point arithmetic on the lanes is no part of this crate.
#[derive(Copy, Clone, Debug)]
pub struct float4(pub u32, pub u32, pub u32, pub u32);

impl core::ops::Index<u32> for float4 {
    type Output = u32;

    /// The bit pattern of lane `i`, which is below 4.
    fn index(&self, i: u32) -> (r: &u32)
        ensures
            *r == self.lane(i as int),
    {
        match i {
            0 => &self.0,
            1 => &self.1,
            2 => &self.2,
            _ => &self.3,
        }
    }
}

impl vstd::std_specs::core::IndexSpecImpl<u32> for float4 {
    open spec fn index_req(&self, i: &u32) -> bool {
        *i < 4
    }
}

impl float4 {
    /// The bit pattern of lane `i`, counted from zero.
    pub open spec fn lane(self, i: int) -> u32
        recommends
            0 <= i < 4,
    {
        if i == 0 {
            self.0
        } else if i == 1 {
            self.1
        } else if i == 2 {
            self.2
        } else {
            self.3
        }
    }

    /// The magnitude of every lane: the lane with its sign bit cleared.
    pub open spec fn spec_abs(x: float4) -> float4 {
        float4(abs_float(x.0), abs_float(x.1), abs_float(x.2), abs_float(x.3))
    }

    /// Every lane of `x` with the sign bit of the lane of `y`.
    pub open spec fn spec_copysign(x: float4, y: float4) -> float4 {
        float4(
            copysign_float(x.0, y.0), copysign_float(x.1, y.1), copysign_float(x.2, y.2),
            copysign_float(x.3, y.3),
        )
    }

    /// The vector of type `float4` with the bits of `x`, a value of a type that has as many bits,
    /// which is one with images of type `uchar16`.
    pub fn bitcast<U: Bitcast<Image = uchar16>>(x: U) -> (r: float4)
        ensures
            r == spec_bitcast::<U, float4>(x),
    {
        bitcast(x)
    }

    /// The vector with the bit pattern `x` in every lane.
    pub fn broadcast(x: u32) -> (r: float4)
        ensures
            r == float4(x, x, x, x),
    {
        float4(x, x, x, x)
    }

    /// The bit pattern of lane `i`, which is below 4.
    pub fn extract(self, i: u32) -> (r: u32)
        requires
            i < 4,
        ensures
            r == self.lane(i as int),
    {
        match i {
            0 => self.0,
            1 => self.1,
            2 => self.2,
            _ => self.3,
        }
    }

    /// The vector with the bit pattern `x` in lane `i`, which is below 4, and the other lanes
    /// unchanged.
    pub fn replace(self, i: u32, x: u32) -> (r: float4)
        requires
            i < 4,
        ensures
            forall|j: int| 0 <= j < 4 ==> #[trigger] r.lane(j) == (if j == i {
                x
            } else {
                self.lane(j)
            }),
    {
        match i {
            0 => float4(x, self.1, self.2, self.3),
            1 => float4(self.0, x, self.2, self.3),
            2 => float4(self.0, self.1, x, self.3),
            _ => float4(self.0, self.1, self.2, x),
        }
    }

    /// The magnitude of every lane: the lane with its sign bit cleared.
    pub fn abs(x: float4) -> (r: float4)
        ensures
            r == float4::spec_abs(x),
    {
        float4(abs_float(x.0), abs_float(x.1), abs_float(x.2), abs_float(x.3))
    }

    /// Every lane of `x` with the sign of the lane of `y`.
    pub fn copysign(x: float4, y: float4) -> (r: float4)
        ensures
            r == float4::spec_copysign(x, y),
    {
        float4(
            copysign_float(x.0, y.0), copysign_float(x.1, y.1), copysign_float(x.2, y.2),
            copysign_float(x.3, y.3),
        )
    }

    /// The low half: lanes 0 to 1.
    pub fn lo(self) -> (r: float2)
        ensures
            r == float2(self.0, self.1),
    {
        float2(self.0, self.1)
    }

    /// The high half: lanes 2 to 3.
    pub fn hi(self) -> (r: float2)
        ensures
            r == float2(self.2, self.3),
    {
        float2(self.2, self.3)
    }

    /// The odd lanes: lanes 1, 3 and so on.
    pub fn odd(self) -> (r: float2)
        ensures
            r == float2(self.1, self.3),
    {
        float2(self.1, self.3)
    }

    /// The even lanes: lanes 0, 2 and so on.
    pub fn even(self) -> (r: float2)
        ensures
            r == float2(self.0, self.2),
    {
        float2(self.0, self.2)
    }

    /// The magnitude of a magnitude is that magnitude; a vector with its own signs is itself; and a
    /// vector with the signs of another has the magnitudes that it had.
    pub proof fn lemma_sign(x: float4, y: float4)
        ensures
            float4::spec_abs(float4::spec_abs(x)) == float4::spec_abs(x),
            float4::spec_copysign(x, x) == x,
            float4::spec_abs(float4::spec_copysign(x, y)) == float4::spec_abs(x),
    {
        lemma_sign_float(x.0, y.0);
        lemma_sign_float(x.1, y.1);
        lemma_sign_float(x.2, y.2);
        lemma_sign_float(x.3, y.3);
    }
}

impl Bitcast for float4 {
    type Image = uchar16;

    open spec fn spec_image(self) -> uchar16 {
        let d0 = split_u32_u8(self.0);
        let d1 = split_u32_u8(self.1);
        let d2 = split_u32_u8(self.2);
        let d3 = split_u32_u8(self.3);
        uchar16(
            d0.0, d0.1, d0.2, d0.3, d1.0, d1.1, d1.2, d1.3, d2.0, d2.1, d2.2, d2.3, d3.0, d3.1,
            d3.2, d3.3,
        )
    }

    open spec fn spec_from_image(image: uchar16) -> float4 {
        float4(
            join_u8_u32(image.0, image.1, image.2, image.3),
            join_u8_u32(image.4, image.5, image.6, image.7),
            join_u8_u32(image.8, image.9, image.10, image.11),
            join_u8_u32(image.12, image.13, image.14, image.15),
        )
    }

    open spec fn spec_fills() -> bool {
        true
    }

    fn image(self) -> (r: uchar16) {
        let d0 = split_u32_u8(self.0);
        let d1 = split_u32_u8(self.1);
        let d2 = split_u32_u8(self.2);
        let d3 = split_u32_u8(self.3);
        uchar16(
            d0.0, d0.1, d0.2, d0.3, d1.0, d1.1, d1.2, d1.3, d2.0, d2.1, d2.2, d2.3, d3.0, d3.1,
            d3.2, d3.3,
        )
    }

    fn from_image(image: uchar16) -> (r: float4) {
        float4(
            join_u8_u32(image.0, image.1, image.2, image.3),
            join_u8_u32(image.4, image.5, image.6, image.7),
            join_u8_u32(image.8, image.9, image.10, image.11),
            join_u8_u32(image.12, image.13, image.14, image.15),
        )
    }

    proof fn lemma_image(x: float4) {
        lemma_regroup_u8_u32(x.0, 0, 0, 0, 0);
        lemma_regroup_u8_u32(x.1, 0, 0, 0, 0);
        lemma_regroup_u8_u32(x.2, 0, 0, 0, 0);
        lemma_regroup_u8_u32(x.3, 0, 0, 0, 0);
    }

    proof fn lemma_from_image(image: uchar16) {
        lemma_regroup_u8_u32(0, image.0, image.1, image.2, image.3);
        lemma_regroup_u8_u32(0, image.4, image.5, image.6, image.7);
        lemma_regroup_u8_u32(0, image.8, image.9, image.10, image.11);
        lemma_regroup_u8_u32(0, image.12, image.13, image.14, image.15);
    }
}

impl float4 {
    /// Read as `int4`, which has lanes of the same width, a vector keeps the bits of every lane;
    /// read as `float4` again, it is what it was.
    pub proof fn lemma_bitcast_int4(x: float4)
        ensures
            spec_bitcast::<float4, int4>(x)
                == int4(u32_to_i32(x.0), u32_to_i32(x.1), u32_to_i32(x.2), u32_to_i32(x.3)),
            spec_bitcast::<int4, float4>(spec_bitcast::<float4, int4>(x)) == x,
    {
        lemma_recast_u32(x.0);
        lemma_regroup_u8_u32(x.0, 0, 0, 0, 0);
        lemma_recast_u32(x.1);
        lemma_regroup_u8_u32(x.1, 0, 0, 0, 0);
        lemma_recast_u32(x.2);
        lemma_regroup_u8_u32(x.2, 0, 0, 0, 0);
        lemma_recast_u32(x.3);
        lemma_regroup_u8_u32(x.3, 0, 0, 0, 0);
    }

    /// Read as `uint4`, which has lanes of the same width, a vector keeps the bits of every lane;
    /// read as `float4` again, it is what it was.
    pub proof fn lemma_bitcast_uint4(x: float4)
        ensures
            spec_bitcast::<float4, uint4>(x) == uint4(x.0, x.1, x.2, x.3),
            spec_bitcast::<uint4, float4>(spec_bitcast::<float4, uint4>(x)) == x,
    {
        lemma_regroup_u8_u32(x.0, 0, 0, 0, 0);
        lemma_regroup_u8_u32(x.1, 0, 0, 0, 0);
        lemma_regroup_u8_u32(x.2, 0, 0, 0, 0);
        lemma_regroup_u8_u32(x.3, 0, 0, 0, 0);
    }
}

} // verus!
