//! `float8`: eight lanes of 32-bit floating point, held as bit patterns.

use crate::scalar::lane_u32::{lemma_recast_u32, u32_to_i32};
use crate::scalar::lane_float::{abs_float, copysign_float, lemma_sign_float};
use crate::scalar::regroup::{join_u16_u32, lemma_regroup_u16_u32, split_u32_u16};
use crate::traits::{Bitcast, bitcast, spec_bitcast};
use crate::vector::float4::float4;
use crate::vector::int8::int8;
use crate::vector::uint8::uint8;
use crate::vector::ushort16::ushort16;
use vstd::prelude::*;

verus! {

/// Eight lanes of 32-bit floating point. A lane is held as its IEEE-754 bit pattern, a `u32`, so
/// that the vector can be built, taken apart, blended under a mask and read anew as integers.
/// Floating-point arithmetic on the lanes is no part of this crate.
#[derive(Copy, Clone, Debug)]
pub struct float8(pub u32, pub u32, pub u32, pub u32, pub u32, pub u32, pub u32, pub u32);

impl core::ops::Index<u32> for float8 {
    type Output = u32;

    /// The bit pattern of lane `i`, which is below 8.
    fn index(&self, i: u32) -> (r: &u32)
        ensures
            *r == self.lane(i as int),
    {
        match i {
            0 => &self.0,
            1 => &self.1,
            2 => &self.2,
            3 => &self.3,
            4 => &self.4,
            5 => &self.5,
            6 => &self.6,
            _ => &self.7,
        }
    }
}

impl vstd::std_specs::core::IndexSpecImpl<u32> for float8 {
    open spec fn index_req(&self, i: &u32) -> bool {
        *i < 8
    }
}

impl float8 {
    /// The bit pattern of lane `i`, counted from zero.
    pub open spec fn lane(self, i: int) -> u32
        recommends
            0 <= i < 8,
    {
        if i == 0 {
            self.0
        } else if i == 1 {
            self.1
        } else if i == 2 {
            self.2
        } else if i == 3 {
            self.3
        } else if i == 4 {
            self.4
        } else if i == 5 {
            self.5
        } else if i == 6 {
            self.6
        } else {
            self.7
        }
    }

    /// The magnitude of every lane: the lane with its sign bit cleared.
    pub open spec fn spec_abs(x: float8) -> float8 {
        float8(
            abs_float(x.0), abs_float(x.1), abs_float(x.2), abs_float(x.3), abs_float(x.4),
            abs_float(x.5), abs_float(x.6), abs_float(x.7),
        )
    }

    /// Every lane of `x` with the sign bit of the lane of `y`.
    pub open spec fn spec_copysign(x: float8, y: float8) -> float8 {
        float8(
            copysign_float(x.0, y.0), copysign_float(x.1, y.1), copysign_float(x.2, y.2),
            copysign_float(x.3, y.3), copysign_float(x.4, y.4), copysign_float(x.5, y.5),
            copysign_float(x.6, y.6), copysign_float(x.7, y.7),
        )
    }

    /// The vector of type `float8` with the bits of `x`, a value of a type that has as many bits,
    /// which is one with images of type `ushort16`.
    pub fn bitcast<U: Bitcast<Image = ushort16>>(x: U) -> (r: float8)
        ensures
            r == spec_bitcast::<U, float8>(x),
    {
        bitcast(x)
    }

    /// The vector with the bit pattern `x` in every lane.
    pub fn broadcast(x: u32) -> (r: float8)
        ensures
            r == float8(x, x, x, x, x, x, x, x),
    {
        float8(x, x, x, x, x, x, x, x)
    }

    /// The bit pattern of lane `i`, which is below 8.
    pub fn extract(self, i: u32) -> (r: u32)
        requires
            i < 8,
        ensures
            r == self.lane(i as int),
    {
        match i {
            0 => self.0,
            1 => self.1,
            2 => self.2,
            3 => self.3,
            4 => self.4,
            5 => self.5,
            6 => self.6,
            _ => self.7,
        }
    }

    /// The vector with the bit pattern `x` in lane `i`, which is below 8, and the other lanes
    /// unchanged.
    pub fn replace(self, i: u32, x: u32) -> (r: float8)
        requires
            i < 8,
        ensures
            forall|j: int| 0 <= j < 8 ==> #[trigger] r.lane(j) == (if j == i {
                x
            } else {
                self.lane(j)
            }),
    {
        match i {
            0 => float8(x, self.1, self.2, self.3, self.4, self.5, self.6, self.7),
            1 => float8(self.0, x, self.2, self.3, self.4, self.5, self.6, self.7),
            2 => float8(self.0, self.1, x, self.3, self.4, self.5, self.6, self.7),
            3 => float8(self.0, self.1, self.2, x, self.4, self.5, self.6, self.7),
            4 => float8(self.0, self.1, self.2, self.3, x, self.5, self.6, self.7),
            5 => float8(self.0, self.1, self.2, self.3, self.4, x, self.6, self.7),
            6 => float8(self.0, self.1, self.2, self.3, self.4, self.5, x, self.7),
            _ => float8(self.0, self.1, self.2, self.3, self.4, self.5, self.6, x),
        }
    }

    /// The magnitude of every lane: the lane with its sign bit cleared.
    pub fn abs(x: float8) -> (r: float8)
        ensures
            r == float8::spec_abs(x),
    {
        float8(
            abs_float(x.0), abs_float(x.1), abs_float(x.2), abs_float(x.3), abs_float(x.4),
            abs_float(x.5), abs_float(x.6), abs_float(x.7),
        )
    }

    /// Every lane of `x` with the sign of the lane of `y`.
    pub fn copysign(x: float8, y: float8) -> (r: float8)
        ensures
            r == float8::spec_copysign(x, y),
    {
        float8(
            copysign_float(x.0, y.0), copysign_float(x.1, y.1), copysign_float(x.2, y.2),
            copysign_float(x.3, y.3), copysign_float(x.4, y.4), copysign_float(x.5, y.5),
            copysign_float(x.6, y.6), copysign_float(x.7, y.7),
        )
    }

    /// The low half: lanes 0 to 3.
    pub fn lo(self) -> (r: float4)
        ensures
            r == float4(self.0, self.1, self.2, self.3),
    {
        float4(self.0, self.1, self.2, self.3)
    }

    /// The high half: lanes 4 to 7.
    pub fn hi(self) -> (r: float4)
        ensures
            r == float4(self.4, self.5, self.6, self.7),
    {
        float4(self.4, self.5, self.6, self.7)
    }

    /// The odd lanes: lanes 1, 3 and so on.
    pub fn odd(self) -> (r: float4)
        ensures
            r == float4(self.1, self.3, self.5, self.7),
    {
        float4(self.1, self.3, self.5, self.7)
    }

    /// The even lanes: lanes 0, 2 and so on.
    pub fn even(self) -> (r: float4)
        ensures
            r == float4(self.0, self.2, self.4, self.6),
    {
        float4(self.0, self.2, self.4, self.6)
    }

    /// The magnitude of a magnitude is that magnitude; a vector with its own signs is itself; and a
    /// vector with the signs of another has the magnitudes that it had.
    pub proof fn lemma_sign(x: float8, y: float8)
        ensures
            float8::spec_abs(float8::spec_abs(x)) == float8::spec_abs(x),
            float8::spec_copysign(x, x) == x,
            float8::spec_abs(float8::spec_copysign(x, y)) == float8::spec_abs(x),
    {
        lemma_sign_float(x.0, y.0);
        lemma_sign_float(x.1, y.1);
        lemma_sign_float(x.2, y.2);
        lemma_sign_float(x.3, y.3);
        lemma_sign_float(x.4, y.4);
        lemma_sign_float(x.5, y.5);
        lemma_sign_float(x.6, y.6);
        lemma_sign_float(x.7, y.7);
    }
}

impl Bitcast for float8 {
    type Image = ushort16;

    open spec fn spec_image(self) -> ushort16 {
        let d0 = split_u32_u16(self.0);
        let d1 = split_u32_u16(self.1);
        let d2 = split_u32_u16(self.2);
        let d3 = split_u32_u16(self.3);
        let d4 = split_u32_u16(self.4);
        let d5 = split_u32_u16(self.5);
        let d6 = split_u32_u16(self.6);
        let d7 = split_u32_u16(self.7);
        ushort16(
            d0.0, d0.1, d1.0, d1.1, d2.0, d2.1, d3.0, d3.1, d4.0, d4.1, d5.0, d5.1, d6.0, d6.1,
            d7.0, d7.1,
        )
    }

    open spec fn spec_from_image(image: ushort16) -> float8 {
        float8(
            join_u16_u32(image.0, image.1), join_u16_u32(image.2, image.3),
            join_u16_u32(image.4, image.5), join_u16_u32(image.6, image.7),
            join_u16_u32(image.8, image.9), join_u16_u32(image.10, image.11),
            join_u16_u32(image.12, image.13), join_u16_u32(image.14, image.15),
        )
    }

    open spec fn spec_fills() -> bool {
        true
    }

    fn image(self) -> (r: ushort16) {
        let d0 = split_u32_u16(self.0);
        let d1 = split_u32_u16(self.1);
        let d2 = split_u32_u16(self.2);
        let d3 = split_u32_u16(self.3);
        let d4 = split_u32_u16(self.4);
        let d5 = split_u32_u16(self.5);
        let d6 = split_u32_u16(self.6);
        let d7 = split_u32_u16(self.7);
        ushort16(
            d0.0, d0.1, d1.0, d1.1, d2.0, d2.1, d3.0, d3.1, d4.0, d4.1, d5.0, d5.1, d6.0, d6.1,
            d7.0, d7.1,
        )
    }

    fn from_image(image: ushort16) -> (r: float8) {
        float8(
            join_u16_u32(image.0, image.1), join_u16_u32(image.2, image.3),
            join_u16_u32(image.4, image.5), join_u16_u32(image.6, image.7),
            join_u16_u32(image.8, image.9), join_u16_u32(image.10, image.11),
            join_u16_u32(image.12, image.13), join_u16_u32(image.14, image.15),
        )
    }

    proof fn lemma_image(x: float8) {
        lemma_regroup_u16_u32(x.0, 0, 0);
        lemma_regroup_u16_u32(x.1, 0, 0);
        lemma_regroup_u16_u32(x.2, 0, 0);
        lemma_regroup_u16_u32(x.3, 0, 0);
        lemma_regroup_u16_u32(x.4, 0, 0);
        lemma_regroup_u16_u32(x.5, 0, 0);
        lemma_regroup_u16_u32(x.6, 0, 0);
        lemma_regroup_u16_u32(x.7, 0, 0);
    }

    proof fn lemma_from_image(image: ushort16) {
        lemma_regroup_u16_u32(0, image.0, image.1);
        lemma_regroup_u16_u32(0, image.2, image.3);
        lemma_regroup_u16_u32(0, image.4, image.5);
        lemma_regroup_u16_u32(0, image.6, image.7);
        lemma_regroup_u16_u32(0, image.8, image.9);
        lemma_regroup_u16_u32(0, image.10, image.11);
        lemma_regroup_u16_u32(0, image.12, image.13);
        lemma_regroup_u16_u32(0, image.14, image.15);
    }
}

impl float8 {
    /// Read as `int8`, which has lanes of the same width, a vector keeps the bits of every lane;
    /// read as `float8` again, it is what it was.
    pub proof fn lemma_bitcast_int8(x: float8)
        ensures
            spec_bitcast::<float8, int8>(x) == int8(
                    u32_to_i32(x.0), u32_to_i32(x.1), u32_to_i32(x.2), u32_to_i32(x.3),
                    u32_to_i32(x.4), u32_to_i32(x.5), u32_to_i32(x.6), u32_to_i32(x.7),
                ),
            spec_bitcast::<int8, float8>(spec_bitcast::<float8, int8>(x)) == x,
    {
        lemma_recast_u32(x.0);
        lemma_regroup_u16_u32(x.0, 0, 0);
        lemma_recast_u32(x.1);
        lemma_regroup_u16_u32(x.1, 0, 0);
        lemma_recast_u32(x.2);
        lemma_regroup_u16_u32(x.2, 0, 0);
        lemma_recast_u32(x.3);
        lemma_regroup_u16_u32(x.3, 0, 0);
        lemma_recast_u32(x.4);
        lemma_regroup_u16_u32(x.4, 0, 0);
        lemma_recast_u32(x.5);
        lemma_regroup_u16_u32(x.5, 0, 0);
        lemma_recast_u32(x.6);
        lemma_regroup_u16_u32(x.6, 0, 0);
        lemma_recast_u32(x.7);
        lemma_regroup_u16_u32(x.7, 0, 0);
    }

    /// Read as `uint8`, which has lanes of the same width, a vector keeps the bits of every lane;
    /// read as `float8` again, it is what it was.
    pub proof fn lemma_bitcast_uint8(x: float8)
        ensures
            spec_bitcast::<float8, uint8>(x) == uint8(x.0, x.1, x.2, x.3, x.4, x.5, x.6, x.7),
            spec_bitcast::<uint8, float8>(spec_bitcast::<float8, uint8>(x)) == x,
    {
        lemma_regroup_u16_u32(x.0, 0, 0);
        lemma_regroup_u16_u32(x.1, 0, 0);
        lemma_regroup_u16_u32(x.2, 0, 0);
        lemma_regroup_u16_u32(x.3, 0, 0);
        lemma_regroup_u16_u32(x.4, 0, 0);
        lemma_regroup_u16_u32(x.5, 0, 0);
        lemma_regroup_u16_u32(x.6, 0, 0);
        lemma_regroup_u16_u32(x.7, 0, 0);
    }
}

} // verus!
