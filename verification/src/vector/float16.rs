//! `float16`: sixteen lanes of 32-bit floating point, held as bit patterns.

use crate::scalar::lane_u32::{lemma_recast_u32, u32_to_i32};
use crate::scalar::lane_float::{abs_float, copysign_float, lemma_sign_float};
use crate::traits::{Bitcast, bitcast, spec_bitcast};
use crate::vector::float8::float8;
use crate::vector::int16::int16;
use crate::vector::uint16::uint16;
use vstd::prelude::*;

verus! {

/// Sixteen lanes of 32-bit floating point. A lane is held as its IEEE-754 bit pattern, a `u32`, so
/// that the vector can be built, taken apart, blended under a mask and read anew as integers.
/// Floating-point arithmetic on the lanes is no part of this crate.
#[derive(Copy, Clone, Debug)]
pub struct float16(
    pub u32, pub u32, pub u32, pub u32, pub u32, pub u32, pub u32, pub u32, pub u32, pub u32,
    pub u32, pub u32, pub u32, pub u32, pub u32, pub u32,
);

impl core::ops::Index<u32> for float16 {
    type Output = u32;

    /// The bit pattern of lane `i`, which is below 16.
    fn index(&self, i: u32) -> (r: &u32)
        ensures
            *r == self.lane(i as int),
    {
        match i {
            0 => &self.0,
            1 => &self.1,
            2 => &self.2,
            3 => &self.3,
            4 => &self.4,
            5 => &self.5,
            6 => &self.6,
            7 => &self.7,
            8 => &self.8,
            9 => &self.9,
            10 => &self.10,
            11 => &self.11,
            12 => &self.12,
            13 => &self.13,
            14 => &self.14,
            _ => &self.15,
        }
    }
}

impl vstd::std_specs::core::IndexSpecImpl<u32> for float16 {
    open spec fn index_req(&self, i: &u32) -> bool {
        *i < 16
    }
}

impl float16 {
    /// The bit pattern of lane `i`, counted from zero.
    pub open spec fn lane(self, i: int) -> u32
        recommends
            0 <= i < 16,
    {
        if i == 0 {
            self.0
        } else if i == 1 {
            self.1
        } else if i == 2 {
            self.2
        } else if i == 3 {
            self.3
        } else if i == 4 {
            self.4
        } else if i == 5 {
            self.5
        } else if i == 6 {
            self.6
        } else if i == 7 {
            self.7
        } else if i == 8 {
            self.8
        } else if i == 9 {
            self.9
        } else if i == 10 {
            self.10
        } else if i == 11 {
            self.11
        } else if i == 12 {
            self.12
        } else if i == 13 {
            self.13
        } else if i == 14 {
            self.14
        } else {
            self.15
        }
    }

    /// The magnitude of every lane: the lane with its sign bit cleared.
    pub open spec fn spec_abs(x: float16) -> float16 {
        float16(
            abs_float(x.0), abs_float(x.1), abs_float(x.2), abs_float(x.3), abs_float(x.4),
            abs_float(x.5), abs_float(x.6), abs_float(x.7), abs_float(x.8), abs_float(x.9),
            abs_float(x.10), abs_float(x.11), abs_float(x.12), abs_float(x.13), abs_float(x.14),
            abs_float(x.15),
        )
    }

    /// Every lane of `x` with the sign bit of the lane of `y`.
    pub open spec fn spec_copysign(x: float16, y: float16) -> float16 {
        float16(
            copysign_float(x.0, y.0), copysign_float(x.1, y.1), copysign_float(x.2, y.2),
            copysign_float(x.3, y.3), copysign_float(x.4, y.4), copysign_float(x.5, y.5),
            copysign_float(x.6, y.6), copysign_float(x.7, y.7), copysign_float(x.8, y.8),
            copysign_float(x.9, y.9), copysign_float(x.10, y.10), copysign_float(x.11, y.11),
            copysign_float(x.12, y.12), copysign_float(x.13, y.13), copysign_float(x.14, y.14),
            copysign_float(x.15, y.15),
        )
    }

    /// The vector of type `float16` with the bits of `x`, a value of a type that has as many bits,
    /// which is one with images of type `uint16`.
    pub fn bitcast<U: Bitcast<Image = uint16>>(x: U) -> (r: float16)
        ensures
            r == spec_bitcast::<U, float16>(x),
    {
        bitcast(x)
    }

    /// The vector with the bit pattern `x` in every lane.
    pub fn broadcast(x: u32) -> (r: float16)
        ensures
            r == float16(x, x, x, x, x, x, x, x, x, x, x, x, x, x, x, x),
    {
        float16(x, x, x, x, x, x, x, x, x, x, x, x, x, x, x, x)
    }

    /// The bit pattern of lane `i`, which is below 16.
    pub fn extract(self, i: u32) -> (r: u32)
        requires
            i < 16,
        ensures
            r == self.lane(i as int),
    {
        match i {
            0 => self.0,
            1 => self.1,
            2 => self.2,
            3 => self.3,
            4 => self.4,
            5 => self.5,
            6 => self.6,
            7 => self.7,
            8 => self.8,
            9 => self.9,
            10 => self.10,
            11 => self.11,
            12 => self.12,
            13 => self.13,
            14 => self.14,
            _ => self.15,
        }
    }

    /// The vector with the bit pattern `x` in lane `i`, which is below 16, and the other lanes
    /// unchanged.
    pub fn replace(self, i: u32, x: u32) -> (r: float16)
        requires
            i < 16,
        ensures
            forall|j: int| 0 <= j < 16 ==> #[trigger] r.lane(j) == (if j == i {
                x
            } else {
                self.lane(j)
            }),
    {
        match i {
            0 => float16(
                x, self.1, self.2, self.3, self.4, self.5, self.6, self.7, self.8, self.9, self.10,
                self.11, self.12, self.13, self.14, self.15,
            ),
            1 => float16(
                self.0, x, self.2, self.3, self.4, self.5, self.6, self.7, self.8, self.9, self.10,
                self.11, self.12, self.13, self.14, self.15,
            ),
            2 => float16(
                self.0, self.1, x, self.3, self.4, self.5, self.6, self.7, self.8, self.9, self.10,
                self.11, self.12, self.13, self.14, self.15,
            ),
            3 => float16(
                self.0, self.1, self.2, x, self.4, self.5, self.6, self.7, self.8, self.9, self.10,
                self.11, self.12, self.13, self.14, self.15,
            ),
            4 => float16(
                self.0, self.1, self.2, self.3, x, self.5, self.6, self.7, self.8, self.9, self.10,
                self.11, self.12, self.13, self.14, self.15,
            ),
            5 => float16(
                self.0, self.1, self.2, self.3, self.4, x, self.6, self.7, self.8, self.9, self.10,
                self.11, self.12, self.13, self.14, self.15,
            ),
            6 => float16(
                self.0, self.1, self.2, self.3, self.4, self.5, x, self.7, self.8, self.9, self.10,
                self.11, self.12, self.13, self.14, self.15,
            ),
            7 => float16(
                self.0, self.1, self.2, self.3, self.4, self.5, self.6, x, self.8, self.9, self.10,
                self.11, self.12, self.13, self.14, self.15,
            ),
            8 => float16(
                self.0, self.1, self.2, self.3, self.4, self.5, self.6, self.7, x, self.9, self.10,
                self.11, self.12, self.13, self.14, self.15,
            ),
            9 => float16(
                self.0, self.1, self.2, self.3, self.4, self.5, self.6, self.7, self.8, x, self.10,
                self.11, self.12, self.13, self.14, self.15,
            ),
            10 => float16(
                self.0, self.1, self.2, self.3, self.4, self.5, self.6, self.7, self.8, self.9, x,
                self.11, self.12, self.13, self.14, self.15,
            ),
            11 => float16(
                self.0, self.1, self.2, self.3, self.4, self.5, self.6, self.7, self.8, self.9,
                self.10, x, self.12, self.13, self.14, self.15,
            ),
            12 => float16(
                self.0, self.1, self.2, self.3, self.4, self.5, self.6, self.7, self.8, self.9,
                self.10, self.11, x, self.13, self.14, self.15,
            ),
            13 => float16(
                self.0, self.1, self.2, self.3, self.4, self.5, self.6, self.7, self.8, self.9,
                self.10, self.11, self.12, x, self.14, self.15,
            ),
            14 => float16(
                self.0, self.1, self.2, self.3, self.4, self.5, self.6, self.7, self.8, self.9,
                self.10, self.11, self.12, self.13, x, self.15,
            ),
            _ => float16(
                self.0, self.1, self.2, self.3, self.4, self.5, self.6, self.7, self.8, self.9,
                self.10, self.11, self.12, self.13, self.14, x,
            ),
        }
    }

    /// The magnitude of every lane: the lane with its sign bit cleared.
    pub fn abs(x: float16) -> (r: float16)
        ensures
            r == float16::spec_abs(x),
    {
        float16(
            abs_float(x.0), abs_float(x.1), abs_float(x.2), abs_float(x.3), abs_float(x.4),
            abs_float(x.5), abs_float(x.6), abs_float(x.7), abs_float(x.8), abs_float(x.9),
            abs_float(x.10), abs_float(x.11), abs_float(x.12), abs_float(x.13), abs_float(x.14),
            abs_float(x.15),
        )
    }

    /// Every lane of `x` with the sign of the lane of `y`.
    pub fn copysign(x: float16, y: float16) -> (r: float16)
        ensures
            r == float16::spec_copysign(x, y),
    {
        float16(
            copysign_float(x.0, y.0), copysign_float(x.1, y.1), copysign_float(x.2, y.2),
            copysign_float(x.3, y.3), copysign_float(x.4, y.4), copysign_float(x.5, y.5),
            copysign_float(x.6, y.6), copysign_float(x.7, y.7), copysign_float(x.8, y.8),
            copysign_float(x.9, y.9), copysign_float(x.10, y.10), copysign_float(x.11, y.11),
            copysign_float(x.12, y.12), copysign_float(x.13, y.13), copysign_float(x.14, y.14),
            copysign_float(x.15, y.15),
        )
    }

    /// The low half: lanes 0 to 7.
    pub fn lo(self) -> (r: float8)
        ensures
            r == float8(self.0, self.1, self.2, self.3, self.4, self.5, self.6, self.7),
    {
        float8(self.0, self.1, self.2, self.3, self.4, self.5, self.6, self.7)
    }

    /// The high half: lanes 8 to 15.
    pub fn hi(self) -> (r: float8)
        ensures
            r == float8(self.8, self.9, self.10, self.11, self.12, self.13, self.14, self.15),
    {
        float8(self.8, self.9, self.10, self.11, self.12, self.13, self.14, self.15)
    }

    /// The odd lanes: lanes 1, 3 and so on.
    pub fn odd(self) -> (r: float8)
        ensures
            r == float8(self.1, self.3, self.5, self.7, self.9, self.11, self.13, self.15),
    {
        float8(self.1, self.3, self.5, self.7, self.9, self.11, self.13, self.15)
    }

    /// The even lanes: lanes 0, 2 and so on.
    pub fn even(self) -> (r: float8)
        ensures
            r == float8(self.0, self.2, self.4, self.6, self.8, self.10, self.12, self.14),
    {
        float8(self.0, self.2, self.4, self.6, self.8, self.10, self.12, self.14)
    }

    /// The magnitude of a magnitude is that magnitude; a vector with its own signs is itself; and a
    /// vector with the signs of another has the magnitudes that it had.
    pub proof fn lemma_sign(x: float16, y: float16)
        ensures
            float16::spec_abs(float16::spec_abs(x)) == float16::spec_abs(x),
            float16::spec_copysign(x, x) == x,
            float16::spec_abs(float16::spec_copysign(x, y)) == float16::spec_abs(x),
    {
        lemma_sign_float(x.0, y.0);
        lemma_sign_float(x.1, y.1);
        lemma_sign_float(x.2, y.2);
        lemma_sign_float(x.3, y.3);
        lemma_sign_float(x.4, y.4);
        lemma_sign_float(x.5, y.5);
        lemma_sign_float(x.6, y.6);
        lemma_sign_float(x.7, y.7);
        lemma_sign_float(x.8, y.8);
        lemma_sign_float(x.9, y.9);
        lemma_sign_float(x.10, y.10);
        lemma_sign_float(x.11, y.11);
        lemma_sign_float(x.12, y.12);
        lemma_sign_float(x.13, y.13);
        lemma_sign_float(x.14, y.14);
        lemma_sign_float(x.15, y.15);
    }
}

impl Bitcast for float16 {
    type Image = uint16;

    open spec fn spec_image(self) -> uint16 {
        uint16(
            self.0, self.1, self.2, self.3, self.4, self.5, self.6, self.7, self.8, self.9, self.10,
            self.11, self.12, self.13, self.14, self.15,
        )
    }

    open spec fn spec_from_image(image: uint16) -> float16 {
        float16(
            image.0, image.1, image.2, image.3, image.4, image.5, image.6, image.7, image.8,
            image.9, image.10, image.11, image.12, image.13, image.14, image.15,
        )
    }

    open spec fn spec_fills() -> bool {
        true
    }

    fn image(self) -> (r: uint16) {
        uint16(
            self.0, self.1, self.2, self.3, self.4, self.5, self.6, self.7, self.8, self.9, self.10,
            self.11, self.12, self.13, self.14, self.15,
        )
    }

    fn from_image(image: uint16) -> (r: float16) {
        float16(
            image.0, image.1, image.2, image.3, image.4, image.5, image.6, image.7, image.8,
            image.9, image.10, image.11, image.12, image.13, image.14, image.15,
        )
    }

    proof fn lemma_image(x: float16) {

    }

    proof fn lemma_from_image(image: uint16) {
    }
}

impl float16 {
    /// Read as `int16`, which has lanes of the same width, a vector keeps the bits of every lane;
    /// read as `float16` again, it is what it was.
    pub proof fn lemma_bitcast_int16(x: float16)
        ensures
            spec_bitcast::<float16, int16>(x) == int16(
                    u32_to_i32(x.0), u32_to_i32(x.1), u32_to_i32(x.2), u32_to_i32(x.3),
                    u32_to_i32(x.4), u32_to_i32(x.5), u32_to_i32(x.6), u32_to_i32(x.7),
                    u32_to_i32(x.8), u32_to_i32(x.9), u32_to_i32(x.10), u32_to_i32(x.11),
                    u32_to_i32(x.12), u32_to_i32(x.13), u32_to_i32(x.14), u32_to_i32(x.15),
                ),
            spec_bitcast::<int16, float16>(spec_bitcast::<float16, int16>(x)) == x,
    {
        lemma_recast_u32(x.0);
        lemma_recast_u32(x.1);
        lemma_recast_u32(x.2);
        lemma_recast_u32(x.3);
        lemma_recast_u32(x.4);
        lemma_recast_u32(x.5);
        lemma_recast_u32(x.6);
        lemma_recast_u32(x.7);
        lemma_recast_u32(x.8);
        lemma_recast_u32(x.9);
        lemma_recast_u32(x.10);
        lemma_recast_u32(x.11);
        lemma_recast_u32(x.12);
        lemma_recast_u32(x.13);
        lemma_recast_u32(x.14);
        lemma_recast_u32(x.15);
    }

    /// Read as `uint16`, which has lanes of the same width, a vector keeps the bits of every lane;
    /// read as `float16` again, it is what it was.
    pub proof fn lemma_bitcast_uint16(x: float16)
        ensures
            spec_bitcast::<float16, uint16>(x) == uint16(
                    x.0, x.1, x.2, x.3, x.4, x.5, x.6, x.7, x.8, x.9, x.10, x.11, x.12, x.13, x.14,
                    x.15,
                ),
            spec_bitcast::<uint16, float16>(spec_bitcast::<float16, uint16>(x)) == x,
    {
    }
}

} // verus!
