//! The kinds of vector: what every integer vector offers, what its bits offer, how a mask
//! blends two vectors, and how a value is read anew as a value of another type.
//!
//! Each method is specified by a specification function of the same trait, which every
//! implementation spells out lane by lane.

use crate::scalar::lane_i16::{i16_to_u16, lemma_recast_i16, max_i16, min_i16};
use crate::scalar::lane_i32::{i32_to_u32, lemma_recast_i32, max_i32, min_i32};
use crate::scalar::lane_i64::{i64_to_u64, lemma_recast_i64, max_i64, min_i64};
use crate::scalar::lane_i8::{max_i8, min_i8};
use crate::scalar::lane_u16::{lemma_recast_u16, max_u16, min_u16, u16_to_i16};
use crate::scalar::lane_u32::{lemma_recast_u32, max_u32, min_u32, u32_to_i32};
use crate::scalar::lane_u64::{lemma_recast_u64, max_u64, min_u64, u64_to_i64};
use crate::scalar::lane_u8::{max_u8, min_u8};
use crate::scalar::regroup::{
    join_u8_u16, join_u8_u32, join_u8_u64, lemma_regroup_u8_u16, lemma_regroup_u8_u32,
    lemma_regroup_u8_u64, split_u16_u8, split_u32_u8, split_u64_u8,
};
use crate::vector::uchar2::uchar2;
use crate::vector::uchar4::uchar4;
use crate::vector::uchar8::uchar8;
use vstd::prelude::*;

verus! {

/// A scalar that can be the lane of a vector.
pub trait Scalar: Copy + Sized {
    /// The greater of `x` and `y`.
    spec fn spec_max(x: Self, y: Self) -> Self;

    /// The smaller of `x` and `y`.
    spec fn spec_min(x: Self, y: Self) -> Self;

    /// The greater of `x` and `y`.
    fn max(x: Self, y: Self) -> (r: Self)
        ensures
            r == Self::spec_max(x, y),
    ;

    /// The smaller of `x` and `y`.
    fn min(x: Self, y: Self) -> (r: Self)
        ensures
            r == Self::spec_min(x, y),
    ;
}

/// An integer scalar, which has a zero.
pub trait IntegerScalar: Scalar {
    /// The zero of the type.
    spec fn spec_zero() -> Self;

    /// The zero of the type.
    fn zero() -> (r: Self)
        ensures
            r == Self::spec_zero(),
    ;
}

/// A vector of integer lanes: lane-wise magnitude and order, reductions over the lanes, and
/// saturating conversion to every integer kind of the same width.
pub trait Vector: Copy + Sized {
    /// The type of a lane.
    type Scalar;

    /// The mask vector that comparisons of this vector give.
    type Boolean;

    type CharVector;

    type ShortVector;

    type IntVector;

    type LongVector;

    type UCharVector;

    type UShortVector;

    type UIntVector;

    type ULongVector;

    type FloatVector;

    type DoubleVector;

    spec fn spec_abs(self) -> Self;

    spec fn spec_max(self, other: Self) -> Self;

    spec fn spec_min(self, other: Self) -> Self;

    spec fn spec_clamp(self, lo: Self, hi: Self) -> Self;

    spec fn spec_reduce_add(self) -> Self::Scalar;

    spec fn spec_reduce_min(self) -> Self::Scalar;

    spec fn spec_reduce_max(self) -> Self::Scalar;

    spec fn spec_to_char_sat(self) -> Self::CharVector;

    spec fn spec_to_uchar_sat(self) -> Self::UCharVector;

    spec fn spec_to_short_sat(self) -> Self::ShortVector;

    spec fn spec_to_ushort_sat(self) -> Self::UShortVector;

    spec fn spec_to_int_sat(self) -> Self::IntVector;

    spec fn spec_to_uint_sat(self) -> Self::UIntVector;

    spec fn spec_to_long_sat(self) -> Self::LongVector;

    spec fn spec_to_ulong_sat(self) -> Self::ULongVector;

    /// The magnitude of every lane.
    fn abs(self) -> (r: Self)
        ensures
            r == self.spec_abs(),
    ;

    /// The greater lane of the two vectors, lane by lane.
    fn max(self, other: Self) -> (r: Self)
        ensures
            r == self.spec_max(other),
    ;

    /// The smaller lane of the two vectors, lane by lane.
    fn min(self, other: Self) -> (r: Self)
        ensures
            r == self.spec_min(other),
    ;

    /// Every lane raised to at least the lane of `lo`, then lowered to at most that of `hi`.
    fn clamp(self, lo: Self, hi: Self) -> (r: Self)
        ensures
            r == self.spec_clamp(lo, hi),
    ;

    /// The sum of the lanes, wrapping around.
    fn reduce_add(self) -> (r: Self::Scalar)
        ensures
            r == self.spec_reduce_add(),
    ;

    /// The smallest lane.
    fn reduce_min(self) -> (r: Self::Scalar)
        ensures
            r == self.spec_reduce_min(),
    ;

    /// The greatest lane.
    fn reduce_max(self) -> (r: Self::Scalar)
        ensures
            r == self.spec_reduce_max(),
    ;

    /// Every lane as `i8`, saturating at the bounds of `i8`.
    fn to_char_sat(self) -> (r: Self::CharVector)
        ensures
            r == self.spec_to_char_sat(),
    ;

    /// Every lane as `u8`, saturating at the bounds of `u8`.
    fn to_uchar_sat(self) -> (r: Self::UCharVector)
        ensures
            r == self.spec_to_uchar_sat(),
    ;

    /// Every lane as `i16`, saturating at the bounds of `i16`.
    fn to_short_sat(self) -> (r: Self::ShortVector)
        ensures
            r == self.spec_to_short_sat(),
    ;

    /// Every lane as `u16`, saturating at the bounds of `u16`.
    fn to_ushort_sat(self) -> (r: Self::UShortVector)
        ensures
            r == self.spec_to_ushort_sat(),
    ;

    /// Every lane as `i32`, saturating at the bounds of `i32`.
    fn to_int_sat(self) -> (r: Self::IntVector)
        ensures
            r == self.spec_to_int_sat(),
    ;

    /// Every lane as `u32`, saturating at the bounds of `u32`.
    fn to_uint_sat(self) -> (r: Self::UIntVector)
        ensures
            r == self.spec_to_uint_sat(),
    ;

    /// Every lane as `i64`, saturating at the bounds of `i64`.
    fn to_long_sat(self) -> (r: Self::LongVector)
        ensures
            r == self.spec_to_long_sat(),
    ;

    /// Every lane as `u64`, saturating at the bounds of `u64`.
    fn to_ulong_sat(self) -> (r: Self::ULongVector)
        ensures
            r == self.spec_to_ulong_sat(),
    ;
}

/// What the bits of an integer vector offer: bitwise reductions, and the truth of a vector
/// that is read as a mask, where a lane is true when its top bit is set.
pub trait Integer: Vector {
    spec fn spec_reduce_and(self) -> Self::Scalar;

    spec fn spec_reduce_or(self) -> Self::Scalar;

    spec fn spec_reduce_xor(self) -> Self::Scalar;

    spec fn spec_all(self) -> bool;

    spec fn spec_any(self) -> bool;

    /// The conjunction of the lanes, bit by bit.
    fn reduce_and(self) -> (r: Self::Scalar)
        ensures
            r == self.spec_reduce_and(),
    ;

    /// The disjunction of the lanes, bit by bit.
    fn reduce_or(self) -> (r: Self::Scalar)
        ensures
            r == self.spec_reduce_or(),
    ;

    /// The exclusive disjunction of the lanes, bit by bit.
    fn reduce_xor(self) -> (r: Self::Scalar)
        ensures
            r == self.spec_reduce_xor(),
    ;

    /// Whether every lane is true.
    fn all(self) -> (r: bool)
        ensures
            r == self.spec_all(),
    ;

    /// Whether some lane is true.
    fn any(self) -> (r: bool)
        ensures
            r == self.spec_any(),
    ;
}

/// The dot product with a vector of the same type.
pub trait Dot<Rhs = Self>: Sized {
    type DotProduct;

    spec fn spec_dot(self, other: Rhs) -> Self::DotProduct;

    /// The sum of the lane-wise products, wrapping around.
    fn dot(self, other: Rhs) -> (r: Self::DotProduct)
        ensures
            r == self.spec_dot(other),
    ;
}

/// A mask that blends two vectors of type `V`, whose lanes are as wide as its own.
pub trait Select<V>: Sized {
    spec fn spec_select(self, a: V, b: V) -> V;

    spec fn spec_bitselect(self, a: V, b: V) -> V;

    /// Lane by lane, the lane of `b` where the mask's lane is true (its sign bit is set) and
    /// the lane of `a` where it is not.
    fn select(self, a: V, b: V) -> (r: V)
        ensures
            r == self.spec_select(a, b),
    ;

    /// Bit by bit, the bit of `b` where the mask has a one and the bit of `a` where it has a
    /// zero.
    fn bitselect(self, a: V, b: V) -> (r: V)
        ensures
            r == self.spec_bitselect(a, b),
    ;
}

/// A value that can be read anew, bit for bit, as a value of another type that has as many
/// bits. What is read goes by the image of the value: the vector of unsigned lanes that holds
/// the same bits in the same order, the low byte of a lane first. Types of one size have one
/// type of image, and only they.
pub trait Bitcast: Sized {
    /// The type of the image: for a size of up to sixteen bytes the vector of that many bytes,
    /// for a greater size the vector of sixteen unsigned lanes of that size.
    type Image;

    /// The image of the value.
    spec fn spec_image(self) -> Self::Image;

    /// The value with the given image. Where the type has three lanes, what the image holds
    /// in the place of a fourth lane is left out.
    spec fn spec_from_image(image: Self::Image) -> Self;

    /// Whether every image is the image of a value of this type: it is, but for the types of
    /// three lanes.
    spec fn spec_fills() -> bool;

    /// The image of the value. Where the type has three lanes, the image holds zeros in the
    /// place of a fourth lane.
    fn image(self) -> (r: Self::Image)
        ensures
            r == self.spec_image(),
    ;

    /// The value with the given image.
    fn from_image(image: Self::Image) -> (r: Self)
        ensures
            r == Self::spec_from_image(image),
    ;

    /// A value is the value with its own image.
    proof fn lemma_image(x: Self)
        ensures
            Self::spec_from_image(x.spec_image()) == x,
    ;

    /// Where the type fills its images, an image is the image of the value that has it.
    proof fn lemma_from_image(image: Self::Image)
        requires
            Self::spec_fills(),
        ensures
            Self::spec_from_image(image).spec_image() == image,
    ;
}

/// The value of type `T` with the bits of `x`.
pub open spec fn spec_bitcast<U: Bitcast, T: Bitcast<Image = U::Image>>(x: U) -> T {
    T::spec_from_image(x.spec_image())
}

/// The value of type `T` with the bits of `x`, whose type has as many bits as `T`.
pub fn bitcast<U: Bitcast, T: Bitcast<Image = U::Image>>(x: U) -> (r: T)
    ensures
        r == spec_bitcast::<U, T>(x),
{
    T::from_image(x.image())
}

/// Read as a type that fills its images and then as its own type again, a value is what it
/// was.
pub proof fn lemma_bitcast_round_trip<T: Bitcast, U: Bitcast<Image = T::Image>>(x: T)
    requires
        U::spec_fills(),
    ensures
        spec_bitcast::<U, T>(spec_bitcast::<T, U>(x)) == x,
{
    U::lemma_from_image(x.spec_image());
    T::lemma_image(x);
}

/// The magnitude of every lane of `x`.
pub fn abs<V: Vector>(x: V) -> (r: V)
    ensures
        r == x.spec_abs(),
{
    x.abs()
}

/// The greater lane of `x` and `y`, lane by lane.
pub fn max<V: Vector>(x: V, y: V) -> (r: V)
    ensures
        r == x.spec_max(y),
{
    x.max(y)
}

/// The smaller lane of `x` and `y`, lane by lane.
pub fn min<V: Vector>(x: V, y: V) -> (r: V)
    ensures
        r == x.spec_min(y),
{
    x.min(y)
}

/// Every lane of `x` raised to at least the lane of `lo`, then lowered to at most that of
/// `hi`.
pub fn clamp<V: Vector>(x: V, lo: V, hi: V) -> (r: V)
    ensures
        r == x.spec_clamp(lo, hi),
{
    x.clamp(lo, hi)
}

/// The sum of the lanes of `x`, wrapping around.
pub fn reduce_add<V: Vector>(x: V) -> (r: V::Scalar)
    ensures
        r == x.spec_reduce_add(),
{
    x.reduce_add()
}

/// The smallest lane of `x`.
pub fn reduce_min<V: Vector>(x: V) -> (r: V::Scalar)
    ensures
        r == x.spec_reduce_min(),
{
    x.reduce_min()
}

/// The greatest lane of `x`.
pub fn reduce_max<V: Vector>(x: V) -> (r: V::Scalar)
    ensures
        r == x.spec_reduce_max(),
{
    x.reduce_max()
}

/// The dot product of `x` and `y`.
pub fn dot<V: Dot<W>, W>(x: V, y: W) -> (r: V::DotProduct)
    ensures
        r == x.spec_dot(y),
{
    x.dot(y)
}

/// Whether every lane of the mask `x` is true.
pub fn all<V: Integer>(x: V) -> (r: bool)
    ensures
        r == x.spec_all(),
{
    x.all()
}

/// Whether some lane of the mask `x` is true.
pub fn any<V: Integer>(x: V) -> (r: bool)
    ensures
        r == x.spec_any(),
{
    x.any()
}

/// Lane by lane, the lane of `b` where the lane of `mask` is true and the lane of `a` where
/// it is not.
pub fn select<M: Select<V>, V>(mask: M, a: V, b: V) -> (r: V)
    ensures
        r == mask.spec_select(a, b),
{
    mask.select(a, b)
}

/// Bit by bit, the bit of `b` where `mask` has a one and the bit of `a` where it has a zero.
pub fn bitselect<M: Select<V>, V>(mask: M, a: V, b: V) -> (r: V)
    ensures
        r == mask.spec_bitselect(a, b),
{
    mask.bitselect(a, b)
}

impl Scalar for i8 {
    open spec fn spec_max(x: i8, y: i8) -> i8 {
        max_i8(x, y)
    }

    open spec fn spec_min(x: i8, y: i8) -> i8 {
        min_i8(x, y)
    }

    fn max(x: i8, y: i8) -> (r: i8) {
        max_i8(x, y)
    }

    fn min(x: i8, y: i8) -> (r: i8) {
        min_i8(x, y)
    }
}

impl IntegerScalar for i8 {
    open spec fn spec_zero() -> i8 {
        0
    }

    fn zero() -> (r: i8) {
        0
    }
}

impl Scalar for u8 {
    open spec fn spec_max(x: u8, y: u8) -> u8 {
        max_u8(x, y)
    }

    open spec fn spec_min(x: u8, y: u8) -> u8 {
        min_u8(x, y)
    }

    fn max(x: u8, y: u8) -> (r: u8) {
        max_u8(x, y)
    }

    fn min(x: u8, y: u8) -> (r: u8) {
        min_u8(x, y)
    }
}

impl IntegerScalar for u8 {
    open spec fn spec_zero() -> u8 {
        0
    }

    fn zero() -> (r: u8) {
        0
    }
}

impl Scalar for i16 {
    open spec fn spec_max(x: i16, y: i16) -> i16 {
        max_i16(x, y)
    }

    open spec fn spec_min(x: i16, y: i16) -> i16 {
        min_i16(x, y)
    }

    fn max(x: i16, y: i16) -> (r: i16) {
        max_i16(x, y)
    }

    fn min(x: i16, y: i16) -> (r: i16) {
        min_i16(x, y)
    }
}

impl IntegerScalar for i16 {
    open spec fn spec_zero() -> i16 {
        0
    }

    fn zero() -> (r: i16) {
        0
    }
}

impl Scalar for u16 {
    open spec fn spec_max(x: u16, y: u16) -> u16 {
        max_u16(x, y)
    }

    open spec fn spec_min(x: u16, y: u16) -> u16 {
        min_u16(x, y)
    }

    fn max(x: u16, y: u16) -> (r: u16) {
        max_u16(x, y)
    }

    fn min(x: u16, y: u16) -> (r: u16) {
        min_u16(x, y)
    }
}

impl IntegerScalar for u16 {
    open spec fn spec_zero() -> u16 {
        0
    }

    fn zero() -> (r: u16) {
        0
    }
}

impl Scalar for i32 {
    open spec fn spec_max(x: i32, y: i32) -> i32 {
        max_i32(x, y)
    }

    open spec fn spec_min(x: i32, y: i32) -> i32 {
        min_i32(x, y)
    }

    fn max(x: i32, y: i32) -> (r: i32) {
        max_i32(x, y)
    }

    fn min(x: i32, y: i32) -> (r: i32) {
        min_i32(x, y)
    }
}

impl IntegerScalar for i32 {
    open spec fn spec_zero() -> i32 {
        0
    }

    fn zero() -> (r: i32) {
        0
    }
}

impl Scalar for u32 {
    open spec fn spec_max(x: u32, y: u32) -> u32 {
        max_u32(x, y)
    }

    open spec fn spec_min(x: u32, y: u32) -> u32 {
        min_u32(x, y)
    }

    fn max(x: u32, y: u32) -> (r: u32) {
        max_u32(x, y)
    }

    fn min(x: u32, y: u32) -> (r: u32) {
        min_u32(x, y)
    }
}

impl IntegerScalar for u32 {
    open spec fn spec_zero() -> u32 {
        0
    }

    fn zero() -> (r: u32) {
        0
    }
}

impl Scalar for i64 {
    open spec fn spec_max(x: i64, y: i64) -> i64 {
        max_i64(x, y)
    }

    open spec fn spec_min(x: i64, y: i64) -> i64 {
        min_i64(x, y)
    }

    fn max(x: i64, y: i64) -> (r: i64) {
        max_i64(x, y)
    }

    fn min(x: i64, y: i64) -> (r: i64) {
        min_i64(x, y)
    }
}

impl IntegerScalar for i64 {
    open spec fn spec_zero() -> i64 {
        0
    }

    fn zero() -> (r: i64) {
        0
    }
}

impl Scalar for u64 {
    open spec fn spec_max(x: u64, y: u64) -> u64 {
        max_u64(x, y)
    }

    open spec fn spec_min(x: u64, y: u64) -> u64 {
        min_u64(x, y)
    }

    fn max(x: u64, y: u64) -> (r: u64) {
        max_u64(x, y)
    }

    fn min(x: u64, y: u64) -> (r: u64) {
        min_u64(x, y)
    }
}

impl IntegerScalar for u64 {
    open spec fn spec_zero() -> u64 {
        0
    }

    fn zero() -> (r: u64) {
        0
    }
}

impl Bitcast for i16 {
    type Image = uchar2;

    open spec fn spec_image(self) -> uchar2 {
        let d = split_u16_u8(i16_to_u16(self));
        uchar2(d.0, d.1)
    }

    open spec fn spec_from_image(image: uchar2) -> i16 {
        u16_to_i16(join_u8_u16(image.0, image.1))
    }

    open spec fn spec_fills() -> bool {
        true
    }

    fn image(self) -> (r: uchar2) {
        let d = split_u16_u8(i16_to_u16(self));
        uchar2(d.0, d.1)
    }

    fn from_image(image: uchar2) -> (r: i16) {
        u16_to_i16(join_u8_u16(image.0, image.1))
    }

    proof fn lemma_image(x: i16) {
        lemma_recast_i16(x);
        lemma_regroup_u8_u16(i16_to_u16(x), 0, 0);
    }

    proof fn lemma_from_image(image: uchar2) {
        lemma_regroup_u8_u16(0, image.0, image.1);
        lemma_recast_u16(join_u8_u16(image.0, image.1));
    }
}

impl Bitcast for u16 {
    type Image = uchar2;

    open spec fn spec_image(self) -> uchar2 {
        let d = split_u16_u8(self);
        uchar2(d.0, d.1)
    }

    open spec fn spec_from_image(image: uchar2) -> u16 {
        join_u8_u16(image.0, image.1)
    }

    open spec fn spec_fills() -> bool {
        true
    }

    fn image(self) -> (r: uchar2) {
        let d = split_u16_u8(self);
        uchar2(d.0, d.1)
    }

    fn from_image(image: uchar2) -> (r: u16) {
        join_u8_u16(image.0, image.1)
    }

    proof fn lemma_image(x: u16) {
        lemma_regroup_u8_u16(x, 0, 0);
    }

    proof fn lemma_from_image(image: uchar2) {
        lemma_regroup_u8_u16(0, image.0, image.1);
    }
}

impl Bitcast for i32 {
    type Image = uchar4;

    open spec fn spec_image(self) -> uchar4 {
        let d = split_u32_u8(i32_to_u32(self));
        uchar4(d.0, d.1, d.2, d.3)
    }

    open spec fn spec_from_image(image: uchar4) -> i32 {
        u32_to_i32(join_u8_u32(image.0, image.1, image.2, image.3))
    }

    open spec fn spec_fills() -> bool {
        true
    }

    fn image(self) -> (r: uchar4) {
        let d = split_u32_u8(i32_to_u32(self));
        uchar4(d.0, d.1, d.2, d.3)
    }

    fn from_image(image: uchar4) -> (r: i32) {
        u32_to_i32(join_u8_u32(image.0, image.1, image.2, image.3))
    }

    proof fn lemma_image(x: i32) {
        lemma_recast_i32(x);
        lemma_regroup_u8_u32(i32_to_u32(x), 0, 0, 0, 0);
    }

    proof fn lemma_from_image(image: uchar4) {
        lemma_regroup_u8_u32(0, image.0, image.1, image.2, image.3);
        lemma_recast_u32(join_u8_u32(image.0, image.1, image.2, image.3));
    }
}

impl Bitcast for u32 {
    type Image = uchar4;

    open spec fn spec_image(self) -> uchar4 {
        let d = split_u32_u8(self);
        uchar4(d.0, d.1, d.2, d.3)
    }

    open spec fn spec_from_image(image: uchar4) -> u32 {
        join_u8_u32(image.0, image.1, image.2, image.3)
    }

    open spec fn spec_fills() -> bool {
        true
    }

    fn image(self) -> (r: uchar4) {
        let d = split_u32_u8(self);
        uchar4(d.0, d.1, d.2, d.3)
    }

    fn from_image(image: uchar4) -> (r: u32) {
        join_u8_u32(image.0, image.1, image.2, image.3)
    }

    proof fn lemma_image(x: u32) {
        lemma_regroup_u8_u32(x, 0, 0, 0, 0);
    }

    proof fn lemma_from_image(image: uchar4) {
        lemma_regroup_u8_u32(0, image.0, image.1, image.2, image.3);
    }
}

impl Bitcast for i64 {
    type Image = uchar8;

    open spec fn spec_image(self) -> uchar8 {
        let d = split_u64_u8(i64_to_u64(self));
        uchar8(d.0, d.1, d.2, d.3, d.4, d.5, d.6, d.7)
    }

    open spec fn spec_from_image(image: uchar8) -> i64 {
        u64_to_i64(join_u8_u64(image.0, image.1, image.2, image.3, image.4, image.5, image.6, image.7))
    }

    open spec fn spec_fills() -> bool {
        true
    }

    fn image(self) -> (r: uchar8) {
        let d = split_u64_u8(i64_to_u64(self));
        uchar8(d.0, d.1, d.2, d.3, d.4, d.5, d.6, d.7)
    }

    fn from_image(image: uchar8) -> (r: i64) {
        u64_to_i64(join_u8_u64(image.0, image.1, image.2, image.3, image.4, image.5, image.6, image.7))
    }

    proof fn lemma_image(x: i64) {
        lemma_recast_i64(x);
        lemma_regroup_u8_u64(i64_to_u64(x), 0, 0, 0, 0, 0, 0, 0, 0);
    }

    proof fn lemma_from_image(image: uchar8) {
        lemma_regroup_u8_u64(0, image.0, image.1, image.2, image.3, image.4, image.5, image.6, image.7);
        lemma_recast_u64(join_u8_u64(image.0, image.1, image.2, image.3, image.4, image.5, image.6, image.7));
    }
}

impl Bitcast for u64 {
    type Image = uchar8;

    open spec fn spec_image(self) -> uchar8 {
        let d = split_u64_u8(self);
        uchar8(d.0, d.1, d.2, d.3, d.4, d.5, d.6, d.7)
    }

    open spec fn spec_from_image(image: uchar8) -> u64 {
        join_u8_u64(image.0, image.1, image.2, image.3, image.4, image.5, image.6, image.7)
    }

    open spec fn spec_fills() -> bool {
        true
    }

    fn image(self) -> (r: uchar8) {
        let d = split_u64_u8(self);
        uchar8(d.0, d.1, d.2, d.3, d.4, d.5, d.6, d.7)
    }

    fn from_image(image: uchar8) -> (r: u64) {
        join_u8_u64(image.0, image.1, image.2, image.3, image.4, image.5, image.6, image.7)
    }

    proof fn lemma_image(x: u64) {
        lemma_regroup_u8_u64(x, 0, 0, 0, 0, 0, 0, 0, 0);
    }

    proof fn lemma_from_image(image: uchar8) {
        lemma_regroup_u8_u64(0, image.0, image.1, image.2, image.3, image.4, image.5, image.6, image.7);
    }
}

} // verus!
