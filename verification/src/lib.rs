//! Fixed-width vectors of 2, 3, 4, 8 and 16 lanes over the integer and floating-point scalar
//! kinds, and matrices of 2 to 4 columns and rows that are made of them.
//!
//! Integer vectors have lane-wise arithmetic, comparisons that give masks, reductions, masked
//! blending, and conversions between the kinds. Their lanes wrap around as the machine's
//! integers do, and every operation is specified against the integer model of
//! [`scalar::model`]. Floating-point vectors and matrices are carried as the bit patterns of
//! their lanes: they are built, taken apart, transposed, blended under a mask, and read anew
//! as values of another type with as many bits.

#![allow(non_camel_case_types)]

pub mod matrix;
pub mod scalar;
pub mod traits;
pub mod vector;

pub use traits::{
    abs, all, any, bitcast, bitselect, clamp, dot, max, min, reduce_add, reduce_max, reduce_min,
    select, spec_bitcast,
    Bitcast, Dot, Integer, IntegerScalar, Scalar, Select, Vector,
};
pub use vector::char2::char2;
pub use vector::char3::char3;
pub use vector::char4::char4;
pub use vector::char8::char8;
pub use vector::char16::char16;
pub use vector::uchar2::uchar2;
pub use vector::uchar3::uchar3;
pub use vector::uchar4::uchar4;
pub use vector::uchar8::uchar8;
pub use vector::uchar16::uchar16;
pub use vector::short2::short2;
pub use vector::short3::short3;
pub use vector::short4::short4;
pub use vector::short8::short8;
pub use vector::short16::short16;
pub use vector::ushort2::ushort2;
pub use vector::ushort3::ushort3;
pub use vector::ushort4::ushort4;
pub use vector::ushort8::ushort8;
pub use vector::ushort16::ushort16;
pub use vector::int2::int2;
pub use vector::int3::int3;
pub use vector::int4::int4;
pub use vector::int8::int8;
pub use vector::int16::int16;
pub use vector::uint2::uint2;
pub use vector::uint3::uint3;
pub use vector::uint4::uint4;
pub use vector::uint8::uint8;
pub use vector::uint16::uint16;
pub use vector::long2::long2;
pub use vector::long3::long3;
pub use vector::long4::long4;
pub use vector::long8::long8;
pub use vector::long16::long16;
pub use vector::ulong2::ulong2;
pub use vector::ulong3::ulong3;
pub use vector::ulong4::ulong4;
pub use vector::ulong8::ulong8;
pub use vector::ulong16::ulong16;
pub use vector::float2::float2;
pub use vector::float3::float3;
pub use vector::float4::float4;
pub use vector::float8::float8;
pub use vector::float16::float16;
pub use vector::double2::double2;
pub use vector::double3::double3;
pub use vector::double4::double4;
pub use vector::double8::double8;
pub use vector::double16::double16;
pub use matrix::float2x2::float2x2;
pub use matrix::float2x3::float2x3;
pub use matrix::float2x4::float2x4;
pub use matrix::float3x2::float3x2;
pub use matrix::float3x3::float3x3;
pub use matrix::float3x4::float3x4;
pub use matrix::float4x2::float4x2;
pub use matrix::float4x3::float4x3;
pub use matrix::float4x4::float4x4;
pub use matrix::double2x2::double2x2;
pub use matrix::double2x3::double2x3;
pub use matrix::double2x4::double2x4;
pub use matrix::double3x2::double3x2;
pub use matrix::double3x3::double3x3;
pub use matrix::double3x4::double3x4;
pub use matrix::double4x2::double4x2;
pub use matrix::double4x3::double4x3;
pub use matrix::double4x4::double4x4;
