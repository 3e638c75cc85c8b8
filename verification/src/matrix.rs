//! The matrices: for each floating-point kind, matrices of 2 to 4 columns and 2 to 4 rows,
//! held as columns of vectors.

pub mod float2x2;
pub mod float2x3;
pub mod float2x4;
pub mod float3x2;
pub mod float3x3;
pub mod float3x4;
pub mod float4x2;
pub mod float4x3;
pub mod float4x4;
pub mod double2x2;
pub mod double2x3;
pub mod double2x4;
pub mod double3x2;
pub mod double3x3;
pub mod double3x4;
pub mod double4x2;
pub mod double4x3;
pub mod double4x4;
