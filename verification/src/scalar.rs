//! Scalar lanes: the integer model and the lane operations of each scalar kind.

pub mod model;
pub mod lane_i8;
pub mod lane_u8;
pub mod lane_i16;
pub mod lane_u16;
pub mod lane_i32;
pub mod lane_u32;
pub mod lane_i64;
pub mod lane_u64;
pub mod lane_float;
pub mod lane_double;
pub mod regroup;
