//! Vectors of two, three, four or eight lanes and the matrices built of them.
//!
//! A vector holds lanes of one scalar kind: a signed or unsigned integer of
//! 8, 16, 32 or 64 bits, or a number of single or double precision. Its
//! operations work lane by lane; comparisons answer with a mask, a vector of
//! signed lanes that are all ones or all zeros, and a mask selects between
//! two vectors. The contracts speak of a vector through its view, the
//! sequence of its lanes.
//!
//! Numbers are held as their bit patterns. What bits decide is done here:
//! moving lanes, comparing, selecting, changing the sign. The arithmetic on
//! single numbers is handed in by the caller as functions on bit patterns,
//! and the library says in which order and on which lanes it applies them.
pub mod bitcast;
pub mod bits16;
pub mod bits32;
pub mod bits64;
pub mod bits8;
pub mod lanes;
pub mod matrix;
pub mod select;
pub mod vector;

pub use crate::bitcast::Bitcast;
pub use crate::matrix::float2x2::float2x2;
pub use crate::matrix::float2x3::float2x3;
pub use crate::matrix::float2x4::float2x4;
pub use crate::matrix::float3x2::float3x2;
pub use crate::matrix::float3x3::float3x3;
pub use crate::matrix::float3x4::float3x4;
pub use crate::matrix::float4x2::float4x2;
pub use crate::matrix::float4x3::float4x3;
pub use crate::matrix::float4x4::float4x4;
pub use crate::select::Select;
pub use crate::vector::char2::char2;
pub use crate::vector::char3::char3;
pub use crate::vector::char4::char4;
pub use crate::vector::char8::char8;
pub use crate::vector::double2::double2;
pub use crate::vector::double3::double3;
pub use crate::vector::double4::double4;
pub use crate::vector::double8::double8;
pub use crate::vector::float2::float2;
pub use crate::vector::float3::float3;
pub use crate::vector::float4::float4;
pub use crate::vector::float8::float8;
pub use crate::vector::int2::int2;
pub use crate::vector::int3::int3;
pub use crate::vector::int4::int4;
pub use crate::vector::int8::int8;
pub use crate::vector::long2::long2;
pub use crate::vector::long3::long3;
pub use crate::vector::long4::long4;
pub use crate::vector::long8::long8;
pub use crate::vector::short2::short2;
pub use crate::vector::short3::short3;
pub use crate::vector::short4::short4;
pub use crate::vector::short8::short8;
pub use crate::vector::uchar2::uchar2;
pub use crate::vector::uchar3::uchar3;
pub use crate::vector::uchar4::uchar4;
pub use crate::vector::uchar8::uchar8;
pub use crate::vector::uint2::uint2;
pub use crate::vector::uint3::uint3;
pub use crate::vector::uint4::uint4;
pub use crate::vector::uint8::uint8;
pub use crate::vector::ulong2::ulong2;
pub use crate::vector::ulong3::ulong3;
pub use crate::vector::ulong4::ulong4;
pub use crate::vector::ulong8::ulong8;
pub use crate::vector::ushort2::ushort2;
pub use crate::vector::ushort3::ushort3;
pub use crate::vector::ushort4::ushort4;
pub use crate::vector::ushort8::ushort8;
