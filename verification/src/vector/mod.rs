//! The vector types, one module for each.
pub mod char2;
pub mod char3;
pub mod char4;
pub mod char8;
pub mod double2;
pub mod double3;
pub mod double4;
pub mod double8;
pub mod float2;
pub mod float3;
pub mod float4;
pub mod float8;
pub mod int2;
pub mod int3;
pub mod int4;
pub mod int8;
pub mod long2;
pub mod long3;
pub mod long4;
pub mod long8;
pub mod short2;
pub mod short3;
pub mod short4;
pub mod short8;
pub mod uchar2;
pub mod uchar3;
pub mod uchar4;
pub mod uchar8;
pub mod uint2;
pub mod uint3;
pub mod uint4;
pub mod uint8;
pub mod ulong2;
pub mod ulong3;
pub mod ulong4;
pub mod ulong8;
pub mod ushort2;
pub mod ushort3;
pub mod ushort4;
pub mod ushort8;
