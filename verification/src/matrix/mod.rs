//! The matrix types, one module for each.
pub mod float2x2;
pub mod float2x3;
pub mod float2x4;
pub mod float3x2;
pub mod float3x3;
pub mod float3x4;
pub mod float4x2;
pub mod float4x3;
pub mod float4x4;
