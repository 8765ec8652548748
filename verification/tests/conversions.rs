// Conversions between the scalar kinds, plain and saturating, and
// reinterpretation of bits.
use simd::{
    char2, char3, char4, char8, double2, float2, float4, int2, int3, int4, long2, long3, long4,
    short2, short3, short4, short8, uchar2, uchar3, uchar4, uchar8, uint2, uint3, uint4, ulong2,
    ulong3, ulong4, ushort2, ushort3, ushort4, Bitcast,
};

#[test]
fn saturation_to_char_at_both_bounds() {
    assert_eq!(int4::broadcast(500).to_char_sat(), char4::broadcast(127));
    assert_eq!(int4::broadcast(-500).to_char_sat(), char4::broadcast(-128));
    assert_eq!(int3::broadcast(500).to_char_sat(), char3::broadcast(127));
    assert_eq!(int3::broadcast(-500).to_char_sat(), char3::broadcast(-128));
}

#[test]
fn saturation_keeps_values_in_range() {
    assert_eq!(int3(-128, 0, 127).to_char_sat(), char3(-128, 0, 127));
    assert_eq!(int3(-129, 1, 128).to_char_sat(), char3(-128, 1, 127));
    assert_eq!(int3(0, 255, 256).to_uchar_sat(), uchar3(0, 255, 255));
    assert_eq!(int3(-1, 1, 254).to_uchar_sat(), uchar3(0, 1, 254));
    assert_eq!(int3(-32769, 32768, 5).to_short_sat(), short3(-32768, 32767, 5));
    assert_eq!(int3(-1, 65536, 65535).to_ushort_sat(), ushort3(0, 65535, 65535));
}

#[test]
fn saturation_of_signed_to_unsigned_floors_at_zero() {
    assert_eq!(int3(-1, 0, i32::MAX).to_uint_sat(), uint3(0, 0, 0x7fff_ffff));
    assert_eq!(int3(i32::MIN, 5, -5).to_ulong_sat(), ulong3(0, 5, 0));
    assert_eq!(long4(-1, 1, i64::MIN, i64::MAX).to_ulong_sat(), ulong4(0, 1, 0, 0x7fff_ffff_ffff_ffff));
    assert_eq!(long4(-1, 1, 1 << 32, (1 << 32) - 1).to_uint_sat(), uint4(0, 1, u32::MAX, u32::MAX));
    assert_eq!(char2(-1, 1).to_ulong_sat(), ulong2(0, 1));
}

#[test]
fn saturation_of_unsigned_lowers_to_the_greatest_value() {
    let v = ulong2(u64::MAX, 5);
    assert_eq!(v.to_char_sat(), char2(127, 5));
    assert_eq!(v.to_uchar_sat(), uchar2(255, 5));
    assert_eq!(v.to_short_sat(), short2(32767, 5));
    assert_eq!(v.to_ushort_sat(), ushort2(65535, 5));
    assert_eq!(v.to_int_sat(), int2(i32::MAX, 5));
    assert_eq!(v.to_uint_sat(), uint2(u32::MAX, 5));
    assert_eq!(v.to_long_sat(), long2(i64::MAX, 5));
    assert_eq!(v.to_ulong_sat(), v);
    assert_eq!(uint4(0x8000_0000, 0x7fff_ffff, 0, 1).to_int_sat(), int4(i32::MAX, i32::MAX, 0, 1));
    assert_eq!(uchar4(128, 127, 255, 0).to_char_sat(), char4(127, 127, 127, 0));
}

#[test]
fn saturation_at_the_exact_bounds_of_the_target() {
    assert_eq!(long4(127, 128, -128, -129).to_char_sat(), char4(127, 127, -128, -128));
    assert_eq!(long4(255, 256, 0, -1).to_uchar_sat(), uchar4(255, 255, 0, 0));
    assert_eq!(long4(32767, 32768, -32768, -32769).to_short_sat(), short4(32767, 32767, -32768, -32768));
    assert_eq!(long4(65535, 65536, 0, -1).to_ushort_sat(), ushort4(65535, 65535, 0, 0));
    let max = i32::MAX as i64;
    let min = i32::MIN as i64;
    assert_eq!(long4(max, max + 1, min, min - 1).to_int_sat(), int4(i32::MAX, i32::MAX, i32::MIN, i32::MIN));
    let umax = u32::MAX as i64;
    assert_eq!(long4(umax, umax + 1, 0, -1).to_uint_sat(), uint4(u32::MAX, u32::MAX, 0, 0));
}

#[test]
fn saturation_to_a_wider_kind_changes_nothing() {
    assert_eq!(int3(i32::MIN, -1, i32::MAX).to_long_sat(), long3(i32::MIN as i64, -1, i32::MAX as i64));
    assert_eq!(uchar4(0, 1, 254, 255).to_short_sat(), short4(0, 1, 254, 255));
    assert_eq!(uchar4(0, 1, 254, 255).to_ushort_sat(), ushort4(0, 1, 254, 255));
    assert_eq!(uchar4(0, 1, 254, 255).to_int_sat(), int4(0, 1, 254, 255));
    assert_eq!(uchar4(0, 1, 254, 255).to_uint_sat(), uint4(0, 1, 254, 255));
    assert_eq!(uchar4(0, 1, 254, 255).to_long_sat(), long4(0, 1, 254, 255));
    assert_eq!(uchar4(0, 1, 254, 255).to_ulong_sat(), ulong4(0, 1, 254, 255));
    assert_eq!(uint3(0, 1, u32::MAX).to_long_sat(), long3(0, 1, 0xffff_ffff));
    assert_eq!(uint3(0, 1, u32::MAX).to_ulong_sat(), ulong3(0, 1, 0xffff_ffff));
}

#[test]
fn saturation_to_the_same_kind_is_the_identity() {
    assert_eq!(int3(i32::MIN, 0, i32::MAX).to_int_sat(), int3(i32::MIN, 0, i32::MAX));
    assert_eq!(long4(i64::MIN, 0, 1, i64::MAX).to_long_sat(), long4(i64::MIN, 0, 1, i64::MAX));
    assert_eq!(uchar4(0, 1, 2, 255).to_uchar_sat(), uchar4(0, 1, 2, 255));
    assert_eq!(uint2(0, u32::MAX).to_uint_sat(), uint2(0, u32::MAX));
}

#[test]
fn plain_conversion_widens_exactly() {
    assert_eq!(int3(-1, 0, i32::MAX).to_long(), long3(-1, 0, 0x7fff_ffff));
    assert_eq!(uint3(1, 2, u32::MAX).to_ulong(), ulong3(1, 2, 0xffff_ffff));
    assert_eq!(uint3(1, 2, u32::MAX).to_long(), long3(1, 2, 0xffff_ffff));
    assert_eq!(char4(-128, -1, 0, 127).to_int(), int4(-128, -1, 0, 127));
}

#[test]
fn plain_conversion_wraps_as_a_cast_does() {
    assert_eq!(int3(-1, 256, 0x1234_5678).to_uchar(), uchar3(255, 0, 0x78));
    assert_eq!(int3(128, -129, 0x1234_5680).to_char(), char3(-128, 127, -128));
    assert_eq!(int3(-1, i32::MIN, 7).to_uint(), uint3(u32::MAX, 0x8000_0000, 7));
    assert_eq!(int3(-1, i32::MIN, 7).to_ulong(), ulong3(u64::MAX, 0xffff_ffff_8000_0000, 7));
    assert_eq!(ulong2(u64::MAX, 1 << 32).to_int(), int2(-1, 0));
    assert_eq!(ulong2(u64::MAX, 0x1_0000_8000).to_short(), short2(-1, -32768));
    assert_eq!(uint2(0x8000_0000, 0xffff_ffff).to_int(), int2(i32::MIN, -1));
}

#[test]
fn widening_then_narrowing_gives_the_vector_back() {
    for v in [int3(i32::MIN, -1, 0), int3(1, 2, i32::MAX), int3(65536, -65536, 7)] {
        assert_eq!(v.to_long().to_int_sat(), v);
    }
    for v in [char4(-128, -1, 0, 127), char4(1, 2, 3, 4)] {
        assert_eq!(v.to_short().to_char_sat(), v);
        assert_eq!(v.to_int().to_char_sat(), v);
        assert_eq!(v.to_long().to_char_sat(), v);
    }
    for v in [uchar4(0, 1, 128, 255), uchar4(9, 8, 7, 6)] {
        assert_eq!(v.to_short().to_uchar_sat(), v);
        assert_eq!(v.to_ushort().to_uchar_sat(), v);
        assert_eq!(v.to_int().to_uchar_sat(), v);
        assert_eq!(v.to_uint().to_uchar_sat(), v);
        assert_eq!(v.to_long().to_uchar_sat(), v);
        assert_eq!(v.to_ulong().to_uchar_sat(), v);
    }
    for v in [uint2(0, u32::MAX), uint2(0x8000_0000, 0x7fff_ffff)] {
        assert_eq!(v.to_long().to_uint_sat(), v);
        assert_eq!(v.to_ulong().to_uint_sat(), v);
    }
}

#[test]
fn widening_a_negative_lane_to_unsigned_does_not_come_back() {
    let v = int2(-1, 1);
    assert_eq!(v.to_ulong(), ulong2(u64::MAX, 1));
    assert_eq!(v.to_ulong().to_int_sat(), int2(i32::MAX, 1));
    let w = int2(0, i32::MAX);
    assert_eq!(w.to_ulong().to_int_sat(), w);
}

#[test]
fn bitcast_keeps_every_bit() {
    assert_eq!(int3::bitcast(uint3(u32::MAX, 0x8000_0000, 7)), int3(-1, i32::MIN, 7));
    assert_eq!(uint3::bitcast(int3(-1, i32::MIN, 7)), uint3(u32::MAX, 0x8000_0000, 7));
    assert_eq!(ulong2::bitcast(long2(-1, i64::MIN)), ulong2(u64::MAX, 1 << 63));
    assert_eq!(long2::bitcast(ulong2(u64::MAX, 1 << 63)), long2(-1, i64::MIN));
    assert_eq!(long4::bitcast(ulong4(1, 2, u64::MAX, 4)), long4(1, 2, -1, 4));
    assert_eq!(uint4::bitcast(int4(-2, 2, 0, i32::MAX)), uint4(0xffff_fffe, 2, 0, 0x7fff_ffff));
    assert_eq!(char2::bitcast(uchar2(255, 128)), char2(-1, -128));
}

#[test]
fn bitcast_of_numbers_gives_their_bit_patterns() {
    let v = float4(1.0f32.to_bits(), (-2.0f32).to_bits(), 0x7fc0_0001, 0x8000_0000);
    assert_eq!(int4::bitcast(v), int4(0x3f80_0000, -0x4000_0000, 0x7fc0_0001, i32::MIN));
    assert_eq!(uint4::bitcast(v), uint4(0x3f80_0000, 0xc000_0000, 0x7fc0_0001, 0x8000_0000));
    let back = float4::bitcast(int4::bitcast(v));
    assert_eq!((back.0, back.1, back.2, back.3), (v.0, v.1, v.2, v.3));
    let w = double2::bitcast(long2(0x3ff0_0000_0000_0000, i64::MIN));
    assert_eq!((f64::from_bits(w.0), w.1), (1.0, (-0.0f64).to_bits()));
}

#[test]
fn bitcast_to_the_same_type_changes_nothing() {
    assert_eq!(int3::bitcast(int3(1, -2, 3)), int3(1, -2, 3));
    assert_eq!(ulong2::bitcast(ulong2(1, 2)), ulong2(1, 2));
}

#[test]
fn bitcast_there_and_back() {
    for v in [int3(0, -1, 1), int3(i32::MIN, i32::MAX, 12345)] {
        assert_eq!(int3::bitcast(uint3::bitcast(v)), v);
        assert_eq!(int3::from_bits(v.to_bits()), v);
    }
}

#[test]
fn the_image_holds_the_lanes_in_order_least_significant_byte_first() {
    assert_eq!(int2(0x0403_0201, -1).image(), [1, 2, 3, 4, 255, 255, 255, 255]);
    assert_eq!(ushort4(0x0102, 0, 0xffff, 0x8000).image(), [2, 1, 0, 0, 255, 255, 0, 0x80]);
    assert_eq!(char2(-1, 1).image(), [255, 1]);
    assert_eq!(
        ulong2(0x0807_0605_0403_0201, 1).image(),
        [1, 2, 3, 4, 5, 6, 7, 8, 1, 0, 0, 0, 0, 0, 0, 0]
    );
    assert_eq!(float2(1.0f32.to_bits(), 0).image(), [0, 0, 0x80, 0x3f, 0, 0, 0, 0]);
}

#[test]
fn the_image_of_three_lanes_ends_in_zero_bytes() {
    assert_eq!(int3(-1, -1, -1).image(), [255, 255, 255, 255, 255, 255, 255, 255, 255, 255, 255, 255, 0, 0, 0, 0]);
    assert_eq!(uchar3(1, 2, 3).image(), [1, 2, 3, 0]);
    assert_eq!(short3(1, 2, 3).image(), [1, 0, 2, 0, 3, 0, 0, 0]);
}

#[test]
fn a_vector_is_put_together_from_its_image() {
    assert_eq!(int2::from_image([1, 2, 3, 4, 255, 255, 255, 255]), int2(0x0403_0201, -1));
    assert_eq!(short3::from_image([1, 0, 2, 0, 3, 0, 9, 9]), short3(1, 2, 3));
    assert_eq!(ulong2::from_image(ulong2(7, u64::MAX - 1).image()), ulong2(7, u64::MAX - 1));
}

#[test]
fn bitcast_between_shapes_of_the_same_size() {
    assert_eq!(long2::bitcast(int4(1, 2, 3, 4)), long2(1 | 2 << 32, 3 | 4 << 32));
    assert_eq!(int4::bitcast(long2(1 | 2 << 32, -1)), int4(1, 2, -1, -1));
    assert_eq!(int4::bitcast(short8(1, 0, 2, 0, -1, -1, 0, i16::MIN)), int4(1, 2, -1, i32::MIN));
    assert_eq!(short2::bitcast(uchar4(0x34, 0x12, 0xff, 0xff)), short2(0x1234, -1));
    assert_eq!(uchar8::bitcast(uint2(0x0403_0201, 0x8000_0000)), uchar8(1, 2, 3, 4, 0, 0, 0, 0x80));
    assert_eq!(char8::bitcast(int2(0x0403_0201, -2)), char8(1, 2, 3, 4, -2, -1, -1, -1));
    let one = 1.0f64.to_bits();
    assert_eq!(uint4::bitcast(double2(one, 0)), uint4(0, 0x3ff0_0000, 0, 0));
    let halves = float4::bitcast(double2(one, one));
    assert_eq!((halves.0, halves.1, halves.2, halves.3), (0, 0x3ff0_0000, 0, 0x3ff0_0000));
}

#[test]
fn bitcast_between_three_and_four_lanes() {
    assert_eq!(int4::bitcast(int3(1, 2, 3)), int4(1, 2, 3, 0));
    assert_eq!(int3::bitcast(int4(1, 2, 3, 4)), int3(1, 2, 3));
    assert_eq!(uint3::bitcast(long2(-1, -1)), uint3(u32::MAX, u32::MAX, u32::MAX));
    assert_eq!(long2::bitcast(uint3(1, 2, 3)), long2(1 | 2 << 32, 3));
}
