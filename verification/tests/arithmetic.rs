// The lane-wise operators.
use simd::{char4, int2, int3, int4, long2, long4, short4, uchar4, uint3, uint4, ulong2, ushort4};

#[test]
fn addition_is_lane_wise() {
    assert_eq!(int3(1, 2, 3) + int3(10, 20, 30), int3(11, 22, 33));
    assert_eq!(ulong2(1, 2) + ulong2(3, 4), ulong2(4, 6));
}

#[test]
fn addition_wraps() {
    assert_eq!(ulong2(u64::MAX, 1) + ulong2(1, 1), ulong2(0, 2));
    assert_eq!(int2(i32::MAX, i32::MIN) + int2(1, -1), int2(i32::MIN, i32::MAX));
    assert_eq!(uchar4(255, 128, 0, 1) + uchar4(1, 128, 0, 255), uchar4(0, 0, 0, 0));
    assert_eq!(char4(127, -128, 0, 1) + char4(1, -1, 0, 1), char4(-128, 127, 0, 2));
}

#[test]
fn subtraction_wraps() {
    assert_eq!(ulong2(0, 5) - ulong2(1, 3), ulong2(u64::MAX, 2));
    assert_eq!(int3(i32::MIN, 0, 7) - int3(1, 1, 7), int3(i32::MAX, -1, 0));
    assert_eq!(ushort4(0, 1, 2, 3) - ushort4(1, 1, 1, 1), ushort4(65535, 0, 1, 2));
}

#[test]
fn multiplication_wraps() {
    assert_eq!(int3(2, -3, 4) * int3(5, 6, -7), int3(10, -18, -28));
    assert_eq!(uint3(0x8000_0000, 3, 0x1_0000) * uint3(2, 5, 0x1_0000), uint3(0, 15, 0));
    assert_eq!(long2(i64::MAX, 2) * long2(2, 3), long2(-2, 6));
    assert_eq!(short4(256, 255, -256, 1) * short4(256, 255, 128, 1), short4(0, -511, -32768, 1));
}

#[test]
fn division_rounds_towards_zero() {
    assert_eq!(int4(7, -7, 7, -7) / int4(2, 2, -2, -2), int4(3, -3, -3, 3));
    assert_eq!(ulong2(7, 9) / ulong2(2, 3), ulong2(3, 3));
    assert_eq!(long2(-9, 1) / long2(4, 5), long2(-2, 0));
}

#[test]
fn division_of_the_least_value_by_minus_one_wraps() {
    assert_eq!(int2(i32::MIN, 6) / int2(-1, -1), int2(i32::MIN, -6));
    assert_eq!(char4(-128, 127, -127, 0) / char4(-1, -1, -1, -1), char4(-128, -127, 127, 0));
    assert_eq!(long2(i64::MIN, i64::MAX) / long2(-1, -1), long2(i64::MIN, -i64::MAX));
}

#[test]
fn bitwise_operators_are_lane_wise() {
    assert_eq!(uint3(0b1100, 0xff, 0) & uint3(0b1010, 0x0f, 7), uint3(0b1000, 0x0f, 0));
    assert_eq!(uint3(0b1100, 0xf0, 0) | uint3(0b1010, 0x0f, 7), uint3(0b1110, 0xff, 7));
    assert_eq!(uint3(0b1100, 0xff, 0) ^ uint3(0b1010, 0x0f, 7), uint3(0b0110, 0xf0, 7));
    assert_eq!(int2(-1, 0) & int2(5, 5), int2(5, 0));
    assert_eq!(int2(-1, 0) | int2(5, 5), int2(-1, 5));
    assert_eq!(int2(-1, 0) ^ int2(5, 5), int2(-6, 5));
}

#[test]
fn not_inverts_every_bit() {
    assert_eq!(!ulong2(0, u64::MAX), ulong2(u64::MAX, 0));
    assert_eq!(!long4(0, -1, 1, i64::MIN), long4(-1, 0, -2, i64::MAX));
    assert_eq!(!uchar4(0x0f, 0xf0, 0xaa, 0x55), uchar4(0xf0, 0x0f, 0x55, 0xaa));
}

#[test]
fn shifts_are_lane_wise() {
    assert_eq!(ulong2(1, 3) << ulong2(4, 63), ulong2(16, 1 << 63));
    assert_eq!(ulong2(16, u64::MAX) >> ulong2(4, 63), ulong2(1, 1));
    assert_eq!(long4(1, -1, 3, -8) << long4(0, 1, 2, 3), long4(1, -2, 12, -64));
    assert_eq!(uchar4(0x81, 0x81, 1, 1) << uchar4(1, 7, 7, 0), uchar4(0x02, 0x80, 0x80, 1));
}

#[test]
fn right_shift_of_signed_lanes_keeps_the_sign() {
    assert_eq!(long4(-8, 8, -1, i64::MIN) >> long4(1, 1, 63, 63), long4(-4, 4, -1, -1));
    assert_eq!(int3(-5, 5, i32::MIN) >> int3(1, 1, 31), int3(-3, 2, -1));
    assert_eq!(char4(-128, 127, -1, 64) >> char4(7, 7, 3, 6), char4(-1, 0, -1, 1));
}

#[test]
fn right_shift_of_unsigned_lanes_fills_with_zeros() {
    assert_eq!(uint4(0x8000_0000, 0xffff_ffff, 8, 1) >> uint4(31, 16, 3, 1), uint4(1, 0xffff, 1, 0));
}

#[test]
fn a_scalar_on_the_right_stands_in_every_lane() {
    let v = ulong2(10, 20);
    assert_eq!(v + 1, ulong2(11, 21));
    assert_eq!(v - 1, ulong2(9, 19));
    assert_eq!(v * 3, ulong2(30, 60));
    assert_eq!(v / 5, ulong2(2, 4));
    assert_eq!(v & 8, ulong2(8, 0));
    assert_eq!(v | 1, ulong2(11, 21));
    assert_eq!(v ^ 2, ulong2(8, 22));
    assert_eq!(v << 2, ulong2(40, 80));
    assert_eq!(v >> 1, ulong2(5, 10));
}

#[test]
fn a_scalar_on_the_left_stands_in_every_lane() {
    let v = ulong2(1, 2);
    assert_eq!(10 + v, ulong2(11, 12));
    assert_eq!(10 - v, ulong2(9, 8));
    assert_eq!(10 * v, ulong2(10, 20));
    assert_eq!(10 / v, ulong2(10, 5));
    assert_eq!(3 & v, ulong2(1, 2));
    assert_eq!(4 | v, ulong2(5, 6));
    assert_eq!(3 ^ v, ulong2(2, 1));
    assert_eq!(1 << v, ulong2(2, 4));
    assert_eq!(16 >> v, ulong2(8, 4));
    let w = long4(0, 1, 2, 3);
    assert_eq!(-8 >> w, long4(-8, -4, -2, -1));
    assert_eq!(1 << w, long4(1, 2, 4, 8));
}

#[test]
fn vectors_are_equal_when_all_lanes_are() {
    assert!(int3(1, 2, 3) == int3(1, 2, 3));
    assert!(int3(1, 2, 3) != int3(1, 2, 4));
    assert!(int3(1, 2, 3) != int3(0, 2, 3));
    assert!(ulong2(0, 0) == ulong2::broadcast(0));
}
