// Reductions of the lanes to one value, and the dot product.
use simd::{char4, int2, int3, int4, int8, long4, short4, uchar4, uint2, uint3, uint4, ulong2, ulong3};

#[test]
fn reduce_add_sums_the_lanes() {
    assert_eq!(int4(1, 2, 3, 4).reduce_add(), 10);
    assert_eq!(int3(1, 2, 3).reduce_add(), 6);
    assert_eq!(ulong2::reduce_add(ulong2(5, 7)), 12);
    assert_eq!(uint4(1, 2, 3, 4).reduce_add(), 10);
    assert_eq!(long4(-1, -2, -3, -4).reduce_add(), -10);
    assert_eq!(int8(1, 2, 3, 4, 5, 6, 7, 8).reduce_add(), 36);
    assert_eq!(int2(-5, 5).reduce_add(), 0);
}

#[test]
fn reduce_add_wraps() {
    assert_eq!(ulong2(u64::MAX, 2).reduce_add(), 1);
    assert_eq!(int3(i32::MAX, 1, 0).reduce_add(), i32::MIN);
    assert_eq!(uchar4(100, 100, 100, 100).reduce_add(), 144);
    assert_eq!(char4(100, 100, -100, -100).reduce_add(), 0);
    assert_eq!(int4(i32::MAX, i32::MAX, i32::MIN, i32::MIN).reduce_add(), -2);
}

#[test]
fn reduce_min_and_max() {
    assert_eq!(ulong2::reduce_min(ulong2(5, 7)), 5);
    assert_eq!(ulong2::reduce_max(ulong2(5, 7)), 7);
    assert_eq!(ulong2(7, 5).reduce_min(), 5);
    assert_eq!(ulong2(7, 5).reduce_max(), 7);
    assert_eq!(int3(3, -1, 2).reduce_min(), -1);
    assert_eq!(int3(3, -1, 2).reduce_max(), 3);
    assert_eq!(int3(1, 2, -3).reduce_min(), -3);
    assert_eq!(int3(1, 2, 30).reduce_max(), 30);
    assert_eq!(uint4(4, 9, 2, 7).reduce_min(), 2);
    assert_eq!(uint4(4, 9, 2, 7).reduce_max(), 9);
    assert_eq!(long4(i64::MIN, 0, i64::MAX, 1).reduce_min(), i64::MIN);
    assert_eq!(long4(i64::MIN, 0, i64::MAX, 1).reduce_max(), i64::MAX);
    assert_eq!(int8(5, 3, 8, 1, 9, 2, 7, 4).reduce_min(), 1);
    assert_eq!(int8(5, 3, 8, 1, 9, 2, 7, 4).reduce_max(), 9);
    assert_eq!(uint3(0x8000_0000, 1, 2).reduce_max(), 0x8000_0000);
}

#[test]
fn reduce_and_or_xor() {
    assert_eq!(ulong2(0b1100, 0b1010).reduce_and(), 0b1000);
    assert_eq!(ulong2(0b1100, 0b1010).reduce_or(), 0b1110);
    assert_eq!(ulong2(0b1100, 0b1010).reduce_xor(), 0b0110);
    assert_eq!(int3(0b111, 0b110, 0b011).reduce_and(), 0b010);
    assert_eq!(int3(0b100, 0b010, 0b001).reduce_or(), 0b111);
    assert_eq!(int3(0b111, 0b110, 0b011).reduce_xor(), 0b010);
    assert_eq!(uint4(0xff, 0x0f, 0x3c, 0x1e).reduce_and(), 0x0c);
    assert_eq!(uint4(0x01, 0x02, 0x04, 0x08).reduce_or(), 0x0f);
    assert_eq!(uint4(0xff, 0x0f, 0x3c, 0x1e).reduce_xor(), 0xd2);
    assert_eq!(long4(-1, -1, -1, -1).reduce_and(), -1);
    assert_eq!(long4(-1, 0, -1, -1).reduce_and(), 0);
    assert_eq!(short4(1, 1, 1, 1).reduce_xor(), 0);
}

#[test]
fn the_missing_lane_of_three_plays_no_part() {
    assert_eq!(int3(-1, -1, -1).reduce_and(), -1);
    assert_eq!(int3(1, 1, 1).reduce_min(), 1);
    assert_eq!(int3(-1, -2, -3).reduce_max(), -1);
    assert_eq!(ulong3(5, 6, 7).reduce_min(), 5);
    assert!(int3(-1, -1, -1).all());
    assert_eq!(uint3(1, 2, 3).reduce_add(), 6);
}

#[test]
fn dot_product() {
    assert_eq!(int3(1, 2, 3).dot(int3(4, 5, 6)), 32);
    assert_eq!(ulong2(2, 3).dot(ulong2(4, 5)), 23);
    assert_eq!(long4(1, -2, 3, -4).dot(long4(5, 6, 7, 8)), 5 - 12 + 21 - 32);
    assert_eq!(uint2(3, 4).dot(uint2(3, 4)), 25);
    assert_eq!(int4(1, 0, 0, 0).dot(int4(0, 1, 0, 0)), 0);
}

#[test]
fn dot_product_wraps() {
    assert_eq!(uchar4(16, 16, 1, 1).dot(uchar4(16, 16, 1, 1)), 2);
    assert_eq!(ulong2(1 << 63, 3).dot(ulong2(2, 5)), 15);
    assert_eq!(int3(i32::MAX, 1, 0).dot(int3(2, 2, 0)), 0);
}

#[test]
fn dot_product_commutes() {
    let vs = [int3(1, 2, 3), int3(-7, 0, i32::MAX), int3(i32::MIN, -1, 65536)];
    for &a in vs.iter() {
        for &b in vs.iter() {
            assert_eq!(a.dot(b), b.dot(a));
        }
    }
    let us = [ulong2(u64::MAX, 3), ulong2(1 << 40, 1 << 30), ulong2(0, 9)];
    for &a in us.iter() {
        for &b in us.iter() {
            assert_eq!(a.dot(b), b.dot(a));
        }
    }
}
