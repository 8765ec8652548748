// Comparisons, masks, selection and what is built of them.
use simd::{
    char4, double2, float3, float4, int2, int3, int4, long2, long4, short4, uchar4, uint3, uint4,
    ulong2, ulong4, ushort4, Select,
};

fn f(x: f32) -> u32 {
    x.to_bits()
}

const T: i32 = -1;
const F: i32 = 0;

#[test]
fn comparisons_of_signed_lanes() {
    let a = int4(1, 2, 3, -4);
    let b = int4(1, 3, 2, 4);
    assert_eq!(a.eq(b), int4(T, F, F, F));
    assert_eq!(a.ne(b), int4(F, T, T, T));
    assert_eq!(a.lt(b), int4(F, T, F, T));
    assert_eq!(a.le(b), int4(T, T, F, T));
    assert_eq!(a.gt(b), int4(F, F, T, F));
    assert_eq!(a.ge(b), int4(T, F, T, F));
}

#[test]
fn comparisons_of_unsigned_lanes_give_signed_masks() {
    let a = ulong2(1, u64::MAX);
    let b = ulong2(2, 0);
    assert_eq!(a.eq(b), long2(0, 0));
    assert_eq!(a.ne(b), long2(-1, -1));
    assert_eq!(a.lt(b), long2(-1, 0));
    assert_eq!(a.le(b), long2(-1, 0));
    assert_eq!(a.gt(b), long2(0, -1));
    assert_eq!(a.ge(b), long2(0, -1));
    assert_eq!(uchar4(200, 100, 0, 255).gt(uchar4(100, 200, 0, 254)), char4(-1, 0, 0, -1));
}

#[test]
fn every_lane_of_a_comparison_is_all_ones_or_all_zeros() {
    let xs = [i32::MIN, -2, -1, 0, 1, 2, i32::MAX];
    for &x in xs.iter() {
        for &y in xs.iter() {
            let a = int3(x, y, x);
            let b = int3(y, x, x);
            for m in [a.eq(b), a.ne(b), a.lt(b), a.le(b), a.gt(b), a.ge(b)] {
                for lane in [m.0, m.1, m.2] {
                    assert!(lane == -1 || lane == 0);
                }
            }
        }
    }
    let us = [0u64, 1, 1 << 63, u64::MAX];
    for &x in us.iter() {
        for &y in us.iter() {
            let a = ulong2(x, y);
            let b = ulong2(y, x);
            for m in [a.eq(b), a.ne(b), a.lt(b), a.le(b), a.gt(b), a.ge(b)] {
                for lane in [m.0, m.1] {
                    assert!(lane == -1 || lane == 0);
                }
            }
        }
    }
}

#[test]
fn bitselect_takes_the_second_where_the_mask_is_true() {
    let m = int3(T, F, T);
    assert_eq!(m.bitselect(int3(1, 2, 3), int3(10, 20, 30)), int3(10, 2, 30));
    assert_eq!(m.bitselect(uint3(1, 2, 3), uint3(10, 20, 30)), uint3(10, 2, 30));
    let n = long2(0, -1);
    assert_eq!(n.bitselect(long2(5, 6), long2(-5, -6)), long2(5, -6));
    assert_eq!(n.bitselect(ulong2(5, 6), ulong2(7, 8)), ulong2(5, 8));
    let c = char4(-1, 0, 0, -1);
    assert_eq!(c.bitselect(char4(1, 2, 3, 4), char4(-1, -2, -3, -4)), char4(-1, 2, 3, -4));
    assert_eq!(c.bitselect(uchar4(1, 2, 3, 4), uchar4(5, 6, 7, 8)), uchar4(5, 2, 3, 8));
    let s = short4(0, -1, 0, -1);
    assert_eq!(s.bitselect(short4(1, 2, 3, 4), short4(5, 6, 7, 8)), short4(1, 6, 3, 8));
}

#[test]
fn bitselect_for_every_scalar_kind() {
    // i8 and u8
    let m = char4(-1, 0, -1, 0);
    assert_eq!(m.bitselect(char4(1, 2, 3, 4), char4(5, 6, 7, 8)), char4(5, 2, 7, 4));
    assert_eq!(m.bitselect(uchar4(1, 2, 3, 4), uchar4(5, 6, 7, 8)), uchar4(5, 2, 7, 4));
    // i16 and u16
    let m = short4(-1, 0, -1, 0);
    assert_eq!(m.bitselect(short4(1, 2, 3, 4), short4(5, 6, 7, 8)), short4(5, 2, 7, 4));
    assert_eq!(m.bitselect(ushort4(1, 2, 3, 4), ushort4(5, 6, 7, 8)), ushort4(5, 2, 7, 4));
    // i32, u32 and single precision
    let m = int4(-1, 0, -1, 0);
    assert_eq!(m.bitselect(int4(1, 2, 3, 4), int4(5, 6, 7, 8)), int4(5, 2, 7, 4));
    assert_eq!(m.bitselect(uint4(1, 2, 3, 4), uint4(5, 6, 7, 8)), uint4(5, 2, 7, 4));
    let r = m.bitselect(float4(f(1.0), f(2.0), f(3.0), f(4.0)), float4(f(5.0), f(6.0), f(7.0), f(8.0)));
    assert_eq!((r.0, r.1, r.2, r.3), (f(5.0), f(2.0), f(7.0), f(4.0)));
    // i64, u64 and double precision
    let m = long2(-1, 0);
    assert_eq!(m.bitselect(long2(1, 2), long2(5, 6)), long2(5, 2));
    assert_eq!(m.bitselect(ulong2(1, 2), ulong2(5, 6)), ulong2(5, 2));
    let r = m.bitselect(double2(1.0f64.to_bits(), f64::NAN.to_bits()), double2((-0.0f64).to_bits(), 7));
    assert_eq!((r.0, r.1), ((-0.0f64).to_bits(), f64::NAN.to_bits()));
}

#[test]
fn bitselect_works_bit_by_bit() {
    let m = int2(0x0000_ffff, 0x0f0f_0f0f);
    let a = int2(0x1234_5678, 0x1111_1111);
    let b = int2(0x7bcd_ef01, 0x2222_2222);
    assert_eq!(m.bitselect(a, b), int2(0x1234_ef01, 0x1212_1212));
    assert_eq!(ulong2::bitselect(ulong2(0xf0, 0xff), ulong2(0x0f, 0x00), long2(0x3c, 0x0f)), ulong2(0xcc, 0xf0));
}

#[test]
fn bitselect_with_operands_first() {
    let x = ulong2(1, 2);
    let y = ulong2(3, 4);
    assert_eq!(ulong2::bitselect(x, y, long2(-1, 0)), ulong2(3, 2));
    assert_eq!(ulong2::bitselect(x, y, long2(0, -1)), ulong2(1, 4));
    assert_eq!(uint4::bitselect(uint4(1, 2, 3, 4), uint4(5, 6, 7, 8), int4(T, T, F, F)), uint4(5, 6, 3, 4));
}

#[test]
fn bitselect_keeps_the_bits_of_numbers() {
    let nan_with_payload = 0x7fc1_2345;
    let negative_nan = 0xffff_ffff;
    let a = float3(f(1.0), nan_with_payload, f(-0.0));
    let b = float3(negative_nan, f(2.0), f(0.0));
    let r = int3(T, F, F).bitselect(a, b);
    assert_eq!((r.0, r.1, r.2), (negative_nan, nan_with_payload, f(-0.0)));
    let r = int3(F, T, T).bitselect(a, b);
    assert_eq!((r.0, r.1, r.2), (f(1.0), f(2.0), f(0.0)));
}

#[test]
fn select_goes_by_the_sign_bit() {
    let c = int3(-5, 5, i32::MIN);
    assert_eq!(c.select(int3(1, 2, 3), int3(10, 20, 30)), int3(10, 2, 30));
    assert_eq!(c.select(uint3(1, 2, 3), uint3(10, 20, 30)), uint3(10, 2, 30));
    let r = c.select(float3(f(1.0), f(2.0), f(3.0)), float3(f(-1.0), f(-2.0), f(-3.0)));
    assert_eq!((r.0, r.1, r.2), (f(-1.0), f(2.0), f(-3.0)));
    let d = long4(0, 1, -1, i64::MAX);
    assert_eq!(d.select(ulong4(1, 2, 3, 4), ulong4(5, 6, 7, 8)), ulong4(1, 2, 7, 4));
}

#[test]
fn max_and_min_are_lane_wise() {
    assert_eq!(ulong2(3, 9).max(ulong2(4, 1)), ulong2(4, 9));
    assert_eq!(ulong2(3, 9).min(ulong2(4, 1)), ulong2(3, 1));
    assert_eq!(ulong2::max(ulong2(0, u64::MAX), ulong2(1 << 63, 0)), ulong2(1 << 63, u64::MAX));
    assert_eq!(int3(-1, 5, 0).max(int3(1, -5, 0)), int3(1, 5, 0));
    assert_eq!(int3(-1, 5, 0).min(int3(1, -5, 0)), int3(-1, -5, 0));
    assert_eq!(long4(i64::MIN, 0, 1, 2).max(long4(i64::MAX, -1, 1, 3)), long4(i64::MAX, 0, 1, 3));
    assert_eq!(uchar4(0, 255, 128, 127).min(uchar4(255, 0, 127, 128)), uchar4(0, 0, 127, 127));
}

#[test]
fn clamp_restricts_every_lane() {
    let v = ulong2(5, 50);
    assert_eq!(ulong2::clamp(v, ulong2(10, 10), ulong2(20, 20)), ulong2(10, 20));
    assert_eq!(v.clamp(ulong2(0, 0), ulong2(100, 100)), v);
    let w = int4(-100, -1, 1, 100);
    assert_eq!(w.clamp(int4::broadcast(-10), int4::broadcast(10)), int4(-10, -1, 1, 10));
}

#[test]
fn clamp_with_crossed_bounds_gives_the_upper_bound() {
    assert_eq!(int2(5, 50).clamp(int2(20, 20), int2(10, 10)), int2(10, 10));
}

#[test]
fn abs_of_signed_lanes() {
    assert_eq!(int3(-1, 1, 0).abs(), int3(1, 1, 0));
    assert_eq!(int4(-7, 7, i32::MAX, -i32::MAX).abs(), int4(7, 7, i32::MAX, i32::MAX));
    assert_eq!(long4(-1, -2, 3, -4).abs(), long4(1, 2, 3, 4));
    assert_eq!(char4(-127, 127, -1, 0).abs(), char4(127, 127, 1, 0));
}

#[test]
fn abs_of_the_least_value_is_the_least_value() {
    assert_eq!(int3(i32::MIN, -1, 1).abs(), int3(i32::MIN, 1, 1));
    assert_eq!(long4::broadcast(i64::MIN).abs(), long4::broadcast(i64::MIN));
    assert_eq!(char4::broadcast(-128).abs(), char4::broadcast(-128));
}

#[test]
fn abs_of_unsigned_lanes_changes_nothing() {
    assert_eq!(ulong2(0, u64::MAX).abs(), ulong2(0, u64::MAX));
    assert_eq!(uint3(1, 2, 0x8000_0000).abs(), uint3(1, 2, 0x8000_0000));
    assert_eq!(uchar4(1, 2, 3, 255).abs(), uchar4(1, 2, 3, 255));
}

#[test]
fn all_and_any_test_the_sign_bits() {
    assert!(int3(T, T, T).all());
    assert!(!int3(T, F, T).all());
    assert!(int3(T, F, F).any());
    assert!(int3(F, F, T).any());
    assert!(!int3(F, F, F).any());
    assert!(long4(-1, -2, i64::MIN, -9).all());
    assert!(!long4(-1, -2, i64::MAX, -9).all());
    assert!(!long4(0, 1, i64::MAX, 9).any());
    assert!(long4(0, 1, i64::MIN, 9).any());
}

#[test]
fn all_and_any_on_unsigned_lanes() {
    let top = 0x8000_0000_0000_0000u64;
    assert!(ulong2::all(ulong2(top, u64::MAX)));
    assert!(!ulong2::all(ulong2(top, top - 1)));
    assert!(ulong2::any(ulong2(0, top)));
    assert!(ulong2::any(ulong2(top + 5, 1)));
    assert!(!ulong2::any(ulong2(top - 1, 1)));
    assert!(uint4(0x8000_0000, 0xffff_ffff, 0x8000_0001, 0xc000_0000).all());
    assert!(!uint4(0x8000_0000, 0xffff_ffff, 0x7fff_ffff, 0xc000_0000).all());
    assert!(uint4(0, 0, 0x8000_0000, 0).any());
    assert!(!uint4(0, 1, 0x7fff_ffff, 2).any());
}

#[test]
fn a_vector_equals_itself_in_every_lane() {
    for v in [int3(1, 2, 3), int3(i32::MIN, 0, i32::MAX), int3(-1, -1, -1)] {
        assert!(v.eq(v).all());
        assert!(!v.ne(v).any());
    }
    for v in [ulong2(0, u64::MAX), ulong2(7, 7)] {
        assert!(v.eq(v).all());
        assert!(!v.ne(v).any());
    }
    let v = float4(f(1.0), f(-0.0), f(f32::INFINITY), f(f32::MIN_POSITIVE));
    assert!(v.eq(v).all());
    assert!(!v.ne(v).any());
}

#[test]
fn a_nan_is_not_equal_to_itself() {
    let v = float4(f(1.0), f(f32::NAN), f(2.0), f(3.0));
    assert_eq!(v.eq(v), int4(T, F, T, T));
    assert_eq!(v.ne(v), int4(F, T, F, F));
    assert!(!v.eq(v).all());
    assert!(v.ne(v).any());
    assert!(v != v);
}

#[test]
fn mask_lanes_stand_for_truth_values() {
    assert_eq!(simd::bits8::mask_of(true), -1);
    assert_eq!(simd::bits8::mask_of(false), 0);
    assert_eq!(simd::bits16::mask_of(true), -1);
    assert_eq!(simd::bits32::mask_of(true), simd::bits32::ALL_ONES);
    assert_eq!(simd::bits32::mask_of(false), simd::bits32::ALL_ZEROS);
    assert_eq!(simd::bits64::mask_of(true), -1);
    assert_eq!(simd::bits64::mask_of(false), 0);
}

#[test]
fn quotient_of_single_lanes_wraps() {
    assert_eq!(simd::bits32::wrapping_div(7, -2), -3);
    assert_eq!(simd::bits32::wrapping_div(-7, 2), -3);
    assert_eq!(simd::bits32::wrapping_div(i32::MIN, -1), i32::MIN);
    assert_eq!(simd::bits8::wrapping_div(-128, -1), -128);
    assert_eq!(simd::bits64::wrapping_div(i64::MIN, -1), i64::MIN);
    assert_eq!(simd::bits16::wrapping_div(-32768, 2), -16384);
}

#[test]
fn lanes_split_into_bytes_and_join_again() {
    assert_eq!(simd::bits32::bytes(0x0403_0201), [1, 2, 3, 4]);
    assert_eq!(simd::bits32::join(1, 2, 3, 4), 0x0403_0201);
    assert_eq!(simd::bits16::bytes(0xff01), [1, 0xff]);
    assert_eq!(simd::bits16::join(1, 0xff), 0xff01);
    assert_eq!(simd::bits64::bytes(0x0807_0605_0403_0201), [1, 2, 3, 4, 5, 6, 7, 8]);
    assert_eq!(simd::bits64::join(1, 2, 3, 4, 5, 6, 7, 8), 0x0807_0605_0403_0201);
    assert_eq!(simd::bits8::bytes(0xab), [0xab]);
    assert_eq!(simd::bits8::join(0xab), 0xab);
}
