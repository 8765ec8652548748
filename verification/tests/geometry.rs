// Arithmetic on numbers: the library lays out the computation, the caller
// supplies the arithmetic on single numbers.
use simd::bits32;
use simd::bits64;
use simd::{
    char4, double2, double3, double4, float2, float3, float4, float8, int3, int4, long2, uchar4,
    uint3, uint4, ulong2, ushort4,
};

fn f(x: f32) -> u32 {
    x.to_bits()
}

fn d(x: f64) -> u64 {
    x.to_bits()
}

fn plus(x: u32, y: u32) -> u32 {
    f(f32::from_bits(x) + f32::from_bits(y))
}

fn minus(x: u32, y: u32) -> u32 {
    f(f32::from_bits(x) - f32::from_bits(y))
}

fn times(x: u32, y: u32) -> u32 {
    f(f32::from_bits(x) * f32::from_bits(y))
}

fn over(x: u32, y: u32) -> u32 {
    f(f32::from_bits(x) / f32::from_bits(y))
}

fn root(x: u32) -> u32 {
    f(f32::from_bits(x).sqrt())
}

fn inverse_root(x: u32) -> u32 {
    f(1.0 / f32::from_bits(x).sqrt())
}

fn plus64(x: u64, y: u64) -> u64 {
    d(f64::from_bits(x) + f64::from_bits(y))
}

fn minus64(x: u64, y: u64) -> u64 {
    d(f64::from_bits(x) - f64::from_bits(y))
}

fn times64(x: u64, y: u64) -> u64 {
    d(f64::from_bits(x) * f64::from_bits(y))
}

fn root64(x: u64) -> u64 {
    d(f64::from_bits(x).sqrt())
}

fn v3(a: f32, b: f32, c: f32) -> float3 {
    float3(f(a), f(b), f(c))
}

fn v4(a: f32, b: f32, c: f32, e: f32) -> float4 {
    float4(f(a), f(b), f(c), f(e))
}

fn w3(a: f64, b: f64, c: f64) -> double3 {
    double3(d(a), d(b), d(c))
}

#[test]
fn lane_wise_arithmetic_through_map_binary() {
    let a = v4(1.0, 2.0, 3.0, 4.0);
    let b = v4(0.5, 0.25, -3.0, 8.0);
    assert_eq!(a.map_binary(b, &plus), v4(1.5, 2.25, 0.0, 12.0));
    assert_eq!(a.map_binary(b, &minus), v4(0.5, 1.75, 6.0, -4.0));
    assert_eq!(a.map_binary(b, &times), v4(0.5, 0.5, -9.0, 32.0));
    assert_eq!(a.map_binary(b, &over), v4(2.0, 8.0, -1.0, 0.5));
    assert_eq!(v4(4.0, 9.0, 16.0, 0.0).map_unary(&root), v4(2.0, 3.0, 4.0, 0.0));
}

#[test]
fn fold_of_four_lanes_halves() {
    // (1e8 + -1e8) + (1 + 1) is 2; from left to right it would be 1.
    let v = v4(1.0e8, 1.0, -1.0e8, 1.0);
    assert_eq!(v.fold(&plus), f(2.0));
    assert_eq!(v.fold(&plus), plus(plus(v.0, v.2), plus(v.1, v.3)));
}

#[test]
fn fold_of_three_lanes_goes_from_left_to_right() {
    // (1e8 + 1) + -1e8 is 0; 1e8 + (1 + -1e8) would be 0 too, but
    // (1e8 + -1e8) + 1 would be 1.
    let v = v3(1.0e8, 1.0, -1.0e8);
    assert_eq!(v.fold(&plus), f(0.0));
    assert_eq!(v.fold(&minus), minus(minus(v.0, v.1), v.2));
}

#[test]
fn fold_of_two_and_of_eight_lanes() {
    assert_eq!(float2(f(8.0), f(2.0)).fold(&over), f(4.0));
    let v = float8(f(1.0), f(2.0), f(3.0), f(4.0), f(5.0), f(6.0), f(7.0), f(8.0));
    assert_eq!(v.fold(&plus), f(36.0));
    let h = float4(minus(v.0, v.4), minus(v.1, v.5), minus(v.2, v.6), minus(v.3, v.7));
    assert_eq!(v.fold(&minus), minus(minus(h.0, h.2), minus(h.1, h.3)));
}

#[test]
fn fold_with_the_greater_of_two_numbers() {
    let greater = |x: u32, y: u32| f(f32::from_bits(x).max(f32::from_bits(y)));
    let lesser = |x: u32, y: u32| f(f32::from_bits(x).min(f32::from_bits(y)));
    let v = v4(3.0, -7.0, 9.5, 0.0);
    assert_eq!(v.fold(&greater), f(9.5));
    assert_eq!(v.fold(&lesser), f(-7.0));
}

#[test]
fn fold_on_integers_follows_the_same_order() {
    let v = int4(1, 2, 3, 4);
    assert_eq!(v.fold(&|x: i32, y: i32| x - y), (1 - 3) - (2 - 4));
    assert_eq!(int3(1, 2, 3).fold(&|x: i32, y: i32| x - y), (1 - 2) - 3);
}

#[test]
fn dot_product_of_numbers() {
    assert_eq!(v3(1.0, 2.0, 3.0).dot(v3(4.0, 5.0, 6.0), &times, &plus), f(32.0));
    assert_eq!(v4(1.0, 2.0, 3.0, 4.0).dot(v4(5.0, 6.0, 7.0, 8.0), &times, &plus), f(70.0));
    assert_eq!(w3(1.0, 2.0, 3.0).dot(w3(4.0, 5.0, 6.0), &times64, &plus64), d(32.0));
    assert_eq!(double2(d(1.5), d(2.0)).dot(double2(d(2.0), d(0.25)), &times64, &plus64), d(3.5));
}

#[test]
fn dot_product_of_numbers_commutes() {
    let vs = [v4(1.0, 2.0, 3.0, 4.0), v4(0.1, -0.2, 0.3, 1.0e10), v4(-7.5, 0.0, 1.0e-10, 3.0)];
    for &a in vs.iter() {
        for &b in vs.iter() {
            assert_eq!(a.dot(b, &times, &plus), b.dot(a, &times, &plus));
        }
    }
}

#[test]
fn length_and_its_square() {
    let v = v4(3.0, 0.0, 4.0, 0.0);
    assert_eq!(v.length_squared(&times, &plus), f(25.0));
    assert_eq!(v.length(&times, &plus, &root), f(5.0));
    assert_eq!(w3(2.0, 3.0, 6.0).length(&times64, &plus64, &root64), d(7.0));
}

#[test]
fn normalize_scales_by_the_inverse_root_of_the_squared_length() {
    let v = v4(3.0, 0.0, 4.0, 0.0);
    let s = inverse_root(f(25.0));
    assert_eq!(v.normalize(&times, &plus, &inverse_root), float4(times(v.0, s), times(v.1, s), times(v.2, s), times(v.3, s)));
    assert_eq!(v4(0.0, 2.0, 0.0, 0.0).normalize(&times, &plus, &inverse_root), v4(0.0, 1.0, 0.0, 0.0));
}

#[test]
fn a_normalized_vector_has_length_one() {
    for v in [v3(1.0, 2.0, 3.0), v3(-0.001, 1000.0, 7.0), v3(0.3, 0.3, 0.3), v3(0.0, 0.0, -9.0)] {
        let n = v.normalize(&times, &plus, &inverse_root);
        let len = f32::from_bits(n.length(&times, &plus, &root));
        assert!((len - 1.0).abs() <= 4.0 * f32::EPSILON, "{}", len);
    }
}

#[test]
fn normalize_of_the_zero_vector_is_not_a_number() {
    let n = v3(0.0, 0.0, 0.0).normalize(&times, &plus, &inverse_root);
    assert!(f32::from_bits(n.0).is_nan());
    assert!(f32::from_bits(n.1).is_nan());
    assert!(f32::from_bits(n.2).is_nan());
}

#[test]
fn project_onto_an_axis() {
    let r = v3(3.0, 4.0, 5.0).project(v3(2.0, 0.0, 0.0), &times, &plus, &over);
    assert_eq!(r, v3(3.0, 0.0, 0.0));
    let r = v3(1.0, 1.0, 0.0).project(v3(0.0, 4.0, 0.0), &times, &plus, &over);
    assert_eq!(r, v3(0.0, 1.0, 0.0));
}

#[test]
fn reflect_at_a_plane() {
    let r = v3(1.0, -1.0, 0.0).reflect(v3(0.0, 1.0, 0.0), &times, &plus, &minus);
    assert_eq!(r, v3(1.0, 1.0, 0.0));
    let r = v4(1.0, 2.0, 3.0, 4.0).reflect(v4(0.0, 0.0, 1.0, 0.0), &times, &plus, &minus);
    assert_eq!(r, v4(1.0, 2.0, -3.0, 4.0));
}

#[test]
fn refract_is_the_zero_vector_on_total_reflection() {
    // The vector lies in the surface: k = 1 - 4 * (1 - 0) = -3.
    let r = v3(1.0, 0.0, 0.0).refract(v3(0.0, 1.0, 0.0), f(2.0), &times, &plus, &minus, &root);
    assert_eq!((r.0, r.1, r.2), (0, 0, 0));
    let r = v4(0.8, -0.6, 0.0, 0.0).refract(v4(0.0, 1.0, 0.0, 0.0), f(1.5), &times, &plus, &minus, &root);
    assert_eq!((r.0, r.1, r.2, r.3), (0, 0, 0, 0));
}

#[test]
fn refract_straight_through() {
    // dot = -1, k = 1 - 0.25 * (1 - 1) = 1.
    let r = v3(0.0, -1.0, 0.0).refract(v3(0.0, 1.0, 0.0), f(0.5), &times, &plus, &minus, &root);
    assert_eq!(r, v3(0.0, -1.0, 0.0));
}

#[test]
fn refract_follows_the_formula() {
    let (i, n, eta) = (v3(0.6, -0.8, 0.0), v3(0.0, 1.0, 0.0), 0.75f32);
    let dp = f32::from_bits(i.dot(n, &times, &plus));
    let k = 1.0 - eta * eta * (1.0 - dp * dp);
    assert!(k > 0.0);
    let s = eta * dp + k.sqrt();
    let expected = v3(eta * 0.6 - s * 0.0, eta * -0.8 - s * 1.0, eta * 0.0 - s * 0.0);
    let r = i.refract(n, f(eta), &times, &plus, &minus, &root);
    assert_eq!((r.0, r.1, r.2), (expected.0, expected.1, expected.2));
    assert!(f32::from_bits(r.0).is_finite() && f32::from_bits(r.1).is_finite());
}

#[test]
fn refract_at_the_limit_where_k_is_zero() {
    // dot = 0 and eta = 1: k = 1 - 1 * 1 = 0, which is not less than zero.
    let r = v3(1.0, 0.0, 0.0).refract(v3(0.0, 1.0, 0.0), f(1.0), &times, &plus, &minus, &root);
    assert_eq!(r, v3(1.0, 0.0, 0.0));
}

#[test]
fn cross_product() {
    assert_eq!(w3(1.0, 0.0, 0.0).cross(w3(0.0, 1.0, 0.0), &times64, &minus64), w3(0.0, 0.0, 1.0));
    assert_eq!(w3(0.0, 1.0, 0.0).cross(w3(0.0, 0.0, 1.0), &times64, &minus64), w3(1.0, 0.0, 0.0));
    assert_eq!(w3(0.0, 0.0, 1.0).cross(w3(1.0, 0.0, 0.0), &times64, &minus64), w3(0.0, 1.0, 0.0));
    assert_eq!(w3(1.0, 2.0, 3.0).cross(w3(4.0, 5.0, 6.0), &times64, &minus64), w3(-3.0, 6.0, -3.0));
    assert_eq!(v3(2.0, 3.0, 4.0).cross(v3(5.0, 6.0, 7.0), &times, &minus), v3(-3.0, 6.0, -3.0));
}

#[test]
fn saturating_conversion_of_numbers_clamps_and_then_casts() {
    let x = v4(500.0, -500.0, 1.9, -1.9);
    assert_eq!(x.to_char_sat(&|b: u32| f32::from_bits(b) as i8), char4(127, -128, 1, -1));
    assert_eq!(x.to_uchar_sat(&|b: u32| f32::from_bits(b) as u8), uchar4(255, 0, 1, 0));
    assert_eq!(x.to_ushort_sat(&|b: u32| f32::from_bits(b) as u16), ushort4(500, 0, 1, 0));
    assert_eq!(x.to_int_sat(&|b: u32| f32::from_bits(b) as i32), int4(500, -500, 1, -1));
    let y = v4(3.0e9, -3.0e9, 5.0e9, 0.5);
    assert_eq!(y.to_int_sat(&|b: u32| f32::from_bits(b) as i32), int4(i32::MAX, i32::MIN, i32::MAX, 0));
    assert_eq!(y.to_uint_sat(&|b: u32| f32::from_bits(b) as u32), uint4(3_000_000_000, 0, u32::MAX, 0));
}

#[test]
fn saturating_conversion_hands_the_clamped_number_to_the_cast() {
    // The cast that is handed in sees the lane after the clamp.
    let seen = |b: u32| f32::from_bits(b) as i32;
    let x = v4(1.0e6, -1.0e6, 100.0, f32::INFINITY);
    assert_eq!(x.to_char_sat(&|b: u32| seen(b) as i8), char4(127, -128, 100, 127));
    let bits = |b: u64| d(f64::from_bits(b)) as i64;
    let y = double2(d(1.0e300), d(-1.0e300));
    assert_eq!(y.to_long_sat(&|b: u64| bits(b)), long2(bits64::FLOAT_I64_MAX as i64, bits64::FLOAT_I64_MIN as i64));
    assert_eq!(y.to_ulong_sat(&|b: u64| b), ulong2(bits64::FLOAT_U64_MAX, 0));
}

#[test]
fn saturating_conversion_of_a_nan() {
    let x = v4(f32::NAN, 1.0, 2.0, 3.0);
    assert_eq!(x.to_char_sat(&|b: u32| f32::from_bits(b) as i8), char4(0, 1, 2, 3));
    let r = x.to_uint_sat(&|b: u32| b);
    assert_eq!(r.0, f(f32::NAN));
}

#[test]
fn the_bounds_are_the_numbers_nearest_to_the_bounds_of_the_kinds() {
    assert_eq!(bits32::FLOAT_I8_MIN, f(i8::MIN as f32));
    assert_eq!(bits32::FLOAT_I8_MAX, f(i8::MAX as f32));
    assert_eq!(bits32::FLOAT_U8_MAX, f(u8::MAX as f32));
    assert_eq!(bits32::FLOAT_I16_MIN, f(i16::MIN as f32));
    assert_eq!(bits32::FLOAT_I16_MAX, f(i16::MAX as f32));
    assert_eq!(bits32::FLOAT_U16_MAX, f(u16::MAX as f32));
    assert_eq!(bits32::FLOAT_I32_MIN, f(i32::MIN as f32));
    assert_eq!(bits32::FLOAT_I32_MAX, f(i32::MAX as f32));
    assert_eq!(bits32::FLOAT_U32_MAX, f(u32::MAX as f32));
    assert_eq!(bits32::FLOAT_I64_MIN, f(i64::MIN as f32));
    assert_eq!(bits32::FLOAT_I64_MAX, f(i64::MAX as f32));
    assert_eq!(bits32::FLOAT_U64_MAX, f(u64::MAX as f32));
    assert_eq!(bits32::FLOAT_TWO, f(2.0));
    assert_eq!(bits64::FLOAT_I8_MIN, d(i8::MIN as f64));
    assert_eq!(bits64::FLOAT_I8_MAX, d(i8::MAX as f64));
    assert_eq!(bits64::FLOAT_U8_MAX, d(u8::MAX as f64));
    assert_eq!(bits64::FLOAT_I16_MIN, d(i16::MIN as f64));
    assert_eq!(bits64::FLOAT_I16_MAX, d(i16::MAX as f64));
    assert_eq!(bits64::FLOAT_U16_MAX, d(u16::MAX as f64));
    assert_eq!(bits64::FLOAT_I32_MIN, d(i32::MIN as f64));
    assert_eq!(bits64::FLOAT_I32_MAX, d(i32::MAX as f64));
    assert_eq!(bits64::FLOAT_U32_MAX, d(u32::MAX as f64));
    assert_eq!(bits64::FLOAT_I64_MIN, d(i64::MIN as f64));
    assert_eq!(bits64::FLOAT_I64_MAX, d(i64::MAX as f64));
    assert_eq!(bits64::FLOAT_U64_MAX, d(u64::MAX as f64));
    assert_eq!(bits64::FLOAT_TWO, d(2.0));
}

#[test]
fn integers_become_numbers_by_the_cast_that_is_handed_in() {
    let r = int3(1, -2, i32::MAX).to_double(&|x: i32| d(x as f64));
    assert_eq!(r, w3(1.0, -2.0, 2147483647.0));
    let r = uint3(1, 2, u32::MAX).to_double(&|x: u32| d(x as f64));
    assert_eq!(r, w3(1.0, 2.0, 4294967295.0));
    let r = int3(1, -2, 16_777_217).to_float(&|x: i32| f(x as f32));
    assert_eq!(r, v3(1.0, -2.0, 16_777_216.0));
    let r = ulong2(1, u64::MAX).to_float(&|x: u64| f(x as f32));
    assert_eq!(r, float2(f(1.0), f(18446744073709551615.0)));
}

#[test]
fn numbers_change_their_precision_by_the_cast_that_is_handed_in() {
    let r = v3(1.5, -0.0, f32::INFINITY).to_double(&|b: u32| d(f32::from_bits(b) as f64));
    assert_eq!((r.0, r.1, r.2), (d(1.5), d(-0.0), d(f64::INFINITY)));
    let r = w3(1.5, 1.0e300, 0.1).to_float(&|b: u64| f(f64::from_bits(b) as f32));
    assert_eq!((r.0, r.1, r.2), (f(1.5), f(f32::INFINITY), f(0.1)));
}

#[test]
fn double_precision_dot_of_four() {
    let a = double4(d(1.0e16), d(1.0), d(-1.0e16), d(1.0));
    let ones = double4::broadcast(d(1.0));
    assert_eq!(a.dot(ones, &times64, &plus64), d(2.0));
}
