// Vectors of numbers held as bit patterns: what is decided by bits alone.
use simd::bits32;
use simd::bits64;
use simd::{double2, double3, double4, double8, float2, float3, float4, int2, int4, long2, long4};

fn d(x: f64) -> u64 {
    x.to_bits()
}

fn f(x: f32) -> u32 {
    x.to_bits()
}

fn singles() -> Vec<f32> {
    vec![
        0.0,
        -0.0,
        1.0,
        -1.0,
        1.5,
        -1.5,
        f32::MIN_POSITIVE,
        -f32::MIN_POSITIVE,
        f32::from_bits(1),
        f32::from_bits(0x8000_0001),
        f32::MAX,
        f32::MIN,
        f32::INFINITY,
        f32::NEG_INFINITY,
        f32::NAN,
        f32::from_bits(0xffc0_0000),
        f32::from_bits(0x7f80_0001),
        f32::EPSILON,
        3.0e38,
        -3.0e-38,
    ]
}

fn doubles() -> Vec<f64> {
    vec![
        0.0,
        -0.0,
        1.0,
        -1.0,
        2.5,
        -2.5,
        f64::MIN_POSITIVE,
        -f64::MIN_POSITIVE,
        f64::from_bits(1),
        f64::from_bits(0x8000_0000_0000_0001),
        f64::MAX,
        f64::MIN,
        f64::INFINITY,
        f64::NEG_INFINITY,
        f64::NAN,
        f64::from_bits(0xfff8_0000_0000_0000),
        f64::from_bits(0x7ff0_0000_0000_0001),
        f64::EPSILON,
        1.0e308,
        -1.0e-308,
    ]
}

#[test]
fn comparing_bit_patterns_agrees_with_comparing_single_precision_numbers() {
    for &a in singles().iter() {
        assert_eq!(bits32::is_nan(f(a)), a.is_nan());
        for &b in singles().iter() {
            assert_eq!(bits32::float_eq(f(a), f(b)), a == b, "{} == {}", a, b);
            assert_eq!(bits32::float_lt(f(a), f(b)), a < b, "{} < {}", a, b);
            assert_eq!(bits32::float_le(f(a), f(b)), a <= b, "{} <= {}", a, b);
        }
    }
}

#[test]
fn comparing_bit_patterns_agrees_with_comparing_double_precision_numbers() {
    for &a in doubles().iter() {
        assert_eq!(bits64::is_nan(d(a)), a.is_nan());
        for &b in doubles().iter() {
            assert_eq!(bits64::float_eq(d(a), d(b)), a == b, "{} == {}", a, b);
            assert_eq!(bits64::float_lt(d(a), d(b)), a < b, "{} < {}", a, b);
            assert_eq!(bits64::float_le(d(a), d(b)), a <= b, "{} <= {}", a, b);
        }
    }
}

#[test]
fn lane_wise_comparisons_agree_with_the_numbers() {
    let m = |b: bool| if b { -1 } else { 0 };
    for &a in singles().iter() {
        for &b in singles().iter() {
            let x = float2(f(a), f(b));
            let y = float2(f(b), f(a));
            assert_eq!(x.eq(y), int2(m(a == b), m(b == a)));
            assert_eq!(x.ne(y), int2(m(a != b), m(b != a)));
            assert_eq!(x.lt(y), int2(m(a < b), m(b < a)));
            assert_eq!(x.le(y), int2(m(a <= b), m(b <= a)));
            assert_eq!(x.gt(y), int2(m(a > b), m(b > a)));
            assert_eq!(x.ge(y), int2(m(a >= b), m(b >= a)));
        }
    }
    let m = |b: bool| if b { -1 } else { 0 };
    for &a in doubles().iter() {
        for &b in doubles().iter() {
            let x = double2(d(a), d(b));
            let y = double2(d(b), d(a));
            assert_eq!(x.eq(y), long2(m(a == b), m(b == a)));
            assert_eq!(x.ne(y), long2(m(a != b), m(b != a)));
            assert_eq!(x.lt(y), long2(m(a < b), m(b < a)));
            assert_eq!(x.le(y), long2(m(a <= b), m(b <= a)));
            assert_eq!(x.gt(y), long2(m(a > b), m(b > a)));
            assert_eq!(x.ge(y), long2(m(a >= b), m(b >= a)));
        }
    }
}

#[test]
fn comparisons_of_four_numbers() {
    let a = float4(f(1.0), f(2.0), f(-0.0), f(f32::NAN));
    let b = float4(f(1.0), f(-2.0), f(0.0), f(1.0));
    assert_eq!(a.eq(b), int4(-1, 0, -1, 0));
    assert_eq!(a.ne(b), int4(0, -1, 0, -1));
    assert_eq!(a.lt(b), int4(0, 0, 0, 0));
    assert_eq!(a.le(b), int4(-1, 0, -1, 0));
    assert_eq!(a.gt(b), int4(0, -1, 0, 0));
    assert_eq!(a.ge(b), int4(-1, -1, -1, 0));
    let c = double4(d(-1.0), d(f64::INFINITY), d(f64::NEG_INFINITY), d(5.0));
    let e = double4(d(1.0), d(f64::MAX), d(f64::MIN), d(f64::NAN));
    assert_eq!(c.lt(e), long4(-1, 0, -1, 0));
    assert_eq!(c.gt(e), long4(0, -1, 0, 0));
}

#[test]
fn vectors_of_numbers_are_equal_as_numbers() {
    assert!(float3(f(1.0), f(0.0), f(2.0)) == float3(f(1.0), f(-0.0), f(2.0)));
    assert!(float3(f(1.0), f(0.0), f(2.0)) != float3(f(1.0), f(0.0), f(2.5)));
    assert!(double3(d(1.0), d(f64::NAN), d(2.0)) != double3(d(1.0), d(f64::NAN), d(2.0)));
    assert!(double2(d(f64::INFINITY), d(-1.0)) == double2(d(f64::INFINITY), d(-1.0)));
}

#[test]
fn abs_clears_the_sign_bit() {
    let v = float4(f(-1.5), f(1.5), f(-0.0), f(f32::NEG_INFINITY)).abs();
    assert_eq!((v.0, v.1, v.2, v.3), (f(1.5), f(1.5), f(0.0), f(f32::INFINITY)));
    let w = double3(d(-2.0), d(f64::MIN), d(0.0)).abs();
    assert_eq!((w.0, w.1, w.2), (d(2.0), d(f64::MAX), d(0.0)));
    let x = double8(d(-1.0), d(-2.0), d(-3.0), d(-4.0), d(5.0), d(6.0), d(7.0), d(-8.0)).abs();
    assert_eq!(x, double8(d(1.0), d(2.0), d(3.0), d(4.0), d(5.0), d(6.0), d(7.0), d(8.0)));
}

#[test]
fn abs_agrees_with_the_numbers() {
    for &a in singles().iter() {
        assert_eq!(float2(f(a), f(-a)).abs().0, f(a.abs()));
        assert_eq!(float2(f(a), f(-a)).abs().1, f(a.abs()));
    }
    for &a in doubles().iter() {
        assert_eq!(double2(d(a), d(-a)).abs().0, d(a.abs()));
    }
}

#[test]
fn abs_keeps_the_payload_of_a_nan() {
    let v = float2(0xffc1_2345, 0x7fc1_2345).abs();
    assert_eq!((v.0, v.1), (0x7fc1_2345, 0x7fc1_2345));
}

#[test]
fn copysign_takes_the_sign_of_the_argument_and_the_rest_of_self() {
    let v = float4(f(1.5), f(-1.5), f(2.0), f(-2.0));
    let s = float4(f(-9.0), f(9.0), f(0.0), f(-0.0));
    let r = v.copysign(s);
    assert_eq!((r.0, r.1, r.2, r.3), (f(-1.5), f(1.5), f(2.0), f(-2.0)));
    let w = double2(d(3.0), d(f64::INFINITY)).copysign(double2(d(-1.0), d(f64::NEG_INFINITY)));
    assert_eq!((w.0, w.1), (d(-3.0), d(f64::NEG_INFINITY)));
}

#[test]
fn copysign_agrees_with_the_numbers() {
    for &a in singles().iter() {
        for &b in singles().iter() {
            let r = float2(f(a), f(b)).copysign(float2(f(b), f(a)));
            assert_eq!((r.0, r.1), (f(a.copysign(b)), f(b.copysign(a))));
        }
    }
    for &a in doubles().iter() {
        for &b in doubles().iter() {
            let r = double2(d(a), d(b)).copysign(double2(d(b), d(a)));
            assert_eq!((r.0, r.1), (d(a.copysign(b)), d(b.copysign(a))));
        }
    }
}

#[test]
fn step_is_zero_below_the_edge_and_one_from_it_on() {
    let x = float4(f(0.5), f(1.0), f(1.5), f(-3.0));
    let r = x.step(float4::broadcast(f(1.0)));
    assert_eq!((r.0, r.1, r.2, r.3), (f(0.0), f(1.0), f(1.0), f(0.0)));
    let y = double4(d(-0.0), d(0.0), d(-1.0e-300), d(1.0e-300));
    let r = y.step(double4::broadcast(d(0.0)));
    assert_eq!((r.0, r.1, r.2, r.3), (d(1.0), d(1.0), d(0.0), d(1.0)));
}

#[test]
fn step_with_a_nan_is_one() {
    let r = float2(f(f32::NAN), f(0.0)).step(float2(f(1.0), f(f32::NAN)));
    assert_eq!((r.0, r.1), (f(1.0), f(1.0)));
}

#[test]
fn the_constants_are_the_bit_patterns_of_the_numbers() {
    assert_eq!(bits32::FLOAT_ZERO, f(0.0));
    assert_eq!(bits32::FLOAT_ONE, f(1.0));
    assert_eq!(bits32::FLOAT_INFINITY, f(f32::INFINITY));
    assert_eq!(bits32::FLOAT_MAGNITUDE, !bits32::SIGN_BIT);
    assert_eq!(bits64::FLOAT_MAGNITUDE, !bits64::SIGN_BIT);
    assert_eq!(bits64::FLOAT_ZERO, d(0.0));
    assert_eq!(bits64::FLOAT_ONE, d(1.0));
    assert_eq!(bits64::FLOAT_INFINITY, d(f64::INFINITY));
    assert_eq!(bits32::ALL_ONES, !0);
    assert_eq!(bits64::ALL_ONES, !0);
    assert_eq!(bits32::SIGN_BIT, 1 << 31);
    assert_eq!(bits64::SIGN_BIT, 1 << 63);
}

#[test]
fn max_and_min_of_numbers() {
    let a = float4(f(1.0), f(-2.0), f(0.5), f(f32::NEG_INFINITY));
    let b = float4(f(2.0), f(-3.0), f(0.5), f(f32::MAX));
    assert_eq!(a.max(b), float4(f(2.0), f(-2.0), f(0.5), f(f32::MAX)));
    assert_eq!(a.min(b), float4(f(1.0), f(-3.0), f(0.5), f(f32::NEG_INFINITY)));
    let c = double2(d(-1.0e300), d(1.0e-300));
    let e = double2(d(1.0e300), d(-1.0e-300));
    assert_eq!(c.max(e), double2(d(1.0e300), d(1.0e-300)));
    assert_eq!(c.min(e), double2(d(-1.0e300), d(-1.0e-300)));
}

#[test]
fn max_and_min_keep_self_where_a_nan_is_involved() {
    let nan = 0x7fc0_0042;
    let a = float2(nan, f(1.0));
    let b = float2(f(1.0), nan);
    let r = a.max(b);
    assert_eq!((r.0, r.1), (nan, f(1.0)));
    let r = a.min(b);
    assert_eq!((r.0, r.1), (nan, f(1.0)));
}

#[test]
fn max_and_min_of_the_two_zeros_keep_self() {
    let r = float2(f(0.0), f(-0.0)).max(float2(f(-0.0), f(0.0)));
    assert_eq!((r.0, r.1), (f(0.0), f(-0.0)));
    let r = float2(f(0.0), f(-0.0)).min(float2(f(-0.0), f(0.0)));
    assert_eq!((r.0, r.1), (f(0.0), f(-0.0)));
}

#[test]
fn clamp_of_numbers() {
    let x = float4(f(-200.0), f(-128.0), f(127.5), f(1.0e9));
    let r = x.clamp(float4::broadcast(f(-128.0)), float4::broadcast(f(127.0)));
    assert_eq!(r, float4(f(-128.0), f(-128.0), f(127.0), f(127.0)));
    let y = double3(d(f64::NEG_INFINITY), d(0.25), d(f64::INFINITY));
    let r = y.clamp(double3::broadcast(d(0.0)), double3::broadcast(d(1.0)));
    assert_eq!(r, double3(d(0.0), d(0.25), d(1.0)));
}

#[test]
fn clamp_lets_a_nan_through() {
    let r = float2(f(f32::NAN), f(5.0)).clamp(float2::broadcast(f(0.0)), float2::broadcast(f(1.0)));
    assert_eq!((r.0, r.1), (f(f32::NAN), f(1.0)));
}
