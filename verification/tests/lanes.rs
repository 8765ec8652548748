// Construction, lane access and decomposition into halves.
use simd::{
    char2, char8, double2, double3, double4, double8, float2, float3, float4, int2, int3, int4,
    long2, long4, short4, uchar2, uchar4, uint2, uint3, uint4, ulong2, ulong3, ushort8,
};

fn d(x: f64) -> u64 {
    x.to_bits()
}

fn f(x: f32) -> u32 {
    x.to_bits()
}

#[test]
fn broadcast_fills_every_lane() {
    assert_eq!(int3::broadcast(7), int3(7, 7, 7));
    assert_eq!(long4::broadcast(-1), long4(-1, -1, -1, -1));
    assert_eq!(ulong2::broadcast(u64::MAX), ulong2(u64::MAX, u64::MAX));
    assert_eq!(uint4::broadcast(0), uint4(0, 0, 0, 0));
    assert_eq!(char8::broadcast(-3), char8(-3, -3, -3, -3, -3, -3, -3, -3));
}

#[test]
fn broadcast_of_a_number_keeps_its_bits() {
    let v = float4::broadcast(f(1.5));
    assert_eq!((v.0, v.1, v.2, v.3), (f(1.5), f(1.5), f(1.5), f(1.5)));
    let w = double4::broadcast(d(-0.0));
    assert_eq!((w.0, w.1, w.2, w.3), (d(-0.0), d(-0.0), d(-0.0), d(-0.0)));
}

#[test]
fn extract_reads_each_lane() {
    let v = ulong2(10, 20);
    assert_eq!(v.extract(0), 10);
    assert_eq!(v.extract(1), 20);
    let w = int4(1, -2, 3, -4);
    assert_eq!(w.extract(0), 1);
    assert_eq!(w.extract(1), -2);
    assert_eq!(w.extract(2), 3);
    assert_eq!(w.extract(3), -4);
    let x = ushort8(0, 1, 2, 3, 4, 5, 6, 7);
    assert_eq!(x.extract(7), 7);
    assert_eq!(x.extract(4), 4);
}

#[test]
fn replace_changes_one_lane_only() {
    let v = ulong2(10, 20);
    assert_eq!(v.replace(0, 5), ulong2(5, 20));
    assert_eq!(v.replace(1, 5), ulong2(10, 5));
    let w = int3(1, 2, 3);
    assert_eq!(w.replace(0, 9), int3(9, 2, 3));
    assert_eq!(w.replace(1, 9), int3(1, 9, 3));
    assert_eq!(w.replace(2, 9), int3(1, 2, 9));
    assert_eq!(w, int3(1, 2, 3));
}

#[test]
fn replace_then_extract_gives_the_new_lane() {
    let v = short4(1, 2, 3, 4);
    for i in 0..4 {
        assert_eq!(v.replace(i, -7).extract(i), -7);
    }
}

#[test]
fn halves_of_two_lanes_are_scalars() {
    let v = ulong2(10, 20);
    assert_eq!(v.lo(), 10);
    assert_eq!(v.hi(), 20);
    assert_eq!(v.even(), 10);
    assert_eq!(v.odd(), 20);
    let w = uint2(3, 4);
    assert_eq!(w.lo(), 3);
    assert_eq!(w.hi(), 4);
    assert_eq!(w.even(), 3);
    assert_eq!(w.odd(), 4);
}

#[test]
fn halves_of_four_lanes() {
    let v = int4(1, 2, 3, 4);
    assert_eq!(v.lo(), int2(1, 2));
    assert_eq!(v.hi(), int2(3, 4));
    assert_eq!(v.even(), int2(1, 3));
    assert_eq!(v.odd(), int2(2, 4));
    let w = long4(-1, -2, -3, -4);
    assert_eq!(w.lo(), long2(-1, -2));
    assert_eq!(w.hi(), long2(-3, -4));
    assert_eq!(w.even(), long2(-1, -3));
    assert_eq!(w.odd(), long2(-2, -4));
    let x = uchar4(1, 2, 3, 4);
    assert_eq!(x.lo(), uchar2(1, 2));
    assert_eq!(x.hi(), uchar2(3, 4));
    assert_eq!(x.even(), uchar2(1, 3));
    assert_eq!(x.odd(), uchar2(2, 4));
    let y = uint4(1, 2, 3, 4);
    assert_eq!(y.lo(), uint2(1, 2));
    assert_eq!(y.hi(), uint2(3, 4));
    assert_eq!(y.even(), uint2(1, 3));
    assert_eq!(y.odd(), uint2(2, 4));
}

#[test]
fn halves_of_three_lanes_pad_with_zero() {
    let v = int3(1, 2, 3);
    assert_eq!(v.lo(), int2(1, 2));
    assert_eq!(v.hi(), int2(3, 0));
    assert_eq!(v.even(), int2(1, 3));
    assert_eq!(v.odd(), int2(2, 0));
    let w = uint3(7, 8, 9);
    assert_eq!(w.lo(), uint2(7, 8));
    assert_eq!(w.hi(), uint2(9, 0));
    assert_eq!(w.even(), uint2(7, 9));
    assert_eq!(w.odd(), uint2(8, 0));
    let x = ulong3(7, 8, 9);
    assert_eq!(x.lo(), ulong2(7, 8));
    assert_eq!(x.hi(), ulong2(9, 0));
    assert_eq!(x.even(), ulong2(7, 9));
    assert_eq!(x.odd(), ulong2(8, 0));
}

#[test]
fn halves_of_eight_lanes() {
    let v = char8(0, 1, 2, 3, 4, 5, 6, 7);
    assert_eq!(v.lo().lo(), char2(0, 1));
    assert_eq!(v.lo().hi(), char2(2, 3));
    assert_eq!(v.hi().lo(), char2(4, 5));
    assert_eq!(v.hi().hi(), char2(6, 7));
    assert_eq!(v.even().lo(), char2(0, 2));
    assert_eq!(v.even().hi(), char2(4, 6));
    assert_eq!(v.odd().lo(), char2(1, 3));
    assert_eq!(v.odd().hi(), char2(5, 7));
}

#[test]
fn halves_of_numbers_move_bit_patterns() {
    let v = float4(f(1.0), f(2.0), f(3.0), f(4.0));
    assert_eq!(v.lo(), float2(f(1.0), f(2.0)));
    assert_eq!(v.hi(), float2(f(3.0), f(4.0)));
    assert_eq!(v.even(), float2(f(1.0), f(3.0)));
    assert_eq!(v.odd(), float2(f(2.0), f(4.0)));
    let w = double4(d(1.0), d(2.0), d(3.0), d(4.0));
    assert_eq!(w.lo(), double2(d(1.0), d(2.0)));
    assert_eq!(w.hi(), double2(d(3.0), d(4.0)));
    assert_eq!(w.even(), double2(d(1.0), d(3.0)));
    assert_eq!(w.odd(), double2(d(2.0), d(4.0)));
}

#[test]
fn halves_of_three_numbers_pad_with_positive_zero() {
    let v = double3(d(1.0), d(2.0), d(3.0));
    assert_eq!(v.lo(), double2(d(1.0), d(2.0)));
    let hi = v.hi();
    assert_eq!((hi.0, hi.1), (d(3.0), 0));
    assert_eq!(v.even(), double2(d(1.0), d(3.0)));
    let odd = v.odd();
    assert_eq!((odd.0, odd.1), (d(2.0), 0));
    let w = float3(f(-1.0), f(-2.0), f(-3.0));
    let hi = w.hi();
    assert_eq!((hi.0, hi.1), (f(-3.0), 0));
}

#[test]
fn halves_of_eight_numbers() {
    let v = double8(d(0.0), d(1.0), d(2.0), d(3.0), d(4.0), d(5.0), d(6.0), d(7.0));
    assert_eq!(v.lo(), double4(d(0.0), d(1.0), d(2.0), d(3.0)));
    assert_eq!(v.hi(), double4(d(4.0), d(5.0), d(6.0), d(7.0)));
    assert_eq!(v.even(), double4(d(0.0), d(2.0), d(4.0), d(6.0)));
    assert_eq!(v.odd(), double4(d(1.0), d(3.0), d(5.0), d(7.0)));
}

#[test]
fn lo_and_hi_put_together_give_the_vector() {
    let v = int4(5, 6, 7, 8);
    let (lo, hi) = (v.lo(), v.hi());
    assert_eq!(int4(lo.0, lo.1, hi.0, hi.1), v);
    let (even, odd) = (v.even(), v.odd());
    assert_eq!(int4(even.0, odd.0, even.1, odd.1), v);
}

#[test]
fn map_unary_applies_to_each_lane() {
    let v = int3(1, 2, 3).map_unary(&|x: i32| x * 10);
    assert_eq!(v, int3(10, 20, 30));
    let w = uchar4(1, 2, 3, 4).map_unary(&|x: u8| x + 1);
    assert_eq!(w, uchar4(2, 3, 4, 5));
    let halve = |b: u64| (f64::from_bits(b) / 2.0).to_bits();
    let x = double3(d(2.0), d(4.0), d(8.0)).map_unary(&halve);
    assert_eq!(x, double3(d(1.0), d(2.0), d(4.0)));
}

#[test]
fn map_binary_pairs_lanes_at_equal_positions() {
    let v = int4(1, 2, 3, 4).map_binary(int4(10, 20, 30, 40), &|x: i32, y: i32| y - x);
    assert_eq!(v, int4(9, 18, 27, 36));
    let w = ulong3(1, 2, 3).map_binary(ulong3(4, 5, 6), &|x: u64, y: u64| x * y);
    assert_eq!(w, ulong3(4, 10, 18));
}

#[test]
fn reduce_hands_each_lane_with_what_was_gathered() {
    // f(lane, gathered): with subtraction the order of the calls shows.
    let r = int4(1, 2, 3, 4).reduce(&|x: i32, acc: i32| x - acc);
    assert_eq!(r, 4 - (3 - (2 - 1)));
    let s = uint2(3, 10).reduce(&|x: u32, acc: u32| x - acc);
    assert_eq!(s, 7);
    let t = uint3(1, 2, 3).reduce(&|x: u32, acc: u32| x * 10 + acc);
    assert_eq!(t, 30 + (20 + 1));
    let u = char2(1, 2).reduce(&|x: i8, acc: i8| x * 10 + acc);
    assert_eq!(u, 21);
}

#[test]
fn indexing_reads_a_lane() {
    let v = ulong2(10, 20);
    assert_eq!(v[0], 10);
    assert_eq!(v[1], 20);
    let w = int3(1, 2, 3);
    assert_eq!((w[0], w[1], w[2]), (1, 2, 3));
    let x = double4(d(1.0), d(2.0), d(3.0), d(4.0));
    assert_eq!(x[3], d(4.0));
    let y = ushort8(0, 1, 2, 3, 4, 5, 6, 7);
    for i in 0..8u32 {
        assert_eq!(y[i], i as u16);
        assert_eq!(y[i], y.extract(i));
    }
}
