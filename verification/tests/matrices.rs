// Matrices held column by column.
use simd::{
    float2, float2x2, float2x3, float2x4, float3, float3x2, float3x3, float3x4, float4, float4x2,
    float4x3, float4x4,
};

fn f(x: f32) -> u32 {
    x.to_bits()
}

fn v2(a: f32, b: f32) -> float2 {
    float2(f(a), f(b))
}

fn v3(a: f32, b: f32, c: f32) -> float3 {
    float3(f(a), f(b), f(c))
}

fn v4(a: f32, b: f32, c: f32, e: f32) -> float4 {
    float4(f(a), f(b), f(c), f(e))
}

#[test]
fn from_columns_keeps_the_columns() {
    let m = float4x2::from_columns(v2(1.0, 2.0), v2(3.0, 4.0), v2(5.0, 6.0), v2(7.0, 8.0));
    assert_eq!(m.0, v2(1.0, 2.0));
    assert_eq!(m.1, v2(3.0, 4.0));
    assert_eq!(m.2, v2(5.0, 6.0));
    assert_eq!(m.3, v2(7.0, 8.0));
    let n = float4x3::from_columns(v3(1.0, 2.0, 3.0), v3(4.0, 5.0, 6.0), v3(7.0, 8.0, 9.0), v3(10.0, 11.0, 12.0));
    assert_eq!(n.2, v3(7.0, 8.0, 9.0));
}

#[test]
fn transpose_of_four_columns_of_two() {
    let m = float4x2(v2(1.0, 2.0), v2(3.0, 4.0), v2(5.0, 6.0), v2(7.0, 8.0));
    let t = m.transpose();
    assert_eq!(t, float2x4(v4(1.0, 3.0, 5.0, 7.0), v4(2.0, 4.0, 6.0, 8.0)));
}

#[test]
fn transpose_of_four_columns_of_three() {
    let m = float4x3(v3(1.0, 2.0, 3.0), v3(4.0, 5.0, 6.0), v3(7.0, 8.0, 9.0), v3(10.0, 11.0, 12.0));
    let t = m.transpose();
    assert_eq!(
        t,
        float3x4(v4(1.0, 4.0, 7.0, 10.0), v4(2.0, 5.0, 8.0, 11.0), v4(3.0, 6.0, 9.0, 12.0))
    );
}

#[test]
fn transpose_of_four_columns_of_four() {
    let m = float4x4(
        v4(1.0, 2.0, 3.0, 4.0),
        v4(5.0, 6.0, 7.0, 8.0),
        v4(9.0, 10.0, 11.0, 12.0),
        v4(13.0, 14.0, 15.0, 16.0),
    );
    let t = float4x4(
        v4(1.0, 5.0, 9.0, 13.0),
        v4(2.0, 6.0, 10.0, 14.0),
        v4(3.0, 7.0, 11.0, 15.0),
        v4(4.0, 8.0, 12.0, 16.0),
    );
    assert_eq!(m.transpose(), t);
    assert_eq!(t.transpose(), m);
}

#[test]
fn transpose_moves_bit_patterns() {
    let nan = 0x7fc0_1234;
    let m = float2x2(float2(nan, f(-0.0)), float2(0xffff_ffff, 1));
    let t = m.transpose();
    assert_eq!(((t.0).0, (t.0).1, (t.1).0, (t.1).1), (nan, 0xffff_ffff, f(-0.0), 1));
}

#[test]
fn from_rows_lays_the_rows_across_the_columns() {
    let m = float4x2::from_rows(v4(1.0, 2.0, 3.0, 4.0), v4(5.0, 6.0, 7.0, 8.0));
    assert_eq!(m, float4x2(v2(1.0, 5.0), v2(2.0, 6.0), v2(3.0, 7.0), v2(4.0, 8.0)));
    let n = float4x3::from_rows(v4(1.0, 2.0, 3.0, 4.0), v4(5.0, 6.0, 7.0, 8.0), v4(9.0, 10.0, 11.0, 12.0));
    assert_eq!(
        n,
        float4x3(v3(1.0, 5.0, 9.0), v3(2.0, 6.0, 10.0), v3(3.0, 7.0, 11.0), v3(4.0, 8.0, 12.0))
    );
    let p = float2x3::from_rows(v2(1.0, 2.0), v2(3.0, 4.0), v2(5.0, 6.0));
    assert_eq!(p, float2x3(v3(1.0, 3.0, 5.0), v3(2.0, 4.0, 6.0)));
}

#[test]
fn from_rows_is_the_transpose_of_from_columns() {
    let (a, b) = (v4(1.0, 2.0, 3.0, 4.0), v4(5.0, 6.0, 7.0, 8.0));
    assert_eq!(float4x2::from_rows(a, b), float2x4::from_columns(a, b).transpose());
}

#[test]
fn transposing_twice_gives_the_matrix_back() {
    let m42 = float4x2(v2(1.0, 2.0), v2(3.0, 4.0), v2(5.0, 6.0), v2(7.0, 8.0));
    assert_eq!(m42.transpose().transpose(), m42);
    let m43 = float4x3(v3(1.0, 2.0, 3.0), v3(4.0, 5.0, 6.0), v3(7.0, 8.0, 9.0), v3(10.0, 11.0, 12.0));
    assert_eq!(m43.transpose().transpose(), m43);
    let m32 = float3x2(v2(1.0, 2.0), v2(3.0, 4.0), v2(5.0, 6.0));
    assert_eq!(m32.transpose().transpose(), m32);
    let m33 = float3x3(v3(1.0, 2.0, 3.0), v3(4.0, 5.0, 6.0), v3(7.0, 8.0, 9.0));
    assert_eq!(m33.transpose().transpose(), m33);
    let m22 = float2x2(v2(1.0, 2.0), v2(3.0, 4.0));
    assert_eq!(m22.transpose().transpose(), m22);
    let m34 = float3x4(v4(1.0, 2.0, 3.0, 4.0), v4(5.0, 6.0, 7.0, 8.0), v4(9.0, 10.0, 11.0, 12.0));
    assert_eq!(m34.transpose().transpose(), m34);
}

#[test]
fn identity_has_ones_on_the_diagonal() {
    let any = float4x4(v4(9.0, 9.0, 9.0, 9.0), v4(9.0, 9.0, 9.0, 9.0), v4(9.0, 9.0, 9.0, 9.0), v4(9.0, 9.0, 9.0, 9.0));
    let i = any.identity();
    assert_eq!(
        i,
        float4x4(
            v4(1.0, 0.0, 0.0, 0.0),
            v4(0.0, 1.0, 0.0, 0.0),
            v4(0.0, 0.0, 1.0, 0.0),
            v4(0.0, 0.0, 0.0, 1.0),
        )
    );
    assert_eq!(i.transpose(), i);
    let j = float3x3(v3(0.0, 0.0, 0.0), v3(0.0, 0.0, 0.0), v3(0.0, 0.0, 0.0)).identity();
    assert_eq!(j, float3x3(v3(1.0, 0.0, 0.0), v3(0.0, 1.0, 0.0), v3(0.0, 0.0, 1.0)));
    assert_eq!(((j.0).0, (j.0).1, (j.1).1), (f(1.0), 0, f(1.0)));
}

#[test]
fn matrices_are_equal_as_numbers() {
    let m = float4x3(v3(1.0, 2.0, 3.0), v3(4.0, 5.0, 6.0), v3(7.0, 8.0, 9.0), v3(0.0, 11.0, 12.0));
    let n = float4x3(v3(1.0, 2.0, 3.0), v3(4.0, 5.0, 6.0), v3(7.0, 8.0, 9.0), v3(-0.0, 11.0, 12.0));
    assert!(m == n);
    let p = float4x3(v3(1.0, 2.0, 3.0), v3(4.0, 5.0, 6.0), v3(7.0, 8.0, 9.5), v3(0.0, 11.0, 12.0));
    assert!(m != p);
    let q = float4x3(v3(1.0, 2.0, 3.0), v3(4.0, f32::NAN, 6.0), v3(7.0, 8.0, 9.0), v3(0.0, 11.0, 12.0));
    assert!(q != q);
}
