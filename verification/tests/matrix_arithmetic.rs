// Sums, products and linear combinations of matrices, with the arithmetic on
// single numbers supplied by the caller.
use simd::{
    float2, float2x2, float2x4, float3, float3x3, float3x4, float4, float4x2, float4x3, float4x4,
};

fn f(x: f32) -> u32 {
    x.to_bits()
}

fn plus(x: u32, y: u32) -> u32 {
    f(f32::from_bits(x) + f32::from_bits(y))
}

fn minus(x: u32, y: u32) -> u32 {
    f(f32::from_bits(x) - f32::from_bits(y))
}

fn times(x: u32, y: u32) -> u32 {
    f(f32::from_bits(x) * f32::from_bits(y))
}

fn v2(a: f32, b: f32) -> float2 {
    float2(f(a), f(b))
}

fn v3(a: f32, b: f32, c: f32) -> float3 {
    float3(f(a), f(b), f(c))
}

fn v4(a: f32, b: f32, c: f32, e: f32) -> float4 {
    float4(f(a), f(b), f(c), f(e))
}

fn m44() -> float4x4 {
    float4x4(
        v4(1.0, 2.0, 3.0, 4.0),
        v4(5.0, 6.0, 7.0, 8.0),
        v4(9.0, 10.0, 11.0, 12.0),
        v4(13.0, 14.0, 15.0, 16.0),
    )
}

fn m43() -> float4x3 {
    float4x3(v3(1.0, 2.0, 3.0), v3(4.0, 5.0, 6.0), v3(7.0, 8.0, 9.0), v3(10.0, 11.0, 12.0))
}

fn m42() -> float4x2 {
    float4x2(v2(1.0, 2.0), v2(3.0, 4.0), v2(5.0, 6.0), v2(7.0, 8.0))
}

#[test]
fn sum_and_difference_of_matrices() {
    let m = m42();
    let n = float4x2(v2(0.5, 0.5), v2(1.0, 1.0), v2(-5.0, -6.0), v2(0.0, 8.0));
    assert_eq!(m.add(n, &plus), float4x2(v2(1.5, 2.5), v2(4.0, 5.0), v2(0.0, 0.0), v2(7.0, 16.0)));
    assert_eq!(m.sub(n, &minus), float4x2(v2(0.5, 1.5), v2(2.0, 3.0), v2(10.0, 12.0), v2(7.0, 0.0)));
    assert_eq!(m44().sub(m44(), &minus), m44().mul(f(0.0), &times));
    assert_eq!(m43().add(m43(), &plus), m43().mul(f(2.0), &times));
}

#[test]
fn a_matrix_scaled_by_a_number() {
    assert_eq!(
        m43().mul(f(2.0), &times),
        float4x3(v3(2.0, 4.0, 6.0), v3(8.0, 10.0, 12.0), v3(14.0, 16.0, 18.0), v3(20.0, 22.0, 24.0))
    );
    assert_eq!(m42().mul(f(-1.0), &times), float4x2(v2(-1.0, -2.0), v2(-3.0, -4.0), v2(-5.0, -6.0), v2(-7.0, -8.0)));
}

#[test]
fn a_matrix_times_a_vector_combines_the_columns() {
    assert_eq!(m44().dot(v4(1.0, 0.0, 0.0, 0.0), &times, &plus), v4(1.0, 2.0, 3.0, 4.0));
    assert_eq!(m44().dot(v4(0.0, 0.0, 0.0, 1.0), &times, &plus), v4(13.0, 14.0, 15.0, 16.0));
    assert_eq!(m44().dot(v4(1.0, 1.0, 1.0, 1.0), &times, &plus), v4(28.0, 32.0, 36.0, 40.0));
    assert_eq!(m43().dot(v4(1.0, 2.0, 3.0, 4.0), &times, &plus), v3(70.0, 80.0, 90.0));
    assert_eq!(m42().dot(v4(1.0, -1.0, 1.0, -1.0), &times, &plus), v2(-4.0, -4.0));
}

#[test]
fn a_matrix_times_a_vector_adds_from_left_to_right() {
    let m = float4x2(v2(1.0e8, 0.0), v2(1.0, 0.0), v2(-1.0e8, 0.0), v2(1.0, 0.0));
    // ((1e8 + 1) + -1e8) + 1 is 1.
    assert_eq!(m.dot(v4(1.0, 1.0, 1.0, 1.0), &times, &plus), v2(1.0, 0.0));
}

#[test]
fn a_matrix_times_the_identity() {
    let i = m44().identity();
    assert_eq!(m44().dot_matrix(i, &times, &plus), m44());
    assert_eq!(i.dot_matrix(m44(), &times, &plus), m44());
}

#[test]
fn a_product_of_matrices() {
    let a = float2x2(v2(1.0, 2.0), v2(3.0, 4.0));
    let b = float2x2(v2(5.0, 6.0), v2(7.0, 8.0));
    // Columns of the product: a * (5, 6) and a * (7, 8).
    assert_eq!(a.dot_matrix(b, &times, &plus), float2x2(v2(23.0, 34.0), v2(31.0, 46.0)));
    let p = m43().dot_matrix(
        float3x4(v4(1.0, 0.0, 0.0, 0.0), v4(0.0, 1.0, 0.0, 0.0), v4(0.0, 0.0, 1.0, 1.0)),
        &times,
        &plus,
    );
    assert_eq!(p, float3x3(v3(1.0, 2.0, 3.0), v3(4.0, 5.0, 6.0), v3(17.0, 19.0, 21.0)));
    let q = m42().dot_matrix(float2x4(v4(1.0, 1.0, 1.0, 1.0), v4(0.0, 0.0, 0.0, 2.0)), &times, &plus);
    assert_eq!(q, float2x2(v2(16.0, 20.0), v2(14.0, 16.0)));
}

#[test]
fn a_linear_combination_of_matrices() {
    let x = m42();
    let y = float4x2(v2(1.0, 1.0), v2(1.0, 1.0), v2(2.0, 2.0), v2(0.0, -1.0));
    let r = float4x2::linear_combination(f(2.0), x, f(10.0), y, &times, &plus);
    assert_eq!(r, float4x2(v2(12.0, 14.0), v2(16.0, 18.0), v2(30.0, 32.0), v2(14.0, 6.0)));
    let r = float4x4::linear_combination(f(1.0), m44(), f(-1.0), m44(), &times, &plus);
    assert_eq!(r, m44().mul(f(0.0), &times));
    let r = float4x3::linear_combination(f(0.5), m43(), f(0.5), m43(), &times, &plus);
    assert_eq!(r, m43());
}

#[test]
fn a_linear_combination_is_the_sum_of_the_scaled_matrices() {
    let x = m43();
    let y = m43().transpose().transpose().mul(f(0.25), &times);
    let direct = float4x3::linear_combination(f(3.0), x, f(-2.0), y, &times, &plus);
    let by_steps = x.mul(f(3.0), &times).add(y.mul(f(-2.0), &times), &plus);
    assert_eq!(direct, by_steps);
}
