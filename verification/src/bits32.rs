//! Lanes of 32 bits: the scalar kinds `i32` and `u32`
//! and the bit patterns of single precision numbers.
//!
//! A comparison answers with a signed lane that is either [`ALL_ONES`] or
//! [`ALL_ZEROS`]. Selection, saturation and sign tests are defined here on
//! single lanes; the vector types apply them lane by lane.
use vstd::prelude::*;

verus! {

/// The lane of a mask that stands for true: every bit set.
pub const ALL_ONES: i32 = -1;

/// The lane of a mask that stands for false: no bit set.
pub const ALL_ZEROS: i32 = 0;

/// The distance by which a signed lane is shifted right to spread its sign
/// bit over the whole lane.
pub const SIGN_SHIFT: i32 = 31;

/// The sign bit of a lane, as an unsigned lane.
pub const SIGN_BIT: u32 = 0x8000_0000;

/// The mask lane that stands for `b`.
pub open spec fn mask(b: bool) -> i32 {
    if b {
        ALL_ONES
    } else {
        ALL_ZEROS
    }
}

/// Makes the mask lane that stands for `b`.
pub fn mask_of(b: bool) -> (m: i32)
    ensures
        m == mask(b),
{
    if b {
        ALL_ONES
    } else {
        ALL_ZEROS
    }
}

/// Whether `m` is a mask lane: all ones or all zeros, nothing in between.
pub open spec fn is_mask(m: i32) -> bool {
    m == ALL_ONES || m == ALL_ZEROS
}

/// Whether the sign bit of a signed lane is set.
pub open spec fn sign_set_signed(x: i32) -> bool {
    x < 0
}

/// Whether the sign bit of an unsigned lane is set.
pub open spec fn sign_set_unsigned(x: u32) -> bool {
    x >= SIGN_BIT
}

/// The bits of a signed lane, inverted.
pub open spec fn not_signed(x: i32) -> i32 {
    !x
}

/// The bits of an unsigned lane, inverted.
pub open spec fn not_unsigned(x: u32) -> u32 {
    !x
}

/// Whether `k` is a distance by which a signed lane can be shifted.
pub open spec fn shift_in_range_signed(k: i32) -> bool {
    0 <= k < 32
}

/// Whether `k` is a distance by which an unsigned lane can be shifted.
pub open spec fn shift_in_range_unsigned(k: u32) -> bool {
    k < 32
}

/// A signed lane shifted left by `k` bits; bits that leave the lane are lost.
pub open spec fn shl_signed(x: i32, k: i32) -> i32 {
    x << k
}

/// A signed lane shifted right by `k` bits; the sign bit fills the gap.
pub open spec fn shr_signed(x: i32, k: i32) -> i32 {
    x >> k
}

/// An unsigned lane shifted left by `k` bits; bits that leave the lane are
/// lost.
pub open spec fn shl_unsigned(x: u32, k: u32) -> u32 {
    x << k
}

/// An unsigned lane shifted right by `k` bits; zeros fill the gap.
pub open spec fn shr_unsigned(x: u32, k: u32) -> u32 {
    x >> k
}

/// The mask lane made of the sign bit of `x`.
pub open spec fn sign_mask(x: i32) -> i32 {
    x >> SIGN_SHIFT
}

/// The bits of `a` where `m` has a zero bit, the bits of `b` where `m` has a
/// one bit.
pub open spec fn select_signed(m: i32, a: i32, b: i32) -> i32 {
    (a & !m) | (b & m)
}

/// The bits of `a` where `m` has a zero bit, the bits of `b` where `m` has a
/// one bit, for lanes that are not signed integers.
pub open spec fn select_unsigned(m: i32, a: u32, b: u32) -> u32 {
    (a & !(m as u32)) | (b & (m as u32))
}

/// The signed lane with the bit pattern of `x`.
pub open spec fn to_signed(x: u32) -> i32 {
    x as i32
}

/// The unsigned lane with the bit pattern of `x`.
pub open spec fn to_unsigned(x: i32) -> u32 {
    x as u32
}

/// The absolute value of `x`, wrapped into the lane: the least value of the
/// kind has no positive counterpart and stays as it is.
pub open spec fn abs_signed(x: i32) -> i32 {
    if x < 0 {
        (0 as i32).wrapping_sub(x)
    } else {
        x
    }
}

/// The quotient of `x` by `y`, rounded towards zero and wrapped into the lane.
///
/// The one quotient that does not fit, that of the least value by -1, wraps
/// to the least value. For `y == 0` nothing is claimed.
pub open spec fn spec_wrapping_div(x: i32, y: i32) -> i32 {
    match x.checked_div(y) {
        Some(q) => q,
        None => x,
    }
}

/// Divides `x` by `y`, rounding towards zero and wrapping on overflow.
#[verifier::when_used_as_spec(spec_wrapping_div)]
pub fn wrapping_div(x: i32, y: i32) -> (q: i32)
    requires
        y != 0,
    ensures
        q == spec_wrapping_div(x, y),
{
    match x.checked_div(y) {
        Some(q) => q,
        None => x,
    }
}

/// The quotient of `x` by `y`, rounded down. For `y == 0` nothing is
/// claimed.
pub open spec fn div_unsigned(x: u32, y: u32) -> u32 {
    x / y
}

/// The value of the kind `i32` that differs from `x` by a multiple of two to
/// the power 32: what is left of `x` when it wraps around.
#[verifier::opaque]
pub open spec fn wrap_signed(x: int) -> i32 {
    let m = x % 0x0001_0000_0000;
    if m > i32::MAX {
        (m - 0x0001_0000_0000) as i32
    } else {
        m as i32
    }
}

/// The value of the kind `u32` that differs from `x` by a multiple of two to
/// the power 32: what is left of `x` when it wraps around.
#[verifier::opaque]
pub open spec fn wrap_unsigned(x: int) -> u32 {
    (x % 0x0001_0000_0000) as u32
}

/// The value of the kind `i32` nearest to `x`.
pub open spec fn saturate_signed(x: int) -> i32 {
    if x < i32::MIN {
        i32::MIN
    } else if x > i32::MAX {
        i32::MAX
    } else {
        x as i32
    }
}

/// The value of the kind `u32` nearest to `x`.
pub open spec fn saturate_unsigned(x: int) -> u32 {
    if x < 0 {
        0
    } else if x > u32::MAX {
        u32::MAX
    } else {
        x as u32
    }
}

/// The bit pattern of the single precision number 0.0.
pub const FLOAT_ZERO: u32 = 0;

/// The bit pattern of the single precision number 1.0.
pub const FLOAT_ONE: u32 = 0x3f80_0000;

/// The bit pattern of positive infinity.
pub const FLOAT_INFINITY: u32 = 0x7f80_0000;

/// Every bit of a single precision number but its sign bit.
pub const FLOAT_MAGNITUDE: u32 = 0x7fff_ffff;

/// The bit pattern of the single precision number 2.0.
pub const FLOAT_TWO: u32 = 0x4000_0000;

/// The bit pattern of the single precision number nearest to the least
/// value of `i8`.
pub const FLOAT_I8_MIN: u32 = 0xc300_0000;

/// The bit pattern of the single precision number nearest to the greatest
/// value of `i8`.
pub const FLOAT_I8_MAX: u32 = 0x42fe_0000;

/// The bit pattern of the single precision number nearest to the greatest
/// value of `u8`.
pub const FLOAT_U8_MAX: u32 = 0x437f_0000;

/// The bit pattern of the single precision number nearest to the least
/// value of `i16`.
pub const FLOAT_I16_MIN: u32 = 0xc700_0000;

/// The bit pattern of the single precision number nearest to the greatest
/// value of `i16`.
pub const FLOAT_I16_MAX: u32 = 0x46ff_fe00;

/// The bit pattern of the single precision number nearest to the greatest
/// value of `u16`.
pub const FLOAT_U16_MAX: u32 = 0x477f_ff00;

/// The bit pattern of the single precision number nearest to the least
/// value of `i32`.
pub const FLOAT_I32_MIN: u32 = 0xcf00_0000;

/// The bit pattern of the single precision number nearest to the greatest
/// value of `i32`.
pub const FLOAT_I32_MAX: u32 = 0x4f00_0000;

/// The bit pattern of the single precision number nearest to the greatest
/// value of `u32`.
pub const FLOAT_U32_MAX: u32 = 0x4f80_0000;

/// The bit pattern of the single precision number nearest to the least
/// value of `i64`.
pub const FLOAT_I64_MIN: u32 = 0xdf00_0000;

/// The bit pattern of the single precision number nearest to the greatest
/// value of `i64`.
pub const FLOAT_I64_MAX: u32 = 0x5f00_0000;

/// The bit pattern of the single precision number nearest to the greatest
/// value of `u64`.
pub const FLOAT_U64_MAX: u32 = 0x5f80_0000;

/// The bit pattern `x` with its sign bit cleared.
pub open spec fn float_abs(x: u32) -> u32 {
    x & FLOAT_MAGNITUDE
}

/// The magnitude bits of `x` with the sign bit of `sign`.
pub open spec fn float_copysign(x: u32, sign: u32) -> u32 {
    (sign & SIGN_BIT) | (x & FLOAT_MAGNITUDE)
}

/// Whether the bit pattern `x` is that of a NaN.
pub open spec fn float_is_nan(x: u32) -> bool {
    (x & FLOAT_MAGNITUDE) > FLOAT_INFINITY
}

/// An integer by which numbers that are not NaN compare as their values do:
/// the magnitude bits, negated where the sign bit is set. Both zeros have
/// the key 0.
pub open spec fn float_key(x: u32) -> int {
    if x & SIGN_BIT != 0 {
        -((x & FLOAT_MAGNITUDE) as int)
    } else {
        (x & FLOAT_MAGNITUDE) as int
    }
}

/// Whether the numbers with the bit patterns `a` and `b` are equal. A NaN is
/// equal to nothing, and the two zeros are equal.
pub open spec fn spec_float_eq(a: u32, b: u32) -> bool {
    !float_is_nan(a) && !float_is_nan(b) && float_key(a) == float_key(b)
}

/// Whether the number with the bit pattern `a` is less than that with the
/// bit pattern `b`. A NaN is less than nothing, and nothing is less than it.
pub open spec fn spec_float_lt(a: u32, b: u32) -> bool {
    !float_is_nan(a) && !float_is_nan(b) && float_key(a) < float_key(b)
}

/// Whether the number with the bit pattern `a` is less than or equal to that
/// with the bit pattern `b`.
pub open spec fn spec_float_le(a: u32, b: u32) -> bool {
    !float_is_nan(a) && !float_is_nan(b) && float_key(a) <= float_key(b)
}

/// The magnitude bits of a bit pattern fit in a signed lane.
pub proof fn lemma_float_magnitude(x: u32)
    by (bit_vector)
    ensures
        x & 0x7fff_ffff <= 0x7fff_ffff,
{
}

/// The comparison key of a number that is not NaN, computed.
fn float_key_of(x: u32) -> (k: i64)
    ensures
        k == float_key(x),
{
    let magnitude = x & FLOAT_MAGNITUDE;
    proof {
        lemma_float_magnitude(x);
    }
    if x & SIGN_BIT != 0 {
        -(magnitude as i64)
    } else {
        magnitude as i64
    }
}

/// Tests whether the bit pattern `x` is that of a NaN.
#[verifier::when_used_as_spec(float_is_nan)]
pub fn is_nan(x: u32) -> (r: bool)
    ensures
        r == float_is_nan(x),
{
    (x & FLOAT_MAGNITUDE) > FLOAT_INFINITY
}

/// Compares two bit patterns for equality as numbers.
#[verifier::when_used_as_spec(spec_float_eq)]
pub fn float_eq(a: u32, b: u32) -> (r: bool)
    ensures
        r == spec_float_eq(a, b),
{
    !is_nan(a) && !is_nan(b) && float_key_of(a) == float_key_of(b)
}

/// Tests whether the first bit pattern is that of a smaller number than the
/// second.
#[verifier::when_used_as_spec(spec_float_lt)]
pub fn float_lt(a: u32, b: u32) -> (r: bool)
    ensures
        r == spec_float_lt(a, b),
{
    !is_nan(a) && !is_nan(b) && float_key_of(a) < float_key_of(b)
}

/// Tests whether the first bit pattern is that of a number no greater than
/// the second.
#[verifier::when_used_as_spec(spec_float_le)]
pub fn float_le(a: u32, b: u32) -> (r: bool)
    ensures
        r == spec_float_le(a, b),
{
    !is_nan(a) && !is_nan(b) && float_key_of(a) <= float_key_of(b)
}

/// Selecting with the magnitude bits as the mask takes the sign bit from the
/// first operand and the other bits from the second.
pub proof fn lemma_select_magnitude(a: u32, b: u32)
    by (bit_vector)
    ensures
        select_unsigned(i32::MAX, a, b) == float_copysign(b, a),
        select_unsigned(i32::MAX, 0, b) == float_abs(b),
{
}

/// Byte `j` of the lane, the least significant byte being byte 0.
pub open spec fn byte(x: u32, j: int) -> u8 {
    if j == 0 {
        x as u8
    } else if j == 1 {
        (x >> 8u32) as u8
    } else if j == 2 {
        (x >> 16u32) as u8
    } else {
        (x >> 24u32) as u8
    }
}

/// The lane made of the given bytes, the least significant byte first.
pub open spec fn spec_join(b0: u8, b1: u8, b2: u8, b3: u8) -> u32 {
    (b0 as u32) | (b1 as u32) << 8u32 | (b2 as u32) << 16u32 | (b3 as u32) << 24u32
}

/// The bytes of the lanes of `s` in order, for each lane the least
/// significant byte first.
pub open spec fn image(s: Seq<u32>) -> Seq<u8> {
    Seq::new(s.len() * 4, |j: int| byte(s[j / 4], j % 4))
}

/// The lanes that the bytes of `b` make up, 4 bytes to a lane.
pub open spec fn lanes_of_image(b: Seq<u8>) -> Seq<u32> {
    Seq::new(b.len() / 4, |i: int| spec_join(b[4 * i], b[4 * i + 1], b[4 * i + 2], b[4 * i + 3]))
}

/// Splits a lane into its bytes, the least significant byte first.
pub fn bytes(x: u32) -> (r: [u8; 4])
    ensures
        r@ == Seq::new(4, |j: int| byte(x, j)),
{
    [
        #[verifier::truncate] (x as u8),
        #[verifier::truncate] ((x >> 8u32) as u8),
        #[verifier::truncate] ((x >> 16u32) as u8),
        #[verifier::truncate] ((x >> 24u32) as u8),
    ]
}

/// Joins bytes to a lane, the least significant byte first.
#[verifier::when_used_as_spec(spec_join)]
pub fn join(b0: u8, b1: u8, b2: u8, b3: u8) -> (r: u32)
    ensures
        r == spec_join(b0, b1, b2, b3),
{
    (b0 as u32) | (b1 as u32) << 8u32 | (b2 as u32) << 16u32 | (b3 as u32) << 24u32
}

/// Splitting a lane into its bytes and joining them gives the lane back,
/// the bytes of a joined lane are the bytes that were joined, and the bytes of
/// zero are zero.
pub proof fn lemma_bytes_round_trip(x: u32, b0: u8, b1: u8, b2: u8, b3: u8)
    by (bit_vector)
    ensures
        spec_join(byte(x, 0), byte(x, 1), byte(x, 2), byte(x, 3)) == x,
        byte(spec_join(b0, b1, b2, b3), 0) == b0,
        byte(spec_join(b0, b1, b2, b3), 1) == b1,
        byte(spec_join(b0, b1, b2, b3), 2) == b2,
        byte(spec_join(b0, b1, b2, b3), 3) == b3,
        byte(0, 0) == 0,
        byte(0, 1) == 0,
        byte(0, 2) == 0,
        byte(0, 3) == 0,
{
}

/// A mask lane that is all ones selects the second operand, one that is all
/// zeros the first.
pub proof fn lemma_select_signed(m: i32, a: i32, b: i32)
    by (bit_vector)
    ensures
        m == -1i32 ==> (a & !m) | (b & m) == b,
        m == 0i32 ==> (a & !m) | (b & m) == a,
{
}

/// A mask lane that is all ones selects the second operand, one that is all
/// zeros the first; and selecting between unsigned lanes gives the bit
/// pattern that selecting between the signed lanes of the same bits gives.
pub proof fn lemma_select_unsigned(m: i32, a: u32, b: u32)
    by (bit_vector)
    ensures
        m == -1i32 ==> (a & !(m as u32)) | (b & (m as u32)) == b,
        m == 0i32 ==> (a & !(m as u32)) | (b & (m as u32)) == a,
        (a & !(m as u32)) | (b & (m as u32)) == (((a as i32) & !m) | ((b as i32) & m)) as u32,
{
}

/// Reading a bit pattern as signed and back as unsigned, or the other way
/// round, changes nothing.
pub proof fn lemma_cast_round_trip(x: u32, y: i32)
    by (bit_vector)
    ensures
        ((x as i32) as u32) == x,
        ((y as u32) as i32) == y,
{
}

/// Shifting a signed lane right by all but one of its bits gives the mask
/// lane of its sign.
pub proof fn lemma_sign_mask(x: i32)
    by (bit_vector)
    ensures
        x < 0 ==> x >> 31i32 == -1i32,
        x >= 0 ==> x >> 31i32 == 0i32,
{
}

/// Exclusive or with a mask lane: all zeros change nothing, all ones invert
/// every bit, which gives `-1 - x`.
pub proof fn lemma_xor_mask(x: i32)
    by (bit_vector)
    ensures
        x ^ 0i32 == x,
        x ^ -1i32 == !x,
        !x == -1 - x,
{
}

/// Selecting by the mask of the sign of `x` takes `b` where `x` is negative
/// and `a` where it is not.
pub proof fn lemma_select_by_sign_signed(x: i32, a: i32, b: i32)
    ensures
        select_signed(sign_mask(x), a, b) == (if x < 0 { b } else { a }),
{
    lemma_sign_mask(x);
    lemma_select_signed(sign_mask(x), a, b);
}

/// Selecting by the mask of the sign of `x` takes `b` where `x` is negative
/// and `a` where it is not.
pub proof fn lemma_select_by_sign_unsigned(x: i32, a: u32, b: u32)
    ensures
        select_unsigned(sign_mask(x), a, b) == (if x < 0 { b } else { a }),
{
    lemma_sign_mask(x);
    lemma_select_unsigned(sign_mask(x), a, b);
}

/// Adding two wrapped values with wrapping gives the wrapped sum.
pub proof fn lemma_wrapping_sum_signed(a: i32, b: i32, s: int, t: int)
    requires
        a == wrap_signed(s),
        b == wrap_signed(t),
    ensures
        a.wrapping_add(b) == wrap_signed(s + t),
{
    reveal(wrap_signed);
}

/// A value of the kind is what is left of it when it wraps around.
pub proof fn lemma_wrap_in_range_signed(a: i32)
    ensures
        wrap_signed(a as int) == a,
{
    reveal(wrap_signed);
}

/// Adding two wrapped values with wrapping gives the wrapped sum.
pub proof fn lemma_wrapping_sum_unsigned(a: u32, b: u32, s: int, t: int)
    requires
        a == wrap_unsigned(s),
        b == wrap_unsigned(t),
    ensures
        a.wrapping_add(b) == wrap_unsigned(s + t),
{
    reveal(wrap_unsigned);
}

/// A value of the kind is what is left of it when it wraps around.
pub proof fn lemma_wrap_in_range_unsigned(a: u32)
    ensures
        wrap_unsigned(a as int) == a,
{
    reveal(wrap_unsigned);
}

/// The wrapping product of two lanes is their product, wrapped.
pub proof fn lemma_wrapping_product_signed(a: i32, b: i32)
    ensures
        a.wrapping_mul(b) == wrap_signed(a * b),
{
    reveal(wrap_signed);
}

/// The wrapping product of two lanes is their product, wrapped.
pub proof fn lemma_wrapping_product_unsigned(a: u32, b: u32)
    ensures
        a.wrapping_mul(b) == wrap_unsigned(a * b),
{
    reveal(wrap_unsigned);
}

/// Inverting a lane where it is negative and subtracting the mask of its
/// sign gives its absolute value.
pub proof fn lemma_abs_signed(x: i32)
    ensures
        (x ^ sign_mask(x)).wrapping_sub(sign_mask(x)) == abs_signed(x),
{
    lemma_sign_mask(x);
    lemma_xor_mask(x);
}

/// The sign bit of a conjunction is set where both sign bits are, that of a
/// disjunction where one of them is.
pub proof fn lemma_sign_bits_signed(a: i32, b: i32)
    by (bit_vector)
    ensures
        (a & -2_147_483_648i32 != 0) == (a < 0),
        ((a & b) < 0) == (a < 0 && b < 0),
        ((a | b) < 0) == (a < 0 || b < 0),
{
}

/// The sign bit of a conjunction is set where both sign bits are, that of a
/// disjunction where one of them is.
pub proof fn lemma_sign_bits_unsigned(a: u32, b: u32)
    by (bit_vector)
    ensures
        (a & SIGN_BIT != 0) == sign_set_unsigned(a),
        sign_set_unsigned(a & b) == (sign_set_unsigned(a) && sign_set_unsigned(b)),
        sign_set_unsigned(a | b) == (sign_set_unsigned(a) || sign_set_unsigned(b)),
{
}

} // verus!
