//! Lanes of 64 bits: the scalar kinds `i64` and `u64`
//! and the bit patterns of double precision numbers.
//!
//! A comparison answers with a signed lane that is either [`ALL_ONES`] or
//! [`ALL_ZEROS`]. Selection, saturation and sign tests are defined here on
//! single lanes; the vector types apply them lane by lane.
use vstd::prelude::*;

verus! {

/// The lane of a mask that stands for true: every bit set.
pub const ALL_ONES: i64 = -1;

/// The lane of a mask that stands for false: no bit set.
pub const ALL_ZEROS: i64 = 0;

/// The distance by which a signed lane is shifted right to spread its sign
/// bit over the whole lane.
pub const SIGN_SHIFT: i64 = 63;

/// The sign bit of a lane, as an unsigned lane.
pub const SIGN_BIT: u64 = 0x8000_0000_0000_0000;

/// The mask lane that stands for `b`.
pub open spec fn mask(b: bool) -> i64 {
    if b {
        ALL_ONES
    } else {
        ALL_ZEROS
    }
}

/// Makes the mask lane that stands for `b`.
pub fn mask_of(b: bool) -> (m: i64)
    ensures
        m == mask(b),
{
    if b {
        ALL_ONES
    } else {
        ALL_ZEROS
    }
}

/// Whether `m` is a mask lane: all ones or all zeros, nothing in between.
pub open spec fn is_mask(m: i64) -> bool {
    m == ALL_ONES || m == ALL_ZEROS
}

/// Whether the sign bit of a signed lane is set.
pub open spec fn sign_set_signed(x: i64) -> bool {
    x < 0
}

/// Whether the sign bit of an unsigned lane is set.
pub open spec fn sign_set_unsigned(x: u64) -> bool {
    x >= SIGN_BIT
}

/// The bits of a signed lane, inverted.
pub open spec fn not_signed(x: i64) -> i64 {
    !x
}

/// The bits of an unsigned lane, inverted.
pub open spec fn not_unsigned(x: u64) -> u64 {
    !x
}

/// Whether `k` is a distance by which a signed lane can be shifted.
pub open spec fn shift_in_range_signed(k: i64) -> bool {
    0 <= k < 64
}

/// Whether `k` is a distance by which an unsigned lane can be shifted.
pub open spec fn shift_in_range_unsigned(k: u64) -> bool {
    k < 64
}

/// A signed lane shifted left by `k` bits; bits that leave the lane are lost.
pub open spec fn shl_signed(x: i64, k: i64) -> i64 {
    x << k
}

/// A signed lane shifted right by `k` bits; the sign bit fills the gap.
pub open spec fn shr_signed(x: i64, k: i64) -> i64 {
    x >> k
}

/// An unsigned lane shifted left by `k` bits; bits that leave the lane are
/// lost.
pub open spec fn shl_unsigned(x: u64, k: u64) -> u64 {
    x << k
}

/// An unsigned lane shifted right by `k` bits; zeros fill the gap.
pub open spec fn shr_unsigned(x: u64, k: u64) -> u64 {
    x >> k
}

/// The mask lane made of the sign bit of `x`.
pub open spec fn sign_mask(x: i64) -> i64 {
    x >> SIGN_SHIFT
}

/// The bits of `a` where `m` has a zero bit, the bits of `b` where `m` has a
/// one bit.
pub open spec fn select_signed(m: i64, a: i64, b: i64) -> i64 {
    (a & !m) | (b & m)
}

/// The bits of `a` where `m` has a zero bit, the bits of `b` where `m` has a
/// one bit, for lanes that are not signed integers.
pub open spec fn select_unsigned(m: i64, a: u64, b: u64) -> u64 {
    (a & !(m as u64)) | (b & (m as u64))
}

/// The signed lane with the bit pattern of `x`.
pub open spec fn to_signed(x: u64) -> i64 {
    x as i64
}

/// The unsigned lane with the bit pattern of `x`.
pub open spec fn to_unsigned(x: i64) -> u64 {
    x as u64
}

/// The absolute value of `x`, wrapped into the lane: the least value of the
/// kind has no positive counterpart and stays as it is.
pub open spec fn abs_signed(x: i64) -> i64 {
    if x < 0 {
        (0 as i64).wrapping_sub(x)
    } else {
        x
    }
}

/// The quotient of `x` by `y`, rounded towards zero and wrapped into the lane.
///
/// The one quotient that does not fit, that of the least value by -1, wraps
/// to the least value. For `y == 0` nothing is claimed.
pub open spec fn spec_wrapping_div(x: i64, y: i64) -> i64 {
    match x.checked_div(y) {
        Some(q) => q,
        None => x,
    }
}

/// Divides `x` by `y`, rounding towards zero and wrapping on overflow.
#[verifier::when_used_as_spec(spec_wrapping_div)]
pub fn wrapping_div(x: i64, y: i64) -> (q: i64)
    requires
        y != 0,
    ensures
        q == spec_wrapping_div(x, y),
{
    match x.checked_div(y) {
        Some(q) => q,
        None => x,
    }
}

/// The quotient of `x` by `y`, rounded down. For `y == 0` nothing is
/// claimed.
pub open spec fn div_unsigned(x: u64, y: u64) -> u64 {
    x / y
}

/// The value of the kind `i64` that differs from `x` by a multiple of two to
/// the power 64: what is left of `x` when it wraps around.
#[verifier::opaque]
pub open spec fn wrap_signed(x: int) -> i64 {
    let m = x % 0x0001_0000_0000_0000_0000;
    if m > i64::MAX {
        (m - 0x0001_0000_0000_0000_0000) as i64
    } else {
        m as i64
    }
}

/// The value of the kind `u64` that differs from `x` by a multiple of two to
/// the power 64: what is left of `x` when it wraps around.
#[verifier::opaque]
pub open spec fn wrap_unsigned(x: int) -> u64 {
    (x % 0x0001_0000_0000_0000_0000) as u64
}

/// The value of the kind `i64` nearest to `x`.
pub open spec fn saturate_signed(x: int) -> i64 {
    if x < i64::MIN {
        i64::MIN
    } else if x > i64::MAX {
        i64::MAX
    } else {
        x as i64
    }
}

/// The value of the kind `u64` nearest to `x`.
pub open spec fn saturate_unsigned(x: int) -> u64 {
    if x < 0 {
        0
    } else if x > u64::MAX {
        u64::MAX
    } else {
        x as u64
    }
}

/// The bit pattern of the double precision number 0.0.
pub const FLOAT_ZERO: u64 = 0;

/// The bit pattern of the double precision number 1.0.
pub const FLOAT_ONE: u64 = 0x3ff0_0000_0000_0000;

/// The bit pattern of positive infinity.
pub const FLOAT_INFINITY: u64 = 0x7ff0_0000_0000_0000;

/// Every bit of a double precision number but its sign bit.
pub const FLOAT_MAGNITUDE: u64 = 0x7fff_ffff_ffff_ffff;

/// The bit pattern of the double precision number 2.0.
pub const FLOAT_TWO: u64 = 0x4000_0000_0000_0000;

/// The bit pattern of the double precision number nearest to the least
/// value of `i8`.
pub const FLOAT_I8_MIN: u64 = 0xc060_0000_0000_0000;

/// The bit pattern of the double precision number nearest to the greatest
/// value of `i8`.
pub const FLOAT_I8_MAX: u64 = 0x405f_c000_0000_0000;

/// The bit pattern of the double precision number nearest to the greatest
/// value of `u8`.
pub const FLOAT_U8_MAX: u64 = 0x406f_e000_0000_0000;

/// The bit pattern of the double precision number nearest to the least
/// value of `i16`.
pub const FLOAT_I16_MIN: u64 = 0xc0e0_0000_0000_0000;

/// The bit pattern of the double precision number nearest to the greatest
/// value of `i16`.
pub const FLOAT_I16_MAX: u64 = 0x40df_ffc0_0000_0000;

/// The bit pattern of the double precision number nearest to the greatest
/// value of `u16`.
pub const FLOAT_U16_MAX: u64 = 0x40ef_ffe0_0000_0000;

/// The bit pattern of the double precision number nearest to the least
/// value of `i32`.
pub const FLOAT_I32_MIN: u64 = 0xc1e0_0000_0000_0000;

/// The bit pattern of the double precision number nearest to the greatest
/// value of `i32`.
pub const FLOAT_I32_MAX: u64 = 0x41df_ffff_ffc0_0000;

/// The bit pattern of the double precision number nearest to the greatest
/// value of `u32`.
pub const FLOAT_U32_MAX: u64 = 0x41ef_ffff_ffe0_0000;

/// The bit pattern of the double precision number nearest to the least
/// value of `i64`.
pub const FLOAT_I64_MIN: u64 = 0xc3e0_0000_0000_0000;

/// The bit pattern of the double precision number nearest to the greatest
/// value of `i64`.
pub const FLOAT_I64_MAX: u64 = 0x43e0_0000_0000_0000;

/// The bit pattern of the double precision number nearest to the greatest
/// value of `u64`.
pub const FLOAT_U64_MAX: u64 = 0x43f0_0000_0000_0000;

/// The bit pattern `x` with its sign bit cleared.
pub open spec fn float_abs(x: u64) -> u64 {
    x & FLOAT_MAGNITUDE
}

/// The magnitude bits of `x` with the sign bit of `sign`.
pub open spec fn float_copysign(x: u64, sign: u64) -> u64 {
    (sign & SIGN_BIT) | (x & FLOAT_MAGNITUDE)
}

/// Whether the bit pattern `x` is that of a NaN.
pub open spec fn float_is_nan(x: u64) -> bool {
    (x & FLOAT_MAGNITUDE) > FLOAT_INFINITY
}

/// An integer by which numbers that are not NaN compare as their values do:
/// the magnitude bits, negated where the sign bit is set. Both zeros have
/// the key 0.
pub open spec fn float_key(x: u64) -> int {
    if x & SIGN_BIT != 0 {
        -((x & FLOAT_MAGNITUDE) as int)
    } else {
        (x & FLOAT_MAGNITUDE) as int
    }
}

/// Whether the numbers with the bit patterns `a` and `b` are equal. A NaN is
/// equal to nothing, and the two zeros are equal.
pub open spec fn spec_float_eq(a: u64, b: u64) -> bool {
    !float_is_nan(a) && !float_is_nan(b) && float_key(a) == float_key(b)
}

/// Whether the number with the bit pattern `a` is less than that with the
/// bit pattern `b`. A NaN is less than nothing, and nothing is less than it.
pub open spec fn spec_float_lt(a: u64, b: u64) -> bool {
    !float_is_nan(a) && !float_is_nan(b) && float_key(a) < float_key(b)
}

/// Whether the number with the bit pattern `a` is less than or equal to that
/// with the bit pattern `b`.
pub open spec fn spec_float_le(a: u64, b: u64) -> bool {
    !float_is_nan(a) && !float_is_nan(b) && float_key(a) <= float_key(b)
}

/// The magnitude bits of a bit pattern fit in a signed lane.
pub proof fn lemma_float_magnitude(x: u64)
    by (bit_vector)
    ensures
        x & 0x7fff_ffff_ffff_ffff <= 0x7fff_ffff_ffff_ffff,
{
}

/// The comparison key of a number that is not NaN, computed.
fn float_key_of(x: u64) -> (k: i64)
    ensures
        k == float_key(x),
{
    let magnitude = x & FLOAT_MAGNITUDE;
    proof {
        lemma_float_magnitude(x);
    }
    if x & SIGN_BIT != 0 {
        -(magnitude as i64)
    } else {
        magnitude as i64
    }
}

/// Tests whether the bit pattern `x` is that of a NaN.
#[verifier::when_used_as_spec(float_is_nan)]
pub fn is_nan(x: u64) -> (r: bool)
    ensures
        r == float_is_nan(x),
{
    (x & FLOAT_MAGNITUDE) > FLOAT_INFINITY
}

/// Compares two bit patterns for equality as numbers.
#[verifier::when_used_as_spec(spec_float_eq)]
pub fn float_eq(a: u64, b: u64) -> (r: bool)
    ensures
        r == spec_float_eq(a, b),
{
    !is_nan(a) && !is_nan(b) && float_key_of(a) == float_key_of(b)
}

/// Tests whether the first bit pattern is that of a smaller number than the
/// second.
#[verifier::when_used_as_spec(spec_float_lt)]
pub fn float_lt(a: u64, b: u64) -> (r: bool)
    ensures
        r == spec_float_lt(a, b),
{
    !is_nan(a) && !is_nan(b) && float_key_of(a) < float_key_of(b)
}

/// Tests whether the first bit pattern is that of a number no greater than
/// the second.
#[verifier::when_used_as_spec(spec_float_le)]
pub fn float_le(a: u64, b: u64) -> (r: bool)
    ensures
        r == spec_float_le(a, b),
{
    !is_nan(a) && !is_nan(b) && float_key_of(a) <= float_key_of(b)
}

/// Selecting with the magnitude bits as the mask takes the sign bit from the
/// first operand and the other bits from the second.
pub proof fn lemma_select_magnitude(a: u64, b: u64)
    by (bit_vector)
    ensures
        select_unsigned(i64::MAX, a, b) == float_copysign(b, a),
        select_unsigned(i64::MAX, 0, b) == float_abs(b),
{
}

/// Byte `j` of the lane, the least significant byte being byte 0.
pub open spec fn byte(x: u64, j: int) -> u8 {
    if j == 0 {
        x as u8
    } else if j == 1 {
        (x >> 8u64) as u8
    } else if j == 2 {
        (x >> 16u64) as u8
    } else if j == 3 {
        (x >> 24u64) as u8
    } else if j == 4 {
        (x >> 32u64) as u8
    } else if j == 5 {
        (x >> 40u64) as u8
    } else if j == 6 {
        (x >> 48u64) as u8
    } else {
        (x >> 56u64) as u8
    }
}

/// The lane made of the given bytes, the least significant byte first.
pub open spec fn spec_join(b0: u8, b1: u8, b2: u8, b3: u8, b4: u8, b5: u8, b6: u8, b7: u8) -> u64 {
    (b0 as u64)
        | (b1 as u64) << 8u64
        | (b2 as u64) << 16u64
        | (b3 as u64) << 24u64
        | (b4 as u64) << 32u64
        | (b5 as u64) << 40u64
        | (b6 as u64) << 48u64
        | (b7 as u64) << 56u64
}

/// The bytes of the lanes of `s` in order, for each lane the least
/// significant byte first.
pub open spec fn image(s: Seq<u64>) -> Seq<u8> {
    Seq::new(s.len() * 8, |j: int| byte(s[j / 8], j % 8))
}

/// The lanes that the bytes of `b` make up, 8 bytes to a lane.
pub open spec fn lanes_of_image(b: Seq<u8>) -> Seq<u64> {
    Seq::new(
        b.len() / 8,
        |i: int|
            spec_join(
                b[8 * i],
                b[8 * i + 1],
                b[8 * i + 2],
                b[8 * i + 3],
                b[8 * i + 4],
                b[8 * i + 5],
                b[8 * i + 6],
                b[8 * i + 7],
            ),
    )
}

/// Splits a lane into its bytes, the least significant byte first.
pub fn bytes(x: u64) -> (r: [u8; 8])
    ensures
        r@ == Seq::new(8, |j: int| byte(x, j)),
{
    [
        #[verifier::truncate] (x as u8),
        #[verifier::truncate] ((x >> 8u64) as u8),
        #[verifier::truncate] ((x >> 16u64) as u8),
        #[verifier::truncate] ((x >> 24u64) as u8),
        #[verifier::truncate] ((x >> 32u64) as u8),
        #[verifier::truncate] ((x >> 40u64) as u8),
        #[verifier::truncate] ((x >> 48u64) as u8),
        #[verifier::truncate] ((x >> 56u64) as u8),
    ]
}

/// Joins bytes to a lane, the least significant byte first.
#[verifier::when_used_as_spec(spec_join)]
pub fn join(b0: u8, b1: u8, b2: u8, b3: u8, b4: u8, b5: u8, b6: u8, b7: u8) -> (r: u64)
    ensures
        r == spec_join(b0, b1, b2, b3, b4, b5, b6, b7),
{
    (b0 as u64)
        | (b1 as u64) << 8u64
        | (b2 as u64) << 16u64
        | (b3 as u64) << 24u64
        | (b4 as u64) << 32u64
        | (b5 as u64) << 40u64
        | (b6 as u64) << 48u64
        | (b7 as u64) << 56u64
}

/// Splitting a lane into its bytes and joining them gives the lane back,
/// the bytes of a joined lane are the bytes that were joined, and the bytes of
/// zero are zero.
pub proof fn lemma_bytes_round_trip(
    x: u64,
    b0: u8,
    b1: u8,
    b2: u8,
    b3: u8,
    b4: u8,
    b5: u8,
    b6: u8,
    b7: u8,
)
    by (bit_vector)
    ensures
        spec_join(
            byte(x, 0),
            byte(x, 1),
            byte(x, 2),
            byte(x, 3),
            byte(x, 4),
            byte(x, 5),
            byte(x, 6),
            byte(x, 7),
        ) == x,
        byte(spec_join(b0, b1, b2, b3, b4, b5, b6, b7), 0) == b0,
        byte(spec_join(b0, b1, b2, b3, b4, b5, b6, b7), 1) == b1,
        byte(spec_join(b0, b1, b2, b3, b4, b5, b6, b7), 2) == b2,
        byte(spec_join(b0, b1, b2, b3, b4, b5, b6, b7), 3) == b3,
        byte(spec_join(b0, b1, b2, b3, b4, b5, b6, b7), 4) == b4,
        byte(spec_join(b0, b1, b2, b3, b4, b5, b6, b7), 5) == b5,
        byte(spec_join(b0, b1, b2, b3, b4, b5, b6, b7), 6) == b6,
        byte(spec_join(b0, b1, b2, b3, b4, b5, b6, b7), 7) == b7,
        byte(0, 0) == 0,
        byte(0, 1) == 0,
        byte(0, 2) == 0,
        byte(0, 3) == 0,
        byte(0, 4) == 0,
        byte(0, 5) == 0,
        byte(0, 6) == 0,
        byte(0, 7) == 0,
{
}

/// A mask lane that is all ones selects the second operand, one that is all
/// zeros the first.
pub proof fn lemma_select_signed(m: i64, a: i64, b: i64)
    by (bit_vector)
    ensures
        m == -1i64 ==> (a & !m) | (b & m) == b,
        m == 0i64 ==> (a & !m) | (b & m) == a,
{
}

/// A mask lane that is all ones selects the second operand, one that is all
/// zeros the first; and selecting between unsigned lanes gives the bit
/// pattern that selecting between the signed lanes of the same bits gives.
pub proof fn lemma_select_unsigned(m: i64, a: u64, b: u64)
    by (bit_vector)
    ensures
        m == -1i64 ==> (a & !(m as u64)) | (b & (m as u64)) == b,
        m == 0i64 ==> (a & !(m as u64)) | (b & (m as u64)) == a,
        (a & !(m as u64)) | (b & (m as u64)) == (((a as i64) & !m) | ((b as i64) & m)) as u64,
{
}

/// Reading a bit pattern as signed and back as unsigned, or the other way
/// round, changes nothing.
pub proof fn lemma_cast_round_trip(x: u64, y: i64)
    by (bit_vector)
    ensures
        ((x as i64) as u64) == x,
        ((y as u64) as i64) == y,
{
}

/// Shifting a signed lane right by all but one of its bits gives the mask
/// lane of its sign.
pub proof fn lemma_sign_mask(x: i64)
    by (bit_vector)
    ensures
        x < 0 ==> x >> 63i64 == -1i64,
        x >= 0 ==> x >> 63i64 == 0i64,
{
}

/// Exclusive or with a mask lane: all zeros change nothing, all ones invert
/// every bit, which gives `-1 - x`.
pub proof fn lemma_xor_mask(x: i64)
    by (bit_vector)
    ensures
        x ^ 0i64 == x,
        x ^ -1i64 == !x,
        !x == -1 - x,
{
}

/// Selecting by the mask of the sign of `x` takes `b` where `x` is negative
/// and `a` where it is not.
pub proof fn lemma_select_by_sign_signed(x: i64, a: i64, b: i64)
    ensures
        select_signed(sign_mask(x), a, b) == (if x < 0 { b } else { a }),
{
    lemma_sign_mask(x);
    lemma_select_signed(sign_mask(x), a, b);
}

/// Selecting by the mask of the sign of `x` takes `b` where `x` is negative
/// and `a` where it is not.
pub proof fn lemma_select_by_sign_unsigned(x: i64, a: u64, b: u64)
    ensures
        select_unsigned(sign_mask(x), a, b) == (if x < 0 { b } else { a }),
{
    lemma_sign_mask(x);
    lemma_select_unsigned(sign_mask(x), a, b);
}

/// Adding two wrapped values with wrapping gives the wrapped sum.
pub proof fn lemma_wrapping_sum_signed(a: i64, b: i64, s: int, t: int)
    requires
        a == wrap_signed(s),
        b == wrap_signed(t),
    ensures
        a.wrapping_add(b) == wrap_signed(s + t),
{
    reveal(wrap_signed);
}

/// A value of the kind is what is left of it when it wraps around.
pub proof fn lemma_wrap_in_range_signed(a: i64)
    ensures
        wrap_signed(a as int) == a,
{
    reveal(wrap_signed);
}

/// Adding two wrapped values with wrapping gives the wrapped sum.
pub proof fn lemma_wrapping_sum_unsigned(a: u64, b: u64, s: int, t: int)
    requires
        a == wrap_unsigned(s),
        b == wrap_unsigned(t),
    ensures
        a.wrapping_add(b) == wrap_unsigned(s + t),
{
    reveal(wrap_unsigned);
}

/// A value of the kind is what is left of it when it wraps around.
pub proof fn lemma_wrap_in_range_unsigned(a: u64)
    ensures
        wrap_unsigned(a as int) == a,
{
    reveal(wrap_unsigned);
}

/// The wrapping product of two lanes is their product, wrapped.
pub proof fn lemma_wrapping_product_signed(a: i64, b: i64)
    ensures
        a.wrapping_mul(b) == wrap_signed(a * b),
{
    reveal(wrap_signed);
}

/// The wrapping product of two lanes is their product, wrapped.
pub proof fn lemma_wrapping_product_unsigned(a: u64, b: u64)
    ensures
        a.wrapping_mul(b) == wrap_unsigned(a * b),
{
    reveal(wrap_unsigned);
}

/// Inverting a lane where it is negative and subtracting the mask of its
/// sign gives its absolute value.
pub proof fn lemma_abs_signed(x: i64)
    ensures
        (x ^ sign_mask(x)).wrapping_sub(sign_mask(x)) == abs_signed(x),
{
    lemma_sign_mask(x);
    lemma_xor_mask(x);
}

/// The sign bit of a conjunction is set where both sign bits are, that of a
/// disjunction where one of them is.
pub proof fn lemma_sign_bits_signed(a: i64, b: i64)
    by (bit_vector)
    ensures
        (a & -9_223_372_036_854_775_808i64 != 0) == (a < 0),
        ((a & b) < 0) == (a < 0 && b < 0),
        ((a | b) < 0) == (a < 0 || b < 0),
{
}

/// The sign bit of a conjunction is set where both sign bits are, that of a
/// disjunction where one of them is.
pub proof fn lemma_sign_bits_unsigned(a: u64, b: u64)
    by (bit_vector)
    ensures
        (a & SIGN_BIT != 0) == sign_set_unsigned(a),
        sign_set_unsigned(a & b) == (sign_set_unsigned(a) && sign_set_unsigned(b)),
        sign_set_unsigned(a | b) == (sign_set_unsigned(a) || sign_set_unsigned(b)),
{
}

} // verus!
