//! Lanes of 16 bits: the scalar kinds `i16` and `u16`.
//!
//! A comparison answers with a signed lane that is either [`ALL_ONES`] or
//! [`ALL_ZEROS`]. Selection, saturation and sign tests are defined here on
//! single lanes; the vector types apply them lane by lane.
use vstd::prelude::*;

verus! {

/// The lane of a mask that stands for true: every bit set.
pub const ALL_ONES: i16 = -1;

/// The lane of a mask that stands for false: no bit set.
pub const ALL_ZEROS: i16 = 0;

/// The distance by which a signed lane is shifted right to spread its sign
/// bit over the whole lane.
pub const SIGN_SHIFT: i16 = 15;

/// The sign bit of a lane, as an unsigned lane.
pub const SIGN_BIT: u16 = 0x8000;

/// The mask lane that stands for `b`.
pub open spec fn mask(b: bool) -> i16 {
    if b {
        ALL_ONES
    } else {
        ALL_ZEROS
    }
}

/// Makes the mask lane that stands for `b`.
pub fn mask_of(b: bool) -> (m: i16)
    ensures
        m == mask(b),
{
    if b {
        ALL_ONES
    } else {
        ALL_ZEROS
    }
}

/// Whether `m` is a mask lane: all ones or all zeros, nothing in between.
pub open spec fn is_mask(m: i16) -> bool {
    m == ALL_ONES || m == ALL_ZEROS
}

/// Whether the sign bit of a signed lane is set.
pub open spec fn sign_set_signed(x: i16) -> bool {
    x < 0
}

/// Whether the sign bit of an unsigned lane is set.
pub open spec fn sign_set_unsigned(x: u16) -> bool {
    x >= SIGN_BIT
}

/// The bits of a signed lane, inverted.
pub open spec fn not_signed(x: i16) -> i16 {
    !x
}

/// The bits of an unsigned lane, inverted.
pub open spec fn not_unsigned(x: u16) -> u16 {
    !x
}

/// Whether `k` is a distance by which a signed lane can be shifted.
pub open spec fn shift_in_range_signed(k: i16) -> bool {
    0 <= k < 16
}

/// Whether `k` is a distance by which an unsigned lane can be shifted.
pub open spec fn shift_in_range_unsigned(k: u16) -> bool {
    k < 16
}

/// A signed lane shifted left by `k` bits; bits that leave the lane are lost.
pub open spec fn shl_signed(x: i16, k: i16) -> i16 {
    x << k
}

/// A signed lane shifted right by `k` bits; the sign bit fills the gap.
pub open spec fn shr_signed(x: i16, k: i16) -> i16 {
    x >> k
}

/// An unsigned lane shifted left by `k` bits; bits that leave the lane are
/// lost.
pub open spec fn shl_unsigned(x: u16, k: u16) -> u16 {
    x << k
}

/// An unsigned lane shifted right by `k` bits; zeros fill the gap.
pub open spec fn shr_unsigned(x: u16, k: u16) -> u16 {
    x >> k
}

/// The mask lane made of the sign bit of `x`.
pub open spec fn sign_mask(x: i16) -> i16 {
    x >> SIGN_SHIFT
}

/// The bits of `a` where `m` has a zero bit, the bits of `b` where `m` has a
/// one bit.
pub open spec fn select_signed(m: i16, a: i16, b: i16) -> i16 {
    (a & !m) | (b & m)
}

/// The bits of `a` where `m` has a zero bit, the bits of `b` where `m` has a
/// one bit, for lanes that are not signed integers.
pub open spec fn select_unsigned(m: i16, a: u16, b: u16) -> u16 {
    (a & !(m as u16)) | (b & (m as u16))
}

/// The signed lane with the bit pattern of `x`.
pub open spec fn to_signed(x: u16) -> i16 {
    x as i16
}

/// The unsigned lane with the bit pattern of `x`.
pub open spec fn to_unsigned(x: i16) -> u16 {
    x as u16
}

/// The absolute value of `x`, wrapped into the lane: the least value of the
/// kind has no positive counterpart and stays as it is.
pub open spec fn abs_signed(x: i16) -> i16 {
    if x < 0 {
        (0 as i16).wrapping_sub(x)
    } else {
        x
    }
}

/// The quotient of `x` by `y`, rounded towards zero and wrapped into the lane.
///
/// The one quotient that does not fit, that of the least value by -1, wraps
/// to the least value. For `y == 0` nothing is claimed.
pub open spec fn spec_wrapping_div(x: i16, y: i16) -> i16 {
    match x.checked_div(y) {
        Some(q) => q,
        None => x,
    }
}

/// Divides `x` by `y`, rounding towards zero and wrapping on overflow.
#[verifier::when_used_as_spec(spec_wrapping_div)]
pub fn wrapping_div(x: i16, y: i16) -> (q: i16)
    requires
        y != 0,
    ensures
        q == spec_wrapping_div(x, y),
{
    match x.checked_div(y) {
        Some(q) => q,
        None => x,
    }
}

/// The quotient of `x` by `y`, rounded down. For `y == 0` nothing is
/// claimed.
pub open spec fn div_unsigned(x: u16, y: u16) -> u16 {
    x / y
}

/// The value of the kind `i16` that differs from `x` by a multiple of two to
/// the power 16: what is left of `x` when it wraps around.
#[verifier::opaque]
pub open spec fn wrap_signed(x: int) -> i16 {
    let m = x % 0x0001_0000;
    if m > i16::MAX {
        (m - 0x0001_0000) as i16
    } else {
        m as i16
    }
}

/// The value of the kind `u16` that differs from `x` by a multiple of two to
/// the power 16: what is left of `x` when it wraps around.
#[verifier::opaque]
pub open spec fn wrap_unsigned(x: int) -> u16 {
    (x % 0x0001_0000) as u16
}

/// The value of the kind `i16` nearest to `x`.
pub open spec fn saturate_signed(x: int) -> i16 {
    if x < i16::MIN {
        i16::MIN
    } else if x > i16::MAX {
        i16::MAX
    } else {
        x as i16
    }
}

/// The value of the kind `u16` nearest to `x`.
pub open spec fn saturate_unsigned(x: int) -> u16 {
    if x < 0 {
        0
    } else if x > u16::MAX {
        u16::MAX
    } else {
        x as u16
    }
}

/// Byte `j` of the lane, the least significant byte being byte 0.
pub open spec fn byte(x: u16, j: int) -> u8 {
    if j == 0 {
        x as u8
    } else {
        (x >> 8u16) as u8
    }
}

/// The lane made of the given bytes, the least significant byte first.
pub open spec fn spec_join(b0: u8, b1: u8) -> u16 {
    (b0 as u16) | (b1 as u16) << 8u16
}

/// The bytes of the lanes of `s` in order, for each lane the least
/// significant byte first.
pub open spec fn image(s: Seq<u16>) -> Seq<u8> {
    Seq::new(s.len() * 2, |j: int| byte(s[j / 2], j % 2))
}

/// The lanes that the bytes of `b` make up, 2 bytes to a lane.
pub open spec fn lanes_of_image(b: Seq<u8>) -> Seq<u16> {
    Seq::new(b.len() / 2, |i: int| spec_join(b[2 * i], b[2 * i + 1]))
}

/// Splits a lane into its bytes, the least significant byte first.
pub fn bytes(x: u16) -> (r: [u8; 2])
    ensures
        r@ == Seq::new(2, |j: int| byte(x, j)),
{
    [
        #[verifier::truncate] (x as u8),
        #[verifier::truncate] ((x >> 8u16) as u8),
    ]
}

/// Joins bytes to a lane, the least significant byte first.
#[verifier::when_used_as_spec(spec_join)]
pub fn join(b0: u8, b1: u8) -> (r: u16)
    ensures
        r == spec_join(b0, b1),
{
    (b0 as u16) | (b1 as u16) << 8u16
}

/// Splitting a lane into its bytes and joining them gives the lane back,
/// the bytes of a joined lane are the bytes that were joined, and the bytes of
/// zero are zero.
pub proof fn lemma_bytes_round_trip(x: u16, b0: u8, b1: u8)
    by (bit_vector)
    ensures
        spec_join(byte(x, 0), byte(x, 1)) == x,
        byte(spec_join(b0, b1), 0) == b0,
        byte(spec_join(b0, b1), 1) == b1,
        byte(0, 0) == 0,
        byte(0, 1) == 0,
{
}

/// A mask lane that is all ones selects the second operand, one that is all
/// zeros the first.
pub proof fn lemma_select_signed(m: i16, a: i16, b: i16)
    by (bit_vector)
    ensures
        m == -1i16 ==> (a & !m) | (b & m) == b,
        m == 0i16 ==> (a & !m) | (b & m) == a,
{
}

/// A mask lane that is all ones selects the second operand, one that is all
/// zeros the first; and selecting between unsigned lanes gives the bit
/// pattern that selecting between the signed lanes of the same bits gives.
pub proof fn lemma_select_unsigned(m: i16, a: u16, b: u16)
    by (bit_vector)
    ensures
        m == -1i16 ==> (a & !(m as u16)) | (b & (m as u16)) == b,
        m == 0i16 ==> (a & !(m as u16)) | (b & (m as u16)) == a,
        (a & !(m as u16)) | (b & (m as u16)) == (((a as i16) & !m) | ((b as i16) & m)) as u16,
{
}

/// Reading a bit pattern as signed and back as unsigned, or the other way
/// round, changes nothing.
pub proof fn lemma_cast_round_trip(x: u16, y: i16)
    by (bit_vector)
    ensures
        ((x as i16) as u16) == x,
        ((y as u16) as i16) == y,
{
}

/// Shifting a signed lane right by all but one of its bits gives the mask
/// lane of its sign.
pub proof fn lemma_sign_mask(x: i16)
    by (bit_vector)
    ensures
        x < 0 ==> x >> 15i16 == -1i16,
        x >= 0 ==> x >> 15i16 == 0i16,
{
}

/// Exclusive or with a mask lane: all zeros change nothing, all ones invert
/// every bit, which gives `-1 - x`.
pub proof fn lemma_xor_mask(x: i16)
    by (bit_vector)
    ensures
        x ^ 0i16 == x,
        x ^ -1i16 == !x,
        !x == -1 - x,
{
}

/// Selecting by the mask of the sign of `x` takes `b` where `x` is negative
/// and `a` where it is not.
pub proof fn lemma_select_by_sign_signed(x: i16, a: i16, b: i16)
    ensures
        select_signed(sign_mask(x), a, b) == (if x < 0 { b } else { a }),
{
    lemma_sign_mask(x);
    lemma_select_signed(sign_mask(x), a, b);
}

/// Selecting by the mask of the sign of `x` takes `b` where `x` is negative
/// and `a` where it is not.
pub proof fn lemma_select_by_sign_unsigned(x: i16, a: u16, b: u16)
    ensures
        select_unsigned(sign_mask(x), a, b) == (if x < 0 { b } else { a }),
{
    lemma_sign_mask(x);
    lemma_select_unsigned(sign_mask(x), a, b);
}

/// Adding two wrapped values with wrapping gives the wrapped sum.
pub proof fn lemma_wrapping_sum_signed(a: i16, b: i16, s: int, t: int)
    requires
        a == wrap_signed(s),
        b == wrap_signed(t),
    ensures
        a.wrapping_add(b) == wrap_signed(s + t),
{
    reveal(wrap_signed);
}

/// A value of the kind is what is left of it when it wraps around.
pub proof fn lemma_wrap_in_range_signed(a: i16)
    ensures
        wrap_signed(a as int) == a,
{
    reveal(wrap_signed);
}

/// Adding two wrapped values with wrapping gives the wrapped sum.
pub proof fn lemma_wrapping_sum_unsigned(a: u16, b: u16, s: int, t: int)
    requires
        a == wrap_unsigned(s),
        b == wrap_unsigned(t),
    ensures
        a.wrapping_add(b) == wrap_unsigned(s + t),
{
    reveal(wrap_unsigned);
}

/// A value of the kind is what is left of it when it wraps around.
pub proof fn lemma_wrap_in_range_unsigned(a: u16)
    ensures
        wrap_unsigned(a as int) == a,
{
    reveal(wrap_unsigned);
}

/// The wrapping product of two lanes is their product, wrapped.
pub proof fn lemma_wrapping_product_signed(a: i16, b: i16)
    ensures
        a.wrapping_mul(b) == wrap_signed(a * b),
{
    reveal(wrap_signed);
}

/// The wrapping product of two lanes is their product, wrapped.
pub proof fn lemma_wrapping_product_unsigned(a: u16, b: u16)
    ensures
        a.wrapping_mul(b) == wrap_unsigned(a * b),
{
    reveal(wrap_unsigned);
}

/// Inverting a lane where it is negative and subtracting the mask of its
/// sign gives its absolute value.
pub proof fn lemma_abs_signed(x: i16)
    ensures
        (x ^ sign_mask(x)).wrapping_sub(sign_mask(x)) == abs_signed(x),
{
    lemma_sign_mask(x);
    lemma_xor_mask(x);
}

/// The sign bit of a conjunction is set where both sign bits are, that of a
/// disjunction where one of them is.
pub proof fn lemma_sign_bits_signed(a: i16, b: i16)
    by (bit_vector)
    ensures
        (a & -32768i16 != 0) == (a < 0),
        ((a & b) < 0) == (a < 0 && b < 0),
        ((a | b) < 0) == (a < 0 || b < 0),
{
}

/// The sign bit of a conjunction is set where both sign bits are, that of a
/// disjunction where one of them is.
pub proof fn lemma_sign_bits_unsigned(a: u16, b: u16)
    by (bit_vector)
    ensures
        (a & SIGN_BIT != 0) == sign_set_unsigned(a),
        sign_set_unsigned(a & b) == (sign_set_unsigned(a) && sign_set_unsigned(b)),
        sign_set_unsigned(a | b) == (sign_set_unsigned(a) || sign_set_unsigned(b)),
{
}

} // verus!
