//! `uint2`: two lanes of `u32`.
use crate::bitcast::Bitcast;
use crate::bits32;
use crate::bits8;
use crate::bits16;
use crate::bits64;
use crate::lanes;
use crate::select::Select;
use crate::vector::char2::char2;
use crate::vector::double2::double2;
use crate::vector::float2::float2;
use crate::vector::int2::int2;
use crate::vector::long2::long2;
use crate::vector::short2::short2;
use crate::vector::uchar2::uchar2;
use crate::vector::ulong2::ulong2;
use crate::vector::ushort2::ushort2;
use core::ops::{Add, BitAnd, BitOr, BitXor, Div, Mul, Not, Shl, Shr, Sub};
use vstd::prelude::*;

verus! {

/// Two lanes of `u32`.
#[allow(non_camel_case_types)]
#[derive(Clone, Copy, Debug, PartialEq, Eq, Structural)]
pub struct uint2(pub u32, pub u32);

impl View for uint2 {
    type V = Seq<u32>;

    /// The lanes in order, lane 0 first.
    open spec fn view(&self) -> Seq<u32> {
        Seq::new(2, |i: int| self.lane(i))
    }
}

impl uint2 {
    /// Lane `i` of the vector.
    pub open spec fn lane(self, i: int) -> u32 {
        if i == 0 {
            self.0
        } else {
            self.1
        }
    }

    /// The vector whose lanes are the first two entries of `s`.
    pub open spec fn of(s: Seq<u32>) -> uint2 {
        uint2(s[0], s[1])
    }

    /// The vector with `x` in every lane.
    pub open spec fn spec_broadcast(x: u32) -> uint2 {
        uint2::of(lanes::splat(x, 2))
    }

    /// Fills every lane with `x`.
    #[verifier::when_used_as_spec(spec_broadcast)]
    pub fn broadcast(x: u32) -> (r: uint2)
        ensures
            r == uint2::spec_broadcast(x),
    {
        uint2(x, x)
    }

    /// The vector whose lanes have the bit patterns of the lanes of `b`.
    pub open spec fn spec_from_bits(b: uint2) -> uint2 {
        b
    }

    /// Reads the lanes of `b` as lanes of this type, bit for bit.
    #[verifier::when_used_as_spec(spec_from_bits)]
    pub fn from_bits(b: uint2) -> (r: uint2)
        ensures
            r == uint2::spec_from_bits(b),
    {
        b
    }

    /// The unsigned vector whose lanes have the bit patterns of the lanes of
    /// `self`.
    pub open spec fn spec_to_bits(self) -> uint2 {
        self
    }

    /// Reads the lanes as unsigned lanes, bit for bit.
    #[verifier::when_used_as_spec(spec_to_bits)]
    pub fn to_bits(self) -> (r: uint2)
        ensures
            r == self.spec_to_bits(),
    {
        self
    }

    /// The vector of this type that occupies the bytes that `x` occupies.
    pub open spec fn spec_bitcast<T: Bitcast<Image = [u8; 8]>>(x: T) -> uint2 {
        uint2::spec_from_image(x.spec_image())
    }

    /// Reinterprets the bytes of `x` as a vector of this type. `x` may be of
    /// any vector type that occupies 8 bytes; a type of another size is not
    /// accepted. No bit is dropped or made up.
    #[verifier::when_used_as_spec(spec_bitcast)]
    pub fn bitcast<T: Bitcast<Image = [u8; 8]>>(x: T) -> (r: uint2)
        ensures
            r == uint2::spec_bitcast(x),
    {
        uint2::from_image(x.image())
    }

    /// Lane `i`, for `i` below 2.
    pub open spec fn spec_extract(self, i: u32) -> u32 {
        self@[i as int]
    }

    /// Reads lane `i`.
    #[verifier::when_used_as_spec(spec_extract)]
    pub fn extract(self, i: u32) -> (r: u32)
        requires
            i < 2,
        ensures
            r == self.spec_extract(i),
    {
        if i == 0 {
            self.0
        } else {
            self.1
        }
    }

    /// The vector with lane `i` replaced by `x`, for `i` below 2.
    pub open spec fn spec_replace(self, i: u32, x: u32) -> uint2 {
        uint2::of(self@.update(i as int, x))
    }

    /// Replaces lane `i` by `x` and leaves the other lanes as they are.
    #[verifier::when_used_as_spec(spec_replace)]
    pub fn replace(self, i: u32, x: u32) -> (r: uint2)
        requires
            i < 2,
        ensures
            r == self.spec_replace(i, x),
    {
        if i == 0 {
            uint2(x, self.1)
        } else {
            uint2(self.0, x)
        }
    }

    /// The first lane.
    pub open spec fn spec_lo(self) -> u32 {
        self@[0]
    }

    /// The first lane.
    #[verifier::when_used_as_spec(spec_lo)]
    pub fn lo(self) -> (r: u32)
        ensures
            r == self.spec_lo(),
    {
        self.0
    }

    /// The second lane.
    pub open spec fn spec_hi(self) -> u32 {
        self@[1]
    }

    /// The second lane.
    #[verifier::when_used_as_spec(spec_hi)]
    pub fn hi(self) -> (r: u32)
        ensures
            r == self.spec_hi(),
    {
        self.1
    }

    /// The lane at the even position.
    pub open spec fn spec_even(self) -> u32 {
        self@[0]
    }

    /// The lane at the even position.
    #[verifier::when_used_as_spec(spec_even)]
    pub fn even(self) -> (r: u32)
        ensures
            r == self.spec_even(),
    {
        self.0
    }

    /// The lane at the odd position.
    pub open spec fn spec_odd(self) -> u32 {
        self@[1]
    }

    /// The lane at the odd position.
    #[verifier::when_used_as_spec(spec_odd)]
    pub fn odd(self) -> (r: u32)
        ensures
            r == self.spec_odd(),
    {
        self.1
    }

    /// Whether `f` may give the lanes of `r` for the lanes of `self`.
    pub open spec fn is_map_unary<F: Fn(u32) -> u32>(self, f: F, r: uint2) -> bool {
        &&& call_ensures(f, (self.0,), r.0)
        &&& call_ensures(f, (self.1,), r.1)
    }

    /// Applies `f` to every lane. `f` must accept every lane of the vector.
    pub fn map_unary<F: Fn(u32) -> u32>(self, f: &F) -> (r: uint2)
        requires
            call_requires(f, (self.0,)),
            call_requires(f, (self.1,)),
        ensures
            self.is_map_unary(*f, r),
    {
        uint2(f(self.0), f(self.1))
    }

    /// Whether `f` may give the lanes of `r` for the lanes of `self` and
    /// `other` at equal positions.
    pub open spec fn is_map_binary<F: Fn(u32, u32) -> u32>(
        self,
        other: uint2,
        f: F,
        r: uint2,
    ) -> bool {
        &&& call_ensures(f, (self.0, other.0), r.0)
        &&& call_ensures(f, (self.1, other.1), r.1)
    }

    /// Applies `f` to the lanes of `self` and `other` at equal positions. `f`
    /// must accept every such pair.
    pub fn map_binary<F: Fn(u32, u32) -> u32>(self, other: uint2, f: &F) -> (r: uint2)
        requires
            call_requires(f, (self.0, other.0)),
            call_requires(f, (self.1, other.1)),
        ensures
            self.is_map_binary(other, *f, r),
    {
        uint2(f(self.0, other.0), f(self.1, other.1))
    }

    /// Whether `r` may come of gathering the lanes with `f`, lane 0 first.
    pub open spec fn is_reduce<F: Fn(u32, u32) -> u32>(self, f: F, r: u32) -> bool {
        call_ensures(f, (self.1, self.0), r)
    }

    /// Combines the lanes into one value with `f`, lane 0 first: each
    /// further lane is handed to `f` together with what was gathered from the
    /// lanes before it. `f` must accept every pair of values.
    pub fn reduce<F: Fn(u32, u32) -> u32>(self, f: &F) -> (r: u32)
        requires
            forall|x: u32, y: u32| call_requires(f, (x, y)),
        ensures
            self.is_reduce(*f, r),
    {
        f(self.1, self.0)
    }

    /// Whether `r` may come of reducing the lanes with `f`, in one step.
    pub open spec fn is_fold<F: Fn(u32, u32) -> u32>(self, f: F, r: u32) -> bool {
        call_ensures(f, (self.0, self.1), r)
    }

    /// Reduces the lanes to one value with `f`, in the order of the
    /// reductions: in one step. `f` must accept every pair of values.
    pub fn fold<F: Fn(u32, u32) -> u32>(self, f: &F) -> (r: u32)
        requires
            forall|x: u32, y: u32| call_requires(f, (x, y)),
        ensures
            self.is_fold(*f, r),
    {
        f(self.0, self.1)
    }

    /// The mask with all ones in the lanes where the lanes of `self` and
    /// `other` satisfy `==`, and all zeros in the others.
    pub open spec fn spec_eq(self, other: uint2) -> int2 {
        int2::of(lanes::map2(self@, other@, |x: u32, y: u32| bits32::mask(x == y)))
    }

    /// Compares lane by lane with `==`. Every lane of the result is all ones
    /// or all zeros.
    #[verifier::when_used_as_spec(spec_eq)]
    pub fn eq(self, other: uint2) -> (r: int2)
        ensures
            r == self.spec_eq(other),
            r.is_mask(),
    {
        int2(bits32::mask_of(self.0 == other.0), bits32::mask_of(self.1 == other.1))
    }

    /// The mask with all ones in the lanes where the lanes of `self` and
    /// `other` satisfy `!=`, and all zeros in the others.
    pub open spec fn spec_ne(self, other: uint2) -> int2 {
        int2::of(lanes::map2(self@, other@, |x: u32, y: u32| bits32::mask(x != y)))
    }

    /// Compares lane by lane with `!=`. Every lane of the result is all ones
    /// or all zeros.
    #[verifier::when_used_as_spec(spec_ne)]
    pub fn ne(self, other: uint2) -> (r: int2)
        ensures
            r == self.spec_ne(other),
            r.is_mask(),
    {
        int2(bits32::mask_of(self.0 != other.0), bits32::mask_of(self.1 != other.1))
    }

    /// The mask with all ones in the lanes where the lanes of `self` and
    /// `other` satisfy `<`, and all zeros in the others.
    pub open spec fn spec_lt(self, other: uint2) -> int2 {
        int2::of(lanes::map2(self@, other@, |x: u32, y: u32| bits32::mask(x < y)))
    }

    /// Compares lane by lane with `<`. Every lane of the result is all ones
    /// or all zeros.
    #[verifier::when_used_as_spec(spec_lt)]
    pub fn lt(self, other: uint2) -> (r: int2)
        ensures
            r == self.spec_lt(other),
            r.is_mask(),
    {
        int2(bits32::mask_of(self.0 < other.0), bits32::mask_of(self.1 < other.1))
    }

    /// The mask with all ones in the lanes where the lanes of `self` and
    /// `other` satisfy `<=`, and all zeros in the others.
    pub open spec fn spec_le(self, other: uint2) -> int2 {
        int2::of(lanes::map2(self@, other@, |x: u32, y: u32| bits32::mask(x <= y)))
    }

    /// Compares lane by lane with `<=`. Every lane of the result is all ones
    /// or all zeros.
    #[verifier::when_used_as_spec(spec_le)]
    pub fn le(self, other: uint2) -> (r: int2)
        ensures
            r == self.spec_le(other),
            r.is_mask(),
    {
        int2(bits32::mask_of(self.0 <= other.0), bits32::mask_of(self.1 <= other.1))
    }

    /// The mask with all ones in the lanes where the lanes of `self` and
    /// `other` satisfy `>`, and all zeros in the others.
    pub open spec fn spec_gt(self, other: uint2) -> int2 {
        int2::of(lanes::map2(self@, other@, |x: u32, y: u32| bits32::mask(x > y)))
    }

    /// Compares lane by lane with `>`. Every lane of the result is all ones
    /// or all zeros.
    #[verifier::when_used_as_spec(spec_gt)]
    pub fn gt(self, other: uint2) -> (r: int2)
        ensures
            r == self.spec_gt(other),
            r.is_mask(),
    {
        int2(bits32::mask_of(self.0 > other.0), bits32::mask_of(self.1 > other.1))
    }

    /// The mask with all ones in the lanes where the lanes of `self` and
    /// `other` satisfy `>=`, and all zeros in the others.
    pub open spec fn spec_ge(self, other: uint2) -> int2 {
        int2::of(lanes::map2(self@, other@, |x: u32, y: u32| bits32::mask(x >= y)))
    }

    /// Compares lane by lane with `>=`. Every lane of the result is all ones
    /// or all zeros.
    #[verifier::when_used_as_spec(spec_ge)]
    pub fn ge(self, other: uint2) -> (r: int2)
        ensures
            r == self.spec_ge(other),
            r.is_mask(),
    {
        int2(bits32::mask_of(self.0 >= other.0), bits32::mask_of(self.1 >= other.1))
    }

    /// The bits of `x` where the bit of `mask` is not set, and the bits of `y`
    /// where it is.
    pub open spec fn spec_bitselect(x: uint2, y: uint2, mask: int2) -> uint2 {
        mask.spec_bitselect(x, y)
    }

    /// Selects between `x` and `y` bit by bit: where a lane of `mask` is all
    /// ones the lane of `y` is taken, where it is all zeros the lane of `x`.
    #[verifier::when_used_as_spec(spec_bitselect)]
    pub fn bitselect(x: uint2, y: uint2, mask: int2) -> (r: uint2)
        ensures
            r == uint2::spec_bitselect(x, y, mask),
            forall|i: int|
                0 <= i < 2 && mask@[i] == bits32::ALL_ONES ==> #[trigger] r@[i] == y@[i],
            forall|i: int|
                0 <= i < 2 && mask@[i] == bits32::ALL_ZEROS ==> #[trigger] r@[i] == x@[i],
    {
        mask.bitselect(x, y)
    }

    /// The greater of the two lanes at every position.
    pub open spec fn spec_max(self, other: uint2) -> uint2 {
        uint2::of(lanes::map2(self@, other@, |x: u32, y: u32| if y > x { y } else { x }))
    }

    /// Takes the greater lane at every position: the lanes of `other` are
    /// selected where they are greater than those of `self`.
    #[verifier::when_used_as_spec(spec_max)]
    pub fn max(self, other: uint2) -> (r: uint2)
        ensures
            r == self.spec_max(other),
    {
        let greater = other.gt(self);
        proof {
            bits32::lemma_select_unsigned(greater.0, self.0, other.0);
            bits32::lemma_select_unsigned(greater.1, self.1, other.1);
        }
        greater.bitselect(self, other)
    }

    /// The lesser of the two lanes at every position.
    pub open spec fn spec_min(self, other: uint2) -> uint2 {
        uint2::of(lanes::map2(self@, other@, |x: u32, y: u32| if y < x { y } else { x }))
    }

    /// Takes the lesser lane at every position: the lanes of `other` are
    /// selected where they are less than those of `self`.
    #[verifier::when_used_as_spec(spec_min)]
    pub fn min(self, other: uint2) -> (r: uint2)
        ensures
            r == self.spec_min(other),
    {
        let less = other.lt(self);
        proof {
            bits32::lemma_select_unsigned(less.0, self.0, other.0);
            bits32::lemma_select_unsigned(less.1, self.1, other.1);
        }
        less.bitselect(self, other)
    }

    /// Every lane raised to at least the lane of `min`, then lowered to at most
    /// the lane of `max`.
    pub open spec fn spec_clamp(self, min: uint2, max: uint2) -> uint2 {
        self.spec_max(min).spec_min(max)
    }

    /// Restricts every lane to the range that the lanes of `min` and `max`
    /// give. Where a lane of `min` is greater than that of `max`, the lane of
    /// `max` is the result.
    #[verifier::when_used_as_spec(spec_clamp)]
    pub fn clamp(self, min: uint2, max: uint2) -> (r: uint2)
        ensures
            r == self.spec_clamp(min, max),
    {
        self.max(min).min(max)
    }

    /// The vector itself: no lane is negative.
    pub open spec fn spec_abs(self) -> uint2 {
        self
    }

    /// The absolute value of every lane, which is the lane itself.
    #[verifier::when_used_as_spec(spec_abs)]
    pub fn abs(self) -> (r: uint2)
        ensures
            r == self.spec_abs(),
    {
        self
    }

    /// The sum of the lanes, wrapping on overflow.
    pub open spec fn spec_reduce_add(self) -> u32 {
        lanes::fold(self@, |x: u32, y: u32| x.wrapping_add(y))
    }

    /// Reduces the lanes to the sum of the lanes, wrapping on overflow, in one
    /// step.
    #[verifier::when_used_as_spec(spec_reduce_add)]
    pub fn reduce_add(self) -> (r: u32)
        ensures
            r == self.spec_reduce_add(),
    {
        proof {
            reveal_with_fuel(lanes::fold, 3);
        }
        self.0.wrapping_add(self.1)
    }

    /// The least lane.
    pub open spec fn spec_reduce_min(self) -> u32 {
        lanes::fold(self@, |x: u32, y: u32| if y < x { y } else { x })
    }

    /// Reduces the lanes to the least lane, in one step.
    #[verifier::when_used_as_spec(spec_reduce_min)]
    pub fn reduce_min(self) -> (r: u32)
        ensures
            r == self.spec_reduce_min(),
    {
        proof {
            reveal_with_fuel(lanes::fold, 3);
        }
        if self.1 < self.0 { self.1 } else { self.0 }
    }

    /// The greatest lane.
    pub open spec fn spec_reduce_max(self) -> u32 {
        lanes::fold(self@, |x: u32, y: u32| if y > x { y } else { x })
    }

    /// Reduces the lanes to the greatest lane, in one step.
    #[verifier::when_used_as_spec(spec_reduce_max)]
    pub fn reduce_max(self) -> (r: u32)
        ensures
            r == self.spec_reduce_max(),
    {
        proof {
            reveal_with_fuel(lanes::fold, 3);
        }
        if self.1 > self.0 { self.1 } else { self.0 }
    }

    /// The conjunction of the bits of all lanes.
    pub open spec fn spec_reduce_and(self) -> u32 {
        lanes::fold(self@, |x: u32, y: u32| x & y)
    }

    /// Reduces the lanes to the conjunction of the bits of all lanes, in one
    /// step.
    #[verifier::when_used_as_spec(spec_reduce_and)]
    pub fn reduce_and(self) -> (r: u32)
        ensures
            r == self.spec_reduce_and(),
    {
        proof {
            reveal_with_fuel(lanes::fold, 3);
        }
        self.0 & self.1
    }

    /// The disjunction of the bits of all lanes.
    pub open spec fn spec_reduce_or(self) -> u32 {
        lanes::fold(self@, |x: u32, y: u32| x | y)
    }

    /// Reduces the lanes to the disjunction of the bits of all lanes, in one
    /// step.
    #[verifier::when_used_as_spec(spec_reduce_or)]
    pub fn reduce_or(self) -> (r: u32)
        ensures
            r == self.spec_reduce_or(),
    {
        proof {
            reveal_with_fuel(lanes::fold, 3);
        }
        self.0 | self.1
    }

    /// The exclusive disjunction of the bits of all lanes.
    pub open spec fn spec_reduce_xor(self) -> u32 {
        lanes::fold(self@, |x: u32, y: u32| x ^ y)
    }

    /// Reduces the lanes to the exclusive disjunction of the bits of all
    /// lanes, in one step.
    #[verifier::when_used_as_spec(spec_reduce_xor)]
    pub fn reduce_xor(self) -> (r: u32)
        ensures
            r == self.spec_reduce_xor(),
    {
        proof {
            reveal_with_fuel(lanes::fold, 3);
        }
        self.0 ^ self.1
    }

    /// Whether the sign bit of every lane is set.
    pub open spec fn spec_all(self) -> bool {
        forall|i: int| 0 <= i < 2 ==> bits32::sign_set_unsigned(#[trigger] self@[i])
    }

    /// Whether the sign bit of every lane is set: the sign bit of the
    /// conjunction of all lanes is tested. On a mask this tells whether every
    /// lane is true.
    #[verifier::when_used_as_spec(spec_all)]
    pub fn all(self) -> (r: bool)
        ensures
            r == self.spec_all(),
    {
        let bits = self.reduce_and();
        proof {
            reveal_with_fuel(lanes::fold, 3);
            bits32::lemma_sign_bits_unsigned(self.0, self.1);
            bits32::lemma_sign_bits_unsigned(bits, bits);
        }
        bits & bits32::SIGN_BIT != 0
    }

    /// Whether the sign bit of some lane is set.
    pub open spec fn spec_any(self) -> bool {
        exists|i: int| 0 <= i < 2 && bits32::sign_set_unsigned(#[trigger] self@[i])
    }

    /// Whether the sign bit of some lane is set: the sign bit of the
    /// disjunction of all lanes is tested. On a mask this tells whether some
    /// lane is true.
    #[verifier::when_used_as_spec(spec_any)]
    pub fn any(self) -> (r: bool)
        ensures
            r == self.spec_any(),
    {
        let bits = self.reduce_or();
        proof {
            reveal_with_fuel(lanes::fold, 3);
            bits32::lemma_sign_bits_unsigned(self.0, self.1);
            bits32::lemma_sign_bits_unsigned(bits, bits);
        }
        bits & bits32::SIGN_BIT != 0
    }

    /// The sum of the products of the lanes at equal positions, every product
    /// and every sum wrapped into the lane.
    pub open spec fn spec_dot(self, other: uint2) -> u32 {
        lanes::fold(
            lanes::map2(self@, other@, |x: u32, y: u32| x.wrapping_mul(y)),
            |x: u32, y: u32| x.wrapping_add(y),
        )
    }

    /// The dot product: the lanes are multiplied pairwise and the products
    /// are added up as `reduce_add` does.
    #[verifier::when_used_as_spec(spec_dot)]
    pub fn dot(self, other: uint2) -> (r: u32)
        ensures
            r == self.spec_dot(other),
    {
        proof {
            reveal_with_fuel(lanes::fold, 3);
        }
        self.mul(other).reduce_add()
    }

    /// Every lane cut down to its low 8 bits, read as `i8`.
    pub open spec fn spec_to_char(self) -> char2 {
        char2::of(lanes::map1(self@, |x: u32| x as i8))
    }

    /// Converts every lane to `i8` as a cast does: the high bits are dropped
    /// and a value that does not fit wraps around.
    #[verifier::when_used_as_spec(spec_to_char)]
    pub fn to_char(self) -> (r: char2)
        ensures
            r == self.spec_to_char(),
    {
        char2(#[verifier::truncate] (self.0 as i8), #[verifier::truncate] (self.1 as i8))
    }

    /// Every lane as the `i8` nearest to its value.
    pub open spec fn spec_to_char_sat(self) -> char2 {
        char2::of(lanes::map1(self@, |x: u32| bits8::saturate_signed(x as int)))
    }

    /// Converts every lane to `i8`, saturating at the bounds of `i8`.
    /// The lanes are lowered to the greatest value of `i8` and then converted.
    #[verifier::when_used_as_spec(spec_to_char_sat)]
    pub fn to_char_sat(self) -> (r: char2)
        ensures
            r == self.spec_to_char_sat(),
    {
        self.min(uint2::broadcast(i8::MAX as u32)).to_char()
    }

    /// Every lane cut down to its low 8 bits, read as `u8`.
    pub open spec fn spec_to_uchar(self) -> uchar2 {
        uchar2::of(lanes::map1(self@, |x: u32| x as u8))
    }

    /// Converts every lane to `u8` as a cast does: the high bits are dropped
    /// and a value that does not fit wraps around.
    #[verifier::when_used_as_spec(spec_to_uchar)]
    pub fn to_uchar(self) -> (r: uchar2)
        ensures
            r == self.spec_to_uchar(),
    {
        uchar2(#[verifier::truncate] (self.0 as u8), #[verifier::truncate] (self.1 as u8))
    }

    /// Every lane as the `u8` nearest to its value.
    pub open spec fn spec_to_uchar_sat(self) -> uchar2 {
        uchar2::of(lanes::map1(self@, |x: u32| bits8::saturate_unsigned(x as int)))
    }

    /// Converts every lane to `u8`, saturating at the bounds of `u8`.
    /// The lanes are lowered to the greatest value of `u8` and then converted.
    #[verifier::when_used_as_spec(spec_to_uchar_sat)]
    pub fn to_uchar_sat(self) -> (r: uchar2)
        ensures
            r == self.spec_to_uchar_sat(),
    {
        self.min(uint2::broadcast(u8::MAX as u32)).to_uchar()
    }

    /// Every lane cut down to its low 16 bits, read as `i16`.
    pub open spec fn spec_to_short(self) -> short2 {
        short2::of(lanes::map1(self@, |x: u32| x as i16))
    }

    /// Converts every lane to `i16` as a cast does: the high bits are dropped
    /// and a value that does not fit wraps around.
    #[verifier::when_used_as_spec(spec_to_short)]
    pub fn to_short(self) -> (r: short2)
        ensures
            r == self.spec_to_short(),
    {
        short2(#[verifier::truncate] (self.0 as i16), #[verifier::truncate] (self.1 as i16))
    }

    /// Every lane as the `i16` nearest to its value.
    pub open spec fn spec_to_short_sat(self) -> short2 {
        short2::of(lanes::map1(self@, |x: u32| bits16::saturate_signed(x as int)))
    }

    /// Converts every lane to `i16`, saturating at the bounds of `i16`.
    /// The lanes are lowered to the greatest value of `i16` and then converted.
    #[verifier::when_used_as_spec(spec_to_short_sat)]
    pub fn to_short_sat(self) -> (r: short2)
        ensures
            r == self.spec_to_short_sat(),
    {
        self.min(uint2::broadcast(i16::MAX as u32)).to_short()
    }

    /// Every lane cut down to its low 16 bits, read as `u16`.
    pub open spec fn spec_to_ushort(self) -> ushort2 {
        ushort2::of(lanes::map1(self@, |x: u32| x as u16))
    }

    /// Converts every lane to `u16` as a cast does: the high bits are dropped
    /// and a value that does not fit wraps around.
    #[verifier::when_used_as_spec(spec_to_ushort)]
    pub fn to_ushort(self) -> (r: ushort2)
        ensures
            r == self.spec_to_ushort(),
    {
        ushort2(#[verifier::truncate] (self.0 as u16), #[verifier::truncate] (self.1 as u16))
    }

    /// Every lane as the `u16` nearest to its value.
    pub open spec fn spec_to_ushort_sat(self) -> ushort2 {
        ushort2::of(lanes::map1(self@, |x: u32| bits16::saturate_unsigned(x as int)))
    }

    /// Converts every lane to `u16`, saturating at the bounds of `u16`.
    /// The lanes are lowered to the greatest value of `u16` and then converted.
    #[verifier::when_used_as_spec(spec_to_ushort_sat)]
    pub fn to_ushort_sat(self) -> (r: ushort2)
        ensures
            r == self.spec_to_ushort_sat(),
    {
        self.min(uint2::broadcast(u16::MAX as u32)).to_ushort()
    }

    /// Every lane as the `i32` with the same bits.
    pub open spec fn spec_to_int(self) -> int2 {
        int2::of(lanes::map1(self@, |x: u32| x as i32))
    }

    /// Converts every lane to `i32` as a cast does: a value that does not fit
    /// wraps around.
    #[verifier::when_used_as_spec(spec_to_int)]
    pub fn to_int(self) -> (r: int2)
        ensures
            r == self.spec_to_int(),
    {
        int2(#[verifier::truncate] (self.0 as i32), #[verifier::truncate] (self.1 as i32))
    }

    /// Every lane as the `i32` nearest to its value.
    pub open spec fn spec_to_int_sat(self) -> int2 {
        int2::of(lanes::map1(self@, |x: u32| bits32::saturate_signed(x as int)))
    }

    /// Converts every lane to `i32`, saturating at the bounds of `i32`.
    /// The lanes are lowered to the greatest value of `i32` and then converted.
    #[verifier::when_used_as_spec(spec_to_int_sat)]
    pub fn to_int_sat(self) -> (r: int2)
        ensures
            r == self.spec_to_int_sat(),
    {
        self.min(uint2::broadcast(i32::MAX as u32)).to_int()
    }

    /// The vector itself.
    pub open spec fn spec_to_uint(self) -> uint2 {
        self
    }

    /// The vector itself.
    #[verifier::when_used_as_spec(spec_to_uint)]
    pub fn to_uint(self) -> (r: uint2)
        ensures
            r == self.spec_to_uint(),
    {
        self
    }

    /// Every lane as the `u32` nearest to its value.
    pub open spec fn spec_to_uint_sat(self) -> uint2 {
        self
    }

    /// Converts every lane to `u32`, saturating at the bounds of `u32`.
    /// Nothing is to be done.
    #[verifier::when_used_as_spec(spec_to_uint_sat)]
    pub fn to_uint_sat(self) -> (r: uint2)
        ensures
            r == self.spec_to_uint_sat(),
    {
        self
    }

    /// Every lane as a `i64` of the same value.
    pub open spec fn spec_to_long(self) -> long2 {
        long2::of(lanes::map1(self@, |x: u32| x as i64))
    }

    /// Converts every lane to `i64`. Every value fits.
    #[verifier::when_used_as_spec(spec_to_long)]
    pub fn to_long(self) -> (r: long2)
        ensures
            r == self.spec_to_long(),
    {
        long2(self.0 as i64, self.1 as i64)
    }

    /// Every lane as the `i64` nearest to its value.
    pub open spec fn spec_to_long_sat(self) -> long2 {
        long2::of(lanes::map1(self@, |x: u32| bits64::saturate_signed(x as int)))
    }

    /// Converts every lane to `i64`, saturating at the bounds of `i64`.
    /// Every value fits, so the lanes are converted as they are.
    #[verifier::when_used_as_spec(spec_to_long_sat)]
    pub fn to_long_sat(self) -> (r: long2)
        ensures
            r == self.spec_to_long_sat(),
    {
        self.to_long()
    }

    /// Every lane as a `u64` of the same value.
    pub open spec fn spec_to_ulong(self) -> ulong2 {
        ulong2::of(lanes::map1(self@, |x: u32| x as u64))
    }

    /// Converts every lane to `u64`. Every value fits.
    #[verifier::when_used_as_spec(spec_to_ulong)]
    pub fn to_ulong(self) -> (r: ulong2)
        ensures
            r == self.spec_to_ulong(),
    {
        ulong2(self.0 as u64, self.1 as u64)
    }

    /// Every lane as the `u64` nearest to its value.
    pub open spec fn spec_to_ulong_sat(self) -> ulong2 {
        ulong2::of(lanes::map1(self@, |x: u32| bits64::saturate_unsigned(x as int)))
    }

    /// Converts every lane to `u64`, saturating at the bounds of `u64`.
    /// Every value fits, so the lanes are converted as they are.
    #[verifier::when_used_as_spec(spec_to_ulong_sat)]
    pub fn to_ulong_sat(self) -> (r: ulong2)
        ensures
            r == self.spec_to_ulong_sat(),
    {
        self.to_ulong()
    }

    /// Whether `r` may hold the lanes of `self` as single precision numbers,
    /// where `cast` converts one lane and gives the bit pattern of the number.
    pub open spec fn is_to_float<C: Fn(u32) -> u32>(self, cast: C, r: float2) -> bool {
        &&& call_ensures(cast, (self.0,), r.0)
        &&& call_ensures(cast, (self.1,), r.1)
    }

    /// Converts every lane to a single precision number by `cast`.
    pub fn to_float<C: Fn(u32) -> u32>(self, cast: &C) -> (r: float2)
        requires
            forall|x: u32| call_requires(cast, (x,)),
        ensures
            self.is_to_float(*cast, r),
    {
        float2(cast(self.0), cast(self.1))
    }

    /// Whether `r` may hold the lanes of `self` as double precision numbers,
    /// where `cast` converts one lane and gives the bit pattern of the number.
    pub open spec fn is_to_double<C: Fn(u32) -> u64>(self, cast: C, r: double2) -> bool {
        &&& call_ensures(cast, (self.0,), r.0)
        &&& call_ensures(cast, (self.1,), r.1)
    }

    /// Converts every lane to a double precision number by `cast`.
    pub fn to_double<C: Fn(u32) -> u64>(self, cast: &C) -> (r: double2)
        requires
            forall|x: u32| call_requires(cast, (x,)),
        ensures
            self.is_to_double(*cast, r),
    {
        double2(cast(self.0), cast(self.1))
    }

    /// A comparison of a vector with itself for equality is true in every
    /// lane, and one for inequality is true in none.
    pub proof fn lemma_eq_reflexive(x: uint2)
        ensures
            x.eq(x).all(),
            !x.ne(x).any(),
    {
    }

    /// The dot product does not depend on the order of its operands.
    pub proof fn lemma_dot_commutative(a: uint2, b: uint2)
        ensures
            a.dot(b) == b.dot(a),
    {
        assert(lanes::map2(a@, b@, |x: u32, y: u32| x.wrapping_mul(y)) =~= lanes::map2(
            b@,
            a@,
            |x: u32, y: u32| x.wrapping_mul(y),
        ));
    }

    /// Reinterpreting the unsigned vector of the same shape reads its lanes
    /// bit for bit.
    pub proof fn lemma_bitcast_keeps_lanes(b: uint2)
        ensures
            uint2::bitcast(b) == uint2::from_bits(b),
    {
        bits32::lemma_bytes_round_trip(b.0, 0, 0, 0, 0);
        bits32::lemma_bytes_round_trip(b.1, 0, 0, 0, 0);
    }

    /// Reinterpreting a vector as its own type changes nothing.
    pub proof fn lemma_bitcast_identity(x: uint2)
        ensures
            uint2::bitcast(x) == x,
    {
        bits32::lemma_bytes_round_trip(x.to_bits().0, 0, 0, 0, 0);
        bits32::lemma_bytes_round_trip(x.to_bits().1, 0, 0, 0, 0);
    }

    /// The result of `reduce_add` is the sum of the lanes, wrapped into the
    /// lane: the order in which the lanes are added plays no part.
    pub proof fn lemma_reduce_add_is_sum(x: uint2)
        ensures
            x.reduce_add() == bits32::wrap_unsigned(x.0 + x.1),
    {
        reveal_with_fuel(lanes::fold, 3);
        bits32::lemma_wrap_in_range_unsigned(x.0);
        bits32::lemma_wrap_in_range_unsigned(x.1);
        bits32::lemma_wrapping_sum_unsigned(x.0, x.1, x.0 as int, x.1 as int);
    }

    /// The dot product is the sum of the products of the lanes, wrapped into
    /// the lane.
    pub proof fn lemma_dot_is_sum_of_products(a: uint2, b: uint2)
        ensures
            a.dot(b) == bits32::wrap_unsigned(a.0 * b.0 + a.1 * b.1),
    {
        reveal_with_fuel(lanes::fold, 3);
        bits32::lemma_wrapping_product_unsigned(a.0, b.0);
        bits32::lemma_wrapping_product_unsigned(a.1, b.1);
        bits32::lemma_wrapping_sum_unsigned(
            a.0.wrapping_mul(b.0),
            a.1.wrapping_mul(b.1),
            a.0 * b.0,
            a.1 * b.1,
        );
    }

    /// The result of `reduce_min` is a lane, and no lane is less than it.
    pub proof fn lemma_reduce_min_is_least(x: uint2)
        ensures
            forall|i: int| 0 <= i < 2 ==> x.reduce_min() <= #[trigger] x@[i],
            exists|i: int| 0 <= i < 2 && x.reduce_min() == #[trigger] x@[i],
    {
        reveal_with_fuel(lanes::fold, 3);
        assert(x@[0] == x.0 && x@[1] == x.1);
    }

    /// The result of `reduce_max` is a lane, and no lane is greater than it.
    pub proof fn lemma_reduce_max_is_greatest(x: uint2)
        ensures
            forall|i: int| 0 <= i < 2 ==> x.reduce_max() >= #[trigger] x@[i],
            exists|i: int| 0 <= i < 2 && x.reduce_max() == #[trigger] x@[i],
    {
        reveal_with_fuel(lanes::fold, 3);
        assert(x@[0] == x.0 && x@[1] == x.1);
    }

    /// A vector that is widened to `long2` and narrowed again with
    /// saturation is the vector it was.
    pub proof fn lemma_long_round_trip(x: uint2)
        ensures
            x.to_long().to_uint_sat() == x,
    {
    }

    /// A vector that is widened to `ulong2` and narrowed again with
    /// saturation is the vector it was.
    pub proof fn lemma_ulong_round_trip(x: uint2)
        ensures
            x.to_ulong().to_uint_sat() == x,
    {
    }
}

/// `v[i]` is lane `i`, for `i` below 2.
impl core::ops::Index<u32> for uint2 {
    type Output = u32;

    fn index(&self, index: u32) -> (r: &u32)
        ensures
            *r == self@[index as int],
    {
        if index == 0 {
            &self.0
        } else {
            &self.1
        }
    }
}

impl vstd::std_specs::core::IndexSpecImpl<u32> for uint2 {
    open spec fn index_req(&self, index: &u32) -> bool {
        *index < 2
    }
}

/// The bytes of the vector: the lanes in order, each with its least significant
/// byte first.
impl Bitcast for uint2 {
    type Image = [u8; 8];

    open spec fn spec_image(self) -> Seq<u8> {
        bits32::image(self.spec_to_bits()@)
    }

    open spec fn spec_from_image(image: Seq<u8>) -> uint2 {
        uint2::spec_from_bits(uint2::of(bits32::lanes_of_image(image)))
    }

    fn image(self) -> (r: [u8; 8]) {
        let b = self.to_bits();
        let l0 = bits32::bytes(b.0);
        let l1 = bits32::bytes(b.1);
        let r = [
            l0[0], l0[1], l0[2], l0[3], l1[0], l1[1], l1[2], l1[3],
        ];
        proof {
            let s = self.spec_to_bits()@;
            assert(s.len() == 2);
            assert forall|j: int| 0 <= j < 8 implies r@[j] == bits32::byte(s[j / 4], j % 4) by {
                assert(s[0] == b.0);
                assert(s[1] == b.1);
            }
        }
        r
    }

    fn from_image(image: [u8; 8]) -> (r: uint2) {
        uint2::from_bits(
            uint2(
                bits32::join(image[0], image[1], image[2], image[3]),
                bits32::join(image[4], image[5], image[6], image[7]),
            ),
        )
    }
}

/// Lane-wise sum, wrapping on overflow.
impl core::ops::Add for uint2 {
    type Output = uint2;

    fn add(self, rhs: uint2) -> (r: uint2) {
        uint2(self.0.wrapping_add(rhs.0), self.1.wrapping_add(rhs.1))
    }
}

impl vstd::std_specs::ops::AddSpecImpl for uint2 {
    open spec fn obeys_add_spec() -> bool {
        true
    }

    open spec fn add_req(self, rhs: uint2) -> bool {
        true
    }

    open spec fn add_spec(self, rhs: uint2) -> uint2 {
        uint2::of(lanes::map2(self@, rhs@, |x: u32, y: u32| x.wrapping_add(y)))
    }
}

/// The same with `rhs` in every lane of the right operand.
impl core::ops::Add<u32> for uint2 {
    type Output = uint2;

    fn add(self, rhs: u32) -> (r: uint2) {
        self.add(uint2::broadcast(rhs))
    }
}

impl vstd::std_specs::ops::AddSpecImpl<u32> for uint2 {
    open spec fn obeys_add_spec() -> bool {
        true
    }

    open spec fn add_req(self, rhs: u32) -> bool {
        true
    }

    open spec fn add_spec(self, rhs: u32) -> uint2 {
        vstd::std_specs::ops::AddSpec::add_spec(self, uint2::broadcast(rhs))
    }
}

/// The same with `self` in every lane of the left operand.
impl core::ops::Add<uint2> for u32 {
    type Output = uint2;

    fn add(self, rhs: uint2) -> (r: uint2) {
        uint2::broadcast(self).add(rhs)
    }
}

impl vstd::std_specs::ops::AddSpecImpl<uint2> for u32 {
    open spec fn obeys_add_spec() -> bool {
        true
    }

    open spec fn add_req(self, rhs: uint2) -> bool {
        true
    }

    open spec fn add_spec(self, rhs: uint2) -> uint2 {
        vstd::std_specs::ops::AddSpec::add_spec(uint2::broadcast(self), rhs)
    }
}

/// Lane-wise difference, wrapping on overflow.
impl core::ops::Sub for uint2 {
    type Output = uint2;

    fn sub(self, rhs: uint2) -> (r: uint2) {
        uint2(self.0.wrapping_sub(rhs.0), self.1.wrapping_sub(rhs.1))
    }
}

impl vstd::std_specs::ops::SubSpecImpl for uint2 {
    open spec fn obeys_sub_spec() -> bool {
        true
    }

    open spec fn sub_req(self, rhs: uint2) -> bool {
        true
    }

    open spec fn sub_spec(self, rhs: uint2) -> uint2 {
        uint2::of(lanes::map2(self@, rhs@, |x: u32, y: u32| x.wrapping_sub(y)))
    }
}

/// The same with `rhs` in every lane of the right operand.
impl core::ops::Sub<u32> for uint2 {
    type Output = uint2;

    fn sub(self, rhs: u32) -> (r: uint2) {
        self.sub(uint2::broadcast(rhs))
    }
}

impl vstd::std_specs::ops::SubSpecImpl<u32> for uint2 {
    open spec fn obeys_sub_spec() -> bool {
        true
    }

    open spec fn sub_req(self, rhs: u32) -> bool {
        true
    }

    open spec fn sub_spec(self, rhs: u32) -> uint2 {
        vstd::std_specs::ops::SubSpec::sub_spec(self, uint2::broadcast(rhs))
    }
}

/// The same with `self` in every lane of the left operand.
impl core::ops::Sub<uint2> for u32 {
    type Output = uint2;

    fn sub(self, rhs: uint2) -> (r: uint2) {
        uint2::broadcast(self).sub(rhs)
    }
}

impl vstd::std_specs::ops::SubSpecImpl<uint2> for u32 {
    open spec fn obeys_sub_spec() -> bool {
        true
    }

    open spec fn sub_req(self, rhs: uint2) -> bool {
        true
    }

    open spec fn sub_spec(self, rhs: uint2) -> uint2 {
        vstd::std_specs::ops::SubSpec::sub_spec(uint2::broadcast(self), rhs)
    }
}

/// Lane-wise product, wrapping on overflow.
impl core::ops::Mul for uint2 {
    type Output = uint2;

    fn mul(self, rhs: uint2) -> (r: uint2) {
        uint2(self.0.wrapping_mul(rhs.0), self.1.wrapping_mul(rhs.1))
    }
}

impl vstd::std_specs::ops::MulSpecImpl for uint2 {
    open spec fn obeys_mul_spec() -> bool {
        true
    }

    open spec fn mul_req(self, rhs: uint2) -> bool {
        true
    }

    open spec fn mul_spec(self, rhs: uint2) -> uint2 {
        uint2::of(lanes::map2(self@, rhs@, |x: u32, y: u32| x.wrapping_mul(y)))
    }
}

/// The same with `rhs` in every lane of the right operand.
impl core::ops::Mul<u32> for uint2 {
    type Output = uint2;

    fn mul(self, rhs: u32) -> (r: uint2) {
        self.mul(uint2::broadcast(rhs))
    }
}

impl vstd::std_specs::ops::MulSpecImpl<u32> for uint2 {
    open spec fn obeys_mul_spec() -> bool {
        true
    }

    open spec fn mul_req(self, rhs: u32) -> bool {
        true
    }

    open spec fn mul_spec(self, rhs: u32) -> uint2 {
        vstd::std_specs::ops::MulSpec::mul_spec(self, uint2::broadcast(rhs))
    }
}

/// The same with `self` in every lane of the left operand.
impl core::ops::Mul<uint2> for u32 {
    type Output = uint2;

    fn mul(self, rhs: uint2) -> (r: uint2) {
        uint2::broadcast(self).mul(rhs)
    }
}

impl vstd::std_specs::ops::MulSpecImpl<uint2> for u32 {
    open spec fn obeys_mul_spec() -> bool {
        true
    }

    open spec fn mul_req(self, rhs: uint2) -> bool {
        true
    }

    open spec fn mul_spec(self, rhs: uint2) -> uint2 {
        vstd::std_specs::ops::MulSpec::mul_spec(uint2::broadcast(self), rhs)
    }
}

/// Lane-wise quotient, rounded towards zero. No lane of the divisor may be
/// zero.
impl core::ops::Div for uint2 {
    type Output = uint2;

    fn div(self, rhs: uint2) -> (r: uint2) {
        uint2(self.0 / rhs.0, self.1 / rhs.1)
    }
}

impl vstd::std_specs::ops::DivSpecImpl for uint2 {
    open spec fn obeys_div_spec() -> bool {
        true
    }

    open spec fn div_req(self, rhs: uint2) -> bool {
        rhs.0 != 0 && rhs.1 != 0
    }

    open spec fn div_spec(self, rhs: uint2) -> uint2 {
        uint2::of(lanes::map2(self@, rhs@, |x: u32, y: u32| bits32::div_unsigned(x, y)))
    }
}

/// The same with `rhs` in every lane of the right operand.
impl core::ops::Div<u32> for uint2 {
    type Output = uint2;

    fn div(self, rhs: u32) -> (r: uint2) {
        self.div(uint2::broadcast(rhs))
    }
}

impl vstd::std_specs::ops::DivSpecImpl<u32> for uint2 {
    open spec fn obeys_div_spec() -> bool {
        true
    }

    open spec fn div_req(self, rhs: u32) -> bool {
        rhs != 0
    }

    open spec fn div_spec(self, rhs: u32) -> uint2 {
        vstd::std_specs::ops::DivSpec::div_spec(self, uint2::broadcast(rhs))
    }
}

/// The same with `self` in every lane of the left operand.
impl core::ops::Div<uint2> for u32 {
    type Output = uint2;

    fn div(self, rhs: uint2) -> (r: uint2) {
        uint2::broadcast(self).div(rhs)
    }
}

impl vstd::std_specs::ops::DivSpecImpl<uint2> for u32 {
    open spec fn obeys_div_spec() -> bool {
        true
    }

    open spec fn div_req(self, rhs: uint2) -> bool {
        rhs.0 != 0 && rhs.1 != 0
    }

    open spec fn div_spec(self, rhs: uint2) -> uint2 {
        vstd::std_specs::ops::DivSpec::div_spec(uint2::broadcast(self), rhs)
    }
}

/// Lane-wise conjunction of the bits.
impl core::ops::BitAnd for uint2 {
    type Output = uint2;

    fn bitand(self, rhs: uint2) -> (r: uint2) {
        uint2(self.0 & rhs.0, self.1 & rhs.1)
    }
}

impl vstd::std_specs::ops::BitAndSpecImpl for uint2 {
    open spec fn obeys_bitand_spec() -> bool {
        true
    }

    open spec fn bitand_req(self, rhs: uint2) -> bool {
        true
    }

    open spec fn bitand_spec(self, rhs: uint2) -> uint2 {
        uint2::of(lanes::map2(self@, rhs@, |x: u32, y: u32| x & y))
    }
}

/// The same with `rhs` in every lane of the right operand.
impl core::ops::BitAnd<u32> for uint2 {
    type Output = uint2;

    fn bitand(self, rhs: u32) -> (r: uint2) {
        self.bitand(uint2::broadcast(rhs))
    }
}

impl vstd::std_specs::ops::BitAndSpecImpl<u32> for uint2 {
    open spec fn obeys_bitand_spec() -> bool {
        true
    }

    open spec fn bitand_req(self, rhs: u32) -> bool {
        true
    }

    open spec fn bitand_spec(self, rhs: u32) -> uint2 {
        vstd::std_specs::ops::BitAndSpec::bitand_spec(self, uint2::broadcast(rhs))
    }
}

/// The same with `self` in every lane of the left operand.
impl core::ops::BitAnd<uint2> for u32 {
    type Output = uint2;

    fn bitand(self, rhs: uint2) -> (r: uint2) {
        uint2::broadcast(self).bitand(rhs)
    }
}

impl vstd::std_specs::ops::BitAndSpecImpl<uint2> for u32 {
    open spec fn obeys_bitand_spec() -> bool {
        true
    }

    open spec fn bitand_req(self, rhs: uint2) -> bool {
        true
    }

    open spec fn bitand_spec(self, rhs: uint2) -> uint2 {
        vstd::std_specs::ops::BitAndSpec::bitand_spec(uint2::broadcast(self), rhs)
    }
}

/// Lane-wise disjunction of the bits.
impl core::ops::BitOr for uint2 {
    type Output = uint2;

    fn bitor(self, rhs: uint2) -> (r: uint2) {
        uint2(self.0 | rhs.0, self.1 | rhs.1)
    }
}

impl vstd::std_specs::ops::BitOrSpecImpl for uint2 {
    open spec fn obeys_bitor_spec() -> bool {
        true
    }

    open spec fn bitor_req(self, rhs: uint2) -> bool {
        true
    }

    open spec fn bitor_spec(self, rhs: uint2) -> uint2 {
        uint2::of(lanes::map2(self@, rhs@, |x: u32, y: u32| x | y))
    }
}

/// The same with `rhs` in every lane of the right operand.
impl core::ops::BitOr<u32> for uint2 {
    type Output = uint2;

    fn bitor(self, rhs: u32) -> (r: uint2) {
        self.bitor(uint2::broadcast(rhs))
    }
}

impl vstd::std_specs::ops::BitOrSpecImpl<u32> for uint2 {
    open spec fn obeys_bitor_spec() -> bool {
        true
    }

    open spec fn bitor_req(self, rhs: u32) -> bool {
        true
    }

    open spec fn bitor_spec(self, rhs: u32) -> uint2 {
        vstd::std_specs::ops::BitOrSpec::bitor_spec(self, uint2::broadcast(rhs))
    }
}

/// The same with `self` in every lane of the left operand.
impl core::ops::BitOr<uint2> for u32 {
    type Output = uint2;

    fn bitor(self, rhs: uint2) -> (r: uint2) {
        uint2::broadcast(self).bitor(rhs)
    }
}

impl vstd::std_specs::ops::BitOrSpecImpl<uint2> for u32 {
    open spec fn obeys_bitor_spec() -> bool {
        true
    }

    open spec fn bitor_req(self, rhs: uint2) -> bool {
        true
    }

    open spec fn bitor_spec(self, rhs: uint2) -> uint2 {
        vstd::std_specs::ops::BitOrSpec::bitor_spec(uint2::broadcast(self), rhs)
    }
}

/// Lane-wise exclusive disjunction of the bits.
impl core::ops::BitXor for uint2 {
    type Output = uint2;

    fn bitxor(self, rhs: uint2) -> (r: uint2) {
        uint2(self.0 ^ rhs.0, self.1 ^ rhs.1)
    }
}

impl vstd::std_specs::ops::BitXorSpecImpl for uint2 {
    open spec fn obeys_bitxor_spec() -> bool {
        true
    }

    open spec fn bitxor_req(self, rhs: uint2) -> bool {
        true
    }

    open spec fn bitxor_spec(self, rhs: uint2) -> uint2 {
        uint2::of(lanes::map2(self@, rhs@, |x: u32, y: u32| x ^ y))
    }
}

/// The same with `rhs` in every lane of the right operand.
impl core::ops::BitXor<u32> for uint2 {
    type Output = uint2;

    fn bitxor(self, rhs: u32) -> (r: uint2) {
        self.bitxor(uint2::broadcast(rhs))
    }
}

impl vstd::std_specs::ops::BitXorSpecImpl<u32> for uint2 {
    open spec fn obeys_bitxor_spec() -> bool {
        true
    }

    open spec fn bitxor_req(self, rhs: u32) -> bool {
        true
    }

    open spec fn bitxor_spec(self, rhs: u32) -> uint2 {
        vstd::std_specs::ops::BitXorSpec::bitxor_spec(self, uint2::broadcast(rhs))
    }
}

/// The same with `self` in every lane of the left operand.
impl core::ops::BitXor<uint2> for u32 {
    type Output = uint2;

    fn bitxor(self, rhs: uint2) -> (r: uint2) {
        uint2::broadcast(self).bitxor(rhs)
    }
}

impl vstd::std_specs::ops::BitXorSpecImpl<uint2> for u32 {
    open spec fn obeys_bitxor_spec() -> bool {
        true
    }

    open spec fn bitxor_req(self, rhs: uint2) -> bool {
        true
    }

    open spec fn bitxor_spec(self, rhs: uint2) -> uint2 {
        vstd::std_specs::ops::BitXorSpec::bitxor_spec(uint2::broadcast(self), rhs)
    }
}

/// Lane-wise shift to the left. Every distance must be less than the width of
/// a lane.
impl core::ops::Shl for uint2 {
    type Output = uint2;

    fn shl(self, rhs: uint2) -> (r: uint2) {
        uint2(self.0 << rhs.0, self.1 << rhs.1)
    }
}

impl vstd::std_specs::ops::ShlSpecImpl for uint2 {
    open spec fn obeys_shl_spec() -> bool {
        true
    }

    open spec fn shl_req(self, rhs: uint2) -> bool {
        bits32::shift_in_range_unsigned(rhs.0) && bits32::shift_in_range_unsigned(rhs.1)
    }

    open spec fn shl_spec(self, rhs: uint2) -> uint2 {
        uint2::of(lanes::map2(self@, rhs@, |x: u32, y: u32| bits32::shl_unsigned(x, y)))
    }
}

/// The same with `rhs` in every lane of the right operand.
impl core::ops::Shl<u32> for uint2 {
    type Output = uint2;

    fn shl(self, rhs: u32) -> (r: uint2) {
        self.shl(uint2::broadcast(rhs))
    }
}

impl vstd::std_specs::ops::ShlSpecImpl<u32> for uint2 {
    open spec fn obeys_shl_spec() -> bool {
        true
    }

    open spec fn shl_req(self, rhs: u32) -> bool {
        bits32::shift_in_range_unsigned(rhs)
    }

    open spec fn shl_spec(self, rhs: u32) -> uint2 {
        vstd::std_specs::ops::ShlSpec::shl_spec(self, uint2::broadcast(rhs))
    }
}

/// The same with `self` in every lane of the left operand.
impl core::ops::Shl<uint2> for u32 {
    type Output = uint2;

    fn shl(self, rhs: uint2) -> (r: uint2) {
        uint2::broadcast(self).shl(rhs)
    }
}

impl vstd::std_specs::ops::ShlSpecImpl<uint2> for u32 {
    open spec fn obeys_shl_spec() -> bool {
        true
    }

    open spec fn shl_req(self, rhs: uint2) -> bool {
        bits32::shift_in_range_unsigned(rhs.0) && bits32::shift_in_range_unsigned(rhs.1)
    }

    open spec fn shl_spec(self, rhs: uint2) -> uint2 {
        vstd::std_specs::ops::ShlSpec::shl_spec(uint2::broadcast(self), rhs)
    }
}

/// Lane-wise shift to the right. Every distance must be less than the width of
/// a lane.
impl core::ops::Shr for uint2 {
    type Output = uint2;

    fn shr(self, rhs: uint2) -> (r: uint2) {
        uint2(self.0 >> rhs.0, self.1 >> rhs.1)
    }
}

impl vstd::std_specs::ops::ShrSpecImpl for uint2 {
    open spec fn obeys_shr_spec() -> bool {
        true
    }

    open spec fn shr_req(self, rhs: uint2) -> bool {
        bits32::shift_in_range_unsigned(rhs.0) && bits32::shift_in_range_unsigned(rhs.1)
    }

    open spec fn shr_spec(self, rhs: uint2) -> uint2 {
        uint2::of(lanes::map2(self@, rhs@, |x: u32, y: u32| bits32::shr_unsigned(x, y)))
    }
}

/// The same with `rhs` in every lane of the right operand.
impl core::ops::Shr<u32> for uint2 {
    type Output = uint2;

    fn shr(self, rhs: u32) -> (r: uint2) {
        self.shr(uint2::broadcast(rhs))
    }
}

impl vstd::std_specs::ops::ShrSpecImpl<u32> for uint2 {
    open spec fn obeys_shr_spec() -> bool {
        true
    }

    open spec fn shr_req(self, rhs: u32) -> bool {
        bits32::shift_in_range_unsigned(rhs)
    }

    open spec fn shr_spec(self, rhs: u32) -> uint2 {
        vstd::std_specs::ops::ShrSpec::shr_spec(self, uint2::broadcast(rhs))
    }
}

/// The same with `self` in every lane of the left operand.
impl core::ops::Shr<uint2> for u32 {
    type Output = uint2;

    fn shr(self, rhs: uint2) -> (r: uint2) {
        uint2::broadcast(self).shr(rhs)
    }
}

impl vstd::std_specs::ops::ShrSpecImpl<uint2> for u32 {
    open spec fn obeys_shr_spec() -> bool {
        true
    }

    open spec fn shr_req(self, rhs: uint2) -> bool {
        bits32::shift_in_range_unsigned(rhs.0) && bits32::shift_in_range_unsigned(rhs.1)
    }

    open spec fn shr_spec(self, rhs: uint2) -> uint2 {
        vstd::std_specs::ops::ShrSpec::shr_spec(uint2::broadcast(self), rhs)
    }
}

/// Lane-wise inversion of the bits.
impl core::ops::Not for uint2 {
    type Output = uint2;

    fn not(self) -> (r: uint2) {
        uint2(!self.0, !self.1)
    }
}

impl vstd::std_specs::ops::NotSpecImpl for uint2 {
    open spec fn obeys_not_spec() -> bool {
        true
    }

    open spec fn not_req(self) -> bool {
        true
    }

    open spec fn not_spec(self) -> uint2 {
        uint2::of(lanes::map1(self@, |x: u32| bits32::not_unsigned(x)))
    }
}

} // verus!
