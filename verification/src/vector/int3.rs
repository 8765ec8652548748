//! `int3`: three lanes of `i32`.
use crate::bitcast::Bitcast;
use crate::bits32;
use crate::bits8;
use crate::bits16;
use crate::bits64;
use crate::lanes;
use crate::select::Select;
use crate::vector::char3::char3;
use crate::vector::double3::double3;
use crate::vector::float3::float3;
use crate::vector::int2::int2;
use crate::vector::long3::long3;
use crate::vector::short3::short3;
use crate::vector::uchar3::uchar3;
use crate::vector::uint3::uint3;
use crate::vector::ulong3::ulong3;
use crate::vector::ushort3::ushort3;
use core::ops::{Add, BitAnd, BitOr, BitXor, Div, Mul, Not, Shl, Shr, Sub};
use vstd::prelude::*;

verus! {

/// Three lanes of `i32`.
#[allow(non_camel_case_types)]
#[derive(Clone, Copy, Debug, PartialEq, Eq, Structural)]
pub struct int3(pub i32, pub i32, pub i32);

impl View for int3 {
    type V = Seq<i32>;

    /// The lanes in order, lane 0 first.
    open spec fn view(&self) -> Seq<i32> {
        Seq::new(3, |i: int| self.lane(i))
    }
}

impl int3 {
    /// Lane `i` of the vector.
    pub open spec fn lane(self, i: int) -> i32 {
        if i == 0 {
            self.0
        } else if i == 1 {
            self.1
        } else {
            self.2
        }
    }

    /// The vector whose lanes are the first three entries of `s`.
    pub open spec fn of(s: Seq<i32>) -> int3 {
        int3(s[0], s[1], s[2])
    }

    /// The vector with `x` in every lane.
    pub open spec fn spec_broadcast(x: i32) -> int3 {
        int3::of(lanes::splat(x, 3))
    }

    /// Fills every lane with `x`.
    #[verifier::when_used_as_spec(spec_broadcast)]
    pub fn broadcast(x: i32) -> (r: int3)
        ensures
            r == int3::spec_broadcast(x),
    {
        int3(x, x, x)
    }

    /// The vector whose lanes have the bit patterns of the lanes of `b`.
    pub open spec fn spec_from_bits(b: uint3) -> int3 {
        int3::of(lanes::map1(b@, |x: u32| bits32::to_signed(x)))
    }

    /// Reads the lanes of `b` as lanes of this type, bit for bit.
    #[verifier::when_used_as_spec(spec_from_bits)]
    pub fn from_bits(b: uint3) -> (r: int3)
        ensures
            r == int3::spec_from_bits(b),
    {
        int3(
            #[verifier::truncate] (b.0 as i32),
            #[verifier::truncate] (b.1 as i32),
            #[verifier::truncate] (b.2 as i32),
        )
    }

    /// The unsigned vector whose lanes have the bit patterns of the lanes of
    /// `self`.
    pub open spec fn spec_to_bits(self) -> uint3 {
        uint3::of(lanes::map1(self@, |x: i32| bits32::to_unsigned(x)))
    }

    /// Reads the lanes as unsigned lanes, bit for bit.
    #[verifier::when_used_as_spec(spec_to_bits)]
    pub fn to_bits(self) -> (r: uint3)
        ensures
            r == self.spec_to_bits(),
    {
        uint3(
            #[verifier::truncate] (self.0 as u32),
            #[verifier::truncate] (self.1 as u32),
            #[verifier::truncate] (self.2 as u32),
        )
    }

    /// The vector of this type that occupies the bytes that `x` occupies.
    pub open spec fn spec_bitcast<T: Bitcast<Image = [u8; 16]>>(x: T) -> int3 {
        int3::spec_from_image(x.spec_image())
    }

    /// Reinterprets the bytes of `x` as a vector of this type. `x` may be of
    /// any vector type that occupies 16 bytes; a type of another size is not
    /// accepted. No bit is dropped or made up, but for the bytes of the lane
    /// that a vector of three lanes lacks: they are zero in the image of such
    /// a vector and play no part in reading one.
    #[verifier::when_used_as_spec(spec_bitcast)]
    pub fn bitcast<T: Bitcast<Image = [u8; 16]>>(x: T) -> (r: int3)
        ensures
            r == int3::spec_bitcast(x),
    {
        int3::from_image(x.image())
    }

    /// Lane `i`, for `i` below 3.
    pub open spec fn spec_extract(self, i: u32) -> i32 {
        self@[i as int]
    }

    /// Reads lane `i`.
    #[verifier::when_used_as_spec(spec_extract)]
    pub fn extract(self, i: u32) -> (r: i32)
        requires
            i < 3,
        ensures
            r == self.spec_extract(i),
    {
        if i == 0 {
            self.0
        } else if i == 1 {
            self.1
        } else {
            self.2
        }
    }

    /// The vector with lane `i` replaced by `x`, for `i` below 3.
    pub open spec fn spec_replace(self, i: u32, x: i32) -> int3 {
        int3::of(self@.update(i as int, x))
    }

    /// Replaces lane `i` by `x` and leaves the other lanes as they are.
    #[verifier::when_used_as_spec(spec_replace)]
    pub fn replace(self, i: u32, x: i32) -> (r: int3)
        requires
            i < 3,
        ensures
            r == self.spec_replace(i, x),
    {
        if i == 0 {
            int3(x, self.1, self.2)
        } else if i == 1 {
            int3(self.0, x, self.2)
        } else {
            int3(self.0, self.1, x)
        }
    }

    /// The first half of the lanes.
    pub open spec fn spec_lo(self) -> int2 {
        int2::of(lanes::lower_half(self@, 0))
    }

    /// The first half of the lanes.
    #[verifier::when_used_as_spec(spec_lo)]
    pub fn lo(self) -> (r: int2)
        ensures
            r == self.spec_lo(),
    {
        int2(self.0, self.1)
    }

    /// The second half of the lanes.
    /// Lane 3 does not exist: zero stands in its place.
    pub open spec fn spec_hi(self) -> int2 {
        int2::of(lanes::upper_half(self@, 0))
    }

    /// The second half of the lanes.
    /// Lane 3 does not exist: zero stands in its place.
    #[verifier::when_used_as_spec(spec_hi)]
    pub fn hi(self) -> (r: int2)
        ensures
            r == self.spec_hi(),
    {
        int2(self.2, 0)
    }

    /// The lanes at even positions.
    pub open spec fn spec_even(self) -> int2 {
        int2::of(lanes::even_lanes(self@, 0))
    }

    /// The lanes at even positions.
    #[verifier::when_used_as_spec(spec_even)]
    pub fn even(self) -> (r: int2)
        ensures
            r == self.spec_even(),
    {
        int2(self.0, self.2)
    }

    /// The lanes at odd positions.
    /// Lane 3 does not exist: zero stands in its place.
    pub open spec fn spec_odd(self) -> int2 {
        int2::of(lanes::odd_lanes(self@, 0))
    }

    /// The lanes at odd positions.
    /// Lane 3 does not exist: zero stands in its place.
    #[verifier::when_used_as_spec(spec_odd)]
    pub fn odd(self) -> (r: int2)
        ensures
            r == self.spec_odd(),
    {
        int2(self.1, 0)
    }

    /// Whether every lane is all ones or all zeros, as the lanes of the
    /// result of a comparison are.
    pub open spec fn is_mask(self) -> bool {
        forall|i: int| 0 <= i < 3 ==> bits32::is_mask(#[trigger] self@[i])
    }

    /// Whether `f` may give the lanes of `r` for the lanes of `self`.
    pub open spec fn is_map_unary<F: Fn(i32) -> i32>(self, f: F, r: int3) -> bool {
        &&& call_ensures(f, (self.0,), r.0)
        &&& call_ensures(f, (self.1,), r.1)
        &&& call_ensures(f, (self.2,), r.2)
    }

    /// Applies `f` to every lane. `f` must accept every lane of the vector.
    pub fn map_unary<F: Fn(i32) -> i32>(self, f: &F) -> (r: int3)
        requires
            call_requires(f, (self.0,)),
            call_requires(f, (self.1,)),
            call_requires(f, (self.2,)),
        ensures
            self.is_map_unary(*f, r),
    {
        int3(f(self.0), f(self.1), f(self.2))
    }

    /// Whether `f` may give the lanes of `r` for the lanes of `self` and
    /// `other` at equal positions.
    pub open spec fn is_map_binary<F: Fn(i32, i32) -> i32>(
        self,
        other: int3,
        f: F,
        r: int3,
    ) -> bool {
        &&& call_ensures(f, (self.0, other.0), r.0)
        &&& call_ensures(f, (self.1, other.1), r.1)
        &&& call_ensures(f, (self.2, other.2), r.2)
    }

    /// Applies `f` to the lanes of `self` and `other` at equal positions. `f`
    /// must accept every such pair.
    pub fn map_binary<F: Fn(i32, i32) -> i32>(self, other: int3, f: &F) -> (r: int3)
        requires
            call_requires(f, (self.0, other.0)),
            call_requires(f, (self.1, other.1)),
            call_requires(f, (self.2, other.2)),
        ensures
            self.is_map_binary(other, *f, r),
    {
        int3(f(self.0, other.0), f(self.1, other.1), f(self.2, other.2))
    }

    /// Whether `r` may come of gathering the lanes with `f`, lane 0 first.
    pub open spec fn is_reduce<F: Fn(i32, i32) -> i32>(self, f: F, r: i32) -> bool {
        exists|a1: i32|
            {
                &&& call_ensures(f, (self.1, self.0), a1)
                &&& call_ensures(f, (self.2, a1), r)
            }
    }

    /// Combines the lanes into one value with `f`, lane 0 first: each
    /// further lane is handed to `f` together with what was gathered from the
    /// lanes before it. `f` must accept every pair of values.
    pub fn reduce<F: Fn(i32, i32) -> i32>(self, f: &F) -> (r: i32)
        requires
            forall|x: i32, y: i32| call_requires(f, (x, y)),
        ensures
            self.is_reduce(*f, r),
    {
        let a1 = f(self.1, self.0);
        f(self.2, a1)
    }

    /// Whether `r` may come of reducing the lanes with `f`, from left to right.
    pub open spec fn is_fold<F: Fn(i32, i32) -> i32>(self, f: F, r: i32) -> bool {
        exists|a: i32| #[trigger] self.spec_lo().is_fold(f, a) && call_ensures(f, (a, self.2), r)
    }

    /// Reduces the lanes to one value with `f`, in the order of the
    /// reductions: from left to right. `f` must accept every pair of values.
    pub fn fold<F: Fn(i32, i32) -> i32>(self, f: &F) -> (r: i32)
        requires
            forall|x: i32, y: i32| call_requires(f, (x, y)),
        ensures
            self.is_fold(*f, r),
    {
        let a = self.lo().fold(f);
        f(a, self.2)
    }

    /// The mask with all ones in the lanes where the lanes of `self` and
    /// `other` satisfy `==`, and all zeros in the others.
    pub open spec fn spec_eq(self, other: int3) -> int3 {
        int3::of(lanes::map2(self@, other@, |x: i32, y: i32| bits32::mask(x == y)))
    }

    /// Compares lane by lane with `==`. Every lane of the result is all ones
    /// or all zeros.
    #[verifier::when_used_as_spec(spec_eq)]
    pub fn eq(self, other: int3) -> (r: int3)
        ensures
            r == self.spec_eq(other),
            r.is_mask(),
    {
        int3(
            bits32::mask_of(self.0 == other.0),
            bits32::mask_of(self.1 == other.1),
            bits32::mask_of(self.2 == other.2),
        )
    }

    /// The mask with all ones in the lanes where the lanes of `self` and
    /// `other` satisfy `!=`, and all zeros in the others.
    pub open spec fn spec_ne(self, other: int3) -> int3 {
        int3::of(lanes::map2(self@, other@, |x: i32, y: i32| bits32::mask(x != y)))
    }

    /// Compares lane by lane with `!=`. Every lane of the result is all ones
    /// or all zeros.
    #[verifier::when_used_as_spec(spec_ne)]
    pub fn ne(self, other: int3) -> (r: int3)
        ensures
            r == self.spec_ne(other),
            r.is_mask(),
    {
        int3(
            bits32::mask_of(self.0 != other.0),
            bits32::mask_of(self.1 != other.1),
            bits32::mask_of(self.2 != other.2),
        )
    }

    /// The mask with all ones in the lanes where the lanes of `self` and
    /// `other` satisfy `<`, and all zeros in the others.
    pub open spec fn spec_lt(self, other: int3) -> int3 {
        int3::of(lanes::map2(self@, other@, |x: i32, y: i32| bits32::mask(x < y)))
    }

    /// Compares lane by lane with `<`. Every lane of the result is all ones
    /// or all zeros.
    #[verifier::when_used_as_spec(spec_lt)]
    pub fn lt(self, other: int3) -> (r: int3)
        ensures
            r == self.spec_lt(other),
            r.is_mask(),
    {
        int3(
            bits32::mask_of(self.0 < other.0),
            bits32::mask_of(self.1 < other.1),
            bits32::mask_of(self.2 < other.2),
        )
    }

    /// The mask with all ones in the lanes where the lanes of `self` and
    /// `other` satisfy `<=`, and all zeros in the others.
    pub open spec fn spec_le(self, other: int3) -> int3 {
        int3::of(lanes::map2(self@, other@, |x: i32, y: i32| bits32::mask(x <= y)))
    }

    /// Compares lane by lane with `<=`. Every lane of the result is all ones
    /// or all zeros.
    #[verifier::when_used_as_spec(spec_le)]
    pub fn le(self, other: int3) -> (r: int3)
        ensures
            r == self.spec_le(other),
            r.is_mask(),
    {
        int3(
            bits32::mask_of(self.0 <= other.0),
            bits32::mask_of(self.1 <= other.1),
            bits32::mask_of(self.2 <= other.2),
        )
    }

    /// The mask with all ones in the lanes where the lanes of `self` and
    /// `other` satisfy `>`, and all zeros in the others.
    pub open spec fn spec_gt(self, other: int3) -> int3 {
        int3::of(lanes::map2(self@, other@, |x: i32, y: i32| bits32::mask(x > y)))
    }

    /// Compares lane by lane with `>`. Every lane of the result is all ones
    /// or all zeros.
    #[verifier::when_used_as_spec(spec_gt)]
    pub fn gt(self, other: int3) -> (r: int3)
        ensures
            r == self.spec_gt(other),
            r.is_mask(),
    {
        int3(
            bits32::mask_of(self.0 > other.0),
            bits32::mask_of(self.1 > other.1),
            bits32::mask_of(self.2 > other.2),
        )
    }

    /// The mask with all ones in the lanes where the lanes of `self` and
    /// `other` satisfy `>=`, and all zeros in the others.
    pub open spec fn spec_ge(self, other: int3) -> int3 {
        int3::of(lanes::map2(self@, other@, |x: i32, y: i32| bits32::mask(x >= y)))
    }

    /// Compares lane by lane with `>=`. Every lane of the result is all ones
    /// or all zeros.
    #[verifier::when_used_as_spec(spec_ge)]
    pub fn ge(self, other: int3) -> (r: int3)
        ensures
            r == self.spec_ge(other),
            r.is_mask(),
    {
        int3(
            bits32::mask_of(self.0 >= other.0),
            bits32::mask_of(self.1 >= other.1),
            bits32::mask_of(self.2 >= other.2),
        )
    }

    /// The greater of the two lanes at every position.
    pub open spec fn spec_max(self, other: int3) -> int3 {
        int3::of(lanes::map2(self@, other@, |x: i32, y: i32| if y > x { y } else { x }))
    }

    /// Takes the greater lane at every position: the lanes of `other` are
    /// selected where they are greater than those of `self`.
    #[verifier::when_used_as_spec(spec_max)]
    pub fn max(self, other: int3) -> (r: int3)
        ensures
            r == self.spec_max(other),
    {
        let greater = other.gt(self);
        proof {
            bits32::lemma_select_signed(greater.0, self.0, other.0);
            bits32::lemma_select_signed(greater.1, self.1, other.1);
            bits32::lemma_select_signed(greater.2, self.2, other.2);
        }
        greater.bitselect(self, other)
    }

    /// The lesser of the two lanes at every position.
    pub open spec fn spec_min(self, other: int3) -> int3 {
        int3::of(lanes::map2(self@, other@, |x: i32, y: i32| if y < x { y } else { x }))
    }

    /// Takes the lesser lane at every position: the lanes of `other` are
    /// selected where they are less than those of `self`.
    #[verifier::when_used_as_spec(spec_min)]
    pub fn min(self, other: int3) -> (r: int3)
        ensures
            r == self.spec_min(other),
    {
        let less = other.lt(self);
        proof {
            bits32::lemma_select_signed(less.0, self.0, other.0);
            bits32::lemma_select_signed(less.1, self.1, other.1);
            bits32::lemma_select_signed(less.2, self.2, other.2);
        }
        less.bitselect(self, other)
    }

    /// Every lane raised to at least the lane of `min`, then lowered to at most
    /// the lane of `max`.
    pub open spec fn spec_clamp(self, min: int3, max: int3) -> int3 {
        self.spec_max(min).spec_min(max)
    }

    /// Restricts every lane to the range that the lanes of `min` and `max`
    /// give. Where a lane of `min` is greater than that of `max`, the lane of
    /// `max` is the result.
    #[verifier::when_used_as_spec(spec_clamp)]
    pub fn clamp(self, min: int3, max: int3) -> (r: int3)
        ensures
            r == self.spec_clamp(min, max),
    {
        self.max(min).min(max)
    }

    /// The absolute value of every lane, wrapped: a lane that holds the least
    /// value of `i32` keeps it.
    pub open spec fn spec_abs(self) -> int3 {
        int3::of(lanes::map1(self@, |x: i32| bits32::abs_signed(x)))
    }

    /// Takes the absolute value of every lane. With the sign of a lane spread
    /// over the whole lane as a mask, the lane is inverted where it is
    /// negative and the mask is subtracted.
    #[verifier::when_used_as_spec(spec_abs)]
    pub fn abs(self) -> (r: int3)
        ensures
            r == self.spec_abs(),
    {
        let mask = self.shr(int3::broadcast(bits32::SIGN_SHIFT));
        proof {
            bits32::lemma_abs_signed(self.0);
            bits32::lemma_abs_signed(self.1);
            bits32::lemma_abs_signed(self.2);
        }
        self.bitxor(mask).sub(mask)
    }

    /// The sum of the lanes, wrapping on overflow.
    pub open spec fn spec_reduce_add(self) -> i32 {
        lanes::fold(self@, |x: i32, y: i32| x.wrapping_add(y))
    }

    /// Reduces the lanes to the sum of the lanes, wrapping on overflow, from
    /// left to right.
    #[verifier::when_used_as_spec(spec_reduce_add)]
    pub fn reduce_add(self) -> (r: i32)
        ensures
            r == self.spec_reduce_add(),
    {
        proof {
            reveal_with_fuel(lanes::fold, 4);
        }
        self.0.wrapping_add(self.1).wrapping_add(self.2)
    }

    /// The least lane.
    pub open spec fn spec_reduce_min(self) -> i32 {
        lanes::fold(self@, |x: i32, y: i32| if y < x { y } else { x })
    }

    /// Reduces the lanes to the least lane, from left to right.
    #[verifier::when_used_as_spec(spec_reduce_min)]
    pub fn reduce_min(self) -> (r: i32)
        ensures
            r == self.spec_reduce_min(),
    {
        proof {
            reveal_with_fuel(lanes::fold, 4);
        }
        let first = self.lo().reduce_min();
        if self.2 < first { self.2 } else { first }
    }

    /// The greatest lane.
    pub open spec fn spec_reduce_max(self) -> i32 {
        lanes::fold(self@, |x: i32, y: i32| if y > x { y } else { x })
    }

    /// Reduces the lanes to the greatest lane, from left to right.
    #[verifier::when_used_as_spec(spec_reduce_max)]
    pub fn reduce_max(self) -> (r: i32)
        ensures
            r == self.spec_reduce_max(),
    {
        proof {
            reveal_with_fuel(lanes::fold, 4);
        }
        let first = self.lo().reduce_max();
        if self.2 > first { self.2 } else { first }
    }

    /// The conjunction of the bits of all lanes.
    pub open spec fn spec_reduce_and(self) -> i32 {
        lanes::fold(self@, |x: i32, y: i32| x & y)
    }

    /// Reduces the lanes to the conjunction of the bits of all lanes, from
    /// left to right.
    #[verifier::when_used_as_spec(spec_reduce_and)]
    pub fn reduce_and(self) -> (r: i32)
        ensures
            r == self.spec_reduce_and(),
    {
        proof {
            reveal_with_fuel(lanes::fold, 4);
        }
        (self.0 & self.1) & self.2
    }

    /// The disjunction of the bits of all lanes.
    pub open spec fn spec_reduce_or(self) -> i32 {
        lanes::fold(self@, |x: i32, y: i32| x | y)
    }

    /// Reduces the lanes to the disjunction of the bits of all lanes, from
    /// left to right.
    #[verifier::when_used_as_spec(spec_reduce_or)]
    pub fn reduce_or(self) -> (r: i32)
        ensures
            r == self.spec_reduce_or(),
    {
        proof {
            reveal_with_fuel(lanes::fold, 4);
        }
        (self.0 | self.1) | self.2
    }

    /// The exclusive disjunction of the bits of all lanes.
    pub open spec fn spec_reduce_xor(self) -> i32 {
        lanes::fold(self@, |x: i32, y: i32| x ^ y)
    }

    /// Reduces the lanes to the exclusive disjunction of the bits of all
    /// lanes, from left to right.
    #[verifier::when_used_as_spec(spec_reduce_xor)]
    pub fn reduce_xor(self) -> (r: i32)
        ensures
            r == self.spec_reduce_xor(),
    {
        proof {
            reveal_with_fuel(lanes::fold, 4);
        }
        (self.0 ^ self.1) ^ self.2
    }

    /// Whether the sign bit of every lane is set.
    pub open spec fn spec_all(self) -> bool {
        forall|i: int| 0 <= i < 3 ==> bits32::sign_set_signed(#[trigger] self@[i])
    }

    /// Whether the sign bit of every lane is set: the sign bit of the
    /// conjunction of all lanes is tested. On a mask this tells whether every
    /// lane is true.
    #[verifier::when_used_as_spec(spec_all)]
    pub fn all(self) -> (r: bool)
        ensures
            r == self.spec_all(),
    {
        let bits = self.reduce_and();
        proof {
            reveal_with_fuel(lanes::fold, 4);
            bits32::lemma_sign_bits_signed(self.0, self.1);
            bits32::lemma_sign_bits_signed(self.0 & self.1, self.2);
            bits32::lemma_sign_bits_signed(bits, bits);
        }
        bits & i32::MIN != 0
    }

    /// Whether the sign bit of some lane is set.
    pub open spec fn spec_any(self) -> bool {
        exists|i: int| 0 <= i < 3 && bits32::sign_set_signed(#[trigger] self@[i])
    }

    /// Whether the sign bit of some lane is set: the sign bit of the
    /// disjunction of all lanes is tested. On a mask this tells whether some
    /// lane is true.
    #[verifier::when_used_as_spec(spec_any)]
    pub fn any(self) -> (r: bool)
        ensures
            r == self.spec_any(),
    {
        let bits = self.reduce_or();
        proof {
            reveal_with_fuel(lanes::fold, 4);
            bits32::lemma_sign_bits_signed(self.0, self.1);
            bits32::lemma_sign_bits_signed(self.0 | self.1, self.2);
            bits32::lemma_sign_bits_signed(bits, bits);
        }
        bits & i32::MIN != 0
    }

    /// The sum of the products of the lanes at equal positions, every product
    /// and every sum wrapped into the lane.
    pub open spec fn spec_dot(self, other: int3) -> i32 {
        lanes::fold(
            lanes::map2(self@, other@, |x: i32, y: i32| x.wrapping_mul(y)),
            |x: i32, y: i32| x.wrapping_add(y),
        )
    }

    /// The dot product: the lanes are multiplied pairwise and the products
    /// are added up as `reduce_add` does.
    #[verifier::when_used_as_spec(spec_dot)]
    pub fn dot(self, other: int3) -> (r: i32)
        ensures
            r == self.spec_dot(other),
    {
        proof {
            reveal_with_fuel(lanes::fold, 4);
        }
        self.mul(other).reduce_add()
    }

    /// Every lane cut down to its low 8 bits, read as `i8`.
    pub open spec fn spec_to_char(self) -> char3 {
        char3::of(lanes::map1(self@, |x: i32| x as i8))
    }

    /// Converts every lane to `i8` as a cast does: the high bits are dropped
    /// and a value that does not fit wraps around.
    #[verifier::when_used_as_spec(spec_to_char)]
    pub fn to_char(self) -> (r: char3)
        ensures
            r == self.spec_to_char(),
    {
        char3(
            #[verifier::truncate] (self.0 as i8),
            #[verifier::truncate] (self.1 as i8),
            #[verifier::truncate] (self.2 as i8),
        )
    }

    /// Every lane as the `i8` nearest to its value.
    pub open spec fn spec_to_char_sat(self) -> char3 {
        char3::of(lanes::map1(self@, |x: i32| bits8::saturate_signed(x as int)))
    }

    /// Converts every lane to `i8`, saturating at the bounds of `i8`.
    /// The lanes are clamped to the range of `i8` and then converted.
    #[verifier::when_used_as_spec(spec_to_char_sat)]
    pub fn to_char_sat(self) -> (r: char3)
        ensures
            r == self.spec_to_char_sat(),
    {
        self.clamp(int3::broadcast(i8::MIN as i32), int3::broadcast(i8::MAX as i32)).to_char()
    }

    /// Every lane cut down to its low 8 bits, read as `u8`.
    pub open spec fn spec_to_uchar(self) -> uchar3 {
        uchar3::of(lanes::map1(self@, |x: i32| x as u8))
    }

    /// Converts every lane to `u8` as a cast does: the high bits are dropped
    /// and a value that does not fit wraps around.
    #[verifier::when_used_as_spec(spec_to_uchar)]
    pub fn to_uchar(self) -> (r: uchar3)
        ensures
            r == self.spec_to_uchar(),
    {
        uchar3(
            #[verifier::truncate] (self.0 as u8),
            #[verifier::truncate] (self.1 as u8),
            #[verifier::truncate] (self.2 as u8),
        )
    }

    /// Every lane as the `u8` nearest to its value.
    pub open spec fn spec_to_uchar_sat(self) -> uchar3 {
        uchar3::of(lanes::map1(self@, |x: i32| bits8::saturate_unsigned(x as int)))
    }

    /// Converts every lane to `u8`, saturating at the bounds of `u8`.
    /// The lanes are clamped to the range of `u8` and then converted.
    #[verifier::when_used_as_spec(spec_to_uchar_sat)]
    pub fn to_uchar_sat(self) -> (r: uchar3)
        ensures
            r == self.spec_to_uchar_sat(),
    {
        self.clamp(int3::broadcast(0), int3::broadcast(u8::MAX as i32)).to_uchar()
    }

    /// Every lane cut down to its low 16 bits, read as `i16`.
    pub open spec fn spec_to_short(self) -> short3 {
        short3::of(lanes::map1(self@, |x: i32| x as i16))
    }

    /// Converts every lane to `i16` as a cast does: the high bits are dropped
    /// and a value that does not fit wraps around.
    #[verifier::when_used_as_spec(spec_to_short)]
    pub fn to_short(self) -> (r: short3)
        ensures
            r == self.spec_to_short(),
    {
        short3(
            #[verifier::truncate] (self.0 as i16),
            #[verifier::truncate] (self.1 as i16),
            #[verifier::truncate] (self.2 as i16),
        )
    }

    /// Every lane as the `i16` nearest to its value.
    pub open spec fn spec_to_short_sat(self) -> short3 {
        short3::of(lanes::map1(self@, |x: i32| bits16::saturate_signed(x as int)))
    }

    /// Converts every lane to `i16`, saturating at the bounds of `i16`.
    /// The lanes are clamped to the range of `i16` and then converted.
    #[verifier::when_used_as_spec(spec_to_short_sat)]
    pub fn to_short_sat(self) -> (r: short3)
        ensures
            r == self.spec_to_short_sat(),
    {
        self.clamp(int3::broadcast(i16::MIN as i32), int3::broadcast(i16::MAX as i32)).to_short()
    }

    /// Every lane cut down to its low 16 bits, read as `u16`.
    pub open spec fn spec_to_ushort(self) -> ushort3 {
        ushort3::of(lanes::map1(self@, |x: i32| x as u16))
    }

    /// Converts every lane to `u16` as a cast does: the high bits are dropped
    /// and a value that does not fit wraps around.
    #[verifier::when_used_as_spec(spec_to_ushort)]
    pub fn to_ushort(self) -> (r: ushort3)
        ensures
            r == self.spec_to_ushort(),
    {
        ushort3(
            #[verifier::truncate] (self.0 as u16),
            #[verifier::truncate] (self.1 as u16),
            #[verifier::truncate] (self.2 as u16),
        )
    }

    /// Every lane as the `u16` nearest to its value.
    pub open spec fn spec_to_ushort_sat(self) -> ushort3 {
        ushort3::of(lanes::map1(self@, |x: i32| bits16::saturate_unsigned(x as int)))
    }

    /// Converts every lane to `u16`, saturating at the bounds of `u16`.
    /// The lanes are clamped to the range of `u16` and then converted.
    #[verifier::when_used_as_spec(spec_to_ushort_sat)]
    pub fn to_ushort_sat(self) -> (r: ushort3)
        ensures
            r == self.spec_to_ushort_sat(),
    {
        self.clamp(int3::broadcast(0), int3::broadcast(u16::MAX as i32)).to_ushort()
    }

    /// The vector itself.
    pub open spec fn spec_to_int(self) -> int3 {
        self
    }

    /// The vector itself.
    #[verifier::when_used_as_spec(spec_to_int)]
    pub fn to_int(self) -> (r: int3)
        ensures
            r == self.spec_to_int(),
    {
        self
    }

    /// Every lane as the `i32` nearest to its value.
    pub open spec fn spec_to_int_sat(self) -> int3 {
        self
    }

    /// Converts every lane to `i32`, saturating at the bounds of `i32`.
    /// Nothing is to be done.
    #[verifier::when_used_as_spec(spec_to_int_sat)]
    pub fn to_int_sat(self) -> (r: int3)
        ensures
            r == self.spec_to_int_sat(),
    {
        self
    }

    /// Every lane as the `u32` with the same bits.
    pub open spec fn spec_to_uint(self) -> uint3 {
        uint3::of(lanes::map1(self@, |x: i32| x as u32))
    }

    /// Converts every lane to `u32` as a cast does: a value that does not fit
    /// wraps around.
    #[verifier::when_used_as_spec(spec_to_uint)]
    pub fn to_uint(self) -> (r: uint3)
        ensures
            r == self.spec_to_uint(),
    {
        uint3(
            #[verifier::truncate] (self.0 as u32),
            #[verifier::truncate] (self.1 as u32),
            #[verifier::truncate] (self.2 as u32),
        )
    }

    /// Every lane as the `u32` nearest to its value.
    pub open spec fn spec_to_uint_sat(self) -> uint3 {
        uint3::of(lanes::map1(self@, |x: i32| bits32::saturate_unsigned(x as int)))
    }

    /// Converts every lane to `u32`, saturating at the bounds of `u32`.
    /// Negative lanes are raised to zero, then the lanes are converted.
    #[verifier::when_used_as_spec(spec_to_uint_sat)]
    pub fn to_uint_sat(self) -> (r: uint3)
        ensures
            r == self.spec_to_uint_sat(),
    {
        self.max(int3::broadcast(0)).to_uint()
    }

    /// Every lane as a `i64` of the same value.
    pub open spec fn spec_to_long(self) -> long3 {
        long3::of(lanes::map1(self@, |x: i32| x as i64))
    }

    /// Converts every lane to `i64`. Every value fits.
    #[verifier::when_used_as_spec(spec_to_long)]
    pub fn to_long(self) -> (r: long3)
        ensures
            r == self.spec_to_long(),
    {
        long3(self.0 as i64, self.1 as i64, self.2 as i64)
    }

    /// Every lane as the `i64` nearest to its value.
    pub open spec fn spec_to_long_sat(self) -> long3 {
        long3::of(lanes::map1(self@, |x: i32| bits64::saturate_signed(x as int)))
    }

    /// Converts every lane to `i64`, saturating at the bounds of `i64`.
    /// Every value fits, so the lanes are converted as they are.
    #[verifier::when_used_as_spec(spec_to_long_sat)]
    pub fn to_long_sat(self) -> (r: long3)
        ensures
            r == self.spec_to_long_sat(),
    {
        self.to_long()
    }

    /// Every lane as the `u64` with the same bits, the sign extended.
    pub open spec fn spec_to_ulong(self) -> ulong3 {
        ulong3::of(lanes::map1(self@, |x: i32| x as u64))
    }

    /// Converts every lane to `u64` as a cast does: a value that does not fit
    /// wraps around.
    #[verifier::when_used_as_spec(spec_to_ulong)]
    pub fn to_ulong(self) -> (r: ulong3)
        ensures
            r == self.spec_to_ulong(),
    {
        ulong3(
            #[verifier::truncate] (self.0 as u64),
            #[verifier::truncate] (self.1 as u64),
            #[verifier::truncate] (self.2 as u64),
        )
    }

    /// Every lane as the `u64` nearest to its value.
    pub open spec fn spec_to_ulong_sat(self) -> ulong3 {
        ulong3::of(lanes::map1(self@, |x: i32| bits64::saturate_unsigned(x as int)))
    }

    /// Converts every lane to `u64`, saturating at the bounds of `u64`.
    /// Negative lanes are raised to zero, then the lanes are converted.
    #[verifier::when_used_as_spec(spec_to_ulong_sat)]
    pub fn to_ulong_sat(self) -> (r: ulong3)
        ensures
            r == self.spec_to_ulong_sat(),
    {
        self.max(int3::broadcast(0)).to_ulong()
    }

    /// Whether `r` may hold the lanes of `self` as single precision numbers,
    /// where `cast` converts one lane and gives the bit pattern of the number.
    pub open spec fn is_to_float<C: Fn(i32) -> u32>(self, cast: C, r: float3) -> bool {
        &&& call_ensures(cast, (self.0,), r.0)
        &&& call_ensures(cast, (self.1,), r.1)
        &&& call_ensures(cast, (self.2,), r.2)
    }

    /// Converts every lane to a single precision number by `cast`.
    pub fn to_float<C: Fn(i32) -> u32>(self, cast: &C) -> (r: float3)
        requires
            forall|x: i32| call_requires(cast, (x,)),
        ensures
            self.is_to_float(*cast, r),
    {
        float3(cast(self.0), cast(self.1), cast(self.2))
    }

    /// Whether `r` may hold the lanes of `self` as double precision numbers,
    /// where `cast` converts one lane and gives the bit pattern of the number.
    pub open spec fn is_to_double<C: Fn(i32) -> u64>(self, cast: C, r: double3) -> bool {
        &&& call_ensures(cast, (self.0,), r.0)
        &&& call_ensures(cast, (self.1,), r.1)
        &&& call_ensures(cast, (self.2,), r.2)
    }

    /// Converts every lane to a double precision number by `cast`.
    pub fn to_double<C: Fn(i32) -> u64>(self, cast: &C) -> (r: double3)
        requires
            forall|x: i32| call_requires(cast, (x,)),
        ensures
            self.is_to_double(*cast, r),
    {
        double3(cast(self.0), cast(self.1), cast(self.2))
    }

    /// A comparison of a vector with itself for equality is true in every
    /// lane, and one for inequality is true in none.
    pub proof fn lemma_eq_reflexive(x: int3)
        ensures
            x.eq(x).all(),
            !x.ne(x).any(),
    {
    }

    /// The dot product does not depend on the order of its operands.
    pub proof fn lemma_dot_commutative(a: int3, b: int3)
        ensures
            a.dot(b) == b.dot(a),
    {
        assert(lanes::map2(a@, b@, |x: i32, y: i32| x.wrapping_mul(y)) =~= lanes::map2(
            b@,
            a@,
            |x: i32, y: i32| x.wrapping_mul(y),
        ));
    }

    /// Reinterpreting the unsigned vector of the same shape reads its lanes
    /// bit for bit.
    pub proof fn lemma_bitcast_keeps_lanes(b: uint3)
        ensures
            int3::bitcast(b) == int3::from_bits(b),
    {
        bits32::lemma_bytes_round_trip(b.0, 0, 0, 0, 0);
        bits32::lemma_bytes_round_trip(b.1, 0, 0, 0, 0);
        bits32::lemma_bytes_round_trip(b.2, 0, 0, 0, 0);
    }

    /// Reinterpreting a vector as its own type changes nothing.
    pub proof fn lemma_bitcast_identity(x: int3)
        ensures
            int3::bitcast(x) == x,
    {
        bits32::lemma_bytes_round_trip(x.to_bits().0, 0, 0, 0, 0);
        bits32::lemma_bytes_round_trip(x.to_bits().1, 0, 0, 0, 0);
        bits32::lemma_bytes_round_trip(x.to_bits().2, 0, 0, 0, 0);
        bits32::lemma_cast_round_trip(0, x.0);
        bits32::lemma_cast_round_trip(0, x.1);
        bits32::lemma_cast_round_trip(0, x.2);
    }

    /// The result of `reduce_add` is the sum of the lanes, wrapped into the
    /// lane: the order in which the lanes are added plays no part.
    pub proof fn lemma_reduce_add_is_sum(x: int3)
        ensures
            x.reduce_add() == bits32::wrap_signed(x.0 + x.1 + x.2),
    {
        reveal_with_fuel(lanes::fold, 4);
        bits32::lemma_wrap_in_range_signed(x.0);
        bits32::lemma_wrap_in_range_signed(x.1);
        bits32::lemma_wrap_in_range_signed(x.2);
        bits32::lemma_wrapping_sum_signed(x.0, x.1, x.0 as int, x.1 as int);
        bits32::lemma_wrapping_sum_signed(
            x.0.wrapping_add(x.1),
            x.2,
            x.0 as int + x.1 as int,
            x.2 as int,
        );
    }

    /// The dot product is the sum of the products of the lanes, wrapped into
    /// the lane.
    pub proof fn lemma_dot_is_sum_of_products(a: int3, b: int3)
        ensures
            a.dot(b) == bits32::wrap_signed(a.0 * b.0 + a.1 * b.1 + a.2 * b.2),
    {
        reveal_with_fuel(lanes::fold, 4);
        bits32::lemma_wrapping_product_signed(a.0, b.0);
        bits32::lemma_wrapping_product_signed(a.1, b.1);
        bits32::lemma_wrapping_product_signed(a.2, b.2);
        bits32::lemma_wrapping_sum_signed(
            a.0.wrapping_mul(b.0),
            a.1.wrapping_mul(b.1),
            a.0 * b.0,
            a.1 * b.1,
        );
        bits32::lemma_wrapping_sum_signed(
            a.0.wrapping_mul(b.0).wrapping_add(a.1.wrapping_mul(b.1)),
            a.2.wrapping_mul(b.2),
            a.0 * b.0 + a.1 * b.1,
            a.2 * b.2,
        );
    }

    /// The result of `reduce_min` is a lane, and no lane is less than it.
    pub proof fn lemma_reduce_min_is_least(x: int3)
        ensures
            forall|i: int| 0 <= i < 3 ==> x.reduce_min() <= #[trigger] x@[i],
            exists|i: int| 0 <= i < 3 && x.reduce_min() == #[trigger] x@[i],
    {
        reveal_with_fuel(lanes::fold, 4);
        assert(x@[0] == x.0 && x@[1] == x.1 && x@[2] == x.2);
    }

    /// The result of `reduce_max` is a lane, and no lane is greater than it.
    pub proof fn lemma_reduce_max_is_greatest(x: int3)
        ensures
            forall|i: int| 0 <= i < 3 ==> x.reduce_max() >= #[trigger] x@[i],
            exists|i: int| 0 <= i < 3 && x.reduce_max() == #[trigger] x@[i],
    {
        reveal_with_fuel(lanes::fold, 4);
        assert(x@[0] == x.0 && x@[1] == x.1 && x@[2] == x.2);
    }

    /// A vector that is widened to `long3` and narrowed again with
    /// saturation is the vector it was.
    pub proof fn lemma_long_round_trip(x: int3)
        ensures
            x.to_long().to_int_sat() == x,
    {
    }

    /// A vector that has no negative lane that is widened to `ulong3` and
    /// narrowed again with saturation is the vector it was.
    pub proof fn lemma_ulong_round_trip(x: int3)
        requires
            x.0 >= 0,
            x.1 >= 0,
            x.2 >= 0,
        ensures
            x.to_ulong().to_int_sat() == x,
    {
    }
}

/// `v[i]` is lane `i`, for `i` below 3.
impl core::ops::Index<u32> for int3 {
    type Output = i32;

    fn index(&self, index: u32) -> (r: &i32)
        ensures
            *r == self@[index as int],
    {
        if index == 0 {
            &self.0
        } else if index == 1 {
            &self.1
        } else {
            &self.2
        }
    }
}

impl vstd::std_specs::core::IndexSpecImpl<u32> for int3 {
    open spec fn index_req(&self, index: &u32) -> bool {
        *index < 3
    }
}

/// The bytes of the vector: the lanes in order, each with its least significant
/// byte first, followed by 4 zero bytes for the lane that is not there.
impl Bitcast for int3 {
    type Image = [u8; 16];

    open spec fn spec_image(self) -> Seq<u8> {
        bits32::image(lanes::padded(self.spec_to_bits()@, 0))
    }

    open spec fn spec_from_image(image: Seq<u8>) -> int3 {
        int3::spec_from_bits(uint3::of(bits32::lanes_of_image(image)))
    }

    fn image(self) -> (r: [u8; 16]) {
        let b = self.to_bits();
        let l0 = bits32::bytes(b.0);
        let l1 = bits32::bytes(b.1);
        let l2 = bits32::bytes(b.2);
        let r = [
            l0[0], l0[1], l0[2], l0[3], l1[0], l1[1], l1[2], l1[3],
            l2[0], l2[1], l2[2], l2[3], 0, 0, 0, 0,
        ];
        proof {
            let s = lanes::padded(self.spec_to_bits()@, 0);
            assert(s.len() == 4);
            assert forall|j: int| 0 <= j < 16 implies r@[j] == bits32::byte(s[j / 4], j % 4) by {
                assert(s[0] == b.0);
                assert(s[1] == b.1);
                assert(s[2] == b.2);
                assert(s[3] == 0);
                bits32::lemma_bytes_round_trip(0, 0, 0, 0, 0);
            }
        }
        r
    }

    fn from_image(image: [u8; 16]) -> (r: int3) {
        int3::from_bits(
            uint3(
                bits32::join(image[0], image[1], image[2], image[3]),
                bits32::join(image[4], image[5], image[6], image[7]),
                bits32::join(image[8], image[9], image[10], image[11]),
            ),
        )
    }
}

/// Selection between two vectors of type `int3` by a mask of type `int3`.
impl Select<int3> for int3 {
    open spec fn spec_bitselect(self, a: int3, b: int3) -> int3 {
        int3::of(
            lanes::map3(self@, a@, b@, |m: i32, x: i32, y: i32| bits32::select_signed(m, x, y)),
        )
    }

    open spec fn spec_select(self, a: int3, b: int3) -> int3 {
        int3::of(lanes::map3(self@, a@, b@, |m: i32, x: i32, y: i32| if m < 0 { y } else { x }))
    }

    /// Every bit of the result comes from `b` where the bit of `self` is set
    /// and from `a` where it is not. A lane of `self` that is all ones selects
    /// the whole lane of `b`, one that is all zeros the whole lane of `a`.
    fn bitselect(self, a: int3, b: int3) -> (r: int3)
        ensures
            forall|i: int|
                0 <= i < 3 && self@[i] == bits32::ALL_ONES ==> #[trigger] r@[i] == b@[i],
            forall|i: int|
                0 <= i < 3 && self@[i] == bits32::ALL_ZEROS ==> #[trigger] r@[i] == a@[i],
    {
        proof {
            bits32::lemma_select_signed(self.0, a.0, b.0);
            bits32::lemma_select_signed(self.1, a.1, b.1);
            bits32::lemma_select_signed(self.2, a.2, b.2);
        }
        a.bitand(self.not()).bitor(b.bitand(self))
    }

    /// Every lane of the result is the lane of `b` where the sign bit of the
    /// lane of `self` is set, and the lane of `a` where it is not.
    fn select(self, a: int3, b: int3) -> (r: int3) {
        let sign = self.shr(int3::broadcast(bits32::SIGN_SHIFT));
        proof {
            bits32::lemma_select_by_sign_signed(self.0, a.0, b.0);
            bits32::lemma_select_by_sign_signed(self.1, a.1, b.1);
            bits32::lemma_select_by_sign_signed(self.2, a.2, b.2);
        }
        sign.bitselect(a, b)
    }
}

/// Selection between two vectors of type `uint3` by a mask of type `int3`.
impl Select<uint3> for int3 {
    open spec fn spec_bitselect(self, a: uint3, b: uint3) -> uint3 {
        uint3::of(
            lanes::map3(self@, a@, b@, |m: i32, x: u32, y: u32| bits32::select_unsigned(m, x, y)),
        )
    }

    open spec fn spec_select(self, a: uint3, b: uint3) -> uint3 {
        uint3::of(lanes::map3(self@, a@, b@, |m: i32, x: u32, y: u32| if m < 0 { y } else { x }))
    }

    /// Every bit of the result comes from `b` where the bit of `self` is set
    /// and from `a` where it is not. A lane of `self` that is all ones selects
    /// the whole lane of `b`, one that is all zeros the whole lane of `a`.
    fn bitselect(self, a: uint3, b: uint3) -> (r: uint3)
        ensures
            forall|i: int|
                0 <= i < 3 && self@[i] == bits32::ALL_ONES ==> #[trigger] r@[i] == b@[i],
            forall|i: int|
                0 <= i < 3 && self@[i] == bits32::ALL_ZEROS ==> #[trigger] r@[i] == a@[i],
    {
        proof {
            bits32::lemma_select_unsigned(self.0, a.0, b.0);
            bits32::lemma_select_unsigned(self.1, a.1, b.1);
            bits32::lemma_select_unsigned(self.2, a.2, b.2);
        }
        self.bitselect(int3::from_bits(a), int3::from_bits(b)).to_bits()
    }

    /// Every lane of the result is the lane of `b` where the sign bit of the
    /// lane of `self` is set, and the lane of `a` where it is not.
    fn select(self, a: uint3, b: uint3) -> (r: uint3) {
        let sign = self.shr(int3::broadcast(bits32::SIGN_SHIFT));
        proof {
            bits32::lemma_select_by_sign_unsigned(self.0, a.0, b.0);
            bits32::lemma_select_by_sign_unsigned(self.1, a.1, b.1);
            bits32::lemma_select_by_sign_unsigned(self.2, a.2, b.2);
        }
        sign.bitselect(a, b)
    }
}

/// Selection between two vectors of type `float3` by a mask of type `int3`.
impl Select<float3> for int3 {
    open spec fn spec_bitselect(self, a: float3, b: float3) -> float3 {
        float3::of(
            lanes::map3(self@, a@, b@, |m: i32, x: u32, y: u32| bits32::select_unsigned(m, x, y)),
        )
    }

    open spec fn spec_select(self, a: float3, b: float3) -> float3 {
        float3::of(lanes::map3(self@, a@, b@, |m: i32, x: u32, y: u32| if m < 0 { y } else { x }))
    }

    /// Every bit of the result comes from `b` where the bit of `self` is set
    /// and from `a` where it is not. A lane of `self` that is all ones selects
    /// the whole lane of `b`, one that is all zeros the whole lane of `a`.
    fn bitselect(self, a: float3, b: float3) -> (r: float3)
        ensures
            forall|i: int|
                0 <= i < 3 && self@[i] == bits32::ALL_ONES ==> #[trigger] r@[i] == b@[i],
            forall|i: int|
                0 <= i < 3 && self@[i] == bits32::ALL_ZEROS ==> #[trigger] r@[i] == a@[i],
    {
        proof {
            bits32::lemma_select_unsigned(self.0, a.0, b.0);
            bits32::lemma_select_unsigned(self.1, a.1, b.1);
            bits32::lemma_select_unsigned(self.2, a.2, b.2);
        }
        float3::from_bits(
            self.bitselect(int3::from_bits(a.to_bits()), int3::from_bits(b.to_bits())).to_bits(),
        )
    }

    /// Every lane of the result is the lane of `b` where the sign bit of the
    /// lane of `self` is set, and the lane of `a` where it is not.
    fn select(self, a: float3, b: float3) -> (r: float3) {
        let sign = self.shr(int3::broadcast(bits32::SIGN_SHIFT));
        proof {
            bits32::lemma_select_by_sign_unsigned(self.0, a.0, b.0);
            bits32::lemma_select_by_sign_unsigned(self.1, a.1, b.1);
            bits32::lemma_select_by_sign_unsigned(self.2, a.2, b.2);
        }
        sign.bitselect(a, b)
    }
}

/// Lane-wise sum, wrapping on overflow.
impl core::ops::Add for int3 {
    type Output = int3;

    fn add(self, rhs: int3) -> (r: int3) {
        int3(self.0.wrapping_add(rhs.0), self.1.wrapping_add(rhs.1), self.2.wrapping_add(rhs.2))
    }
}

impl vstd::std_specs::ops::AddSpecImpl for int3 {
    open spec fn obeys_add_spec() -> bool {
        true
    }

    open spec fn add_req(self, rhs: int3) -> bool {
        true
    }

    open spec fn add_spec(self, rhs: int3) -> int3 {
        int3::of(lanes::map2(self@, rhs@, |x: i32, y: i32| x.wrapping_add(y)))
    }
}

/// The same with `rhs` in every lane of the right operand.
impl core::ops::Add<i32> for int3 {
    type Output = int3;

    fn add(self, rhs: i32) -> (r: int3) {
        self.add(int3::broadcast(rhs))
    }
}

impl vstd::std_specs::ops::AddSpecImpl<i32> for int3 {
    open spec fn obeys_add_spec() -> bool {
        true
    }

    open spec fn add_req(self, rhs: i32) -> bool {
        true
    }

    open spec fn add_spec(self, rhs: i32) -> int3 {
        vstd::std_specs::ops::AddSpec::add_spec(self, int3::broadcast(rhs))
    }
}

/// The same with `self` in every lane of the left operand.
impl core::ops::Add<int3> for i32 {
    type Output = int3;

    fn add(self, rhs: int3) -> (r: int3) {
        int3::broadcast(self).add(rhs)
    }
}

impl vstd::std_specs::ops::AddSpecImpl<int3> for i32 {
    open spec fn obeys_add_spec() -> bool {
        true
    }

    open spec fn add_req(self, rhs: int3) -> bool {
        true
    }

    open spec fn add_spec(self, rhs: int3) -> int3 {
        vstd::std_specs::ops::AddSpec::add_spec(int3::broadcast(self), rhs)
    }
}

/// Lane-wise difference, wrapping on overflow.
impl core::ops::Sub for int3 {
    type Output = int3;

    fn sub(self, rhs: int3) -> (r: int3) {
        int3(self.0.wrapping_sub(rhs.0), self.1.wrapping_sub(rhs.1), self.2.wrapping_sub(rhs.2))
    }
}

impl vstd::std_specs::ops::SubSpecImpl for int3 {
    open spec fn obeys_sub_spec() -> bool {
        true
    }

    open spec fn sub_req(self, rhs: int3) -> bool {
        true
    }

    open spec fn sub_spec(self, rhs: int3) -> int3 {
        int3::of(lanes::map2(self@, rhs@, |x: i32, y: i32| x.wrapping_sub(y)))
    }
}

/// The same with `rhs` in every lane of the right operand.
impl core::ops::Sub<i32> for int3 {
    type Output = int3;

    fn sub(self, rhs: i32) -> (r: int3) {
        self.sub(int3::broadcast(rhs))
    }
}

impl vstd::std_specs::ops::SubSpecImpl<i32> for int3 {
    open spec fn obeys_sub_spec() -> bool {
        true
    }

    open spec fn sub_req(self, rhs: i32) -> bool {
        true
    }

    open spec fn sub_spec(self, rhs: i32) -> int3 {
        vstd::std_specs::ops::SubSpec::sub_spec(self, int3::broadcast(rhs))
    }
}

/// The same with `self` in every lane of the left operand.
impl core::ops::Sub<int3> for i32 {
    type Output = int3;

    fn sub(self, rhs: int3) -> (r: int3) {
        int3::broadcast(self).sub(rhs)
    }
}

impl vstd::std_specs::ops::SubSpecImpl<int3> for i32 {
    open spec fn obeys_sub_spec() -> bool {
        true
    }

    open spec fn sub_req(self, rhs: int3) -> bool {
        true
    }

    open spec fn sub_spec(self, rhs: int3) -> int3 {
        vstd::std_specs::ops::SubSpec::sub_spec(int3::broadcast(self), rhs)
    }
}

/// Lane-wise product, wrapping on overflow.
impl core::ops::Mul for int3 {
    type Output = int3;

    fn mul(self, rhs: int3) -> (r: int3) {
        int3(self.0.wrapping_mul(rhs.0), self.1.wrapping_mul(rhs.1), self.2.wrapping_mul(rhs.2))
    }
}

impl vstd::std_specs::ops::MulSpecImpl for int3 {
    open spec fn obeys_mul_spec() -> bool {
        true
    }

    open spec fn mul_req(self, rhs: int3) -> bool {
        true
    }

    open spec fn mul_spec(self, rhs: int3) -> int3 {
        int3::of(lanes::map2(self@, rhs@, |x: i32, y: i32| x.wrapping_mul(y)))
    }
}

/// The same with `rhs` in every lane of the right operand.
impl core::ops::Mul<i32> for int3 {
    type Output = int3;

    fn mul(self, rhs: i32) -> (r: int3) {
        self.mul(int3::broadcast(rhs))
    }
}

impl vstd::std_specs::ops::MulSpecImpl<i32> for int3 {
    open spec fn obeys_mul_spec() -> bool {
        true
    }

    open spec fn mul_req(self, rhs: i32) -> bool {
        true
    }

    open spec fn mul_spec(self, rhs: i32) -> int3 {
        vstd::std_specs::ops::MulSpec::mul_spec(self, int3::broadcast(rhs))
    }
}

/// The same with `self` in every lane of the left operand.
impl core::ops::Mul<int3> for i32 {
    type Output = int3;

    fn mul(self, rhs: int3) -> (r: int3) {
        int3::broadcast(self).mul(rhs)
    }
}

impl vstd::std_specs::ops::MulSpecImpl<int3> for i32 {
    open spec fn obeys_mul_spec() -> bool {
        true
    }

    open spec fn mul_req(self, rhs: int3) -> bool {
        true
    }

    open spec fn mul_spec(self, rhs: int3) -> int3 {
        vstd::std_specs::ops::MulSpec::mul_spec(int3::broadcast(self), rhs)
    }
}

/// Lane-wise quotient, rounded towards zero. No lane of the divisor may be
/// zero.
impl core::ops::Div for int3 {
    type Output = int3;

    fn div(self, rhs: int3) -> (r: int3) {
        int3(
            bits32::wrapping_div(self.0, rhs.0),
            bits32::wrapping_div(self.1, rhs.1),
            bits32::wrapping_div(self.2, rhs.2),
        )
    }
}

impl vstd::std_specs::ops::DivSpecImpl for int3 {
    open spec fn obeys_div_spec() -> bool {
        true
    }

    open spec fn div_req(self, rhs: int3) -> bool {
        rhs.0 != 0 && rhs.1 != 0 && rhs.2 != 0
    }

    open spec fn div_spec(self, rhs: int3) -> int3 {
        int3::of(lanes::map2(self@, rhs@, |x: i32, y: i32| bits32::spec_wrapping_div(x, y)))
    }
}

/// The same with `rhs` in every lane of the right operand.
impl core::ops::Div<i32> for int3 {
    type Output = int3;

    fn div(self, rhs: i32) -> (r: int3) {
        self.div(int3::broadcast(rhs))
    }
}

impl vstd::std_specs::ops::DivSpecImpl<i32> for int3 {
    open spec fn obeys_div_spec() -> bool {
        true
    }

    open spec fn div_req(self, rhs: i32) -> bool {
        rhs != 0
    }

    open spec fn div_spec(self, rhs: i32) -> int3 {
        vstd::std_specs::ops::DivSpec::div_spec(self, int3::broadcast(rhs))
    }
}

/// The same with `self` in every lane of the left operand.
impl core::ops::Div<int3> for i32 {
    type Output = int3;

    fn div(self, rhs: int3) -> (r: int3) {
        int3::broadcast(self).div(rhs)
    }
}

impl vstd::std_specs::ops::DivSpecImpl<int3> for i32 {
    open spec fn obeys_div_spec() -> bool {
        true
    }

    open spec fn div_req(self, rhs: int3) -> bool {
        rhs.0 != 0 && rhs.1 != 0 && rhs.2 != 0
    }

    open spec fn div_spec(self, rhs: int3) -> int3 {
        vstd::std_specs::ops::DivSpec::div_spec(int3::broadcast(self), rhs)
    }
}

/// Lane-wise conjunction of the bits.
impl core::ops::BitAnd for int3 {
    type Output = int3;

    fn bitand(self, rhs: int3) -> (r: int3) {
        int3(self.0 & rhs.0, self.1 & rhs.1, self.2 & rhs.2)
    }
}

impl vstd::std_specs::ops::BitAndSpecImpl for int3 {
    open spec fn obeys_bitand_spec() -> bool {
        true
    }

    open spec fn bitand_req(self, rhs: int3) -> bool {
        true
    }

    open spec fn bitand_spec(self, rhs: int3) -> int3 {
        int3::of(lanes::map2(self@, rhs@, |x: i32, y: i32| x & y))
    }
}

/// The same with `rhs` in every lane of the right operand.
impl core::ops::BitAnd<i32> for int3 {
    type Output = int3;

    fn bitand(self, rhs: i32) -> (r: int3) {
        self.bitand(int3::broadcast(rhs))
    }
}

impl vstd::std_specs::ops::BitAndSpecImpl<i32> for int3 {
    open spec fn obeys_bitand_spec() -> bool {
        true
    }

    open spec fn bitand_req(self, rhs: i32) -> bool {
        true
    }

    open spec fn bitand_spec(self, rhs: i32) -> int3 {
        vstd::std_specs::ops::BitAndSpec::bitand_spec(self, int3::broadcast(rhs))
    }
}

/// The same with `self` in every lane of the left operand.
impl core::ops::BitAnd<int3> for i32 {
    type Output = int3;

    fn bitand(self, rhs: int3) -> (r: int3) {
        int3::broadcast(self).bitand(rhs)
    }
}

impl vstd::std_specs::ops::BitAndSpecImpl<int3> for i32 {
    open spec fn obeys_bitand_spec() -> bool {
        true
    }

    open spec fn bitand_req(self, rhs: int3) -> bool {
        true
    }

    open spec fn bitand_spec(self, rhs: int3) -> int3 {
        vstd::std_specs::ops::BitAndSpec::bitand_spec(int3::broadcast(self), rhs)
    }
}

/// Lane-wise disjunction of the bits.
impl core::ops::BitOr for int3 {
    type Output = int3;

    fn bitor(self, rhs: int3) -> (r: int3) {
        int3(self.0 | rhs.0, self.1 | rhs.1, self.2 | rhs.2)
    }
}

impl vstd::std_specs::ops::BitOrSpecImpl for int3 {
    open spec fn obeys_bitor_spec() -> bool {
        true
    }

    open spec fn bitor_req(self, rhs: int3) -> bool {
        true
    }

    open spec fn bitor_spec(self, rhs: int3) -> int3 {
        int3::of(lanes::map2(self@, rhs@, |x: i32, y: i32| x | y))
    }
}

/// The same with `rhs` in every lane of the right operand.
impl core::ops::BitOr<i32> for int3 {
    type Output = int3;

    fn bitor(self, rhs: i32) -> (r: int3) {
        self.bitor(int3::broadcast(rhs))
    }
}

impl vstd::std_specs::ops::BitOrSpecImpl<i32> for int3 {
    open spec fn obeys_bitor_spec() -> bool {
        true
    }

    open spec fn bitor_req(self, rhs: i32) -> bool {
        true
    }

    open spec fn bitor_spec(self, rhs: i32) -> int3 {
        vstd::std_specs::ops::BitOrSpec::bitor_spec(self, int3::broadcast(rhs))
    }
}

/// The same with `self` in every lane of the left operand.
impl core::ops::BitOr<int3> for i32 {
    type Output = int3;

    fn bitor(self, rhs: int3) -> (r: int3) {
        int3::broadcast(self).bitor(rhs)
    }
}

impl vstd::std_specs::ops::BitOrSpecImpl<int3> for i32 {
    open spec fn obeys_bitor_spec() -> bool {
        true
    }

    open spec fn bitor_req(self, rhs: int3) -> bool {
        true
    }

    open spec fn bitor_spec(self, rhs: int3) -> int3 {
        vstd::std_specs::ops::BitOrSpec::bitor_spec(int3::broadcast(self), rhs)
    }
}

/// Lane-wise exclusive disjunction of the bits.
impl core::ops::BitXor for int3 {
    type Output = int3;

    fn bitxor(self, rhs: int3) -> (r: int3) {
        int3(self.0 ^ rhs.0, self.1 ^ rhs.1, self.2 ^ rhs.2)
    }
}

impl vstd::std_specs::ops::BitXorSpecImpl for int3 {
    open spec fn obeys_bitxor_spec() -> bool {
        true
    }

    open spec fn bitxor_req(self, rhs: int3) -> bool {
        true
    }

    open spec fn bitxor_spec(self, rhs: int3) -> int3 {
        int3::of(lanes::map2(self@, rhs@, |x: i32, y: i32| x ^ y))
    }
}

/// The same with `rhs` in every lane of the right operand.
impl core::ops::BitXor<i32> for int3 {
    type Output = int3;

    fn bitxor(self, rhs: i32) -> (r: int3) {
        self.bitxor(int3::broadcast(rhs))
    }
}

impl vstd::std_specs::ops::BitXorSpecImpl<i32> for int3 {
    open spec fn obeys_bitxor_spec() -> bool {
        true
    }

    open spec fn bitxor_req(self, rhs: i32) -> bool {
        true
    }

    open spec fn bitxor_spec(self, rhs: i32) -> int3 {
        vstd::std_specs::ops::BitXorSpec::bitxor_spec(self, int3::broadcast(rhs))
    }
}

/// The same with `self` in every lane of the left operand.
impl core::ops::BitXor<int3> for i32 {
    type Output = int3;

    fn bitxor(self, rhs: int3) -> (r: int3) {
        int3::broadcast(self).bitxor(rhs)
    }
}

impl vstd::std_specs::ops::BitXorSpecImpl<int3> for i32 {
    open spec fn obeys_bitxor_spec() -> bool {
        true
    }

    open spec fn bitxor_req(self, rhs: int3) -> bool {
        true
    }

    open spec fn bitxor_spec(self, rhs: int3) -> int3 {
        vstd::std_specs::ops::BitXorSpec::bitxor_spec(int3::broadcast(self), rhs)
    }
}

/// Lane-wise shift to the left. Every distance must be less than the width of
/// a lane.
impl core::ops::Shl for int3 {
    type Output = int3;

    fn shl(self, rhs: int3) -> (r: int3) {
        int3(self.0 << rhs.0, self.1 << rhs.1, self.2 << rhs.2)
    }
}

impl vstd::std_specs::ops::ShlSpecImpl for int3 {
    open spec fn obeys_shl_spec() -> bool {
        true
    }

    open spec fn shl_req(self, rhs: int3) -> bool {
        &&& bits32::shift_in_range_signed(rhs.0)
        &&& bits32::shift_in_range_signed(rhs.1)
        &&& bits32::shift_in_range_signed(rhs.2)
    }

    open spec fn shl_spec(self, rhs: int3) -> int3 {
        int3::of(lanes::map2(self@, rhs@, |x: i32, y: i32| bits32::shl_signed(x, y)))
    }
}

/// The same with `rhs` in every lane of the right operand.
impl core::ops::Shl<i32> for int3 {
    type Output = int3;

    fn shl(self, rhs: i32) -> (r: int3) {
        self.shl(int3::broadcast(rhs))
    }
}

impl vstd::std_specs::ops::ShlSpecImpl<i32> for int3 {
    open spec fn obeys_shl_spec() -> bool {
        true
    }

    open spec fn shl_req(self, rhs: i32) -> bool {
        bits32::shift_in_range_signed(rhs)
    }

    open spec fn shl_spec(self, rhs: i32) -> int3 {
        vstd::std_specs::ops::ShlSpec::shl_spec(self, int3::broadcast(rhs))
    }
}

/// The same with `self` in every lane of the left operand.
impl core::ops::Shl<int3> for i32 {
    type Output = int3;

    fn shl(self, rhs: int3) -> (r: int3) {
        int3::broadcast(self).shl(rhs)
    }
}

impl vstd::std_specs::ops::ShlSpecImpl<int3> for i32 {
    open spec fn obeys_shl_spec() -> bool {
        true
    }

    open spec fn shl_req(self, rhs: int3) -> bool {
        &&& bits32::shift_in_range_signed(rhs.0)
        &&& bits32::shift_in_range_signed(rhs.1)
        &&& bits32::shift_in_range_signed(rhs.2)
    }

    open spec fn shl_spec(self, rhs: int3) -> int3 {
        vstd::std_specs::ops::ShlSpec::shl_spec(int3::broadcast(self), rhs)
    }
}

/// Lane-wise shift to the right. Every distance must be less than the width of
/// a lane.
impl core::ops::Shr for int3 {
    type Output = int3;

    fn shr(self, rhs: int3) -> (r: int3) {
        int3(self.0 >> rhs.0, self.1 >> rhs.1, self.2 >> rhs.2)
    }
}

impl vstd::std_specs::ops::ShrSpecImpl for int3 {
    open spec fn obeys_shr_spec() -> bool {
        true
    }

    open spec fn shr_req(self, rhs: int3) -> bool {
        &&& bits32::shift_in_range_signed(rhs.0)
        &&& bits32::shift_in_range_signed(rhs.1)
        &&& bits32::shift_in_range_signed(rhs.2)
    }

    open spec fn shr_spec(self, rhs: int3) -> int3 {
        int3::of(lanes::map2(self@, rhs@, |x: i32, y: i32| bits32::shr_signed(x, y)))
    }
}

/// The same with `rhs` in every lane of the right operand.
impl core::ops::Shr<i32> for int3 {
    type Output = int3;

    fn shr(self, rhs: i32) -> (r: int3) {
        self.shr(int3::broadcast(rhs))
    }
}

impl vstd::std_specs::ops::ShrSpecImpl<i32> for int3 {
    open spec fn obeys_shr_spec() -> bool {
        true
    }

    open spec fn shr_req(self, rhs: i32) -> bool {
        bits32::shift_in_range_signed(rhs)
    }

    open spec fn shr_spec(self, rhs: i32) -> int3 {
        vstd::std_specs::ops::ShrSpec::shr_spec(self, int3::broadcast(rhs))
    }
}

/// The same with `self` in every lane of the left operand.
impl core::ops::Shr<int3> for i32 {
    type Output = int3;

    fn shr(self, rhs: int3) -> (r: int3) {
        int3::broadcast(self).shr(rhs)
    }
}

impl vstd::std_specs::ops::ShrSpecImpl<int3> for i32 {
    open spec fn obeys_shr_spec() -> bool {
        true
    }

    open spec fn shr_req(self, rhs: int3) -> bool {
        &&& bits32::shift_in_range_signed(rhs.0)
        &&& bits32::shift_in_range_signed(rhs.1)
        &&& bits32::shift_in_range_signed(rhs.2)
    }

    open spec fn shr_spec(self, rhs: int3) -> int3 {
        vstd::std_specs::ops::ShrSpec::shr_spec(int3::broadcast(self), rhs)
    }
}

/// Lane-wise inversion of the bits.
impl core::ops::Not for int3 {
    type Output = int3;

    fn not(self) -> (r: int3) {
        int3(!self.0, !self.1, !self.2)
    }
}

impl vstd::std_specs::ops::NotSpecImpl for int3 {
    open spec fn obeys_not_spec() -> bool {
        true
    }

    open spec fn not_req(self) -> bool {
        true
    }

    open spec fn not_spec(self) -> int3 {
        int3::of(lanes::map1(self@, |x: i32| bits32::not_signed(x)))
    }
}

} // verus!
