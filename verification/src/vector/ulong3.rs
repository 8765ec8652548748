//! `ulong3`: three lanes of `u64`.
use crate::bitcast::Bitcast;
use crate::bits64;
use crate::bits8;
use crate::bits16;
use crate::bits32;
use crate::lanes;
use crate::select::Select;
use crate::vector::char3::char3;
use crate::vector::double3::double3;
use crate::vector::float3::float3;
use crate::vector::int3::int3;
use crate::vector::long3::long3;
use crate::vector::short3::short3;
use crate::vector::uchar3::uchar3;
use crate::vector::uint3::uint3;
use crate::vector::ulong2::ulong2;
use crate::vector::ushort3::ushort3;
use core::ops::{Add, BitAnd, BitOr, BitXor, Div, Mul, Not, Shl, Shr, Sub};
use vstd::prelude::*;

verus! {

/// Three lanes of `u64`.
#[allow(non_camel_case_types)]
#[derive(Clone, Copy, Debug, PartialEq, Eq, Structural)]
pub struct ulong3(pub u64, pub u64, pub u64);

impl View for ulong3 {
    type V = Seq<u64>;

    /// The lanes in order, lane 0 first.
    open spec fn view(&self) -> Seq<u64> {
        Seq::new(3, |i: int| self.lane(i))
    }
}

impl ulong3 {
    /// Lane `i` of the vector.
    pub open spec fn lane(self, i: int) -> u64 {
        if i == 0 {
            self.0
        } else if i == 1 {
            self.1
        } else {
            self.2
        }
    }

    /// The vector whose lanes are the first three entries of `s`.
    pub open spec fn of(s: Seq<u64>) -> ulong3 {
        ulong3(s[0], s[1], s[2])
    }

    /// The vector with `x` in every lane.
    pub open spec fn spec_broadcast(x: u64) -> ulong3 {
        ulong3::of(lanes::splat(x, 3))
    }

    /// Fills every lane with `x`.
    #[verifier::when_used_as_spec(spec_broadcast)]
    pub fn broadcast(x: u64) -> (r: ulong3)
        ensures
            r == ulong3::spec_broadcast(x),
    {
        ulong3(x, x, x)
    }

    /// The vector whose lanes have the bit patterns of the lanes of `b`.
    pub open spec fn spec_from_bits(b: ulong3) -> ulong3 {
        b
    }

    /// Reads the lanes of `b` as lanes of this type, bit for bit.
    #[verifier::when_used_as_spec(spec_from_bits)]
    pub fn from_bits(b: ulong3) -> (r: ulong3)
        ensures
            r == ulong3::spec_from_bits(b),
    {
        b
    }

    /// The unsigned vector whose lanes have the bit patterns of the lanes of
    /// `self`.
    pub open spec fn spec_to_bits(self) -> ulong3 {
        self
    }

    /// Reads the lanes as unsigned lanes, bit for bit.
    #[verifier::when_used_as_spec(spec_to_bits)]
    pub fn to_bits(self) -> (r: ulong3)
        ensures
            r == self.spec_to_bits(),
    {
        self
    }

    /// The vector of this type that occupies the bytes that `x` occupies.
    pub open spec fn spec_bitcast<T: Bitcast<Image = [u8; 32]>>(x: T) -> ulong3 {
        ulong3::spec_from_image(x.spec_image())
    }

    /// Reinterprets the bytes of `x` as a vector of this type. `x` may be of
    /// any vector type that occupies 32 bytes; a type of another size is not
    /// accepted. No bit is dropped or made up, but for the bytes of the lane
    /// that a vector of three lanes lacks: they are zero in the image of such
    /// a vector and play no part in reading one.
    #[verifier::when_used_as_spec(spec_bitcast)]
    pub fn bitcast<T: Bitcast<Image = [u8; 32]>>(x: T) -> (r: ulong3)
        ensures
            r == ulong3::spec_bitcast(x),
    {
        ulong3::from_image(x.image())
    }

    /// Lane `i`, for `i` below 3.
    pub open spec fn spec_extract(self, i: u32) -> u64 {
        self@[i as int]
    }

    /// Reads lane `i`.
    #[verifier::when_used_as_spec(spec_extract)]
    pub fn extract(self, i: u32) -> (r: u64)
        requires
            i < 3,
        ensures
            r == self.spec_extract(i),
    {
        if i == 0 {
            self.0
        } else if i == 1 {
            self.1
        } else {
            self.2
        }
    }

    /// The vector with lane `i` replaced by `x`, for `i` below 3.
    pub open spec fn spec_replace(self, i: u32, x: u64) -> ulong3 {
        ulong3::of(self@.update(i as int, x))
    }

    /// Replaces lane `i` by `x` and leaves the other lanes as they are.
    #[verifier::when_used_as_spec(spec_replace)]
    pub fn replace(self, i: u32, x: u64) -> (r: ulong3)
        requires
            i < 3,
        ensures
            r == self.spec_replace(i, x),
    {
        if i == 0 {
            ulong3(x, self.1, self.2)
        } else if i == 1 {
            ulong3(self.0, x, self.2)
        } else {
            ulong3(self.0, self.1, x)
        }
    }

    /// The first half of the lanes.
    pub open spec fn spec_lo(self) -> ulong2 {
        ulong2::of(lanes::lower_half(self@, 0))
    }

    /// The first half of the lanes.
    #[verifier::when_used_as_spec(spec_lo)]
    pub fn lo(self) -> (r: ulong2)
        ensures
            r == self.spec_lo(),
    {
        ulong2(self.0, self.1)
    }

    /// The second half of the lanes.
    /// Lane 3 does not exist: zero stands in its place.
    pub open spec fn spec_hi(self) -> ulong2 {
        ulong2::of(lanes::upper_half(self@, 0))
    }

    /// The second half of the lanes.
    /// Lane 3 does not exist: zero stands in its place.
    #[verifier::when_used_as_spec(spec_hi)]
    pub fn hi(self) -> (r: ulong2)
        ensures
            r == self.spec_hi(),
    {
        ulong2(self.2, 0)
    }

    /// The lanes at even positions.
    pub open spec fn spec_even(self) -> ulong2 {
        ulong2::of(lanes::even_lanes(self@, 0))
    }

    /// The lanes at even positions.
    #[verifier::when_used_as_spec(spec_even)]
    pub fn even(self) -> (r: ulong2)
        ensures
            r == self.spec_even(),
    {
        ulong2(self.0, self.2)
    }

    /// The lanes at odd positions.
    /// Lane 3 does not exist: zero stands in its place.
    pub open spec fn spec_odd(self) -> ulong2 {
        ulong2::of(lanes::odd_lanes(self@, 0))
    }

    /// The lanes at odd positions.
    /// Lane 3 does not exist: zero stands in its place.
    #[verifier::when_used_as_spec(spec_odd)]
    pub fn odd(self) -> (r: ulong2)
        ensures
            r == self.spec_odd(),
    {
        ulong2(self.1, 0)
    }

    /// Whether `f` may give the lanes of `r` for the lanes of `self`.
    pub open spec fn is_map_unary<F: Fn(u64) -> u64>(self, f: F, r: ulong3) -> bool {
        &&& call_ensures(f, (self.0,), r.0)
        &&& call_ensures(f, (self.1,), r.1)
        &&& call_ensures(f, (self.2,), r.2)
    }

    /// Applies `f` to every lane. `f` must accept every lane of the vector.
    pub fn map_unary<F: Fn(u64) -> u64>(self, f: &F) -> (r: ulong3)
        requires
            call_requires(f, (self.0,)),
            call_requires(f, (self.1,)),
            call_requires(f, (self.2,)),
        ensures
            self.is_map_unary(*f, r),
    {
        ulong3(f(self.0), f(self.1), f(self.2))
    }

    /// Whether `f` may give the lanes of `r` for the lanes of `self` and
    /// `other` at equal positions.
    pub open spec fn is_map_binary<F: Fn(u64, u64) -> u64>(
        self,
        other: ulong3,
        f: F,
        r: ulong3,
    ) -> bool {
        &&& call_ensures(f, (self.0, other.0), r.0)
        &&& call_ensures(f, (self.1, other.1), r.1)
        &&& call_ensures(f, (self.2, other.2), r.2)
    }

    /// Applies `f` to the lanes of `self` and `other` at equal positions. `f`
    /// must accept every such pair.
    pub fn map_binary<F: Fn(u64, u64) -> u64>(self, other: ulong3, f: &F) -> (r: ulong3)
        requires
            call_requires(f, (self.0, other.0)),
            call_requires(f, (self.1, other.1)),
            call_requires(f, (self.2, other.2)),
        ensures
            self.is_map_binary(other, *f, r),
    {
        ulong3(f(self.0, other.0), f(self.1, other.1), f(self.2, other.2))
    }

    /// Whether `r` may come of gathering the lanes with `f`, lane 0 first.
    pub open spec fn is_reduce<F: Fn(u64, u64) -> u64>(self, f: F, r: u64) -> bool {
        exists|a1: u64|
            {
                &&& call_ensures(f, (self.1, self.0), a1)
                &&& call_ensures(f, (self.2, a1), r)
            }
    }

    /// Combines the lanes into one value with `f`, lane 0 first: each
    /// further lane is handed to `f` together with what was gathered from the
    /// lanes before it. `f` must accept every pair of values.
    pub fn reduce<F: Fn(u64, u64) -> u64>(self, f: &F) -> (r: u64)
        requires
            forall|x: u64, y: u64| call_requires(f, (x, y)),
        ensures
            self.is_reduce(*f, r),
    {
        let a1 = f(self.1, self.0);
        f(self.2, a1)
    }

    /// Whether `r` may come of reducing the lanes with `f`, from left to right.
    pub open spec fn is_fold<F: Fn(u64, u64) -> u64>(self, f: F, r: u64) -> bool {
        exists|a: u64| #[trigger] self.spec_lo().is_fold(f, a) && call_ensures(f, (a, self.2), r)
    }

    /// Reduces the lanes to one value with `f`, in the order of the
    /// reductions: from left to right. `f` must accept every pair of values.
    pub fn fold<F: Fn(u64, u64) -> u64>(self, f: &F) -> (r: u64)
        requires
            forall|x: u64, y: u64| call_requires(f, (x, y)),
        ensures
            self.is_fold(*f, r),
    {
        let a = self.lo().fold(f);
        f(a, self.2)
    }

    /// The mask with all ones in the lanes where the lanes of `self` and
    /// `other` satisfy `==`, and all zeros in the others.
    pub open spec fn spec_eq(self, other: ulong3) -> long3 {
        long3::of(lanes::map2(self@, other@, |x: u64, y: u64| bits64::mask(x == y)))
    }

    /// Compares lane by lane with `==`. Every lane of the result is all ones
    /// or all zeros.
    #[verifier::when_used_as_spec(spec_eq)]
    pub fn eq(self, other: ulong3) -> (r: long3)
        ensures
            r == self.spec_eq(other),
            r.is_mask(),
    {
        long3(
            bits64::mask_of(self.0 == other.0),
            bits64::mask_of(self.1 == other.1),
            bits64::mask_of(self.2 == other.2),
        )
    }

    /// The mask with all ones in the lanes where the lanes of `self` and
    /// `other` satisfy `!=`, and all zeros in the others.
    pub open spec fn spec_ne(self, other: ulong3) -> long3 {
        long3::of(lanes::map2(self@, other@, |x: u64, y: u64| bits64::mask(x != y)))
    }

    /// Compares lane by lane with `!=`. Every lane of the result is all ones
    /// or all zeros.
    #[verifier::when_used_as_spec(spec_ne)]
    pub fn ne(self, other: ulong3) -> (r: long3)
        ensures
            r == self.spec_ne(other),
            r.is_mask(),
    {
        long3(
            bits64::mask_of(self.0 != other.0),
            bits64::mask_of(self.1 != other.1),
            bits64::mask_of(self.2 != other.2),
        )
    }

    /// The mask with all ones in the lanes where the lanes of `self` and
    /// `other` satisfy `<`, and all zeros in the others.
    pub open spec fn spec_lt(self, other: ulong3) -> long3 {
        long3::of(lanes::map2(self@, other@, |x: u64, y: u64| bits64::mask(x < y)))
    }

    /// Compares lane by lane with `<`. Every lane of the result is all ones
    /// or all zeros.
    #[verifier::when_used_as_spec(spec_lt)]
    pub fn lt(self, other: ulong3) -> (r: long3)
        ensures
            r == self.spec_lt(other),
            r.is_mask(),
    {
        long3(
            bits64::mask_of(self.0 < other.0),
            bits64::mask_of(self.1 < other.1),
            bits64::mask_of(self.2 < other.2),
        )
    }

    /// The mask with all ones in the lanes where the lanes of `self` and
    /// `other` satisfy `<=`, and all zeros in the others.
    pub open spec fn spec_le(self, other: ulong3) -> long3 {
        long3::of(lanes::map2(self@, other@, |x: u64, y: u64| bits64::mask(x <= y)))
    }

    /// Compares lane by lane with `<=`. Every lane of the result is all ones
    /// or all zeros.
    #[verifier::when_used_as_spec(spec_le)]
    pub fn le(self, other: ulong3) -> (r: long3)
        ensures
            r == self.spec_le(other),
            r.is_mask(),
    {
        long3(
            bits64::mask_of(self.0 <= other.0),
            bits64::mask_of(self.1 <= other.1),
            bits64::mask_of(self.2 <= other.2),
        )
    }

    /// The mask with all ones in the lanes where the lanes of `self` and
    /// `other` satisfy `>`, and all zeros in the others.
    pub open spec fn spec_gt(self, other: ulong3) -> long3 {
        long3::of(lanes::map2(self@, other@, |x: u64, y: u64| bits64::mask(x > y)))
    }

    /// Compares lane by lane with `>`. Every lane of the result is all ones
    /// or all zeros.
    #[verifier::when_used_as_spec(spec_gt)]
    pub fn gt(self, other: ulong3) -> (r: long3)
        ensures
            r == self.spec_gt(other),
            r.is_mask(),
    {
        long3(
            bits64::mask_of(self.0 > other.0),
            bits64::mask_of(self.1 > other.1),
            bits64::mask_of(self.2 > other.2),
        )
    }

    /// The mask with all ones in the lanes where the lanes of `self` and
    /// `other` satisfy `>=`, and all zeros in the others.
    pub open spec fn spec_ge(self, other: ulong3) -> long3 {
        long3::of(lanes::map2(self@, other@, |x: u64, y: u64| bits64::mask(x >= y)))
    }

    /// Compares lane by lane with `>=`. Every lane of the result is all ones
    /// or all zeros.
    #[verifier::when_used_as_spec(spec_ge)]
    pub fn ge(self, other: ulong3) -> (r: long3)
        ensures
            r == self.spec_ge(other),
            r.is_mask(),
    {
        long3(
            bits64::mask_of(self.0 >= other.0),
            bits64::mask_of(self.1 >= other.1),
            bits64::mask_of(self.2 >= other.2),
        )
    }

    /// The bits of `x` where the bit of `mask` is not set, and the bits of `y`
    /// where it is.
    pub open spec fn spec_bitselect(x: ulong3, y: ulong3, mask: long3) -> ulong3 {
        mask.spec_bitselect(x, y)
    }

    /// Selects between `x` and `y` bit by bit: where a lane of `mask` is all
    /// ones the lane of `y` is taken, where it is all zeros the lane of `x`.
    #[verifier::when_used_as_spec(spec_bitselect)]
    pub fn bitselect(x: ulong3, y: ulong3, mask: long3) -> (r: ulong3)
        ensures
            r == ulong3::spec_bitselect(x, y, mask),
            forall|i: int|
                0 <= i < 3 && mask@[i] == bits64::ALL_ONES ==> #[trigger] r@[i] == y@[i],
            forall|i: int|
                0 <= i < 3 && mask@[i] == bits64::ALL_ZEROS ==> #[trigger] r@[i] == x@[i],
    {
        mask.bitselect(x, y)
    }

    /// The greater of the two lanes at every position.
    pub open spec fn spec_max(self, other: ulong3) -> ulong3 {
        ulong3::of(lanes::map2(self@, other@, |x: u64, y: u64| if y > x { y } else { x }))
    }

    /// Takes the greater lane at every position: the lanes of `other` are
    /// selected where they are greater than those of `self`.
    #[verifier::when_used_as_spec(spec_max)]
    pub fn max(self, other: ulong3) -> (r: ulong3)
        ensures
            r == self.spec_max(other),
    {
        let greater = other.gt(self);
        proof {
            bits64::lemma_select_unsigned(greater.0, self.0, other.0);
            bits64::lemma_select_unsigned(greater.1, self.1, other.1);
            bits64::lemma_select_unsigned(greater.2, self.2, other.2);
        }
        greater.bitselect(self, other)
    }

    /// The lesser of the two lanes at every position.
    pub open spec fn spec_min(self, other: ulong3) -> ulong3 {
        ulong3::of(lanes::map2(self@, other@, |x: u64, y: u64| if y < x { y } else { x }))
    }

    /// Takes the lesser lane at every position: the lanes of `other` are
    /// selected where they are less than those of `self`.
    #[verifier::when_used_as_spec(spec_min)]
    pub fn min(self, other: ulong3) -> (r: ulong3)
        ensures
            r == self.spec_min(other),
    {
        let less = other.lt(self);
        proof {
            bits64::lemma_select_unsigned(less.0, self.0, other.0);
            bits64::lemma_select_unsigned(less.1, self.1, other.1);
            bits64::lemma_select_unsigned(less.2, self.2, other.2);
        }
        less.bitselect(self, other)
    }

    /// Every lane raised to at least the lane of `min`, then lowered to at most
    /// the lane of `max`.
    pub open spec fn spec_clamp(self, min: ulong3, max: ulong3) -> ulong3 {
        self.spec_max(min).spec_min(max)
    }

    /// Restricts every lane to the range that the lanes of `min` and `max`
    /// give. Where a lane of `min` is greater than that of `max`, the lane of
    /// `max` is the result.
    #[verifier::when_used_as_spec(spec_clamp)]
    pub fn clamp(self, min: ulong3, max: ulong3) -> (r: ulong3)
        ensures
            r == self.spec_clamp(min, max),
    {
        self.max(min).min(max)
    }

    /// The vector itself: no lane is negative.
    pub open spec fn spec_abs(self) -> ulong3 {
        self
    }

    /// The absolute value of every lane, which is the lane itself.
    #[verifier::when_used_as_spec(spec_abs)]
    pub fn abs(self) -> (r: ulong3)
        ensures
            r == self.spec_abs(),
    {
        self
    }

    /// The sum of the lanes, wrapping on overflow.
    pub open spec fn spec_reduce_add(self) -> u64 {
        lanes::fold(self@, |x: u64, y: u64| x.wrapping_add(y))
    }

    /// Reduces the lanes to the sum of the lanes, wrapping on overflow, from
    /// left to right.
    #[verifier::when_used_as_spec(spec_reduce_add)]
    pub fn reduce_add(self) -> (r: u64)
        ensures
            r == self.spec_reduce_add(),
    {
        proof {
            reveal_with_fuel(lanes::fold, 4);
        }
        self.0.wrapping_add(self.1).wrapping_add(self.2)
    }

    /// The least lane.
    pub open spec fn spec_reduce_min(self) -> u64 {
        lanes::fold(self@, |x: u64, y: u64| if y < x { y } else { x })
    }

    /// Reduces the lanes to the least lane, from left to right.
    #[verifier::when_used_as_spec(spec_reduce_min)]
    pub fn reduce_min(self) -> (r: u64)
        ensures
            r == self.spec_reduce_min(),
    {
        proof {
            reveal_with_fuel(lanes::fold, 4);
        }
        let first = self.lo().reduce_min();
        if self.2 < first { self.2 } else { first }
    }

    /// The greatest lane.
    pub open spec fn spec_reduce_max(self) -> u64 {
        lanes::fold(self@, |x: u64, y: u64| if y > x { y } else { x })
    }

    /// Reduces the lanes to the greatest lane, from left to right.
    #[verifier::when_used_as_spec(spec_reduce_max)]
    pub fn reduce_max(self) -> (r: u64)
        ensures
            r == self.spec_reduce_max(),
    {
        proof {
            reveal_with_fuel(lanes::fold, 4);
        }
        let first = self.lo().reduce_max();
        if self.2 > first { self.2 } else { first }
    }

    /// The conjunction of the bits of all lanes.
    pub open spec fn spec_reduce_and(self) -> u64 {
        lanes::fold(self@, |x: u64, y: u64| x & y)
    }

    /// Reduces the lanes to the conjunction of the bits of all lanes, from
    /// left to right.
    #[verifier::when_used_as_spec(spec_reduce_and)]
    pub fn reduce_and(self) -> (r: u64)
        ensures
            r == self.spec_reduce_and(),
    {
        proof {
            reveal_with_fuel(lanes::fold, 4);
        }
        (self.0 & self.1) & self.2
    }

    /// The disjunction of the bits of all lanes.
    pub open spec fn spec_reduce_or(self) -> u64 {
        lanes::fold(self@, |x: u64, y: u64| x | y)
    }

    /// Reduces the lanes to the disjunction of the bits of all lanes, from
    /// left to right.
    #[verifier::when_used_as_spec(spec_reduce_or)]
    pub fn reduce_or(self) -> (r: u64)
        ensures
            r == self.spec_reduce_or(),
    {
        proof {
            reveal_with_fuel(lanes::fold, 4);
        }
        (self.0 | self.1) | self.2
    }

    /// The exclusive disjunction of the bits of all lanes.
    pub open spec fn spec_reduce_xor(self) -> u64 {
        lanes::fold(self@, |x: u64, y: u64| x ^ y)
    }

    /// Reduces the lanes to the exclusive disjunction of the bits of all
    /// lanes, from left to right.
    #[verifier::when_used_as_spec(spec_reduce_xor)]
    pub fn reduce_xor(self) -> (r: u64)
        ensures
            r == self.spec_reduce_xor(),
    {
        proof {
            reveal_with_fuel(lanes::fold, 4);
        }
        (self.0 ^ self.1) ^ self.2
    }

    /// Whether the sign bit of every lane is set.
    pub open spec fn spec_all(self) -> bool {
        forall|i: int| 0 <= i < 3 ==> bits64::sign_set_unsigned(#[trigger] self@[i])
    }

    /// Whether the sign bit of every lane is set: the sign bit of the
    /// conjunction of all lanes is tested. On a mask this tells whether every
    /// lane is true.
    #[verifier::when_used_as_spec(spec_all)]
    pub fn all(self) -> (r: bool)
        ensures
            r == self.spec_all(),
    {
        let bits = self.reduce_and();
        proof {
            reveal_with_fuel(lanes::fold, 4);
            bits64::lemma_sign_bits_unsigned(self.0, self.1);
            bits64::lemma_sign_bits_unsigned(self.0 & self.1, self.2);
            bits64::lemma_sign_bits_unsigned(bits, bits);
        }
        bits & bits64::SIGN_BIT != 0
    }

    /// Whether the sign bit of some lane is set.
    pub open spec fn spec_any(self) -> bool {
        exists|i: int| 0 <= i < 3 && bits64::sign_set_unsigned(#[trigger] self@[i])
    }

    /// Whether the sign bit of some lane is set: the sign bit of the
    /// disjunction of all lanes is tested. On a mask this tells whether some
    /// lane is true.
    #[verifier::when_used_as_spec(spec_any)]
    pub fn any(self) -> (r: bool)
        ensures
            r == self.spec_any(),
    {
        let bits = self.reduce_or();
        proof {
            reveal_with_fuel(lanes::fold, 4);
            bits64::lemma_sign_bits_unsigned(self.0, self.1);
            bits64::lemma_sign_bits_unsigned(self.0 | self.1, self.2);
            bits64::lemma_sign_bits_unsigned(bits, bits);
        }
        bits & bits64::SIGN_BIT != 0
    }

    /// The sum of the products of the lanes at equal positions, every product
    /// and every sum wrapped into the lane.
    pub open spec fn spec_dot(self, other: ulong3) -> u64 {
        lanes::fold(
            lanes::map2(self@, other@, |x: u64, y: u64| x.wrapping_mul(y)),
            |x: u64, y: u64| x.wrapping_add(y),
        )
    }

    /// The dot product: the lanes are multiplied pairwise and the products
    /// are added up as `reduce_add` does.
    #[verifier::when_used_as_spec(spec_dot)]
    pub fn dot(self, other: ulong3) -> (r: u64)
        ensures
            r == self.spec_dot(other),
    {
        proof {
            reveal_with_fuel(lanes::fold, 4);
        }
        self.mul(other).reduce_add()
    }

    /// Every lane cut down to its low 8 bits, read as `i8`.
    pub open spec fn spec_to_char(self) -> char3 {
        char3::of(lanes::map1(self@, |x: u64| x as i8))
    }

    /// Converts every lane to `i8` as a cast does: the high bits are dropped
    /// and a value that does not fit wraps around.
    #[verifier::when_used_as_spec(spec_to_char)]
    pub fn to_char(self) -> (r: char3)
        ensures
            r == self.spec_to_char(),
    {
        char3(
            #[verifier::truncate] (self.0 as i8),
            #[verifier::truncate] (self.1 as i8),
            #[verifier::truncate] (self.2 as i8),
        )
    }

    /// Every lane as the `i8` nearest to its value.
    pub open spec fn spec_to_char_sat(self) -> char3 {
        char3::of(lanes::map1(self@, |x: u64| bits8::saturate_signed(x as int)))
    }

    /// Converts every lane to `i8`, saturating at the bounds of `i8`.
    /// The lanes are lowered to the greatest value of `i8` and then converted.
    #[verifier::when_used_as_spec(spec_to_char_sat)]
    pub fn to_char_sat(self) -> (r: char3)
        ensures
            r == self.spec_to_char_sat(),
    {
        self.min(ulong3::broadcast(i8::MAX as u64)).to_char()
    }

    /// Every lane cut down to its low 8 bits, read as `u8`.
    pub open spec fn spec_to_uchar(self) -> uchar3 {
        uchar3::of(lanes::map1(self@, |x: u64| x as u8))
    }

    /// Converts every lane to `u8` as a cast does: the high bits are dropped
    /// and a value that does not fit wraps around.
    #[verifier::when_used_as_spec(spec_to_uchar)]
    pub fn to_uchar(self) -> (r: uchar3)
        ensures
            r == self.spec_to_uchar(),
    {
        uchar3(
            #[verifier::truncate] (self.0 as u8),
            #[verifier::truncate] (self.1 as u8),
            #[verifier::truncate] (self.2 as u8),
        )
    }

    /// Every lane as the `u8` nearest to its value.
    pub open spec fn spec_to_uchar_sat(self) -> uchar3 {
        uchar3::of(lanes::map1(self@, |x: u64| bits8::saturate_unsigned(x as int)))
    }

    /// Converts every lane to `u8`, saturating at the bounds of `u8`.
    /// The lanes are lowered to the greatest value of `u8` and then converted.
    #[verifier::when_used_as_spec(spec_to_uchar_sat)]
    pub fn to_uchar_sat(self) -> (r: uchar3)
        ensures
            r == self.spec_to_uchar_sat(),
    {
        self.min(ulong3::broadcast(u8::MAX as u64)).to_uchar()
    }

    /// Every lane cut down to its low 16 bits, read as `i16`.
    pub open spec fn spec_to_short(self) -> short3 {
        short3::of(lanes::map1(self@, |x: u64| x as i16))
    }

    /// Converts every lane to `i16` as a cast does: the high bits are dropped
    /// and a value that does not fit wraps around.
    #[verifier::when_used_as_spec(spec_to_short)]
    pub fn to_short(self) -> (r: short3)
        ensures
            r == self.spec_to_short(),
    {
        short3(
            #[verifier::truncate] (self.0 as i16),
            #[verifier::truncate] (self.1 as i16),
            #[verifier::truncate] (self.2 as i16),
        )
    }

    /// Every lane as the `i16` nearest to its value.
    pub open spec fn spec_to_short_sat(self) -> short3 {
        short3::of(lanes::map1(self@, |x: u64| bits16::saturate_signed(x as int)))
    }

    /// Converts every lane to `i16`, saturating at the bounds of `i16`.
    /// The lanes are lowered to the greatest value of `i16` and then converted.
    #[verifier::when_used_as_spec(spec_to_short_sat)]
    pub fn to_short_sat(self) -> (r: short3)
        ensures
            r == self.spec_to_short_sat(),
    {
        self.min(ulong3::broadcast(i16::MAX as u64)).to_short()
    }

    /// Every lane cut down to its low 16 bits, read as `u16`.
    pub open spec fn spec_to_ushort(self) -> ushort3 {
        ushort3::of(lanes::map1(self@, |x: u64| x as u16))
    }

    /// Converts every lane to `u16` as a cast does: the high bits are dropped
    /// and a value that does not fit wraps around.
    #[verifier::when_used_as_spec(spec_to_ushort)]
    pub fn to_ushort(self) -> (r: ushort3)
        ensures
            r == self.spec_to_ushort(),
    {
        ushort3(
            #[verifier::truncate] (self.0 as u16),
            #[verifier::truncate] (self.1 as u16),
            #[verifier::truncate] (self.2 as u16),
        )
    }

    /// Every lane as the `u16` nearest to its value.
    pub open spec fn spec_to_ushort_sat(self) -> ushort3 {
        ushort3::of(lanes::map1(self@, |x: u64| bits16::saturate_unsigned(x as int)))
    }

    /// Converts every lane to `u16`, saturating at the bounds of `u16`.
    /// The lanes are lowered to the greatest value of `u16` and then converted.
    #[verifier::when_used_as_spec(spec_to_ushort_sat)]
    pub fn to_ushort_sat(self) -> (r: ushort3)
        ensures
            r == self.spec_to_ushort_sat(),
    {
        self.min(ulong3::broadcast(u16::MAX as u64)).to_ushort()
    }

    /// Every lane cut down to its low 32 bits, read as `i32`.
    pub open spec fn spec_to_int(self) -> int3 {
        int3::of(lanes::map1(self@, |x: u64| x as i32))
    }

    /// Converts every lane to `i32` as a cast does: the high bits are dropped
    /// and a value that does not fit wraps around.
    #[verifier::when_used_as_spec(spec_to_int)]
    pub fn to_int(self) -> (r: int3)
        ensures
            r == self.spec_to_int(),
    {
        int3(
            #[verifier::truncate] (self.0 as i32),
            #[verifier::truncate] (self.1 as i32),
            #[verifier::truncate] (self.2 as i32),
        )
    }

    /// Every lane as the `i32` nearest to its value.
    pub open spec fn spec_to_int_sat(self) -> int3 {
        int3::of(lanes::map1(self@, |x: u64| bits32::saturate_signed(x as int)))
    }

    /// Converts every lane to `i32`, saturating at the bounds of `i32`.
    /// The lanes are lowered to the greatest value of `i32` and then converted.
    #[verifier::when_used_as_spec(spec_to_int_sat)]
    pub fn to_int_sat(self) -> (r: int3)
        ensures
            r == self.spec_to_int_sat(),
    {
        self.min(ulong3::broadcast(i32::MAX as u64)).to_int()
    }

    /// Every lane cut down to its low 32 bits, read as `u32`.
    pub open spec fn spec_to_uint(self) -> uint3 {
        uint3::of(lanes::map1(self@, |x: u64| x as u32))
    }

    /// Converts every lane to `u32` as a cast does: the high bits are dropped
    /// and a value that does not fit wraps around.
    #[verifier::when_used_as_spec(spec_to_uint)]
    pub fn to_uint(self) -> (r: uint3)
        ensures
            r == self.spec_to_uint(),
    {
        uint3(
            #[verifier::truncate] (self.0 as u32),
            #[verifier::truncate] (self.1 as u32),
            #[verifier::truncate] (self.2 as u32),
        )
    }

    /// Every lane as the `u32` nearest to its value.
    pub open spec fn spec_to_uint_sat(self) -> uint3 {
        uint3::of(lanes::map1(self@, |x: u64| bits32::saturate_unsigned(x as int)))
    }

    /// Converts every lane to `u32`, saturating at the bounds of `u32`.
    /// The lanes are lowered to the greatest value of `u32` and then converted.
    #[verifier::when_used_as_spec(spec_to_uint_sat)]
    pub fn to_uint_sat(self) -> (r: uint3)
        ensures
            r == self.spec_to_uint_sat(),
    {
        self.min(ulong3::broadcast(u32::MAX as u64)).to_uint()
    }

    /// Every lane as the `i64` with the same bits.
    pub open spec fn spec_to_long(self) -> long3 {
        long3::of(lanes::map1(self@, |x: u64| x as i64))
    }

    /// Converts every lane to `i64` as a cast does: a value that does not fit
    /// wraps around.
    #[verifier::when_used_as_spec(spec_to_long)]
    pub fn to_long(self) -> (r: long3)
        ensures
            r == self.spec_to_long(),
    {
        long3(
            #[verifier::truncate] (self.0 as i64),
            #[verifier::truncate] (self.1 as i64),
            #[verifier::truncate] (self.2 as i64),
        )
    }

    /// Every lane as the `i64` nearest to its value.
    pub open spec fn spec_to_long_sat(self) -> long3 {
        long3::of(lanes::map1(self@, |x: u64| bits64::saturate_signed(x as int)))
    }

    /// Converts every lane to `i64`, saturating at the bounds of `i64`.
    /// The lanes are lowered to the greatest value of `i64` and then converted.
    #[verifier::when_used_as_spec(spec_to_long_sat)]
    pub fn to_long_sat(self) -> (r: long3)
        ensures
            r == self.spec_to_long_sat(),
    {
        self.min(ulong3::broadcast(i64::MAX as u64)).to_long()
    }

    /// The vector itself.
    pub open spec fn spec_to_ulong(self) -> ulong3 {
        self
    }

    /// The vector itself.
    #[verifier::when_used_as_spec(spec_to_ulong)]
    pub fn to_ulong(self) -> (r: ulong3)
        ensures
            r == self.spec_to_ulong(),
    {
        self
    }

    /// Every lane as the `u64` nearest to its value.
    pub open spec fn spec_to_ulong_sat(self) -> ulong3 {
        self
    }

    /// Converts every lane to `u64`, saturating at the bounds of `u64`.
    /// Nothing is to be done.
    #[verifier::when_used_as_spec(spec_to_ulong_sat)]
    pub fn to_ulong_sat(self) -> (r: ulong3)
        ensures
            r == self.spec_to_ulong_sat(),
    {
        self
    }

    /// Whether `r` may hold the lanes of `self` as single precision numbers,
    /// where `cast` converts one lane and gives the bit pattern of the number.
    pub open spec fn is_to_float<C: Fn(u64) -> u32>(self, cast: C, r: float3) -> bool {
        &&& call_ensures(cast, (self.0,), r.0)
        &&& call_ensures(cast, (self.1,), r.1)
        &&& call_ensures(cast, (self.2,), r.2)
    }

    /// Converts every lane to a single precision number by `cast`.
    pub fn to_float<C: Fn(u64) -> u32>(self, cast: &C) -> (r: float3)
        requires
            forall|x: u64| call_requires(cast, (x,)),
        ensures
            self.is_to_float(*cast, r),
    {
        float3(cast(self.0), cast(self.1), cast(self.2))
    }

    /// Whether `r` may hold the lanes of `self` as double precision numbers,
    /// where `cast` converts one lane and gives the bit pattern of the number.
    pub open spec fn is_to_double<C: Fn(u64) -> u64>(self, cast: C, r: double3) -> bool {
        &&& call_ensures(cast, (self.0,), r.0)
        &&& call_ensures(cast, (self.1,), r.1)
        &&& call_ensures(cast, (self.2,), r.2)
    }

    /// Converts every lane to a double precision number by `cast`.
    pub fn to_double<C: Fn(u64) -> u64>(self, cast: &C) -> (r: double3)
        requires
            forall|x: u64| call_requires(cast, (x,)),
        ensures
            self.is_to_double(*cast, r),
    {
        double3(cast(self.0), cast(self.1), cast(self.2))
    }

    /// A comparison of a vector with itself for equality is true in every
    /// lane, and one for inequality is true in none.
    pub proof fn lemma_eq_reflexive(x: ulong3)
        ensures
            x.eq(x).all(),
            !x.ne(x).any(),
    {
    }

    /// The dot product does not depend on the order of its operands.
    pub proof fn lemma_dot_commutative(a: ulong3, b: ulong3)
        ensures
            a.dot(b) == b.dot(a),
    {
        assert(lanes::map2(a@, b@, |x: u64, y: u64| x.wrapping_mul(y)) =~= lanes::map2(
            b@,
            a@,
            |x: u64, y: u64| x.wrapping_mul(y),
        ));
    }

    /// Reinterpreting the unsigned vector of the same shape reads its lanes
    /// bit for bit.
    pub proof fn lemma_bitcast_keeps_lanes(b: ulong3)
        ensures
            ulong3::bitcast(b) == ulong3::from_bits(b),
    {
        bits64::lemma_bytes_round_trip(b.0, 0, 0, 0, 0, 0, 0, 0, 0);
        bits64::lemma_bytes_round_trip(b.1, 0, 0, 0, 0, 0, 0, 0, 0);
        bits64::lemma_bytes_round_trip(b.2, 0, 0, 0, 0, 0, 0, 0, 0);
    }

    /// Reinterpreting a vector as its own type changes nothing.
    pub proof fn lemma_bitcast_identity(x: ulong3)
        ensures
            ulong3::bitcast(x) == x,
    {
        bits64::lemma_bytes_round_trip(x.to_bits().0, 0, 0, 0, 0, 0, 0, 0, 0);
        bits64::lemma_bytes_round_trip(x.to_bits().1, 0, 0, 0, 0, 0, 0, 0, 0);
        bits64::lemma_bytes_round_trip(x.to_bits().2, 0, 0, 0, 0, 0, 0, 0, 0);
    }

    /// The result of `reduce_add` is the sum of the lanes, wrapped into the
    /// lane: the order in which the lanes are added plays no part.
    pub proof fn lemma_reduce_add_is_sum(x: ulong3)
        ensures
            x.reduce_add() == bits64::wrap_unsigned(x.0 + x.1 + x.2),
    {
        reveal_with_fuel(lanes::fold, 4);
        bits64::lemma_wrap_in_range_unsigned(x.0);
        bits64::lemma_wrap_in_range_unsigned(x.1);
        bits64::lemma_wrap_in_range_unsigned(x.2);
        bits64::lemma_wrapping_sum_unsigned(x.0, x.1, x.0 as int, x.1 as int);
        bits64::lemma_wrapping_sum_unsigned(
            x.0.wrapping_add(x.1),
            x.2,
            x.0 as int + x.1 as int,
            x.2 as int,
        );
    }

    /// The dot product is the sum of the products of the lanes, wrapped into
    /// the lane.
    pub proof fn lemma_dot_is_sum_of_products(a: ulong3, b: ulong3)
        ensures
            a.dot(b) == bits64::wrap_unsigned(a.0 * b.0 + a.1 * b.1 + a.2 * b.2),
    {
        reveal_with_fuel(lanes::fold, 4);
        bits64::lemma_wrapping_product_unsigned(a.0, b.0);
        bits64::lemma_wrapping_product_unsigned(a.1, b.1);
        bits64::lemma_wrapping_product_unsigned(a.2, b.2);
        bits64::lemma_wrapping_sum_unsigned(
            a.0.wrapping_mul(b.0),
            a.1.wrapping_mul(b.1),
            a.0 * b.0,
            a.1 * b.1,
        );
        bits64::lemma_wrapping_sum_unsigned(
            a.0.wrapping_mul(b.0).wrapping_add(a.1.wrapping_mul(b.1)),
            a.2.wrapping_mul(b.2),
            a.0 * b.0 + a.1 * b.1,
            a.2 * b.2,
        );
    }

    /// The result of `reduce_min` is a lane, and no lane is less than it.
    pub proof fn lemma_reduce_min_is_least(x: ulong3)
        ensures
            forall|i: int| 0 <= i < 3 ==> x.reduce_min() <= #[trigger] x@[i],
            exists|i: int| 0 <= i < 3 && x.reduce_min() == #[trigger] x@[i],
    {
        reveal_with_fuel(lanes::fold, 4);
        assert(x@[0] == x.0 && x@[1] == x.1 && x@[2] == x.2);
    }

    /// The result of `reduce_max` is a lane, and no lane is greater than it.
    pub proof fn lemma_reduce_max_is_greatest(x: ulong3)
        ensures
            forall|i: int| 0 <= i < 3 ==> x.reduce_max() >= #[trigger] x@[i],
            exists|i: int| 0 <= i < 3 && x.reduce_max() == #[trigger] x@[i],
    {
        reveal_with_fuel(lanes::fold, 4);
        assert(x@[0] == x.0 && x@[1] == x.1 && x@[2] == x.2);
    }

}

/// `v[i]` is lane `i`, for `i` below 3.
impl core::ops::Index<u32> for ulong3 {
    type Output = u64;

    fn index(&self, index: u32) -> (r: &u64)
        ensures
            *r == self@[index as int],
    {
        if index == 0 {
            &self.0
        } else if index == 1 {
            &self.1
        } else {
            &self.2
        }
    }
}

impl vstd::std_specs::core::IndexSpecImpl<u32> for ulong3 {
    open spec fn index_req(&self, index: &u32) -> bool {
        *index < 3
    }
}

/// The bytes of the vector: the lanes in order, each with its least significant
/// byte first, followed by 8 zero bytes for the lane that is not there.
impl Bitcast for ulong3 {
    type Image = [u8; 32];

    open spec fn spec_image(self) -> Seq<u8> {
        bits64::image(lanes::padded(self.spec_to_bits()@, 0))
    }

    open spec fn spec_from_image(image: Seq<u8>) -> ulong3 {
        ulong3::spec_from_bits(ulong3::of(bits64::lanes_of_image(image)))
    }

    fn image(self) -> (r: [u8; 32]) {
        let b = self.to_bits();
        let l0 = bits64::bytes(b.0);
        let l1 = bits64::bytes(b.1);
        let l2 = bits64::bytes(b.2);
        let r = [
            l0[0], l0[1], l0[2], l0[3], l0[4], l0[5], l0[6], l0[7],
            l1[0], l1[1], l1[2], l1[3], l1[4], l1[5], l1[6], l1[7],
            l2[0], l2[1], l2[2], l2[3], l2[4], l2[5], l2[6], l2[7],
            0, 0, 0, 0, 0, 0, 0, 0,
        ];
        proof {
            let s = lanes::padded(self.spec_to_bits()@, 0);
            assert(s.len() == 4);
            assert forall|j: int| 0 <= j < 32 implies r@[j] == bits64::byte(s[j / 8], j % 8) by {
                assert(s[0] == b.0);
                assert(s[1] == b.1);
                assert(s[2] == b.2);
                assert(s[3] == 0);
                bits64::lemma_bytes_round_trip(0, 0, 0, 0, 0, 0, 0, 0, 0);
            }
        }
        r
    }

    fn from_image(image: [u8; 32]) -> (r: ulong3) {
        ulong3::from_bits(
            ulong3(
                bits64::join(
                    image[0],
                    image[1],
                    image[2],
                    image[3],
                    image[4],
                    image[5],
                    image[6],
                    image[7],
                ),
                bits64::join(
                    image[8],
                    image[9],
                    image[10],
                    image[11],
                    image[12],
                    image[13],
                    image[14],
                    image[15],
                ),
                bits64::join(
                    image[16],
                    image[17],
                    image[18],
                    image[19],
                    image[20],
                    image[21],
                    image[22],
                    image[23],
                ),
            ),
        )
    }
}

/// Lane-wise sum, wrapping on overflow.
impl core::ops::Add for ulong3 {
    type Output = ulong3;

    fn add(self, rhs: ulong3) -> (r: ulong3) {
        ulong3(
            self.0.wrapping_add(rhs.0),
            self.1.wrapping_add(rhs.1),
            self.2.wrapping_add(rhs.2),
        )
    }
}

impl vstd::std_specs::ops::AddSpecImpl for ulong3 {
    open spec fn obeys_add_spec() -> bool {
        true
    }

    open spec fn add_req(self, rhs: ulong3) -> bool {
        true
    }

    open spec fn add_spec(self, rhs: ulong3) -> ulong3 {
        ulong3::of(lanes::map2(self@, rhs@, |x: u64, y: u64| x.wrapping_add(y)))
    }
}

/// The same with `rhs` in every lane of the right operand.
impl core::ops::Add<u64> for ulong3 {
    type Output = ulong3;

    fn add(self, rhs: u64) -> (r: ulong3) {
        self.add(ulong3::broadcast(rhs))
    }
}

impl vstd::std_specs::ops::AddSpecImpl<u64> for ulong3 {
    open spec fn obeys_add_spec() -> bool {
        true
    }

    open spec fn add_req(self, rhs: u64) -> bool {
        true
    }

    open spec fn add_spec(self, rhs: u64) -> ulong3 {
        vstd::std_specs::ops::AddSpec::add_spec(self, ulong3::broadcast(rhs))
    }
}

/// The same with `self` in every lane of the left operand.
impl core::ops::Add<ulong3> for u64 {
    type Output = ulong3;

    fn add(self, rhs: ulong3) -> (r: ulong3) {
        ulong3::broadcast(self).add(rhs)
    }
}

impl vstd::std_specs::ops::AddSpecImpl<ulong3> for u64 {
    open spec fn obeys_add_spec() -> bool {
        true
    }

    open spec fn add_req(self, rhs: ulong3) -> bool {
        true
    }

    open spec fn add_spec(self, rhs: ulong3) -> ulong3 {
        vstd::std_specs::ops::AddSpec::add_spec(ulong3::broadcast(self), rhs)
    }
}

/// Lane-wise difference, wrapping on overflow.
impl core::ops::Sub for ulong3 {
    type Output = ulong3;

    fn sub(self, rhs: ulong3) -> (r: ulong3) {
        ulong3(
            self.0.wrapping_sub(rhs.0),
            self.1.wrapping_sub(rhs.1),
            self.2.wrapping_sub(rhs.2),
        )
    }
}

impl vstd::std_specs::ops::SubSpecImpl for ulong3 {
    open spec fn obeys_sub_spec() -> bool {
        true
    }

    open spec fn sub_req(self, rhs: ulong3) -> bool {
        true
    }

    open spec fn sub_spec(self, rhs: ulong3) -> ulong3 {
        ulong3::of(lanes::map2(self@, rhs@, |x: u64, y: u64| x.wrapping_sub(y)))
    }
}

/// The same with `rhs` in every lane of the right operand.
impl core::ops::Sub<u64> for ulong3 {
    type Output = ulong3;

    fn sub(self, rhs: u64) -> (r: ulong3) {
        self.sub(ulong3::broadcast(rhs))
    }
}

impl vstd::std_specs::ops::SubSpecImpl<u64> for ulong3 {
    open spec fn obeys_sub_spec() -> bool {
        true
    }

    open spec fn sub_req(self, rhs: u64) -> bool {
        true
    }

    open spec fn sub_spec(self, rhs: u64) -> ulong3 {
        vstd::std_specs::ops::SubSpec::sub_spec(self, ulong3::broadcast(rhs))
    }
}

/// The same with `self` in every lane of the left operand.
impl core::ops::Sub<ulong3> for u64 {
    type Output = ulong3;

    fn sub(self, rhs: ulong3) -> (r: ulong3) {
        ulong3::broadcast(self).sub(rhs)
    }
}

impl vstd::std_specs::ops::SubSpecImpl<ulong3> for u64 {
    open spec fn obeys_sub_spec() -> bool {
        true
    }

    open spec fn sub_req(self, rhs: ulong3) -> bool {
        true
    }

    open spec fn sub_spec(self, rhs: ulong3) -> ulong3 {
        vstd::std_specs::ops::SubSpec::sub_spec(ulong3::broadcast(self), rhs)
    }
}

/// Lane-wise product, wrapping on overflow.
impl core::ops::Mul for ulong3 {
    type Output = ulong3;

    fn mul(self, rhs: ulong3) -> (r: ulong3) {
        ulong3(
            self.0.wrapping_mul(rhs.0),
            self.1.wrapping_mul(rhs.1),
            self.2.wrapping_mul(rhs.2),
        )
    }
}

impl vstd::std_specs::ops::MulSpecImpl for ulong3 {
    open spec fn obeys_mul_spec() -> bool {
        true
    }

    open spec fn mul_req(self, rhs: ulong3) -> bool {
        true
    }

    open spec fn mul_spec(self, rhs: ulong3) -> ulong3 {
        ulong3::of(lanes::map2(self@, rhs@, |x: u64, y: u64| x.wrapping_mul(y)))
    }
}

/// The same with `rhs` in every lane of the right operand.
impl core::ops::Mul<u64> for ulong3 {
    type Output = ulong3;

    fn mul(self, rhs: u64) -> (r: ulong3) {
        self.mul(ulong3::broadcast(rhs))
    }
}

impl vstd::std_specs::ops::MulSpecImpl<u64> for ulong3 {
    open spec fn obeys_mul_spec() -> bool {
        true
    }

    open spec fn mul_req(self, rhs: u64) -> bool {
        true
    }

    open spec fn mul_spec(self, rhs: u64) -> ulong3 {
        vstd::std_specs::ops::MulSpec::mul_spec(self, ulong3::broadcast(rhs))
    }
}

/// The same with `self` in every lane of the left operand.
impl core::ops::Mul<ulong3> for u64 {
    type Output = ulong3;

    fn mul(self, rhs: ulong3) -> (r: ulong3) {
        ulong3::broadcast(self).mul(rhs)
    }
}

impl vstd::std_specs::ops::MulSpecImpl<ulong3> for u64 {
    open spec fn obeys_mul_spec() -> bool {
        true
    }

    open spec fn mul_req(self, rhs: ulong3) -> bool {
        true
    }

    open spec fn mul_spec(self, rhs: ulong3) -> ulong3 {
        vstd::std_specs::ops::MulSpec::mul_spec(ulong3::broadcast(self), rhs)
    }
}

/// Lane-wise quotient, rounded towards zero. No lane of the divisor may be
/// zero.
impl core::ops::Div for ulong3 {
    type Output = ulong3;

    fn div(self, rhs: ulong3) -> (r: ulong3) {
        ulong3(self.0 / rhs.0, self.1 / rhs.1, self.2 / rhs.2)
    }
}

impl vstd::std_specs::ops::DivSpecImpl for ulong3 {
    open spec fn obeys_div_spec() -> bool {
        true
    }

    open spec fn div_req(self, rhs: ulong3) -> bool {
        rhs.0 != 0 && rhs.1 != 0 && rhs.2 != 0
    }

    open spec fn div_spec(self, rhs: ulong3) -> ulong3 {
        ulong3::of(lanes::map2(self@, rhs@, |x: u64, y: u64| bits64::div_unsigned(x, y)))
    }
}

/// The same with `rhs` in every lane of the right operand.
impl core::ops::Div<u64> for ulong3 {
    type Output = ulong3;

    fn div(self, rhs: u64) -> (r: ulong3) {
        self.div(ulong3::broadcast(rhs))
    }
}

impl vstd::std_specs::ops::DivSpecImpl<u64> for ulong3 {
    open spec fn obeys_div_spec() -> bool {
        true
    }

    open spec fn div_req(self, rhs: u64) -> bool {
        rhs != 0
    }

    open spec fn div_spec(self, rhs: u64) -> ulong3 {
        vstd::std_specs::ops::DivSpec::div_spec(self, ulong3::broadcast(rhs))
    }
}

/// The same with `self` in every lane of the left operand.
impl core::ops::Div<ulong3> for u64 {
    type Output = ulong3;

    fn div(self, rhs: ulong3) -> (r: ulong3) {
        ulong3::broadcast(self).div(rhs)
    }
}

impl vstd::std_specs::ops::DivSpecImpl<ulong3> for u64 {
    open spec fn obeys_div_spec() -> bool {
        true
    }

    open spec fn div_req(self, rhs: ulong3) -> bool {
        rhs.0 != 0 && rhs.1 != 0 && rhs.2 != 0
    }

    open spec fn div_spec(self, rhs: ulong3) -> ulong3 {
        vstd::std_specs::ops::DivSpec::div_spec(ulong3::broadcast(self), rhs)
    }
}

/// Lane-wise conjunction of the bits.
impl core::ops::BitAnd for ulong3 {
    type Output = ulong3;

    fn bitand(self, rhs: ulong3) -> (r: ulong3) {
        ulong3(self.0 & rhs.0, self.1 & rhs.1, self.2 & rhs.2)
    }
}

impl vstd::std_specs::ops::BitAndSpecImpl for ulong3 {
    open spec fn obeys_bitand_spec() -> bool {
        true
    }

    open spec fn bitand_req(self, rhs: ulong3) -> bool {
        true
    }

    open spec fn bitand_spec(self, rhs: ulong3) -> ulong3 {
        ulong3::of(lanes::map2(self@, rhs@, |x: u64, y: u64| x & y))
    }
}

/// The same with `rhs` in every lane of the right operand.
impl core::ops::BitAnd<u64> for ulong3 {
    type Output = ulong3;

    fn bitand(self, rhs: u64) -> (r: ulong3) {
        self.bitand(ulong3::broadcast(rhs))
    }
}

impl vstd::std_specs::ops::BitAndSpecImpl<u64> for ulong3 {
    open spec fn obeys_bitand_spec() -> bool {
        true
    }

    open spec fn bitand_req(self, rhs: u64) -> bool {
        true
    }

    open spec fn bitand_spec(self, rhs: u64) -> ulong3 {
        vstd::std_specs::ops::BitAndSpec::bitand_spec(self, ulong3::broadcast(rhs))
    }
}

/// The same with `self` in every lane of the left operand.
impl core::ops::BitAnd<ulong3> for u64 {
    type Output = ulong3;

    fn bitand(self, rhs: ulong3) -> (r: ulong3) {
        ulong3::broadcast(self).bitand(rhs)
    }
}

impl vstd::std_specs::ops::BitAndSpecImpl<ulong3> for u64 {
    open spec fn obeys_bitand_spec() -> bool {
        true
    }

    open spec fn bitand_req(self, rhs: ulong3) -> bool {
        true
    }

    open spec fn bitand_spec(self, rhs: ulong3) -> ulong3 {
        vstd::std_specs::ops::BitAndSpec::bitand_spec(ulong3::broadcast(self), rhs)
    }
}

/// Lane-wise disjunction of the bits.
impl core::ops::BitOr for ulong3 {
    type Output = ulong3;

    fn bitor(self, rhs: ulong3) -> (r: ulong3) {
        ulong3(self.0 | rhs.0, self.1 | rhs.1, self.2 | rhs.2)
    }
}

impl vstd::std_specs::ops::BitOrSpecImpl for ulong3 {
    open spec fn obeys_bitor_spec() -> bool {
        true
    }

    open spec fn bitor_req(self, rhs: ulong3) -> bool {
        true
    }

    open spec fn bitor_spec(self, rhs: ulong3) -> ulong3 {
        ulong3::of(lanes::map2(self@, rhs@, |x: u64, y: u64| x | y))
    }
}

/// The same with `rhs` in every lane of the right operand.
impl core::ops::BitOr<u64> for ulong3 {
    type Output = ulong3;

    fn bitor(self, rhs: u64) -> (r: ulong3) {
        self.bitor(ulong3::broadcast(rhs))
    }
}

impl vstd::std_specs::ops::BitOrSpecImpl<u64> for ulong3 {
    open spec fn obeys_bitor_spec() -> bool {
        true
    }

    open spec fn bitor_req(self, rhs: u64) -> bool {
        true
    }

    open spec fn bitor_spec(self, rhs: u64) -> ulong3 {
        vstd::std_specs::ops::BitOrSpec::bitor_spec(self, ulong3::broadcast(rhs))
    }
}

/// The same with `self` in every lane of the left operand.
impl core::ops::BitOr<ulong3> for u64 {
    type Output = ulong3;

    fn bitor(self, rhs: ulong3) -> (r: ulong3) {
        ulong3::broadcast(self).bitor(rhs)
    }
}

impl vstd::std_specs::ops::BitOrSpecImpl<ulong3> for u64 {
    open spec fn obeys_bitor_spec() -> bool {
        true
    }

    open spec fn bitor_req(self, rhs: ulong3) -> bool {
        true
    }

    open spec fn bitor_spec(self, rhs: ulong3) -> ulong3 {
        vstd::std_specs::ops::BitOrSpec::bitor_spec(ulong3::broadcast(self), rhs)
    }
}

/// Lane-wise exclusive disjunction of the bits.
impl core::ops::BitXor for ulong3 {
    type Output = ulong3;

    fn bitxor(self, rhs: ulong3) -> (r: ulong3) {
        ulong3(self.0 ^ rhs.0, self.1 ^ rhs.1, self.2 ^ rhs.2)
    }
}

impl vstd::std_specs::ops::BitXorSpecImpl for ulong3 {
    open spec fn obeys_bitxor_spec() -> bool {
        true
    }

    open spec fn bitxor_req(self, rhs: ulong3) -> bool {
        true
    }

    open spec fn bitxor_spec(self, rhs: ulong3) -> ulong3 {
        ulong3::of(lanes::map2(self@, rhs@, |x: u64, y: u64| x ^ y))
    }
}

/// The same with `rhs` in every lane of the right operand.
impl core::ops::BitXor<u64> for ulong3 {
    type Output = ulong3;

    fn bitxor(self, rhs: u64) -> (r: ulong3) {
        self.bitxor(ulong3::broadcast(rhs))
    }
}

impl vstd::std_specs::ops::BitXorSpecImpl<u64> for ulong3 {
    open spec fn obeys_bitxor_spec() -> bool {
        true
    }

    open spec fn bitxor_req(self, rhs: u64) -> bool {
        true
    }

    open spec fn bitxor_spec(self, rhs: u64) -> ulong3 {
        vstd::std_specs::ops::BitXorSpec::bitxor_spec(self, ulong3::broadcast(rhs))
    }
}

/// The same with `self` in every lane of the left operand.
impl core::ops::BitXor<ulong3> for u64 {
    type Output = ulong3;

    fn bitxor(self, rhs: ulong3) -> (r: ulong3) {
        ulong3::broadcast(self).bitxor(rhs)
    }
}

impl vstd::std_specs::ops::BitXorSpecImpl<ulong3> for u64 {
    open spec fn obeys_bitxor_spec() -> bool {
        true
    }

    open spec fn bitxor_req(self, rhs: ulong3) -> bool {
        true
    }

    open spec fn bitxor_spec(self, rhs: ulong3) -> ulong3 {
        vstd::std_specs::ops::BitXorSpec::bitxor_spec(ulong3::broadcast(self), rhs)
    }
}

/// Lane-wise shift to the left. Every distance must be less than the width of
/// a lane.
impl core::ops::Shl for ulong3 {
    type Output = ulong3;

    fn shl(self, rhs: ulong3) -> (r: ulong3) {
        ulong3(self.0 << rhs.0, self.1 << rhs.1, self.2 << rhs.2)
    }
}

impl vstd::std_specs::ops::ShlSpecImpl for ulong3 {
    open spec fn obeys_shl_spec() -> bool {
        true
    }

    open spec fn shl_req(self, rhs: ulong3) -> bool {
        &&& bits64::shift_in_range_unsigned(rhs.0)
        &&& bits64::shift_in_range_unsigned(rhs.1)
        &&& bits64::shift_in_range_unsigned(rhs.2)
    }

    open spec fn shl_spec(self, rhs: ulong3) -> ulong3 {
        ulong3::of(lanes::map2(self@, rhs@, |x: u64, y: u64| bits64::shl_unsigned(x, y)))
    }
}

/// The same with `rhs` in every lane of the right operand.
impl core::ops::Shl<u64> for ulong3 {
    type Output = ulong3;

    fn shl(self, rhs: u64) -> (r: ulong3) {
        self.shl(ulong3::broadcast(rhs))
    }
}

impl vstd::std_specs::ops::ShlSpecImpl<u64> for ulong3 {
    open spec fn obeys_shl_spec() -> bool {
        true
    }

    open spec fn shl_req(self, rhs: u64) -> bool {
        bits64::shift_in_range_unsigned(rhs)
    }

    open spec fn shl_spec(self, rhs: u64) -> ulong3 {
        vstd::std_specs::ops::ShlSpec::shl_spec(self, ulong3::broadcast(rhs))
    }
}

/// The same with `self` in every lane of the left operand.
impl core::ops::Shl<ulong3> for u64 {
    type Output = ulong3;

    fn shl(self, rhs: ulong3) -> (r: ulong3) {
        ulong3::broadcast(self).shl(rhs)
    }
}

impl vstd::std_specs::ops::ShlSpecImpl<ulong3> for u64 {
    open spec fn obeys_shl_spec() -> bool {
        true
    }

    open spec fn shl_req(self, rhs: ulong3) -> bool {
        &&& bits64::shift_in_range_unsigned(rhs.0)
        &&& bits64::shift_in_range_unsigned(rhs.1)
        &&& bits64::shift_in_range_unsigned(rhs.2)
    }

    open spec fn shl_spec(self, rhs: ulong3) -> ulong3 {
        vstd::std_specs::ops::ShlSpec::shl_spec(ulong3::broadcast(self), rhs)
    }
}

/// Lane-wise shift to the right. Every distance must be less than the width of
/// a lane.
impl core::ops::Shr for ulong3 {
    type Output = ulong3;

    fn shr(self, rhs: ulong3) -> (r: ulong3) {
        ulong3(self.0 >> rhs.0, self.1 >> rhs.1, self.2 >> rhs.2)
    }
}

impl vstd::std_specs::ops::ShrSpecImpl for ulong3 {
    open spec fn obeys_shr_spec() -> bool {
        true
    }

    open spec fn shr_req(self, rhs: ulong3) -> bool {
        &&& bits64::shift_in_range_unsigned(rhs.0)
        &&& bits64::shift_in_range_unsigned(rhs.1)
        &&& bits64::shift_in_range_unsigned(rhs.2)
    }

    open spec fn shr_spec(self, rhs: ulong3) -> ulong3 {
        ulong3::of(lanes::map2(self@, rhs@, |x: u64, y: u64| bits64::shr_unsigned(x, y)))
    }
}

/// The same with `rhs` in every lane of the right operand.
impl core::ops::Shr<u64> for ulong3 {
    type Output = ulong3;

    fn shr(self, rhs: u64) -> (r: ulong3) {
        self.shr(ulong3::broadcast(rhs))
    }
}

impl vstd::std_specs::ops::ShrSpecImpl<u64> for ulong3 {
    open spec fn obeys_shr_spec() -> bool {
        true
    }

    open spec fn shr_req(self, rhs: u64) -> bool {
        bits64::shift_in_range_unsigned(rhs)
    }

    open spec fn shr_spec(self, rhs: u64) -> ulong3 {
        vstd::std_specs::ops::ShrSpec::shr_spec(self, ulong3::broadcast(rhs))
    }
}

/// The same with `self` in every lane of the left operand.
impl core::ops::Shr<ulong3> for u64 {
    type Output = ulong3;

    fn shr(self, rhs: ulong3) -> (r: ulong3) {
        ulong3::broadcast(self).shr(rhs)
    }
}

impl vstd::std_specs::ops::ShrSpecImpl<ulong3> for u64 {
    open spec fn obeys_shr_spec() -> bool {
        true
    }

    open spec fn shr_req(self, rhs: ulong3) -> bool {
        &&& bits64::shift_in_range_unsigned(rhs.0)
        &&& bits64::shift_in_range_unsigned(rhs.1)
        &&& bits64::shift_in_range_unsigned(rhs.2)
    }

    open spec fn shr_spec(self, rhs: ulong3) -> ulong3 {
        vstd::std_specs::ops::ShrSpec::shr_spec(ulong3::broadcast(self), rhs)
    }
}

/// Lane-wise inversion of the bits.
impl core::ops::Not for ulong3 {
    type Output = ulong3;

    fn not(self) -> (r: ulong3) {
        ulong3(!self.0, !self.1, !self.2)
    }
}

impl vstd::std_specs::ops::NotSpecImpl for ulong3 {
    open spec fn obeys_not_spec() -> bool {
        true
    }

    open spec fn not_req(self) -> bool {
        true
    }

    open spec fn not_spec(self) -> ulong3 {
        ulong3::of(lanes::map1(self@, |x: u64| bits64::not_unsigned(x)))
    }
}

} // verus!
