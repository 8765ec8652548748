//! `char8`: eight lanes of `i8`.
use crate::bitcast::Bitcast;
use crate::bits8;
use crate::bits16;
use crate::bits32;
use crate::bits64;
use crate::lanes;
use crate::select::Select;
use crate::vector::char4::char4;
use crate::vector::double8::double8;
use crate::vector::float8::float8;
use crate::vector::int8::int8;
use crate::vector::long8::long8;
use crate::vector::short8::short8;
use crate::vector::uchar8::uchar8;
use crate::vector::uint8::uint8;
use crate::vector::ulong8::ulong8;
use crate::vector::ushort8::ushort8;
use core::ops::{Add, BitAnd, BitOr, BitXor, Div, Mul, Not, Shl, Shr, Sub};
use vstd::prelude::*;

verus! {

/// Eight lanes of `i8`.
#[allow(non_camel_case_types)]
#[derive(Clone, Copy, Debug, PartialEq, Eq, Structural)]
pub struct char8(pub i8, pub i8, pub i8, pub i8, pub i8, pub i8, pub i8, pub i8);

impl View for char8 {
    type V = Seq<i8>;

    /// The lanes in order, lane 0 first.
    open spec fn view(&self) -> Seq<i8> {
        Seq::new(8, |i: int| self.lane(i))
    }
}

impl char8 {
    /// Lane `i` of the vector.
    pub open spec fn lane(self, i: int) -> i8 {
        if i == 0 {
            self.0
        } else if i == 1 {
            self.1
        } else if i == 2 {
            self.2
        } else if i == 3 {
            self.3
        } else if i == 4 {
            self.4
        } else if i == 5 {
            self.5
        } else if i == 6 {
            self.6
        } else {
            self.7
        }
    }

    /// The vector whose lanes are the first eight entries of `s`.
    pub open spec fn of(s: Seq<i8>) -> char8 {
        char8(s[0], s[1], s[2], s[3], s[4], s[5], s[6], s[7])
    }

    /// The vector with `x` in every lane.
    pub open spec fn spec_broadcast(x: i8) -> char8 {
        char8::of(lanes::splat(x, 8))
    }

    /// Fills every lane with `x`.
    #[verifier::when_used_as_spec(spec_broadcast)]
    pub fn broadcast(x: i8) -> (r: char8)
        ensures
            r == char8::spec_broadcast(x),
    {
        char8(x, x, x, x, x, x, x, x)
    }

    /// The vector whose lanes have the bit patterns of the lanes of `b`.
    pub open spec fn spec_from_bits(b: uchar8) -> char8 {
        char8::of(lanes::map1(b@, |x: u8| bits8::to_signed(x)))
    }

    /// Reads the lanes of `b` as lanes of this type, bit for bit.
    #[verifier::when_used_as_spec(spec_from_bits)]
    pub fn from_bits(b: uchar8) -> (r: char8)
        ensures
            r == char8::spec_from_bits(b),
    {
        char8(
            #[verifier::truncate] (b.0 as i8),
            #[verifier::truncate] (b.1 as i8),
            #[verifier::truncate] (b.2 as i8),
            #[verifier::truncate] (b.3 as i8),
            #[verifier::truncate] (b.4 as i8),
            #[verifier::truncate] (b.5 as i8),
            #[verifier::truncate] (b.6 as i8),
            #[verifier::truncate] (b.7 as i8),
        )
    }

    /// The unsigned vector whose lanes have the bit patterns of the lanes of
    /// `self`.
    pub open spec fn spec_to_bits(self) -> uchar8 {
        uchar8::of(lanes::map1(self@, |x: i8| bits8::to_unsigned(x)))
    }

    /// Reads the lanes as unsigned lanes, bit for bit.
    #[verifier::when_used_as_spec(spec_to_bits)]
    pub fn to_bits(self) -> (r: uchar8)
        ensures
            r == self.spec_to_bits(),
    {
        uchar8(
            #[verifier::truncate] (self.0 as u8),
            #[verifier::truncate] (self.1 as u8),
            #[verifier::truncate] (self.2 as u8),
            #[verifier::truncate] (self.3 as u8),
            #[verifier::truncate] (self.4 as u8),
            #[verifier::truncate] (self.5 as u8),
            #[verifier::truncate] (self.6 as u8),
            #[verifier::truncate] (self.7 as u8),
        )
    }

    /// The vector of this type that occupies the bytes that `x` occupies.
    pub open spec fn spec_bitcast<T: Bitcast<Image = [u8; 8]>>(x: T) -> char8 {
        char8::spec_from_image(x.spec_image())
    }

    /// Reinterprets the bytes of `x` as a vector of this type. `x` may be of
    /// any vector type that occupies 8 bytes; a type of another size is not
    /// accepted. No bit is dropped or made up.
    #[verifier::when_used_as_spec(spec_bitcast)]
    pub fn bitcast<T: Bitcast<Image = [u8; 8]>>(x: T) -> (r: char8)
        ensures
            r == char8::spec_bitcast(x),
    {
        char8::from_image(x.image())
    }

    /// Lane `i`, for `i` below 8.
    pub open spec fn spec_extract(self, i: u32) -> i8 {
        self@[i as int]
    }

    /// Reads lane `i`.
    #[verifier::when_used_as_spec(spec_extract)]
    pub fn extract(self, i: u32) -> (r: i8)
        requires
            i < 8,
        ensures
            r == self.spec_extract(i),
    {
        if i == 0 {
            self.0
        } else if i == 1 {
            self.1
        } else if i == 2 {
            self.2
        } else if i == 3 {
            self.3
        } else if i == 4 {
            self.4
        } else if i == 5 {
            self.5
        } else if i == 6 {
            self.6
        } else {
            self.7
        }
    }

    /// The vector with lane `i` replaced by `x`, for `i` below 8.
    pub open spec fn spec_replace(self, i: u32, x: i8) -> char8 {
        char8::of(self@.update(i as int, x))
    }

    /// Replaces lane `i` by `x` and leaves the other lanes as they are.
    #[verifier::when_used_as_spec(spec_replace)]
    pub fn replace(self, i: u32, x: i8) -> (r: char8)
        requires
            i < 8,
        ensures
            r == self.spec_replace(i, x),
    {
        if i == 0 {
            char8(x, self.1, self.2, self.3, self.4, self.5, self.6, self.7)
        } else if i == 1 {
            char8(self.0, x, self.2, self.3, self.4, self.5, self.6, self.7)
        } else if i == 2 {
            char8(self.0, self.1, x, self.3, self.4, self.5, self.6, self.7)
        } else if i == 3 {
            char8(self.0, self.1, self.2, x, self.4, self.5, self.6, self.7)
        } else if i == 4 {
            char8(self.0, self.1, self.2, self.3, x, self.5, self.6, self.7)
        } else if i == 5 {
            char8(self.0, self.1, self.2, self.3, self.4, x, self.6, self.7)
        } else if i == 6 {
            char8(self.0, self.1, self.2, self.3, self.4, self.5, x, self.7)
        } else {
            char8(self.0, self.1, self.2, self.3, self.4, self.5, self.6, x)
        }
    }

    /// The first half of the lanes.
    pub open spec fn spec_lo(self) -> char4 {
        char4::of(lanes::lower_half(self@, 0))
    }

    /// The first half of the lanes.
    #[verifier::when_used_as_spec(spec_lo)]
    pub fn lo(self) -> (r: char4)
        ensures
            r == self.spec_lo(),
    {
        char4(self.0, self.1, self.2, self.3)
    }

    /// The second half of the lanes.
    pub open spec fn spec_hi(self) -> char4 {
        char4::of(lanes::upper_half(self@, 0))
    }

    /// The second half of the lanes.
    #[verifier::when_used_as_spec(spec_hi)]
    pub fn hi(self) -> (r: char4)
        ensures
            r == self.spec_hi(),
    {
        char4(self.4, self.5, self.6, self.7)
    }

    /// The lanes at even positions.
    pub open spec fn spec_even(self) -> char4 {
        char4::of(lanes::even_lanes(self@, 0))
    }

    /// The lanes at even positions.
    #[verifier::when_used_as_spec(spec_even)]
    pub fn even(self) -> (r: char4)
        ensures
            r == self.spec_even(),
    {
        char4(self.0, self.2, self.4, self.6)
    }

    /// The lanes at odd positions.
    pub open spec fn spec_odd(self) -> char4 {
        char4::of(lanes::odd_lanes(self@, 0))
    }

    /// The lanes at odd positions.
    #[verifier::when_used_as_spec(spec_odd)]
    pub fn odd(self) -> (r: char4)
        ensures
            r == self.spec_odd(),
    {
        char4(self.1, self.3, self.5, self.7)
    }

    /// Whether every lane is all ones or all zeros, as the lanes of the
    /// result of a comparison are.
    pub open spec fn is_mask(self) -> bool {
        forall|i: int| 0 <= i < 8 ==> bits8::is_mask(#[trigger] self@[i])
    }

    /// Whether `f` may give the lanes of `r` for the lanes of `self`.
    pub open spec fn is_map_unary<F: Fn(i8) -> i8>(self, f: F, r: char8) -> bool {
        &&& call_ensures(f, (self.0,), r.0)
        &&& call_ensures(f, (self.1,), r.1)
        &&& call_ensures(f, (self.2,), r.2)
        &&& call_ensures(f, (self.3,), r.3)
        &&& call_ensures(f, (self.4,), r.4)
        &&& call_ensures(f, (self.5,), r.5)
        &&& call_ensures(f, (self.6,), r.6)
        &&& call_ensures(f, (self.7,), r.7)
    }

    /// Applies `f` to every lane. `f` must accept every lane of the vector.
    pub fn map_unary<F: Fn(i8) -> i8>(self, f: &F) -> (r: char8)
        requires
            call_requires(f, (self.0,)),
            call_requires(f, (self.1,)),
            call_requires(f, (self.2,)),
            call_requires(f, (self.3,)),
            call_requires(f, (self.4,)),
            call_requires(f, (self.5,)),
            call_requires(f, (self.6,)),
            call_requires(f, (self.7,)),
        ensures
            self.is_map_unary(*f, r),
    {
        char8(
            f(self.0),
            f(self.1),
            f(self.2),
            f(self.3),
            f(self.4),
            f(self.5),
            f(self.6),
            f(self.7),
        )
    }

    /// Whether `f` may give the lanes of `r` for the lanes of `self` and
    /// `other` at equal positions.
    pub open spec fn is_map_binary<F: Fn(i8, i8) -> i8>(
        self,
        other: char8,
        f: F,
        r: char8,
    ) -> bool {
        &&& call_ensures(f, (self.0, other.0), r.0)
        &&& call_ensures(f, (self.1, other.1), r.1)
        &&& call_ensures(f, (self.2, other.2), r.2)
        &&& call_ensures(f, (self.3, other.3), r.3)
        &&& call_ensures(f, (self.4, other.4), r.4)
        &&& call_ensures(f, (self.5, other.5), r.5)
        &&& call_ensures(f, (self.6, other.6), r.6)
        &&& call_ensures(f, (self.7, other.7), r.7)
    }

    /// Applies `f` to the lanes of `self` and `other` at equal positions. `f`
    /// must accept every such pair.
    pub fn map_binary<F: Fn(i8, i8) -> i8>(self, other: char8, f: &F) -> (r: char8)
        requires
            call_requires(f, (self.0, other.0)),
            call_requires(f, (self.1, other.1)),
            call_requires(f, (self.2, other.2)),
            call_requires(f, (self.3, other.3)),
            call_requires(f, (self.4, other.4)),
            call_requires(f, (self.5, other.5)),
            call_requires(f, (self.6, other.6)),
            call_requires(f, (self.7, other.7)),
        ensures
            self.is_map_binary(other, *f, r),
    {
        char8(
            f(self.0, other.0),
            f(self.1, other.1),
            f(self.2, other.2),
            f(self.3, other.3),
            f(self.4, other.4),
            f(self.5, other.5),
            f(self.6, other.6),
            f(self.7, other.7),
        )
    }

    /// Whether `r` may come of gathering the lanes with `f`, lane 0 first.
    pub open spec fn is_reduce<F: Fn(i8, i8) -> i8>(self, f: F, r: i8) -> bool {
        exists|a1: i8, a2: i8, a3: i8, a4: i8, a5: i8, a6: i8|
            {
                &&& call_ensures(f, (self.1, self.0), a1)
                &&& call_ensures(f, (self.2, a1), a2)
                &&& call_ensures(f, (self.3, a2), a3)
                &&& call_ensures(f, (self.4, a3), a4)
                &&& call_ensures(f, (self.5, a4), a5)
                &&& call_ensures(f, (self.6, a5), a6)
                &&& call_ensures(f, (self.7, a6), r)
            }
    }

    /// Combines the lanes into one value with `f`, lane 0 first: each
    /// further lane is handed to `f` together with what was gathered from the
    /// lanes before it. `f` must accept every pair of values.
    pub fn reduce<F: Fn(i8, i8) -> i8>(self, f: &F) -> (r: i8)
        requires
            forall|x: i8, y: i8| call_requires(f, (x, y)),
        ensures
            self.is_reduce(*f, r),
    {
        let a1 = f(self.1, self.0);
        let a2 = f(self.2, a1);
        let a3 = f(self.3, a2);
        let a4 = f(self.4, a3);
        let a5 = f(self.5, a4);
        let a6 = f(self.6, a5);
        f(self.7, a6)
    }

    /// Whether `r` may come of reducing the lanes with `f`, by halving: the
    /// first half is combined with the second, lane by lane, and the result is
    /// reduced in turn.
    pub open spec fn is_fold<F: Fn(i8, i8) -> i8>(self, f: F, r: i8) -> bool {
        exists|h: char4|
            #[trigger] self.spec_lo().is_map_binary(self.spec_hi(), f, h) && h.is_fold(f, r)
    }

    /// Reduces the lanes to one value with `f`, in the order of the
    /// reductions: by halving: the first half is combined with the second,
    /// lane by lane, and the result is reduced in turn. `f` must accept every
    /// pair of values.
    pub fn fold<F: Fn(i8, i8) -> i8>(self, f: &F) -> (r: i8)
        requires
            forall|x: i8, y: i8| call_requires(f, (x, y)),
        ensures
            self.is_fold(*f, r),
    {
        let h = self.lo().map_binary(self.hi(), f);
        h.fold(f)
    }

    /// The mask with all ones in the lanes where the lanes of `self` and
    /// `other` satisfy `==`, and all zeros in the others.
    pub open spec fn spec_eq(self, other: char8) -> char8 {
        char8::of(lanes::map2(self@, other@, |x: i8, y: i8| bits8::mask(x == y)))
    }

    /// Compares lane by lane with `==`. Every lane of the result is all ones
    /// or all zeros.
    #[verifier::when_used_as_spec(spec_eq)]
    pub fn eq(self, other: char8) -> (r: char8)
        ensures
            r == self.spec_eq(other),
            r.is_mask(),
    {
        char8(
            bits8::mask_of(self.0 == other.0),
            bits8::mask_of(self.1 == other.1),
            bits8::mask_of(self.2 == other.2),
            bits8::mask_of(self.3 == other.3),
            bits8::mask_of(self.4 == other.4),
            bits8::mask_of(self.5 == other.5),
            bits8::mask_of(self.6 == other.6),
            bits8::mask_of(self.7 == other.7),
        )
    }

    /// The mask with all ones in the lanes where the lanes of `self` and
    /// `other` satisfy `!=`, and all zeros in the others.
    pub open spec fn spec_ne(self, other: char8) -> char8 {
        char8::of(lanes::map2(self@, other@, |x: i8, y: i8| bits8::mask(x != y)))
    }

    /// Compares lane by lane with `!=`. Every lane of the result is all ones
    /// or all zeros.
    #[verifier::when_used_as_spec(spec_ne)]
    pub fn ne(self, other: char8) -> (r: char8)
        ensures
            r == self.spec_ne(other),
            r.is_mask(),
    {
        char8(
            bits8::mask_of(self.0 != other.0),
            bits8::mask_of(self.1 != other.1),
            bits8::mask_of(self.2 != other.2),
            bits8::mask_of(self.3 != other.3),
            bits8::mask_of(self.4 != other.4),
            bits8::mask_of(self.5 != other.5),
            bits8::mask_of(self.6 != other.6),
            bits8::mask_of(self.7 != other.7),
        )
    }

    /// The mask with all ones in the lanes where the lanes of `self` and
    /// `other` satisfy `<`, and all zeros in the others.
    pub open spec fn spec_lt(self, other: char8) -> char8 {
        char8::of(lanes::map2(self@, other@, |x: i8, y: i8| bits8::mask(x < y)))
    }

    /// Compares lane by lane with `<`. Every lane of the result is all ones
    /// or all zeros.
    #[verifier::when_used_as_spec(spec_lt)]
    pub fn lt(self, other: char8) -> (r: char8)
        ensures
            r == self.spec_lt(other),
            r.is_mask(),
    {
        char8(
            bits8::mask_of(self.0 < other.0),
            bits8::mask_of(self.1 < other.1),
            bits8::mask_of(self.2 < other.2),
            bits8::mask_of(self.3 < other.3),
            bits8::mask_of(self.4 < other.4),
            bits8::mask_of(self.5 < other.5),
            bits8::mask_of(self.6 < other.6),
            bits8::mask_of(self.7 < other.7),
        )
    }

    /// The mask with all ones in the lanes where the lanes of `self` and
    /// `other` satisfy `<=`, and all zeros in the others.
    pub open spec fn spec_le(self, other: char8) -> char8 {
        char8::of(lanes::map2(self@, other@, |x: i8, y: i8| bits8::mask(x <= y)))
    }

    /// Compares lane by lane with `<=`. Every lane of the result is all ones
    /// or all zeros.
    #[verifier::when_used_as_spec(spec_le)]
    pub fn le(self, other: char8) -> (r: char8)
        ensures
            r == self.spec_le(other),
            r.is_mask(),
    {
        char8(
            bits8::mask_of(self.0 <= other.0),
            bits8::mask_of(self.1 <= other.1),
            bits8::mask_of(self.2 <= other.2),
            bits8::mask_of(self.3 <= other.3),
            bits8::mask_of(self.4 <= other.4),
            bits8::mask_of(self.5 <= other.5),
            bits8::mask_of(self.6 <= other.6),
            bits8::mask_of(self.7 <= other.7),
        )
    }

    /// The mask with all ones in the lanes where the lanes of `self` and
    /// `other` satisfy `>`, and all zeros in the others.
    pub open spec fn spec_gt(self, other: char8) -> char8 {
        char8::of(lanes::map2(self@, other@, |x: i8, y: i8| bits8::mask(x > y)))
    }

    /// Compares lane by lane with `>`. Every lane of the result is all ones
    /// or all zeros.
    #[verifier::when_used_as_spec(spec_gt)]
    pub fn gt(self, other: char8) -> (r: char8)
        ensures
            r == self.spec_gt(other),
            r.is_mask(),
    {
        char8(
            bits8::mask_of(self.0 > other.0),
            bits8::mask_of(self.1 > other.1),
            bits8::mask_of(self.2 > other.2),
            bits8::mask_of(self.3 > other.3),
            bits8::mask_of(self.4 > other.4),
            bits8::mask_of(self.5 > other.5),
            bits8::mask_of(self.6 > other.6),
            bits8::mask_of(self.7 > other.7),
        )
    }

    /// The mask with all ones in the lanes where the lanes of `self` and
    /// `other` satisfy `>=`, and all zeros in the others.
    pub open spec fn spec_ge(self, other: char8) -> char8 {
        char8::of(lanes::map2(self@, other@, |x: i8, y: i8| bits8::mask(x >= y)))
    }

    /// Compares lane by lane with `>=`. Every lane of the result is all ones
    /// or all zeros.
    #[verifier::when_used_as_spec(spec_ge)]
    pub fn ge(self, other: char8) -> (r: char8)
        ensures
            r == self.spec_ge(other),
            r.is_mask(),
    {
        char8(
            bits8::mask_of(self.0 >= other.0),
            bits8::mask_of(self.1 >= other.1),
            bits8::mask_of(self.2 >= other.2),
            bits8::mask_of(self.3 >= other.3),
            bits8::mask_of(self.4 >= other.4),
            bits8::mask_of(self.5 >= other.5),
            bits8::mask_of(self.6 >= other.6),
            bits8::mask_of(self.7 >= other.7),
        )
    }

    /// The greater of the two lanes at every position.
    pub open spec fn spec_max(self, other: char8) -> char8 {
        char8::of(lanes::map2(self@, other@, |x: i8, y: i8| if y > x { y } else { x }))
    }

    /// Takes the greater lane at every position: the lanes of `other` are
    /// selected where they are greater than those of `self`.
    #[verifier::when_used_as_spec(spec_max)]
    pub fn max(self, other: char8) -> (r: char8)
        ensures
            r == self.spec_max(other),
    {
        let greater = other.gt(self);
        proof {
            bits8::lemma_select_signed(greater.0, self.0, other.0);
            bits8::lemma_select_signed(greater.1, self.1, other.1);
            bits8::lemma_select_signed(greater.2, self.2, other.2);
            bits8::lemma_select_signed(greater.3, self.3, other.3);
            bits8::lemma_select_signed(greater.4, self.4, other.4);
            bits8::lemma_select_signed(greater.5, self.5, other.5);
            bits8::lemma_select_signed(greater.6, self.6, other.6);
            bits8::lemma_select_signed(greater.7, self.7, other.7);
        }
        greater.bitselect(self, other)
    }

    /// The lesser of the two lanes at every position.
    pub open spec fn spec_min(self, other: char8) -> char8 {
        char8::of(lanes::map2(self@, other@, |x: i8, y: i8| if y < x { y } else { x }))
    }

    /// Takes the lesser lane at every position: the lanes of `other` are
    /// selected where they are less than those of `self`.
    #[verifier::when_used_as_spec(spec_min)]
    pub fn min(self, other: char8) -> (r: char8)
        ensures
            r == self.spec_min(other),
    {
        let less = other.lt(self);
        proof {
            bits8::lemma_select_signed(less.0, self.0, other.0);
            bits8::lemma_select_signed(less.1, self.1, other.1);
            bits8::lemma_select_signed(less.2, self.2, other.2);
            bits8::lemma_select_signed(less.3, self.3, other.3);
            bits8::lemma_select_signed(less.4, self.4, other.4);
            bits8::lemma_select_signed(less.5, self.5, other.5);
            bits8::lemma_select_signed(less.6, self.6, other.6);
            bits8::lemma_select_signed(less.7, self.7, other.7);
        }
        less.bitselect(self, other)
    }

    /// Every lane raised to at least the lane of `min`, then lowered to at most
    /// the lane of `max`.
    pub open spec fn spec_clamp(self, min: char8, max: char8) -> char8 {
        self.spec_max(min).spec_min(max)
    }

    /// Restricts every lane to the range that the lanes of `min` and `max`
    /// give. Where a lane of `min` is greater than that of `max`, the lane of
    /// `max` is the result.
    #[verifier::when_used_as_spec(spec_clamp)]
    pub fn clamp(self, min: char8, max: char8) -> (r: char8)
        ensures
            r == self.spec_clamp(min, max),
    {
        self.max(min).min(max)
    }

    /// The absolute value of every lane, wrapped: a lane that holds the least
    /// value of `i8` keeps it.
    pub open spec fn spec_abs(self) -> char8 {
        char8::of(lanes::map1(self@, |x: i8| bits8::abs_signed(x)))
    }

    /// Takes the absolute value of every lane. With the sign of a lane spread
    /// over the whole lane as a mask, the lane is inverted where it is
    /// negative and the mask is subtracted.
    #[verifier::when_used_as_spec(spec_abs)]
    pub fn abs(self) -> (r: char8)
        ensures
            r == self.spec_abs(),
    {
        let mask = self.shr(char8::broadcast(bits8::SIGN_SHIFT));
        proof {
            bits8::lemma_abs_signed(self.0);
            bits8::lemma_abs_signed(self.1);
            bits8::lemma_abs_signed(self.2);
            bits8::lemma_abs_signed(self.3);
            bits8::lemma_abs_signed(self.4);
            bits8::lemma_abs_signed(self.5);
            bits8::lemma_abs_signed(self.6);
            bits8::lemma_abs_signed(self.7);
        }
        self.bitxor(mask).sub(mask)
    }

    /// The sum of the lanes, wrapping on overflow.
    pub open spec fn spec_reduce_add(self) -> i8 {
        lanes::fold(self@, |x: i8, y: i8| x.wrapping_add(y))
    }

    /// Reduces the lanes to the sum of the lanes, wrapping on overflow, by
    /// halving: the first half is combined with the second, lane by lane, and
    /// the result is reduced in turn.
    #[verifier::when_used_as_spec(spec_reduce_add)]
    pub fn reduce_add(self) -> (r: i8)
        ensures
            r == self.spec_reduce_add(),
    {
        proof {
            reveal_with_fuel(lanes::fold, 5);
        }
        self.lo().add(self.hi()).reduce_add()
    }

    /// The least lane.
    pub open spec fn spec_reduce_min(self) -> i8 {
        lanes::fold(self@, |x: i8, y: i8| if y < x { y } else { x })
    }

    /// Reduces the lanes to the least lane, by halving: the first half is
    /// combined with the second, lane by lane, and the result is reduced in
    /// turn.
    #[verifier::when_used_as_spec(spec_reduce_min)]
    pub fn reduce_min(self) -> (r: i8)
        ensures
            r == self.spec_reduce_min(),
    {
        proof {
            reveal_with_fuel(lanes::fold, 5);
        }
        self.lo().min(self.hi()).reduce_min()
    }

    /// The greatest lane.
    pub open spec fn spec_reduce_max(self) -> i8 {
        lanes::fold(self@, |x: i8, y: i8| if y > x { y } else { x })
    }

    /// Reduces the lanes to the greatest lane, by halving: the first half is
    /// combined with the second, lane by lane, and the result is reduced in
    /// turn.
    #[verifier::when_used_as_spec(spec_reduce_max)]
    pub fn reduce_max(self) -> (r: i8)
        ensures
            r == self.spec_reduce_max(),
    {
        proof {
            reveal_with_fuel(lanes::fold, 5);
        }
        self.lo().max(self.hi()).reduce_max()
    }

    /// The conjunction of the bits of all lanes.
    pub open spec fn spec_reduce_and(self) -> i8 {
        lanes::fold(self@, |x: i8, y: i8| x & y)
    }

    /// Reduces the lanes to the conjunction of the bits of all lanes, by
    /// halving: the first half is combined with the second, lane by lane, and
    /// the result is reduced in turn.
    #[verifier::when_used_as_spec(spec_reduce_and)]
    pub fn reduce_and(self) -> (r: i8)
        ensures
            r == self.spec_reduce_and(),
    {
        proof {
            reveal_with_fuel(lanes::fold, 5);
        }
        self.lo().bitand(self.hi()).reduce_and()
    }

    /// The disjunction of the bits of all lanes.
    pub open spec fn spec_reduce_or(self) -> i8 {
        lanes::fold(self@, |x: i8, y: i8| x | y)
    }

    /// Reduces the lanes to the disjunction of the bits of all lanes, by
    /// halving: the first half is combined with the second, lane by lane, and
    /// the result is reduced in turn.
    #[verifier::when_used_as_spec(spec_reduce_or)]
    pub fn reduce_or(self) -> (r: i8)
        ensures
            r == self.spec_reduce_or(),
    {
        proof {
            reveal_with_fuel(lanes::fold, 5);
        }
        self.lo().bitor(self.hi()).reduce_or()
    }

    /// The exclusive disjunction of the bits of all lanes.
    pub open spec fn spec_reduce_xor(self) -> i8 {
        lanes::fold(self@, |x: i8, y: i8| x ^ y)
    }

    /// Reduces the lanes to the exclusive disjunction of the bits of all
    /// lanes, by halving: the first half is combined with the second, lane by
    /// lane, and the result is reduced in turn.
    #[verifier::when_used_as_spec(spec_reduce_xor)]
    pub fn reduce_xor(self) -> (r: i8)
        ensures
            r == self.spec_reduce_xor(),
    {
        proof {
            reveal_with_fuel(lanes::fold, 5);
        }
        self.lo().bitxor(self.hi()).reduce_xor()
    }

    /// Whether the sign bit of every lane is set.
    pub open spec fn spec_all(self) -> bool {
        forall|i: int| 0 <= i < 8 ==> bits8::sign_set_signed(#[trigger] self@[i])
    }

    /// Whether the sign bit of every lane is set: the sign bit of the
    /// conjunction of all lanes is tested. On a mask this tells whether every
    /// lane is true.
    #[verifier::when_used_as_spec(spec_all)]
    pub fn all(self) -> (r: bool)
        ensures
            r == self.spec_all(),
    {
        let bits = self.reduce_and();
        proof {
            reveal_with_fuel(lanes::fold, 5);
            bits8::lemma_sign_bits_signed(self.0, self.4);
            bits8::lemma_sign_bits_signed(self.1, self.5);
            bits8::lemma_sign_bits_signed(self.2, self.6);
            bits8::lemma_sign_bits_signed(self.3, self.7);
            bits8::lemma_sign_bits_signed(self.0 & self.4, self.2 & self.6);
            bits8::lemma_sign_bits_signed(self.1 & self.5, self.3 & self.7);
            bits8::lemma_sign_bits_signed(
                (self.0 & self.4) & (self.2 & self.6),
                (self.1 & self.5) & (self.3 & self.7),
            );
            bits8::lemma_sign_bits_signed(bits, bits);
        }
        bits & i8::MIN != 0
    }

    /// Whether the sign bit of some lane is set.
    pub open spec fn spec_any(self) -> bool {
        exists|i: int| 0 <= i < 8 && bits8::sign_set_signed(#[trigger] self@[i])
    }

    /// Whether the sign bit of some lane is set: the sign bit of the
    /// disjunction of all lanes is tested. On a mask this tells whether some
    /// lane is true.
    #[verifier::when_used_as_spec(spec_any)]
    pub fn any(self) -> (r: bool)
        ensures
            r == self.spec_any(),
    {
        let bits = self.reduce_or();
        proof {
            reveal_with_fuel(lanes::fold, 5);
            bits8::lemma_sign_bits_signed(self.0, self.4);
            bits8::lemma_sign_bits_signed(self.1, self.5);
            bits8::lemma_sign_bits_signed(self.2, self.6);
            bits8::lemma_sign_bits_signed(self.3, self.7);
            bits8::lemma_sign_bits_signed(self.0 | self.4, self.2 | self.6);
            bits8::lemma_sign_bits_signed(self.1 | self.5, self.3 | self.7);
            bits8::lemma_sign_bits_signed(
                (self.0 | self.4) | (self.2 | self.6),
                (self.1 | self.5) | (self.3 | self.7),
            );
            bits8::lemma_sign_bits_signed(bits, bits);
        }
        bits & i8::MIN != 0
    }

    /// The sum of the products of the lanes at equal positions, every product
    /// and every sum wrapped into the lane.
    pub open spec fn spec_dot(self, other: char8) -> i8 {
        lanes::fold(
            lanes::map2(self@, other@, |x: i8, y: i8| x.wrapping_mul(y)),
            |x: i8, y: i8| x.wrapping_add(y),
        )
    }

    /// The dot product: the lanes are multiplied pairwise and the products
    /// are added up as `reduce_add` does.
    #[verifier::when_used_as_spec(spec_dot)]
    pub fn dot(self, other: char8) -> (r: i8)
        ensures
            r == self.spec_dot(other),
    {
        proof {
            reveal_with_fuel(lanes::fold, 5);
        }
        self.mul(other).reduce_add()
    }

    /// The vector itself.
    pub open spec fn spec_to_char(self) -> char8 {
        self
    }

    /// The vector itself.
    #[verifier::when_used_as_spec(spec_to_char)]
    pub fn to_char(self) -> (r: char8)
        ensures
            r == self.spec_to_char(),
    {
        self
    }

    /// Every lane as the `i8` nearest to its value.
    pub open spec fn spec_to_char_sat(self) -> char8 {
        self
    }

    /// Converts every lane to `i8`, saturating at the bounds of `i8`.
    /// Nothing is to be done.
    #[verifier::when_used_as_spec(spec_to_char_sat)]
    pub fn to_char_sat(self) -> (r: char8)
        ensures
            r == self.spec_to_char_sat(),
    {
        self
    }

    /// Every lane as the `u8` with the same bits.
    pub open spec fn spec_to_uchar(self) -> uchar8 {
        uchar8::of(lanes::map1(self@, |x: i8| x as u8))
    }

    /// Converts every lane to `u8` as a cast does: a value that does not fit
    /// wraps around.
    #[verifier::when_used_as_spec(spec_to_uchar)]
    pub fn to_uchar(self) -> (r: uchar8)
        ensures
            r == self.spec_to_uchar(),
    {
        uchar8(
            #[verifier::truncate] (self.0 as u8),
            #[verifier::truncate] (self.1 as u8),
            #[verifier::truncate] (self.2 as u8),
            #[verifier::truncate] (self.3 as u8),
            #[verifier::truncate] (self.4 as u8),
            #[verifier::truncate] (self.5 as u8),
            #[verifier::truncate] (self.6 as u8),
            #[verifier::truncate] (self.7 as u8),
        )
    }

    /// Every lane as the `u8` nearest to its value.
    pub open spec fn spec_to_uchar_sat(self) -> uchar8 {
        uchar8::of(lanes::map1(self@, |x: i8| bits8::saturate_unsigned(x as int)))
    }

    /// Converts every lane to `u8`, saturating at the bounds of `u8`.
    /// Negative lanes are raised to zero, then the lanes are converted.
    #[verifier::when_used_as_spec(spec_to_uchar_sat)]
    pub fn to_uchar_sat(self) -> (r: uchar8)
        ensures
            r == self.spec_to_uchar_sat(),
    {
        self.max(char8::broadcast(0)).to_uchar()
    }

    /// Every lane as a `i16` of the same value.
    pub open spec fn spec_to_short(self) -> short8 {
        short8::of(lanes::map1(self@, |x: i8| x as i16))
    }

    /// Converts every lane to `i16`. Every value fits.
    #[verifier::when_used_as_spec(spec_to_short)]
    pub fn to_short(self) -> (r: short8)
        ensures
            r == self.spec_to_short(),
    {
        short8(
            self.0 as i16,
            self.1 as i16,
            self.2 as i16,
            self.3 as i16,
            self.4 as i16,
            self.5 as i16,
            self.6 as i16,
            self.7 as i16,
        )
    }

    /// Every lane as the `i16` nearest to its value.
    pub open spec fn spec_to_short_sat(self) -> short8 {
        short8::of(lanes::map1(self@, |x: i8| bits16::saturate_signed(x as int)))
    }

    /// Converts every lane to `i16`, saturating at the bounds of `i16`.
    /// Every value fits, so the lanes are converted as they are.
    #[verifier::when_used_as_spec(spec_to_short_sat)]
    pub fn to_short_sat(self) -> (r: short8)
        ensures
            r == self.spec_to_short_sat(),
    {
        self.to_short()
    }

    /// Every lane as the `u16` with the same bits, the sign extended.
    pub open spec fn spec_to_ushort(self) -> ushort8 {
        ushort8::of(lanes::map1(self@, |x: i8| x as u16))
    }

    /// Converts every lane to `u16` as a cast does: a value that does not fit
    /// wraps around.
    #[verifier::when_used_as_spec(spec_to_ushort)]
    pub fn to_ushort(self) -> (r: ushort8)
        ensures
            r == self.spec_to_ushort(),
    {
        ushort8(
            #[verifier::truncate] (self.0 as u16),
            #[verifier::truncate] (self.1 as u16),
            #[verifier::truncate] (self.2 as u16),
            #[verifier::truncate] (self.3 as u16),
            #[verifier::truncate] (self.4 as u16),
            #[verifier::truncate] (self.5 as u16),
            #[verifier::truncate] (self.6 as u16),
            #[verifier::truncate] (self.7 as u16),
        )
    }

    /// Every lane as the `u16` nearest to its value.
    pub open spec fn spec_to_ushort_sat(self) -> ushort8 {
        ushort8::of(lanes::map1(self@, |x: i8| bits16::saturate_unsigned(x as int)))
    }

    /// Converts every lane to `u16`, saturating at the bounds of `u16`.
    /// Negative lanes are raised to zero, then the lanes are converted.
    #[verifier::when_used_as_spec(spec_to_ushort_sat)]
    pub fn to_ushort_sat(self) -> (r: ushort8)
        ensures
            r == self.spec_to_ushort_sat(),
    {
        self.max(char8::broadcast(0)).to_ushort()
    }

    /// Every lane as a `i32` of the same value.
    pub open spec fn spec_to_int(self) -> int8 {
        int8::of(lanes::map1(self@, |x: i8| x as i32))
    }

    /// Converts every lane to `i32`. Every value fits.
    #[verifier::when_used_as_spec(spec_to_int)]
    pub fn to_int(self) -> (r: int8)
        ensures
            r == self.spec_to_int(),
    {
        int8(
            self.0 as i32,
            self.1 as i32,
            self.2 as i32,
            self.3 as i32,
            self.4 as i32,
            self.5 as i32,
            self.6 as i32,
            self.7 as i32,
        )
    }

    /// Every lane as the `i32` nearest to its value.
    pub open spec fn spec_to_int_sat(self) -> int8 {
        int8::of(lanes::map1(self@, |x: i8| bits32::saturate_signed(x as int)))
    }

    /// Converts every lane to `i32`, saturating at the bounds of `i32`.
    /// Every value fits, so the lanes are converted as they are.
    #[verifier::when_used_as_spec(spec_to_int_sat)]
    pub fn to_int_sat(self) -> (r: int8)
        ensures
            r == self.spec_to_int_sat(),
    {
        self.to_int()
    }

    /// Every lane as the `u32` with the same bits, the sign extended.
    pub open spec fn spec_to_uint(self) -> uint8 {
        uint8::of(lanes::map1(self@, |x: i8| x as u32))
    }

    /// Converts every lane to `u32` as a cast does: a value that does not fit
    /// wraps around.
    #[verifier::when_used_as_spec(spec_to_uint)]
    pub fn to_uint(self) -> (r: uint8)
        ensures
            r == self.spec_to_uint(),
    {
        uint8(
            #[verifier::truncate] (self.0 as u32),
            #[verifier::truncate] (self.1 as u32),
            #[verifier::truncate] (self.2 as u32),
            #[verifier::truncate] (self.3 as u32),
            #[verifier::truncate] (self.4 as u32),
            #[verifier::truncate] (self.5 as u32),
            #[verifier::truncate] (self.6 as u32),
            #[verifier::truncate] (self.7 as u32),
        )
    }

    /// Every lane as the `u32` nearest to its value.
    pub open spec fn spec_to_uint_sat(self) -> uint8 {
        uint8::of(lanes::map1(self@, |x: i8| bits32::saturate_unsigned(x as int)))
    }

    /// Converts every lane to `u32`, saturating at the bounds of `u32`.
    /// Negative lanes are raised to zero, then the lanes are converted.
    #[verifier::when_used_as_spec(spec_to_uint_sat)]
    pub fn to_uint_sat(self) -> (r: uint8)
        ensures
            r == self.spec_to_uint_sat(),
    {
        self.max(char8::broadcast(0)).to_uint()
    }

    /// Every lane as a `i64` of the same value.
    pub open spec fn spec_to_long(self) -> long8 {
        long8::of(lanes::map1(self@, |x: i8| x as i64))
    }

    /// Converts every lane to `i64`. Every value fits.
    #[verifier::when_used_as_spec(spec_to_long)]
    pub fn to_long(self) -> (r: long8)
        ensures
            r == self.spec_to_long(),
    {
        long8(
            self.0 as i64,
            self.1 as i64,
            self.2 as i64,
            self.3 as i64,
            self.4 as i64,
            self.5 as i64,
            self.6 as i64,
            self.7 as i64,
        )
    }

    /// Every lane as the `i64` nearest to its value.
    pub open spec fn spec_to_long_sat(self) -> long8 {
        long8::of(lanes::map1(self@, |x: i8| bits64::saturate_signed(x as int)))
    }

    /// Converts every lane to `i64`, saturating at the bounds of `i64`.
    /// Every value fits, so the lanes are converted as they are.
    #[verifier::when_used_as_spec(spec_to_long_sat)]
    pub fn to_long_sat(self) -> (r: long8)
        ensures
            r == self.spec_to_long_sat(),
    {
        self.to_long()
    }

    /// Every lane as the `u64` with the same bits, the sign extended.
    pub open spec fn spec_to_ulong(self) -> ulong8 {
        ulong8::of(lanes::map1(self@, |x: i8| x as u64))
    }

    /// Converts every lane to `u64` as a cast does: a value that does not fit
    /// wraps around.
    #[verifier::when_used_as_spec(spec_to_ulong)]
    pub fn to_ulong(self) -> (r: ulong8)
        ensures
            r == self.spec_to_ulong(),
    {
        ulong8(
            #[verifier::truncate] (self.0 as u64),
            #[verifier::truncate] (self.1 as u64),
            #[verifier::truncate] (self.2 as u64),
            #[verifier::truncate] (self.3 as u64),
            #[verifier::truncate] (self.4 as u64),
            #[verifier::truncate] (self.5 as u64),
            #[verifier::truncate] (self.6 as u64),
            #[verifier::truncate] (self.7 as u64),
        )
    }

    /// Every lane as the `u64` nearest to its value.
    pub open spec fn spec_to_ulong_sat(self) -> ulong8 {
        ulong8::of(lanes::map1(self@, |x: i8| bits64::saturate_unsigned(x as int)))
    }

    /// Converts every lane to `u64`, saturating at the bounds of `u64`.
    /// Negative lanes are raised to zero, then the lanes are converted.
    #[verifier::when_used_as_spec(spec_to_ulong_sat)]
    pub fn to_ulong_sat(self) -> (r: ulong8)
        ensures
            r == self.spec_to_ulong_sat(),
    {
        self.max(char8::broadcast(0)).to_ulong()
    }

    /// Whether `r` may hold the lanes of `self` as single precision numbers,
    /// where `cast` converts one lane and gives the bit pattern of the number.
    pub open spec fn is_to_float<C: Fn(i8) -> u32>(self, cast: C, r: float8) -> bool {
        &&& call_ensures(cast, (self.0,), r.0)
        &&& call_ensures(cast, (self.1,), r.1)
        &&& call_ensures(cast, (self.2,), r.2)
        &&& call_ensures(cast, (self.3,), r.3)
        &&& call_ensures(cast, (self.4,), r.4)
        &&& call_ensures(cast, (self.5,), r.5)
        &&& call_ensures(cast, (self.6,), r.6)
        &&& call_ensures(cast, (self.7,), r.7)
    }

    /// Converts every lane to a single precision number by `cast`.
    pub fn to_float<C: Fn(i8) -> u32>(self, cast: &C) -> (r: float8)
        requires
            forall|x: i8| call_requires(cast, (x,)),
        ensures
            self.is_to_float(*cast, r),
    {
        float8(
            cast(self.0),
            cast(self.1),
            cast(self.2),
            cast(self.3),
            cast(self.4),
            cast(self.5),
            cast(self.6),
            cast(self.7),
        )
    }

    /// Whether `r` may hold the lanes of `self` as double precision numbers,
    /// where `cast` converts one lane and gives the bit pattern of the number.
    pub open spec fn is_to_double<C: Fn(i8) -> u64>(self, cast: C, r: double8) -> bool {
        &&& call_ensures(cast, (self.0,), r.0)
        &&& call_ensures(cast, (self.1,), r.1)
        &&& call_ensures(cast, (self.2,), r.2)
        &&& call_ensures(cast, (self.3,), r.3)
        &&& call_ensures(cast, (self.4,), r.4)
        &&& call_ensures(cast, (self.5,), r.5)
        &&& call_ensures(cast, (self.6,), r.6)
        &&& call_ensures(cast, (self.7,), r.7)
    }

    /// Converts every lane to a double precision number by `cast`.
    pub fn to_double<C: Fn(i8) -> u64>(self, cast: &C) -> (r: double8)
        requires
            forall|x: i8| call_requires(cast, (x,)),
        ensures
            self.is_to_double(*cast, r),
    {
        double8(
            cast(self.0),
            cast(self.1),
            cast(self.2),
            cast(self.3),
            cast(self.4),
            cast(self.5),
            cast(self.6),
            cast(self.7),
        )
    }

    /// A comparison of a vector with itself for equality is true in every
    /// lane, and one for inequality is true in none.
    pub proof fn lemma_eq_reflexive(x: char8)
        ensures
            x.eq(x).all(),
            !x.ne(x).any(),
    {
    }

    /// The dot product does not depend on the order of its operands.
    pub proof fn lemma_dot_commutative(a: char8, b: char8)
        ensures
            a.dot(b) == b.dot(a),
    {
        assert(lanes::map2(a@, b@, |x: i8, y: i8| x.wrapping_mul(y)) =~= lanes::map2(
            b@,
            a@,
            |x: i8, y: i8| x.wrapping_mul(y),
        ));
    }

    /// Reinterpreting the unsigned vector of the same shape reads its lanes
    /// bit for bit.
    pub proof fn lemma_bitcast_keeps_lanes(b: uchar8)
        ensures
            char8::bitcast(b) == char8::from_bits(b),
    {
    }

    /// Reinterpreting a vector as its own type changes nothing.
    pub proof fn lemma_bitcast_identity(x: char8)
        ensures
            char8::bitcast(x) == x,
    {
        bits8::lemma_cast_round_trip(0, x.0);
        bits8::lemma_cast_round_trip(0, x.1);
        bits8::lemma_cast_round_trip(0, x.2);
        bits8::lemma_cast_round_trip(0, x.3);
        bits8::lemma_cast_round_trip(0, x.4);
        bits8::lemma_cast_round_trip(0, x.5);
        bits8::lemma_cast_round_trip(0, x.6);
        bits8::lemma_cast_round_trip(0, x.7);
    }

    /// The result of `reduce_add` is the sum of the lanes, wrapped into the
    /// lane: the order in which the lanes are added plays no part.
    pub proof fn lemma_reduce_add_is_sum(x: char8)
        ensures
            x.reduce_add() == bits8::wrap_signed(x.0 + x.1 + x.2 + x.3 + x.4 + x.5 + x.6 + x.7),
    {
        reveal_with_fuel(lanes::fold, 5);
        bits8::lemma_wrap_in_range_signed(x.0);
        bits8::lemma_wrap_in_range_signed(x.1);
        bits8::lemma_wrap_in_range_signed(x.2);
        bits8::lemma_wrap_in_range_signed(x.3);
        bits8::lemma_wrap_in_range_signed(x.4);
        bits8::lemma_wrap_in_range_signed(x.5);
        bits8::lemma_wrap_in_range_signed(x.6);
        bits8::lemma_wrap_in_range_signed(x.7);
        bits8::lemma_wrapping_sum_signed(x.0, x.4, x.0 as int, x.4 as int);
        bits8::lemma_wrapping_sum_signed(x.1, x.5, x.1 as int, x.5 as int);
        bits8::lemma_wrapping_sum_signed(x.2, x.6, x.2 as int, x.6 as int);
        bits8::lemma_wrapping_sum_signed(x.3, x.7, x.3 as int, x.7 as int);
        bits8::lemma_wrapping_sum_signed(
            x.0.wrapping_add(x.4),
            x.2.wrapping_add(x.6),
            x.0 as int + x.4 as int,
            x.2 as int + x.6 as int,
        );
        bits8::lemma_wrapping_sum_signed(
            x.1.wrapping_add(x.5),
            x.3.wrapping_add(x.7),
            x.1 as int + x.5 as int,
            x.3 as int + x.7 as int,
        );
        bits8::lemma_wrapping_sum_signed(
            x.0.wrapping_add(x.4).wrapping_add(x.2.wrapping_add(x.6)),
            x.1.wrapping_add(x.5).wrapping_add(x.3.wrapping_add(x.7)),
            x.0 as int + x.4 as int + x.2 as int + x.6 as int,
            x.1 as int + x.5 as int + x.3 as int + x.7 as int,
        );
    }

    /// The dot product is the sum of the products of the lanes, wrapped into
    /// the lane.
    pub proof fn lemma_dot_is_sum_of_products(a: char8, b: char8)
        ensures
            a.dot(b) == bits8::wrap_signed(
                a.0 * b.0
                    + a.1 * b.1
                    + a.2 * b.2
                    + a.3 * b.3
                    + a.4 * b.4
                    + a.5 * b.5
                    + a.6 * b.6
                    + a.7 * b.7,
            ),
    {
        reveal_with_fuel(lanes::fold, 5);
        bits8::lemma_wrapping_product_signed(a.0, b.0);
        bits8::lemma_wrapping_product_signed(a.1, b.1);
        bits8::lemma_wrapping_product_signed(a.2, b.2);
        bits8::lemma_wrapping_product_signed(a.3, b.3);
        bits8::lemma_wrapping_product_signed(a.4, b.4);
        bits8::lemma_wrapping_product_signed(a.5, b.5);
        bits8::lemma_wrapping_product_signed(a.6, b.6);
        bits8::lemma_wrapping_product_signed(a.7, b.7);
        bits8::lemma_wrapping_sum_signed(
            a.0.wrapping_mul(b.0),
            a.4.wrapping_mul(b.4),
            a.0 * b.0,
            a.4 * b.4,
        );
        bits8::lemma_wrapping_sum_signed(
            a.1.wrapping_mul(b.1),
            a.5.wrapping_mul(b.5),
            a.1 * b.1,
            a.5 * b.5,
        );
        bits8::lemma_wrapping_sum_signed(
            a.2.wrapping_mul(b.2),
            a.6.wrapping_mul(b.6),
            a.2 * b.2,
            a.6 * b.6,
        );
        bits8::lemma_wrapping_sum_signed(
            a.3.wrapping_mul(b.3),
            a.7.wrapping_mul(b.7),
            a.3 * b.3,
            a.7 * b.7,
        );
        bits8::lemma_wrapping_sum_signed(
            a.0.wrapping_mul(b.0).wrapping_add(a.4.wrapping_mul(b.4)),
            a.2.wrapping_mul(b.2).wrapping_add(a.6.wrapping_mul(b.6)),
            a.0 * b.0 + a.4 * b.4,
            a.2 * b.2 + a.6 * b.6,
        );
        bits8::lemma_wrapping_sum_signed(
            a.1.wrapping_mul(b.1).wrapping_add(a.5.wrapping_mul(b.5)),
            a.3.wrapping_mul(b.3).wrapping_add(a.7.wrapping_mul(b.7)),
            a.1 * b.1 + a.5 * b.5,
            a.3 * b.3 + a.7 * b.7,
        );
        bits8::lemma_wrapping_sum_signed(
            a.0.wrapping_mul(b.0)
                .wrapping_add(a.4.wrapping_mul(b.4))
                    .wrapping_add(a.2.wrapping_mul(b.2).wrapping_add(a.6.wrapping_mul(b.6))),
            a.1.wrapping_mul(b.1)
                .wrapping_add(a.5.wrapping_mul(b.5))
                    .wrapping_add(a.3.wrapping_mul(b.3).wrapping_add(a.7.wrapping_mul(b.7))),
            a.0 * b.0 + a.4 * b.4 + a.2 * b.2 + a.6 * b.6,
            a.1 * b.1 + a.5 * b.5 + a.3 * b.3 + a.7 * b.7,
        );
    }

    /// The result of `reduce_min` is a lane, and no lane is less than it.
    pub proof fn lemma_reduce_min_is_least(x: char8)
        ensures
            forall|i: int| 0 <= i < 8 ==> x.reduce_min() <= #[trigger] x@[i],
            exists|i: int| 0 <= i < 8 && x.reduce_min() == #[trigger] x@[i],
    {
        reveal_with_fuel(lanes::fold, 5);
        assert({
            &&& x@[0] == x.0
            &&& x@[1] == x.1
            &&& x@[2] == x.2
            &&& x@[3] == x.3
            &&& x@[4] == x.4
            &&& x@[5] == x.5
            &&& x@[6] == x.6
            &&& x@[7] == x.7
        });
    }

    /// The result of `reduce_max` is a lane, and no lane is greater than it.
    pub proof fn lemma_reduce_max_is_greatest(x: char8)
        ensures
            forall|i: int| 0 <= i < 8 ==> x.reduce_max() >= #[trigger] x@[i],
            exists|i: int| 0 <= i < 8 && x.reduce_max() == #[trigger] x@[i],
    {
        reveal_with_fuel(lanes::fold, 5);
        assert({
            &&& x@[0] == x.0
            &&& x@[1] == x.1
            &&& x@[2] == x.2
            &&& x@[3] == x.3
            &&& x@[4] == x.4
            &&& x@[5] == x.5
            &&& x@[6] == x.6
            &&& x@[7] == x.7
        });
    }

    /// A vector that is widened to `short8` and narrowed again with
    /// saturation is the vector it was.
    pub proof fn lemma_short_round_trip(x: char8)
        ensures
            x.to_short().to_char_sat() == x,
    {
    }

    /// A vector that has no negative lane that is widened to `ushort8` and
    /// narrowed again with saturation is the vector it was.
    pub proof fn lemma_ushort_round_trip(x: char8)
        requires
            x.0 >= 0,
            x.1 >= 0,
            x.2 >= 0,
            x.3 >= 0,
            x.4 >= 0,
            x.5 >= 0,
            x.6 >= 0,
            x.7 >= 0,
        ensures
            x.to_ushort().to_char_sat() == x,
    {
    }

    /// A vector that is widened to `int8` and narrowed again with
    /// saturation is the vector it was.
    pub proof fn lemma_int_round_trip(x: char8)
        ensures
            x.to_int().to_char_sat() == x,
    {
    }

    /// A vector that has no negative lane that is widened to `uint8` and
    /// narrowed again with saturation is the vector it was.
    pub proof fn lemma_uint_round_trip(x: char8)
        requires
            x.0 >= 0,
            x.1 >= 0,
            x.2 >= 0,
            x.3 >= 0,
            x.4 >= 0,
            x.5 >= 0,
            x.6 >= 0,
            x.7 >= 0,
        ensures
            x.to_uint().to_char_sat() == x,
    {
    }

    /// A vector that is widened to `long8` and narrowed again with
    /// saturation is the vector it was.
    pub proof fn lemma_long_round_trip(x: char8)
        ensures
            x.to_long().to_char_sat() == x,
    {
    }

    /// A vector that has no negative lane that is widened to `ulong8` and
    /// narrowed again with saturation is the vector it was.
    pub proof fn lemma_ulong_round_trip(x: char8)
        requires
            x.0 >= 0,
            x.1 >= 0,
            x.2 >= 0,
            x.3 >= 0,
            x.4 >= 0,
            x.5 >= 0,
            x.6 >= 0,
            x.7 >= 0,
        ensures
            x.to_ulong().to_char_sat() == x,
    {
    }
}

/// `v[i]` is lane `i`, for `i` below 8.
impl core::ops::Index<u32> for char8 {
    type Output = i8;

    fn index(&self, index: u32) -> (r: &i8)
        ensures
            *r == self@[index as int],
    {
        if index == 0 {
            &self.0
        } else if index == 1 {
            &self.1
        } else if index == 2 {
            &self.2
        } else if index == 3 {
            &self.3
        } else if index == 4 {
            &self.4
        } else if index == 5 {
            &self.5
        } else if index == 6 {
            &self.6
        } else {
            &self.7
        }
    }
}

impl vstd::std_specs::core::IndexSpecImpl<u32> for char8 {
    open spec fn index_req(&self, index: &u32) -> bool {
        *index < 8
    }
}

/// The bytes of the vector: the lanes in order, each with its least significant
/// byte first.
impl Bitcast for char8 {
    type Image = [u8; 8];

    open spec fn spec_image(self) -> Seq<u8> {
        bits8::image(self.spec_to_bits()@)
    }

    open spec fn spec_from_image(image: Seq<u8>) -> char8 {
        char8::spec_from_bits(uchar8::of(bits8::lanes_of_image(image)))
    }

    fn image(self) -> (r: [u8; 8]) {
        let b = self.to_bits();
        let l0 = bits8::bytes(b.0);
        let l1 = bits8::bytes(b.1);
        let l2 = bits8::bytes(b.2);
        let l3 = bits8::bytes(b.3);
        let l4 = bits8::bytes(b.4);
        let l5 = bits8::bytes(b.5);
        let l6 = bits8::bytes(b.6);
        let l7 = bits8::bytes(b.7);
        let r = [
            l0[0], l1[0], l2[0], l3[0], l4[0], l5[0], l6[0], l7[0],
        ];
        proof {
            let s = self.spec_to_bits()@;
            assert(s.len() == 8);
            assert forall|j: int| 0 <= j < 8 implies r@[j] == bits8::byte(s[j / 1], j % 1) by {
                assert(s[0] == b.0);
                assert(s[1] == b.1);
                assert(s[2] == b.2);
                assert(s[3] == b.3);
                assert(s[4] == b.4);
                assert(s[5] == b.5);
                assert(s[6] == b.6);
                assert(s[7] == b.7);
            }
        }
        r
    }

    fn from_image(image: [u8; 8]) -> (r: char8) {
        char8::from_bits(
            uchar8(
                bits8::join(image[0]),
                bits8::join(image[1]),
                bits8::join(image[2]),
                bits8::join(image[3]),
                bits8::join(image[4]),
                bits8::join(image[5]),
                bits8::join(image[6]),
                bits8::join(image[7]),
            ),
        )
    }
}

/// Selection between two vectors of type `char8` by a mask of type `char8`.
impl Select<char8> for char8 {
    open spec fn spec_bitselect(self, a: char8, b: char8) -> char8 {
        char8::of(lanes::map3(self@, a@, b@, |m: i8, x: i8, y: i8| bits8::select_signed(m, x, y)))
    }

    open spec fn spec_select(self, a: char8, b: char8) -> char8 {
        char8::of(lanes::map3(self@, a@, b@, |m: i8, x: i8, y: i8| if m < 0 { y } else { x }))
    }

    /// Every bit of the result comes from `b` where the bit of `self` is set
    /// and from `a` where it is not. A lane of `self` that is all ones selects
    /// the whole lane of `b`, one that is all zeros the whole lane of `a`.
    fn bitselect(self, a: char8, b: char8) -> (r: char8)
        ensures
            forall|i: int|
                0 <= i < 8 && self@[i] == bits8::ALL_ONES ==> #[trigger] r@[i] == b@[i],
            forall|i: int|
                0 <= i < 8 && self@[i] == bits8::ALL_ZEROS ==> #[trigger] r@[i] == a@[i],
    {
        proof {
            bits8::lemma_select_signed(self.0, a.0, b.0);
            bits8::lemma_select_signed(self.1, a.1, b.1);
            bits8::lemma_select_signed(self.2, a.2, b.2);
            bits8::lemma_select_signed(self.3, a.3, b.3);
            bits8::lemma_select_signed(self.4, a.4, b.4);
            bits8::lemma_select_signed(self.5, a.5, b.5);
            bits8::lemma_select_signed(self.6, a.6, b.6);
            bits8::lemma_select_signed(self.7, a.7, b.7);
        }
        a.bitand(self.not()).bitor(b.bitand(self))
    }

    /// Every lane of the result is the lane of `b` where the sign bit of the
    /// lane of `self` is set, and the lane of `a` where it is not.
    fn select(self, a: char8, b: char8) -> (r: char8) {
        let sign = self.shr(char8::broadcast(bits8::SIGN_SHIFT));
        proof {
            bits8::lemma_select_by_sign_signed(self.0, a.0, b.0);
            bits8::lemma_select_by_sign_signed(self.1, a.1, b.1);
            bits8::lemma_select_by_sign_signed(self.2, a.2, b.2);
            bits8::lemma_select_by_sign_signed(self.3, a.3, b.3);
            bits8::lemma_select_by_sign_signed(self.4, a.4, b.4);
            bits8::lemma_select_by_sign_signed(self.5, a.5, b.5);
            bits8::lemma_select_by_sign_signed(self.6, a.6, b.6);
            bits8::lemma_select_by_sign_signed(self.7, a.7, b.7);
        }
        sign.bitselect(a, b)
    }
}

/// Selection between two vectors of type `uchar8` by a mask of type `char8`.
impl Select<uchar8> for char8 {
    open spec fn spec_bitselect(self, a: uchar8, b: uchar8) -> uchar8 {
        uchar8::of(
            lanes::map3(self@, a@, b@, |m: i8, x: u8, y: u8| bits8::select_unsigned(m, x, y)),
        )
    }

    open spec fn spec_select(self, a: uchar8, b: uchar8) -> uchar8 {
        uchar8::of(lanes::map3(self@, a@, b@, |m: i8, x: u8, y: u8| if m < 0 { y } else { x }))
    }

    /// Every bit of the result comes from `b` where the bit of `self` is set
    /// and from `a` where it is not. A lane of `self` that is all ones selects
    /// the whole lane of `b`, one that is all zeros the whole lane of `a`.
    fn bitselect(self, a: uchar8, b: uchar8) -> (r: uchar8)
        ensures
            forall|i: int|
                0 <= i < 8 && self@[i] == bits8::ALL_ONES ==> #[trigger] r@[i] == b@[i],
            forall|i: int|
                0 <= i < 8 && self@[i] == bits8::ALL_ZEROS ==> #[trigger] r@[i] == a@[i],
    {
        proof {
            bits8::lemma_select_unsigned(self.0, a.0, b.0);
            bits8::lemma_select_unsigned(self.1, a.1, b.1);
            bits8::lemma_select_unsigned(self.2, a.2, b.2);
            bits8::lemma_select_unsigned(self.3, a.3, b.3);
            bits8::lemma_select_unsigned(self.4, a.4, b.4);
            bits8::lemma_select_unsigned(self.5, a.5, b.5);
            bits8::lemma_select_unsigned(self.6, a.6, b.6);
            bits8::lemma_select_unsigned(self.7, a.7, b.7);
        }
        self.bitselect(char8::from_bits(a), char8::from_bits(b)).to_bits()
    }

    /// Every lane of the result is the lane of `b` where the sign bit of the
    /// lane of `self` is set, and the lane of `a` where it is not.
    fn select(self, a: uchar8, b: uchar8) -> (r: uchar8) {
        let sign = self.shr(char8::broadcast(bits8::SIGN_SHIFT));
        proof {
            bits8::lemma_select_by_sign_unsigned(self.0, a.0, b.0);
            bits8::lemma_select_by_sign_unsigned(self.1, a.1, b.1);
            bits8::lemma_select_by_sign_unsigned(self.2, a.2, b.2);
            bits8::lemma_select_by_sign_unsigned(self.3, a.3, b.3);
            bits8::lemma_select_by_sign_unsigned(self.4, a.4, b.4);
            bits8::lemma_select_by_sign_unsigned(self.5, a.5, b.5);
            bits8::lemma_select_by_sign_unsigned(self.6, a.6, b.6);
            bits8::lemma_select_by_sign_unsigned(self.7, a.7, b.7);
        }
        sign.bitselect(a, b)
    }
}

/// Lane-wise sum, wrapping on overflow.
impl core::ops::Add for char8 {
    type Output = char8;

    fn add(self, rhs: char8) -> (r: char8) {
        char8(
            self.0.wrapping_add(rhs.0),
            self.1.wrapping_add(rhs.1),
            self.2.wrapping_add(rhs.2),
            self.3.wrapping_add(rhs.3),
            self.4.wrapping_add(rhs.4),
            self.5.wrapping_add(rhs.5),
            self.6.wrapping_add(rhs.6),
            self.7.wrapping_add(rhs.7),
        )
    }
}

impl vstd::std_specs::ops::AddSpecImpl for char8 {
    open spec fn obeys_add_spec() -> bool {
        true
    }

    open spec fn add_req(self, rhs: char8) -> bool {
        true
    }

    open spec fn add_spec(self, rhs: char8) -> char8 {
        char8::of(lanes::map2(self@, rhs@, |x: i8, y: i8| x.wrapping_add(y)))
    }
}

/// The same with `rhs` in every lane of the right operand.
impl core::ops::Add<i8> for char8 {
    type Output = char8;

    fn add(self, rhs: i8) -> (r: char8) {
        self.add(char8::broadcast(rhs))
    }
}

impl vstd::std_specs::ops::AddSpecImpl<i8> for char8 {
    open spec fn obeys_add_spec() -> bool {
        true
    }

    open spec fn add_req(self, rhs: i8) -> bool {
        true
    }

    open spec fn add_spec(self, rhs: i8) -> char8 {
        vstd::std_specs::ops::AddSpec::add_spec(self, char8::broadcast(rhs))
    }
}

/// The same with `self` in every lane of the left operand.
impl core::ops::Add<char8> for i8 {
    type Output = char8;

    fn add(self, rhs: char8) -> (r: char8) {
        char8::broadcast(self).add(rhs)
    }
}

impl vstd::std_specs::ops::AddSpecImpl<char8> for i8 {
    open spec fn obeys_add_spec() -> bool {
        true
    }

    open spec fn add_req(self, rhs: char8) -> bool {
        true
    }

    open spec fn add_spec(self, rhs: char8) -> char8 {
        vstd::std_specs::ops::AddSpec::add_spec(char8::broadcast(self), rhs)
    }
}

/// Lane-wise difference, wrapping on overflow.
impl core::ops::Sub for char8 {
    type Output = char8;

    fn sub(self, rhs: char8) -> (r: char8) {
        char8(
            self.0.wrapping_sub(rhs.0),
            self.1.wrapping_sub(rhs.1),
            self.2.wrapping_sub(rhs.2),
            self.3.wrapping_sub(rhs.3),
            self.4.wrapping_sub(rhs.4),
            self.5.wrapping_sub(rhs.5),
            self.6.wrapping_sub(rhs.6),
            self.7.wrapping_sub(rhs.7),
        )
    }
}

impl vstd::std_specs::ops::SubSpecImpl for char8 {
    open spec fn obeys_sub_spec() -> bool {
        true
    }

    open spec fn sub_req(self, rhs: char8) -> bool {
        true
    }

    open spec fn sub_spec(self, rhs: char8) -> char8 {
        char8::of(lanes::map2(self@, rhs@, |x: i8, y: i8| x.wrapping_sub(y)))
    }
}

/// The same with `rhs` in every lane of the right operand.
impl core::ops::Sub<i8> for char8 {
    type Output = char8;

    fn sub(self, rhs: i8) -> (r: char8) {
        self.sub(char8::broadcast(rhs))
    }
}

impl vstd::std_specs::ops::SubSpecImpl<i8> for char8 {
    open spec fn obeys_sub_spec() -> bool {
        true
    }

    open spec fn sub_req(self, rhs: i8) -> bool {
        true
    }

    open spec fn sub_spec(self, rhs: i8) -> char8 {
        vstd::std_specs::ops::SubSpec::sub_spec(self, char8::broadcast(rhs))
    }
}

/// The same with `self` in every lane of the left operand.
impl core::ops::Sub<char8> for i8 {
    type Output = char8;

    fn sub(self, rhs: char8) -> (r: char8) {
        char8::broadcast(self).sub(rhs)
    }
}

impl vstd::std_specs::ops::SubSpecImpl<char8> for i8 {
    open spec fn obeys_sub_spec() -> bool {
        true
    }

    open spec fn sub_req(self, rhs: char8) -> bool {
        true
    }

    open spec fn sub_spec(self, rhs: char8) -> char8 {
        vstd::std_specs::ops::SubSpec::sub_spec(char8::broadcast(self), rhs)
    }
}

/// Lane-wise product, wrapping on overflow.
impl core::ops::Mul for char8 {
    type Output = char8;

    fn mul(self, rhs: char8) -> (r: char8) {
        char8(
            self.0.wrapping_mul(rhs.0),
            self.1.wrapping_mul(rhs.1),
            self.2.wrapping_mul(rhs.2),
            self.3.wrapping_mul(rhs.3),
            self.4.wrapping_mul(rhs.4),
            self.5.wrapping_mul(rhs.5),
            self.6.wrapping_mul(rhs.6),
            self.7.wrapping_mul(rhs.7),
        )
    }
}

impl vstd::std_specs::ops::MulSpecImpl for char8 {
    open spec fn obeys_mul_spec() -> bool {
        true
    }

    open spec fn mul_req(self, rhs: char8) -> bool {
        true
    }

    open spec fn mul_spec(self, rhs: char8) -> char8 {
        char8::of(lanes::map2(self@, rhs@, |x: i8, y: i8| x.wrapping_mul(y)))
    }
}

/// The same with `rhs` in every lane of the right operand.
impl core::ops::Mul<i8> for char8 {
    type Output = char8;

    fn mul(self, rhs: i8) -> (r: char8) {
        self.mul(char8::broadcast(rhs))
    }
}

impl vstd::std_specs::ops::MulSpecImpl<i8> for char8 {
    open spec fn obeys_mul_spec() -> bool {
        true
    }

    open spec fn mul_req(self, rhs: i8) -> bool {
        true
    }

    open spec fn mul_spec(self, rhs: i8) -> char8 {
        vstd::std_specs::ops::MulSpec::mul_spec(self, char8::broadcast(rhs))
    }
}

/// The same with `self` in every lane of the left operand.
impl core::ops::Mul<char8> for i8 {
    type Output = char8;

    fn mul(self, rhs: char8) -> (r: char8) {
        char8::broadcast(self).mul(rhs)
    }
}

impl vstd::std_specs::ops::MulSpecImpl<char8> for i8 {
    open spec fn obeys_mul_spec() -> bool {
        true
    }

    open spec fn mul_req(self, rhs: char8) -> bool {
        true
    }

    open spec fn mul_spec(self, rhs: char8) -> char8 {
        vstd::std_specs::ops::MulSpec::mul_spec(char8::broadcast(self), rhs)
    }
}

/// Lane-wise quotient, rounded towards zero. No lane of the divisor may be
/// zero.
impl core::ops::Div for char8 {
    type Output = char8;

    fn div(self, rhs: char8) -> (r: char8) {
        char8(
            bits8::wrapping_div(self.0, rhs.0),
            bits8::wrapping_div(self.1, rhs.1),
            bits8::wrapping_div(self.2, rhs.2),
            bits8::wrapping_div(self.3, rhs.3),
            bits8::wrapping_div(self.4, rhs.4),
            bits8::wrapping_div(self.5, rhs.5),
            bits8::wrapping_div(self.6, rhs.6),
            bits8::wrapping_div(self.7, rhs.7),
        )
    }
}

impl vstd::std_specs::ops::DivSpecImpl for char8 {
    open spec fn obeys_div_spec() -> bool {
        true
    }

    open spec fn div_req(self, rhs: char8) -> bool {
        &&& rhs.0 != 0
        &&& rhs.1 != 0
        &&& rhs.2 != 0
        &&& rhs.3 != 0
        &&& rhs.4 != 0
        &&& rhs.5 != 0
        &&& rhs.6 != 0
        &&& rhs.7 != 0
    }

    open spec fn div_spec(self, rhs: char8) -> char8 {
        char8::of(lanes::map2(self@, rhs@, |x: i8, y: i8| bits8::spec_wrapping_div(x, y)))
    }
}

/// The same with `rhs` in every lane of the right operand.
impl core::ops::Div<i8> for char8 {
    type Output = char8;

    fn div(self, rhs: i8) -> (r: char8) {
        self.div(char8::broadcast(rhs))
    }
}

impl vstd::std_specs::ops::DivSpecImpl<i8> for char8 {
    open spec fn obeys_div_spec() -> bool {
        true
    }

    open spec fn div_req(self, rhs: i8) -> bool {
        rhs != 0
    }

    open spec fn div_spec(self, rhs: i8) -> char8 {
        vstd::std_specs::ops::DivSpec::div_spec(self, char8::broadcast(rhs))
    }
}

/// The same with `self` in every lane of the left operand.
impl core::ops::Div<char8> for i8 {
    type Output = char8;

    fn div(self, rhs: char8) -> (r: char8) {
        char8::broadcast(self).div(rhs)
    }
}

impl vstd::std_specs::ops::DivSpecImpl<char8> for i8 {
    open spec fn obeys_div_spec() -> bool {
        true
    }

    open spec fn div_req(self, rhs: char8) -> bool {
        &&& rhs.0 != 0
        &&& rhs.1 != 0
        &&& rhs.2 != 0
        &&& rhs.3 != 0
        &&& rhs.4 != 0
        &&& rhs.5 != 0
        &&& rhs.6 != 0
        &&& rhs.7 != 0
    }

    open spec fn div_spec(self, rhs: char8) -> char8 {
        vstd::std_specs::ops::DivSpec::div_spec(char8::broadcast(self), rhs)
    }
}

/// Lane-wise conjunction of the bits.
impl core::ops::BitAnd for char8 {
    type Output = char8;

    fn bitand(self, rhs: char8) -> (r: char8) {
        char8(
            self.0 & rhs.0,
            self.1 & rhs.1,
            self.2 & rhs.2,
            self.3 & rhs.3,
            self.4 & rhs.4,
            self.5 & rhs.5,
            self.6 & rhs.6,
            self.7 & rhs.7,
        )
    }
}

impl vstd::std_specs::ops::BitAndSpecImpl for char8 {
    open spec fn obeys_bitand_spec() -> bool {
        true
    }

    open spec fn bitand_req(self, rhs: char8) -> bool {
        true
    }

    open spec fn bitand_spec(self, rhs: char8) -> char8 {
        char8::of(lanes::map2(self@, rhs@, |x: i8, y: i8| x & y))
    }
}

/// The same with `rhs` in every lane of the right operand.
impl core::ops::BitAnd<i8> for char8 {
    type Output = char8;

    fn bitand(self, rhs: i8) -> (r: char8) {
        self.bitand(char8::broadcast(rhs))
    }
}

impl vstd::std_specs::ops::BitAndSpecImpl<i8> for char8 {
    open spec fn obeys_bitand_spec() -> bool {
        true
    }

    open spec fn bitand_req(self, rhs: i8) -> bool {
        true
    }

    open spec fn bitand_spec(self, rhs: i8) -> char8 {
        vstd::std_specs::ops::BitAndSpec::bitand_spec(self, char8::broadcast(rhs))
    }
}

/// The same with `self` in every lane of the left operand.
impl core::ops::BitAnd<char8> for i8 {
    type Output = char8;

    fn bitand(self, rhs: char8) -> (r: char8) {
        char8::broadcast(self).bitand(rhs)
    }
}

impl vstd::std_specs::ops::BitAndSpecImpl<char8> for i8 {
    open spec fn obeys_bitand_spec() -> bool {
        true
    }

    open spec fn bitand_req(self, rhs: char8) -> bool {
        true
    }

    open spec fn bitand_spec(self, rhs: char8) -> char8 {
        vstd::std_specs::ops::BitAndSpec::bitand_spec(char8::broadcast(self), rhs)
    }
}

/// Lane-wise disjunction of the bits.
impl core::ops::BitOr for char8 {
    type Output = char8;

    fn bitor(self, rhs: char8) -> (r: char8) {
        char8(
            self.0 | rhs.0,
            self.1 | rhs.1,
            self.2 | rhs.2,
            self.3 | rhs.3,
            self.4 | rhs.4,
            self.5 | rhs.5,
            self.6 | rhs.6,
            self.7 | rhs.7,
        )
    }
}

impl vstd::std_specs::ops::BitOrSpecImpl for char8 {
    open spec fn obeys_bitor_spec() -> bool {
        true
    }

    open spec fn bitor_req(self, rhs: char8) -> bool {
        true
    }

    open spec fn bitor_spec(self, rhs: char8) -> char8 {
        char8::of(lanes::map2(self@, rhs@, |x: i8, y: i8| x | y))
    }
}

/// The same with `rhs` in every lane of the right operand.
impl core::ops::BitOr<i8> for char8 {
    type Output = char8;

    fn bitor(self, rhs: i8) -> (r: char8) {
        self.bitor(char8::broadcast(rhs))
    }
}

impl vstd::std_specs::ops::BitOrSpecImpl<i8> for char8 {
    open spec fn obeys_bitor_spec() -> bool {
        true
    }

    open spec fn bitor_req(self, rhs: i8) -> bool {
        true
    }

    open spec fn bitor_spec(self, rhs: i8) -> char8 {
        vstd::std_specs::ops::BitOrSpec::bitor_spec(self, char8::broadcast(rhs))
    }
}

/// The same with `self` in every lane of the left operand.
impl core::ops::BitOr<char8> for i8 {
    type Output = char8;

    fn bitor(self, rhs: char8) -> (r: char8) {
        char8::broadcast(self).bitor(rhs)
    }
}

impl vstd::std_specs::ops::BitOrSpecImpl<char8> for i8 {
    open spec fn obeys_bitor_spec() -> bool {
        true
    }

    open spec fn bitor_req(self, rhs: char8) -> bool {
        true
    }

    open spec fn bitor_spec(self, rhs: char8) -> char8 {
        vstd::std_specs::ops::BitOrSpec::bitor_spec(char8::broadcast(self), rhs)
    }
}

/// Lane-wise exclusive disjunction of the bits.
impl core::ops::BitXor for char8 {
    type Output = char8;

    fn bitxor(self, rhs: char8) -> (r: char8) {
        char8(
            self.0 ^ rhs.0,
            self.1 ^ rhs.1,
            self.2 ^ rhs.2,
            self.3 ^ rhs.3,
            self.4 ^ rhs.4,
            self.5 ^ rhs.5,
            self.6 ^ rhs.6,
            self.7 ^ rhs.7,
        )
    }
}

impl vstd::std_specs::ops::BitXorSpecImpl for char8 {
    open spec fn obeys_bitxor_spec() -> bool {
        true
    }

    open spec fn bitxor_req(self, rhs: char8) -> bool {
        true
    }

    open spec fn bitxor_spec(self, rhs: char8) -> char8 {
        char8::of(lanes::map2(self@, rhs@, |x: i8, y: i8| x ^ y))
    }
}

/// The same with `rhs` in every lane of the right operand.
impl core::ops::BitXor<i8> for char8 {
    type Output = char8;

    fn bitxor(self, rhs: i8) -> (r: char8) {
        self.bitxor(char8::broadcast(rhs))
    }
}

impl vstd::std_specs::ops::BitXorSpecImpl<i8> for char8 {
    open spec fn obeys_bitxor_spec() -> bool {
        true
    }

    open spec fn bitxor_req(self, rhs: i8) -> bool {
        true
    }

    open spec fn bitxor_spec(self, rhs: i8) -> char8 {
        vstd::std_specs::ops::BitXorSpec::bitxor_spec(self, char8::broadcast(rhs))
    }
}

/// The same with `self` in every lane of the left operand.
impl core::ops::BitXor<char8> for i8 {
    type Output = char8;

    fn bitxor(self, rhs: char8) -> (r: char8) {
        char8::broadcast(self).bitxor(rhs)
    }
}

impl vstd::std_specs::ops::BitXorSpecImpl<char8> for i8 {
    open spec fn obeys_bitxor_spec() -> bool {
        true
    }

    open spec fn bitxor_req(self, rhs: char8) -> bool {
        true
    }

    open spec fn bitxor_spec(self, rhs: char8) -> char8 {
        vstd::std_specs::ops::BitXorSpec::bitxor_spec(char8::broadcast(self), rhs)
    }
}

/// Lane-wise shift to the left. Every distance must be less than the width of
/// a lane.
impl core::ops::Shl for char8 {
    type Output = char8;

    fn shl(self, rhs: char8) -> (r: char8) {
        char8(
            self.0 << rhs.0,
            self.1 << rhs.1,
            self.2 << rhs.2,
            self.3 << rhs.3,
            self.4 << rhs.4,
            self.5 << rhs.5,
            self.6 << rhs.6,
            self.7 << rhs.7,
        )
    }
}

impl vstd::std_specs::ops::ShlSpecImpl for char8 {
    open spec fn obeys_shl_spec() -> bool {
        true
    }

    open spec fn shl_req(self, rhs: char8) -> bool {
        &&& bits8::shift_in_range_signed(rhs.0)
        &&& bits8::shift_in_range_signed(rhs.1)
        &&& bits8::shift_in_range_signed(rhs.2)
        &&& bits8::shift_in_range_signed(rhs.3)
        &&& bits8::shift_in_range_signed(rhs.4)
        &&& bits8::shift_in_range_signed(rhs.5)
        &&& bits8::shift_in_range_signed(rhs.6)
        &&& bits8::shift_in_range_signed(rhs.7)
    }

    open spec fn shl_spec(self, rhs: char8) -> char8 {
        char8::of(lanes::map2(self@, rhs@, |x: i8, y: i8| bits8::shl_signed(x, y)))
    }
}

/// The same with `rhs` in every lane of the right operand.
impl core::ops::Shl<i8> for char8 {
    type Output = char8;

    fn shl(self, rhs: i8) -> (r: char8) {
        self.shl(char8::broadcast(rhs))
    }
}

impl vstd::std_specs::ops::ShlSpecImpl<i8> for char8 {
    open spec fn obeys_shl_spec() -> bool {
        true
    }

    open spec fn shl_req(self, rhs: i8) -> bool {
        bits8::shift_in_range_signed(rhs)
    }

    open spec fn shl_spec(self, rhs: i8) -> char8 {
        vstd::std_specs::ops::ShlSpec::shl_spec(self, char8::broadcast(rhs))
    }
}

/// The same with `self` in every lane of the left operand.
impl core::ops::Shl<char8> for i8 {
    type Output = char8;

    fn shl(self, rhs: char8) -> (r: char8) {
        char8::broadcast(self).shl(rhs)
    }
}

impl vstd::std_specs::ops::ShlSpecImpl<char8> for i8 {
    open spec fn obeys_shl_spec() -> bool {
        true
    }

    open spec fn shl_req(self, rhs: char8) -> bool {
        &&& bits8::shift_in_range_signed(rhs.0)
        &&& bits8::shift_in_range_signed(rhs.1)
        &&& bits8::shift_in_range_signed(rhs.2)
        &&& bits8::shift_in_range_signed(rhs.3)
        &&& bits8::shift_in_range_signed(rhs.4)
        &&& bits8::shift_in_range_signed(rhs.5)
        &&& bits8::shift_in_range_signed(rhs.6)
        &&& bits8::shift_in_range_signed(rhs.7)
    }

    open spec fn shl_spec(self, rhs: char8) -> char8 {
        vstd::std_specs::ops::ShlSpec::shl_spec(char8::broadcast(self), rhs)
    }
}

/// Lane-wise shift to the right. Every distance must be less than the width of
/// a lane.
impl core::ops::Shr for char8 {
    type Output = char8;

    fn shr(self, rhs: char8) -> (r: char8) {
        char8(
            self.0 >> rhs.0,
            self.1 >> rhs.1,
            self.2 >> rhs.2,
            self.3 >> rhs.3,
            self.4 >> rhs.4,
            self.5 >> rhs.5,
            self.6 >> rhs.6,
            self.7 >> rhs.7,
        )
    }
}

impl vstd::std_specs::ops::ShrSpecImpl for char8 {
    open spec fn obeys_shr_spec() -> bool {
        true
    }

    open spec fn shr_req(self, rhs: char8) -> bool {
        &&& bits8::shift_in_range_signed(rhs.0)
        &&& bits8::shift_in_range_signed(rhs.1)
        &&& bits8::shift_in_range_signed(rhs.2)
        &&& bits8::shift_in_range_signed(rhs.3)
        &&& bits8::shift_in_range_signed(rhs.4)
        &&& bits8::shift_in_range_signed(rhs.5)
        &&& bits8::shift_in_range_signed(rhs.6)
        &&& bits8::shift_in_range_signed(rhs.7)
    }

    open spec fn shr_spec(self, rhs: char8) -> char8 {
        char8::of(lanes::map2(self@, rhs@, |x: i8, y: i8| bits8::shr_signed(x, y)))
    }
}

/// The same with `rhs` in every lane of the right operand.
impl core::ops::Shr<i8> for char8 {
    type Output = char8;

    fn shr(self, rhs: i8) -> (r: char8) {
        self.shr(char8::broadcast(rhs))
    }
}

impl vstd::std_specs::ops::ShrSpecImpl<i8> for char8 {
    open spec fn obeys_shr_spec() -> bool {
        true
    }

    open spec fn shr_req(self, rhs: i8) -> bool {
        bits8::shift_in_range_signed(rhs)
    }

    open spec fn shr_spec(self, rhs: i8) -> char8 {
        vstd::std_specs::ops::ShrSpec::shr_spec(self, char8::broadcast(rhs))
    }
}

/// The same with `self` in every lane of the left operand.
impl core::ops::Shr<char8> for i8 {
    type Output = char8;

    fn shr(self, rhs: char8) -> (r: char8) {
        char8::broadcast(self).shr(rhs)
    }
}

impl vstd::std_specs::ops::ShrSpecImpl<char8> for i8 {
    open spec fn obeys_shr_spec() -> bool {
        true
    }

    open spec fn shr_req(self, rhs: char8) -> bool {
        &&& bits8::shift_in_range_signed(rhs.0)
        &&& bits8::shift_in_range_signed(rhs.1)
        &&& bits8::shift_in_range_signed(rhs.2)
        &&& bits8::shift_in_range_signed(rhs.3)
        &&& bits8::shift_in_range_signed(rhs.4)
        &&& bits8::shift_in_range_signed(rhs.5)
        &&& bits8::shift_in_range_signed(rhs.6)
        &&& bits8::shift_in_range_signed(rhs.7)
    }

    open spec fn shr_spec(self, rhs: char8) -> char8 {
        vstd::std_specs::ops::ShrSpec::shr_spec(char8::broadcast(self), rhs)
    }
}

/// Lane-wise inversion of the bits.
impl core::ops::Not for char8 {
    type Output = char8;

    fn not(self) -> (r: char8) {
        char8(!self.0, !self.1, !self.2, !self.3, !self.4, !self.5, !self.6, !self.7)
    }
}

impl vstd::std_specs::ops::NotSpecImpl for char8 {
    open spec fn obeys_not_spec() -> bool {
        true
    }

    open spec fn not_req(self) -> bool {
        true
    }

    open spec fn not_spec(self) -> char8 {
        char8::of(lanes::map1(self@, |x: i8| bits8::not_signed(x)))
    }
}

} // verus!
