//! `short8`: eight lanes of `i16`.
use crate::bitcast::Bitcast;
use crate::bits16;
use crate::bits8;
use crate::bits32;
use crate::bits64;
use crate::lanes;
use crate::select::Select;
use crate::vector::char8::char8;
use crate::vector::double8::double8;
use crate::vector::float8::float8;
use crate::vector::int8::int8;
use crate::vector::long8::long8;
use crate::vector::short4::short4;
use crate::vector::uchar8::uchar8;
use crate::vector::uint8::uint8;
use crate::vector::ulong8::ulong8;
use crate::vector::ushort8::ushort8;
use core::ops::{Add, BitAnd, BitOr, BitXor, Div, Mul, Not, Shl, Shr, Sub};
use vstd::prelude::*;

verus! {

/// Eight lanes of `i16`.
#[allow(non_camel_case_types)]
#[derive(Clone, Copy, Debug, PartialEq, Eq, Structural)]
pub struct short8(pub i16, pub i16, pub i16, pub i16, pub i16, pub i16, pub i16, pub i16);

impl View for short8 {
    type V = Seq<i16>;

    /// The lanes in order, lane 0 first.
    open spec fn view(&self) -> Seq<i16> {
        Seq::new(8, |i: int| self.lane(i))
    }
}

impl short8 {
    /// Lane `i` of the vector.
    pub open spec fn lane(self, i: int) -> i16 {
        if i == 0 {
            self.0
        } else if i == 1 {
            self.1
        } else if i == 2 {
            self.2
        } else if i == 3 {
            self.3
        } else if i == 4 {
            self.4
        } else if i == 5 {
            self.5
        } else if i == 6 {
            self.6
        } else {
            self.7
        }
    }

    /// The vector whose lanes are the first eight entries of `s`.
    pub open spec fn of(s: Seq<i16>) -> short8 {
        short8(s[0], s[1], s[2], s[3], s[4], s[5], s[6], s[7])
    }

    /// The vector with `x` in every lane.
    pub open spec fn spec_broadcast(x: i16) -> short8 {
        short8::of(lanes::splat(x, 8))
    }

    /// Fills every lane with `x`.
    #[verifier::when_used_as_spec(spec_broadcast)]
    pub fn broadcast(x: i16) -> (r: short8)
        ensures
            r == short8::spec_broadcast(x),
    {
        short8(x, x, x, x, x, x, x, x)
    }

    /// The vector whose lanes have the bit patterns of the lanes of `b`.
    pub open spec fn spec_from_bits(b: ushort8) -> short8 {
        short8::of(lanes::map1(b@, |x: u16| bits16::to_signed(x)))
    }

    /// Reads the lanes of `b` as lanes of this type, bit for bit.
    #[verifier::when_used_as_spec(spec_from_bits)]
    pub fn from_bits(b: ushort8) -> (r: short8)
        ensures
            r == short8::spec_from_bits(b),
    {
        short8(
            #[verifier::truncate] (b.0 as i16),
            #[verifier::truncate] (b.1 as i16),
            #[verifier::truncate] (b.2 as i16),
            #[verifier::truncate] (b.3 as i16),
            #[verifier::truncate] (b.4 as i16),
            #[verifier::truncate] (b.5 as i16),
            #[verifier::truncate] (b.6 as i16),
            #[verifier::truncate] (b.7 as i16),
        )
    }

    /// The unsigned vector whose lanes have the bit patterns of the lanes of
    /// `self`.
    pub open spec fn spec_to_bits(self) -> ushort8 {
        ushort8::of(lanes::map1(self@, |x: i16| bits16::to_unsigned(x)))
    }

    /// Reads the lanes as unsigned lanes, bit for bit.
    #[verifier::when_used_as_spec(spec_to_bits)]
    pub fn to_bits(self) -> (r: ushort8)
        ensures
            r == self.spec_to_bits(),
    {
        ushort8(
            #[verifier::truncate] (self.0 as u16),
            #[verifier::truncate] (self.1 as u16),
            #[verifier::truncate] (self.2 as u16),
            #[verifier::truncate] (self.3 as u16),
            #[verifier::truncate] (self.4 as u16),
            #[verifier::truncate] (self.5 as u16),
            #[verifier::truncate] (self.6 as u16),
            #[verifier::truncate] (self.7 as u16),
        )
    }

    /// The vector of this type that occupies the bytes that `x` occupies.
    pub open spec fn spec_bitcast<T: Bitcast<Image = [u8; 16]>>(x: T) -> short8 {
        short8::spec_from_image(x.spec_image())
    }

    /// Reinterprets the bytes of `x` as a vector of this type. `x` may be of
    /// any vector type that occupies 16 bytes; a type of another size is not
    /// accepted. No bit is dropped or made up.
    #[verifier::when_used_as_spec(spec_bitcast)]
    pub fn bitcast<T: Bitcast<Image = [u8; 16]>>(x: T) -> (r: short8)
        ensures
            r == short8::spec_bitcast(x),
    {
        short8::from_image(x.image())
    }

    /// Lane `i`, for `i` below 8.
    pub open spec fn spec_extract(self, i: u32) -> i16 {
        self@[i as int]
    }

    /// Reads lane `i`.
    #[verifier::when_used_as_spec(spec_extract)]
    pub fn extract(self, i: u32) -> (r: i16)
        requires
            i < 8,
        ensures
            r == self.spec_extract(i),
    {
        if i == 0 {
            self.0
        } else if i == 1 {
            self.1
        } else if i == 2 {
            self.2
        } else if i == 3 {
            self.3
        } else if i == 4 {
            self.4
        } else if i == 5 {
            self.5
        } else if i == 6 {
            self.6
        } else {
            self.7
        }
    }

    /// The vector with lane `i` replaced by `x`, for `i` below 8.
    pub open spec fn spec_replace(self, i: u32, x: i16) -> short8 {
        short8::of(self@.update(i as int, x))
    }

    /// Replaces lane `i` by `x` and leaves the other lanes as they are.
    #[verifier::when_used_as_spec(spec_replace)]
    pub fn replace(self, i: u32, x: i16) -> (r: short8)
        requires
            i < 8,
        ensures
            r == self.spec_replace(i, x),
    {
        if i == 0 {
            short8(x, self.1, self.2, self.3, self.4, self.5, self.6, self.7)
        } else if i == 1 {
            short8(self.0, x, self.2, self.3, self.4, self.5, self.6, self.7)
        } else if i == 2 {
            short8(self.0, self.1, x, self.3, self.4, self.5, self.6, self.7)
        } else if i == 3 {
            short8(self.0, self.1, self.2, x, self.4, self.5, self.6, self.7)
        } else if i == 4 {
            short8(self.0, self.1, self.2, self.3, x, self.5, self.6, self.7)
        } else if i == 5 {
            short8(self.0, self.1, self.2, self.3, self.4, x, self.6, self.7)
        } else if i == 6 {
            short8(self.0, self.1, self.2, self.3, self.4, self.5, x, self.7)
        } else {
            short8(self.0, self.1, self.2, self.3, self.4, self.5, self.6, x)
        }
    }

    /// The first half of the lanes.
    pub open spec fn spec_lo(self) -> short4 {
        short4::of(lanes::lower_half(self@, 0))
    }

    /// The first half of the lanes.
    #[verifier::when_used_as_spec(spec_lo)]
    pub fn lo(self) -> (r: short4)
        ensures
            r == self.spec_lo(),
    {
        short4(self.0, self.1, self.2, self.3)
    }

    /// The second half of the lanes.
    pub open spec fn spec_hi(self) -> short4 {
        short4::of(lanes::upper_half(self@, 0))
    }

    /// The second half of the lanes.
    #[verifier::when_used_as_spec(spec_hi)]
    pub fn hi(self) -> (r: short4)
        ensures
            r == self.spec_hi(),
    {
        short4(self.4, self.5, self.6, self.7)
    }

    /// The lanes at even positions.
    pub open spec fn spec_even(self) -> short4 {
        short4::of(lanes::even_lanes(self@, 0))
    }

    /// The lanes at even positions.
    #[verifier::when_used_as_spec(spec_even)]
    pub fn even(self) -> (r: short4)
        ensures
            r == self.spec_even(),
    {
        short4(self.0, self.2, self.4, self.6)
    }

    /// The lanes at odd positions.
    pub open spec fn spec_odd(self) -> short4 {
        short4::of(lanes::odd_lanes(self@, 0))
    }

    /// The lanes at odd positions.
    #[verifier::when_used_as_spec(spec_odd)]
    pub fn odd(self) -> (r: short4)
        ensures
            r == self.spec_odd(),
    {
        short4(self.1, self.3, self.5, self.7)
    }

    /// Whether every lane is all ones or all zeros, as the lanes of the
    /// result of a comparison are.
    pub open spec fn is_mask(self) -> bool {
        forall|i: int| 0 <= i < 8 ==> bits16::is_mask(#[trigger] self@[i])
    }

    /// Whether `f` may give the lanes of `r` for the lanes of `self`.
    pub open spec fn is_map_unary<F: Fn(i16) -> i16>(self, f: F, r: short8) -> bool {
        &&& call_ensures(f, (self.0,), r.0)
        &&& call_ensures(f, (self.1,), r.1)
        &&& call_ensures(f, (self.2,), r.2)
        &&& call_ensures(f, (self.3,), r.3)
        &&& call_ensures(f, (self.4,), r.4)
        &&& call_ensures(f, (self.5,), r.5)
        &&& call_ensures(f, (self.6,), r.6)
        &&& call_ensures(f, (self.7,), r.7)
    }

    /// Applies `f` to every lane. `f` must accept every lane of the vector.
    pub fn map_unary<F: Fn(i16) -> i16>(self, f: &F) -> (r: short8)
        requires
            call_requires(f, (self.0,)),
            call_requires(f, (self.1,)),
            call_requires(f, (self.2,)),
            call_requires(f, (self.3,)),
            call_requires(f, (self.4,)),
            call_requires(f, (self.5,)),
            call_requires(f, (self.6,)),
            call_requires(f, (self.7,)),
        ensures
            self.is_map_unary(*f, r),
    {
        short8(
            f(self.0),
            f(self.1),
            f(self.2),
            f(self.3),
            f(self.4),
            f(self.5),
            f(self.6),
            f(self.7),
        )
    }

    /// Whether `f` may give the lanes of `r` for the lanes of `self` and
    /// `other` at equal positions.
    pub open spec fn is_map_binary<F: Fn(i16, i16) -> i16>(
        self,
        other: short8,
        f: F,
        r: short8,
    ) -> bool {
        &&& call_ensures(f, (self.0, other.0), r.0)
        &&& call_ensures(f, (self.1, other.1), r.1)
        &&& call_ensures(f, (self.2, other.2), r.2)
        &&& call_ensures(f, (self.3, other.3), r.3)
        &&& call_ensures(f, (self.4, other.4), r.4)
        &&& call_ensures(f, (self.5, other.5), r.5)
        &&& call_ensures(f, (self.6, other.6), r.6)
        &&& call_ensures(f, (self.7, other.7), r.7)
    }

    /// Applies `f` to the lanes of `self` and `other` at equal positions. `f`
    /// must accept every such pair.
    pub fn map_binary<F: Fn(i16, i16) -> i16>(self, other: short8, f: &F) -> (r: short8)
        requires
            call_requires(f, (self.0, other.0)),
            call_requires(f, (self.1, other.1)),
            call_requires(f, (self.2, other.2)),
            call_requires(f, (self.3, other.3)),
            call_requires(f, (self.4, other.4)),
            call_requires(f, (self.5, other.5)),
            call_requires(f, (self.6, other.6)),
            call_requires(f, (self.7, other.7)),
        ensures
            self.is_map_binary(other, *f, r),
    {
        short8(
            f(self.0, other.0),
            f(self.1, other.1),
            f(self.2, other.2),
            f(self.3, other.3),
            f(self.4, other.4),
            f(self.5, other.5),
            f(self.6, other.6),
            f(self.7, other.7),
        )
    }

    /// Whether `r` may come of gathering the lanes with `f`, lane 0 first.
    pub open spec fn is_reduce<F: Fn(i16, i16) -> i16>(self, f: F, r: i16) -> bool {
        exists|a1: i16, a2: i16, a3: i16, a4: i16, a5: i16, a6: i16|
            {
                &&& call_ensures(f, (self.1, self.0), a1)
                &&& call_ensures(f, (self.2, a1), a2)
                &&& call_ensures(f, (self.3, a2), a3)
                &&& call_ensures(f, (self.4, a3), a4)
                &&& call_ensures(f, (self.5, a4), a5)
                &&& call_ensures(f, (self.6, a5), a6)
                &&& call_ensures(f, (self.7, a6), r)
            }
    }

    /// Combines the lanes into one value with `f`, lane 0 first: each
    /// further lane is handed to `f` together with what was gathered from the
    /// lanes before it. `f` must accept every pair of values.
    pub fn reduce<F: Fn(i16, i16) -> i16>(self, f: &F) -> (r: i16)
        requires
            forall|x: i16, y: i16| call_requires(f, (x, y)),
        ensures
            self.is_reduce(*f, r),
    {
        let a1 = f(self.1, self.0);
        let a2 = f(self.2, a1);
        let a3 = f(self.3, a2);
        let a4 = f(self.4, a3);
        let a5 = f(self.5, a4);
        let a6 = f(self.6, a5);
        f(self.7, a6)
    }

    /// Whether `r` may come of reducing the lanes with `f`, by halving: the
    /// first half is combined with the second, lane by lane, and the result is
    /// reduced in turn.
    pub open spec fn is_fold<F: Fn(i16, i16) -> i16>(self, f: F, r: i16) -> bool {
        exists|h: short4|
            #[trigger] self.spec_lo().is_map_binary(self.spec_hi(), f, h) && h.is_fold(f, r)
    }

    /// Reduces the lanes to one value with `f`, in the order of the
    /// reductions: by halving: the first half is combined with the second,
    /// lane by lane, and the result is reduced in turn. `f` must accept every
    /// pair of values.
    pub fn fold<F: Fn(i16, i16) -> i16>(self, f: &F) -> (r: i16)
        requires
            forall|x: i16, y: i16| call_requires(f, (x, y)),
        ensures
            self.is_fold(*f, r),
    {
        let h = self.lo().map_binary(self.hi(), f);
        h.fold(f)
    }

    /// The mask with all ones in the lanes where the lanes of `self` and
    /// `other` satisfy `==`, and all zeros in the others.
    pub open spec fn spec_eq(self, other: short8) -> short8 {
        short8::of(lanes::map2(self@, other@, |x: i16, y: i16| bits16::mask(x == y)))
    }

    /// Compares lane by lane with `==`. Every lane of the result is all ones
    /// or all zeros.
    #[verifier::when_used_as_spec(spec_eq)]
    pub fn eq(self, other: short8) -> (r: short8)
        ensures
            r == self.spec_eq(other),
            r.is_mask(),
    {
        short8(
            bits16::mask_of(self.0 == other.0),
            bits16::mask_of(self.1 == other.1),
            bits16::mask_of(self.2 == other.2),
            bits16::mask_of(self.3 == other.3),
            bits16::mask_of(self.4 == other.4),
            bits16::mask_of(self.5 == other.5),
            bits16::mask_of(self.6 == other.6),
            bits16::mask_of(self.7 == other.7),
        )
    }

    /// The mask with all ones in the lanes where the lanes of `self` and
    /// `other` satisfy `!=`, and all zeros in the others.
    pub open spec fn spec_ne(self, other: short8) -> short8 {
        short8::of(lanes::map2(self@, other@, |x: i16, y: i16| bits16::mask(x != y)))
    }

    /// Compares lane by lane with `!=`. Every lane of the result is all ones
    /// or all zeros.
    #[verifier::when_used_as_spec(spec_ne)]
    pub fn ne(self, other: short8) -> (r: short8)
        ensures
            r == self.spec_ne(other),
            r.is_mask(),
    {
        short8(
            bits16::mask_of(self.0 != other.0),
            bits16::mask_of(self.1 != other.1),
            bits16::mask_of(self.2 != other.2),
            bits16::mask_of(self.3 != other.3),
            bits16::mask_of(self.4 != other.4),
            bits16::mask_of(self.5 != other.5),
            bits16::mask_of(self.6 != other.6),
            bits16::mask_of(self.7 != other.7),
        )
    }

    /// The mask with all ones in the lanes where the lanes of `self` and
    /// `other` satisfy `<`, and all zeros in the others.
    pub open spec fn spec_lt(self, other: short8) -> short8 {
        short8::of(lanes::map2(self@, other@, |x: i16, y: i16| bits16::mask(x < y)))
    }

    /// Compares lane by lane with `<`. Every lane of the result is all ones
    /// or all zeros.
    #[verifier::when_used_as_spec(spec_lt)]
    pub fn lt(self, other: short8) -> (r: short8)
        ensures
            r == self.spec_lt(other),
            r.is_mask(),
    {
        short8(
            bits16::mask_of(self.0 < other.0),
            bits16::mask_of(self.1 < other.1),
            bits16::mask_of(self.2 < other.2),
            bits16::mask_of(self.3 < other.3),
            bits16::mask_of(self.4 < other.4),
            bits16::mask_of(self.5 < other.5),
            bits16::mask_of(self.6 < other.6),
            bits16::mask_of(self.7 < other.7),
        )
    }

    /// The mask with all ones in the lanes where the lanes of `self` and
    /// `other` satisfy `<=`, and all zeros in the others.
    pub open spec fn spec_le(self, other: short8) -> short8 {
        short8::of(lanes::map2(self@, other@, |x: i16, y: i16| bits16::mask(x <= y)))
    }

    /// Compares lane by lane with `<=`. Every lane of the result is all ones
    /// or all zeros.
    #[verifier::when_used_as_spec(spec_le)]
    pub fn le(self, other: short8) -> (r: short8)
        ensures
            r == self.spec_le(other),
            r.is_mask(),
    {
        short8(
            bits16::mask_of(self.0 <= other.0),
            bits16::mask_of(self.1 <= other.1),
            bits16::mask_of(self.2 <= other.2),
            bits16::mask_of(self.3 <= other.3),
            bits16::mask_of(self.4 <= other.4),
            bits16::mask_of(self.5 <= other.5),
            bits16::mask_of(self.6 <= other.6),
            bits16::mask_of(self.7 <= other.7),
        )
    }

    /// The mask with all ones in the lanes where the lanes of `self` and
    /// `other` satisfy `>`, and all zeros in the others.
    pub open spec fn spec_gt(self, other: short8) -> short8 {
        short8::of(lanes::map2(self@, other@, |x: i16, y: i16| bits16::mask(x > y)))
    }

    /// Compares lane by lane with `>`. Every lane of the result is all ones
    /// or all zeros.
    #[verifier::when_used_as_spec(spec_gt)]
    pub fn gt(self, other: short8) -> (r: short8)
        ensures
            r == self.spec_gt(other),
            r.is_mask(),
    {
        short8(
            bits16::mask_of(self.0 > other.0),
            bits16::mask_of(self.1 > other.1),
            bits16::mask_of(self.2 > other.2),
            bits16::mask_of(self.3 > other.3),
            bits16::mask_of(self.4 > other.4),
            bits16::mask_of(self.5 > other.5),
            bits16::mask_of(self.6 > other.6),
            bits16::mask_of(self.7 > other.7),
        )
    }

    /// The mask with all ones in the lanes where the lanes of `self` and
    /// `other` satisfy `>=`, and all zeros in the others.
    pub open spec fn spec_ge(self, other: short8) -> short8 {
        short8::of(lanes::map2(self@, other@, |x: i16, y: i16| bits16::mask(x >= y)))
    }

    /// Compares lane by lane with `>=`. Every lane of the result is all ones
    /// or all zeros.
    #[verifier::when_used_as_spec(spec_ge)]
    pub fn ge(self, other: short8) -> (r: short8)
        ensures
            r == self.spec_ge(other),
            r.is_mask(),
    {
        short8(
            bits16::mask_of(self.0 >= other.0),
            bits16::mask_of(self.1 >= other.1),
            bits16::mask_of(self.2 >= other.2),
            bits16::mask_of(self.3 >= other.3),
            bits16::mask_of(self.4 >= other.4),
            bits16::mask_of(self.5 >= other.5),
            bits16::mask_of(self.6 >= other.6),
            bits16::mask_of(self.7 >= other.7),
        )
    }

    /// The greater of the two lanes at every position.
    pub open spec fn spec_max(self, other: short8) -> short8 {
        short8::of(lanes::map2(self@, other@, |x: i16, y: i16| if y > x { y } else { x }))
    }

    /// Takes the greater lane at every position: the lanes of `other` are
    /// selected where they are greater than those of `self`.
    #[verifier::when_used_as_spec(spec_max)]
    pub fn max(self, other: short8) -> (r: short8)
        ensures
            r == self.spec_max(other),
    {
        let greater = other.gt(self);
        proof {
            bits16::lemma_select_signed(greater.0, self.0, other.0);
            bits16::lemma_select_signed(greater.1, self.1, other.1);
            bits16::lemma_select_signed(greater.2, self.2, other.2);
            bits16::lemma_select_signed(greater.3, self.3, other.3);
            bits16::lemma_select_signed(greater.4, self.4, other.4);
            bits16::lemma_select_signed(greater.5, self.5, other.5);
            bits16::lemma_select_signed(greater.6, self.6, other.6);
            bits16::lemma_select_signed(greater.7, self.7, other.7);
        }
        greater.bitselect(self, other)
    }

    /// The lesser of the two lanes at every position.
    pub open spec fn spec_min(self, other: short8) -> short8 {
        short8::of(lanes::map2(self@, other@, |x: i16, y: i16| if y < x { y } else { x }))
    }

    /// Takes the lesser lane at every position: the lanes of `other` are
    /// selected where they are less than those of `self`.
    #[verifier::when_used_as_spec(spec_min)]
    pub fn min(self, other: short8) -> (r: short8)
        ensures
            r == self.spec_min(other),
    {
        let less = other.lt(self);
        proof {
            bits16::lemma_select_signed(less.0, self.0, other.0);
            bits16::lemma_select_signed(less.1, self.1, other.1);
            bits16::lemma_select_signed(less.2, self.2, other.2);
            bits16::lemma_select_signed(less.3, self.3, other.3);
            bits16::lemma_select_signed(less.4, self.4, other.4);
            bits16::lemma_select_signed(less.5, self.5, other.5);
            bits16::lemma_select_signed(less.6, self.6, other.6);
            bits16::lemma_select_signed(less.7, self.7, other.7);
        }
        less.bitselect(self, other)
    }

    /// Every lane raised to at least the lane of `min`, then lowered to at most
    /// the lane of `max`.
    pub open spec fn spec_clamp(self, min: short8, max: short8) -> short8 {
        self.spec_max(min).spec_min(max)
    }

    /// Restricts every lane to the range that the lanes of `min` and `max`
    /// give. Where a lane of `min` is greater than that of `max`, the lane of
    /// `max` is the result.
    #[verifier::when_used_as_spec(spec_clamp)]
    pub fn clamp(self, min: short8, max: short8) -> (r: short8)
        ensures
            r == self.spec_clamp(min, max),
    {
        self.max(min).min(max)
    }

    /// The absolute value of every lane, wrapped: a lane that holds the least
    /// value of `i16` keeps it.
    pub open spec fn spec_abs(self) -> short8 {
        short8::of(lanes::map1(self@, |x: i16| bits16::abs_signed(x)))
    }

    /// Takes the absolute value of every lane. With the sign of a lane spread
    /// over the whole lane as a mask, the lane is inverted where it is
    /// negative and the mask is subtracted.
    #[verifier::when_used_as_spec(spec_abs)]
    pub fn abs(self) -> (r: short8)
        ensures
            r == self.spec_abs(),
    {
        let mask = self.shr(short8::broadcast(bits16::SIGN_SHIFT));
        proof {
            bits16::lemma_abs_signed(self.0);
            bits16::lemma_abs_signed(self.1);
            bits16::lemma_abs_signed(self.2);
            bits16::lemma_abs_signed(self.3);
            bits16::lemma_abs_signed(self.4);
            bits16::lemma_abs_signed(self.5);
            bits16::lemma_abs_signed(self.6);
            bits16::lemma_abs_signed(self.7);
        }
        self.bitxor(mask).sub(mask)
    }

    /// The sum of the lanes, wrapping on overflow.
    pub open spec fn spec_reduce_add(self) -> i16 {
        lanes::fold(self@, |x: i16, y: i16| x.wrapping_add(y))
    }

    /// Reduces the lanes to the sum of the lanes, wrapping on overflow, by
    /// halving: the first half is combined with the second, lane by lane, and
    /// the result is reduced in turn.
    #[verifier::when_used_as_spec(spec_reduce_add)]
    pub fn reduce_add(self) -> (r: i16)
        ensures
            r == self.spec_reduce_add(),
    {
        proof {
            reveal_with_fuel(lanes::fold, 5);
        }
        self.lo().add(self.hi()).reduce_add()
    }

    /// The least lane.
    pub open spec fn spec_reduce_min(self) -> i16 {
        lanes::fold(self@, |x: i16, y: i16| if y < x { y } else { x })
    }

    /// Reduces the lanes to the least lane, by halving: the first half is
    /// combined with the second, lane by lane, and the result is reduced in
    /// turn.
    #[verifier::when_used_as_spec(spec_reduce_min)]
    pub fn reduce_min(self) -> (r: i16)
        ensures
            r == self.spec_reduce_min(),
    {
        proof {
            reveal_with_fuel(lanes::fold, 5);
        }
        self.lo().min(self.hi()).reduce_min()
    }

    /// The greatest lane.
    pub open spec fn spec_reduce_max(self) -> i16 {
        lanes::fold(self@, |x: i16, y: i16| if y > x { y } else { x })
    }

    /// Reduces the lanes to the greatest lane, by halving: the first half is
    /// combined with the second, lane by lane, and the result is reduced in
    /// turn.
    #[verifier::when_used_as_spec(spec_reduce_max)]
    pub fn reduce_max(self) -> (r: i16)
        ensures
            r == self.spec_reduce_max(),
    {
        proof {
            reveal_with_fuel(lanes::fold, 5);
        }
        self.lo().max(self.hi()).reduce_max()
    }

    /// The conjunction of the bits of all lanes.
    pub open spec fn spec_reduce_and(self) -> i16 {
        lanes::fold(self@, |x: i16, y: i16| x & y)
    }

    /// Reduces the lanes to the conjunction of the bits of all lanes, by
    /// halving: the first half is combined with the second, lane by lane, and
    /// the result is reduced in turn.
    #[verifier::when_used_as_spec(spec_reduce_and)]
    pub fn reduce_and(self) -> (r: i16)
        ensures
            r == self.spec_reduce_and(),
    {
        proof {
            reveal_with_fuel(lanes::fold, 5);
        }
        self.lo().bitand(self.hi()).reduce_and()
    }

    /// The disjunction of the bits of all lanes.
    pub open spec fn spec_reduce_or(self) -> i16 {
        lanes::fold(self@, |x: i16, y: i16| x | y)
    }

    /// Reduces the lanes to the disjunction of the bits of all lanes, by
    /// halving: the first half is combined with the second, lane by lane, and
    /// the result is reduced in turn.
    #[verifier::when_used_as_spec(spec_reduce_or)]
    pub fn reduce_or(self) -> (r: i16)
        ensures
            r == self.spec_reduce_or(),
    {
        proof {
            reveal_with_fuel(lanes::fold, 5);
        }
        self.lo().bitor(self.hi()).reduce_or()
    }

    /// The exclusive disjunction of the bits of all lanes.
    pub open spec fn spec_reduce_xor(self) -> i16 {
        lanes::fold(self@, |x: i16, y: i16| x ^ y)
    }

    /// Reduces the lanes to the exclusive disjunction of the bits of all
    /// lanes, by halving: the first half is combined with the second, lane by
    /// lane, and the result is reduced in turn.
    #[verifier::when_used_as_spec(spec_reduce_xor)]
    pub fn reduce_xor(self) -> (r: i16)
        ensures
            r == self.spec_reduce_xor(),
    {
        proof {
            reveal_with_fuel(lanes::fold, 5);
        }
        self.lo().bitxor(self.hi()).reduce_xor()
    }

    /// Whether the sign bit of every lane is set.
    pub open spec fn spec_all(self) -> bool {
        forall|i: int| 0 <= i < 8 ==> bits16::sign_set_signed(#[trigger] self@[i])
    }

    /// Whether the sign bit of every lane is set: the sign bit of the
    /// conjunction of all lanes is tested. On a mask this tells whether every
    /// lane is true.
    #[verifier::when_used_as_spec(spec_all)]
    pub fn all(self) -> (r: bool)
        ensures
            r == self.spec_all(),
    {
        let bits = self.reduce_and();
        proof {
            reveal_with_fuel(lanes::fold, 5);
            bits16::lemma_sign_bits_signed(self.0, self.4);
            bits16::lemma_sign_bits_signed(self.1, self.5);
            bits16::lemma_sign_bits_signed(self.2, self.6);
            bits16::lemma_sign_bits_signed(self.3, self.7);
            bits16::lemma_sign_bits_signed(self.0 & self.4, self.2 & self.6);
            bits16::lemma_sign_bits_signed(self.1 & self.5, self.3 & self.7);
            bits16::lemma_sign_bits_signed(
                (self.0 & self.4) & (self.2 & self.6),
                (self.1 & self.5) & (self.3 & self.7),
            );
            bits16::lemma_sign_bits_signed(bits, bits);
        }
        bits & i16::MIN != 0
    }

    /// Whether the sign bit of some lane is set.
    pub open spec fn spec_any(self) -> bool {
        exists|i: int| 0 <= i < 8 && bits16::sign_set_signed(#[trigger] self@[i])
    }

    /// Whether the sign bit of some lane is set: the sign bit of the
    /// disjunction of all lanes is tested. On a mask this tells whether some
    /// lane is true.
    #[verifier::when_used_as_spec(spec_any)]
    pub fn any(self) -> (r: bool)
        ensures
            r == self.spec_any(),
    {
        let bits = self.reduce_or();
        proof {
            reveal_with_fuel(lanes::fold, 5);
            bits16::lemma_sign_bits_signed(self.0, self.4);
            bits16::lemma_sign_bits_signed(self.1, self.5);
            bits16::lemma_sign_bits_signed(self.2, self.6);
            bits16::lemma_sign_bits_signed(self.3, self.7);
            bits16::lemma_sign_bits_signed(self.0 | self.4, self.2 | self.6);
            bits16::lemma_sign_bits_signed(self.1 | self.5, self.3 | self.7);
            bits16::lemma_sign_bits_signed(
                (self.0 | self.4) | (self.2 | self.6),
                (self.1 | self.5) | (self.3 | self.7),
            );
            bits16::lemma_sign_bits_signed(bits, bits);
        }
        bits & i16::MIN != 0
    }

    /// The sum of the products of the lanes at equal positions, every product
    /// and every sum wrapped into the lane.
    pub open spec fn spec_dot(self, other: short8) -> i16 {
        lanes::fold(
            lanes::map2(self@, other@, |x: i16, y: i16| x.wrapping_mul(y)),
            |x: i16, y: i16| x.wrapping_add(y),
        )
    }

    /// The dot product: the lanes are multiplied pairwise and the products
    /// are added up as `reduce_add` does.
    #[verifier::when_used_as_spec(spec_dot)]
    pub fn dot(self, other: short8) -> (r: i16)
        ensures
            r == self.spec_dot(other),
    {
        proof {
            reveal_with_fuel(lanes::fold, 5);
        }
        self.mul(other).reduce_add()
    }

    /// Every lane cut down to its low 8 bits, read as `i8`.
    pub open spec fn spec_to_char(self) -> char8 {
        char8::of(lanes::map1(self@, |x: i16| x as i8))
    }

    /// Converts every lane to `i8` as a cast does: the high bits are dropped
    /// and a value that does not fit wraps around.
    #[verifier::when_used_as_spec(spec_to_char)]
    pub fn to_char(self) -> (r: char8)
        ensures
            r == self.spec_to_char(),
    {
        char8(
            #[verifier::truncate] (self.0 as i8),
            #[verifier::truncate] (self.1 as i8),
            #[verifier::truncate] (self.2 as i8),
            #[verifier::truncate] (self.3 as i8),
            #[verifier::truncate] (self.4 as i8),
            #[verifier::truncate] (self.5 as i8),
            #[verifier::truncate] (self.6 as i8),
            #[verifier::truncate] (self.7 as i8),
        )
    }

    /// Every lane as the `i8` nearest to its value.
    pub open spec fn spec_to_char_sat(self) -> char8 {
        char8::of(lanes::map1(self@, |x: i16| bits8::saturate_signed(x as int)))
    }

    /// Converts every lane to `i8`, saturating at the bounds of `i8`.
    /// The lanes are clamped to the range of `i8` and then converted.
    #[verifier::when_used_as_spec(spec_to_char_sat)]
    pub fn to_char_sat(self) -> (r: char8)
        ensures
            r == self.spec_to_char_sat(),
    {
        self.clamp(short8::broadcast(i8::MIN as i16), short8::broadcast(i8::MAX as i16)).to_char()
    }

    /// Every lane cut down to its low 8 bits, read as `u8`.
    pub open spec fn spec_to_uchar(self) -> uchar8 {
        uchar8::of(lanes::map1(self@, |x: i16| x as u8))
    }

    /// Converts every lane to `u8` as a cast does: the high bits are dropped
    /// and a value that does not fit wraps around.
    #[verifier::when_used_as_spec(spec_to_uchar)]
    pub fn to_uchar(self) -> (r: uchar8)
        ensures
            r == self.spec_to_uchar(),
    {
        uchar8(
            #[verifier::truncate] (self.0 as u8),
            #[verifier::truncate] (self.1 as u8),
            #[verifier::truncate] (self.2 as u8),
            #[verifier::truncate] (self.3 as u8),
            #[verifier::truncate] (self.4 as u8),
            #[verifier::truncate] (self.5 as u8),
            #[verifier::truncate] (self.6 as u8),
            #[verifier::truncate] (self.7 as u8),
        )
    }

    /// Every lane as the `u8` nearest to its value.
    pub open spec fn spec_to_uchar_sat(self) -> uchar8 {
        uchar8::of(lanes::map1(self@, |x: i16| bits8::saturate_unsigned(x as int)))
    }

    /// Converts every lane to `u8`, saturating at the bounds of `u8`.
    /// The lanes are clamped to the range of `u8` and then converted.
    #[verifier::when_used_as_spec(spec_to_uchar_sat)]
    pub fn to_uchar_sat(self) -> (r: uchar8)
        ensures
            r == self.spec_to_uchar_sat(),
    {
        self.clamp(short8::broadcast(0), short8::broadcast(u8::MAX as i16)).to_uchar()
    }

    /// The vector itself.
    pub open spec fn spec_to_short(self) -> short8 {
        self
    }

    /// The vector itself.
    #[verifier::when_used_as_spec(spec_to_short)]
    pub fn to_short(self) -> (r: short8)
        ensures
            r == self.spec_to_short(),
    {
        self
    }

    /// Every lane as the `i16` nearest to its value.
    pub open spec fn spec_to_short_sat(self) -> short8 {
        self
    }

    /// Converts every lane to `i16`, saturating at the bounds of `i16`.
    /// Nothing is to be done.
    #[verifier::when_used_as_spec(spec_to_short_sat)]
    pub fn to_short_sat(self) -> (r: short8)
        ensures
            r == self.spec_to_short_sat(),
    {
        self
    }

    /// Every lane as the `u16` with the same bits.
    pub open spec fn spec_to_ushort(self) -> ushort8 {
        ushort8::of(lanes::map1(self@, |x: i16| x as u16))
    }

    /// Converts every lane to `u16` as a cast does: a value that does not fit
    /// wraps around.
    #[verifier::when_used_as_spec(spec_to_ushort)]
    pub fn to_ushort(self) -> (r: ushort8)
        ensures
            r == self.spec_to_ushort(),
    {
        ushort8(
            #[verifier::truncate] (self.0 as u16),
            #[verifier::truncate] (self.1 as u16),
            #[verifier::truncate] (self.2 as u16),
            #[verifier::truncate] (self.3 as u16),
            #[verifier::truncate] (self.4 as u16),
            #[verifier::truncate] (self.5 as u16),
            #[verifier::truncate] (self.6 as u16),
            #[verifier::truncate] (self.7 as u16),
        )
    }

    /// Every lane as the `u16` nearest to its value.
    pub open spec fn spec_to_ushort_sat(self) -> ushort8 {
        ushort8::of(lanes::map1(self@, |x: i16| bits16::saturate_unsigned(x as int)))
    }

    /// Converts every lane to `u16`, saturating at the bounds of `u16`.
    /// Negative lanes are raised to zero, then the lanes are converted.
    #[verifier::when_used_as_spec(spec_to_ushort_sat)]
    pub fn to_ushort_sat(self) -> (r: ushort8)
        ensures
            r == self.spec_to_ushort_sat(),
    {
        self.max(short8::broadcast(0)).to_ushort()
    }

    /// Every lane as a `i32` of the same value.
    pub open spec fn spec_to_int(self) -> int8 {
        int8::of(lanes::map1(self@, |x: i16| x as i32))
    }

    /// Converts every lane to `i32`. Every value fits.
    #[verifier::when_used_as_spec(spec_to_int)]
    pub fn to_int(self) -> (r: int8)
        ensures
            r == self.spec_to_int(),
    {
        int8(
            self.0 as i32,
            self.1 as i32,
            self.2 as i32,
            self.3 as i32,
            self.4 as i32,
            self.5 as i32,
            self.6 as i32,
            self.7 as i32,
        )
    }

    /// Every lane as the `i32` nearest to its value.
    pub open spec fn spec_to_int_sat(self) -> int8 {
        int8::of(lanes::map1(self@, |x: i16| bits32::saturate_signed(x as int)))
    }

    /// Converts every lane to `i32`, saturating at the bounds of `i32`.
    /// Every value fits, so the lanes are converted as they are.
    #[verifier::when_used_as_spec(spec_to_int_sat)]
    pub fn to_int_sat(self) -> (r: int8)
        ensures
            r == self.spec_to_int_sat(),
    {
        self.to_int()
    }

    /// Every lane as the `u32` with the same bits, the sign extended.
    pub open spec fn spec_to_uint(self) -> uint8 {
        uint8::of(lanes::map1(self@, |x: i16| x as u32))
    }

    /// Converts every lane to `u32` as a cast does: a value that does not fit
    /// wraps around.
    #[verifier::when_used_as_spec(spec_to_uint)]
    pub fn to_uint(self) -> (r: uint8)
        ensures
            r == self.spec_to_uint(),
    {
        uint8(
            #[verifier::truncate] (self.0 as u32),
            #[verifier::truncate] (self.1 as u32),
            #[verifier::truncate] (self.2 as u32),
            #[verifier::truncate] (self.3 as u32),
            #[verifier::truncate] (self.4 as u32),
            #[verifier::truncate] (self.5 as u32),
            #[verifier::truncate] (self.6 as u32),
            #[verifier::truncate] (self.7 as u32),
        )
    }

    /// Every lane as the `u32` nearest to its value.
    pub open spec fn spec_to_uint_sat(self) -> uint8 {
        uint8::of(lanes::map1(self@, |x: i16| bits32::saturate_unsigned(x as int)))
    }

    /// Converts every lane to `u32`, saturating at the bounds of `u32`.
    /// Negative lanes are raised to zero, then the lanes are converted.
    #[verifier::when_used_as_spec(spec_to_uint_sat)]
    pub fn to_uint_sat(self) -> (r: uint8)
        ensures
            r == self.spec_to_uint_sat(),
    {
        self.max(short8::broadcast(0)).to_uint()
    }

    /// Every lane as a `i64` of the same value.
    pub open spec fn spec_to_long(self) -> long8 {
        long8::of(lanes::map1(self@, |x: i16| x as i64))
    }

    /// Converts every lane to `i64`. Every value fits.
    #[verifier::when_used_as_spec(spec_to_long)]
    pub fn to_long(self) -> (r: long8)
        ensures
            r == self.spec_to_long(),
    {
        long8(
            self.0 as i64,
            self.1 as i64,
            self.2 as i64,
            self.3 as i64,
            self.4 as i64,
            self.5 as i64,
            self.6 as i64,
            self.7 as i64,
        )
    }

    /// Every lane as the `i64` nearest to its value.
    pub open spec fn spec_to_long_sat(self) -> long8 {
        long8::of(lanes::map1(self@, |x: i16| bits64::saturate_signed(x as int)))
    }

    /// Converts every lane to `i64`, saturating at the bounds of `i64`.
    /// Every value fits, so the lanes are converted as they are.
    #[verifier::when_used_as_spec(spec_to_long_sat)]
    pub fn to_long_sat(self) -> (r: long8)
        ensures
            r == self.spec_to_long_sat(),
    {
        self.to_long()
    }

    /// Every lane as the `u64` with the same bits, the sign extended.
    pub open spec fn spec_to_ulong(self) -> ulong8 {
        ulong8::of(lanes::map1(self@, |x: i16| x as u64))
    }

    /// Converts every lane to `u64` as a cast does: a value that does not fit
    /// wraps around.
    #[verifier::when_used_as_spec(spec_to_ulong)]
    pub fn to_ulong(self) -> (r: ulong8)
        ensures
            r == self.spec_to_ulong(),
    {
        ulong8(
            #[verifier::truncate] (self.0 as u64),
            #[verifier::truncate] (self.1 as u64),
            #[verifier::truncate] (self.2 as u64),
            #[verifier::truncate] (self.3 as u64),
            #[verifier::truncate] (self.4 as u64),
            #[verifier::truncate] (self.5 as u64),
            #[verifier::truncate] (self.6 as u64),
            #[verifier::truncate] (self.7 as u64),
        )
    }

    /// Every lane as the `u64` nearest to its value.
    pub open spec fn spec_to_ulong_sat(self) -> ulong8 {
        ulong8::of(lanes::map1(self@, |x: i16| bits64::saturate_unsigned(x as int)))
    }

    /// Converts every lane to `u64`, saturating at the bounds of `u64`.
    /// Negative lanes are raised to zero, then the lanes are converted.
    #[verifier::when_used_as_spec(spec_to_ulong_sat)]
    pub fn to_ulong_sat(self) -> (r: ulong8)
        ensures
            r == self.spec_to_ulong_sat(),
    {
        self.max(short8::broadcast(0)).to_ulong()
    }

    /// Whether `r` may hold the lanes of `self` as single precision numbers,
    /// where `cast` converts one lane and gives the bit pattern of the number.
    pub open spec fn is_to_float<C: Fn(i16) -> u32>(self, cast: C, r: float8) -> bool {
        &&& call_ensures(cast, (self.0,), r.0)
        &&& call_ensures(cast, (self.1,), r.1)
        &&& call_ensures(cast, (self.2,), r.2)
        &&& call_ensures(cast, (self.3,), r.3)
        &&& call_ensures(cast, (self.4,), r.4)
        &&& call_ensures(cast, (self.5,), r.5)
        &&& call_ensures(cast, (self.6,), r.6)
        &&& call_ensures(cast, (self.7,), r.7)
    }

    /// Converts every lane to a single precision number by `cast`.
    pub fn to_float<C: Fn(i16) -> u32>(self, cast: &C) -> (r: float8)
        requires
            forall|x: i16| call_requires(cast, (x,)),
        ensures
            self.is_to_float(*cast, r),
    {
        float8(
            cast(self.0),
            cast(self.1),
            cast(self.2),
            cast(self.3),
            cast(self.4),
            cast(self.5),
            cast(self.6),
            cast(self.7),
        )
    }

    /// Whether `r` may hold the lanes of `self` as double precision numbers,
    /// where `cast` converts one lane and gives the bit pattern of the number.
    pub open spec fn is_to_double<C: Fn(i16) -> u64>(self, cast: C, r: double8) -> bool {
        &&& call_ensures(cast, (self.0,), r.0)
        &&& call_ensures(cast, (self.1,), r.1)
        &&& call_ensures(cast, (self.2,), r.2)
        &&& call_ensures(cast, (self.3,), r.3)
        &&& call_ensures(cast, (self.4,), r.4)
        &&& call_ensures(cast, (self.5,), r.5)
        &&& call_ensures(cast, (self.6,), r.6)
        &&& call_ensures(cast, (self.7,), r.7)
    }

    /// Converts every lane to a double precision number by `cast`.
    pub fn to_double<C: Fn(i16) -> u64>(self, cast: &C) -> (r: double8)
        requires
            forall|x: i16| call_requires(cast, (x,)),
        ensures
            self.is_to_double(*cast, r),
    {
        double8(
            cast(self.0),
            cast(self.1),
            cast(self.2),
            cast(self.3),
            cast(self.4),
            cast(self.5),
            cast(self.6),
            cast(self.7),
        )
    }

    /// A comparison of a vector with itself for equality is true in every
    /// lane, and one for inequality is true in none.
    pub proof fn lemma_eq_reflexive(x: short8)
        ensures
            x.eq(x).all(),
            !x.ne(x).any(),
    {
    }

    /// The dot product does not depend on the order of its operands.
    pub proof fn lemma_dot_commutative(a: short8, b: short8)
        ensures
            a.dot(b) == b.dot(a),
    {
        assert(lanes::map2(a@, b@, |x: i16, y: i16| x.wrapping_mul(y)) =~= lanes::map2(
            b@,
            a@,
            |x: i16, y: i16| x.wrapping_mul(y),
        ));
    }

    /// Reinterpreting the unsigned vector of the same shape reads its lanes
    /// bit for bit.
    pub proof fn lemma_bitcast_keeps_lanes(b: ushort8)
        ensures
            short8::bitcast(b) == short8::from_bits(b),
    {
        bits16::lemma_bytes_round_trip(b.0, 0, 0);
        bits16::lemma_bytes_round_trip(b.1, 0, 0);
        bits16::lemma_bytes_round_trip(b.2, 0, 0);
        bits16::lemma_bytes_round_trip(b.3, 0, 0);
        bits16::lemma_bytes_round_trip(b.4, 0, 0);
        bits16::lemma_bytes_round_trip(b.5, 0, 0);
        bits16::lemma_bytes_round_trip(b.6, 0, 0);
        bits16::lemma_bytes_round_trip(b.7, 0, 0);
    }

    /// Reinterpreting a vector as its own type changes nothing.
    pub proof fn lemma_bitcast_identity(x: short8)
        ensures
            short8::bitcast(x) == x,
    {
        bits16::lemma_bytes_round_trip(x.to_bits().0, 0, 0);
        bits16::lemma_bytes_round_trip(x.to_bits().1, 0, 0);
        bits16::lemma_bytes_round_trip(x.to_bits().2, 0, 0);
        bits16::lemma_bytes_round_trip(x.to_bits().3, 0, 0);
        bits16::lemma_bytes_round_trip(x.to_bits().4, 0, 0);
        bits16::lemma_bytes_round_trip(x.to_bits().5, 0, 0);
        bits16::lemma_bytes_round_trip(x.to_bits().6, 0, 0);
        bits16::lemma_bytes_round_trip(x.to_bits().7, 0, 0);
        bits16::lemma_cast_round_trip(0, x.0);
        bits16::lemma_cast_round_trip(0, x.1);
        bits16::lemma_cast_round_trip(0, x.2);
        bits16::lemma_cast_round_trip(0, x.3);
        bits16::lemma_cast_round_trip(0, x.4);
        bits16::lemma_cast_round_trip(0, x.5);
        bits16::lemma_cast_round_trip(0, x.6);
        bits16::lemma_cast_round_trip(0, x.7);
    }

    /// The result of `reduce_add` is the sum of the lanes, wrapped into the
    /// lane: the order in which the lanes are added plays no part.
    pub proof fn lemma_reduce_add_is_sum(x: short8)
        ensures
            x.reduce_add() == bits16::wrap_signed(x.0 + x.1 + x.2 + x.3 + x.4 + x.5 + x.6 + x.7),
    {
        reveal_with_fuel(lanes::fold, 5);
        bits16::lemma_wrap_in_range_signed(x.0);
        bits16::lemma_wrap_in_range_signed(x.1);
        bits16::lemma_wrap_in_range_signed(x.2);
        bits16::lemma_wrap_in_range_signed(x.3);
        bits16::lemma_wrap_in_range_signed(x.4);
        bits16::lemma_wrap_in_range_signed(x.5);
        bits16::lemma_wrap_in_range_signed(x.6);
        bits16::lemma_wrap_in_range_signed(x.7);
        bits16::lemma_wrapping_sum_signed(x.0, x.4, x.0 as int, x.4 as int);
        bits16::lemma_wrapping_sum_signed(x.1, x.5, x.1 as int, x.5 as int);
        bits16::lemma_wrapping_sum_signed(x.2, x.6, x.2 as int, x.6 as int);
        bits16::lemma_wrapping_sum_signed(x.3, x.7, x.3 as int, x.7 as int);
        bits16::lemma_wrapping_sum_signed(
            x.0.wrapping_add(x.4),
            x.2.wrapping_add(x.6),
            x.0 as int + x.4 as int,
            x.2 as int + x.6 as int,
        );
        bits16::lemma_wrapping_sum_signed(
            x.1.wrapping_add(x.5),
            x.3.wrapping_add(x.7),
            x.1 as int + x.5 as int,
            x.3 as int + x.7 as int,
        );
        bits16::lemma_wrapping_sum_signed(
            x.0.wrapping_add(x.4).wrapping_add(x.2.wrapping_add(x.6)),
            x.1.wrapping_add(x.5).wrapping_add(x.3.wrapping_add(x.7)),
            x.0 as int + x.4 as int + x.2 as int + x.6 as int,
            x.1 as int + x.5 as int + x.3 as int + x.7 as int,
        );
    }

    /// The dot product is the sum of the products of the lanes, wrapped into
    /// the lane.
    pub proof fn lemma_dot_is_sum_of_products(a: short8, b: short8)
        ensures
            a.dot(b) == bits16::wrap_signed(
                a.0 * b.0
                    + a.1 * b.1
                    + a.2 * b.2
                    + a.3 * b.3
                    + a.4 * b.4
                    + a.5 * b.5
                    + a.6 * b.6
                    + a.7 * b.7,
            ),
    {
        reveal_with_fuel(lanes::fold, 5);
        bits16::lemma_wrapping_product_signed(a.0, b.0);
        bits16::lemma_wrapping_product_signed(a.1, b.1);
        bits16::lemma_wrapping_product_signed(a.2, b.2);
        bits16::lemma_wrapping_product_signed(a.3, b.3);
        bits16::lemma_wrapping_product_signed(a.4, b.4);
        bits16::lemma_wrapping_product_signed(a.5, b.5);
        bits16::lemma_wrapping_product_signed(a.6, b.6);
        bits16::lemma_wrapping_product_signed(a.7, b.7);
        bits16::lemma_wrapping_sum_signed(
            a.0.wrapping_mul(b.0),
            a.4.wrapping_mul(b.4),
            a.0 * b.0,
            a.4 * b.4,
        );
        bits16::lemma_wrapping_sum_signed(
            a.1.wrapping_mul(b.1),
            a.5.wrapping_mul(b.5),
            a.1 * b.1,
            a.5 * b.5,
        );
        bits16::lemma_wrapping_sum_signed(
            a.2.wrapping_mul(b.2),
            a.6.wrapping_mul(b.6),
            a.2 * b.2,
            a.6 * b.6,
        );
        bits16::lemma_wrapping_sum_signed(
            a.3.wrapping_mul(b.3),
            a.7.wrapping_mul(b.7),
            a.3 * b.3,
            a.7 * b.7,
        );
        bits16::lemma_wrapping_sum_signed(
            a.0.wrapping_mul(b.0).wrapping_add(a.4.wrapping_mul(b.4)),
            a.2.wrapping_mul(b.2).wrapping_add(a.6.wrapping_mul(b.6)),
            a.0 * b.0 + a.4 * b.4,
            a.2 * b.2 + a.6 * b.6,
        );
        bits16::lemma_wrapping_sum_signed(
            a.1.wrapping_mul(b.1).wrapping_add(a.5.wrapping_mul(b.5)),
            a.3.wrapping_mul(b.3).wrapping_add(a.7.wrapping_mul(b.7)),
            a.1 * b.1 + a.5 * b.5,
            a.3 * b.3 + a.7 * b.7,
        );
        bits16::lemma_wrapping_sum_signed(
            a.0.wrapping_mul(b.0)
                .wrapping_add(a.4.wrapping_mul(b.4))
                    .wrapping_add(a.2.wrapping_mul(b.2).wrapping_add(a.6.wrapping_mul(b.6))),
            a.1.wrapping_mul(b.1)
                .wrapping_add(a.5.wrapping_mul(b.5))
                    .wrapping_add(a.3.wrapping_mul(b.3).wrapping_add(a.7.wrapping_mul(b.7))),
            a.0 * b.0 + a.4 * b.4 + a.2 * b.2 + a.6 * b.6,
            a.1 * b.1 + a.5 * b.5 + a.3 * b.3 + a.7 * b.7,
        );
    }

    /// The result of `reduce_min` is a lane, and no lane is less than it.
    pub proof fn lemma_reduce_min_is_least(x: short8)
        ensures
            forall|i: int| 0 <= i < 8 ==> x.reduce_min() <= #[trigger] x@[i],
            exists|i: int| 0 <= i < 8 && x.reduce_min() == #[trigger] x@[i],
    {
        reveal_with_fuel(lanes::fold, 5);
        assert({
            &&& x@[0] == x.0
            &&& x@[1] == x.1
            &&& x@[2] == x.2
            &&& x@[3] == x.3
            &&& x@[4] == x.4
            &&& x@[5] == x.5
            &&& x@[6] == x.6
            &&& x@[7] == x.7
        });
    }

    /// The result of `reduce_max` is a lane, and no lane is greater than it.
    pub proof fn lemma_reduce_max_is_greatest(x: short8)
        ensures
            forall|i: int| 0 <= i < 8 ==> x.reduce_max() >= #[trigger] x@[i],
            exists|i: int| 0 <= i < 8 && x.reduce_max() == #[trigger] x@[i],
    {
        reveal_with_fuel(lanes::fold, 5);
        assert({
            &&& x@[0] == x.0
            &&& x@[1] == x.1
            &&& x@[2] == x.2
            &&& x@[3] == x.3
            &&& x@[4] == x.4
            &&& x@[5] == x.5
            &&& x@[6] == x.6
            &&& x@[7] == x.7
        });
    }

    /// A vector that is widened to `int8` and narrowed again with
    /// saturation is the vector it was.
    pub proof fn lemma_int_round_trip(x: short8)
        ensures
            x.to_int().to_short_sat() == x,
    {
    }

    /// A vector that has no negative lane that is widened to `uint8` and
    /// narrowed again with saturation is the vector it was.
    pub proof fn lemma_uint_round_trip(x: short8)
        requires
            x.0 >= 0,
            x.1 >= 0,
            x.2 >= 0,
            x.3 >= 0,
            x.4 >= 0,
            x.5 >= 0,
            x.6 >= 0,
            x.7 >= 0,
        ensures
            x.to_uint().to_short_sat() == x,
    {
    }

    /// A vector that is widened to `long8` and narrowed again with
    /// saturation is the vector it was.
    pub proof fn lemma_long_round_trip(x: short8)
        ensures
            x.to_long().to_short_sat() == x,
    {
    }

    /// A vector that has no negative lane that is widened to `ulong8` and
    /// narrowed again with saturation is the vector it was.
    pub proof fn lemma_ulong_round_trip(x: short8)
        requires
            x.0 >= 0,
            x.1 >= 0,
            x.2 >= 0,
            x.3 >= 0,
            x.4 >= 0,
            x.5 >= 0,
            x.6 >= 0,
            x.7 >= 0,
        ensures
            x.to_ulong().to_short_sat() == x,
    {
    }
}

/// `v[i]` is lane `i`, for `i` below 8.
impl core::ops::Index<u32> for short8 {
    type Output = i16;

    fn index(&self, index: u32) -> (r: &i16)
        ensures
            *r == self@[index as int],
    {
        if index == 0 {
            &self.0
        } else if index == 1 {
            &self.1
        } else if index == 2 {
            &self.2
        } else if index == 3 {
            &self.3
        } else if index == 4 {
            &self.4
        } else if index == 5 {
            &self.5
        } else if index == 6 {
            &self.6
        } else {
            &self.7
        }
    }
}

impl vstd::std_specs::core::IndexSpecImpl<u32> for short8 {
    open spec fn index_req(&self, index: &u32) -> bool {
        *index < 8
    }
}

/// The bytes of the vector: the lanes in order, each with its least significant
/// byte first.
impl Bitcast for short8 {
    type Image = [u8; 16];

    open spec fn spec_image(self) -> Seq<u8> {
        bits16::image(self.spec_to_bits()@)
    }

    open spec fn spec_from_image(image: Seq<u8>) -> short8 {
        short8::spec_from_bits(ushort8::of(bits16::lanes_of_image(image)))
    }

    fn image(self) -> (r: [u8; 16]) {
        let b = self.to_bits();
        let l0 = bits16::bytes(b.0);
        let l1 = bits16::bytes(b.1);
        let l2 = bits16::bytes(b.2);
        let l3 = bits16::bytes(b.3);
        let l4 = bits16::bytes(b.4);
        let l5 = bits16::bytes(b.5);
        let l6 = bits16::bytes(b.6);
        let l7 = bits16::bytes(b.7);
        let r = [
            l0[0], l0[1], l1[0], l1[1], l2[0], l2[1], l3[0], l3[1],
            l4[0], l4[1], l5[0], l5[1], l6[0], l6[1], l7[0], l7[1],
        ];
        proof {
            let s = self.spec_to_bits()@;
            assert(s.len() == 8);
            assert forall|j: int| 0 <= j < 16 implies r@[j] == bits16::byte(s[j / 2], j % 2) by {
                assert(s[0] == b.0);
                assert(s[1] == b.1);
                assert(s[2] == b.2);
                assert(s[3] == b.3);
                assert(s[4] == b.4);
                assert(s[5] == b.5);
                assert(s[6] == b.6);
                assert(s[7] == b.7);
            }
        }
        r
    }

    fn from_image(image: [u8; 16]) -> (r: short8) {
        short8::from_bits(
            ushort8(
                bits16::join(image[0], image[1]),
                bits16::join(image[2], image[3]),
                bits16::join(image[4], image[5]),
                bits16::join(image[6], image[7]),
                bits16::join(image[8], image[9]),
                bits16::join(image[10], image[11]),
                bits16::join(image[12], image[13]),
                bits16::join(image[14], image[15]),
            ),
        )
    }
}

/// Selection between two vectors of type `short8` by a mask of type `short8`.
impl Select<short8> for short8 {
    open spec fn spec_bitselect(self, a: short8, b: short8) -> short8 {
        short8::of(
            lanes::map3(self@, a@, b@, |m: i16, x: i16, y: i16| bits16::select_signed(m, x, y)),
        )
    }

    open spec fn spec_select(self, a: short8, b: short8) -> short8 {
        short8::of(lanes::map3(self@, a@, b@, |m: i16, x: i16, y: i16| if m < 0 { y } else { x }))
    }

    /// Every bit of the result comes from `b` where the bit of `self` is set
    /// and from `a` where it is not. A lane of `self` that is all ones selects
    /// the whole lane of `b`, one that is all zeros the whole lane of `a`.
    fn bitselect(self, a: short8, b: short8) -> (r: short8)
        ensures
            forall|i: int|
                0 <= i < 8 && self@[i] == bits16::ALL_ONES ==> #[trigger] r@[i] == b@[i],
            forall|i: int|
                0 <= i < 8 && self@[i] == bits16::ALL_ZEROS ==> #[trigger] r@[i] == a@[i],
    {
        proof {
            bits16::lemma_select_signed(self.0, a.0, b.0);
            bits16::lemma_select_signed(self.1, a.1, b.1);
            bits16::lemma_select_signed(self.2, a.2, b.2);
            bits16::lemma_select_signed(self.3, a.3, b.3);
            bits16::lemma_select_signed(self.4, a.4, b.4);
            bits16::lemma_select_signed(self.5, a.5, b.5);
            bits16::lemma_select_signed(self.6, a.6, b.6);
            bits16::lemma_select_signed(self.7, a.7, b.7);
        }
        a.bitand(self.not()).bitor(b.bitand(self))
    }

    /// Every lane of the result is the lane of `b` where the sign bit of the
    /// lane of `self` is set, and the lane of `a` where it is not.
    fn select(self, a: short8, b: short8) -> (r: short8) {
        let sign = self.shr(short8::broadcast(bits16::SIGN_SHIFT));
        proof {
            bits16::lemma_select_by_sign_signed(self.0, a.0, b.0);
            bits16::lemma_select_by_sign_signed(self.1, a.1, b.1);
            bits16::lemma_select_by_sign_signed(self.2, a.2, b.2);
            bits16::lemma_select_by_sign_signed(self.3, a.3, b.3);
            bits16::lemma_select_by_sign_signed(self.4, a.4, b.4);
            bits16::lemma_select_by_sign_signed(self.5, a.5, b.5);
            bits16::lemma_select_by_sign_signed(self.6, a.6, b.6);
            bits16::lemma_select_by_sign_signed(self.7, a.7, b.7);
        }
        sign.bitselect(a, b)
    }
}

/// Selection between two vectors of type `ushort8` by a mask of type `short8`.
impl Select<ushort8> for short8 {
    open spec fn spec_bitselect(self, a: ushort8, b: ushort8) -> ushort8 {
        ushort8::of(
            lanes::map3(self@, a@, b@, |m: i16, x: u16, y: u16| bits16::select_unsigned(m, x, y)),
        )
    }

    open spec fn spec_select(self, a: ushort8, b: ushort8) -> ushort8 {
        ushort8::of(lanes::map3(self@, a@, b@, |m: i16, x: u16, y: u16| if m < 0 { y } else { x }))
    }

    /// Every bit of the result comes from `b` where the bit of `self` is set
    /// and from `a` where it is not. A lane of `self` that is all ones selects
    /// the whole lane of `b`, one that is all zeros the whole lane of `a`.
    fn bitselect(self, a: ushort8, b: ushort8) -> (r: ushort8)
        ensures
            forall|i: int|
                0 <= i < 8 && self@[i] == bits16::ALL_ONES ==> #[trigger] r@[i] == b@[i],
            forall|i: int|
                0 <= i < 8 && self@[i] == bits16::ALL_ZEROS ==> #[trigger] r@[i] == a@[i],
    {
        proof {
            bits16::lemma_select_unsigned(self.0, a.0, b.0);
            bits16::lemma_select_unsigned(self.1, a.1, b.1);
            bits16::lemma_select_unsigned(self.2, a.2, b.2);
            bits16::lemma_select_unsigned(self.3, a.3, b.3);
            bits16::lemma_select_unsigned(self.4, a.4, b.4);
            bits16::lemma_select_unsigned(self.5, a.5, b.5);
            bits16::lemma_select_unsigned(self.6, a.6, b.6);
            bits16::lemma_select_unsigned(self.7, a.7, b.7);
        }
        self.bitselect(short8::from_bits(a), short8::from_bits(b)).to_bits()
    }

    /// Every lane of the result is the lane of `b` where the sign bit of the
    /// lane of `self` is set, and the lane of `a` where it is not.
    fn select(self, a: ushort8, b: ushort8) -> (r: ushort8) {
        let sign = self.shr(short8::broadcast(bits16::SIGN_SHIFT));
        proof {
            bits16::lemma_select_by_sign_unsigned(self.0, a.0, b.0);
            bits16::lemma_select_by_sign_unsigned(self.1, a.1, b.1);
            bits16::lemma_select_by_sign_unsigned(self.2, a.2, b.2);
            bits16::lemma_select_by_sign_unsigned(self.3, a.3, b.3);
            bits16::lemma_select_by_sign_unsigned(self.4, a.4, b.4);
            bits16::lemma_select_by_sign_unsigned(self.5, a.5, b.5);
            bits16::lemma_select_by_sign_unsigned(self.6, a.6, b.6);
            bits16::lemma_select_by_sign_unsigned(self.7, a.7, b.7);
        }
        sign.bitselect(a, b)
    }
}

/// Lane-wise sum, wrapping on overflow.
impl core::ops::Add for short8 {
    type Output = short8;

    fn add(self, rhs: short8) -> (r: short8) {
        short8(
            self.0.wrapping_add(rhs.0),
            self.1.wrapping_add(rhs.1),
            self.2.wrapping_add(rhs.2),
            self.3.wrapping_add(rhs.3),
            self.4.wrapping_add(rhs.4),
            self.5.wrapping_add(rhs.5),
            self.6.wrapping_add(rhs.6),
            self.7.wrapping_add(rhs.7),
        )
    }
}

impl vstd::std_specs::ops::AddSpecImpl for short8 {
    open spec fn obeys_add_spec() -> bool {
        true
    }

    open spec fn add_req(self, rhs: short8) -> bool {
        true
    }

    open spec fn add_spec(self, rhs: short8) -> short8 {
        short8::of(lanes::map2(self@, rhs@, |x: i16, y: i16| x.wrapping_add(y)))
    }
}

/// The same with `rhs` in every lane of the right operand.
impl core::ops::Add<i16> for short8 {
    type Output = short8;

    fn add(self, rhs: i16) -> (r: short8) {
        self.add(short8::broadcast(rhs))
    }
}

impl vstd::std_specs::ops::AddSpecImpl<i16> for short8 {
    open spec fn obeys_add_spec() -> bool {
        true
    }

    open spec fn add_req(self, rhs: i16) -> bool {
        true
    }

    open spec fn add_spec(self, rhs: i16) -> short8 {
        vstd::std_specs::ops::AddSpec::add_spec(self, short8::broadcast(rhs))
    }
}

/// The same with `self` in every lane of the left operand.
impl core::ops::Add<short8> for i16 {
    type Output = short8;

    fn add(self, rhs: short8) -> (r: short8) {
        short8::broadcast(self).add(rhs)
    }
}

impl vstd::std_specs::ops::AddSpecImpl<short8> for i16 {
    open spec fn obeys_add_spec() -> bool {
        true
    }

    open spec fn add_req(self, rhs: short8) -> bool {
        true
    }

    open spec fn add_spec(self, rhs: short8) -> short8 {
        vstd::std_specs::ops::AddSpec::add_spec(short8::broadcast(self), rhs)
    }
}

/// Lane-wise difference, wrapping on overflow.
impl core::ops::Sub for short8 {
    type Output = short8;

    fn sub(self, rhs: short8) -> (r: short8) {
        short8(
            self.0.wrapping_sub(rhs.0),
            self.1.wrapping_sub(rhs.1),
            self.2.wrapping_sub(rhs.2),
            self.3.wrapping_sub(rhs.3),
            self.4.wrapping_sub(rhs.4),
            self.5.wrapping_sub(rhs.5),
            self.6.wrapping_sub(rhs.6),
            self.7.wrapping_sub(rhs.7),
        )
    }
}

impl vstd::std_specs::ops::SubSpecImpl for short8 {
    open spec fn obeys_sub_spec() -> bool {
        true
    }

    open spec fn sub_req(self, rhs: short8) -> bool {
        true
    }

    open spec fn sub_spec(self, rhs: short8) -> short8 {
        short8::of(lanes::map2(self@, rhs@, |x: i16, y: i16| x.wrapping_sub(y)))
    }
}

/// The same with `rhs` in every lane of the right operand.
impl core::ops::Sub<i16> for short8 {
    type Output = short8;

    fn sub(self, rhs: i16) -> (r: short8) {
        self.sub(short8::broadcast(rhs))
    }
}

impl vstd::std_specs::ops::SubSpecImpl<i16> for short8 {
    open spec fn obeys_sub_spec() -> bool {
        true
    }

    open spec fn sub_req(self, rhs: i16) -> bool {
        true
    }

    open spec fn sub_spec(self, rhs: i16) -> short8 {
        vstd::std_specs::ops::SubSpec::sub_spec(self, short8::broadcast(rhs))
    }
}

/// The same with `self` in every lane of the left operand.
impl core::ops::Sub<short8> for i16 {
    type Output = short8;

    fn sub(self, rhs: short8) -> (r: short8) {
        short8::broadcast(self).sub(rhs)
    }
}

impl vstd::std_specs::ops::SubSpecImpl<short8> for i16 {
    open spec fn obeys_sub_spec() -> bool {
        true
    }

    open spec fn sub_req(self, rhs: short8) -> bool {
        true
    }

    open spec fn sub_spec(self, rhs: short8) -> short8 {
        vstd::std_specs::ops::SubSpec::sub_spec(short8::broadcast(self), rhs)
    }
}

/// Lane-wise product, wrapping on overflow.
impl core::ops::Mul for short8 {
    type Output = short8;

    fn mul(self, rhs: short8) -> (r: short8) {
        short8(
            self.0.wrapping_mul(rhs.0),
            self.1.wrapping_mul(rhs.1),
            self.2.wrapping_mul(rhs.2),
            self.3.wrapping_mul(rhs.3),
            self.4.wrapping_mul(rhs.4),
            self.5.wrapping_mul(rhs.5),
            self.6.wrapping_mul(rhs.6),
            self.7.wrapping_mul(rhs.7),
        )
    }
}

impl vstd::std_specs::ops::MulSpecImpl for short8 {
    open spec fn obeys_mul_spec() -> bool {
        true
    }

    open spec fn mul_req(self, rhs: short8) -> bool {
        true
    }

    open spec fn mul_spec(self, rhs: short8) -> short8 {
        short8::of(lanes::map2(self@, rhs@, |x: i16, y: i16| x.wrapping_mul(y)))
    }
}

/// The same with `rhs` in every lane of the right operand.
impl core::ops::Mul<i16> for short8 {
    type Output = short8;

    fn mul(self, rhs: i16) -> (r: short8) {
        self.mul(short8::broadcast(rhs))
    }
}

impl vstd::std_specs::ops::MulSpecImpl<i16> for short8 {
    open spec fn obeys_mul_spec() -> bool {
        true
    }

    open spec fn mul_req(self, rhs: i16) -> bool {
        true
    }

    open spec fn mul_spec(self, rhs: i16) -> short8 {
        vstd::std_specs::ops::MulSpec::mul_spec(self, short8::broadcast(rhs))
    }
}

/// The same with `self` in every lane of the left operand.
impl core::ops::Mul<short8> for i16 {
    type Output = short8;

    fn mul(self, rhs: short8) -> (r: short8) {
        short8::broadcast(self).mul(rhs)
    }
}

impl vstd::std_specs::ops::MulSpecImpl<short8> for i16 {
    open spec fn obeys_mul_spec() -> bool {
        true
    }

    open spec fn mul_req(self, rhs: short8) -> bool {
        true
    }

    open spec fn mul_spec(self, rhs: short8) -> short8 {
        vstd::std_specs::ops::MulSpec::mul_spec(short8::broadcast(self), rhs)
    }
}

/// Lane-wise quotient, rounded towards zero. No lane of the divisor may be
/// zero.
impl core::ops::Div for short8 {
    type Output = short8;

    fn div(self, rhs: short8) -> (r: short8) {
        short8(
            bits16::wrapping_div(self.0, rhs.0),
            bits16::wrapping_div(self.1, rhs.1),
            bits16::wrapping_div(self.2, rhs.2),
            bits16::wrapping_div(self.3, rhs.3),
            bits16::wrapping_div(self.4, rhs.4),
            bits16::wrapping_div(self.5, rhs.5),
            bits16::wrapping_div(self.6, rhs.6),
            bits16::wrapping_div(self.7, rhs.7),
        )
    }
}

impl vstd::std_specs::ops::DivSpecImpl for short8 {
    open spec fn obeys_div_spec() -> bool {
        true
    }

    open spec fn div_req(self, rhs: short8) -> bool {
        &&& rhs.0 != 0
        &&& rhs.1 != 0
        &&& rhs.2 != 0
        &&& rhs.3 != 0
        &&& rhs.4 != 0
        &&& rhs.5 != 0
        &&& rhs.6 != 0
        &&& rhs.7 != 0
    }

    open spec fn div_spec(self, rhs: short8) -> short8 {
        short8::of(lanes::map2(self@, rhs@, |x: i16, y: i16| bits16::spec_wrapping_div(x, y)))
    }
}

/// The same with `rhs` in every lane of the right operand.
impl core::ops::Div<i16> for short8 {
    type Output = short8;

    fn div(self, rhs: i16) -> (r: short8) {
        self.div(short8::broadcast(rhs))
    }
}

impl vstd::std_specs::ops::DivSpecImpl<i16> for short8 {
    open spec fn obeys_div_spec() -> bool {
        true
    }

    open spec fn div_req(self, rhs: i16) -> bool {
        rhs != 0
    }

    open spec fn div_spec(self, rhs: i16) -> short8 {
        vstd::std_specs::ops::DivSpec::div_spec(self, short8::broadcast(rhs))
    }
}

/// The same with `self` in every lane of the left operand.
impl core::ops::Div<short8> for i16 {
    type Output = short8;

    fn div(self, rhs: short8) -> (r: short8) {
        short8::broadcast(self).div(rhs)
    }
}

impl vstd::std_specs::ops::DivSpecImpl<short8> for i16 {
    open spec fn obeys_div_spec() -> bool {
        true
    }

    open spec fn div_req(self, rhs: short8) -> bool {
        &&& rhs.0 != 0
        &&& rhs.1 != 0
        &&& rhs.2 != 0
        &&& rhs.3 != 0
        &&& rhs.4 != 0
        &&& rhs.5 != 0
        &&& rhs.6 != 0
        &&& rhs.7 != 0
    }

    open spec fn div_spec(self, rhs: short8) -> short8 {
        vstd::std_specs::ops::DivSpec::div_spec(short8::broadcast(self), rhs)
    }
}

/// Lane-wise conjunction of the bits.
impl core::ops::BitAnd for short8 {
    type Output = short8;

    fn bitand(self, rhs: short8) -> (r: short8) {
        short8(
            self.0 & rhs.0,
            self.1 & rhs.1,
            self.2 & rhs.2,
            self.3 & rhs.3,
            self.4 & rhs.4,
            self.5 & rhs.5,
            self.6 & rhs.6,
            self.7 & rhs.7,
        )
    }
}

impl vstd::std_specs::ops::BitAndSpecImpl for short8 {
    open spec fn obeys_bitand_spec() -> bool {
        true
    }

    open spec fn bitand_req(self, rhs: short8) -> bool {
        true
    }

    open spec fn bitand_spec(self, rhs: short8) -> short8 {
        short8::of(lanes::map2(self@, rhs@, |x: i16, y: i16| x & y))
    }
}

/// The same with `rhs` in every lane of the right operand.
impl core::ops::BitAnd<i16> for short8 {
    type Output = short8;

    fn bitand(self, rhs: i16) -> (r: short8) {
        self.bitand(short8::broadcast(rhs))
    }
}

impl vstd::std_specs::ops::BitAndSpecImpl<i16> for short8 {
    open spec fn obeys_bitand_spec() -> bool {
        true
    }

    open spec fn bitand_req(self, rhs: i16) -> bool {
        true
    }

    open spec fn bitand_spec(self, rhs: i16) -> short8 {
        vstd::std_specs::ops::BitAndSpec::bitand_spec(self, short8::broadcast(rhs))
    }
}

/// The same with `self` in every lane of the left operand.
impl core::ops::BitAnd<short8> for i16 {
    type Output = short8;

    fn bitand(self, rhs: short8) -> (r: short8) {
        short8::broadcast(self).bitand(rhs)
    }
}

impl vstd::std_specs::ops::BitAndSpecImpl<short8> for i16 {
    open spec fn obeys_bitand_spec() -> bool {
        true
    }

    open spec fn bitand_req(self, rhs: short8) -> bool {
        true
    }

    open spec fn bitand_spec(self, rhs: short8) -> short8 {
        vstd::std_specs::ops::BitAndSpec::bitand_spec(short8::broadcast(self), rhs)
    }
}

/// Lane-wise disjunction of the bits.
impl core::ops::BitOr for short8 {
    type Output = short8;

    fn bitor(self, rhs: short8) -> (r: short8) {
        short8(
            self.0 | rhs.0,
            self.1 | rhs.1,
            self.2 | rhs.2,
            self.3 | rhs.3,
            self.4 | rhs.4,
            self.5 | rhs.5,
            self.6 | rhs.6,
            self.7 | rhs.7,
        )
    }
}

impl vstd::std_specs::ops::BitOrSpecImpl for short8 {
    open spec fn obeys_bitor_spec() -> bool {
        true
    }

    open spec fn bitor_req(self, rhs: short8) -> bool {
        true
    }

    open spec fn bitor_spec(self, rhs: short8) -> short8 {
        short8::of(lanes::map2(self@, rhs@, |x: i16, y: i16| x | y))
    }
}

/// The same with `rhs` in every lane of the right operand.
impl core::ops::BitOr<i16> for short8 {
    type Output = short8;

    fn bitor(self, rhs: i16) -> (r: short8) {
        self.bitor(short8::broadcast(rhs))
    }
}

impl vstd::std_specs::ops::BitOrSpecImpl<i16> for short8 {
    open spec fn obeys_bitor_spec() -> bool {
        true
    }

    open spec fn bitor_req(self, rhs: i16) -> bool {
        true
    }

    open spec fn bitor_spec(self, rhs: i16) -> short8 {
        vstd::std_specs::ops::BitOrSpec::bitor_spec(self, short8::broadcast(rhs))
    }
}

/// The same with `self` in every lane of the left operand.
impl core::ops::BitOr<short8> for i16 {
    type Output = short8;

    fn bitor(self, rhs: short8) -> (r: short8) {
        short8::broadcast(self).bitor(rhs)
    }
}

impl vstd::std_specs::ops::BitOrSpecImpl<short8> for i16 {
    open spec fn obeys_bitor_spec() -> bool {
        true
    }

    open spec fn bitor_req(self, rhs: short8) -> bool {
        true
    }

    open spec fn bitor_spec(self, rhs: short8) -> short8 {
        vstd::std_specs::ops::BitOrSpec::bitor_spec(short8::broadcast(self), rhs)
    }
}

/// Lane-wise exclusive disjunction of the bits.
impl core::ops::BitXor for short8 {
    type Output = short8;

    fn bitxor(self, rhs: short8) -> (r: short8) {
        short8(
            self.0 ^ rhs.0,
            self.1 ^ rhs.1,
            self.2 ^ rhs.2,
            self.3 ^ rhs.3,
            self.4 ^ rhs.4,
            self.5 ^ rhs.5,
            self.6 ^ rhs.6,
            self.7 ^ rhs.7,
        )
    }
}

impl vstd::std_specs::ops::BitXorSpecImpl for short8 {
    open spec fn obeys_bitxor_spec() -> bool {
        true
    }

    open spec fn bitxor_req(self, rhs: short8) -> bool {
        true
    }

    open spec fn bitxor_spec(self, rhs: short8) -> short8 {
        short8::of(lanes::map2(self@, rhs@, |x: i16, y: i16| x ^ y))
    }
}

/// The same with `rhs` in every lane of the right operand.
impl core::ops::BitXor<i16> for short8 {
    type Output = short8;

    fn bitxor(self, rhs: i16) -> (r: short8) {
        self.bitxor(short8::broadcast(rhs))
    }
}

impl vstd::std_specs::ops::BitXorSpecImpl<i16> for short8 {
    open spec fn obeys_bitxor_spec() -> bool {
        true
    }

    open spec fn bitxor_req(self, rhs: i16) -> bool {
        true
    }

    open spec fn bitxor_spec(self, rhs: i16) -> short8 {
        vstd::std_specs::ops::BitXorSpec::bitxor_spec(self, short8::broadcast(rhs))
    }
}

/// The same with `self` in every lane of the left operand.
impl core::ops::BitXor<short8> for i16 {
    type Output = short8;

    fn bitxor(self, rhs: short8) -> (r: short8) {
        short8::broadcast(self).bitxor(rhs)
    }
}

impl vstd::std_specs::ops::BitXorSpecImpl<short8> for i16 {
    open spec fn obeys_bitxor_spec() -> bool {
        true
    }

    open spec fn bitxor_req(self, rhs: short8) -> bool {
        true
    }

    open spec fn bitxor_spec(self, rhs: short8) -> short8 {
        vstd::std_specs::ops::BitXorSpec::bitxor_spec(short8::broadcast(self), rhs)
    }
}

/// Lane-wise shift to the left. Every distance must be less than the width of
/// a lane.
impl core::ops::Shl for short8 {
    type Output = short8;

    fn shl(self, rhs: short8) -> (r: short8) {
        short8(
            self.0 << rhs.0,
            self.1 << rhs.1,
            self.2 << rhs.2,
            self.3 << rhs.3,
            self.4 << rhs.4,
            self.5 << rhs.5,
            self.6 << rhs.6,
            self.7 << rhs.7,
        )
    }
}

impl vstd::std_specs::ops::ShlSpecImpl for short8 {
    open spec fn obeys_shl_spec() -> bool {
        true
    }

    open spec fn shl_req(self, rhs: short8) -> bool {
        &&& bits16::shift_in_range_signed(rhs.0)
        &&& bits16::shift_in_range_signed(rhs.1)
        &&& bits16::shift_in_range_signed(rhs.2)
        &&& bits16::shift_in_range_signed(rhs.3)
        &&& bits16::shift_in_range_signed(rhs.4)
        &&& bits16::shift_in_range_signed(rhs.5)
        &&& bits16::shift_in_range_signed(rhs.6)
        &&& bits16::shift_in_range_signed(rhs.7)
    }

    open spec fn shl_spec(self, rhs: short8) -> short8 {
        short8::of(lanes::map2(self@, rhs@, |x: i16, y: i16| bits16::shl_signed(x, y)))
    }
}

/// The same with `rhs` in every lane of the right operand.
impl core::ops::Shl<i16> for short8 {
    type Output = short8;

    fn shl(self, rhs: i16) -> (r: short8) {
        self.shl(short8::broadcast(rhs))
    }
}

impl vstd::std_specs::ops::ShlSpecImpl<i16> for short8 {
    open spec fn obeys_shl_spec() -> bool {
        true
    }

    open spec fn shl_req(self, rhs: i16) -> bool {
        bits16::shift_in_range_signed(rhs)
    }

    open spec fn shl_spec(self, rhs: i16) -> short8 {
        vstd::std_specs::ops::ShlSpec::shl_spec(self, short8::broadcast(rhs))
    }
}

/// The same with `self` in every lane of the left operand.
impl core::ops::Shl<short8> for i16 {
    type Output = short8;

    fn shl(self, rhs: short8) -> (r: short8) {
        short8::broadcast(self).shl(rhs)
    }
}

impl vstd::std_specs::ops::ShlSpecImpl<short8> for i16 {
    open spec fn obeys_shl_spec() -> bool {
        true
    }

    open spec fn shl_req(self, rhs: short8) -> bool {
        &&& bits16::shift_in_range_signed(rhs.0)
        &&& bits16::shift_in_range_signed(rhs.1)
        &&& bits16::shift_in_range_signed(rhs.2)
        &&& bits16::shift_in_range_signed(rhs.3)
        &&& bits16::shift_in_range_signed(rhs.4)
        &&& bits16::shift_in_range_signed(rhs.5)
        &&& bits16::shift_in_range_signed(rhs.6)
        &&& bits16::shift_in_range_signed(rhs.7)
    }

    open spec fn shl_spec(self, rhs: short8) -> short8 {
        vstd::std_specs::ops::ShlSpec::shl_spec(short8::broadcast(self), rhs)
    }
}

/// Lane-wise shift to the right. Every distance must be less than the width of
/// a lane.
impl core::ops::Shr for short8 {
    type Output = short8;

    fn shr(self, rhs: short8) -> (r: short8) {
        short8(
            self.0 >> rhs.0,
            self.1 >> rhs.1,
            self.2 >> rhs.2,
            self.3 >> rhs.3,
            self.4 >> rhs.4,
            self.5 >> rhs.5,
            self.6 >> rhs.6,
            self.7 >> rhs.7,
        )
    }
}

impl vstd::std_specs::ops::ShrSpecImpl for short8 {
    open spec fn obeys_shr_spec() -> bool {
        true
    }

    open spec fn shr_req(self, rhs: short8) -> bool {
        &&& bits16::shift_in_range_signed(rhs.0)
        &&& bits16::shift_in_range_signed(rhs.1)
        &&& bits16::shift_in_range_signed(rhs.2)
        &&& bits16::shift_in_range_signed(rhs.3)
        &&& bits16::shift_in_range_signed(rhs.4)
        &&& bits16::shift_in_range_signed(rhs.5)
        &&& bits16::shift_in_range_signed(rhs.6)
        &&& bits16::shift_in_range_signed(rhs.7)
    }

    open spec fn shr_spec(self, rhs: short8) -> short8 {
        short8::of(lanes::map2(self@, rhs@, |x: i16, y: i16| bits16::shr_signed(x, y)))
    }
}

/// The same with `rhs` in every lane of the right operand.
impl core::ops::Shr<i16> for short8 {
    type Output = short8;

    fn shr(self, rhs: i16) -> (r: short8) {
        self.shr(short8::broadcast(rhs))
    }
}

impl vstd::std_specs::ops::ShrSpecImpl<i16> for short8 {
    open spec fn obeys_shr_spec() -> bool {
        true
    }

    open spec fn shr_req(self, rhs: i16) -> bool {
        bits16::shift_in_range_signed(rhs)
    }

    open spec fn shr_spec(self, rhs: i16) -> short8 {
        vstd::std_specs::ops::ShrSpec::shr_spec(self, short8::broadcast(rhs))
    }
}

/// The same with `self` in every lane of the left operand.
impl core::ops::Shr<short8> for i16 {
    type Output = short8;

    fn shr(self, rhs: short8) -> (r: short8) {
        short8::broadcast(self).shr(rhs)
    }
}

impl vstd::std_specs::ops::ShrSpecImpl<short8> for i16 {
    open spec fn obeys_shr_spec() -> bool {
        true
    }

    open spec fn shr_req(self, rhs: short8) -> bool {
        &&& bits16::shift_in_range_signed(rhs.0)
        &&& bits16::shift_in_range_signed(rhs.1)
        &&& bits16::shift_in_range_signed(rhs.2)
        &&& bits16::shift_in_range_signed(rhs.3)
        &&& bits16::shift_in_range_signed(rhs.4)
        &&& bits16::shift_in_range_signed(rhs.5)
        &&& bits16::shift_in_range_signed(rhs.6)
        &&& bits16::shift_in_range_signed(rhs.7)
    }

    open spec fn shr_spec(self, rhs: short8) -> short8 {
        vstd::std_specs::ops::ShrSpec::shr_spec(short8::broadcast(self), rhs)
    }
}

/// Lane-wise inversion of the bits.
impl core::ops::Not for short8 {
    type Output = short8;

    fn not(self) -> (r: short8) {
        short8(!self.0, !self.1, !self.2, !self.3, !self.4, !self.5, !self.6, !self.7)
    }
}

impl vstd::std_specs::ops::NotSpecImpl for short8 {
    open spec fn obeys_not_spec() -> bool {
        true
    }

    open spec fn not_req(self) -> bool {
        true
    }

    open spec fn not_spec(self) -> short8 {
        short8::of(lanes::map1(self@, |x: i16| bits16::not_signed(x)))
    }
}

} // verus!
