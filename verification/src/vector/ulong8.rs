//! `ulong8`: eight lanes of `u64`.
use crate::bitcast::Bitcast;
use crate::bits64;
use crate::bits8;
use crate::bits16;
use crate::bits32;
use crate::lanes;
use crate::select::Select;
use crate::vector::char8::char8;
use crate::vector::double8::double8;
use crate::vector::float8::float8;
use crate::vector::int8::int8;
use crate::vector::long8::long8;
use crate::vector::short8::short8;
use crate::vector::uchar8::uchar8;
use crate::vector::uint8::uint8;
use crate::vector::ulong4::ulong4;
use crate::vector::ushort8::ushort8;
use core::ops::{Add, BitAnd, BitOr, BitXor, Div, Mul, Not, Shl, Shr, Sub};
use vstd::prelude::*;

verus! {

/// Eight lanes of `u64`.
#[allow(non_camel_case_types)]
#[derive(Clone, Copy, Debug, PartialEq, Eq, Structural)]
pub struct ulong8(pub u64, pub u64, pub u64, pub u64, pub u64, pub u64, pub u64, pub u64);

impl View for ulong8 {
    type V = Seq<u64>;

    /// The lanes in order, lane 0 first.
    open spec fn view(&self) -> Seq<u64> {
        Seq::new(8, |i: int| self.lane(i))
    }
}

impl ulong8 {
    /// Lane `i` of the vector.
    pub open spec fn lane(self, i: int) -> u64 {
        if i == 0 {
            self.0
        } else if i == 1 {
            self.1
        } else if i == 2 {
            self.2
        } else if i == 3 {
            self.3
        } else if i == 4 {
            self.4
        } else if i == 5 {
            self.5
        } else if i == 6 {
            self.6
        } else {
            self.7
        }
    }

    /// The vector whose lanes are the first eight entries of `s`.
    pub open spec fn of(s: Seq<u64>) -> ulong8 {
        ulong8(s[0], s[1], s[2], s[3], s[4], s[5], s[6], s[7])
    }

    /// The vector with `x` in every lane.
    pub open spec fn spec_broadcast(x: u64) -> ulong8 {
        ulong8::of(lanes::splat(x, 8))
    }

    /// Fills every lane with `x`.
    #[verifier::when_used_as_spec(spec_broadcast)]
    pub fn broadcast(x: u64) -> (r: ulong8)
        ensures
            r == ulong8::spec_broadcast(x),
    {
        ulong8(x, x, x, x, x, x, x, x)
    }

    /// The vector whose lanes have the bit patterns of the lanes of `b`.
    pub open spec fn spec_from_bits(b: ulong8) -> ulong8 {
        b
    }

    /// Reads the lanes of `b` as lanes of this type, bit for bit.
    #[verifier::when_used_as_spec(spec_from_bits)]
    pub fn from_bits(b: ulong8) -> (r: ulong8)
        ensures
            r == ulong8::spec_from_bits(b),
    {
        b
    }

    /// The unsigned vector whose lanes have the bit patterns of the lanes of
    /// `self`.
    pub open spec fn spec_to_bits(self) -> ulong8 {
        self
    }

    /// Reads the lanes as unsigned lanes, bit for bit.
    #[verifier::when_used_as_spec(spec_to_bits)]
    pub fn to_bits(self) -> (r: ulong8)
        ensures
            r == self.spec_to_bits(),
    {
        self
    }

    /// The vector of this type that occupies the bytes that `x` occupies.
    pub open spec fn spec_bitcast<T: Bitcast<Image = [u8; 64]>>(x: T) -> ulong8 {
        ulong8::spec_from_image(x.spec_image())
    }

    /// Reinterprets the bytes of `x` as a vector of this type. `x` may be of
    /// any vector type that occupies 64 bytes; a type of another size is not
    /// accepted. No bit is dropped or made up.
    #[verifier::when_used_as_spec(spec_bitcast)]
    pub fn bitcast<T: Bitcast<Image = [u8; 64]>>(x: T) -> (r: ulong8)
        ensures
            r == ulong8::spec_bitcast(x),
    {
        ulong8::from_image(x.image())
    }

    /// Lane `i`, for `i` below 8.
    pub open spec fn spec_extract(self, i: u32) -> u64 {
        self@[i as int]
    }

    /// Reads lane `i`.
    #[verifier::when_used_as_spec(spec_extract)]
    pub fn extract(self, i: u32) -> (r: u64)
        requires
            i < 8,
        ensures
            r == self.spec_extract(i),
    {
        if i == 0 {
            self.0
        } else if i == 1 {
            self.1
        } else if i == 2 {
            self.2
        } else if i == 3 {
            self.3
        } else if i == 4 {
            self.4
        } else if i == 5 {
            self.5
        } else if i == 6 {
            self.6
        } else {
            self.7
        }
    }

    /// The vector with lane `i` replaced by `x`, for `i` below 8.
    pub open spec fn spec_replace(self, i: u32, x: u64) -> ulong8 {
        ulong8::of(self@.update(i as int, x))
    }

    /// Replaces lane `i` by `x` and leaves the other lanes as they are.
    #[verifier::when_used_as_spec(spec_replace)]
    pub fn replace(self, i: u32, x: u64) -> (r: ulong8)
        requires
            i < 8,
        ensures
            r == self.spec_replace(i, x),
    {
        if i == 0 {
            ulong8(x, self.1, self.2, self.3, self.4, self.5, self.6, self.7)
        } else if i == 1 {
            ulong8(self.0, x, self.2, self.3, self.4, self.5, self.6, self.7)
        } else if i == 2 {
            ulong8(self.0, self.1, x, self.3, self.4, self.5, self.6, self.7)
        } else if i == 3 {
            ulong8(self.0, self.1, self.2, x, self.4, self.5, self.6, self.7)
        } else if i == 4 {
            ulong8(self.0, self.1, self.2, self.3, x, self.5, self.6, self.7)
        } else if i == 5 {
            ulong8(self.0, self.1, self.2, self.3, self.4, x, self.6, self.7)
        } else if i == 6 {
            ulong8(self.0, self.1, self.2, self.3, self.4, self.5, x, self.7)
        } else {
            ulong8(self.0, self.1, self.2, self.3, self.4, self.5, self.6, x)
        }
    }

    /// The first half of the lanes.
    pub open spec fn spec_lo(self) -> ulong4 {
        ulong4::of(lanes::lower_half(self@, 0))
    }

    /// The first half of the lanes.
    #[verifier::when_used_as_spec(spec_lo)]
    pub fn lo(self) -> (r: ulong4)
        ensures
            r == self.spec_lo(),
    {
        ulong4(self.0, self.1, self.2, self.3)
    }

    /// The second half of the lanes.
    pub open spec fn spec_hi(self) -> ulong4 {
        ulong4::of(lanes::upper_half(self@, 0))
    }

    /// The second half of the lanes.
    #[verifier::when_used_as_spec(spec_hi)]
    pub fn hi(self) -> (r: ulong4)
        ensures
            r == self.spec_hi(),
    {
        ulong4(self.4, self.5, self.6, self.7)
    }

    /// The lanes at even positions.
    pub open spec fn spec_even(self) -> ulong4 {
        ulong4::of(lanes::even_lanes(self@, 0))
    }

    /// The lanes at even positions.
    #[verifier::when_used_as_spec(spec_even)]
    pub fn even(self) -> (r: ulong4)
        ensures
            r == self.spec_even(),
    {
        ulong4(self.0, self.2, self.4, self.6)
    }

    /// The lanes at odd positions.
    pub open spec fn spec_odd(self) -> ulong4 {
        ulong4::of(lanes::odd_lanes(self@, 0))
    }

    /// The lanes at odd positions.
    #[verifier::when_used_as_spec(spec_odd)]
    pub fn odd(self) -> (r: ulong4)
        ensures
            r == self.spec_odd(),
    {
        ulong4(self.1, self.3, self.5, self.7)
    }

    /// Whether `f` may give the lanes of `r` for the lanes of `self`.
    pub open spec fn is_map_unary<F: Fn(u64) -> u64>(self, f: F, r: ulong8) -> bool {
        &&& call_ensures(f, (self.0,), r.0)
        &&& call_ensures(f, (self.1,), r.1)
        &&& call_ensures(f, (self.2,), r.2)
        &&& call_ensures(f, (self.3,), r.3)
        &&& call_ensures(f, (self.4,), r.4)
        &&& call_ensures(f, (self.5,), r.5)
        &&& call_ensures(f, (self.6,), r.6)
        &&& call_ensures(f, (self.7,), r.7)
    }

    /// Applies `f` to every lane. `f` must accept every lane of the vector.
    pub fn map_unary<F: Fn(u64) -> u64>(self, f: &F) -> (r: ulong8)
        requires
            call_requires(f, (self.0,)),
            call_requires(f, (self.1,)),
            call_requires(f, (self.2,)),
            call_requires(f, (self.3,)),
            call_requires(f, (self.4,)),
            call_requires(f, (self.5,)),
            call_requires(f, (self.6,)),
            call_requires(f, (self.7,)),
        ensures
            self.is_map_unary(*f, r),
    {
        ulong8(
            f(self.0),
            f(self.1),
            f(self.2),
            f(self.3),
            f(self.4),
            f(self.5),
            f(self.6),
            f(self.7),
        )
    }

    /// Whether `f` may give the lanes of `r` for the lanes of `self` and
    /// `other` at equal positions.
    pub open spec fn is_map_binary<F: Fn(u64, u64) -> u64>(
        self,
        other: ulong8,
        f: F,
        r: ulong8,
    ) -> bool {
        &&& call_ensures(f, (self.0, other.0), r.0)
        &&& call_ensures(f, (self.1, other.1), r.1)
        &&& call_ensures(f, (self.2, other.2), r.2)
        &&& call_ensures(f, (self.3, other.3), r.3)
        &&& call_ensures(f, (self.4, other.4), r.4)
        &&& call_ensures(f, (self.5, other.5), r.5)
        &&& call_ensures(f, (self.6, other.6), r.6)
        &&& call_ensures(f, (self.7, other.7), r.7)
    }

    /// Applies `f` to the lanes of `self` and `other` at equal positions. `f`
    /// must accept every such pair.
    pub fn map_binary<F: Fn(u64, u64) -> u64>(self, other: ulong8, f: &F) -> (r: ulong8)
        requires
            call_requires(f, (self.0, other.0)),
            call_requires(f, (self.1, other.1)),
            call_requires(f, (self.2, other.2)),
            call_requires(f, (self.3, other.3)),
            call_requires(f, (self.4, other.4)),
            call_requires(f, (self.5, other.5)),
            call_requires(f, (self.6, other.6)),
            call_requires(f, (self.7, other.7)),
        ensures
            self.is_map_binary(other, *f, r),
    {
        ulong8(
            f(self.0, other.0),
            f(self.1, other.1),
            f(self.2, other.2),
            f(self.3, other.3),
            f(self.4, other.4),
            f(self.5, other.5),
            f(self.6, other.6),
            f(self.7, other.7),
        )
    }

    /// Whether `r` may come of gathering the lanes with `f`, lane 0 first.
    pub open spec fn is_reduce<F: Fn(u64, u64) -> u64>(self, f: F, r: u64) -> bool {
        exists|a1: u64, a2: u64, a3: u64, a4: u64, a5: u64, a6: u64|
            {
                &&& call_ensures(f, (self.1, self.0), a1)
                &&& call_ensures(f, (self.2, a1), a2)
                &&& call_ensures(f, (self.3, a2), a3)
                &&& call_ensures(f, (self.4, a3), a4)
                &&& call_ensures(f, (self.5, a4), a5)
                &&& call_ensures(f, (self.6, a5), a6)
                &&& call_ensures(f, (self.7, a6), r)
            }
    }

    /// Combines the lanes into one value with `f`, lane 0 first: each
    /// further lane is handed to `f` together with what was gathered from the
    /// lanes before it. `f` must accept every pair of values.
    pub fn reduce<F: Fn(u64, u64) -> u64>(self, f: &F) -> (r: u64)
        requires
            forall|x: u64, y: u64| call_requires(f, (x, y)),
        ensures
            self.is_reduce(*f, r),
    {
        let a1 = f(self.1, self.0);
        let a2 = f(self.2, a1);
        let a3 = f(self.3, a2);
        let a4 = f(self.4, a3);
        let a5 = f(self.5, a4);
        let a6 = f(self.6, a5);
        f(self.7, a6)
    }

    /// Whether `r` may come of reducing the lanes with `f`, by halving: the
    /// first half is combined with the second, lane by lane, and the result is
    /// reduced in turn.
    pub open spec fn is_fold<F: Fn(u64, u64) -> u64>(self, f: F, r: u64) -> bool {
        exists|h: ulong4|
            #[trigger] self.spec_lo().is_map_binary(self.spec_hi(), f, h) && h.is_fold(f, r)
    }

    /// Reduces the lanes to one value with `f`, in the order of the
    /// reductions: by halving: the first half is combined with the second,
    /// lane by lane, and the result is reduced in turn. `f` must accept every
    /// pair of values.
    pub fn fold<F: Fn(u64, u64) -> u64>(self, f: &F) -> (r: u64)
        requires
            forall|x: u64, y: u64| call_requires(f, (x, y)),
        ensures
            self.is_fold(*f, r),
    {
        let h = self.lo().map_binary(self.hi(), f);
        h.fold(f)
    }

    /// The mask with all ones in the lanes where the lanes of `self` and
    /// `other` satisfy `==`, and all zeros in the others.
    pub open spec fn spec_eq(self, other: ulong8) -> long8 {
        long8::of(lanes::map2(self@, other@, |x: u64, y: u64| bits64::mask(x == y)))
    }

    /// Compares lane by lane with `==`. Every lane of the result is all ones
    /// or all zeros.
    #[verifier::when_used_as_spec(spec_eq)]
    pub fn eq(self, other: ulong8) -> (r: long8)
        ensures
            r == self.spec_eq(other),
            r.is_mask(),
    {
        long8(
            bits64::mask_of(self.0 == other.0),
            bits64::mask_of(self.1 == other.1),
            bits64::mask_of(self.2 == other.2),
            bits64::mask_of(self.3 == other.3),
            bits64::mask_of(self.4 == other.4),
            bits64::mask_of(self.5 == other.5),
            bits64::mask_of(self.6 == other.6),
            bits64::mask_of(self.7 == other.7),
        )
    }

    /// The mask with all ones in the lanes where the lanes of `self` and
    /// `other` satisfy `!=`, and all zeros in the others.
    pub open spec fn spec_ne(self, other: ulong8) -> long8 {
        long8::of(lanes::map2(self@, other@, |x: u64, y: u64| bits64::mask(x != y)))
    }

    /// Compares lane by lane with `!=`. Every lane of the result is all ones
    /// or all zeros.
    #[verifier::when_used_as_spec(spec_ne)]
    pub fn ne(self, other: ulong8) -> (r: long8)
        ensures
            r == self.spec_ne(other),
            r.is_mask(),
    {
        long8(
            bits64::mask_of(self.0 != other.0),
            bits64::mask_of(self.1 != other.1),
            bits64::mask_of(self.2 != other.2),
            bits64::mask_of(self.3 != other.3),
            bits64::mask_of(self.4 != other.4),
            bits64::mask_of(self.5 != other.5),
            bits64::mask_of(self.6 != other.6),
            bits64::mask_of(self.7 != other.7),
        )
    }

    /// The mask with all ones in the lanes where the lanes of `self` and
    /// `other` satisfy `<`, and all zeros in the others.
    pub open spec fn spec_lt(self, other: ulong8) -> long8 {
        long8::of(lanes::map2(self@, other@, |x: u64, y: u64| bits64::mask(x < y)))
    }

    /// Compares lane by lane with `<`. Every lane of the result is all ones
    /// or all zeros.
    #[verifier::when_used_as_spec(spec_lt)]
    pub fn lt(self, other: ulong8) -> (r: long8)
        ensures
            r == self.spec_lt(other),
            r.is_mask(),
    {
        long8(
            bits64::mask_of(self.0 < other.0),
            bits64::mask_of(self.1 < other.1),
            bits64::mask_of(self.2 < other.2),
            bits64::mask_of(self.3 < other.3),
            bits64::mask_of(self.4 < other.4),
            bits64::mask_of(self.5 < other.5),
            bits64::mask_of(self.6 < other.6),
            bits64::mask_of(self.7 < other.7),
        )
    }

    /// The mask with all ones in the lanes where the lanes of `self` and
    /// `other` satisfy `<=`, and all zeros in the others.
    pub open spec fn spec_le(self, other: ulong8) -> long8 {
        long8::of(lanes::map2(self@, other@, |x: u64, y: u64| bits64::mask(x <= y)))
    }

    /// Compares lane by lane with `<=`. Every lane of the result is all ones
    /// or all zeros.
    #[verifier::when_used_as_spec(spec_le)]
    pub fn le(self, other: ulong8) -> (r: long8)
        ensures
            r == self.spec_le(other),
            r.is_mask(),
    {
        long8(
            bits64::mask_of(self.0 <= other.0),
            bits64::mask_of(self.1 <= other.1),
            bits64::mask_of(self.2 <= other.2),
            bits64::mask_of(self.3 <= other.3),
            bits64::mask_of(self.4 <= other.4),
            bits64::mask_of(self.5 <= other.5),
            bits64::mask_of(self.6 <= other.6),
            bits64::mask_of(self.7 <= other.7),
        )
    }

    /// The mask with all ones in the lanes where the lanes of `self` and
    /// `other` satisfy `>`, and all zeros in the others.
    pub open spec fn spec_gt(self, other: ulong8) -> long8 {
        long8::of(lanes::map2(self@, other@, |x: u64, y: u64| bits64::mask(x > y)))
    }

    /// Compares lane by lane with `>`. Every lane of the result is all ones
    /// or all zeros.
    #[verifier::when_used_as_spec(spec_gt)]
    pub fn gt(self, other: ulong8) -> (r: long8)
        ensures
            r == self.spec_gt(other),
            r.is_mask(),
    {
        long8(
            bits64::mask_of(self.0 > other.0),
            bits64::mask_of(self.1 > other.1),
            bits64::mask_of(self.2 > other.2),
            bits64::mask_of(self.3 > other.3),
            bits64::mask_of(self.4 > other.4),
            bits64::mask_of(self.5 > other.5),
            bits64::mask_of(self.6 > other.6),
            bits64::mask_of(self.7 > other.7),
        )
    }

    /// The mask with all ones in the lanes where the lanes of `self` and
    /// `other` satisfy `>=`, and all zeros in the others.
    pub open spec fn spec_ge(self, other: ulong8) -> long8 {
        long8::of(lanes::map2(self@, other@, |x: u64, y: u64| bits64::mask(x >= y)))
    }

    /// Compares lane by lane with `>=`. Every lane of the result is all ones
    /// or all zeros.
    #[verifier::when_used_as_spec(spec_ge)]
    pub fn ge(self, other: ulong8) -> (r: long8)
        ensures
            r == self.spec_ge(other),
            r.is_mask(),
    {
        long8(
            bits64::mask_of(self.0 >= other.0),
            bits64::mask_of(self.1 >= other.1),
            bits64::mask_of(self.2 >= other.2),
            bits64::mask_of(self.3 >= other.3),
            bits64::mask_of(self.4 >= other.4),
            bits64::mask_of(self.5 >= other.5),
            bits64::mask_of(self.6 >= other.6),
            bits64::mask_of(self.7 >= other.7),
        )
    }

    /// The bits of `x` where the bit of `mask` is not set, and the bits of `y`
    /// where it is.
    pub open spec fn spec_bitselect(x: ulong8, y: ulong8, mask: long8) -> ulong8 {
        mask.spec_bitselect(x, y)
    }

    /// Selects between `x` and `y` bit by bit: where a lane of `mask` is all
    /// ones the lane of `y` is taken, where it is all zeros the lane of `x`.
    #[verifier::when_used_as_spec(spec_bitselect)]
    pub fn bitselect(x: ulong8, y: ulong8, mask: long8) -> (r: ulong8)
        ensures
            r == ulong8::spec_bitselect(x, y, mask),
            forall|i: int|
                0 <= i < 8 && mask@[i] == bits64::ALL_ONES ==> #[trigger] r@[i] == y@[i],
            forall|i: int|
                0 <= i < 8 && mask@[i] == bits64::ALL_ZEROS ==> #[trigger] r@[i] == x@[i],
    {
        mask.bitselect(x, y)
    }

    /// The greater of the two lanes at every position.
    pub open spec fn spec_max(self, other: ulong8) -> ulong8 {
        ulong8::of(lanes::map2(self@, other@, |x: u64, y: u64| if y > x { y } else { x }))
    }

    /// Takes the greater lane at every position: the lanes of `other` are
    /// selected where they are greater than those of `self`.
    #[verifier::when_used_as_spec(spec_max)]
    pub fn max(self, other: ulong8) -> (r: ulong8)
        ensures
            r == self.spec_max(other),
    {
        let greater = other.gt(self);
        proof {
            bits64::lemma_select_unsigned(greater.0, self.0, other.0);
            bits64::lemma_select_unsigned(greater.1, self.1, other.1);
            bits64::lemma_select_unsigned(greater.2, self.2, other.2);
            bits64::lemma_select_unsigned(greater.3, self.3, other.3);
            bits64::lemma_select_unsigned(greater.4, self.4, other.4);
            bits64::lemma_select_unsigned(greater.5, self.5, other.5);
            bits64::lemma_select_unsigned(greater.6, self.6, other.6);
            bits64::lemma_select_unsigned(greater.7, self.7, other.7);
        }
        greater.bitselect(self, other)
    }

    /// The lesser of the two lanes at every position.
    pub open spec fn spec_min(self, other: ulong8) -> ulong8 {
        ulong8::of(lanes::map2(self@, other@, |x: u64, y: u64| if y < x { y } else { x }))
    }

    /// Takes the lesser lane at every position: the lanes of `other` are
    /// selected where they are less than those of `self`.
    #[verifier::when_used_as_spec(spec_min)]
    pub fn min(self, other: ulong8) -> (r: ulong8)
        ensures
            r == self.spec_min(other),
    {
        let less = other.lt(self);
        proof {
            bits64::lemma_select_unsigned(less.0, self.0, other.0);
            bits64::lemma_select_unsigned(less.1, self.1, other.1);
            bits64::lemma_select_unsigned(less.2, self.2, other.2);
            bits64::lemma_select_unsigned(less.3, self.3, other.3);
            bits64::lemma_select_unsigned(less.4, self.4, other.4);
            bits64::lemma_select_unsigned(less.5, self.5, other.5);
            bits64::lemma_select_unsigned(less.6, self.6, other.6);
            bits64::lemma_select_unsigned(less.7, self.7, other.7);
        }
        less.bitselect(self, other)
    }

    /// Every lane raised to at least the lane of `min`, then lowered to at most
    /// the lane of `max`.
    pub open spec fn spec_clamp(self, min: ulong8, max: ulong8) -> ulong8 {
        self.spec_max(min).spec_min(max)
    }

    /// Restricts every lane to the range that the lanes of `min` and `max`
    /// give. Where a lane of `min` is greater than that of `max`, the lane of
    /// `max` is the result.
    #[verifier::when_used_as_spec(spec_clamp)]
    pub fn clamp(self, min: ulong8, max: ulong8) -> (r: ulong8)
        ensures
            r == self.spec_clamp(min, max),
    {
        self.max(min).min(max)
    }

    /// The vector itself: no lane is negative.
    pub open spec fn spec_abs(self) -> ulong8 {
        self
    }

    /// The absolute value of every lane, which is the lane itself.
    #[verifier::when_used_as_spec(spec_abs)]
    pub fn abs(self) -> (r: ulong8)
        ensures
            r == self.spec_abs(),
    {
        self
    }

    /// The sum of the lanes, wrapping on overflow.
    pub open spec fn spec_reduce_add(self) -> u64 {
        lanes::fold(self@, |x: u64, y: u64| x.wrapping_add(y))
    }

    /// Reduces the lanes to the sum of the lanes, wrapping on overflow, by
    /// halving: the first half is combined with the second, lane by lane, and
    /// the result is reduced in turn.
    #[verifier::when_used_as_spec(spec_reduce_add)]
    pub fn reduce_add(self) -> (r: u64)
        ensures
            r == self.spec_reduce_add(),
    {
        proof {
            reveal_with_fuel(lanes::fold, 5);
        }
        self.lo().add(self.hi()).reduce_add()
    }

    /// The least lane.
    pub open spec fn spec_reduce_min(self) -> u64 {
        lanes::fold(self@, |x: u64, y: u64| if y < x { y } else { x })
    }

    /// Reduces the lanes to the least lane, by halving: the first half is
    /// combined with the second, lane by lane, and the result is reduced in
    /// turn.
    #[verifier::when_used_as_spec(spec_reduce_min)]
    pub fn reduce_min(self) -> (r: u64)
        ensures
            r == self.spec_reduce_min(),
    {
        proof {
            reveal_with_fuel(lanes::fold, 5);
        }
        self.lo().min(self.hi()).reduce_min()
    }

    /// The greatest lane.
    pub open spec fn spec_reduce_max(self) -> u64 {
        lanes::fold(self@, |x: u64, y: u64| if y > x { y } else { x })
    }

    /// Reduces the lanes to the greatest lane, by halving: the first half is
    /// combined with the second, lane by lane, and the result is reduced in
    /// turn.
    #[verifier::when_used_as_spec(spec_reduce_max)]
    pub fn reduce_max(self) -> (r: u64)
        ensures
            r == self.spec_reduce_max(),
    {
        proof {
            reveal_with_fuel(lanes::fold, 5);
        }
        self.lo().max(self.hi()).reduce_max()
    }

    /// The conjunction of the bits of all lanes.
    pub open spec fn spec_reduce_and(self) -> u64 {
        lanes::fold(self@, |x: u64, y: u64| x & y)
    }

    /// Reduces the lanes to the conjunction of the bits of all lanes, by
    /// halving: the first half is combined with the second, lane by lane, and
    /// the result is reduced in turn.
    #[verifier::when_used_as_spec(spec_reduce_and)]
    pub fn reduce_and(self) -> (r: u64)
        ensures
            r == self.spec_reduce_and(),
    {
        proof {
            reveal_with_fuel(lanes::fold, 5);
        }
        self.lo().bitand(self.hi()).reduce_and()
    }

    /// The disjunction of the bits of all lanes.
    pub open spec fn spec_reduce_or(self) -> u64 {
        lanes::fold(self@, |x: u64, y: u64| x | y)
    }

    /// Reduces the lanes to the disjunction of the bits of all lanes, by
    /// halving: the first half is combined with the second, lane by lane, and
    /// the result is reduced in turn.
    #[verifier::when_used_as_spec(spec_reduce_or)]
    pub fn reduce_or(self) -> (r: u64)
        ensures
            r == self.spec_reduce_or(),
    {
        proof {
            reveal_with_fuel(lanes::fold, 5);
        }
        self.lo().bitor(self.hi()).reduce_or()
    }

    /// The exclusive disjunction of the bits of all lanes.
    pub open spec fn spec_reduce_xor(self) -> u64 {
        lanes::fold(self@, |x: u64, y: u64| x ^ y)
    }

    /// Reduces the lanes to the exclusive disjunction of the bits of all
    /// lanes, by halving: the first half is combined with the second, lane by
    /// lane, and the result is reduced in turn.
    #[verifier::when_used_as_spec(spec_reduce_xor)]
    pub fn reduce_xor(self) -> (r: u64)
        ensures
            r == self.spec_reduce_xor(),
    {
        proof {
            reveal_with_fuel(lanes::fold, 5);
        }
        self.lo().bitxor(self.hi()).reduce_xor()
    }

    /// Whether the sign bit of every lane is set.
    pub open spec fn spec_all(self) -> bool {
        forall|i: int| 0 <= i < 8 ==> bits64::sign_set_unsigned(#[trigger] self@[i])
    }

    /// Whether the sign bit of every lane is set: the sign bit of the
    /// conjunction of all lanes is tested. On a mask this tells whether every
    /// lane is true.
    #[verifier::when_used_as_spec(spec_all)]
    pub fn all(self) -> (r: bool)
        ensures
            r == self.spec_all(),
    {
        let bits = self.reduce_and();
        proof {
            reveal_with_fuel(lanes::fold, 5);
            bits64::lemma_sign_bits_unsigned(self.0, self.4);
            bits64::lemma_sign_bits_unsigned(self.1, self.5);
            bits64::lemma_sign_bits_unsigned(self.2, self.6);
            bits64::lemma_sign_bits_unsigned(self.3, self.7);
            bits64::lemma_sign_bits_unsigned(self.0 & self.4, self.2 & self.6);
            bits64::lemma_sign_bits_unsigned(self.1 & self.5, self.3 & self.7);
            bits64::lemma_sign_bits_unsigned(
                (self.0 & self.4) & (self.2 & self.6),
                (self.1 & self.5) & (self.3 & self.7),
            );
            bits64::lemma_sign_bits_unsigned(bits, bits);
        }
        bits & bits64::SIGN_BIT != 0
    }

    /// Whether the sign bit of some lane is set.
    pub open spec fn spec_any(self) -> bool {
        exists|i: int| 0 <= i < 8 && bits64::sign_set_unsigned(#[trigger] self@[i])
    }

    /// Whether the sign bit of some lane is set: the sign bit of the
    /// disjunction of all lanes is tested. On a mask this tells whether some
    /// lane is true.
    #[verifier::when_used_as_spec(spec_any)]
    pub fn any(self) -> (r: bool)
        ensures
            r == self.spec_any(),
    {
        let bits = self.reduce_or();
        proof {
            reveal_with_fuel(lanes::fold, 5);
            bits64::lemma_sign_bits_unsigned(self.0, self.4);
            bits64::lemma_sign_bits_unsigned(self.1, self.5);
            bits64::lemma_sign_bits_unsigned(self.2, self.6);
            bits64::lemma_sign_bits_unsigned(self.3, self.7);
            bits64::lemma_sign_bits_unsigned(self.0 | self.4, self.2 | self.6);
            bits64::lemma_sign_bits_unsigned(self.1 | self.5, self.3 | self.7);
            bits64::lemma_sign_bits_unsigned(
                (self.0 | self.4) | (self.2 | self.6),
                (self.1 | self.5) | (self.3 | self.7),
            );
            bits64::lemma_sign_bits_unsigned(bits, bits);
        }
        bits & bits64::SIGN_BIT != 0
    }

    /// The sum of the products of the lanes at equal positions, every product
    /// and every sum wrapped into the lane.
    pub open spec fn spec_dot(self, other: ulong8) -> u64 {
        lanes::fold(
            lanes::map2(self@, other@, |x: u64, y: u64| x.wrapping_mul(y)),
            |x: u64, y: u64| x.wrapping_add(y),
        )
    }

    /// The dot product: the lanes are multiplied pairwise and the products
    /// are added up as `reduce_add` does.
    #[verifier::when_used_as_spec(spec_dot)]
    pub fn dot(self, other: ulong8) -> (r: u64)
        ensures
            r == self.spec_dot(other),
    {
        proof {
            reveal_with_fuel(lanes::fold, 5);
        }
        self.mul(other).reduce_add()
    }

    /// Every lane cut down to its low 8 bits, read as `i8`.
    pub open spec fn spec_to_char(self) -> char8 {
        char8::of(lanes::map1(self@, |x: u64| x as i8))
    }

    /// Converts every lane to `i8` as a cast does: the high bits are dropped
    /// and a value that does not fit wraps around.
    #[verifier::when_used_as_spec(spec_to_char)]
    pub fn to_char(self) -> (r: char8)
        ensures
            r == self.spec_to_char(),
    {
        char8(
            #[verifier::truncate] (self.0 as i8),
            #[verifier::truncate] (self.1 as i8),
            #[verifier::truncate] (self.2 as i8),
            #[verifier::truncate] (self.3 as i8),
            #[verifier::truncate] (self.4 as i8),
            #[verifier::truncate] (self.5 as i8),
            #[verifier::truncate] (self.6 as i8),
            #[verifier::truncate] (self.7 as i8),
        )
    }

    /// Every lane as the `i8` nearest to its value.
    pub open spec fn spec_to_char_sat(self) -> char8 {
        char8::of(lanes::map1(self@, |x: u64| bits8::saturate_signed(x as int)))
    }

    /// Converts every lane to `i8`, saturating at the bounds of `i8`.
    /// The lanes are lowered to the greatest value of `i8` and then converted.
    #[verifier::when_used_as_spec(spec_to_char_sat)]
    pub fn to_char_sat(self) -> (r: char8)
        ensures
            r == self.spec_to_char_sat(),
    {
        self.min(ulong8::broadcast(i8::MAX as u64)).to_char()
    }

    /// Every lane cut down to its low 8 bits, read as `u8`.
    pub open spec fn spec_to_uchar(self) -> uchar8 {
        uchar8::of(lanes::map1(self@, |x: u64| x as u8))
    }

    /// Converts every lane to `u8` as a cast does: the high bits are dropped
    /// and a value that does not fit wraps around.
    #[verifier::when_used_as_spec(spec_to_uchar)]
    pub fn to_uchar(self) -> (r: uchar8)
        ensures
            r == self.spec_to_uchar(),
    {
        uchar8(
            #[verifier::truncate] (self.0 as u8),
            #[verifier::truncate] (self.1 as u8),
            #[verifier::truncate] (self.2 as u8),
            #[verifier::truncate] (self.3 as u8),
            #[verifier::truncate] (self.4 as u8),
            #[verifier::truncate] (self.5 as u8),
            #[verifier::truncate] (self.6 as u8),
            #[verifier::truncate] (self.7 as u8),
        )
    }

    /// Every lane as the `u8` nearest to its value.
    pub open spec fn spec_to_uchar_sat(self) -> uchar8 {
        uchar8::of(lanes::map1(self@, |x: u64| bits8::saturate_unsigned(x as int)))
    }

    /// Converts every lane to `u8`, saturating at the bounds of `u8`.
    /// The lanes are lowered to the greatest value of `u8` and then converted.
    #[verifier::when_used_as_spec(spec_to_uchar_sat)]
    pub fn to_uchar_sat(self) -> (r: uchar8)
        ensures
            r == self.spec_to_uchar_sat(),
    {
        self.min(ulong8::broadcast(u8::MAX as u64)).to_uchar()
    }

    /// Every lane cut down to its low 16 bits, read as `i16`.
    pub open spec fn spec_to_short(self) -> short8 {
        short8::of(lanes::map1(self@, |x: u64| x as i16))
    }

    /// Converts every lane to `i16` as a cast does: the high bits are dropped
    /// and a value that does not fit wraps around.
    #[verifier::when_used_as_spec(spec_to_short)]
    pub fn to_short(self) -> (r: short8)
        ensures
            r == self.spec_to_short(),
    {
        short8(
            #[verifier::truncate] (self.0 as i16),
            #[verifier::truncate] (self.1 as i16),
            #[verifier::truncate] (self.2 as i16),
            #[verifier::truncate] (self.3 as i16),
            #[verifier::truncate] (self.4 as i16),
            #[verifier::truncate] (self.5 as i16),
            #[verifier::truncate] (self.6 as i16),
            #[verifier::truncate] (self.7 as i16),
        )
    }

    /// Every lane as the `i16` nearest to its value.
    pub open spec fn spec_to_short_sat(self) -> short8 {
        short8::of(lanes::map1(self@, |x: u64| bits16::saturate_signed(x as int)))
    }

    /// Converts every lane to `i16`, saturating at the bounds of `i16`.
    /// The lanes are lowered to the greatest value of `i16` and then converted.
    #[verifier::when_used_as_spec(spec_to_short_sat)]
    pub fn to_short_sat(self) -> (r: short8)
        ensures
            r == self.spec_to_short_sat(),
    {
        self.min(ulong8::broadcast(i16::MAX as u64)).to_short()
    }

    /// Every lane cut down to its low 16 bits, read as `u16`.
    pub open spec fn spec_to_ushort(self) -> ushort8 {
        ushort8::of(lanes::map1(self@, |x: u64| x as u16))
    }

    /// Converts every lane to `u16` as a cast does: the high bits are dropped
    /// and a value that does not fit wraps around.
    #[verifier::when_used_as_spec(spec_to_ushort)]
    pub fn to_ushort(self) -> (r: ushort8)
        ensures
            r == self.spec_to_ushort(),
    {
        ushort8(
            #[verifier::truncate] (self.0 as u16),
            #[verifier::truncate] (self.1 as u16),
            #[verifier::truncate] (self.2 as u16),
            #[verifier::truncate] (self.3 as u16),
            #[verifier::truncate] (self.4 as u16),
            #[verifier::truncate] (self.5 as u16),
            #[verifier::truncate] (self.6 as u16),
            #[verifier::truncate] (self.7 as u16),
        )
    }

    /// Every lane as the `u16` nearest to its value.
    pub open spec fn spec_to_ushort_sat(self) -> ushort8 {
        ushort8::of(lanes::map1(self@, |x: u64| bits16::saturate_unsigned(x as int)))
    }

    /// Converts every lane to `u16`, saturating at the bounds of `u16`.
    /// The lanes are lowered to the greatest value of `u16` and then converted.
    #[verifier::when_used_as_spec(spec_to_ushort_sat)]
    pub fn to_ushort_sat(self) -> (r: ushort8)
        ensures
            r == self.spec_to_ushort_sat(),
    {
        self.min(ulong8::broadcast(u16::MAX as u64)).to_ushort()
    }

    /// Every lane cut down to its low 32 bits, read as `i32`.
    pub open spec fn spec_to_int(self) -> int8 {
        int8::of(lanes::map1(self@, |x: u64| x as i32))
    }

    /// Converts every lane to `i32` as a cast does: the high bits are dropped
    /// and a value that does not fit wraps around.
    #[verifier::when_used_as_spec(spec_to_int)]
    pub fn to_int(self) -> (r: int8)
        ensures
            r == self.spec_to_int(),
    {
        int8(
            #[verifier::truncate] (self.0 as i32),
            #[verifier::truncate] (self.1 as i32),
            #[verifier::truncate] (self.2 as i32),
            #[verifier::truncate] (self.3 as i32),
            #[verifier::truncate] (self.4 as i32),
            #[verifier::truncate] (self.5 as i32),
            #[verifier::truncate] (self.6 as i32),
            #[verifier::truncate] (self.7 as i32),
        )
    }

    /// Every lane as the `i32` nearest to its value.
    pub open spec fn spec_to_int_sat(self) -> int8 {
        int8::of(lanes::map1(self@, |x: u64| bits32::saturate_signed(x as int)))
    }

    /// Converts every lane to `i32`, saturating at the bounds of `i32`.
    /// The lanes are lowered to the greatest value of `i32` and then converted.
    #[verifier::when_used_as_spec(spec_to_int_sat)]
    pub fn to_int_sat(self) -> (r: int8)
        ensures
            r == self.spec_to_int_sat(),
    {
        self.min(ulong8::broadcast(i32::MAX as u64)).to_int()
    }

    /// Every lane cut down to its low 32 bits, read as `u32`.
    pub open spec fn spec_to_uint(self) -> uint8 {
        uint8::of(lanes::map1(self@, |x: u64| x as u32))
    }

    /// Converts every lane to `u32` as a cast does: the high bits are dropped
    /// and a value that does not fit wraps around.
    #[verifier::when_used_as_spec(spec_to_uint)]
    pub fn to_uint(self) -> (r: uint8)
        ensures
            r == self.spec_to_uint(),
    {
        uint8(
            #[verifier::truncate] (self.0 as u32),
            #[verifier::truncate] (self.1 as u32),
            #[verifier::truncate] (self.2 as u32),
            #[verifier::truncate] (self.3 as u32),
            #[verifier::truncate] (self.4 as u32),
            #[verifier::truncate] (self.5 as u32),
            #[verifier::truncate] (self.6 as u32),
            #[verifier::truncate] (self.7 as u32),
        )
    }

    /// Every lane as the `u32` nearest to its value.
    pub open spec fn spec_to_uint_sat(self) -> uint8 {
        uint8::of(lanes::map1(self@, |x: u64| bits32::saturate_unsigned(x as int)))
    }

    /// Converts every lane to `u32`, saturating at the bounds of `u32`.
    /// The lanes are lowered to the greatest value of `u32` and then converted.
    #[verifier::when_used_as_spec(spec_to_uint_sat)]
    pub fn to_uint_sat(self) -> (r: uint8)
        ensures
            r == self.spec_to_uint_sat(),
    {
        self.min(ulong8::broadcast(u32::MAX as u64)).to_uint()
    }

    /// Every lane as the `i64` with the same bits.
    pub open spec fn spec_to_long(self) -> long8 {
        long8::of(lanes::map1(self@, |x: u64| x as i64))
    }

    /// Converts every lane to `i64` as a cast does: a value that does not fit
    /// wraps around.
    #[verifier::when_used_as_spec(spec_to_long)]
    pub fn to_long(self) -> (r: long8)
        ensures
            r == self.spec_to_long(),
    {
        long8(
            #[verifier::truncate] (self.0 as i64),
            #[verifier::truncate] (self.1 as i64),
            #[verifier::truncate] (self.2 as i64),
            #[verifier::truncate] (self.3 as i64),
            #[verifier::truncate] (self.4 as i64),
            #[verifier::truncate] (self.5 as i64),
            #[verifier::truncate] (self.6 as i64),
            #[verifier::truncate] (self.7 as i64),
        )
    }

    /// Every lane as the `i64` nearest to its value.
    pub open spec fn spec_to_long_sat(self) -> long8 {
        long8::of(lanes::map1(self@, |x: u64| bits64::saturate_signed(x as int)))
    }

    /// Converts every lane to `i64`, saturating at the bounds of `i64`.
    /// The lanes are lowered to the greatest value of `i64` and then converted.
    #[verifier::when_used_as_spec(spec_to_long_sat)]
    pub fn to_long_sat(self) -> (r: long8)
        ensures
            r == self.spec_to_long_sat(),
    {
        self.min(ulong8::broadcast(i64::MAX as u64)).to_long()
    }

    /// The vector itself.
    pub open spec fn spec_to_ulong(self) -> ulong8 {
        self
    }

    /// The vector itself.
    #[verifier::when_used_as_spec(spec_to_ulong)]
    pub fn to_ulong(self) -> (r: ulong8)
        ensures
            r == self.spec_to_ulong(),
    {
        self
    }

    /// Every lane as the `u64` nearest to its value.
    pub open spec fn spec_to_ulong_sat(self) -> ulong8 {
        self
    }

    /// Converts every lane to `u64`, saturating at the bounds of `u64`.
    /// Nothing is to be done.
    #[verifier::when_used_as_spec(spec_to_ulong_sat)]
    pub fn to_ulong_sat(self) -> (r: ulong8)
        ensures
            r == self.spec_to_ulong_sat(),
    {
        self
    }

    /// Whether `r` may hold the lanes of `self` as single precision numbers,
    /// where `cast` converts one lane and gives the bit pattern of the number.
    pub open spec fn is_to_float<C: Fn(u64) -> u32>(self, cast: C, r: float8) -> bool {
        &&& call_ensures(cast, (self.0,), r.0)
        &&& call_ensures(cast, (self.1,), r.1)
        &&& call_ensures(cast, (self.2,), r.2)
        &&& call_ensures(cast, (self.3,), r.3)
        &&& call_ensures(cast, (self.4,), r.4)
        &&& call_ensures(cast, (self.5,), r.5)
        &&& call_ensures(cast, (self.6,), r.6)
        &&& call_ensures(cast, (self.7,), r.7)
    }

    /// Converts every lane to a single precision number by `cast`.
    pub fn to_float<C: Fn(u64) -> u32>(self, cast: &C) -> (r: float8)
        requires
            forall|x: u64| call_requires(cast, (x,)),
        ensures
            self.is_to_float(*cast, r),
    {
        float8(
            cast(self.0),
            cast(self.1),
            cast(self.2),
            cast(self.3),
            cast(self.4),
            cast(self.5),
            cast(self.6),
            cast(self.7),
        )
    }

    /// Whether `r` may hold the lanes of `self` as double precision numbers,
    /// where `cast` converts one lane and gives the bit pattern of the number.
    pub open spec fn is_to_double<C: Fn(u64) -> u64>(self, cast: C, r: double8) -> bool {
        &&& call_ensures(cast, (self.0,), r.0)
        &&& call_ensures(cast, (self.1,), r.1)
        &&& call_ensures(cast, (self.2,), r.2)
        &&& call_ensures(cast, (self.3,), r.3)
        &&& call_ensures(cast, (self.4,), r.4)
        &&& call_ensures(cast, (self.5,), r.5)
        &&& call_ensures(cast, (self.6,), r.6)
        &&& call_ensures(cast, (self.7,), r.7)
    }

    /// Converts every lane to a double precision number by `cast`.
    pub fn to_double<C: Fn(u64) -> u64>(self, cast: &C) -> (r: double8)
        requires
            forall|x: u64| call_requires(cast, (x,)),
        ensures
            self.is_to_double(*cast, r),
    {
        double8(
            cast(self.0),
            cast(self.1),
            cast(self.2),
            cast(self.3),
            cast(self.4),
            cast(self.5),
            cast(self.6),
            cast(self.7),
        )
    }

    /// A comparison of a vector with itself for equality is true in every
    /// lane, and one for inequality is true in none.
    pub proof fn lemma_eq_reflexive(x: ulong8)
        ensures
            x.eq(x).all(),
            !x.ne(x).any(),
    {
    }

    /// The dot product does not depend on the order of its operands.
    pub proof fn lemma_dot_commutative(a: ulong8, b: ulong8)
        ensures
            a.dot(b) == b.dot(a),
    {
        assert(lanes::map2(a@, b@, |x: u64, y: u64| x.wrapping_mul(y)) =~= lanes::map2(
            b@,
            a@,
            |x: u64, y: u64| x.wrapping_mul(y),
        ));
    }

    /// Reinterpreting the unsigned vector of the same shape reads its lanes
    /// bit for bit.
    pub proof fn lemma_bitcast_keeps_lanes(b: ulong8)
        ensures
            ulong8::bitcast(b) == ulong8::from_bits(b),
    {
        bits64::lemma_bytes_round_trip(b.0, 0, 0, 0, 0, 0, 0, 0, 0);
        bits64::lemma_bytes_round_trip(b.1, 0, 0, 0, 0, 0, 0, 0, 0);
        bits64::lemma_bytes_round_trip(b.2, 0, 0, 0, 0, 0, 0, 0, 0);
        bits64::lemma_bytes_round_trip(b.3, 0, 0, 0, 0, 0, 0, 0, 0);
        bits64::lemma_bytes_round_trip(b.4, 0, 0, 0, 0, 0, 0, 0, 0);
        bits64::lemma_bytes_round_trip(b.5, 0, 0, 0, 0, 0, 0, 0, 0);
        bits64::lemma_bytes_round_trip(b.6, 0, 0, 0, 0, 0, 0, 0, 0);
        bits64::lemma_bytes_round_trip(b.7, 0, 0, 0, 0, 0, 0, 0, 0);
    }

    /// Reinterpreting a vector as its own type changes nothing.
    pub proof fn lemma_bitcast_identity(x: ulong8)
        ensures
            ulong8::bitcast(x) == x,
    {
        bits64::lemma_bytes_round_trip(x.to_bits().0, 0, 0, 0, 0, 0, 0, 0, 0);
        bits64::lemma_bytes_round_trip(x.to_bits().1, 0, 0, 0, 0, 0, 0, 0, 0);
        bits64::lemma_bytes_round_trip(x.to_bits().2, 0, 0, 0, 0, 0, 0, 0, 0);
        bits64::lemma_bytes_round_trip(x.to_bits().3, 0, 0, 0, 0, 0, 0, 0, 0);
        bits64::lemma_bytes_round_trip(x.to_bits().4, 0, 0, 0, 0, 0, 0, 0, 0);
        bits64::lemma_bytes_round_trip(x.to_bits().5, 0, 0, 0, 0, 0, 0, 0, 0);
        bits64::lemma_bytes_round_trip(x.to_bits().6, 0, 0, 0, 0, 0, 0, 0, 0);
        bits64::lemma_bytes_round_trip(x.to_bits().7, 0, 0, 0, 0, 0, 0, 0, 0);
    }

    /// The result of `reduce_add` is the sum of the lanes, wrapped into the
    /// lane: the order in which the lanes are added plays no part.
    pub proof fn lemma_reduce_add_is_sum(x: ulong8)
        ensures
            x.reduce_add() == bits64::wrap_unsigned(x.0 + x.1 + x.2 + x.3 + x.4 + x.5 + x.6 + x.7),
    {
        reveal_with_fuel(lanes::fold, 5);
        bits64::lemma_wrap_in_range_unsigned(x.0);
        bits64::lemma_wrap_in_range_unsigned(x.1);
        bits64::lemma_wrap_in_range_unsigned(x.2);
        bits64::lemma_wrap_in_range_unsigned(x.3);
        bits64::lemma_wrap_in_range_unsigned(x.4);
        bits64::lemma_wrap_in_range_unsigned(x.5);
        bits64::lemma_wrap_in_range_unsigned(x.6);
        bits64::lemma_wrap_in_range_unsigned(x.7);
        bits64::lemma_wrapping_sum_unsigned(x.0, x.4, x.0 as int, x.4 as int);
        bits64::lemma_wrapping_sum_unsigned(x.1, x.5, x.1 as int, x.5 as int);
        bits64::lemma_wrapping_sum_unsigned(x.2, x.6, x.2 as int, x.6 as int);
        bits64::lemma_wrapping_sum_unsigned(x.3, x.7, x.3 as int, x.7 as int);
        bits64::lemma_wrapping_sum_unsigned(
            x.0.wrapping_add(x.4),
            x.2.wrapping_add(x.6),
            x.0 as int + x.4 as int,
            x.2 as int + x.6 as int,
        );
        bits64::lemma_wrapping_sum_unsigned(
            x.1.wrapping_add(x.5),
            x.3.wrapping_add(x.7),
            x.1 as int + x.5 as int,
            x.3 as int + x.7 as int,
        );
        bits64::lemma_wrapping_sum_unsigned(
            x.0.wrapping_add(x.4).wrapping_add(x.2.wrapping_add(x.6)),
            x.1.wrapping_add(x.5).wrapping_add(x.3.wrapping_add(x.7)),
            x.0 as int + x.4 as int + x.2 as int + x.6 as int,
            x.1 as int + x.5 as int + x.3 as int + x.7 as int,
        );
    }

    /// The dot product is the sum of the products of the lanes, wrapped into
    /// the lane.
    pub proof fn lemma_dot_is_sum_of_products(a: ulong8, b: ulong8)
        ensures
            a.dot(b) == bits64::wrap_unsigned(
                a.0 * b.0
                    + a.1 * b.1
                    + a.2 * b.2
                    + a.3 * b.3
                    + a.4 * b.4
                    + a.5 * b.5
                    + a.6 * b.6
                    + a.7 * b.7,
            ),
    {
        reveal_with_fuel(lanes::fold, 5);
        bits64::lemma_wrapping_product_unsigned(a.0, b.0);
        bits64::lemma_wrapping_product_unsigned(a.1, b.1);
        bits64::lemma_wrapping_product_unsigned(a.2, b.2);
        bits64::lemma_wrapping_product_unsigned(a.3, b.3);
        bits64::lemma_wrapping_product_unsigned(a.4, b.4);
        bits64::lemma_wrapping_product_unsigned(a.5, b.5);
        bits64::lemma_wrapping_product_unsigned(a.6, b.6);
        bits64::lemma_wrapping_product_unsigned(a.7, b.7);
        bits64::lemma_wrapping_sum_unsigned(
            a.0.wrapping_mul(b.0),
            a.4.wrapping_mul(b.4),
            a.0 * b.0,
            a.4 * b.4,
        );
        bits64::lemma_wrapping_sum_unsigned(
            a.1.wrapping_mul(b.1),
            a.5.wrapping_mul(b.5),
            a.1 * b.1,
            a.5 * b.5,
        );
        bits64::lemma_wrapping_sum_unsigned(
            a.2.wrapping_mul(b.2),
            a.6.wrapping_mul(b.6),
            a.2 * b.2,
            a.6 * b.6,
        );
        bits64::lemma_wrapping_sum_unsigned(
            a.3.wrapping_mul(b.3),
            a.7.wrapping_mul(b.7),
            a.3 * b.3,
            a.7 * b.7,
        );
        bits64::lemma_wrapping_sum_unsigned(
            a.0.wrapping_mul(b.0).wrapping_add(a.4.wrapping_mul(b.4)),
            a.2.wrapping_mul(b.2).wrapping_add(a.6.wrapping_mul(b.6)),
            a.0 * b.0 + a.4 * b.4,
            a.2 * b.2 + a.6 * b.6,
        );
        bits64::lemma_wrapping_sum_unsigned(
            a.1.wrapping_mul(b.1).wrapping_add(a.5.wrapping_mul(b.5)),
            a.3.wrapping_mul(b.3).wrapping_add(a.7.wrapping_mul(b.7)),
            a.1 * b.1 + a.5 * b.5,
            a.3 * b.3 + a.7 * b.7,
        );
        bits64::lemma_wrapping_sum_unsigned(
            a.0.wrapping_mul(b.0)
                .wrapping_add(a.4.wrapping_mul(b.4))
                    .wrapping_add(a.2.wrapping_mul(b.2).wrapping_add(a.6.wrapping_mul(b.6))),
            a.1.wrapping_mul(b.1)
                .wrapping_add(a.5.wrapping_mul(b.5))
                    .wrapping_add(a.3.wrapping_mul(b.3).wrapping_add(a.7.wrapping_mul(b.7))),
            a.0 * b.0 + a.4 * b.4 + a.2 * b.2 + a.6 * b.6,
            a.1 * b.1 + a.5 * b.5 + a.3 * b.3 + a.7 * b.7,
        );
    }

    /// The result of `reduce_min` is a lane, and no lane is less than it.
    pub proof fn lemma_reduce_min_is_least(x: ulong8)
        ensures
            forall|i: int| 0 <= i < 8 ==> x.reduce_min() <= #[trigger] x@[i],
            exists|i: int| 0 <= i < 8 && x.reduce_min() == #[trigger] x@[i],
    {
        reveal_with_fuel(lanes::fold, 5);
        assert({
            &&& x@[0] == x.0
            &&& x@[1] == x.1
            &&& x@[2] == x.2
            &&& x@[3] == x.3
            &&& x@[4] == x.4
            &&& x@[5] == x.5
            &&& x@[6] == x.6
            &&& x@[7] == x.7
        });
    }

    /// The result of `reduce_max` is a lane, and no lane is greater than it.
    pub proof fn lemma_reduce_max_is_greatest(x: ulong8)
        ensures
            forall|i: int| 0 <= i < 8 ==> x.reduce_max() >= #[trigger] x@[i],
            exists|i: int| 0 <= i < 8 && x.reduce_max() == #[trigger] x@[i],
    {
        reveal_with_fuel(lanes::fold, 5);
        assert({
            &&& x@[0] == x.0
            &&& x@[1] == x.1
            &&& x@[2] == x.2
            &&& x@[3] == x.3
            &&& x@[4] == x.4
            &&& x@[5] == x.5
            &&& x@[6] == x.6
            &&& x@[7] == x.7
        });
    }

}

/// `v[i]` is lane `i`, for `i` below 8.
impl core::ops::Index<u32> for ulong8 {
    type Output = u64;

    fn index(&self, index: u32) -> (r: &u64)
        ensures
            *r == self@[index as int],
    {
        if index == 0 {
            &self.0
        } else if index == 1 {
            &self.1
        } else if index == 2 {
            &self.2
        } else if index == 3 {
            &self.3
        } else if index == 4 {
            &self.4
        } else if index == 5 {
            &self.5
        } else if index == 6 {
            &self.6
        } else {
            &self.7
        }
    }
}

impl vstd::std_specs::core::IndexSpecImpl<u32> for ulong8 {
    open spec fn index_req(&self, index: &u32) -> bool {
        *index < 8
    }
}

/// The bytes of the vector: the lanes in order, each with its least significant
/// byte first.
impl Bitcast for ulong8 {
    type Image = [u8; 64];

    open spec fn spec_image(self) -> Seq<u8> {
        bits64::image(self.spec_to_bits()@)
    }

    open spec fn spec_from_image(image: Seq<u8>) -> ulong8 {
        ulong8::spec_from_bits(ulong8::of(bits64::lanes_of_image(image)))
    }

    fn image(self) -> (r: [u8; 64]) {
        let b = self.to_bits();
        let l0 = bits64::bytes(b.0);
        let l1 = bits64::bytes(b.1);
        let l2 = bits64::bytes(b.2);
        let l3 = bits64::bytes(b.3);
        let l4 = bits64::bytes(b.4);
        let l5 = bits64::bytes(b.5);
        let l6 = bits64::bytes(b.6);
        let l7 = bits64::bytes(b.7);
        let r = [
            l0[0], l0[1], l0[2], l0[3], l0[4], l0[5], l0[6], l0[7],
            l1[0], l1[1], l1[2], l1[3], l1[4], l1[5], l1[6], l1[7],
            l2[0], l2[1], l2[2], l2[3], l2[4], l2[5], l2[6], l2[7],
            l3[0], l3[1], l3[2], l3[3], l3[4], l3[5], l3[6], l3[7],
            l4[0], l4[1], l4[2], l4[3], l4[4], l4[5], l4[6], l4[7],
            l5[0], l5[1], l5[2], l5[3], l5[4], l5[5], l5[6], l5[7],
            l6[0], l6[1], l6[2], l6[3], l6[4], l6[5], l6[6], l6[7],
            l7[0], l7[1], l7[2], l7[3], l7[4], l7[5], l7[6], l7[7],
        ];
        proof {
            let s = self.spec_to_bits()@;
            assert(s.len() == 8);
            assert forall|j: int| 0 <= j < 64 implies r@[j] == bits64::byte(s[j / 8], j % 8) by {
                assert(s[0] == b.0);
                assert(s[1] == b.1);
                assert(s[2] == b.2);
                assert(s[3] == b.3);
                assert(s[4] == b.4);
                assert(s[5] == b.5);
                assert(s[6] == b.6);
                assert(s[7] == b.7);
            }
        }
        r
    }

    fn from_image(image: [u8; 64]) -> (r: ulong8) {
        ulong8::from_bits(
            ulong8(
                bits64::join(
                    image[0],
                    image[1],
                    image[2],
                    image[3],
                    image[4],
                    image[5],
                    image[6],
                    image[7],
                ),
                bits64::join(
                    image[8],
                    image[9],
                    image[10],
                    image[11],
                    image[12],
                    image[13],
                    image[14],
                    image[15],
                ),
                bits64::join(
                    image[16],
                    image[17],
                    image[18],
                    image[19],
                    image[20],
                    image[21],
                    image[22],
                    image[23],
                ),
                bits64::join(
                    image[24],
                    image[25],
                    image[26],
                    image[27],
                    image[28],
                    image[29],
                    image[30],
                    image[31],
                ),
                bits64::join(
                    image[32],
                    image[33],
                    image[34],
                    image[35],
                    image[36],
                    image[37],
                    image[38],
                    image[39],
                ),
                bits64::join(
                    image[40],
                    image[41],
                    image[42],
                    image[43],
                    image[44],
                    image[45],
                    image[46],
                    image[47],
                ),
                bits64::join(
                    image[48],
                    image[49],
                    image[50],
                    image[51],
                    image[52],
                    image[53],
                    image[54],
                    image[55],
                ),
                bits64::join(
                    image[56],
                    image[57],
                    image[58],
                    image[59],
                    image[60],
                    image[61],
                    image[62],
                    image[63],
                ),
            ),
        )
    }
}

/// Lane-wise sum, wrapping on overflow.
impl core::ops::Add for ulong8 {
    type Output = ulong8;

    fn add(self, rhs: ulong8) -> (r: ulong8) {
        ulong8(
            self.0.wrapping_add(rhs.0),
            self.1.wrapping_add(rhs.1),
            self.2.wrapping_add(rhs.2),
            self.3.wrapping_add(rhs.3),
            self.4.wrapping_add(rhs.4),
            self.5.wrapping_add(rhs.5),
            self.6.wrapping_add(rhs.6),
            self.7.wrapping_add(rhs.7),
        )
    }
}

impl vstd::std_specs::ops::AddSpecImpl for ulong8 {
    open spec fn obeys_add_spec() -> bool {
        true
    }

    open spec fn add_req(self, rhs: ulong8) -> bool {
        true
    }

    open spec fn add_spec(self, rhs: ulong8) -> ulong8 {
        ulong8::of(lanes::map2(self@, rhs@, |x: u64, y: u64| x.wrapping_add(y)))
    }
}

/// The same with `rhs` in every lane of the right operand.
impl core::ops::Add<u64> for ulong8 {
    type Output = ulong8;

    fn add(self, rhs: u64) -> (r: ulong8) {
        self.add(ulong8::broadcast(rhs))
    }
}

impl vstd::std_specs::ops::AddSpecImpl<u64> for ulong8 {
    open spec fn obeys_add_spec() -> bool {
        true
    }

    open spec fn add_req(self, rhs: u64) -> bool {
        true
    }

    open spec fn add_spec(self, rhs: u64) -> ulong8 {
        vstd::std_specs::ops::AddSpec::add_spec(self, ulong8::broadcast(rhs))
    }
}

/// The same with `self` in every lane of the left operand.
impl core::ops::Add<ulong8> for u64 {
    type Output = ulong8;

    fn add(self, rhs: ulong8) -> (r: ulong8) {
        ulong8::broadcast(self).add(rhs)
    }
}

impl vstd::std_specs::ops::AddSpecImpl<ulong8> for u64 {
    open spec fn obeys_add_spec() -> bool {
        true
    }

    open spec fn add_req(self, rhs: ulong8) -> bool {
        true
    }

    open spec fn add_spec(self, rhs: ulong8) -> ulong8 {
        vstd::std_specs::ops::AddSpec::add_spec(ulong8::broadcast(self), rhs)
    }
}

/// Lane-wise difference, wrapping on overflow.
impl core::ops::Sub for ulong8 {
    type Output = ulong8;

    fn sub(self, rhs: ulong8) -> (r: ulong8) {
        ulong8(
            self.0.wrapping_sub(rhs.0),
            self.1.wrapping_sub(rhs.1),
            self.2.wrapping_sub(rhs.2),
            self.3.wrapping_sub(rhs.3),
            self.4.wrapping_sub(rhs.4),
            self.5.wrapping_sub(rhs.5),
            self.6.wrapping_sub(rhs.6),
            self.7.wrapping_sub(rhs.7),
        )
    }
}

impl vstd::std_specs::ops::SubSpecImpl for ulong8 {
    open spec fn obeys_sub_spec() -> bool {
        true
    }

    open spec fn sub_req(self, rhs: ulong8) -> bool {
        true
    }

    open spec fn sub_spec(self, rhs: ulong8) -> ulong8 {
        ulong8::of(lanes::map2(self@, rhs@, |x: u64, y: u64| x.wrapping_sub(y)))
    }
}

/// The same with `rhs` in every lane of the right operand.
impl core::ops::Sub<u64> for ulong8 {
    type Output = ulong8;

    fn sub(self, rhs: u64) -> (r: ulong8) {
        self.sub(ulong8::broadcast(rhs))
    }
}

impl vstd::std_specs::ops::SubSpecImpl<u64> for ulong8 {
    open spec fn obeys_sub_spec() -> bool {
        true
    }

    open spec fn sub_req(self, rhs: u64) -> bool {
        true
    }

    open spec fn sub_spec(self, rhs: u64) -> ulong8 {
        vstd::std_specs::ops::SubSpec::sub_spec(self, ulong8::broadcast(rhs))
    }
}

/// The same with `self` in every lane of the left operand.
impl core::ops::Sub<ulong8> for u64 {
    type Output = ulong8;

    fn sub(self, rhs: ulong8) -> (r: ulong8) {
        ulong8::broadcast(self).sub(rhs)
    }
}

impl vstd::std_specs::ops::SubSpecImpl<ulong8> for u64 {
    open spec fn obeys_sub_spec() -> bool {
        true
    }

    open spec fn sub_req(self, rhs: ulong8) -> bool {
        true
    }

    open spec fn sub_spec(self, rhs: ulong8) -> ulong8 {
        vstd::std_specs::ops::SubSpec::sub_spec(ulong8::broadcast(self), rhs)
    }
}

/// Lane-wise product, wrapping on overflow.
impl core::ops::Mul for ulong8 {
    type Output = ulong8;

    fn mul(self, rhs: ulong8) -> (r: ulong8) {
        ulong8(
            self.0.wrapping_mul(rhs.0),
            self.1.wrapping_mul(rhs.1),
            self.2.wrapping_mul(rhs.2),
            self.3.wrapping_mul(rhs.3),
            self.4.wrapping_mul(rhs.4),
            self.5.wrapping_mul(rhs.5),
            self.6.wrapping_mul(rhs.6),
            self.7.wrapping_mul(rhs.7),
        )
    }
}

impl vstd::std_specs::ops::MulSpecImpl for ulong8 {
    open spec fn obeys_mul_spec() -> bool {
        true
    }

    open spec fn mul_req(self, rhs: ulong8) -> bool {
        true
    }

    open spec fn mul_spec(self, rhs: ulong8) -> ulong8 {
        ulong8::of(lanes::map2(self@, rhs@, |x: u64, y: u64| x.wrapping_mul(y)))
    }
}

/// The same with `rhs` in every lane of the right operand.
impl core::ops::Mul<u64> for ulong8 {
    type Output = ulong8;

    fn mul(self, rhs: u64) -> (r: ulong8) {
        self.mul(ulong8::broadcast(rhs))
    }
}

impl vstd::std_specs::ops::MulSpecImpl<u64> for ulong8 {
    open spec fn obeys_mul_spec() -> bool {
        true
    }

    open spec fn mul_req(self, rhs: u64) -> bool {
        true
    }

    open spec fn mul_spec(self, rhs: u64) -> ulong8 {
        vstd::std_specs::ops::MulSpec::mul_spec(self, ulong8::broadcast(rhs))
    }
}

/// The same with `self` in every lane of the left operand.
impl core::ops::Mul<ulong8> for u64 {
    type Output = ulong8;

    fn mul(self, rhs: ulong8) -> (r: ulong8) {
        ulong8::broadcast(self).mul(rhs)
    }
}

impl vstd::std_specs::ops::MulSpecImpl<ulong8> for u64 {
    open spec fn obeys_mul_spec() -> bool {
        true
    }

    open spec fn mul_req(self, rhs: ulong8) -> bool {
        true
    }

    open spec fn mul_spec(self, rhs: ulong8) -> ulong8 {
        vstd::std_specs::ops::MulSpec::mul_spec(ulong8::broadcast(self), rhs)
    }
}

/// Lane-wise quotient, rounded towards zero. No lane of the divisor may be
/// zero.
impl core::ops::Div for ulong8 {
    type Output = ulong8;

    fn div(self, rhs: ulong8) -> (r: ulong8) {
        ulong8(
            self.0 / rhs.0,
            self.1 / rhs.1,
            self.2 / rhs.2,
            self.3 / rhs.3,
            self.4 / rhs.4,
            self.5 / rhs.5,
            self.6 / rhs.6,
            self.7 / rhs.7,
        )
    }
}

impl vstd::std_specs::ops::DivSpecImpl for ulong8 {
    open spec fn obeys_div_spec() -> bool {
        true
    }

    open spec fn div_req(self, rhs: ulong8) -> bool {
        &&& rhs.0 != 0
        &&& rhs.1 != 0
        &&& rhs.2 != 0
        &&& rhs.3 != 0
        &&& rhs.4 != 0
        &&& rhs.5 != 0
        &&& rhs.6 != 0
        &&& rhs.7 != 0
    }

    open spec fn div_spec(self, rhs: ulong8) -> ulong8 {
        ulong8::of(lanes::map2(self@, rhs@, |x: u64, y: u64| bits64::div_unsigned(x, y)))
    }
}

/// The same with `rhs` in every lane of the right operand.
impl core::ops::Div<u64> for ulong8 {
    type Output = ulong8;

    fn div(self, rhs: u64) -> (r: ulong8) {
        self.div(ulong8::broadcast(rhs))
    }
}

impl vstd::std_specs::ops::DivSpecImpl<u64> for ulong8 {
    open spec fn obeys_div_spec() -> bool {
        true
    }

    open spec fn div_req(self, rhs: u64) -> bool {
        rhs != 0
    }

    open spec fn div_spec(self, rhs: u64) -> ulong8 {
        vstd::std_specs::ops::DivSpec::div_spec(self, ulong8::broadcast(rhs))
    }
}

/// The same with `self` in every lane of the left operand.
impl core::ops::Div<ulong8> for u64 {
    type Output = ulong8;

    fn div(self, rhs: ulong8) -> (r: ulong8) {
        ulong8::broadcast(self).div(rhs)
    }
}

impl vstd::std_specs::ops::DivSpecImpl<ulong8> for u64 {
    open spec fn obeys_div_spec() -> bool {
        true
    }

    open spec fn div_req(self, rhs: ulong8) -> bool {
        &&& rhs.0 != 0
        &&& rhs.1 != 0
        &&& rhs.2 != 0
        &&& rhs.3 != 0
        &&& rhs.4 != 0
        &&& rhs.5 != 0
        &&& rhs.6 != 0
        &&& rhs.7 != 0
    }

    open spec fn div_spec(self, rhs: ulong8) -> ulong8 {
        vstd::std_specs::ops::DivSpec::div_spec(ulong8::broadcast(self), rhs)
    }
}

/// Lane-wise conjunction of the bits.
impl core::ops::BitAnd for ulong8 {
    type Output = ulong8;

    fn bitand(self, rhs: ulong8) -> (r: ulong8) {
        ulong8(
            self.0 & rhs.0,
            self.1 & rhs.1,
            self.2 & rhs.2,
            self.3 & rhs.3,
            self.4 & rhs.4,
            self.5 & rhs.5,
            self.6 & rhs.6,
            self.7 & rhs.7,
        )
    }
}

impl vstd::std_specs::ops::BitAndSpecImpl for ulong8 {
    open spec fn obeys_bitand_spec() -> bool {
        true
    }

    open spec fn bitand_req(self, rhs: ulong8) -> bool {
        true
    }

    open spec fn bitand_spec(self, rhs: ulong8) -> ulong8 {
        ulong8::of(lanes::map2(self@, rhs@, |x: u64, y: u64| x & y))
    }
}

/// The same with `rhs` in every lane of the right operand.
impl core::ops::BitAnd<u64> for ulong8 {
    type Output = ulong8;

    fn bitand(self, rhs: u64) -> (r: ulong8) {
        self.bitand(ulong8::broadcast(rhs))
    }
}

impl vstd::std_specs::ops::BitAndSpecImpl<u64> for ulong8 {
    open spec fn obeys_bitand_spec() -> bool {
        true
    }

    open spec fn bitand_req(self, rhs: u64) -> bool {
        true
    }

    open spec fn bitand_spec(self, rhs: u64) -> ulong8 {
        vstd::std_specs::ops::BitAndSpec::bitand_spec(self, ulong8::broadcast(rhs))
    }
}

/// The same with `self` in every lane of the left operand.
impl core::ops::BitAnd<ulong8> for u64 {
    type Output = ulong8;

    fn bitand(self, rhs: ulong8) -> (r: ulong8) {
        ulong8::broadcast(self).bitand(rhs)
    }
}

impl vstd::std_specs::ops::BitAndSpecImpl<ulong8> for u64 {
    open spec fn obeys_bitand_spec() -> bool {
        true
    }

    open spec fn bitand_req(self, rhs: ulong8) -> bool {
        true
    }

    open spec fn bitand_spec(self, rhs: ulong8) -> ulong8 {
        vstd::std_specs::ops::BitAndSpec::bitand_spec(ulong8::broadcast(self), rhs)
    }
}

/// Lane-wise disjunction of the bits.
impl core::ops::BitOr for ulong8 {
    type Output = ulong8;

    fn bitor(self, rhs: ulong8) -> (r: ulong8) {
        ulong8(
            self.0 | rhs.0,
            self.1 | rhs.1,
            self.2 | rhs.2,
            self.3 | rhs.3,
            self.4 | rhs.4,
            self.5 | rhs.5,
            self.6 | rhs.6,
            self.7 | rhs.7,
        )
    }
}

impl vstd::std_specs::ops::BitOrSpecImpl for ulong8 {
    open spec fn obeys_bitor_spec() -> bool {
        true
    }

    open spec fn bitor_req(self, rhs: ulong8) -> bool {
        true
    }

    open spec fn bitor_spec(self, rhs: ulong8) -> ulong8 {
        ulong8::of(lanes::map2(self@, rhs@, |x: u64, y: u64| x | y))
    }
}

/// The same with `rhs` in every lane of the right operand.
impl core::ops::BitOr<u64> for ulong8 {
    type Output = ulong8;

    fn bitor(self, rhs: u64) -> (r: ulong8) {
        self.bitor(ulong8::broadcast(rhs))
    }
}

impl vstd::std_specs::ops::BitOrSpecImpl<u64> for ulong8 {
    open spec fn obeys_bitor_spec() -> bool {
        true
    }

    open spec fn bitor_req(self, rhs: u64) -> bool {
        true
    }

    open spec fn bitor_spec(self, rhs: u64) -> ulong8 {
        vstd::std_specs::ops::BitOrSpec::bitor_spec(self, ulong8::broadcast(rhs))
    }
}

/// The same with `self` in every lane of the left operand.
impl core::ops::BitOr<ulong8> for u64 {
    type Output = ulong8;

    fn bitor(self, rhs: ulong8) -> (r: ulong8) {
        ulong8::broadcast(self).bitor(rhs)
    }
}

impl vstd::std_specs::ops::BitOrSpecImpl<ulong8> for u64 {
    open spec fn obeys_bitor_spec() -> bool {
        true
    }

    open spec fn bitor_req(self, rhs: ulong8) -> bool {
        true
    }

    open spec fn bitor_spec(self, rhs: ulong8) -> ulong8 {
        vstd::std_specs::ops::BitOrSpec::bitor_spec(ulong8::broadcast(self), rhs)
    }
}

/// Lane-wise exclusive disjunction of the bits.
impl core::ops::BitXor for ulong8 {
    type Output = ulong8;

    fn bitxor(self, rhs: ulong8) -> (r: ulong8) {
        ulong8(
            self.0 ^ rhs.0,
            self.1 ^ rhs.1,
            self.2 ^ rhs.2,
            self.3 ^ rhs.3,
            self.4 ^ rhs.4,
            self.5 ^ rhs.5,
            self.6 ^ rhs.6,
            self.7 ^ rhs.7,
        )
    }
}

impl vstd::std_specs::ops::BitXorSpecImpl for ulong8 {
    open spec fn obeys_bitxor_spec() -> bool {
        true
    }

    open spec fn bitxor_req(self, rhs: ulong8) -> bool {
        true
    }

    open spec fn bitxor_spec(self, rhs: ulong8) -> ulong8 {
        ulong8::of(lanes::map2(self@, rhs@, |x: u64, y: u64| x ^ y))
    }
}

/// The same with `rhs` in every lane of the right operand.
impl core::ops::BitXor<u64> for ulong8 {
    type Output = ulong8;

    fn bitxor(self, rhs: u64) -> (r: ulong8) {
        self.bitxor(ulong8::broadcast(rhs))
    }
}

impl vstd::std_specs::ops::BitXorSpecImpl<u64> for ulong8 {
    open spec fn obeys_bitxor_spec() -> bool {
        true
    }

    open spec fn bitxor_req(self, rhs: u64) -> bool {
        true
    }

    open spec fn bitxor_spec(self, rhs: u64) -> ulong8 {
        vstd::std_specs::ops::BitXorSpec::bitxor_spec(self, ulong8::broadcast(rhs))
    }
}

/// The same with `self` in every lane of the left operand.
impl core::ops::BitXor<ulong8> for u64 {
    type Output = ulong8;

    fn bitxor(self, rhs: ulong8) -> (r: ulong8) {
        ulong8::broadcast(self).bitxor(rhs)
    }
}

impl vstd::std_specs::ops::BitXorSpecImpl<ulong8> for u64 {
    open spec fn obeys_bitxor_spec() -> bool {
        true
    }

    open spec fn bitxor_req(self, rhs: ulong8) -> bool {
        true
    }

    open spec fn bitxor_spec(self, rhs: ulong8) -> ulong8 {
        vstd::std_specs::ops::BitXorSpec::bitxor_spec(ulong8::broadcast(self), rhs)
    }
}

/// Lane-wise shift to the left. Every distance must be less than the width of
/// a lane.
impl core::ops::Shl for ulong8 {
    type Output = ulong8;

    fn shl(self, rhs: ulong8) -> (r: ulong8) {
        ulong8(
            self.0 << rhs.0,
            self.1 << rhs.1,
            self.2 << rhs.2,
            self.3 << rhs.3,
            self.4 << rhs.4,
            self.5 << rhs.5,
            self.6 << rhs.6,
            self.7 << rhs.7,
        )
    }
}

impl vstd::std_specs::ops::ShlSpecImpl for ulong8 {
    open spec fn obeys_shl_spec() -> bool {
        true
    }

    open spec fn shl_req(self, rhs: ulong8) -> bool {
        &&& bits64::shift_in_range_unsigned(rhs.0)
        &&& bits64::shift_in_range_unsigned(rhs.1)
        &&& bits64::shift_in_range_unsigned(rhs.2)
        &&& bits64::shift_in_range_unsigned(rhs.3)
        &&& bits64::shift_in_range_unsigned(rhs.4)
        &&& bits64::shift_in_range_unsigned(rhs.5)
        &&& bits64::shift_in_range_unsigned(rhs.6)
        &&& bits64::shift_in_range_unsigned(rhs.7)
    }

    open spec fn shl_spec(self, rhs: ulong8) -> ulong8 {
        ulong8::of(lanes::map2(self@, rhs@, |x: u64, y: u64| bits64::shl_unsigned(x, y)))
    }
}

/// The same with `rhs` in every lane of the right operand.
impl core::ops::Shl<u64> for ulong8 {
    type Output = ulong8;

    fn shl(self, rhs: u64) -> (r: ulong8) {
        self.shl(ulong8::broadcast(rhs))
    }
}

impl vstd::std_specs::ops::ShlSpecImpl<u64> for ulong8 {
    open spec fn obeys_shl_spec() -> bool {
        true
    }

    open spec fn shl_req(self, rhs: u64) -> bool {
        bits64::shift_in_range_unsigned(rhs)
    }

    open spec fn shl_spec(self, rhs: u64) -> ulong8 {
        vstd::std_specs::ops::ShlSpec::shl_spec(self, ulong8::broadcast(rhs))
    }
}

/// The same with `self` in every lane of the left operand.
impl core::ops::Shl<ulong8> for u64 {
    type Output = ulong8;

    fn shl(self, rhs: ulong8) -> (r: ulong8) {
        ulong8::broadcast(self).shl(rhs)
    }
}

impl vstd::std_specs::ops::ShlSpecImpl<ulong8> for u64 {
    open spec fn obeys_shl_spec() -> bool {
        true
    }

    open spec fn shl_req(self, rhs: ulong8) -> bool {
        &&& bits64::shift_in_range_unsigned(rhs.0)
        &&& bits64::shift_in_range_unsigned(rhs.1)
        &&& bits64::shift_in_range_unsigned(rhs.2)
        &&& bits64::shift_in_range_unsigned(rhs.3)
        &&& bits64::shift_in_range_unsigned(rhs.4)
        &&& bits64::shift_in_range_unsigned(rhs.5)
        &&& bits64::shift_in_range_unsigned(rhs.6)
        &&& bits64::shift_in_range_unsigned(rhs.7)
    }

    open spec fn shl_spec(self, rhs: ulong8) -> ulong8 {
        vstd::std_specs::ops::ShlSpec::shl_spec(ulong8::broadcast(self), rhs)
    }
}

/// Lane-wise shift to the right. Every distance must be less than the width of
/// a lane.
impl core::ops::Shr for ulong8 {
    type Output = ulong8;

    fn shr(self, rhs: ulong8) -> (r: ulong8) {
        ulong8(
            self.0 >> rhs.0,
            self.1 >> rhs.1,
            self.2 >> rhs.2,
            self.3 >> rhs.3,
            self.4 >> rhs.4,
            self.5 >> rhs.5,
            self.6 >> rhs.6,
            self.7 >> rhs.7,
        )
    }
}

impl vstd::std_specs::ops::ShrSpecImpl for ulong8 {
    open spec fn obeys_shr_spec() -> bool {
        true
    }

    open spec fn shr_req(self, rhs: ulong8) -> bool {
        &&& bits64::shift_in_range_unsigned(rhs.0)
        &&& bits64::shift_in_range_unsigned(rhs.1)
        &&& bits64::shift_in_range_unsigned(rhs.2)
        &&& bits64::shift_in_range_unsigned(rhs.3)
        &&& bits64::shift_in_range_unsigned(rhs.4)
        &&& bits64::shift_in_range_unsigned(rhs.5)
        &&& bits64::shift_in_range_unsigned(rhs.6)
        &&& bits64::shift_in_range_unsigned(rhs.7)
    }

    open spec fn shr_spec(self, rhs: ulong8) -> ulong8 {
        ulong8::of(lanes::map2(self@, rhs@, |x: u64, y: u64| bits64::shr_unsigned(x, y)))
    }
}

/// The same with `rhs` in every lane of the right operand.
impl core::ops::Shr<u64> for ulong8 {
    type Output = ulong8;

    fn shr(self, rhs: u64) -> (r: ulong8) {
        self.shr(ulong8::broadcast(rhs))
    }
}

impl vstd::std_specs::ops::ShrSpecImpl<u64> for ulong8 {
    open spec fn obeys_shr_spec() -> bool {
        true
    }

    open spec fn shr_req(self, rhs: u64) -> bool {
        bits64::shift_in_range_unsigned(rhs)
    }

    open spec fn shr_spec(self, rhs: u64) -> ulong8 {
        vstd::std_specs::ops::ShrSpec::shr_spec(self, ulong8::broadcast(rhs))
    }
}

/// The same with `self` in every lane of the left operand.
impl core::ops::Shr<ulong8> for u64 {
    type Output = ulong8;

    fn shr(self, rhs: ulong8) -> (r: ulong8) {
        ulong8::broadcast(self).shr(rhs)
    }
}

impl vstd::std_specs::ops::ShrSpecImpl<ulong8> for u64 {
    open spec fn obeys_shr_spec() -> bool {
        true
    }

    open spec fn shr_req(self, rhs: ulong8) -> bool {
        &&& bits64::shift_in_range_unsigned(rhs.0)
        &&& bits64::shift_in_range_unsigned(rhs.1)
        &&& bits64::shift_in_range_unsigned(rhs.2)
        &&& bits64::shift_in_range_unsigned(rhs.3)
        &&& bits64::shift_in_range_unsigned(rhs.4)
        &&& bits64::shift_in_range_unsigned(rhs.5)
        &&& bits64::shift_in_range_unsigned(rhs.6)
        &&& bits64::shift_in_range_unsigned(rhs.7)
    }

    open spec fn shr_spec(self, rhs: ulong8) -> ulong8 {
        vstd::std_specs::ops::ShrSpec::shr_spec(ulong8::broadcast(self), rhs)
    }
}

/// Lane-wise inversion of the bits.
impl core::ops::Not for ulong8 {
    type Output = ulong8;

    fn not(self) -> (r: ulong8) {
        ulong8(!self.0, !self.1, !self.2, !self.3, !self.4, !self.5, !self.6, !self.7)
    }
}

impl vstd::std_specs::ops::NotSpecImpl for ulong8 {
    open spec fn obeys_not_spec() -> bool {
        true
    }

    open spec fn not_req(self) -> bool {
        true
    }

    open spec fn not_spec(self) -> ulong8 {
        ulong8::of(lanes::map1(self@, |x: u64| bits64::not_unsigned(x)))
    }
}

} // verus!
