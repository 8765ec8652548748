//! `double4`: four lanes of double precision numbers.
//!
//! The lanes hold the bit patterns of the numbers. What is decided by bits
//! alone is done here: moving lanes, comparing, selecting, and changing the
//! sign.
use crate::bitcast::Bitcast;
use crate::bits64;
use crate::lanes;
use crate::select::Select;
use crate::vector::char4::char4;
use crate::vector::double2::double2;
use crate::vector::float4::float4;
use crate::vector::int4::int4;
use crate::vector::long4::long4;
use crate::vector::short4::short4;
use crate::vector::uchar4::uchar4;
use crate::vector::uint4::uint4;
use crate::vector::ulong4::ulong4;
use crate::vector::ushort4::ushort4;
use vstd::prelude::*;
use vstd::std_specs::cmp::PartialEqSpecImpl;

verus! {

/// Four lanes of double precision numbers, each held as its bit
/// pattern in a `u64`.
#[allow(non_camel_case_types)]
#[derive(Clone, Copy, Debug)]
pub struct double4(pub u64, pub u64, pub u64, pub u64);

impl View for double4 {
    type V = Seq<u64>;

    /// The bit patterns of the lanes in order, lane 0 first.
    open spec fn view(&self) -> Seq<u64> {
        Seq::new(4, |i: int| self.lane(i))
    }
}

/// Two vectors are equal when the numbers in all their lanes are: a vector
/// with a NaN in it is equal to nothing, and the two zeros are equal.
impl PartialEq for double4 {
    fn eq(&self, other: &double4) -> (r: bool) {
        double4::eq(*self, *other).all()
    }
}

impl PartialEqSpecImpl for double4 {
    open spec fn obeys_eq_spec() -> bool {
        true
    }

    open spec fn eq_spec(&self, other: &double4) -> bool {
        self.spec_eq(*other).spec_all()
    }
}

impl double4 {
    /// Lane `i` of the vector.
    pub open spec fn lane(self, i: int) -> u64 {
        if i == 0 {
            self.0
        } else if i == 1 {
            self.1
        } else if i == 2 {
            self.2
        } else {
            self.3
        }
    }

    /// The vector whose lanes are the first four entries of `s`.
    pub open spec fn of(s: Seq<u64>) -> double4 {
        double4(s[0], s[1], s[2], s[3])
    }

    /// The vector with `x` in every lane.
    pub open spec fn spec_broadcast(x: u64) -> double4 {
        double4::of(lanes::splat(x, 4))
    }

    /// Fills every lane with `x`.
    #[verifier::when_used_as_spec(spec_broadcast)]
    pub fn broadcast(x: u64) -> (r: double4)
        ensures
            r == double4::spec_broadcast(x),
    {
        double4(x, x, x, x)
    }

    /// The vector whose lanes have the bit patterns of the lanes of `b`.
    pub open spec fn spec_from_bits(b: ulong4) -> double4 {
        double4::of(b@)
    }

    /// Reads the lanes of `b` as lanes of this type, bit for bit.
    #[verifier::when_used_as_spec(spec_from_bits)]
    pub fn from_bits(b: ulong4) -> (r: double4)
        ensures
            r == double4::spec_from_bits(b),
    {
        double4(b.0, b.1, b.2, b.3)
    }

    /// The unsigned vector whose lanes have the bit patterns of the lanes of
    /// `self`.
    pub open spec fn spec_to_bits(self) -> ulong4 {
        ulong4::of(self@)
    }

    /// Reads the lanes as unsigned lanes, bit for bit.
    #[verifier::when_used_as_spec(spec_to_bits)]
    pub fn to_bits(self) -> (r: ulong4)
        ensures
            r == self.spec_to_bits(),
    {
        ulong4(self.0, self.1, self.2, self.3)
    }

    /// The vector of this type that occupies the bytes that `x` occupies.
    pub open spec fn spec_bitcast<T: Bitcast<Image = [u8; 32]>>(x: T) -> double4 {
        double4::spec_from_image(x.spec_image())
    }

    /// Reinterprets the bytes of `x` as a vector of this type. `x` may be of
    /// any vector type that occupies 32 bytes; a type of another size is not
    /// accepted. No bit is dropped or made up.
    #[verifier::when_used_as_spec(spec_bitcast)]
    pub fn bitcast<T: Bitcast<Image = [u8; 32]>>(x: T) -> (r: double4)
        ensures
            r == double4::spec_bitcast(x),
    {
        double4::from_image(x.image())
    }

    /// Lane `i`, for `i` below 4.
    pub open spec fn spec_extract(self, i: u32) -> u64 {
        self@[i as int]
    }

    /// Reads lane `i`.
    #[verifier::when_used_as_spec(spec_extract)]
    pub fn extract(self, i: u32) -> (r: u64)
        requires
            i < 4,
        ensures
            r == self.spec_extract(i),
    {
        if i == 0 {
            self.0
        } else if i == 1 {
            self.1
        } else if i == 2 {
            self.2
        } else {
            self.3
        }
    }

    /// The vector with lane `i` replaced by `x`, for `i` below 4.
    pub open spec fn spec_replace(self, i: u32, x: u64) -> double4 {
        double4::of(self@.update(i as int, x))
    }

    /// Replaces lane `i` by `x` and leaves the other lanes as they are.
    #[verifier::when_used_as_spec(spec_replace)]
    pub fn replace(self, i: u32, x: u64) -> (r: double4)
        requires
            i < 4,
        ensures
            r == self.spec_replace(i, x),
    {
        if i == 0 {
            double4(x, self.1, self.2, self.3)
        } else if i == 1 {
            double4(self.0, x, self.2, self.3)
        } else if i == 2 {
            double4(self.0, self.1, x, self.3)
        } else {
            double4(self.0, self.1, self.2, x)
        }
    }

    /// The first half of the lanes.
    pub open spec fn spec_lo(self) -> double2 {
        double2::of(lanes::lower_half(self@, bits64::FLOAT_ZERO))
    }

    /// The first half of the lanes.
    #[verifier::when_used_as_spec(spec_lo)]
    pub fn lo(self) -> (r: double2)
        ensures
            r == self.spec_lo(),
    {
        double2(self.0, self.1)
    }

    /// The second half of the lanes.
    pub open spec fn spec_hi(self) -> double2 {
        double2::of(lanes::upper_half(self@, bits64::FLOAT_ZERO))
    }

    /// The second half of the lanes.
    #[verifier::when_used_as_spec(spec_hi)]
    pub fn hi(self) -> (r: double2)
        ensures
            r == self.spec_hi(),
    {
        double2(self.2, self.3)
    }

    /// The lanes at even positions.
    pub open spec fn spec_even(self) -> double2 {
        double2::of(lanes::even_lanes(self@, bits64::FLOAT_ZERO))
    }

    /// The lanes at even positions.
    #[verifier::when_used_as_spec(spec_even)]
    pub fn even(self) -> (r: double2)
        ensures
            r == self.spec_even(),
    {
        double2(self.0, self.2)
    }

    /// The lanes at odd positions.
    pub open spec fn spec_odd(self) -> double2 {
        double2::of(lanes::odd_lanes(self@, bits64::FLOAT_ZERO))
    }

    /// The lanes at odd positions.
    #[verifier::when_used_as_spec(spec_odd)]
    pub fn odd(self) -> (r: double2)
        ensures
            r == self.spec_odd(),
    {
        double2(self.1, self.3)
    }

    /// Whether `f` may give the lanes of `r` for the lanes of `self`.
    pub open spec fn is_map_unary<F: Fn(u64) -> u64>(self, f: F, r: double4) -> bool {
        &&& call_ensures(f, (self.0,), r.0)
        &&& call_ensures(f, (self.1,), r.1)
        &&& call_ensures(f, (self.2,), r.2)
        &&& call_ensures(f, (self.3,), r.3)
    }

    /// Applies `f` to every lane. `f` must accept every lane of the vector.
    pub fn map_unary<F: Fn(u64) -> u64>(self, f: &F) -> (r: double4)
        requires
            call_requires(f, (self.0,)),
            call_requires(f, (self.1,)),
            call_requires(f, (self.2,)),
            call_requires(f, (self.3,)),
        ensures
            self.is_map_unary(*f, r),
    {
        double4(f(self.0), f(self.1), f(self.2), f(self.3))
    }

    /// Whether `f` may give the lanes of `r` for the lanes of `self` and
    /// `other` at equal positions.
    pub open spec fn is_map_binary<F: Fn(u64, u64) -> u64>(
        self,
        other: double4,
        f: F,
        r: double4,
    ) -> bool {
        &&& call_ensures(f, (self.0, other.0), r.0)
        &&& call_ensures(f, (self.1, other.1), r.1)
        &&& call_ensures(f, (self.2, other.2), r.2)
        &&& call_ensures(f, (self.3, other.3), r.3)
    }

    /// Applies `f` to the lanes of `self` and `other` at equal positions. `f`
    /// must accept every such pair.
    pub fn map_binary<F: Fn(u64, u64) -> u64>(self, other: double4, f: &F) -> (r: double4)
        requires
            call_requires(f, (self.0, other.0)),
            call_requires(f, (self.1, other.1)),
            call_requires(f, (self.2, other.2)),
            call_requires(f, (self.3, other.3)),
        ensures
            self.is_map_binary(other, *f, r),
    {
        double4(f(self.0, other.0), f(self.1, other.1), f(self.2, other.2), f(self.3, other.3))
    }

    /// Whether `r` may come of gathering the lanes with `f`, lane 0 first.
    pub open spec fn is_reduce<F: Fn(u64, u64) -> u64>(self, f: F, r: u64) -> bool {
        exists|a1: u64, a2: u64|
            {
                &&& call_ensures(f, (self.1, self.0), a1)
                &&& call_ensures(f, (self.2, a1), a2)
                &&& call_ensures(f, (self.3, a2), r)
            }
    }

    /// Combines the lanes into one value with `f`, lane 0 first: each
    /// further lane is handed to `f` together with what was gathered from the
    /// lanes before it. `f` must accept every pair of values.
    pub fn reduce<F: Fn(u64, u64) -> u64>(self, f: &F) -> (r: u64)
        requires
            forall|x: u64, y: u64| call_requires(f, (x, y)),
        ensures
            self.is_reduce(*f, r),
    {
        let a1 = f(self.1, self.0);
        let a2 = f(self.2, a1);
        f(self.3, a2)
    }

    /// Whether `r` may come of reducing the lanes with `f`, by halving: the
    /// first half is combined with the second, lane by lane, and the result is
    /// reduced in turn.
    pub open spec fn is_fold<F: Fn(u64, u64) -> u64>(self, f: F, r: u64) -> bool {
        exists|h: double2|
            #[trigger] self.spec_lo().is_map_binary(self.spec_hi(), f, h) && h.is_fold(f, r)
    }

    /// Reduces the lanes to one value with `f`, in the order of the
    /// reductions: by halving: the first half is combined with the second,
    /// lane by lane, and the result is reduced in turn. `f` must accept every
    /// pair of values.
    pub fn fold<F: Fn(u64, u64) -> u64>(self, f: &F) -> (r: u64)
        requires
            forall|x: u64, y: u64| call_requires(f, (x, y)),
        ensures
            self.is_fold(*f, r),
    {
        let h = self.lo().map_binary(self.hi(), f);
        h.fold(f)
    }

    /// Whether some lane holds a NaN.
    pub open spec fn has_nan(self) -> bool {
        exists|i: int| 0 <= i < 4 && bits64::float_is_nan(#[trigger] self@[i])
    }

    /// The mask with all ones in the lanes where the numbers in the lanes of
    /// `self` and `other` satisfy `==`, and all zeros in the others.
    pub open spec fn spec_eq(self, other: double4) -> long4 {
        long4::of(
            lanes::map2(self@, other@, |x: u64, y: u64| bits64::mask(bits64::spec_float_eq(x, y))),
        )
    }

    /// Compares the numbers lane by lane with `==`. Every lane of the result
    /// is all ones or all zeros.
    #[verifier::when_used_as_spec(spec_eq)]
    pub fn eq(self, other: double4) -> (r: long4)
        ensures
            r == self.spec_eq(other),
            r.is_mask(),
    {
        long4(
            bits64::mask_of(bits64::float_eq(self.0, other.0)),
            bits64::mask_of(bits64::float_eq(self.1, other.1)),
            bits64::mask_of(bits64::float_eq(self.2, other.2)),
            bits64::mask_of(bits64::float_eq(self.3, other.3)),
        )
    }

    /// The mask with all ones in the lanes where the numbers in the lanes of
    /// `self` and `other` satisfy `!=`, and all zeros in the others.
    pub open spec fn spec_ne(self, other: double4) -> long4 {
        long4::of(
            lanes::map2(self@, other@, |x: u64, y: u64| bits64::mask(!bits64::spec_float_eq(x, y))),
        )
    }

    /// Compares the numbers lane by lane with `!=`. Every lane of the result
    /// is all ones or all zeros.
    #[verifier::when_used_as_spec(spec_ne)]
    pub fn ne(self, other: double4) -> (r: long4)
        ensures
            r == self.spec_ne(other),
            r.is_mask(),
    {
        long4(
            bits64::mask_of(!bits64::float_eq(self.0, other.0)),
            bits64::mask_of(!bits64::float_eq(self.1, other.1)),
            bits64::mask_of(!bits64::float_eq(self.2, other.2)),
            bits64::mask_of(!bits64::float_eq(self.3, other.3)),
        )
    }

    /// The mask with all ones in the lanes where the numbers in the lanes of
    /// `self` and `other` satisfy `<`, and all zeros in the others.
    pub open spec fn spec_lt(self, other: double4) -> long4 {
        long4::of(
            lanes::map2(self@, other@, |x: u64, y: u64| bits64::mask(bits64::spec_float_lt(x, y))),
        )
    }

    /// Compares the numbers lane by lane with `<`. Every lane of the result
    /// is all ones or all zeros.
    #[verifier::when_used_as_spec(spec_lt)]
    pub fn lt(self, other: double4) -> (r: long4)
        ensures
            r == self.spec_lt(other),
            r.is_mask(),
    {
        long4(
            bits64::mask_of(bits64::float_lt(self.0, other.0)),
            bits64::mask_of(bits64::float_lt(self.1, other.1)),
            bits64::mask_of(bits64::float_lt(self.2, other.2)),
            bits64::mask_of(bits64::float_lt(self.3, other.3)),
        )
    }

    /// The mask with all ones in the lanes where the numbers in the lanes of
    /// `self` and `other` satisfy `<=`, and all zeros in the others.
    pub open spec fn spec_le(self, other: double4) -> long4 {
        long4::of(
            lanes::map2(self@, other@, |x: u64, y: u64| bits64::mask(bits64::spec_float_le(x, y))),
        )
    }

    /// Compares the numbers lane by lane with `<=`. Every lane of the result
    /// is all ones or all zeros.
    #[verifier::when_used_as_spec(spec_le)]
    pub fn le(self, other: double4) -> (r: long4)
        ensures
            r == self.spec_le(other),
            r.is_mask(),
    {
        long4(
            bits64::mask_of(bits64::float_le(self.0, other.0)),
            bits64::mask_of(bits64::float_le(self.1, other.1)),
            bits64::mask_of(bits64::float_le(self.2, other.2)),
            bits64::mask_of(bits64::float_le(self.3, other.3)),
        )
    }

    /// The mask with all ones in the lanes where the numbers in the lanes of
    /// `self` and `other` satisfy `>`, and all zeros in the others.
    pub open spec fn spec_gt(self, other: double4) -> long4 {
        long4::of(
            lanes::map2(self@, other@, |x: u64, y: u64| bits64::mask(bits64::spec_float_lt(y, x))),
        )
    }

    /// Compares the numbers lane by lane with `>`. Every lane of the result
    /// is all ones or all zeros.
    #[verifier::when_used_as_spec(spec_gt)]
    pub fn gt(self, other: double4) -> (r: long4)
        ensures
            r == self.spec_gt(other),
            r.is_mask(),
    {
        long4(
            bits64::mask_of(bits64::float_lt(other.0, self.0)),
            bits64::mask_of(bits64::float_lt(other.1, self.1)),
            bits64::mask_of(bits64::float_lt(other.2, self.2)),
            bits64::mask_of(bits64::float_lt(other.3, self.3)),
        )
    }

    /// The mask with all ones in the lanes where the numbers in the lanes of
    /// `self` and `other` satisfy `>=`, and all zeros in the others.
    pub open spec fn spec_ge(self, other: double4) -> long4 {
        long4::of(
            lanes::map2(self@, other@, |x: u64, y: u64| bits64::mask(bits64::spec_float_le(y, x))),
        )
    }

    /// Compares the numbers lane by lane with `>=`. Every lane of the result
    /// is all ones or all zeros.
    #[verifier::when_used_as_spec(spec_ge)]
    pub fn ge(self, other: double4) -> (r: long4)
        ensures
            r == self.spec_ge(other),
            r.is_mask(),
    {
        long4(
            bits64::mask_of(bits64::float_le(other.0, self.0)),
            bits64::mask_of(bits64::float_le(other.1, self.1)),
            bits64::mask_of(bits64::float_le(other.2, self.2)),
            bits64::mask_of(bits64::float_le(other.3, self.3)),
        )
    }

    /// Every lane with its sign bit cleared.
    pub open spec fn spec_abs(self) -> double4 {
        double4::of(lanes::map1(self@, |x: u64| bits64::float_abs(x)))
    }

    /// The absolute value of every lane: with every bit but the sign bit as
    /// the mask, the bits of the lane are selected over those of zero. A NaN
    /// keeps its payload.
    #[verifier::when_used_as_spec(spec_abs)]
    pub fn abs(self) -> (r: double4)
        ensures
            r == self.spec_abs(),
    {
        proof {
            bits64::lemma_select_magnitude(0, self.0);
            bits64::lemma_select_magnitude(0, self.1);
            bits64::lemma_select_magnitude(0, self.2);
            bits64::lemma_select_magnitude(0, self.3);
        }
        long4::broadcast(i64::MAX).bitselect(double4::broadcast(bits64::FLOAT_ZERO), self)
    }

    /// Every lane of `self` with its sign bit replaced by that of the lane of
    /// `sign`.
    pub open spec fn spec_copysign(self, sign: double4) -> double4 {
        double4::of(lanes::map2(self@, sign@, |x: u64, s: u64| bits64::float_copysign(x, s)))
    }

    /// Gives every lane of `self` the sign of the lane of `sign`: the sign bit
    /// comes from `sign`, every other bit from `self`.
    #[verifier::when_used_as_spec(spec_copysign)]
    pub fn copysign(self, sign: double4) -> (r: double4)
        ensures
            r == self.spec_copysign(sign),
    {
        proof {
            bits64::lemma_select_magnitude(sign.0, self.0);
            bits64::lemma_select_magnitude(sign.1, self.1);
            bits64::lemma_select_magnitude(sign.2, self.2);
            bits64::lemma_select_magnitude(sign.3, self.3);
        }
        long4::broadcast(i64::MAX).bitselect(sign, self)
    }

    /// 0.0 in the lanes where the number in `self` is less than that in
    /// `edge`, 1.0 in the others.
    pub open spec fn spec_step(self, edge: double4) -> double4 {
        double4::of(
            lanes::map2(
                self@,
                edge@,
                |x: u64, e: u64|
                    if bits64::spec_float_lt(x, e) {
                        bits64::FLOAT_ZERO
                    } else {
                        bits64::FLOAT_ONE
                    },
            ),
        )
    }

    /// The step function with its edge at `edge`: 0.0 below the edge, 1.0 at
    /// the edge and above it, and 1.0 where a NaN is involved.
    #[verifier::when_used_as_spec(spec_step)]
    pub fn step(self, edge: double4) -> (r: double4)
        ensures
            r == self.spec_step(edge),
    {
        let below = self.lt(edge);
        proof {
            bits64::lemma_select_unsigned(below.0, bits64::FLOAT_ONE, bits64::FLOAT_ZERO);
            bits64::lemma_select_unsigned(below.1, bits64::FLOAT_ONE, bits64::FLOAT_ZERO);
            bits64::lemma_select_unsigned(below.2, bits64::FLOAT_ONE, bits64::FLOAT_ZERO);
            bits64::lemma_select_unsigned(below.3, bits64::FLOAT_ONE, bits64::FLOAT_ZERO);
        }
        below.bitselect(
            double4::broadcast(bits64::FLOAT_ONE),
            double4::broadcast(bits64::FLOAT_ZERO),
        )
    }

    /// Reinterpreting the unsigned vector of the same shape reads its lanes
    /// bit for bit.
    pub proof fn lemma_bitcast_keeps_lanes(b: ulong4)
        ensures
            double4::bitcast(b) == double4::from_bits(b),
    {
        bits64::lemma_bytes_round_trip(b.0, 0, 0, 0, 0, 0, 0, 0, 0);
        bits64::lemma_bytes_round_trip(b.1, 0, 0, 0, 0, 0, 0, 0, 0);
        bits64::lemma_bytes_round_trip(b.2, 0, 0, 0, 0, 0, 0, 0, 0);
        bits64::lemma_bytes_round_trip(b.3, 0, 0, 0, 0, 0, 0, 0, 0);
    }

    /// Reinterpreting a vector as its own type changes nothing.
    pub proof fn lemma_bitcast_identity(x: double4)
        ensures
            double4::bitcast(x) == x,
    {
        bits64::lemma_bytes_round_trip(x.to_bits().0, 0, 0, 0, 0, 0, 0, 0, 0);
        bits64::lemma_bytes_round_trip(x.to_bits().1, 0, 0, 0, 0, 0, 0, 0, 0);
        bits64::lemma_bytes_round_trip(x.to_bits().2, 0, 0, 0, 0, 0, 0, 0, 0);
        bits64::lemma_bytes_round_trip(x.to_bits().3, 0, 0, 0, 0, 0, 0, 0, 0);
    }

    /// A vector without a NaN is equal to itself in every lane, and different
    /// from itself in none.
    pub proof fn lemma_eq_reflexive(x: double4)
        requires
            !x.has_nan(),
        ensures
            x.eq(x).all(),
            !x.ne(x).any(),
    {
    }

    /// The greater of the two lanes at every position.
    pub open spec fn spec_max(self, other: double4) -> double4 {
        double4::of(
            lanes::map2(
                self@,
                other@,
                |x: u64, y: u64| if bits64::spec_float_lt(x, y) { y } else { x },
            ),
        )
    }

    /// Takes the greater lane at every position: the lanes of `other` are
    /// selected where they are greater than those of `self`. Where a
    /// NaN is involved the lane of `self` is kept.
    #[verifier::when_used_as_spec(spec_max)]
    pub fn max(self, other: double4) -> (r: double4)
        ensures
            r == self.spec_max(other),
    {
        let greater = other.gt(self);
        proof {
            bits64::lemma_select_unsigned(greater.0, self.0, other.0);
            bits64::lemma_select_unsigned(greater.1, self.1, other.1);
            bits64::lemma_select_unsigned(greater.2, self.2, other.2);
            bits64::lemma_select_unsigned(greater.3, self.3, other.3);
        }
        greater.bitselect(self, other)
    }

    /// The lesser of the two lanes at every position.
    pub open spec fn spec_min(self, other: double4) -> double4 {
        double4::of(
            lanes::map2(
                self@,
                other@,
                |x: u64, y: u64| if bits64::spec_float_lt(y, x) { y } else { x },
            ),
        )
    }

    /// Takes the lesser lane at every position: the lanes of `other` are
    /// selected where they are less than those of `self`. Where a
    /// NaN is involved the lane of `self` is kept.
    #[verifier::when_used_as_spec(spec_min)]
    pub fn min(self, other: double4) -> (r: double4)
        ensures
            r == self.spec_min(other),
    {
        let less = other.lt(self);
        proof {
            bits64::lemma_select_unsigned(less.0, self.0, other.0);
            bits64::lemma_select_unsigned(less.1, self.1, other.1);
            bits64::lemma_select_unsigned(less.2, self.2, other.2);
            bits64::lemma_select_unsigned(less.3, self.3, other.3);
        }
        less.bitselect(self, other)
    }

    /// Every lane raised to at least the lane of `min`, then lowered to at most
    /// the lane of `max`.
    pub open spec fn spec_clamp(self, min: double4, max: double4) -> double4 {
        self.spec_max(min).spec_min(max)
    }

    /// Restricts every lane to the range that the lanes of `min` and `max`
    /// give. Where a lane of `min` is greater than that of `max`, the lane of
    /// `max` is the result.
    #[verifier::when_used_as_spec(spec_clamp)]
    pub fn clamp(self, min: double4, max: double4) -> (r: double4)
        ensures
            r == self.spec_clamp(min, max),
    {
        self.max(min).min(max)
    }

    /// Whether `r` may be the dot product of `self` and `other`, where `times`
    /// multiplies and `plus` adds: the lanes are multiplied pairwise and the
    /// products are reduced with `plus`.
    pub open spec fn is_dot<M: Fn(u64, u64) -> u64, A: Fn(u64, u64) -> u64>(
        self,
        other: double4,
        times: M,
        plus: A,
        r: u64,
    ) -> bool {
        exists|p: double4| #[trigger] self.is_map_binary(other, times, p) && p.is_fold(plus, r)
    }

    /// The dot product of `self` and `other`, with `times` for the product of
    /// two numbers and `plus` for their sum. The products are added up in the
    /// order of the reductions.
    pub fn dot<M: Fn(u64, u64) -> u64, A: Fn(u64, u64) -> u64>(
        self,
        other: double4,
        times: &M,
        plus: &A,
    ) -> (r: u64)
        requires
            forall|x: u64, y: u64| call_requires(times, (x, y)),
            forall|x: u64, y: u64| call_requires(plus, (x, y)),
        ensures
            self.is_dot(other, *times, *plus, r),
    {
        let p = self.map_binary(other, times);
        p.fold(plus)
    }

    /// The dot product of the vector with itself.
    pub fn length_squared<M: Fn(u64, u64) -> u64, A: Fn(u64, u64) -> u64>(
        self,
        times: &M,
        plus: &A,
    ) -> (r: u64)
        requires
            forall|x: u64, y: u64| call_requires(times, (x, y)),
            forall|x: u64, y: u64| call_requires(plus, (x, y)),
        ensures
            self.is_dot(self, *times, *plus, r),
    {
        self.dot(self, times, plus)
    }

    /// Whether `r` may be the length of `self`: what `root` gives for the dot
    /// product of `self` with itself.
    pub open spec fn is_length<M: Fn(u64, u64) -> u64, A: Fn(u64, u64) -> u64, Q: Fn(u64) -> u64>(
        self,
        times: M,
        plus: A,
        root: Q,
        r: u64,
    ) -> bool {
        exists|d: u64| #[trigger] self.is_dot(self, times, plus, d) && call_ensures(root, (d,), r)
    }

    /// The length of the vector, with `root` for the square root.
    pub fn length<M: Fn(u64, u64) -> u64, A: Fn(u64, u64) -> u64, Q: Fn(u64) -> u64>(
        self,
        times: &M,
        plus: &A,
        root: &Q,
    ) -> (r: u64)
        requires
            forall|x: u64, y: u64| call_requires(times, (x, y)),
            forall|x: u64, y: u64| call_requires(plus, (x, y)),
            forall|x: u64| call_requires(root, (x,)),
        ensures
            self.is_length(*times, *plus, *root, r),
    {
        let d = self.length_squared(times, plus);
        root(d)
    }

    /// Whether `r` may be `self` brought to length one: every lane of `self`
    /// times what `inverse_root` gives for the dot product of `self` with
    /// itself.
    pub open spec fn is_normalize<
        M: Fn(u64, u64) -> u64,
        A: Fn(u64, u64) -> u64,
        Q: Fn(u64) -> u64,
    >(
        self,
        times: M,
        plus: A,
        inverse_root: Q,
        r: double4,
    ) -> bool {
        exists|d: u64, s: double4|
            {
                &&& self.is_dot(self, times, plus, d)
                &&& #[trigger] double4::spec_broadcast(d).is_map_unary(inverse_root, s)
                &&& self.is_map_binary(s, times, r)
            }
    }

    /// The vector scaled to length one, with `inverse_root` for the
    /// reciprocal of the square root. The squared length is put into every
    /// lane, `inverse_root` is applied lane by lane, and `self` is multiplied
    /// by the result. For a vector of length zero the lanes are what `times`
    /// and `inverse_root` make of it.
    pub fn normalize<M: Fn(u64, u64) -> u64, A: Fn(u64, u64) -> u64, Q: Fn(u64) -> u64>(
        self,
        times: &M,
        plus: &A,
        inverse_root: &Q,
    ) -> (r: double4)
        requires
            forall|x: u64, y: u64| call_requires(times, (x, y)),
            forall|x: u64, y: u64| call_requires(plus, (x, y)),
            forall|x: u64| call_requires(inverse_root, (x,)),
        ensures
            self.is_normalize(*times, *plus, *inverse_root, r),
    {
        let d = self.length_squared(times, plus);
        let s = double4::broadcast(d).map_unary(inverse_root);
        self.map_binary(s, times)
    }

    /// Whether `r` may be `self` projected onto `onto`: `onto` scaled by the
    /// quotient of the dot product of the two by that of `onto` with itself.
    pub open spec fn is_project<
        M: Fn(u64, u64) -> u64,
        A: Fn(u64, u64) -> u64,
        D: Fn(u64, u64) -> u64,
    >(
        self,
        onto: double4,
        times: M,
        plus: A,
        over: D,
        r: double4,
    ) -> bool {
        exists|a: u64, b: u64, q: u64|
            {
                &&& self.is_dot(onto, times, plus, a)
                &&& onto.is_dot(onto, times, plus, b)
                &&& #[trigger] call_ensures(over, (a, b), q)
                &&& double4::spec_broadcast(q).is_map_binary(onto, times, r)
            }
    }

    /// The projection of `self` onto `onto`, with `over` for the quotient of
    /// two numbers.
    pub fn project<M: Fn(u64, u64) -> u64, A: Fn(u64, u64) -> u64, D: Fn(u64, u64) -> u64>(
        self,
        onto: double4,
        times: &M,
        plus: &A,
        over: &D,
    ) -> (r: double4)
        requires
            forall|x: u64, y: u64| call_requires(times, (x, y)),
            forall|x: u64, y: u64| call_requires(plus, (x, y)),
            forall|x: u64, y: u64| call_requires(over, (x, y)),
        ensures
            self.is_project(onto, *times, *plus, *over, r),
    {
        let a = self.dot(onto, times, plus);
        let b = onto.dot(onto, times, plus);
        let q = over(a, b);
        double4::broadcast(q).map_binary(onto, times)
    }

    /// Whether `r` may be `self` reflected at the plane with the normal `n`:
    /// `self` minus `n` scaled by twice the dot product of the two.
    pub open spec fn is_reflect<
        M: Fn(u64, u64) -> u64,
        A: Fn(u64, u64) -> u64,
        D: Fn(u64, u64) -> u64,
    >(
        self,
        n: double4,
        times: M,
        plus: A,
        minus: D,
        r: double4,
    ) -> bool {
        exists|d: u64, t: u64, u: double4|
            {
                &&& self.is_dot(n, times, plus, d)
                &&& #[trigger] call_ensures(times, (bits64::FLOAT_TWO, d), t)
                &&& #[trigger] double4::spec_broadcast(t).is_map_binary(n, times, u)
                &&& self.is_map_binary(u, minus, r)
            }
    }

    /// The reflection of `self` at the plane with the normal `n`, with `minus`
    /// for the difference of two numbers: `self - (2 * dot(self, n)) * n`.
    pub fn reflect<M: Fn(u64, u64) -> u64, A: Fn(u64, u64) -> u64, D: Fn(u64, u64) -> u64>(
        self,
        n: double4,
        times: &M,
        plus: &A,
        minus: &D,
    ) -> (r: double4)
        requires
            forall|x: u64, y: u64| call_requires(times, (x, y)),
            forall|x: u64, y: u64| call_requires(plus, (x, y)),
            forall|x: u64, y: u64| call_requires(minus, (x, y)),
        ensures
            self.is_reflect(n, *times, *plus, *minus, r),
    {
        let d = self.dot(n, times, plus);
        let t = times(bits64::FLOAT_TWO, d);
        let u = double4::broadcast(t).map_binary(n, times);
        self.map_binary(u, minus)
    }

    /// Whether `k` may be the number that decides a refraction with the ratio
    /// `eta`, where `dp` is the dot product of the incoming vector and the
    /// normal: `1 - (eta * eta) * (1 - dp * dp)`.
    pub open spec fn is_refract_discriminant<M: Fn(u64, u64) -> u64, D: Fn(u64, u64) -> u64>(
        eta: u64,
        dp: u64,
        times: M,
        minus: D,
        k: u64,
    ) -> bool {
        exists|e2: u64, d2: u64, c: u64, m: u64|
            {
                &&& #[trigger] call_ensures(times, (eta, eta), e2)
                &&& call_ensures(times, (dp, dp), d2)
                &&& #[trigger] call_ensures(minus, (bits64::FLOAT_ONE, d2), c)
                &&& #[trigger] call_ensures(times, (e2, c), m)
                &&& call_ensures(minus, (bits64::FLOAT_ONE, m), k)
            }
    }

    /// Whether `r` may be the refracted vector where there is one:
    /// `eta * self - (eta * dp + root(k)) * n`.
    pub open spec fn is_refracted<
        M: Fn(u64, u64) -> u64,
        A: Fn(u64, u64) -> u64,
        D: Fn(u64, u64) -> u64,
        Q: Fn(u64) -> u64,
    >(
        self,
        n: double4,
        eta: u64,
        dp: u64,
        k: u64,
        times: M,
        plus: A,
        minus: D,
        root: Q,
        r: double4,
    ) -> bool {
        exists|t: double4, q: u64, ed: u64, s: u64, u: double4|
            {
                &&& #[trigger] double4::spec_broadcast(eta).is_map_binary(self, times, t)
                &&& call_ensures(root, (k,), q)
                &&& call_ensures(times, (eta, dp), ed)
                &&& #[trigger] call_ensures(plus, (ed, q), s)
                &&& #[trigger] double4::spec_broadcast(s).is_map_binary(n, times, u)
                &&& t.is_map_binary(u, minus, r)
            }
    }

    /// Whether `r` may be `self` refracted at the surface with the normal `n`
    /// and the ratio `eta` of the indices of refraction. Where the deciding
    /// number is less than zero the light is reflected wholly and `r` is the
    /// zero vector.
    pub open spec fn is_refract<
        M: Fn(u64, u64) -> u64,
        A: Fn(u64, u64) -> u64,
        D: Fn(u64, u64) -> u64,
        Q: Fn(u64) -> u64,
    >(
        self,
        n: double4,
        eta: u64,
        times: M,
        plus: A,
        minus: D,
        root: Q,
        r: double4,
    ) -> bool {
        exists|dp: u64, k: u64|
            {
                &&& self.is_dot(n, times, plus, dp)
                &&& #[trigger] double4::is_refract_discriminant(eta, dp, times, minus, k)
                &&& if bits64::spec_float_lt(k, bits64::FLOAT_ZERO) {
                    r == double4::spec_broadcast(bits64::FLOAT_ZERO)
                } else {
                    self.is_refracted(n, eta, dp, k, times, plus, minus, root, r)
                }
            }
    }

    /// The refraction of `self` at the surface with the normal `n`, for the
    /// ratio `eta`. With `k = 1 - eta^2 * (1 - dot(self, n)^2)`, the result is
    /// the zero vector where `k` is less than zero, and
    /// `eta * self - (eta * dot(self, n) + root(k)) * n` otherwise. The choice
    /// is made once for the whole vector.
    pub fn refract<
        M: Fn(u64, u64) -> u64,
        A: Fn(u64, u64) -> u64,
        D: Fn(u64, u64) -> u64,
        Q: Fn(u64) -> u64,
    >(
        self,
        n: double4,
        eta: u64,
        times: &M,
        plus: &A,
        minus: &D,
        root: &Q,
    ) -> (r: double4)
        requires
            forall|x: u64, y: u64| call_requires(times, (x, y)),
            forall|x: u64, y: u64| call_requires(plus, (x, y)),
            forall|x: u64, y: u64| call_requires(minus, (x, y)),
            forall|x: u64| call_requires(root, (x,)),
        ensures
            self.is_refract(n, eta, *times, *plus, *minus, *root, r),
    {
        let dp = self.dot(n, times, plus);
        let e2 = times(eta, eta);
        let d2 = times(dp, dp);
        let c = minus(bits64::FLOAT_ONE, d2);
        let m = times(e2, c);
        let k = minus(bits64::FLOAT_ONE, m);
        assert(double4::is_refract_discriminant(eta, dp, *times, *minus, k));
        if bits64::float_lt(k, bits64::FLOAT_ZERO) {
            double4::broadcast(bits64::FLOAT_ZERO)
        } else {
            let t = double4::broadcast(eta).map_binary(self, times);
            let q = root(k);
            let ed = times(eta, dp);
            let s = plus(ed, q);
            let u = double4::broadcast(s).map_binary(n, times);
            let r = t.map_binary(u, minus);
            assert(self.is_refracted(n, eta, dp, k, *times, *plus, *minus, *root, r));
            r
        }
    }

    /// Where the product of two numbers does not depend on their order, the
    /// dot product does not depend on the order of its operands.
    pub proof fn lemma_dot_commutative<M: Fn(u64, u64) -> u64, A: Fn(u64, u64) -> u64>(
        a: double4,
        b: double4,
        times: M,
        plus: A,
        r: u64,
    )
        requires
            forall|x: u64, y: u64, p: u64|
                call_ensures(times, (x, y), p) ==> call_ensures(times, (y, x), p),
            a.is_dot(b, times, plus, r),
        ensures
            b.is_dot(a, times, plus, r),
    {
        let p = choose|p: double4| #[trigger] a.is_map_binary(b, times, p) && p.is_fold(plus, r);
        assert(b.is_map_binary(a, times, p));
    }

    /// Where every number that may decide the refraction is less than zero,
    /// the refracted vector is the zero vector, bit for bit.
    pub proof fn lemma_refract_total_reflection<
        M: Fn(u64, u64) -> u64,
        A: Fn(u64, u64) -> u64,
        D: Fn(u64, u64) -> u64,
        Q: Fn(u64) -> u64,
    >(x: double4, n: double4, eta: u64, times: M, plus: A, minus: D, root: Q, r: double4)
        requires
            x.is_refract(n, eta, times, plus, minus, root, r),
            forall|dp: u64, k: u64|
                x.is_dot(n, times, plus, dp) && #[trigger] double4::is_refract_discriminant(
                    eta,
                    dp,
                    times,
                    minus,
                    k,
                ) ==> bits64::spec_float_lt(k, bits64::FLOAT_ZERO),
        ensures
            r == double4::spec_broadcast(bits64::FLOAT_ZERO),
            r@ == lanes::splat(bits64::FLOAT_ZERO, 4),
    {
    }

    /// Whether `r` may be `self` converted to `i8` with saturation, where
    /// `cast` converts one number: every lane is clamped to the range of
    /// `i8` and then handed to `cast`.
    pub open spec fn is_to_char_sat<C: Fn(u64) -> i8>(self, cast: C, r: char4) -> bool {
        let c = self.spec_clamp(
            double4::spec_broadcast(bits64::FLOAT_I8_MIN),
            double4::spec_broadcast(bits64::FLOAT_I8_MAX),
        );
        &&& call_ensures(cast, (c.0,), r.0)
        &&& call_ensures(cast, (c.1,), r.1)
        &&& call_ensures(cast, (c.2,), r.2)
        &&& call_ensures(cast, (c.3,), r.3)
    }

    /// Converts every lane to `i8`, saturating at the bounds of `i8`:
    /// the lanes are clamped between the numbers nearest to the bounds and
    /// then converted by `cast`. A NaN passes the clamp as it is.
    pub fn to_char_sat<C: Fn(u64) -> i8>(self, cast: &C) -> (r: char4)
        requires
            forall|x: u64| call_requires(cast, (x,)),
        ensures
            self.is_to_char_sat(*cast, r),
    {
        let c = self.clamp(
            double4::broadcast(bits64::FLOAT_I8_MIN),
            double4::broadcast(bits64::FLOAT_I8_MAX),
        );
        char4(cast(c.0), cast(c.1), cast(c.2), cast(c.3))
    }

    /// Whether `r` may be `self` converted to `u8` with saturation, where
    /// `cast` converts one number: every lane is clamped to the range of
    /// `u8` and then handed to `cast`.
    pub open spec fn is_to_uchar_sat<C: Fn(u64) -> u8>(self, cast: C, r: uchar4) -> bool {
        let c = self.spec_clamp(
            double4::spec_broadcast(bits64::FLOAT_ZERO),
            double4::spec_broadcast(bits64::FLOAT_U8_MAX),
        );
        &&& call_ensures(cast, (c.0,), r.0)
        &&& call_ensures(cast, (c.1,), r.1)
        &&& call_ensures(cast, (c.2,), r.2)
        &&& call_ensures(cast, (c.3,), r.3)
    }

    /// Converts every lane to `u8`, saturating at the bounds of `u8`:
    /// the lanes are clamped between the numbers nearest to the bounds and
    /// then converted by `cast`. A NaN passes the clamp as it is.
    pub fn to_uchar_sat<C: Fn(u64) -> u8>(self, cast: &C) -> (r: uchar4)
        requires
            forall|x: u64| call_requires(cast, (x,)),
        ensures
            self.is_to_uchar_sat(*cast, r),
    {
        let c = self.clamp(
            double4::broadcast(bits64::FLOAT_ZERO),
            double4::broadcast(bits64::FLOAT_U8_MAX),
        );
        uchar4(cast(c.0), cast(c.1), cast(c.2), cast(c.3))
    }

    /// Whether `r` may be `self` converted to `i16` with saturation, where
    /// `cast` converts one number: every lane is clamped to the range of
    /// `i16` and then handed to `cast`.
    pub open spec fn is_to_short_sat<C: Fn(u64) -> i16>(self, cast: C, r: short4) -> bool {
        let c = self.spec_clamp(
            double4::spec_broadcast(bits64::FLOAT_I16_MIN),
            double4::spec_broadcast(bits64::FLOAT_I16_MAX),
        );
        &&& call_ensures(cast, (c.0,), r.0)
        &&& call_ensures(cast, (c.1,), r.1)
        &&& call_ensures(cast, (c.2,), r.2)
        &&& call_ensures(cast, (c.3,), r.3)
    }

    /// Converts every lane to `i16`, saturating at the bounds of `i16`:
    /// the lanes are clamped between the numbers nearest to the bounds and
    /// then converted by `cast`. A NaN passes the clamp as it is.
    pub fn to_short_sat<C: Fn(u64) -> i16>(self, cast: &C) -> (r: short4)
        requires
            forall|x: u64| call_requires(cast, (x,)),
        ensures
            self.is_to_short_sat(*cast, r),
    {
        let c = self.clamp(
            double4::broadcast(bits64::FLOAT_I16_MIN),
            double4::broadcast(bits64::FLOAT_I16_MAX),
        );
        short4(cast(c.0), cast(c.1), cast(c.2), cast(c.3))
    }

    /// Whether `r` may be `self` converted to `u16` with saturation, where
    /// `cast` converts one number: every lane is clamped to the range of
    /// `u16` and then handed to `cast`.
    pub open spec fn is_to_ushort_sat<C: Fn(u64) -> u16>(self, cast: C, r: ushort4) -> bool {
        let c = self.spec_clamp(
            double4::spec_broadcast(bits64::FLOAT_ZERO),
            double4::spec_broadcast(bits64::FLOAT_U16_MAX),
        );
        &&& call_ensures(cast, (c.0,), r.0)
        &&& call_ensures(cast, (c.1,), r.1)
        &&& call_ensures(cast, (c.2,), r.2)
        &&& call_ensures(cast, (c.3,), r.3)
    }

    /// Converts every lane to `u16`, saturating at the bounds of `u16`:
    /// the lanes are clamped between the numbers nearest to the bounds and
    /// then converted by `cast`. A NaN passes the clamp as it is.
    pub fn to_ushort_sat<C: Fn(u64) -> u16>(self, cast: &C) -> (r: ushort4)
        requires
            forall|x: u64| call_requires(cast, (x,)),
        ensures
            self.is_to_ushort_sat(*cast, r),
    {
        let c = self.clamp(
            double4::broadcast(bits64::FLOAT_ZERO),
            double4::broadcast(bits64::FLOAT_U16_MAX),
        );
        ushort4(cast(c.0), cast(c.1), cast(c.2), cast(c.3))
    }

    /// Whether `r` may be `self` converted to `i32` with saturation, where
    /// `cast` converts one number: every lane is clamped to the range of
    /// `i32` and then handed to `cast`.
    pub open spec fn is_to_int_sat<C: Fn(u64) -> i32>(self, cast: C, r: int4) -> bool {
        let c = self.spec_clamp(
            double4::spec_broadcast(bits64::FLOAT_I32_MIN),
            double4::spec_broadcast(bits64::FLOAT_I32_MAX),
        );
        &&& call_ensures(cast, (c.0,), r.0)
        &&& call_ensures(cast, (c.1,), r.1)
        &&& call_ensures(cast, (c.2,), r.2)
        &&& call_ensures(cast, (c.3,), r.3)
    }

    /// Converts every lane to `i32`, saturating at the bounds of `i32`:
    /// the lanes are clamped between the numbers nearest to the bounds and
    /// then converted by `cast`. A NaN passes the clamp as it is.
    pub fn to_int_sat<C: Fn(u64) -> i32>(self, cast: &C) -> (r: int4)
        requires
            forall|x: u64| call_requires(cast, (x,)),
        ensures
            self.is_to_int_sat(*cast, r),
    {
        let c = self.clamp(
            double4::broadcast(bits64::FLOAT_I32_MIN),
            double4::broadcast(bits64::FLOAT_I32_MAX),
        );
        int4(cast(c.0), cast(c.1), cast(c.2), cast(c.3))
    }

    /// Whether `r` may be `self` converted to `u32` with saturation, where
    /// `cast` converts one number: every lane is clamped to the range of
    /// `u32` and then handed to `cast`.
    pub open spec fn is_to_uint_sat<C: Fn(u64) -> u32>(self, cast: C, r: uint4) -> bool {
        let c = self.spec_clamp(
            double4::spec_broadcast(bits64::FLOAT_ZERO),
            double4::spec_broadcast(bits64::FLOAT_U32_MAX),
        );
        &&& call_ensures(cast, (c.0,), r.0)
        &&& call_ensures(cast, (c.1,), r.1)
        &&& call_ensures(cast, (c.2,), r.2)
        &&& call_ensures(cast, (c.3,), r.3)
    }

    /// Converts every lane to `u32`, saturating at the bounds of `u32`:
    /// the lanes are clamped between the numbers nearest to the bounds and
    /// then converted by `cast`. A NaN passes the clamp as it is.
    pub fn to_uint_sat<C: Fn(u64) -> u32>(self, cast: &C) -> (r: uint4)
        requires
            forall|x: u64| call_requires(cast, (x,)),
        ensures
            self.is_to_uint_sat(*cast, r),
    {
        let c = self.clamp(
            double4::broadcast(bits64::FLOAT_ZERO),
            double4::broadcast(bits64::FLOAT_U32_MAX),
        );
        uint4(cast(c.0), cast(c.1), cast(c.2), cast(c.3))
    }

    /// Whether `r` may be `self` converted to `i64` with saturation, where
    /// `cast` converts one number: every lane is clamped to the range of
    /// `i64` and then handed to `cast`.
    pub open spec fn is_to_long_sat<C: Fn(u64) -> i64>(self, cast: C, r: long4) -> bool {
        let c = self.spec_clamp(
            double4::spec_broadcast(bits64::FLOAT_I64_MIN),
            double4::spec_broadcast(bits64::FLOAT_I64_MAX),
        );
        &&& call_ensures(cast, (c.0,), r.0)
        &&& call_ensures(cast, (c.1,), r.1)
        &&& call_ensures(cast, (c.2,), r.2)
        &&& call_ensures(cast, (c.3,), r.3)
    }

    /// Converts every lane to `i64`, saturating at the bounds of `i64`:
    /// the lanes are clamped between the numbers nearest to the bounds and
    /// then converted by `cast`. A NaN passes the clamp as it is.
    pub fn to_long_sat<C: Fn(u64) -> i64>(self, cast: &C) -> (r: long4)
        requires
            forall|x: u64| call_requires(cast, (x,)),
        ensures
            self.is_to_long_sat(*cast, r),
    {
        let c = self.clamp(
            double4::broadcast(bits64::FLOAT_I64_MIN),
            double4::broadcast(bits64::FLOAT_I64_MAX),
        );
        long4(cast(c.0), cast(c.1), cast(c.2), cast(c.3))
    }

    /// Whether `r` may be `self` converted to `u64` with saturation, where
    /// `cast` converts one number: every lane is clamped to the range of
    /// `u64` and then handed to `cast`.
    pub open spec fn is_to_ulong_sat<C: Fn(u64) -> u64>(self, cast: C, r: ulong4) -> bool {
        let c = self.spec_clamp(
            double4::spec_broadcast(bits64::FLOAT_ZERO),
            double4::spec_broadcast(bits64::FLOAT_U64_MAX),
        );
        &&& call_ensures(cast, (c.0,), r.0)
        &&& call_ensures(cast, (c.1,), r.1)
        &&& call_ensures(cast, (c.2,), r.2)
        &&& call_ensures(cast, (c.3,), r.3)
    }

    /// Converts every lane to `u64`, saturating at the bounds of `u64`:
    /// the lanes are clamped between the numbers nearest to the bounds and
    /// then converted by `cast`. A NaN passes the clamp as it is.
    pub fn to_ulong_sat<C: Fn(u64) -> u64>(self, cast: &C) -> (r: ulong4)
        requires
            forall|x: u64| call_requires(cast, (x,)),
        ensures
            self.is_to_ulong_sat(*cast, r),
    {
        let c = self.clamp(
            double4::broadcast(bits64::FLOAT_ZERO),
            double4::broadcast(bits64::FLOAT_U64_MAX),
        );
        ulong4(cast(c.0), cast(c.1), cast(c.2), cast(c.3))
    }

    /// Whether `r` may hold the lanes of `self` as single precision numbers,
    /// where `cast` converts one lane and gives the bit pattern of the number.
    pub open spec fn is_to_float<C: Fn(u64) -> u32>(self, cast: C, r: float4) -> bool {
        &&& call_ensures(cast, (self.0,), r.0)
        &&& call_ensures(cast, (self.1,), r.1)
        &&& call_ensures(cast, (self.2,), r.2)
        &&& call_ensures(cast, (self.3,), r.3)
    }

    /// Converts every lane to a single precision number by `cast`.
    pub fn to_float<C: Fn(u64) -> u32>(self, cast: &C) -> (r: float4)
        requires
            forall|x: u64| call_requires(cast, (x,)),
        ensures
            self.is_to_float(*cast, r),
    {
        float4(cast(self.0), cast(self.1), cast(self.2), cast(self.3))
    }
}

/// `v[i]` is lane `i`, for `i` below 4.
impl core::ops::Index<u32> for double4 {
    type Output = u64;

    fn index(&self, index: u32) -> (r: &u64)
        ensures
            *r == self@[index as int],
    {
        if index == 0 {
            &self.0
        } else if index == 1 {
            &self.1
        } else if index == 2 {
            &self.2
        } else {
            &self.3
        }
    }
}

impl vstd::std_specs::core::IndexSpecImpl<u32> for double4 {
    open spec fn index_req(&self, index: &u32) -> bool {
        *index < 4
    }
}

/// The bytes of the vector: the lanes in order, each with its least significant
/// byte first.
impl Bitcast for double4 {
    type Image = [u8; 32];

    open spec fn spec_image(self) -> Seq<u8> {
        bits64::image(self.spec_to_bits()@)
    }

    open spec fn spec_from_image(image: Seq<u8>) -> double4 {
        double4::spec_from_bits(ulong4::of(bits64::lanes_of_image(image)))
    }

    fn image(self) -> (r: [u8; 32]) {
        let b = self.to_bits();
        let l0 = bits64::bytes(b.0);
        let l1 = bits64::bytes(b.1);
        let l2 = bits64::bytes(b.2);
        let l3 = bits64::bytes(b.3);
        let r = [
            l0[0], l0[1], l0[2], l0[3], l0[4], l0[5], l0[6], l0[7],
            l1[0], l1[1], l1[2], l1[3], l1[4], l1[5], l1[6], l1[7],
            l2[0], l2[1], l2[2], l2[3], l2[4], l2[5], l2[6], l2[7],
            l3[0], l3[1], l3[2], l3[3], l3[4], l3[5], l3[6], l3[7],
        ];
        proof {
            let s = self.spec_to_bits()@;
            assert(s.len() == 4);
            assert forall|j: int| 0 <= j < 32 implies r@[j] == bits64::byte(s[j / 8], j % 8) by {
                assert(s[0] == b.0);
                assert(s[1] == b.1);
                assert(s[2] == b.2);
                assert(s[3] == b.3);
            }
        }
        r
    }

    fn from_image(image: [u8; 32]) -> (r: double4) {
        double4::from_bits(
            ulong4(
                bits64::join(
                    image[0],
                    image[1],
                    image[2],
                    image[3],
                    image[4],
                    image[5],
                    image[6],
                    image[7],
                ),
                bits64::join(
                    image[8],
                    image[9],
                    image[10],
                    image[11],
                    image[12],
                    image[13],
                    image[14],
                    image[15],
                ),
                bits64::join(
                    image[16],
                    image[17],
                    image[18],
                    image[19],
                    image[20],
                    image[21],
                    image[22],
                    image[23],
                ),
                bits64::join(
                    image[24],
                    image[25],
                    image[26],
                    image[27],
                    image[28],
                    image[29],
                    image[30],
                    image[31],
                ),
            ),
        )
    }
}

} // verus!
