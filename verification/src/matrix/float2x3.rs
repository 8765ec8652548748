//! `float2x3`: a matrix of two columns and three rows of single precision
//! numbers, held column by column.
use crate::lanes;
use crate::matrix::float3x2::float3x2;
use crate::matrix::float3x3::float3x3;
use crate::vector::float2::float2;
use crate::vector::float3::float3;
use vstd::prelude::*;
use vstd::std_specs::cmp::PartialEqSpecImpl;

verus! {

/// Two columns, each a vector of three lanes.
#[allow(non_camel_case_types)]
#[derive(Clone, Copy, Debug)]
pub struct float2x3(pub float3, pub float3);

impl View for float2x3 {
    type V = Seq<Seq<u32>>;

    /// The columns in order, each as the sequence of its lanes.
    open spec fn view(&self) -> Seq<Seq<u32>> {
        Seq::new(2, |c: int| self.column(c)@)
    }
}

/// Two matrices are equal when all their columns are, as vectors of numbers.
impl PartialEq for float2x3 {
    fn eq(&self, other: &float2x3) -> (r: bool) {
        self.0 == other.0 && self.1 == other.1
    }
}

impl PartialEqSpecImpl for float2x3 {
    open spec fn obeys_eq_spec() -> bool {
        true
    }

    open spec fn eq_spec(&self, other: &float2x3) -> bool {
        &&& self.0.spec_eq(other.0).spec_all()
        &&& self.1.spec_eq(other.1).spec_all()
    }
}

impl float2x3 {
    /// Column `c` of the matrix.
    pub open spec fn column(self, c: int) -> float3 {
        if c == 0 {
            self.0
        } else {
            self.1
        }
    }

    /// The matrix whose columns are the first two entries of `s`.
    pub open spec fn of(s: Seq<Seq<u32>>) -> float2x3 {
        float2x3(float3::of(s[0]), float3::of(s[1]))
    }

    /// The matrix with the given columns.
    pub open spec fn spec_from_columns(c0: float3, c1: float3) -> float2x3 {
        float2x3(c0, c1)
    }

    /// Builds the matrix from its columns.
    #[verifier::when_used_as_spec(spec_from_columns)]
    pub fn from_columns(c0: float3, c1: float3) -> (r: float2x3)
        ensures
            r == float2x3::spec_from_columns(c0, c1),
            r@ == seq![c0@, c1@],
    {
        float2x3(c0, c1)
    }

    /// The matrix with the given rows.
    pub open spec fn spec_from_rows(r0: float2, r1: float2, r2: float2) -> float2x3 {
        float3x2(r0, r1, r2).spec_transpose()
    }

    /// Builds the matrix from its rows: the rows are the columns of the
    /// transpose.
    #[verifier::when_used_as_spec(spec_from_rows)]
    pub fn from_rows(r0: float2, r1: float2, r2: float2) -> (r: float2x3)
        ensures
            r == float2x3::spec_from_rows(r0, r1, r2),
            r@ == lanes::transposed(seq![r0@, r1@, r2@]),
    {
        let rows = float3x2(r0, r1, r2);
        proof {
            assert(rows@ =~~= seq![r0@, r1@, r2@]);
        }
        rows.transpose()
    }

    /// The matrix with rows and columns exchanged.
    pub open spec fn spec_transpose(self) -> float3x2 {
        float3x2::of(lanes::transposed(self@))
    }

    /// Transposes the matrix: column `r` of the result holds lane `r` of every
    /// column of `self`, in the order of the columns.
    #[verifier::when_used_as_spec(spec_transpose)]
    pub fn transpose(self) -> (r: float3x2)
        ensures
            r == self.spec_transpose(),
            r@ == lanes::transposed(self@),
    {
        let c0 = float2((self.0).0, (self.1).0);
        let c1 = float2((self.0).1, (self.1).1);
        let c2 = float2((self.0).2, (self.1).2);
        let t = float3x2(c0, c1, c2);
        proof {
            assert(t@ =~~= lanes::transposed(self@));
        }
        t
    }

    /// Whether `r` may be the sum of `self` and `other`, column by column
    /// and lane by lane, where `plus` adds two numbers.
    pub open spec fn is_add<F: Fn(u32, u32) -> u32>(
        self,
        other: float2x3,
        plus: F,
        r: float2x3,
    ) -> bool {
        &&& self.0.is_map_binary(other.0, plus, r.0)
        &&& self.1.is_map_binary(other.1, plus, r.1)
    }

    /// The sum of two matrices: the columns are combined lane by lane with
    /// `plus`.
    pub fn add<F: Fn(u32, u32) -> u32>(self, other: float2x3, plus: &F) -> (r: float2x3)
        requires
            forall|x: u32, y: u32| call_requires(plus, (x, y)),
        ensures
            self.is_add(other, *plus, r),
    {
        float2x3(self.0.map_binary(other.0, plus), self.1.map_binary(other.1, plus))
    }

    /// Whether `r` may be the difference of `self` and `other`, column by
    /// column and lane by lane, where `minus` subtracts two numbers.
    pub open spec fn is_sub<F: Fn(u32, u32) -> u32>(
        self,
        other: float2x3,
        minus: F,
        r: float2x3,
    ) -> bool {
        &&& self.0.is_map_binary(other.0, minus, r.0)
        &&& self.1.is_map_binary(other.1, minus, r.1)
    }

    /// The difference of two matrices: the columns are combined lane by lane
    /// with `minus`.
    pub fn sub<F: Fn(u32, u32) -> u32>(self, other: float2x3, minus: &F) -> (r: float2x3)
        requires
            forall|x: u32, y: u32| call_requires(minus, (x, y)),
        ensures
            self.is_sub(other, *minus, r),
    {
        float2x3(self.0.map_binary(other.0, minus), self.1.map_binary(other.1, minus))
    }

    /// Whether `r` may be `self` scaled by the number `s`, where `times`
    /// multiplies two numbers: `s` times every lane of every column.
    pub open spec fn is_mul<F: Fn(u32, u32) -> u32>(self, s: u32, times: F, r: float2x3) -> bool {
        &&& float3::spec_broadcast(s).is_map_binary(self.0, times, r.0)
        &&& float3::spec_broadcast(s).is_map_binary(self.1, times, r.1)
    }

    /// The matrix scaled by the number `s`: `s` is put into every lane of a
    /// vector, and every column is multiplied by that vector from the left.
    pub fn mul<F: Fn(u32, u32) -> u32>(self, s: u32, times: &F) -> (r: float2x3)
        requires
            forall|x: u32, y: u32| call_requires(times, (x, y)),
        ensures
            self.is_mul(s, *times, r),
    {
        let a = float3::broadcast(s);
        float2x3(a.map_binary(self.0, times), a.map_binary(self.1, times))
    }

    /// Whether `r` may be the product of the matrix and the vector `v`: the
    /// sum of the columns, each scaled by the lane of `v` at its position, the
    /// terms added from left to right.
    pub open spec fn is_dot<F: Fn(u32, u32) -> u32, G: Fn(u32, u32) -> u32>(
        self,
        v: float2,
        times: F,
        plus: G,
        r: float3,
    ) -> bool {
        exists|t0: float3, t1: float3|
            {
                &&& self.0.is_map_binary(float3::spec_broadcast(v.0), times, t0)
                &&& self.1.is_map_binary(float3::spec_broadcast(v.1), times, t1)
                &&& #[trigger] t0.is_map_binary(t1, plus, r)
            }
    }

    /// The product of the matrix and a vector: the linear combination of the
    /// columns with the lanes of `v` as the weights.
    pub fn dot<F: Fn(u32, u32) -> u32, G: Fn(u32, u32) -> u32>(
        self,
        v: float2,
        times: &F,
        plus: &G,
    ) -> (r: float3)
        requires
            forall|x: u32, y: u32| call_requires(times, (x, y)),
            forall|x: u32, y: u32| call_requires(plus, (x, y)),
        ensures
            self.is_dot(v, *times, *plus, r),
    {
        let t0 = self.0.map_binary(float3::broadcast(v.0), times);
        let t1 = self.1.map_binary(float3::broadcast(v.1), times);
        t0.map_binary(t1, plus)
    }

    /// Whether `r` may be the product of `self` and `other`: column `i` of `r`
    /// is the product of `self` and column `i` of `other`.
    pub open spec fn is_dot_matrix<F: Fn(u32, u32) -> u32, G: Fn(u32, u32) -> u32>(
        self,
        other: float3x2,
        times: F,
        plus: G,
        r: float3x3,
    ) -> bool {
        &&& self.is_dot(other.0, times, plus, r.0)
        &&& self.is_dot(other.1, times, plus, r.1)
        &&& self.is_dot(other.2, times, plus, r.2)
    }

    /// The product of two matrices: `self` is multiplied with every column of
    /// `other`, and the results are the columns of the product.
    pub fn dot_matrix<F: Fn(u32, u32) -> u32, G: Fn(u32, u32) -> u32>(
        self,
        other: float3x2,
        times: &F,
        plus: &G,
    ) -> (r: float3x3)
        requires
            forall|x: u32, y: u32| call_requires(times, (x, y)),
            forall|x: u32, y: u32| call_requires(plus, (x, y)),
        ensures
            self.is_dot_matrix(other, *times, *plus, r),
    {
        float3x3(
            self.dot(other.0, times, plus),
            self.dot(other.1, times, plus),
            self.dot(other.2, times, plus),
        )
    }

    /// Whether `r` may be the column `a * x + b * y`, where `a` and `b` are
    /// numbers and `x` and `y` columns.
    pub open spec fn is_combined<F: Fn(u32, u32) -> u32, G: Fn(u32, u32) -> u32>(
        a: u32,
        x: float3,
        b: u32,
        y: float3,
        times: F,
        plus: G,
        r: float3,
    ) -> bool {
        exists|p: float3, q: float3|
            {
                &&& float3::spec_broadcast(a).is_map_binary(x, times, p)
                &&& float3::spec_broadcast(b).is_map_binary(y, times, q)
                &&& #[trigger] p.is_map_binary(q, plus, r)
            }
    }

    /// Whether `r` may be the linear combination `a * x + b * y` of the
    /// matrices `x` and `y`, column by column.
    pub open spec fn is_linear_combination<F: Fn(u32, u32) -> u32, G: Fn(u32, u32) -> u32>(
        a: u32,
        x: float2x3,
        b: u32,
        y: float2x3,
        times: F,
        plus: G,
        r: float2x3,
    ) -> bool {
        &&& float2x3::is_combined(a, x.0, b, y.0, times, plus, r.0)
        &&& float2x3::is_combined(a, x.1, b, y.1, times, plus, r.1)
    }

    /// The linear combination `a * x + b * y`, computed column by column: no
    /// scaled matrix is built on the way.
    pub fn linear_combination<F: Fn(u32, u32) -> u32, G: Fn(u32, u32) -> u32>(
        a: u32,
        x: float2x3,
        b: u32,
        y: float2x3,
        times: &F,
        plus: &G,
    ) -> (r: float2x3)
        requires
            forall|x: u32, y: u32| call_requires(times, (x, y)),
            forall|x: u32, y: u32| call_requires(plus, (x, y)),
        ensures
            float2x3::is_linear_combination(a, x, b, y, *times, *plus, r),
    {
        let av = float3::broadcast(a);
        let bv = float3::broadcast(b);
        let c0 = av.map_binary(x.0, times).map_binary(bv.map_binary(y.0, times), plus);
        let c1 = av.map_binary(x.1, times).map_binary(bv.map_binary(y.1, times), plus);
        float2x3(c0, c1)
    }

    /// Transposing a matrix twice gives the matrix back.
    pub proof fn lemma_transpose_twice(m: float2x3)
        ensures
            m.transpose().transpose() == m,
    {
        lanes::lemma_transposed_twice(m@, 2, 3);
    }
}

} // verus!
