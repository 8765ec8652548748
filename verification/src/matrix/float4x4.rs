//! `float4x4`: a matrix of four columns and four rows of single precision
//! numbers, held column by column.
use crate::bits32;
use crate::lanes;
use crate::vector::float4::float4;
use vstd::prelude::*;
use vstd::std_specs::cmp::PartialEqSpecImpl;

verus! {

/// Four columns, each a vector of four lanes.
#[allow(non_camel_case_types)]
#[derive(Clone, Copy, Debug)]
pub struct float4x4(pub float4, pub float4, pub float4, pub float4);

impl View for float4x4 {
    type V = Seq<Seq<u32>>;

    /// The columns in order, each as the sequence of its lanes.
    open spec fn view(&self) -> Seq<Seq<u32>> {
        Seq::new(4, |c: int| self.column(c)@)
    }
}

/// Two matrices are equal when all their columns are, as vectors of numbers.
impl PartialEq for float4x4 {
    fn eq(&self, other: &float4x4) -> (r: bool) {
        self.0 == other.0 && self.1 == other.1 && self.2 == other.2 && self.3 == other.3
    }
}

impl PartialEqSpecImpl for float4x4 {
    open spec fn obeys_eq_spec() -> bool {
        true
    }

    open spec fn eq_spec(&self, other: &float4x4) -> bool {
        &&& self.0.spec_eq(other.0).spec_all()
        &&& self.1.spec_eq(other.1).spec_all()
        &&& self.2.spec_eq(other.2).spec_all()
        &&& self.3.spec_eq(other.3).spec_all()
    }
}

impl float4x4 {
    /// Column `c` of the matrix.
    pub open spec fn column(self, c: int) -> float4 {
        if c == 0 {
            self.0
        } else if c == 1 {
            self.1
        } else if c == 2 {
            self.2
        } else {
            self.3
        }
    }

    /// The matrix whose columns are the first four entries of `s`.
    pub open spec fn of(s: Seq<Seq<u32>>) -> float4x4 {
        float4x4(float4::of(s[0]), float4::of(s[1]), float4::of(s[2]), float4::of(s[3]))
    }

    /// The matrix with the given columns.
    pub open spec fn spec_from_columns(c0: float4, c1: float4, c2: float4, c3: float4) -> float4x4 {
        float4x4(c0, c1, c2, c3)
    }

    /// Builds the matrix from its columns.
    #[verifier::when_used_as_spec(spec_from_columns)]
    pub fn from_columns(c0: float4, c1: float4, c2: float4, c3: float4) -> (r: float4x4)
        ensures
            r == float4x4::spec_from_columns(c0, c1, c2, c3),
            r@ == seq![c0@, c1@, c2@, c3@],
    {
        float4x4(c0, c1, c2, c3)
    }

    /// The matrix with the given rows.
    pub open spec fn spec_from_rows(r0: float4, r1: float4, r2: float4, r3: float4) -> float4x4 {
        float4x4(r0, r1, r2, r3).spec_transpose()
    }

    /// Builds the matrix from its rows: the rows are the columns of the
    /// transpose.
    #[verifier::when_used_as_spec(spec_from_rows)]
    pub fn from_rows(r0: float4, r1: float4, r2: float4, r3: float4) -> (r: float4x4)
        ensures
            r == float4x4::spec_from_rows(r0, r1, r2, r3),
            r@ == lanes::transposed(seq![r0@, r1@, r2@, r3@]),
    {
        let rows = float4x4(r0, r1, r2, r3);
        proof {
            assert(rows@ =~~= seq![r0@, r1@, r2@, r3@]);
        }
        rows.transpose()
    }

    /// The matrix with rows and columns exchanged.
    pub open spec fn spec_transpose(self) -> float4x4 {
        float4x4::of(lanes::transposed(self@))
    }

    /// Transposes the matrix: column `r` of the result holds lane `r` of every
    /// column of `self`, in the order of the columns.
    #[verifier::when_used_as_spec(spec_transpose)]
    pub fn transpose(self) -> (r: float4x4)
        ensures
            r == self.spec_transpose(),
            r@ == lanes::transposed(self@),
    {
        let c0 = float4((self.0).0, (self.1).0, (self.2).0, (self.3).0);
        let c1 = float4((self.0).1, (self.1).1, (self.2).1, (self.3).1);
        let c2 = float4((self.0).2, (self.1).2, (self.2).2, (self.3).2);
        let c3 = float4((self.0).3, (self.1).3, (self.2).3, (self.3).3);
        let t = float4x4(c0, c1, c2, c3);
        proof {
            assert(t@ =~~= lanes::transposed(self@));
        }
        t
    }

    /// The matrix with 1.0 on the diagonal and 0.0 elsewhere.
    pub open spec fn spec_identity(self) -> float4x4 {
        float4x4::of(
            Seq::new(
                4,
                |c: int|
                    Seq::new(
                        4,
                        |r: int|
                            if r == c {
                                bits32::FLOAT_ONE
                            } else {
                                bits32::FLOAT_ZERO
                            },
                    ),
            ),
        )
    }

    /// The identity matrix. The matrix it is called on plays no part.
    #[verifier::when_used_as_spec(spec_identity)]
    pub fn identity(self) -> (r: float4x4)
        ensures
            r == self.spec_identity(),
    {
        float4x4(
            float4(bits32::FLOAT_ONE, bits32::FLOAT_ZERO, bits32::FLOAT_ZERO, bits32::FLOAT_ZERO),
            float4(bits32::FLOAT_ZERO, bits32::FLOAT_ONE, bits32::FLOAT_ZERO, bits32::FLOAT_ZERO),
            float4(bits32::FLOAT_ZERO, bits32::FLOAT_ZERO, bits32::FLOAT_ONE, bits32::FLOAT_ZERO),
            float4(bits32::FLOAT_ZERO, bits32::FLOAT_ZERO, bits32::FLOAT_ZERO, bits32::FLOAT_ONE),
        )
    }

    /// Whether `r` may be the sum of `self` and `other`, column by column
    /// and lane by lane, where `plus` adds two numbers.
    pub open spec fn is_add<F: Fn(u32, u32) -> u32>(
        self,
        other: float4x4,
        plus: F,
        r: float4x4,
    ) -> bool {
        &&& self.0.is_map_binary(other.0, plus, r.0)
        &&& self.1.is_map_binary(other.1, plus, r.1)
        &&& self.2.is_map_binary(other.2, plus, r.2)
        &&& self.3.is_map_binary(other.3, plus, r.3)
    }

    /// The sum of two matrices: the columns are combined lane by lane with
    /// `plus`.
    pub fn add<F: Fn(u32, u32) -> u32>(self, other: float4x4, plus: &F) -> (r: float4x4)
        requires
            forall|x: u32, y: u32| call_requires(plus, (x, y)),
        ensures
            self.is_add(other, *plus, r),
    {
        float4x4(
            self.0.map_binary(other.0, plus),
            self.1.map_binary(other.1, plus),
            self.2.map_binary(other.2, plus),
            self.3.map_binary(other.3, plus),
        )
    }

    /// Whether `r` may be the difference of `self` and `other`, column by
    /// column and lane by lane, where `minus` subtracts two numbers.
    pub open spec fn is_sub<F: Fn(u32, u32) -> u32>(
        self,
        other: float4x4,
        minus: F,
        r: float4x4,
    ) -> bool {
        &&& self.0.is_map_binary(other.0, minus, r.0)
        &&& self.1.is_map_binary(other.1, minus, r.1)
        &&& self.2.is_map_binary(other.2, minus, r.2)
        &&& self.3.is_map_binary(other.3, minus, r.3)
    }

    /// The difference of two matrices: the columns are combined lane by lane
    /// with `minus`.
    pub fn sub<F: Fn(u32, u32) -> u32>(self, other: float4x4, minus: &F) -> (r: float4x4)
        requires
            forall|x: u32, y: u32| call_requires(minus, (x, y)),
        ensures
            self.is_sub(other, *minus, r),
    {
        float4x4(
            self.0.map_binary(other.0, minus),
            self.1.map_binary(other.1, minus),
            self.2.map_binary(other.2, minus),
            self.3.map_binary(other.3, minus),
        )
    }

    /// Whether `r` may be `self` scaled by the number `s`, where `times`
    /// multiplies two numbers: `s` times every lane of every column.
    pub open spec fn is_mul<F: Fn(u32, u32) -> u32>(self, s: u32, times: F, r: float4x4) -> bool {
        &&& float4::spec_broadcast(s).is_map_binary(self.0, times, r.0)
        &&& float4::spec_broadcast(s).is_map_binary(self.1, times, r.1)
        &&& float4::spec_broadcast(s).is_map_binary(self.2, times, r.2)
        &&& float4::spec_broadcast(s).is_map_binary(self.3, times, r.3)
    }

    /// The matrix scaled by the number `s`: `s` is put into every lane of a
    /// vector, and every column is multiplied by that vector from the left.
    pub fn mul<F: Fn(u32, u32) -> u32>(self, s: u32, times: &F) -> (r: float4x4)
        requires
            forall|x: u32, y: u32| call_requires(times, (x, y)),
        ensures
            self.is_mul(s, *times, r),
    {
        let a = float4::broadcast(s);
        float4x4(
            a.map_binary(self.0, times),
            a.map_binary(self.1, times),
            a.map_binary(self.2, times),
            a.map_binary(self.3, times),
        )
    }

    /// Whether `r` may be the product of the matrix and the vector `v`: the
    /// sum of the columns, each scaled by the lane of `v` at its position, the
    /// terms added from left to right.
    pub open spec fn is_dot<F: Fn(u32, u32) -> u32, G: Fn(u32, u32) -> u32>(
        self,
        v: float4,
        times: F,
        plus: G,
        r: float4,
    ) -> bool {
        exists|t0: float4, t1: float4, t2: float4, t3: float4, s1: float4, s2: float4|
            {
                &&& self.0.is_map_binary(float4::spec_broadcast(v.0), times, t0)
                &&& self.1.is_map_binary(float4::spec_broadcast(v.1), times, t1)
                &&& self.2.is_map_binary(float4::spec_broadcast(v.2), times, t2)
                &&& self.3.is_map_binary(float4::spec_broadcast(v.3), times, t3)
                &&& #[trigger] t0.is_map_binary(t1, plus, s1)
                &&& #[trigger] s1.is_map_binary(t2, plus, s2)
                &&& #[trigger] s2.is_map_binary(t3, plus, r)
            }
    }

    /// The product of the matrix and a vector: the linear combination of the
    /// columns with the lanes of `v` as the weights.
    pub fn dot<F: Fn(u32, u32) -> u32, G: Fn(u32, u32) -> u32>(
        self,
        v: float4,
        times: &F,
        plus: &G,
    ) -> (r: float4)
        requires
            forall|x: u32, y: u32| call_requires(times, (x, y)),
            forall|x: u32, y: u32| call_requires(plus, (x, y)),
        ensures
            self.is_dot(v, *times, *plus, r),
    {
        let t0 = self.0.map_binary(float4::broadcast(v.0), times);
        let t1 = self.1.map_binary(float4::broadcast(v.1), times);
        let t2 = self.2.map_binary(float4::broadcast(v.2), times);
        let t3 = self.3.map_binary(float4::broadcast(v.3), times);
        let s1 = t0.map_binary(t1, plus);
        let s2 = s1.map_binary(t2, plus);
        s2.map_binary(t3, plus)
    }

    /// Whether `r` may be the product of `self` and `other`: column `i` of `r`
    /// is the product of `self` and column `i` of `other`.
    pub open spec fn is_dot_matrix<F: Fn(u32, u32) -> u32, G: Fn(u32, u32) -> u32>(
        self,
        other: float4x4,
        times: F,
        plus: G,
        r: float4x4,
    ) -> bool {
        &&& self.is_dot(other.0, times, plus, r.0)
        &&& self.is_dot(other.1, times, plus, r.1)
        &&& self.is_dot(other.2, times, plus, r.2)
        &&& self.is_dot(other.3, times, plus, r.3)
    }

    /// The product of two matrices: `self` is multiplied with every column of
    /// `other`, and the results are the columns of the product.
    pub fn dot_matrix<F: Fn(u32, u32) -> u32, G: Fn(u32, u32) -> u32>(
        self,
        other: float4x4,
        times: &F,
        plus: &G,
    ) -> (r: float4x4)
        requires
            forall|x: u32, y: u32| call_requires(times, (x, y)),
            forall|x: u32, y: u32| call_requires(plus, (x, y)),
        ensures
            self.is_dot_matrix(other, *times, *plus, r),
    {
        float4x4(
            self.dot(other.0, times, plus),
            self.dot(other.1, times, plus),
            self.dot(other.2, times, plus),
            self.dot(other.3, times, plus),
        )
    }

    /// Whether `r` may be the column `a * x + b * y`, where `a` and `b` are
    /// numbers and `x` and `y` columns.
    pub open spec fn is_combined<F: Fn(u32, u32) -> u32, G: Fn(u32, u32) -> u32>(
        a: u32,
        x: float4,
        b: u32,
        y: float4,
        times: F,
        plus: G,
        r: float4,
    ) -> bool {
        exists|p: float4, q: float4|
            {
                &&& float4::spec_broadcast(a).is_map_binary(x, times, p)
                &&& float4::spec_broadcast(b).is_map_binary(y, times, q)
                &&& #[trigger] p.is_map_binary(q, plus, r)
            }
    }

    /// Whether `r` may be the linear combination `a * x + b * y` of the
    /// matrices `x` and `y`, column by column.
    pub open spec fn is_linear_combination<F: Fn(u32, u32) -> u32, G: Fn(u32, u32) -> u32>(
        a: u32,
        x: float4x4,
        b: u32,
        y: float4x4,
        times: F,
        plus: G,
        r: float4x4,
    ) -> bool {
        &&& float4x4::is_combined(a, x.0, b, y.0, times, plus, r.0)
        &&& float4x4::is_combined(a, x.1, b, y.1, times, plus, r.1)
        &&& float4x4::is_combined(a, x.2, b, y.2, times, plus, r.2)
        &&& float4x4::is_combined(a, x.3, b, y.3, times, plus, r.3)
    }

    /// The linear combination `a * x + b * y`, computed column by column: no
    /// scaled matrix is built on the way.
    pub fn linear_combination<F: Fn(u32, u32) -> u32, G: Fn(u32, u32) -> u32>(
        a: u32,
        x: float4x4,
        b: u32,
        y: float4x4,
        times: &F,
        plus: &G,
    ) -> (r: float4x4)
        requires
            forall|x: u32, y: u32| call_requires(times, (x, y)),
            forall|x: u32, y: u32| call_requires(plus, (x, y)),
        ensures
            float4x4::is_linear_combination(a, x, b, y, *times, *plus, r),
    {
        let av = float4::broadcast(a);
        let bv = float4::broadcast(b);
        let c0 = av.map_binary(x.0, times).map_binary(bv.map_binary(y.0, times), plus);
        let c1 = av.map_binary(x.1, times).map_binary(bv.map_binary(y.1, times), plus);
        let c2 = av.map_binary(x.2, times).map_binary(bv.map_binary(y.2, times), plus);
        let c3 = av.map_binary(x.3, times).map_binary(bv.map_binary(y.3, times), plus);
        float4x4(c0, c1, c2, c3)
    }

    /// Transposing a matrix twice gives the matrix back.
    pub proof fn lemma_transpose_twice(m: float4x4)
        ensures
            m.transpose().transpose() == m,
    {
        lanes::lemma_transposed_twice(m@, 4, 4);
    }
}

} // verus!
