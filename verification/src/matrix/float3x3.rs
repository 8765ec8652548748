//! `float3x3`: a matrix of three columns and three rows of single precision
//! numbers, held column by column.
use crate::bits32;
use crate::lanes;
use crate::vector::float3::float3;
use vstd::prelude::*;
use vstd::std_specs::cmp::PartialEqSpecImpl;

verus! {

/// Three columns, each a vector of three lanes.
#[allow(non_camel_case_types)]
#[derive(Clone, Copy, Debug)]
pub struct float3x3(pub float3, pub float3, pub float3);

impl View for float3x3 {
    type V = Seq<Seq<u32>>;

    /// The columns in order, each as the sequence of its lanes.
    open spec fn view(&self) -> Seq<Seq<u32>> {
        Seq::new(3, |c: int| self.column(c)@)
    }
}

/// Two matrices are equal when all their columns are, as vectors of numbers.
impl PartialEq for float3x3 {
    fn eq(&self, other: &float3x3) -> (r: bool) {
        self.0 == other.0 && self.1 == other.1 && self.2 == other.2
    }
}

impl PartialEqSpecImpl for float3x3 {
    open spec fn obeys_eq_spec() -> bool {
        true
    }

    open spec fn eq_spec(&self, other: &float3x3) -> bool {
        &&& self.0.spec_eq(other.0).spec_all()
        &&& self.1.spec_eq(other.1).spec_all()
        &&& self.2.spec_eq(other.2).spec_all()
    }
}

impl float3x3 {
    /// Column `c` of the matrix.
    pub open spec fn column(self, c: int) -> float3 {
        if c == 0 {
            self.0
        } else if c == 1 {
            self.1
        } else {
            self.2
        }
    }

    /// The matrix whose columns are the first three entries of `s`.
    pub open spec fn of(s: Seq<Seq<u32>>) -> float3x3 {
        float3x3(float3::of(s[0]), float3::of(s[1]), float3::of(s[2]))
    }

    /// The matrix with the given columns.
    pub open spec fn spec_from_columns(c0: float3, c1: float3, c2: float3) -> float3x3 {
        float3x3(c0, c1, c2)
    }

    /// Builds the matrix from its columns.
    #[verifier::when_used_as_spec(spec_from_columns)]
    pub fn from_columns(c0: float3, c1: float3, c2: float3) -> (r: float3x3)
        ensures
            r == float3x3::spec_from_columns(c0, c1, c2),
            r@ == seq![c0@, c1@, c2@],
    {
        float3x3(c0, c1, c2)
    }

    /// The matrix with the given rows.
    pub open spec fn spec_from_rows(r0: float3, r1: float3, r2: float3) -> float3x3 {
        float3x3(r0, r1, r2).spec_transpose()
    }

    /// Builds the matrix from its rows: the rows are the columns of the
    /// transpose.
    #[verifier::when_used_as_spec(spec_from_rows)]
    pub fn from_rows(r0: float3, r1: float3, r2: float3) -> (r: float3x3)
        ensures
            r == float3x3::spec_from_rows(r0, r1, r2),
            r@ == lanes::transposed(seq![r0@, r1@, r2@]),
    {
        let rows = float3x3(r0, r1, r2);
        proof {
            assert(rows@ =~~= seq![r0@, r1@, r2@]);
        }
        rows.transpose()
    }

    /// The matrix with rows and columns exchanged.
    pub open spec fn spec_transpose(self) -> float3x3 {
        float3x3::of(lanes::transposed(self@))
    }

    /// Transposes the matrix: column `r` of the result holds lane `r` of every
    /// column of `self`, in the order of the columns.
    #[verifier::when_used_as_spec(spec_transpose)]
    pub fn transpose(self) -> (r: float3x3)
        ensures
            r == self.spec_transpose(),
            r@ == lanes::transposed(self@),
    {
        let c0 = float3((self.0).0, (self.1).0, (self.2).0);
        let c1 = float3((self.0).1, (self.1).1, (self.2).1);
        let c2 = float3((self.0).2, (self.1).2, (self.2).2);
        let t = float3x3(c0, c1, c2);
        proof {
            assert(t@ =~~= lanes::transposed(self@));
        }
        t
    }

    /// The matrix with 1.0 on the diagonal and 0.0 elsewhere.
    pub open spec fn spec_identity(self) -> float3x3 {
        float3x3::of(
            Seq::new(
                3,
                |c: int|
                    Seq::new(
                        3,
                        |r: int|
                            if r == c {
                                bits32::FLOAT_ONE
                            } else {
                                bits32::FLOAT_ZERO
                            },
                    ),
            ),
        )
    }

    /// The identity matrix. The matrix it is called on plays no part.
    #[verifier::when_used_as_spec(spec_identity)]
    pub fn identity(self) -> (r: float3x3)
        ensures
            r == self.spec_identity(),
    {
        float3x3(
            float3(bits32::FLOAT_ONE, bits32::FLOAT_ZERO, bits32::FLOAT_ZERO),
            float3(bits32::FLOAT_ZERO, bits32::FLOAT_ONE, bits32::FLOAT_ZERO),
            float3(bits32::FLOAT_ZERO, bits32::FLOAT_ZERO, bits32::FLOAT_ONE),
        )
    }

    /// Whether `r` may be the sum of `self` and `other`, column by column
    /// and lane by lane, where `plus` adds two numbers.
    pub open spec fn is_add<F: Fn(u32, u32) -> u32>(
        self,
        other: float3x3,
        plus: F,
        r: float3x3,
    ) -> bool {
        &&& self.0.is_map_binary(other.0, plus, r.0)
        &&& self.1.is_map_binary(other.1, plus, r.1)
        &&& self.2.is_map_binary(other.2, plus, r.2)
    }

    /// The sum of two matrices: the columns are combined lane by lane with
    /// `plus`.
    pub fn add<F: Fn(u32, u32) -> u32>(self, other: float3x3, plus: &F) -> (r: float3x3)
        requires
            forall|x: u32, y: u32| call_requires(plus, (x, y)),
        ensures
            self.is_add(other, *plus, r),
    {
        float3x3(
            self.0.map_binary(other.0, plus),
            self.1.map_binary(other.1, plus),
            self.2.map_binary(other.2, plus),
        )
    }

    /// Whether `r` may be the difference of `self` and `other`, column by
    /// column and lane by lane, where `minus` subtracts two numbers.
    pub open spec fn is_sub<F: Fn(u32, u32) -> u32>(
        self,
        other: float3x3,
        minus: F,
        r: float3x3,
    ) -> bool {
        &&& self.0.is_map_binary(other.0, minus, r.0)
        &&& self.1.is_map_binary(other.1, minus, r.1)
        &&& self.2.is_map_binary(other.2, minus, r.2)
    }

    /// The difference of two matrices: the columns are combined lane by lane
    /// with `minus`.
    pub fn sub<F: Fn(u32, u32) -> u32>(self, other: float3x3, minus: &F) -> (r: float3x3)
        requires
            forall|x: u32, y: u32| call_requires(minus, (x, y)),
        ensures
            self.is_sub(other, *minus, r),
    {
        float3x3(
            self.0.map_binary(other.0, minus),
            self.1.map_binary(other.1, minus),
            self.2.map_binary(other.2, minus),
        )
    }

    /// Whether `r` may be `self` scaled by the number `s`, where `times`
    /// multiplies two numbers: `s` times every lane of every column.
    pub open spec fn is_mul<F: Fn(u32, u32) -> u32>(self, s: u32, times: F, r: float3x3) -> bool {
        &&& float3::spec_broadcast(s).is_map_binary(self.0, times, r.0)
        &&& float3::spec_broadcast(s).is_map_binary(self.1, times, r.1)
        &&& float3::spec_broadcast(s).is_map_binary(self.2, times, r.2)
    }

    /// The matrix scaled by the number `s`: `s` is put into every lane of a
    /// vector, and every column is multiplied by that vector from the left.
    pub fn mul<F: Fn(u32, u32) -> u32>(self, s: u32, times: &F) -> (r: float3x3)
        requires
            forall|x: u32, y: u32| call_requires(times, (x, y)),
        ensures
            self.is_mul(s, *times, r),
    {
        let a = float3::broadcast(s);
        float3x3(
            a.map_binary(self.0, times),
            a.map_binary(self.1, times),
            a.map_binary(self.2, times),
        )
    }

    /// Whether `r` may be the product of the matrix and the vector `v`: the
    /// sum of the columns, each scaled by the lane of `v` at its position, the
    /// terms added from left to right.
    pub open spec fn is_dot<F: Fn(u32, u32) -> u32, G: Fn(u32, u32) -> u32>(
        self,
        v: float3,
        times: F,
        plus: G,
        r: float3,
    ) -> bool {
        exists|t0: float3, t1: float3, t2: float3, s1: float3|
            {
                &&& self.0.is_map_binary(float3::spec_broadcast(v.0), times, t0)
                &&& self.1.is_map_binary(float3::spec_broadcast(v.1), times, t1)
                &&& self.2.is_map_binary(float3::spec_broadcast(v.2), times, t2)
                &&& #[trigger] t0.is_map_binary(t1, plus, s1)
                &&& #[trigger] s1.is_map_binary(t2, plus, r)
            }
    }

    /// The product of the matrix and a vector: the linear combination of the
    /// columns with the lanes of `v` as the weights.
    pub fn dot<F: Fn(u32, u32) -> u32, G: Fn(u32, u32) -> u32>(
        self,
        v: float3,
        times: &F,
        plus: &G,
    ) -> (r: float3)
        requires
            forall|x: u32, y: u32| call_requires(times, (x, y)),
            forall|x: u32, y: u32| call_requires(plus, (x, y)),
        ensures
            self.is_dot(v, *times, *plus, r),
    {
        let t0 = self.0.map_binary(float3::broadcast(v.0), times);
        let t1 = self.1.map_binary(float3::broadcast(v.1), times);
        let t2 = self.2.map_binary(float3::broadcast(v.2), times);
        let s1 = t0.map_binary(t1, plus);
        s1.map_binary(t2, plus)
    }

    /// Whether `r` may be the product of `self` and `other`: column `i` of `r`
    /// is the product of `self` and column `i` of `other`.
    pub open spec fn is_dot_matrix<F: Fn(u32, u32) -> u32, G: Fn(u32, u32) -> u32>(
        self,
        other: float3x3,
        times: F,
        plus: G,
        r: float3x3,
    ) -> bool {
        &&& self.is_dot(other.0, times, plus, r.0)
        &&& self.is_dot(other.1, times, plus, r.1)
        &&& self.is_dot(other.2, times, plus, r.2)
    }

    /// The product of two matrices: `self` is multiplied with every column of
    /// `other`, and the results are the columns of the product.
    pub fn dot_matrix<F: Fn(u32, u32) -> u32, G: Fn(u32, u32) -> u32>(
        self,
        other: float3x3,
        times: &F,
        plus: &G,
    ) -> (r: float3x3)
        requires
            forall|x: u32, y: u32| call_requires(times, (x, y)),
            forall|x: u32, y: u32| call_requires(plus, (x, y)),
        ensures
            self.is_dot_matrix(other, *times, *plus, r),
    {
        float3x3(
            self.dot(other.0, times, plus),
            self.dot(other.1, times, plus),
            self.dot(other.2, times, plus),
        )
    }

    /// Whether `r` may be the column `a * x + b * y`, where `a` and `b` are
    /// numbers and `x` and `y` columns.
    pub open spec fn is_combined<F: Fn(u32, u32) -> u32, G: Fn(u32, u32) -> u32>(
        a: u32,
        x: float3,
        b: u32,
        y: float3,
        times: F,
        plus: G,
        r: float3,
    ) -> bool {
        exists|p: float3, q: float3|
            {
                &&& float3::spec_broadcast(a).is_map_binary(x, times, p)
                &&& float3::spec_broadcast(b).is_map_binary(y, times, q)
                &&& #[trigger] p.is_map_binary(q, plus, r)
            }
    }

    /// Whether `r` may be the linear combination `a * x + b * y` of the
    /// matrices `x` and `y`, column by column.
    pub open spec fn is_linear_combination<F: Fn(u32, u32) -> u32, G: Fn(u32, u32) -> u32>(
        a: u32,
        x: float3x3,
        b: u32,
        y: float3x3,
        times: F,
        plus: G,
        r: float3x3,
    ) -> bool {
        &&& float3x3::is_combined(a, x.0, b, y.0, times, plus, r.0)
        &&& float3x3::is_combined(a, x.1, b, y.1, times, plus, r.1)
        &&& float3x3::is_combined(a, x.2, b, y.2, times, plus, r.2)
    }

    /// The linear combination `a * x + b * y`, computed column by column: no
    /// scaled matrix is built on the way.
    pub fn linear_combination<F: Fn(u32, u32) -> u32, G: Fn(u32, u32) -> u32>(
        a: u32,
        x: float3x3,
        b: u32,
        y: float3x3,
        times: &F,
        plus: &G,
    ) -> (r: float3x3)
        requires
            forall|x: u32, y: u32| call_requires(times, (x, y)),
            forall|x: u32, y: u32| call_requires(plus, (x, y)),
        ensures
            float3x3::is_linear_combination(a, x, b, y, *times, *plus, r),
    {
        let av = float3::broadcast(a);
        let bv = float3::broadcast(b);
        let c0 = av.map_binary(x.0, times).map_binary(bv.map_binary(y.0, times), plus);
        let c1 = av.map_binary(x.1, times).map_binary(bv.map_binary(y.1, times), plus);
        let c2 = av.map_binary(x.2, times).map_binary(bv.map_binary(y.2, times), plus);
        float3x3(c0, c1, c2)
    }

    /// Transposing a matrix twice gives the matrix back.
    pub proof fn lemma_transpose_twice(m: float3x3)
        ensures
            m.transpose().transpose() == m,
    {
        lanes::lemma_transposed_twice(m@, 3, 3);
    }
}

} // verus!
