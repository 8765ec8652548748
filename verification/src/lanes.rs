//! Lane sequences: the mathematical model shared by every vector type.
//!
//! A vector of `N` lanes is viewed as a `Seq` of length `N`, lane 0 first.
//! The functions here describe lane-wise operations, the decomposition of a
//! vector into halves, the order in which reductions fold the lanes, and the
//! transposition of a matrix given by its columns.
use vstd::prelude::*;

verus! {

/// `n` lanes that all hold `x`.
pub open spec fn splat<T>(x: T, n: nat) -> Seq<T> {
    Seq::new(n, |i: int| x)
}

/// Applies `f` to every lane of `a`.
pub open spec fn map1<A, B>(a: Seq<A>, f: spec_fn(A) -> B) -> Seq<B> {
    Seq::new(a.len(), |i: int| f(a[i]))
}

/// Combines the lanes of `a` and `b` at equal positions with `f`.
pub open spec fn map2<A, B>(a: Seq<A>, b: Seq<A>, f: spec_fn(A, A) -> B) -> Seq<B> {
    Seq::new(a.len(), |i: int| f(a[i], b[i]))
}

/// Combines the lanes of `m`, `a` and `b` at equal positions with `f`.
pub open spec fn map3<M, A, B>(m: Seq<M>, a: Seq<A>, b: Seq<A>, f: spec_fn(M, A, A) -> B) -> Seq<
    B,
> {
    Seq::new(a.len(), |i: int| f(m[i], a[i], b[i]))
}

/// `s` itself when its length is even, else `s` followed by one lane `zero`.
///
/// A vector with an odd number of lanes is decomposed as if it had one more
/// lane holding zero.
pub open spec fn padded<T>(s: Seq<T>, zero: T) -> Seq<T> {
    if s.len() % 2 == 1 {
        s.push(zero)
    } else {
        s
    }
}

/// The first half of the lanes.
pub open spec fn lower_half<T>(s: Seq<T>, zero: T) -> Seq<T> {
    let p = padded(s, zero);
    p.take(p.len() as int / 2)
}

/// The second half of the lanes.
pub open spec fn upper_half<T>(s: Seq<T>, zero: T) -> Seq<T> {
    let p = padded(s, zero);
    p.skip(p.len() as int / 2)
}

/// The lanes at even positions: lane 0, lane 2, and so on.
pub open spec fn even_lanes<T>(s: Seq<T>, zero: T) -> Seq<T> {
    let p = padded(s, zero);
    Seq::new(p.len() / 2, |i: int| p[2 * i])
}

/// The lanes at odd positions: lane 1, lane 3, and so on.
pub open spec fn odd_lanes<T>(s: Seq<T>, zero: T) -> Seq<T> {
    let p = padded(s, zero);
    Seq::new(p.len() / 2, |i: int| p[2 * i + 1])
}

/// The result of reducing the lanes of `s` with `f`.
///
/// A sequence of odd length is folded from left to right: the reduction of
/// all lanes but the last is combined with the last lane. A sequence of even
/// length is halved: its first half is combined lane by lane with its second
/// half, and the result is reduced in turn. For an empty sequence the result
/// is not specified.
pub open spec fn fold<T>(s: Seq<T>, f: spec_fn(T, T) -> T) -> T
    decreases s.len(),
{
    if s.len() <= 1 {
        s[0]
    } else if s.len() % 2 == 1 {
        f(fold(s.drop_last(), f), s.last())
    } else {
        let h = s.len() as int / 2;
        fold(map2(s.take(h), s.skip(h), f), f)
    }
}

/// Whether `m` holds `cols` columns of `rows` entries each.
pub open spec fn has_shape<T>(m: Seq<Seq<T>>, cols: nat, rows: nat) -> bool {
    &&& m.len() == cols
    &&& forall|c: int| 0 <= c < cols ==> (#[trigger] m[c]).len() == rows
}

/// The transpose of a matrix given by its columns: column `r` of the result
/// holds entry `r` of every column of `m`, in the order of the columns.
pub open spec fn transposed<T>(m: Seq<Seq<T>>) -> Seq<Seq<T>> {
    Seq::new(m[0].len(), |r: int| Seq::new(m.len(), |c: int| m[c][r]))
}

/// Transposing a matrix twice gives the matrix back.
pub proof fn lemma_transposed_twice<T>(m: Seq<Seq<T>>, cols: nat, rows: nat)
    requires
        has_shape(m, cols, rows),
        cols > 0,
        rows > 0,
    ensures
        has_shape(transposed(m), rows, cols),
        transposed(transposed(m)) == m,
{
    let t = transposed(m);
    assert(has_shape(t, rows, cols));
    let tt = transposed(t);
    assert(tt.len() == m.len());
    assert forall|c: int| 0 <= c < cols implies #[trigger] tt[c] =~= m[c] by {
        assert(m[c].len() == rows);
    }
    assert(tt =~= m);
}

} // verus!
