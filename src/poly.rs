//! The mathematical model of polynomial evaluation.
//!
//! A polynomial is a sequence of integer coefficients, constant term first.
//! `horner_value` is its value at a point, written in the nested form
//! `c[0] + x * (c[1] + x * (c[2] + ...))`; `estrin_value` is the value that
//! Estrin's pairwise scheme computes. The predicates `horner_fits` and
//! `estrin_fits` say that every intermediate result of the respective
//! evaluation order is an `i64`.
use vstd::prelude::*;

verus! {

/// Whether a mathematical integer is representable as an `i64`.
pub open spec fn fits(v: int) -> bool {
    i64::MIN <= v <= i64::MAX
}

/// The coefficients of a slice or vector of `i64`, as mathematical integers.
pub open spec fn as_ints(s: Seq<i64>) -> Seq<int> {
    s.map_values(|v: i64| v as int)
}

/// The value at `x` of the polynomial with coefficients `c`, constant term
/// first: `c[0] + x * (c[1] + x * (... + x * c[n - 1]))`; zero for no
/// coefficients.
pub open spec fn horner_value(x: int, c: Seq<int>) -> int
    decreases c.len(),
{
    if c.len() == 0 {
        0
    } else {
        c[0] + x * horner_value(x, c.drop_first())
    }
}

/// Every step of Horner's method on `c` at `x` stays within `i64`: for each
/// index `k`, the product of `x` with the value of the coefficients above `k`,
/// and the value of the coefficients from `k` on.
pub open spec fn horner_fits(x: int, c: Seq<int>) -> bool {
    forall|k: int|
        0 <= k < c.len() ==> fits(x * horner_value(x, c.skip(k + 1))) && #[trigger] fits(
            horner_value(x, c.skip(k)),
        )
}

/// One pairwise combination of Estrin's scheme: `a0 + x * a1`.
pub open spec fn pair_value(x: int, a0: int, a1: int) -> int {
    a0 + x * a1
}

/// One round of Estrin's scheme: consecutive pairs `(c[2i], c[2i + 1])` are
/// combined into `c[2i] + x * c[2i + 1]`; an odd last coefficient is carried
/// over unchanged.
pub open spec fn estrin_pairs(x: int, c: Seq<int>) -> Seq<int> {
    Seq::new(
        ((c.len() + 1) / 2) as nat,
        |i: int|
            if 2 * i + 1 < c.len() {
                pair_value(x, c[2 * i], c[2 * i + 1])
            } else {
                c[2 * i]
            },
    )
}

/// The value that Estrin's scheme computes for `c` at `x`: one coefficient is
/// itself, two are combined directly, and longer lists are paired up and
/// evaluated at `x * x`.
pub open spec fn estrin_value(x: int, c: Seq<int>) -> int
    decreases c.len(),
{
    if c.len() == 0 {
        0
    } else if c.len() == 1 {
        c[0]
    } else if c.len() == 2 {
        pair_value(x, c[0], c[1])
    } else {
        estrin_value(x * x, estrin_pairs(x, c))
    }
}

/// Every pairwise combination of one round of Estrin's scheme stays within
/// `i64`.
pub open spec fn pairs_fit(x: int, c: Seq<int>) -> bool {
    forall|i: int|
        0 <= i && 2 * i + 1 < c.len() ==> fits(x * c[2 * i + 1]) && #[trigger] fits(
            pair_value(x, c[2 * i], c[2 * i + 1]),
        )
}

/// Every intermediate result of Estrin's scheme on `c` at `x` stays within
/// `i64`: the pairwise combinations of each round and the squared points.
pub open spec fn estrin_fits(x: int, c: Seq<int>) -> bool
    decreases c.len(),
{
    if c.len() <= 1 {
        true
    } else if c.len() == 2 {
        fits(x * c[1]) && fits(pair_value(x, c[0], c[1]))
    } else {
        fits(x * x) && pairs_fit(x, c) && estrin_fits(x * x, estrin_pairs(x, c))
    }
}

/// One round of pairing does not change the polynomial: the paired
/// coefficients evaluated at `x * x` give the value of `c` at `x`.
pub proof fn lemma_pairs_keep_value(x: int, c: Seq<int>)
    ensures
        horner_value(x * x, estrin_pairs(x, c)) == horner_value(x, c),
    decreases c.len(),
{
    let p = estrin_pairs(x, c);
    if c.len() == 0 {
        assert(p.len() == 0);
    } else if c.len() == 1 {
        assert(p.drop_first() =~= Seq::<int>::empty());
        assert(c.drop_first() =~= Seq::<int>::empty());
        assert(horner_value(x * x, p.drop_first()) == 0);
        assert(horner_value(x, c.drop_first()) == 0);
    } else {
        let rest = c.subrange(2, c.len() as int);
        assert(p.drop_first() =~= estrin_pairs(x, rest));
        assert(c.drop_first().drop_first() =~= rest);
        lemma_pairs_keep_value(x, rest);
        let h = horner_value(x, rest);
        assert(horner_value(x * x, p.drop_first()) == h);
        assert(horner_value(x, c.drop_first()) == c[1] + x * h);
        assert(x * (c[1] + x * h) == x * c[1] + (x * x) * h) by (nonlinear_arith);
    }
}

/// Horner's method and Estrin's scheme compute the same value of every
/// polynomial with at least one coefficient, at every point. The fused
/// multiply-add forms compute these same values, so all four evaluators
/// agree exactly on integers.
pub proof fn lemma_estrin_agrees_with_horner(x: int, c: Seq<int>)
    requires
        c.len() >= 1,
    ensures
        estrin_value(x, c) == horner_value(x, c),
    decreases c.len(),
{
    if c.len() == 1 {
        assert(c.drop_first() =~= Seq::<int>::empty());
        assert(horner_value(x, c.drop_first()) == 0);
    } else if c.len() == 2 {
        let rest = c.drop_first();
        assert(rest.drop_first() =~= Seq::<int>::empty());
        assert(horner_value(x, rest.drop_first()) == 0);
        assert(horner_value(x, rest) == c[1]);
    } else {
        let p = estrin_pairs(x, c);
        lemma_estrin_agrees_with_horner(x * x, p);
        lemma_pairs_keep_value(x, c);
    }
}

} // verus!
