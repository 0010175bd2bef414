use vstd::prelude::*;

use crate::fma::mul_add;
use crate::poly::{
    as_ints, estrin_fits, estrin_pairs, estrin_value, fits, horner_value,
    lemma_estrin_agrees_with_horner, pair_value, pairs_fit,
};

verus! {

/// `a0 + x * a1`, either as a fused multiply-add or as a product and a sum.
fn combine(x: i64, a0: i64, a1: i64, fused: bool) -> (r: i64)
    requires
        fits(x * a1),
        fits(pair_value(x as int, a0 as int, a1 as int)),
    ensures
        r == pair_value(x as int, a0 as int, a1 as int),
{
    if fused {
        mul_add(x, a1, a0)
    } else {
        a0 + x * a1
    }
}

/// One round of Estrin's scheme at `x`: the coefficients combined in
/// consecutive pairs, an odd last one carried over.
fn pair_terms(x: i64, c: &[i64], fused: bool) -> (r: Vec<i64>)
    requires
        pairs_fit(x as int, as_ints(c@)),
    ensures
        r@.len() == (c@.len() + 1) / 2,
        as_ints(r@) == estrin_pairs(x as int, as_ints(c@)),
{
    let ghost ci = as_ints(c@);
    let ghost pairs = estrin_pairs(x as int, ci);
    let mut r: Vec<i64> = Vec::new();
    let mut i: usize = 0;
    while c.len() - i >= 2
        invariant
            ci == as_ints(c@),
            pairs == estrin_pairs(x as int, ci),
            pairs_fit(x as int, ci),
            i % 2 == 0,
            i <= c@.len(),
            r@.len() == i / 2,
            forall|j: int| 0 <= j < r@.len() ==> r@[j] as int == #[trigger] pairs[j],
        decreases c@.len() - i,
    {
        let ghost h = (i / 2) as int;
        assert(fits(pair_value(x as int, ci[2 * h], ci[2 * h + 1])));
        let v = combine(x, c[i], c[i + 1], fused);
        r.push(v);
        i = i + 2;
    }
    if i < c.len() {
        r.push(c[i]);
    }
    assert(as_ints(r@) =~= pairs);
    r
}

/// Estrin's scheme on at least one coefficient: pairs are combined round
/// after round, the point squared between rounds, until one or two values
/// are left.
fn estrin_scheme(x: i64, coeffs: &[i64], fused: bool) -> (r: i64)
    requires
        coeffs@.len() >= 1,
        estrin_fits(x as int, as_ints(coeffs@)),
    ensures
        r == estrin_value(x as int, as_ints(coeffs@)),
{
    let ghost c = as_ints(coeffs@);
    if coeffs.len() == 1 {
        return coeffs[0];
    }
    if coeffs.len() == 2 {
        return combine(x, coeffs[0], coeffs[1], fused);
    }
    let mut level: Vec<i64> = pair_terms(x, coeffs, fused);
    let mut point: i64 = x * x;
    while level.len() > 2
        invariant
            level@.len() >= 1,
            estrin_fits(point as int, as_ints(level@)),
            estrin_value(point as int, as_ints(level@)) == estrin_value(x as int, c),
        decreases level@.len(),
    {
        let next = pair_terms(point, level.as_slice(), fused);
        point = point * point;
        level = next;
    }
    if level.len() == 1 {
        level[0]
    } else {
        combine(point, level[0], level[1], fused)
    }
}

/// Evaluates the polynomial with coefficients `coeffs` (constant term first)
/// at `x` with Estrin's scheme. At least one coefficient is needed.
pub fn estrin(x: i64, coeffs: &[i64]) -> (r: i64)
    requires
        coeffs@.len() >= 1,
        estrin_fits(x as int, as_ints(coeffs@)),
    ensures
        r == estrin_value(x as int, as_ints(coeffs@)),
        r == horner_value(x as int, as_ints(coeffs@)),
{
    proof {
        lemma_estrin_agrees_with_horner(x as int, as_ints(coeffs@));
    }
    estrin_scheme(x, coeffs, false)
}

/// Evaluates the polynomial with coefficients `coeffs` (constant term first)
/// at `x` with Estrin's scheme, where each pairwise combination is one fused
/// multiply-add `mul_add(x, c[2i + 1], c[2i])`. At least one coefficient is
/// needed.
pub fn estrin_fma(x: i64, coeffs: &[i64]) -> (r: i64)
    requires
        coeffs@.len() >= 1,
        estrin_fits(x as int, as_ints(coeffs@)),
    ensures
        r == estrin_value(x as int, as_ints(coeffs@)),
        r == horner_value(x as int, as_ints(coeffs@)),
{
    proof {
        lemma_estrin_agrees_with_horner(x as int, as_ints(coeffs@));
    }
    estrin_scheme(x, coeffs, true)
}

} // verus!
