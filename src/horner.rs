use vstd::arithmetic::mul::lemma_mul_is_commutative;
use vstd::prelude::*;

use crate::fma::mul_add;
use crate::poly::{as_ints, fits, horner_fits, horner_value};

verus! {

/// Unfolds `horner_value` at suffix `k`: the value of the coefficients from
/// `k` on is `c[k]` plus the value of those from `k + 1` on, times `x`: the
/// order in which the loops below multiply.
proof fn lemma_horner_step(x: int, c: Seq<int>, k: int)
    requires
        0 <= k < c.len(),
    ensures
        horner_value(x, c.skip(k)) == c[k] + horner_value(x, c.skip(k + 1)) * x,
{
    assert(c.skip(k).drop_first() =~= c.skip(k + 1));
    lemma_mul_is_commutative(x, horner_value(x, c.skip(k + 1)));
}

/// Evaluates the polynomial with coefficients `coeffs` (constant term first)
/// at `x` with Horner's method, from the highest coefficient down, starting
/// from zero. No coefficients give zero.
pub fn horner(x: i64, coeffs: &[i64]) -> (r: i64)
    requires
        horner_fits(x as int, as_ints(coeffs@)),
    ensures
        r == horner_value(x as int, as_ints(coeffs@)),
        coeffs@.len() == 0 ==> r == 0,
        coeffs@.len() == 1 ==> r == coeffs@[0],
        coeffs@.len() == 2 ==> r == coeffs@[0] + x * coeffs@[1],
{
    let ghost c = as_ints(coeffs@);
    let mut acc: i64 = 0;
    let mut k: usize = coeffs.len();
    assert(c.skip(k as int) =~= Seq::<int>::empty());
    while k > 0
        invariant
            k <= coeffs@.len(),
            c == as_ints(coeffs@),
            horner_fits(x as int, c),
            acc == horner_value(x as int, c.skip(k as int)),
        decreases k,
    {
        k = k - 1;
        proof {
            lemma_horner_step(x as int, c, k as int);
            lemma_mul_is_commutative(x as int, acc as int);
            assert(fits(horner_value(x as int, c.skip(k as int))));
        }
        acc = acc * x + coeffs[k];
    }
    assert(c.skip(0) =~= c);
    proof {
        if c.len() == 1 {
            assert(c.drop_first() =~= Seq::<int>::empty());
            assert(horner_value(x as int, c.drop_first()) == 0);
            assert(c[0] == coeffs@[0]);
        } else if c.len() == 2 {
            let rest = c.drop_first();
            assert(rest.drop_first() =~= Seq::<int>::empty());
            assert(horner_value(x as int, rest.drop_first()) == 0);
            assert(horner_value(x as int, rest) == c[1]);
            assert(c[0] == coeffs@[0] && c[1] == coeffs@[1]);
        }
    }
    acc
}

/// Same as [`horner`], for an array whose length, one more than the degree
/// of the polynomial, is part of its type.
pub fn horner_array<const N: usize>(x: i64, coeffs: &[i64; N]) -> (r: i64)
    requires
        horner_fits(x as int, as_ints(coeffs@)),
    ensures
        r == horner_value(x as int, as_ints(coeffs@)),
        N == 0 ==> r == 0,
{
    horner(x, coeffs.as_slice())
}

/// Evaluates the polynomial with coefficients `coeffs` (constant term first)
/// at `x` with Horner's method, where each step is one fused multiply-add
/// `mul_add(inner, x, c[k])`. At least one coefficient is needed: the
/// highest one is the starting value.
pub fn horner_fma(x: i64, coeffs: &[i64]) -> (r: i64)
    requires
        coeffs@.len() >= 1,
        horner_fits(x as int, as_ints(coeffs@)),
    ensures
        r == horner_value(x as int, as_ints(coeffs@)),
{
    let ghost c = as_ints(coeffs@);
    let mut k: usize = coeffs.len() - 1;
    let mut acc: i64 = coeffs[k];
    proof {
        let n = c.len() as int;
        lemma_horner_step(x as int, c, n - 1);
        assert(c.skip(n) =~= Seq::<int>::empty());
    }
    while k > 0
        invariant
            k < coeffs@.len(),
            c == as_ints(coeffs@),
            horner_fits(x as int, c),
            acc == horner_value(x as int, c.skip(k as int)),
        decreases k,
    {
        k = k - 1;
        proof {
            lemma_horner_step(x as int, c, k as int);
            lemma_mul_is_commutative(x as int, acc as int);
            assert(fits(horner_value(x as int, c.skip(k as int))));
        }
        acc = mul_add(acc, x, coeffs[k]);
    }
    assert(c.skip(0) =~= c);
    acc
}

} // verus!
