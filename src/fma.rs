use vstd::prelude::*;

use crate::poly::fits;

verus! {

/// Relies on `num_traits::MulAdd::mul_add` for `i64`, which computes
/// `(x * a) + b` with the operators of `i64` (and so panics on overflow in
/// debug builds: both steps are required to stay in range).
#[verifier::external_body]
fn num_mul_add(x: i64, a: i64, b: i64) -> (r: i64)
    requires
        fits(x * a),
        fits(x * a + b),
    ensures
        r == x * a + b,
{
    <i64 as num_traits::MulAdd>::mul_add(x, a, b)
}

/// Fused multiply-add: `x * a + b`.
///
/// For an exact type such as `i64` the fused and the unfused forms give the
/// same value; the product and the sum must both fit in an `i64`.
pub fn mul_add(x: i64, a: i64, b: i64) -> (r: i64)
    requires
        fits(x * a),
        fits(x * a + b),
    ensures
        r == x * a + b,
{
    num_mul_add(x, a, b)
}

} // verus!
