//! Evaluation of polynomials over `i64` coefficients, with Horner's method
//! and with Estrin's scheme, each also in a fused multiply-add form.
//!
//! Coefficients are listed from the constant term up: `c[i]` is the
//! coefficient of `x^i`. Every evaluator is proved to return the exact value
//! of the polynomial whenever its intermediate results fit in an `i64`. The
//! point is a plain argument, so an expression given for it is evaluated
//! exactly once, however many coefficients there are.

mod estrin;
mod fma;
mod horner;
pub mod poly;

pub use estrin::{estrin, estrin_fma};
pub use fma::mul_add;
pub use horner::{horner, horner_array, horner_fma};
