//! The constants of the simulated scenario, as the evaluator renders them.

use crate::arith::{computes, decimal, is_total, Decimal, Operation};
use vstd::prelude::*;

verus! {

/// The zero scalar.
pub open spec fn zero<S>(ev: spec_fn(Operation<S>) -> S) -> S {
    ev(Operation::Literal(decimal(0, 0)))
}

/// One half.
pub open spec fn half<S>(ev: spec_fn(Operation<S>) -> S) -> S {
    ev(Operation::Literal(decimal(5, -1)))
}

/// The length of a step, 0.01 days.
pub open spec fn timestep<S>(ev: spec_fn(Operation<S>) -> S) -> S {
    ev(Operation::Literal(decimal(1, -2)))
}

/// The days of a year, 365.24.
pub open spec fn days_per_year<S>(ev: spec_fn(Operation<S>) -> S) -> S {
    ev(Operation::Literal(decimal(36524, -2)))
}

/// The mass of the Sun, 4π², computed as (4 · π) · π.
pub open spec fn solar_mass<S>(ev: spec_fn(Operation<S>) -> S) -> S {
    ev(
        Operation::Mul(
            ev(Operation::Mul(ev(Operation::Literal(decimal(4, 0))), ev(Operation::Pi))),
            ev(Operation::Pi),
        ),
    )
}

/// Computes the mass of the Sun.
pub fn compute_solar_mass<S: Copy, F: Fn(Operation<S>) -> S>(eval: &F) -> (mass: S)
    requires
        is_total(eval),
    ensures
        forall|ev: spec_fn(Operation<S>) -> S| #[trigger]
            computes(eval, ev) ==> mass == solar_mass(ev),
{
    let four = eval(Operation::Literal(Decimal { digits: 4, exponent: 0 }));
    let pi = eval(Operation::Pi);
    let four_pi = eval(Operation::Mul(four, pi));
    eval(Operation::Mul(four_pi, pi))
}

} // verus!
