//! The arithmetic that the kernel asks of its caller.
//!
//! The kernel never adds or multiplies scalars itself. It hands each single
//! operation to an evaluator, a function from [`Operation`] to the scalar
//! type, and works with what comes back. A contract in this crate therefore
//! speaks of every function `ev` that the evaluator computes: whatever the
//! number system, the result is the stated expression in `ev`. An evaluator
//! that gives one result only for each operation computes such a function;
//! of one that does not, the contracts say nothing.

use vstd::prelude::*;

verus! {

/// The number `digits` × 10^`exponent`, written exactly.
#[derive(Clone, Copy, Debug)]
pub struct Decimal {
    pub digits: i64,
    pub exponent: i32,
}

/// The decimal `digits` × 10^`exponent`, for contracts.
pub open spec fn decimal(digits: int, exponent: int) -> Decimal {
    Decimal { digits: digits as i64, exponent: exponent as i32 }
}

/// One arithmetic operation on scalars of type `S`.
///
/// An evaluator maps an operation to its result in the caller's number
/// system. `Literal` asks for the scalar nearest to a decimal constant and
/// `Pi` for the scalar nearest to π; `Powi` raises to an integer power.
#[derive(Debug)]
pub enum Operation<S> {
    Pi,
    Literal(Decimal),
    Add(S, S),
    Sub(S, S),
    Mul(S, S),
    Div(S, S),
    Sqrt(S),
    Powi(S, i32),
}

impl<S: Copy> Clone for Operation<S> {
    fn clone(&self) -> (copy: Self)
        ensures
            copy == *self,
    {
        *self
    }
}

impl<S: Copy> Copy for Operation<S> {

}

/// An evaluator is total when it accepts every operation, a division by
/// zero and the root of a negative scalar among them.
pub open spec fn is_total<S, F: Fn(Operation<S>) -> S>(eval: &F) -> bool {
    forall|op: Operation<S>| #[trigger] eval.requires((op,))
}

/// `eval` computes the function `ev` when every result that it may give for
/// an operation is `ev` of that operation.
pub open spec fn computes<S, F: Fn(Operation<S>) -> S>(
    eval: &F,
    ev: spec_fn(Operation<S>) -> S,
) -> bool {
    forall|op: Operation<S>, r: S| #[trigger] eval.ensures((op,), r) ==> r == ev(op)
}

} // verus!
