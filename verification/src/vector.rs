//! Three-component vectors over the caller's scalars.

use crate::arith::{computes, is_total, Operation};
use vstd::prelude::*;

verus! {

/// `a - b`, component by component.
pub open spec fn difference<S>(ev: spec_fn(Operation<S>) -> S, a: Seq<S>, b: Seq<S>) -> Seq<S> {
    Seq::new(3, |m: int| ev(Operation::Sub(a[m], b[m])))
}

/// The squares of the three components, summed from the first to the last.
pub open spec fn squared_norm<S>(ev: spec_fn(Operation<S>) -> S, v: Seq<S>) -> S {
    ev(
        Operation::Add(
            ev(Operation::Add(ev(Operation::Powi(v[0], 2)), ev(Operation::Powi(v[1], 2)))),
            ev(Operation::Powi(v[2], 2)),
        ),
    )
}

/// The Euclidean length of `v`.
pub open spec fn norm<S>(ev: spec_fn(Operation<S>) -> S, v: Seq<S>) -> S {
    ev(Operation::Sqrt(squared_norm(ev, v)))
}

/// Computes `a - b`.
pub fn separation<S: Copy, F: Fn(Operation<S>) -> S>(a: &[S; 3], b: &[S; 3], eval: &F) -> (d: [
    S;
    3
])
    requires
        is_total(eval),
    ensures
        forall|ev: spec_fn(Operation<S>) -> S| #[trigger]
            computes(eval, ev) ==> d@ == difference(ev, a@, b@),
{
    let d = [
        eval(Operation::Sub(a[0], b[0])),
        eval(Operation::Sub(a[1], b[1])),
        eval(Operation::Sub(a[2], b[2])),
    ];
    assert forall|ev: spec_fn(Operation<S>) -> S| #[trigger] computes(eval, ev) implies d@
        == difference(ev, a@, b@) by {
        assert(d@ =~= difference(ev, a@, b@));
    }
    d
}

/// Computes the squared length of `v`.
pub fn squared_length<S: Copy, F: Fn(Operation<S>) -> S>(v: &[S; 3], eval: &F) -> (r: S)
    requires
        is_total(eval),
    ensures
        forall|ev: spec_fn(Operation<S>) -> S| #[trigger]
            computes(eval, ev) ==> r == squared_norm(ev, v@),
{
    let x = eval(Operation::Powi(v[0], 2));
    let y = eval(Operation::Powi(v[1], 2));
    let z = eval(Operation::Powi(v[2], 2));
    let xy = eval(Operation::Add(x, y));
    eval(Operation::Add(xy, z))
}

/// Computes the length of `v`.
pub fn length<S: Copy, F: Fn(Operation<S>) -> S>(v: &[S; 3], eval: &F) -> (r: S)
    requires
        is_total(eval),
    ensures
        forall|ev: spec_fn(Operation<S>) -> S| #[trigger] computes(eval, ev) ==> r == norm(ev, v@),
{
    let squared = squared_length(v, eval);
    eval(Operation::Sqrt(squared))
}

} // verus!
