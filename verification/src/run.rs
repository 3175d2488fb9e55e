//! A whole run: the energy of the system at rest, and again after a number
//! of steps.

use crate::arith::{computes, is_total, Operation};
use crate::body::{is_system, system_of, System};
use crate::energy::{energy, total_energy};
use crate::initial::{initial_state, initial_system};
use crate::momentum::{offset, offset_momentum};
use crate::step::{advance, advanced, lemma_bodies_move_after_all_pulls};
use vstd::prelude::*;

verus! {

/// The two energies that a run reports.
#[derive(Debug)]
pub struct Energies<S> {
    /// The energy before the first step.
    pub before: S,
    /// The energy after the last step.
    pub after: S,
}

/// The number of steps that a request for `steps` steps leads to: none when
/// `steps` is not positive.
pub open spec fn steps_taken(steps: i32) -> nat {
    if steps > 0 {
        steps as nat
    } else {
        0
    }
}

/// The system `n` steps after `sys`.
pub open spec fn after_steps<S>(ev: spec_fn(Operation<S>) -> S, sys: System<S>, n: nat) -> System<
    S,
>
    decreases n,
{
    if n == 0 {
        sys
    } else {
        advanced(ev, after_steps(ev, sys, (n - 1) as nat))
    }
}

/// The system that the first step finds: the initial one, brought to rest.
pub open spec fn prepared<S>(ev: spec_fn(Operation<S>) -> S) -> System<S> {
    offset(ev, initial_system(ev))
}

/// What a run of `steps` steps reports: the energy of the prepared system,
/// and its energy that many steps later.
pub open spec fn is_report<S>(
    ev: spec_fn(Operation<S>) -> S,
    steps: i32,
    report: Energies<S>,
) -> bool {
    &&& report.before == total_energy(ev, prepared(ev))
    &&& report.after == total_energy(ev, after_steps(ev, prepared(ev), steps_taken(steps)))
}

/// Runs the simulation: builds the initial system, brings it to rest, takes
/// its energy, advances it `steps` times and takes its energy again.
pub fn run<S: Copy, F: Fn(Operation<S>) -> S>(steps: i32, eval: &F) -> (report: Energies<S>)
    requires
        is_total(eval),
    ensures
        forall|ev: spec_fn(Operation<S>) -> S| #[trigger]
            computes(eval, ev) ==> is_report(ev, steps, report),
{
    let mut bodies = initial_state(eval);
    offset_momentum(&mut bodies, eval);
    let before = energy(&bodies, eval);
    let mut done: i32 = 0;
    while done < steps
        invariant
            0 <= done,
            done == 0 || done <= steps,
            is_total(eval),
            forall|ev: spec_fn(Operation<S>) -> S| #[trigger]
                computes(eval, ev) ==> before == total_energy(ev, prepared(ev)) && system_of(bodies)
                    == after_steps(ev, prepared(ev), done as nat),
        decreases steps - done,
    {
        advance(&mut bodies, eval);
        done += 1;
    }
    let after = energy(&bodies, eval);
    Energies { before, after }
}

/// Steps turn systems into systems.
pub proof fn lemma_steps_keep_shape<S>(ev: spec_fn(Operation<S>) -> S, sys: System<S>, n: nat)
    requires
        is_system(sys),
    ensures
        is_system(after_steps(ev, sys, n)),
    decreases n,
{
    if n > 0 {
        lemma_steps_keep_shape(ev, sys, (n - 1) as nat);
        lemma_bodies_move_after_all_pulls(ev, after_steps(ev, sys, (n - 1) as nat));
    }
}

/// A run of no steps reports the same energy twice.
pub proof fn lemma_no_steps_no_change<S>(
    ev: spec_fn(Operation<S>) -> S,
    steps: i32,
    report: Energies<S>,
)
    requires
        steps <= 0,
        is_report(ev, steps, report),
    ensures
        report.after == report.before,
{
}

/// Determinism: two runs of the same number of steps, in the same
/// arithmetic, report the same energies.
pub proof fn lemma_runs_agree<S>(
    ev: spec_fn(Operation<S>) -> S,
    steps: i32,
    first: Energies<S>,
    second: Energies<S>,
)
    requires
        is_report(ev, steps, first),
        is_report(ev, steps, second),
    ensures
        first == second,
{
}

} // verus!
