//! The momentum-zero invariant: in exact arithmetic a run starts at rest as
//! a whole and stays so.

use crate::arith::{decimal, Operation};
use crate::body::{is_system, System};
use crate::constants::solar_mass;
use crate::exact::{
    is_exact, lemma_offset_cancels_planets, lemma_step_keeps_momentum, power_of_ten,
    total_momentum, value_of,
};
use crate::initial::{initial_system, lemma_initial_system_shape};
use crate::run::{after_steps, lemma_steps_keep_shape, prepared};
use vstd::prelude::*;

verus! {

/// The system that the first step finds is at rest as a whole.
pub proof fn lemma_prepared_system_is_at_rest(ev: spec_fn(Operation<real>) -> real, m: int)
    requires
        is_exact(ev),
        0 <= m < 3,
    ensures
        is_system(prepared(ev)),
        total_momentum(prepared(ev), m) == 0real,
{
    let start = initial_system(ev);
    lemma_initial_system_shape(ev);
    let nothing = ev(Operation::Literal(decimal(0, 0)));
    assert(nothing == 0real) by {
        assert(value_of(decimal(0, 0)) == 0real * power_of_ten(0));
        assert(0real * power_of_ten(0) == 0real) by (nonlinear_arith);
    }
    assert(start[0].velocity[m] == nothing);
    assert(start[0].mass == solar_mass(ev));
    lemma_offset_cancels_planets(ev, start, m);
    let sm = solar_mass(ev);
    assert(sm * 0real == 0real) by (nonlinear_arith);
}

/// Any number of steps leaves the momentum of the system as it was.
pub proof fn lemma_steps_keep_momentum(
    ev: spec_fn(Operation<real>) -> real,
    sys: System<real>,
    n: nat,
    m: int,
)
    requires
        is_exact(ev),
        is_system(sys),
        0 <= m < 3,
    ensures
        total_momentum(after_steps(ev, sys, n), m) == total_momentum(sys, m),
    decreases n,
{
    if n > 0 {
        let earlier = after_steps(ev, sys, (n - 1) as nat);
        lemma_steps_keep_shape(ev, sys, (n - 1) as nat);
        lemma_steps_keep_momentum(ev, sys, (n - 1) as nat, m);
        lemma_step_keeps_momentum(ev, earlier, m);
    }
}

/// The system stays at rest as a whole through every step of a run.
pub proof fn lemma_system_stays_at_rest(ev: spec_fn(Operation<real>) -> real, n: nat, m: int)
    requires
        is_exact(ev),
        0 <= m < 3,
    ensures
        total_momentum(after_steps(ev, prepared(ev), n), m) == 0real,
{
    lemma_prepared_system_is_at_rest(ev, m);
    lemma_steps_keep_momentum(ev, prepared(ev), n, m);
}

} // verus!
