//! Bringing the system to rest as a whole.

use crate::arith::{computes, is_total, Operation};
use crate::body::{system_of, Body, BodyModel, System};
use crate::constants::{compute_solar_mass, solar_mass};
use crate::pairs::BODIES_COUNT;
use vstd::prelude::*;

verus! {

/// Component `m` of the Sun's velocity once the planets `1` to `n` have
/// been accounted for: each takes away its momentum over the solar mass.
pub open spec fn sun_velocity<S>(
    ev: spec_fn(Operation<S>) -> S,
    sys: System<S>,
    n: nat,
    m: int,
) -> S
    decreases n,
{
    if n == 0 {
        sys[0].velocity[m]
    } else {
        ev(
            Operation::Sub(
                sun_velocity(ev, sys, (n - 1) as nat, m),
                ev(
                    Operation::Div(
                        ev(Operation::Mul(sys[n as int].velocity[m], sys[n as int].mass)),
                        solar_mass(ev),
                    ),
                ),
            ),
        )
    }
}

/// The system with the Sun's velocity set against the momentum of all
/// planets. Only that velocity differs.
pub open spec fn offset<S>(ev: spec_fn(Operation<S>) -> S, sys: System<S>) -> System<S> {
    sys.update(
        0,
        BodyModel {
            velocity: Seq::new(3, |m: int| sun_velocity(ev, sys, (BODIES_COUNT - 1) as nat, m)),
            ..sys[0]
        },
    )
}

/// Sets the Sun's velocity against the momentum of the planets, so that the
/// system as a whole is at rest. Nothing but the velocity of body 0 changes.
pub fn offset_momentum<S: Copy, F: Fn(Operation<S>) -> S>(
    bodies: &mut [Body<S>; BODIES_COUNT],
    eval: &F,
)
    requires
        is_total(eval),
    ensures
        forall|ev: spec_fn(Operation<S>) -> S| #[trigger]
            computes(eval, ev) ==> system_of(*final(bodies)) == offset(ev, system_of(*old(bodies))),
        forall|b: int| 1 <= b < BODIES_COUNT ==> #[trigger] final(bodies)[b] == old(bodies)[b],
        final(bodies)[0].position == old(bodies)[0].position,
        final(bodies)[0].mass == old(bodies)[0].mass,
{
    let ghost before = system_of(*bodies);
    let sun_mass = compute_solar_mass(eval);
    let mut p: usize = 1;
    while p < BODIES_COUNT
        invariant
            1 <= p <= BODIES_COUNT,
            is_total(eval),
            before == system_of(*old(bodies)),
            forall|ev: spec_fn(Operation<S>) -> S| #[trigger]
                computes(eval, ev) ==> sun_mass == solar_mass(ev),
            forall|b: int| 1 <= b < BODIES_COUNT ==> #[trigger] bodies[b] == old(bodies)[b],
            bodies[0].position == old(bodies)[0].position,
            bodies[0].mass == old(bodies)[0].mass,
            forall|ev: spec_fn(Operation<S>) -> S, m: int|
                #![trigger computes(eval, ev), bodies[0].velocity[m]]
                computes(eval, ev) && 0 <= m < 3 ==> bodies[0].velocity[m] == sun_velocity(
                    ev,
                    before,
                    (p - 1) as nat,
                    m,
                ),
        decreases BODIES_COUNT - p,
    {
        let mut m: usize = 0;
        while m < 3
            invariant
                m <= 3,
                1 <= p < BODIES_COUNT,
                is_total(eval),
                before == system_of(*old(bodies)),
                forall|ev: spec_fn(Operation<S>) -> S| #[trigger]
                    computes(eval, ev) ==> sun_mass == solar_mass(ev),
                forall|b: int| 1 <= b < BODIES_COUNT ==> #[trigger] bodies[b] == old(bodies)[b],
                bodies[0].position == old(bodies)[0].position,
                bodies[0].mass == old(bodies)[0].mass,
                forall|ev: spec_fn(Operation<S>) -> S, n: int|
                    #![trigger computes(eval, ev), bodies[0].velocity[n]]
                    computes(eval, ev) && 0 <= n < 3 ==> bodies[0].velocity[n] == sun_velocity(
                        ev,
                        before,
                        if n < m {
                            p as nat
                        } else {
                            (p - 1) as nat
                        },
                        n,
                    ),
            decreases 3 - m,
        {
            let momentum = eval(Operation::Mul(bodies[p].velocity[m], bodies[p].mass));
            let share = eval(Operation::Div(momentum, sun_mass));
            bodies[0].velocity[m] = eval(Operation::Sub(bodies[0].velocity[m], share));
            m += 1;
        }
        p += 1;
    }
    proof {
        assert forall|ev: spec_fn(Operation<S>) -> S| #[trigger]
            computes(eval, ev) implies system_of(*bodies) == offset(ev, before) by {
            let after = offset(ev, before);
            assert(bodies[0].velocity@ =~= after[0].velocity);
            assert(system_of(*bodies) =~= after);
        }
    }
}

} // verus!
