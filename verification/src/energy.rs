//! The total energy of a system.

use crate::arith::{computes, is_total, Decimal, Operation};
use crate::body::{system_of, Body, BodyModel, System};
use crate::constants::{half, zero};
use crate::pairs::BODIES_COUNT;
use crate::vector::{difference, length, norm, separation, squared_length, squared_norm};
use vstd::prelude::*;

verus! {

/// The kinetic energy of a body: half its mass times its squared speed.
pub open spec fn kinetic<S>(ev: spec_fn(Operation<S>) -> S, body: BodyModel<S>) -> S {
    ev(Operation::Mul(ev(Operation::Mul(half(ev), body.mass)), squared_norm(ev, body.velocity)))
}

/// What two bodies bind: the product of their masses over their distance.
pub open spec fn potential<S>(
    ev: spec_fn(Operation<S>) -> S,
    a: BodyModel<S>,
    b: BodyModel<S>,
) -> S {
    ev(
        Operation::Div(
            ev(Operation::Mul(a.mass, b.mass)),
            norm(ev, difference(ev, a.position, b.position)),
        ),
    )
}

/// The running sum once the bodies below `i` are done and, of body `i`, its
/// kinetic energy and its pairs with the bodies above `i` and below `j`. The
/// sum starts at zero; each body adds its kinetic energy, then subtracts what
/// it binds with each later body in turn.
pub open spec fn energy_through<S>(
    ev: spec_fn(Operation<S>) -> S,
    sys: System<S>,
    i: nat,
    j: nat,
) -> S
    decreases i, j,
{
    if j > i + 1 {
        ev(
            Operation::Sub(
                energy_through(ev, sys, i, (j - 1) as nat),
                potential(ev, sys[i as int], sys[j - 1]),
            ),
        )
    } else {
        let earlier = if i == 0 {
            zero(ev)
        } else {
            energy_through(ev, sys, (i - 1) as nat, BODIES_COUNT as nat)
        };
        ev(Operation::Add(earlier, kinetic(ev, sys[i as int])))
    }
}

/// The energy of the system: the kinetic energy of every body, less what
/// every unordered pair binds.
pub open spec fn total_energy<S>(ev: spec_fn(Operation<S>) -> S, sys: System<S>) -> S {
    energy_through(ev, sys, (BODIES_COUNT - 1) as nat, BODIES_COUNT as nat)
}

/// Computes the energy of the system. Where two bodies are at one place the
/// division by their distance, zero, is the evaluator's to answer.
pub fn energy<S: Copy, F: Fn(Operation<S>) -> S>(bodies: &[Body<S>; BODIES_COUNT], eval: &F) -> (e:
    S)
    requires
        is_total(eval),
    ensures
        forall|ev: spec_fn(Operation<S>) -> S| #[trigger]
            computes(eval, ev) ==> e == total_energy(ev, system_of(*bodies)),
{
    let ghost sys = system_of(*bodies);
    let one_half = eval(Operation::Literal(Decimal { digits: 5, exponent: -1 }));
    let mut sum = eval(Operation::Literal(Decimal { digits: 0, exponent: 0 }));
    let mut i: usize = 0;
    while i < BODIES_COUNT
        invariant
            i <= BODIES_COUNT,
            is_total(eval),
            sys == system_of(*bodies),
            forall|ev: spec_fn(Operation<S>) -> S| #[trigger]
                computes(eval, ev) ==> one_half == half(ev) && sum == if i == 0 {
                    zero(ev)
                } else {
                    energy_through(ev, sys, (i - 1) as nat, BODIES_COUNT as nat)
                },
        decreases BODIES_COUNT - i,
    {
        let squared_speed = squared_length(&bodies[i].velocity, eval);
        let half_mass = eval(Operation::Mul(one_half, bodies[i].mass));
        let moving = eval(Operation::Mul(half_mass, squared_speed));
        sum = eval(Operation::Add(sum, moving));
        let mut j: usize = i + 1;
        while j < BODIES_COUNT
            invariant
                i < j <= BODIES_COUNT,
                is_total(eval),
                sys == system_of(*bodies),
                forall|ev: spec_fn(Operation<S>) -> S| #[trigger]
                    computes(eval, ev) ==> one_half == half(ev) && sum == energy_through(
                        ev,
                        sys,
                        i as nat,
                        j as nat,
                    ),
            decreases BODIES_COUNT - j,
        {
            let apart = separation(&bodies[i].position, &bodies[j].position, eval);
            let distance = length(&apart, eval);
            let masses = eval(Operation::Mul(bodies[i].mass, bodies[j].mass));
            let bound = eval(Operation::Div(masses, distance));
            sum = eval(Operation::Sub(sum, bound));
            j += 1;
        }
        i += 1;
    }
    sum
}

} // verus!
