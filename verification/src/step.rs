//! One step of the integrator: every velocity is updated from the
//! positions the step began with, then every position from the new
//! velocities.

use crate::arith::{computes, is_total, Decimal, Operation};
use crate::body::{is_system, system_of, Body, BodyModel, System};
use crate::constants::timestep;
use crate::pairs::{
    lemma_place_holds_pair, pair_first, pair_second, pairs, BODIES_COUNT, INTERACTIONS,
};
use crate::vector::{difference, length, norm, separation};
use vstd::prelude::*;

verus! {

/// The vector from the greater to the lesser body of the pair at place `k`.
pub open spec fn delta<S>(ev: spec_fn(Operation<S>) -> S, sys: System<S>, k: int) -> Seq<S> {
    difference(ev, sys[pair_first(k)].position, sys[pair_second(k)].position)
}

/// The step length over the cube of the distance that `d` spans.
pub open spec fn magnitude<S>(ev: spec_fn(Operation<S>) -> S, d: Seq<S>) -> S {
    ev(Operation::Div(timestep(ev), ev(Operation::Powi(norm(ev, d), 3))))
}

/// The system after the bodies `i` and `j` have pulled on each other along
/// `d` with strength `mag`: `i` loses `d` times the mass of `j` times `mag`,
/// `j` gains `d` times the mass of `i` times `mag`. Nothing else changes.
pub open spec fn kicked<S>(
    ev: spec_fn(Operation<S>) -> S,
    sys: System<S>,
    i: int,
    j: int,
    d: Seq<S>,
    mag: S,
) -> System<S> {
    let pull_on_i = ev(Operation::Mul(sys[j].mass, mag));
    let pull_on_j = ev(Operation::Mul(sys[i].mass, mag));
    sys.update(
        i,
        BodyModel {
            velocity: Seq::new(
                3,
                |m: int|
                    ev(Operation::Sub(sys[i].velocity[m], ev(Operation::Mul(d[m], pull_on_i)))),
            ),
            ..sys[i]
        },
    ).update(
        j,
        BodyModel {
            velocity: Seq::new(
                3,
                |m: int|
                    ev(Operation::Add(sys[j].velocity[m], ev(Operation::Mul(d[m], pull_on_j)))),
            ),
            ..sys[j]
        },
    )
}

/// The system after the first `n` pairs of the canonical order have pulled
/// on each other. Every pull is measured on `start`, the system as the step
/// found it.
pub open spec fn kicks<S>(ev: spec_fn(Operation<S>) -> S, start: System<S>, n: nat) -> System<S>
    decreases n,
{
    if n == 0 {
        start
    } else {
        let k = n - 1;
        kicked(
            ev,
            kicks(ev, start, k as nat),
            pair_first(k),
            pair_second(k),
            delta(ev, start, k),
            magnitude(ev, delta(ev, start, k)),
        )
    }
}

/// The system after every body has moved for one step at its velocity.
pub open spec fn drifted<S>(ev: spec_fn(Operation<S>) -> S, sys: System<S>) -> System<S> {
    Seq::new(
        sys.len(),
        |b: int|
            BodyModel {
                position: Seq::new(
                    3,
                    |m: int|
                        ev(
                            Operation::Add(
                                sys[b].position[m],
                                ev(Operation::Mul(timestep(ev), sys[b].velocity[m])),
                            ),
                        ),
                ),
                ..sys[b]
            },
    )
}

/// The system one step later: all pairs pull, then all bodies move.
pub open spec fn advanced<S>(ev: spec_fn(Operation<S>) -> S, sys: System<S>) -> System<S> {
    drifted(ev, kicks(ev, sys, INTERACTIONS as nat))
}

/// Pulls change velocities only: after any number of them every body is
/// where the step found it, with the mass it had. So every pull of a step is
/// measured on the positions that the step began with.
pub proof fn lemma_pulls_leave_places_and_masses<S>(
    ev: spec_fn(Operation<S>) -> S,
    start: System<S>,
    n: nat,
)
    requires
        is_system(start),
        n <= INTERACTIONS,
    ensures
        is_system(kicks(ev, start, n)),
        forall|b: int|
            0 <= b < BODIES_COUNT ==> (#[trigger] kicks(ev, start, n)[b]).position
                == start[b].position && kicks(ev, start, n)[b].mass == start[b].mass,
    decreases n,
{
    if n > 0 {
        lemma_pulls_leave_places_and_masses(ev, start, (n - 1) as nat);
        lemma_place_holds_pair(n - 1);
    }
}

/// Bodies move only when all pairs have pulled: every new position is the
/// old one plus the step length times the velocity that the body has once
/// the last pair has pulled, and that velocity is the one it keeps.
pub proof fn lemma_bodies_move_after_all_pulls<S>(ev: spec_fn(Operation<S>) -> S, sys: System<S>)
    requires
        is_system(sys),
    ensures
        is_system(advanced(ev, sys)),
        forall|b: int|
            0 <= b < BODIES_COUNT ==> (#[trigger] advanced(ev, sys)[b]).velocity == kicks(
                ev,
                sys,
                INTERACTIONS as nat,
            )[b].velocity && advanced(ev, sys)[b].mass == sys[b].mass,
        forall|b: int, m: int|
            0 <= b < BODIES_COUNT && 0 <= m < 3 ==> (#[trigger] advanced(
                ev,
                sys,
            )[b].position[m]) == ev(
                Operation::Add(
                    sys[b].position[m],
                    ev(Operation::Mul(timestep(ev), advanced(ev, sys)[b].velocity[m])),
                ),
            ),
{
    lemma_pulls_leave_places_and_masses(ev, sys, INTERACTIONS as nat);
}

/// Measures every pair on the positions as they stand.
fn position_deltas<S: Copy, F: Fn(Operation<S>) -> S>(
    bodies: &[Body<S>; BODIES_COUNT],
    table: &[(usize, usize); INTERACTIONS],
    eval: &F,
) -> (deltas: [[S; 3]; INTERACTIONS])
    requires
        is_total(eval),
        forall|k: int|
            0 <= k < INTERACTIONS ==> (#[trigger] table[k]).0 == pair_first(k) && table[k].1
                == pair_second(k),
    ensures
        forall|ev: spec_fn(Operation<S>) -> S, k: int|
            #![trigger computes(eval, ev), deltas[k]]
            computes(eval, ev) && 0 <= k < INTERACTIONS ==> deltas[k]@ == delta(
                ev,
                system_of(*bodies),
                k,
            ),
{
    let nothing = eval(Operation::Literal(Decimal { digits: 0, exponent: 0 }));
    let mut deltas: [[S; 3]; INTERACTIONS] = [[nothing; 3]; INTERACTIONS];
    let mut k: usize = 0;
    while k < INTERACTIONS
        invariant
            k <= INTERACTIONS,
            is_total(eval),
            forall|t: int|
                0 <= t < INTERACTIONS ==> (#[trigger] table[t]).0 == pair_first(t) && table[t].1
                    == pair_second(t),
            forall|ev: spec_fn(Operation<S>) -> S, t: int|
                #![trigger computes(eval, ev), deltas[t]]
                computes(eval, ev) && 0 <= t < k ==> deltas[t]@ == delta(
                    ev,
                    system_of(*bodies),
                    t,
                ),
        decreases INTERACTIONS - k,
    {
        let (i, j) = table[k];
        proof {
            lemma_place_holds_pair(k as int);
        }
        deltas[k] = separation(&bodies[i].position, &bodies[j].position, eval);
        k += 1;
    }
    deltas
}

/// Turns every measured vector into the strength of its pull.
fn magnitudes<S: Copy, F: Fn(Operation<S>) -> S>(
    deltas: &[[S; 3]; INTERACTIONS],
    dt: S,
    eval: &F,
) -> (strengths: [S; INTERACTIONS])
    requires
        is_total(eval),
        forall|ev: spec_fn(Operation<S>) -> S| #[trigger] computes(eval, ev) ==> dt == timestep(ev),
    ensures
        forall|ev: spec_fn(Operation<S>) -> S, k: int|
            #![trigger computes(eval, ev), strengths[k]]
            computes(eval, ev) && 0 <= k < INTERACTIONS ==> strengths[k] == magnitude(
                ev,
                deltas[k]@,
            ),
{
    let mut strengths: [S; INTERACTIONS] = [dt; INTERACTIONS];
    let mut k: usize = 0;
    while k < INTERACTIONS
        invariant
            k <= INTERACTIONS,
            is_total(eval),
            forall|ev: spec_fn(Operation<S>) -> S| #[trigger]
                computes(eval, ev) ==> dt == timestep(ev),
            forall|ev: spec_fn(Operation<S>) -> S, t: int|
                #![trigger computes(eval, ev), strengths[t]]
                computes(eval, ev) && 0 <= t < k ==> strengths[t] == magnitude(ev, deltas[t]@),
        decreases INTERACTIONS - k,
    {
        let distance = length(&deltas[k], eval);
        let cube = eval(Operation::Powi(distance, 3));
        strengths[k] = eval(Operation::Div(dt, cube));
        k += 1;
    }
    strengths
}

/// Lets the bodies `i` and `j` pull on each other: the velocity of `i`
/// loses `delta` times the mass of `j` times `magnitude`, that of `j` gains
/// `delta` times the mass of `i` times `magnitude`.
pub fn kick<S: Copy, F: Fn(Operation<S>) -> S>(
    bodies: &mut [Body<S>; BODIES_COUNT],
    i: usize,
    j: usize,
    delta: &[S; 3],
    magnitude: S,
    eval: &F,
)
    requires
        is_total(eval),
        i < j < BODIES_COUNT,
    ensures
        forall|ev: spec_fn(Operation<S>) -> S| #[trigger]
            computes(eval, ev) ==> system_of(*final(bodies)) == kicked(
                ev,
                system_of(*old(bodies)),
                i as int,
                j as int,
                delta@,
                magnitude,
            ),
{
    let ghost before = system_of(*bodies);
    let i_mass_magnitude = eval(Operation::Mul(bodies[i].mass, magnitude));
    let j_mass_magnitude = eval(Operation::Mul(bodies[j].mass, magnitude));
    let mut m: usize = 0;
    while m < 3
        invariant
            m <= 3,
            i < j < BODIES_COUNT,
            is_total(eval),
            before == system_of(*old(bodies)),
            forall|ev: spec_fn(Operation<S>) -> S| #[trigger]
                computes(eval, ev) ==> i_mass_magnitude == ev(
                    Operation::Mul(before[i as int].mass, magnitude),
                ) && j_mass_magnitude == ev(Operation::Mul(before[j as int].mass, magnitude)),
            forall|b: int|
                0 <= b < BODIES_COUNT && b != i && b != j ==> #[trigger] bodies[b] == old(
                    bodies,
                )[b],
            bodies[i as int].position == old(bodies)[i as int].position,
            bodies[i as int].mass == old(bodies)[i as int].mass,
            bodies[j as int].position == old(bodies)[j as int].position,
            bodies[j as int].mass == old(bodies)[j as int].mass,
            forall|ev: spec_fn(Operation<S>) -> S, n: int|
                #![trigger computes(eval, ev), bodies[i as int].velocity[n]]
                computes(eval, ev) && 0 <= n < m ==> bodies[i as int].velocity[n] == kicked(
                    ev,
                    before,
                    i as int,
                    j as int,
                    delta@,
                    magnitude,
                )[i as int].velocity[n],
            forall|ev: spec_fn(Operation<S>) -> S, n: int|
                #![trigger computes(eval, ev), bodies[j as int].velocity[n]]
                computes(eval, ev) && 0 <= n < m ==> bodies[j as int].velocity[n] == kicked(
                    ev,
                    before,
                    i as int,
                    j as int,
                    delta@,
                    magnitude,
                )[j as int].velocity[n],
            forall|n: int|
                m <= n < 3 ==> #[trigger] bodies[i as int].velocity[n]
                    == before[i as int].velocity[n],
            forall|n: int|
                m <= n < 3 ==> #[trigger] bodies[j as int].velocity[n]
                    == before[j as int].velocity[n],
        decreases 3 - m,
    {
        let loss = eval(Operation::Mul(delta[m], j_mass_magnitude));
        bodies[i].velocity[m] = eval(Operation::Sub(bodies[i].velocity[m], loss));
        let gain = eval(Operation::Mul(delta[m], i_mass_magnitude));
        bodies[j].velocity[m] = eval(Operation::Add(bodies[j].velocity[m], gain));
        m += 1;
    }
    proof {
        assert forall|ev: spec_fn(Operation<S>) -> S| #[trigger]
            computes(eval, ev) implies system_of(*bodies) == kicked(
            ev,
            before,
            i as int,
            j as int,
            delta@,
            magnitude,
        ) by {
            let after = kicked(ev, before, i as int, j as int, delta@, magnitude);
            assert(bodies[i as int].velocity@ =~= after[i as int].velocity);
            assert(bodies[j as int].velocity@ =~= after[j as int].velocity);
            assert(system_of(*bodies) =~= after);
        }
    }
}

/// Moves every body for one step at its velocity.
fn drift<S: Copy, F: Fn(Operation<S>) -> S>(bodies: &mut [Body<S>; BODIES_COUNT], dt: S, eval: &F)
    requires
        is_total(eval),
        forall|ev: spec_fn(Operation<S>) -> S| #[trigger] computes(eval, ev) ==> dt == timestep(ev),
    ensures
        forall|ev: spec_fn(Operation<S>) -> S| #[trigger]
            computes(eval, ev) ==> system_of(*final(bodies)) == drifted(
                ev,
                system_of(*old(bodies)),
            ),
{
    let ghost before = system_of(*bodies);
    let mut b: usize = 0;
    while b < BODIES_COUNT
        invariant
            b <= BODIES_COUNT,
            is_total(eval),
            forall|ev: spec_fn(Operation<S>) -> S| #[trigger]
                computes(eval, ev) ==> dt == timestep(ev),
            before == system_of(*old(bodies)),
            forall|ev: spec_fn(Operation<S>) -> S, a: int|
                #![trigger computes(eval, ev), bodies[a]]
                computes(eval, ev) && 0 <= a < b ==> bodies[a]@ == drifted(ev, before)[a],
            forall|a: int| b <= a < BODIES_COUNT ==> #[trigger] bodies[a] == old(bodies)[a],
        decreases BODIES_COUNT - b,
    {
        let mut m: usize = 0;
        while m < 3
            invariant
                m <= 3,
                b < BODIES_COUNT,
                is_total(eval),
                forall|ev: spec_fn(Operation<S>) -> S| #[trigger]
                    computes(eval, ev) ==> dt == timestep(ev),
                before == system_of(*old(bodies)),
                forall|ev: spec_fn(Operation<S>) -> S, a: int|
                    #![trigger computes(eval, ev), bodies[a]]
                    computes(eval, ev) && 0 <= a < b ==> bodies[a]@ == drifted(ev, before)[a],
                forall|a: int| b < a < BODIES_COUNT ==> #[trigger] bodies[a] == old(bodies)[a],
                bodies[b as int].velocity == old(bodies)[b as int].velocity,
                bodies[b as int].mass == old(bodies)[b as int].mass,
                forall|ev: spec_fn(Operation<S>) -> S, n: int|
                    #![trigger computes(eval, ev), bodies[b as int].position[n]]
                    computes(eval, ev) && 0 <= n < m ==> bodies[b as int].position[n] == drifted(
                        ev,
                        before,
                    )[b as int].position[n],
                forall|n: int|
                    m <= n < 3 ==> #[trigger] bodies[b as int].position[n]
                        == before[b as int].position[n],
            decreases 3 - m,
        {
            let moved = eval(Operation::Mul(dt, bodies[b].velocity[m]));
            bodies[b].position[m] = eval(Operation::Add(bodies[b].position[m], moved));
            m += 1;
        }
        proof {
            assert forall|ev: spec_fn(Operation<S>) -> S| #[trigger]
                computes(eval, ev) implies bodies[b as int]@ == drifted(ev, before)[b as int] by {
                assert(bodies[b as int].position@ =~= drifted(ev, before)[b as int].position);
            }
        }
        b += 1;
    }
    proof {
        assert forall|ev: spec_fn(Operation<S>) -> S| #[trigger]
            computes(eval, ev) implies system_of(*bodies) == drifted(ev, before) by {
            assert(system_of(*bodies) =~= drifted(ev, before));
        }
    }
}

/// Advances the system by one step. First every pair is measured on the
/// positions as they stand, then every pair pulls, in canonical order, then
/// every body moves at its new velocity. Where two bodies are at one place
/// the division by the cube of their distance, zero, is the evaluator's to
/// answer.
pub fn advance<S: Copy, F: Fn(Operation<S>) -> S>(bodies: &mut [Body<S>; BODIES_COUNT], eval: &F)
    requires
        is_total(eval),
    ensures
        forall|ev: spec_fn(Operation<S>) -> S| #[trigger]
            computes(eval, ev) ==> system_of(*final(bodies)) == advanced(
                ev,
                system_of(*old(bodies)),
            ),
{
    let ghost start = system_of(*bodies);
    let table = pairs();
    let dt = eval(Operation::Literal(Decimal { digits: 1, exponent: -2 }));
    let deltas = position_deltas(bodies, &table, eval);
    let strengths = magnitudes(&deltas, dt, eval);
    let mut k: usize = 0;
    while k < INTERACTIONS
        invariant
            k <= INTERACTIONS,
            is_total(eval),
            start == system_of(*old(bodies)),
            forall|t: int|
                0 <= t < INTERACTIONS ==> (#[trigger] table[t]).0 == pair_first(t) && table[t].1
                    == pair_second(t),
            forall|ev: spec_fn(Operation<S>) -> S, t: int|
                #![trigger computes(eval, ev), deltas[t]]
                computes(eval, ev) && 0 <= t < INTERACTIONS ==> deltas[t]@ == delta(ev, start, t),
            forall|ev: spec_fn(Operation<S>) -> S, t: int|
                #![trigger computes(eval, ev), strengths[t]]
                computes(eval, ev) && 0 <= t < INTERACTIONS ==> strengths[t] == magnitude(
                    ev,
                    deltas[t]@,
                ),
            forall|ev: spec_fn(Operation<S>) -> S| #[trigger]
                computes(eval, ev) ==> system_of(*bodies) == kicks(ev, start, k as nat),
        decreases INTERACTIONS - k,
    {
        let (i, j) = table[k];
        proof {
            lemma_place_holds_pair(k as int);
        }
        kick(bodies, i, j, &deltas[k], strengths[k], eval);
        k += 1;
    }
    drift(bodies, dt, eval);
}

} // verus!
