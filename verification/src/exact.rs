//! The kernel over the real numbers: what holds of it when the evaluator
//! computes without rounding.

use crate::arith::{decimal, Decimal, Operation};
use crate::body::{is_system, System};
use crate::constants::solar_mass;
use crate::momentum::{offset, sun_velocity};
use crate::pairs::{
    is_pair, lemma_place_holds_pair, pair_first, pair_second, BODIES_COUNT, INTERACTIONS,
};
use crate::step::{
    advanced, delta, kicked, kicks, lemma_bodies_move_after_all_pulls,
    lemma_pulls_leave_places_and_masses, magnitude,
};
use vstd::prelude::*;

verus! {

/// Ten to the power `e`.
pub open spec fn power_of_ten(e: int) -> real
    decreases
            if e >= 0 {
                e
            } else {
                -e
            },
{
    if e == 0 {
        1real
    } else if e > 0 {
        power_of_ten(e - 1) * 10real
    } else {
        power_of_ten(e + 1) / 10real
    }
}

/// The real number that a decimal denotes.
pub open spec fn value_of(d: Decimal) -> real {
    d.digits as real * power_of_ten(d.exponent as int)
}

/// An evaluation is exact when literals stand for the numbers they denote
/// and the four basic operations are those of the real numbers. Of π no
/// more is asked than that it is positive.
pub open spec fn is_exact(ev: spec_fn(Operation<real>) -> real) -> bool {
    &&& ev(Operation::Pi) > 0real
    &&& forall|d: Decimal| #[trigger] ev(Operation::Literal(d)) == value_of(d)
    &&& forall|a: real, b: real| #[trigger] ev(Operation::Add(a, b)) == a + b
    &&& forall|a: real, b: real| #[trigger] ev(Operation::Sub(a, b)) == a - b
    &&& forall|a: real, b: real| #[trigger] ev(Operation::Mul(a, b)) == a * b
    &&& forall|a: real, b: real| b != 0real ==> #[trigger] ev(Operation::Div(a, b)) == a / b
}

/// Component `m` of the momentum of the first `n` bodies.
pub open spec fn momentum_of(sys: System<real>, n: nat, m: int) -> real
    decreases n,
{
    if n == 0 {
        0real
    } else {
        momentum_of(sys, (n - 1) as nat, m) + sys[n - 1].mass * sys[n - 1].velocity[m]
    }
}

/// Component `m` of the momentum of the system.
pub open spec fn total_momentum(sys: System<real>, m: int) -> real {
    momentum_of(sys, BODIES_COUNT as nat, m)
}

/// Action and reaction: when two bodies pull on each other in exact
/// arithmetic, what the one gains in momentum the other loses, in every
/// component.
pub proof fn lemma_pull_is_mutual(
    ev: spec_fn(Operation<real>) -> real,
    sys: System<real>,
    i: int,
    j: int,
    d: Seq<real>,
    mag: real,
    m: int,
)
    requires
        is_exact(ev),
        is_system(sys),
        is_pair(i, j),
        d.len() == 3,
        0 <= m < 3,
    ensures
        ({
            let next = kicked(ev, sys, i, j, d, mag);
            sys[i].mass * (next[i].velocity[m] - sys[i].velocity[m]) == -(sys[j].mass * (
            next[j].velocity[m] - sys[j].velocity[m]))
        }),
{
    let next = kicked(ev, sys, i, j, d, mag);
    let mi = sys[i].mass;
    let mj = sys[j].mass;
    let vi = sys[i].velocity[m];
    let vj = sys[j].velocity[m];
    let x = d[m];
    assert(next[i].velocity[m] == vi - x * (mj * mag));
    assert(next[j].velocity[m] == vj + x * (mi * mag));
    assert(mi * ((vi - x * (mj * mag)) - vi) == -(mj * ((vj + x * (mi * mag)) - vj)))
        by (nonlinear_arith);
}

/// One pull leaves the momentum of the system as it was.
pub proof fn lemma_pull_keeps_momentum(
    ev: spec_fn(Operation<real>) -> real,
    sys: System<real>,
    i: int,
    j: int,
    d: Seq<real>,
    mag: real,
    m: int,
)
    requires
        is_exact(ev),
        is_system(sys),
        is_pair(i, j),
        d.len() == 3,
        0 <= m < 3,
    ensures
        total_momentum(kicked(ev, sys, i, j, d, mag), m) == total_momentum(sys, m),
{
    let next = kicked(ev, sys, i, j, d, mag);
    lemma_pull_is_mutual(ev, sys, i, j, d, mag, m);
    let mi = sys[i].mass;
    let mj = sys[j].mass;
    assert(mi * next[i].velocity[m] + mj * next[j].velocity[m] == mi * sys[i].velocity[m] + mj
        * sys[j].velocity[m]) by (nonlinear_arith)
        requires
            mi * (next[i].velocity[m] - sys[i].velocity[m]) == -(mj * (next[j].velocity[m]
                - sys[j].velocity[m])),
    ;
    assert(next[i].mass == mi && next[j].mass == mj);
    assert forall|b: int| 0 <= b < BODIES_COUNT && b != i && b != j implies #[trigger] next[b]
        == sys[b] by {}
    reveal_with_fuel(momentum_of, 6);
}

/// The pulls of a step leave the momentum of the system as it was.
pub proof fn lemma_pulls_keep_momentum(
    ev: spec_fn(Operation<real>) -> real,
    start: System<real>,
    n: nat,
    m: int,
)
    requires
        is_exact(ev),
        is_system(start),
        n <= INTERACTIONS,
        0 <= m < 3,
    ensures
        total_momentum(kicks(ev, start, n), m) == total_momentum(start, m),
    decreases n,
{
    if n > 0 {
        let k = n - 1;
        lemma_pulls_keep_momentum(ev, start, k as nat, m);
        lemma_pulls_leave_places_and_masses(ev, start, k as nat);
        lemma_place_holds_pair(k);
        lemma_pull_keeps_momentum(
            ev,
            kicks(ev, start, k as nat),
            pair_first(k),
            pair_second(k),
            delta(ev, start, k),
            magnitude(ev, delta(ev, start, k)),
            m,
        );
    }
}

/// Conservation of momentum: a step leaves the momentum of the system as it
/// was.
pub proof fn lemma_step_keeps_momentum(
    ev: spec_fn(Operation<real>) -> real,
    sys: System<real>,
    m: int,
)
    requires
        is_exact(ev),
        is_system(sys),
        0 <= m < 3,
    ensures
        is_system(advanced(ev, sys)),
        total_momentum(advanced(ev, sys), m) == total_momentum(sys, m),
{
    lemma_pulls_keep_momentum(ev, sys, INTERACTIONS as nat, m);
    lemma_pulls_leave_places_and_masses(ev, sys, INTERACTIONS as nat);
    lemma_bodies_move_after_all_pulls(ev, sys);
    reveal_with_fuel(momentum_of, 6);
}

/// What the offset does: it takes the momentum of the planets out of the
/// Sun's velocity, so that the system is left with the momentum that the Sun
/// had, provided that the Sun has one solar mass.
pub proof fn lemma_offset_cancels_planets(
    ev: spec_fn(Operation<real>) -> real,
    sys: System<real>,
    m: int,
)
    requires
        is_exact(ev),
        is_system(sys),
        sys[0].mass == solar_mass(ev),
        0 <= m < 3,
    ensures
        total_momentum(offset(ev, sys), m) == sys[0].mass * sys[0].velocity[m],
{
    let after = offset(ev, sys);
    let pi = ev(Operation::Pi);
    let four = ev(Operation::Literal(decimal(4, 0)));
    assert(four == 4real) by {
        assert(power_of_ten(0) == 1real);
    }
    let sm = solar_mass(ev);
    assert(sm == (four * pi) * pi);
    assert(sm > 0real) by (nonlinear_arith)
        requires
            sm == (four * pi) * pi,
            four == 4real,
            pi > 0real,
    ;
    let v0 = sys[0].velocity[m];
    let carried_1 = sys[1].velocity[m] * sys[1].mass;
    let carried_2 = sys[2].velocity[m] * sys[2].mass;
    let carried_3 = sys[3].velocity[m] * sys[3].mass;
    let carried_4 = sys[4].velocity[m] * sys[4].mass;
    let share_1 = carried_1 / sm;
    let share_2 = carried_2 / sm;
    let share_3 = carried_3 / sm;
    let share_4 = carried_4 / sm;
    assert(after[0].velocity[m] == v0 - share_1 - share_2 - share_3 - share_4) by {
        reveal_with_fuel(sun_velocity, 5);
    }
    assert(sm * share_1 == carried_1) by (nonlinear_arith)
        requires
            sm > 0real,
            share_1 == carried_1 / sm,
    ;
    assert(sm * share_2 == carried_2) by (nonlinear_arith)
        requires
            sm > 0real,
            share_2 == carried_2 / sm,
    ;
    assert(sm * share_3 == carried_3) by (nonlinear_arith)
        requires
            sm > 0real,
            share_3 == carried_3 / sm,
    ;
    assert(sm * share_4 == carried_4) by (nonlinear_arith)
        requires
            sm > 0real,
            share_4 == carried_4 / sm,
    ;
    let shares = share_1 + share_2 + share_3 + share_4;
    assert(sm * (v0 - shares) == sm * v0 - sm * shares) by (nonlinear_arith);
    assert(sm * shares == sm * share_1 + sm * share_2 + sm * share_3 + sm * share_4)
        by (nonlinear_arith)
        requires
            shares == share_1 + share_2 + share_3 + share_4,
    ;
    assert forall|b: int| 1 <= b < BODIES_COUNT implies (#[trigger] sys[b]).mass
        * sys[b].velocity[m] == sys[b].velocity[m] * sys[b].mass by {
        let a = sys[b].mass;
        let v = sys[b].velocity[m];
        assert(a * v == v * a) by (nonlinear_arith);
    }
    assert forall|b: int| 1 <= b < BODIES_COUNT implies #[trigger] after[b] == sys[b] by {}
    reveal_with_fuel(momentum_of, 6);
}

} // verus!
