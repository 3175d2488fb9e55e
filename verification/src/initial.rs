//! The state that every run starts from: the Sun at rest at the origin and
//! four planets, from astronomical data.

use crate::arith::{computes, decimal, is_total, Decimal, Operation};
use crate::body::{is_system, system_of, Body, BodyModel, System};
use crate::constants::{compute_solar_mass, days_per_year, solar_mass, zero};
use crate::pairs::BODIES_COUNT;
use vstd::prelude::*;

verus! {

/// What is recorded of a planet: its position, its velocity per year and its
/// mass in solar masses.
pub struct Ephemeris {
    pub position: Seq<Decimal>,
    pub velocity: Seq<Decimal>,
    pub mass: Decimal,
}

/// The records of the planets, by the index of the body.
pub open spec fn ephemeris(b: int) -> Ephemeris {
    if b == 1 {
        Ephemeris {
            position: seq![
                decimal(484143144246472090, -17),
                decimal(-116032004402742839, -17),
                decimal(-103622044471123109, -18),
            ],
            velocity: seq![
                decimal(166007664274403694, -20),
                decimal(769901118419740425, -20),
                decimal(-690460016972063023, -22),
            ],
            mass: decimal(954791938424326609, -21),
        }
    } else if b == 2 {
        Ephemeris {
            position: seq![
                decimal(834336671824457987, -17),
                decimal(412479856412430479, -17),
                decimal(-403523417114321381, -18),
            ],
            velocity: seq![
                decimal(-276742510726862411, -20),
                decimal(499852801234917238, -20),
                decimal(230417297573763929, -22),
            ],
            mass: decimal(285885980666130812, -21),
        }
    } else if b == 3 {
        Ephemeris {
            position: seq![
                decimal(128943695621391310, -16),
                decimal(-151111514016986312, -16),
                decimal(-223307578892655734, -18),
            ],
            velocity: seq![
                decimal(296460137564761618, -20),
                decimal(237847173959480950, -20),
                decimal(-296589568540237556, -22),
            ],
            mass: decimal(436624404335156298, -22),
        }
    } else {
        Ephemeris {
            position: seq![
                decimal(153796971148509165, -16),
                decimal(-259193146099879641, -16),
                decimal(179258772950371181, -18),
            ],
            velocity: seq![
                decimal(268067772490389322, -20),
                decimal(162824170038242295, -20),
                decimal(-951592254519715870, -22),
            ],
            mass: decimal(515138902046611451, -22),
        }
    }
}

/// The Sun: at rest at the origin, one solar mass.
pub open spec fn sun<S>(ev: spec_fn(Operation<S>) -> S) -> BodyModel<S> {
    BodyModel {
        position: Seq::new(3, |m: int| zero(ev)),
        velocity: Seq::new(3, |m: int| zero(ev)),
        mass: solar_mass(ev),
    }
}

/// A planet as the simulation holds it: the recorded position, the recorded
/// velocity times the days of a year, the recorded mass times the solar
/// mass.
pub open spec fn planet<S>(ev: spec_fn(Operation<S>) -> S, record: Ephemeris) -> BodyModel<S> {
    BodyModel {
        position: Seq::new(3, |m: int| ev(Operation::Literal(record.position[m]))),
        velocity: Seq::new(
            3,
            |m: int|
                ev(Operation::Mul(ev(Operation::Literal(record.velocity[m])), days_per_year(ev))),
        ),
        mass: ev(Operation::Mul(ev(Operation::Literal(record.mass)), solar_mass(ev))),
    }
}

/// The system at the start: the Sun, then the planets in the order of their
/// records.
pub open spec fn initial_system<S>(ev: spec_fn(Operation<S>) -> S) -> System<S> {
    Seq::new(
        BODIES_COUNT as nat,
        |b: int|
            if b == 0 {
                sun(ev)
            } else {
                planet(ev, ephemeris(b))
            },
    )
}

/// The initial system is a system, and its first body is the Sun.
pub proof fn lemma_initial_system_shape<S>(ev: spec_fn(Operation<S>) -> S)
    ensures
        is_system(initial_system(ev)),
        initial_system(ev)[0] == sun(ev),
{
}

/// Reads the record of planet `b`.
fn record(b: usize) -> (data: ([Decimal; 3], [Decimal; 3], Decimal))
    requires
        1 <= b < BODIES_COUNT,
    ensures
        data.0@ == ephemeris(b as int).position,
        data.1@ == ephemeris(b as int).velocity,
        data.2 == ephemeris(b as int).mass,
{
    if b == 1 {
        let position = [
            Decimal { digits: 484143144246472090, exponent: -17 },
            Decimal { digits: -116032004402742839, exponent: -17 },
            Decimal { digits: -103622044471123109, exponent: -18 },
        ];
        let velocity = [
            Decimal { digits: 166007664274403694, exponent: -20 },
            Decimal { digits: 769901118419740425, exponent: -20 },
            Decimal { digits: -690460016972063023, exponent: -22 },
        ];
        proof {
            assert(position@ =~= ephemeris(b as int).position);
            assert(velocity@ =~= ephemeris(b as int).velocity);
        }
        (position, velocity, Decimal { digits: 954791938424326609, exponent: -21 })
    } else if b == 2 {
        let position = [
            Decimal { digits: 834336671824457987, exponent: -17 },
            Decimal { digits: 412479856412430479, exponent: -17 },
            Decimal { digits: -403523417114321381, exponent: -18 },
        ];
        let velocity = [
            Decimal { digits: -276742510726862411, exponent: -20 },
            Decimal { digits: 499852801234917238, exponent: -20 },
            Decimal { digits: 230417297573763929, exponent: -22 },
        ];
        proof {
            assert(position@ =~= ephemeris(b as int).position);
            assert(velocity@ =~= ephemeris(b as int).velocity);
        }
        (position, velocity, Decimal { digits: 285885980666130812, exponent: -21 })
    } else if b == 3 {
        let position = [
            Decimal { digits: 128943695621391310, exponent: -16 },
            Decimal { digits: -151111514016986312, exponent: -16 },
            Decimal { digits: -223307578892655734, exponent: -18 },
        ];
        let velocity = [
            Decimal { digits: 296460137564761618, exponent: -20 },
            Decimal { digits: 237847173959480950, exponent: -20 },
            Decimal { digits: -296589568540237556, exponent: -22 },
        ];
        proof {
            assert(position@ =~= ephemeris(b as int).position);
            assert(velocity@ =~= ephemeris(b as int).velocity);
        }
        (position, velocity, Decimal { digits: 436624404335156298, exponent: -22 })
    } else {
        let position = [
            Decimal { digits: 153796971148509165, exponent: -16 },
            Decimal { digits: -259193146099879641, exponent: -16 },
            Decimal { digits: 179258772950371181, exponent: -18 },
        ];
        let velocity = [
            Decimal { digits: 268067772490389322, exponent: -20 },
            Decimal { digits: 162824170038242295, exponent: -20 },
            Decimal { digits: -951592254519715870, exponent: -22 },
        ];
        proof {
            assert(position@ =~= ephemeris(b as int).position);
            assert(velocity@ =~= ephemeris(b as int).velocity);
        }
        (position, velocity, Decimal { digits: 515138902046611451, exponent: -22 })
    }
}

/// Renders the record of planet `b` in the caller's scalars.
fn make_planet<S: Copy, F: Fn(Operation<S>) -> S>(
    b: usize,
    days: S,
    sun_mass: S,
    eval: &F,
) -> (body: Body<S>)
    requires
        is_total(eval),
        1 <= b < BODIES_COUNT,
        forall|ev: spec_fn(Operation<S>) -> S| #[trigger]
            computes(eval, ev) ==> days == days_per_year(ev) && sun_mass == solar_mass(ev),
    ensures
        forall|ev: spec_fn(Operation<S>) -> S| #[trigger]
            computes(eval, ev) ==> body@ == planet(ev, ephemeris(b as int)),
{
    let (position, velocity, mass) = record(b);
    let x = eval(Operation::Literal(position[0]));
    let y = eval(Operation::Literal(position[1]));
    let z = eval(Operation::Literal(position[2]));
    let vx = eval(Operation::Literal(velocity[0]));
    let vy = eval(Operation::Literal(velocity[1]));
    let vz = eval(Operation::Literal(velocity[2]));
    let relative = eval(Operation::Literal(mass));
    let body = Body {
        position: [x, y, z],
        velocity: [
            eval(Operation::Mul(vx, days)),
            eval(Operation::Mul(vy, days)),
            eval(Operation::Mul(vz, days)),
        ],
        mass: eval(Operation::Mul(relative, sun_mass)),
    };
    proof {
        assert forall|ev: spec_fn(Operation<S>) -> S| #[trigger] computes(eval, ev) implies body@
            == planet(ev, ephemeris(b as int)) by {
            let model = planet(ev, ephemeris(b as int));
            assert(body@.position =~= model.position);
            assert(body@.velocity =~= model.velocity);
        }
    }
    body
}

/// Builds the system that every run starts from.
pub fn initial_state<S: Copy, F: Fn(Operation<S>) -> S>(eval: &F) -> (bodies: [Body<
    S,
>; BODIES_COUNT])
    requires
        is_total(eval),
    ensures
        forall|ev: spec_fn(Operation<S>) -> S| #[trigger]
            computes(eval, ev) ==> system_of(bodies) == initial_system(ev),
{
    let nothing = eval(Operation::Literal(Decimal { digits: 0, exponent: 0 }));
    let days = eval(Operation::Literal(Decimal { digits: 36524, exponent: -2 }));
    let sun_mass = compute_solar_mass(eval);
    let sun = Body { position: [nothing; 3], velocity: [nothing; 3], mass: sun_mass };
    let mut bodies: [Body<S>; BODIES_COUNT] = [sun; BODIES_COUNT];
    let mut b: usize = 1;
    while b < BODIES_COUNT
        invariant
            1 <= b <= BODIES_COUNT,
            is_total(eval),
            forall|ev: spec_fn(Operation<S>) -> S| #[trigger]
                computes(eval, ev) ==> days == days_per_year(ev) && sun_mass == solar_mass(ev),
            bodies[0] == sun,
            forall|ev: spec_fn(Operation<S>) -> S, a: int|
                #![trigger computes(eval, ev), bodies[a]]
                computes(eval, ev) && 1 <= a < b ==> bodies[a]@ == planet(ev, ephemeris(a)),
        decreases BODIES_COUNT - b,
    {
        bodies[b] = make_planet(b, days, sun_mass, eval);
        b += 1;
    }
    proof {
        assert forall|ev: spec_fn(Operation<S>) -> S| #[trigger]
            computes(eval, ev) implies system_of(bodies) == initial_system(ev) by {
            let model = initial_system(ev);
            assert(bodies[0]@.position =~= model[0].position);
            assert(bodies[0]@.velocity =~= model[0].velocity);
            assert(system_of(bodies) =~= model);
        }
    }
    bodies
}

} // verus!
