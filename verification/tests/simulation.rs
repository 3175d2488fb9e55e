use nbody::arith::Operation;
use nbody::body::Body;
use nbody::energy::energy;
use nbody::initial::initial_state;
use nbody::momentum::offset_momentum;
use nbody::pairs::BODIES_COUNT;
use nbody::run::run;
use nbody::step::advance;

fn float(op: Operation<f64>) -> f64 {
    match op {
        Operation::Pi => std::f64::consts::PI,
        Operation::Literal(d) => format!("{}e{}", d.digits, d.exponent).parse().unwrap(),
        Operation::Add(a, b) => a + b,
        Operation::Sub(a, b) => a - b,
        Operation::Mul(a, b) => a * b,
        Operation::Div(a, b) => a / b,
        Operation::Sqrt(x) => x.sqrt(),
        Operation::Powi(x, n) => x.powi(n),
    }
}

fn prepared() -> [Body<f64>; BODIES_COUNT] {
    let mut bodies = initial_state(&float);
    offset_momentum(&mut bodies, &float);
    bodies
}

#[test]
fn energy_before_any_step() {
    let report = run(0, &float);
    assert_eq!(format!("{:.9}", report.before), "-0.169075164");
}

#[test]
fn energy_after_a_thousand_steps() {
    let report = run(1000, &float);
    assert_eq!(format!("{:.9}", report.before), "-0.169075164");
    assert_eq!(format!("{:.9}", report.after), "-0.169087605");
}

#[test]
fn energy_after_fifty_thousand_steps() {
    let report = run(50000, &float);
    assert_eq!(format!("{:.9}", report.before), "-0.169075164");
    assert_eq!(format!("{:.9}", report.after), "-0.169078071");
    assert!((report.after - report.before).abs() < 1e-5);
}

#[test]
fn energy_drift_stays_small() {
    let report = run(1000, &float);
    assert!((report.after - report.before).abs() < 1e-4);
    assert!(report.after != report.before);
}

#[test]
fn no_steps_report_the_same_energy_twice() {
    let report = run(0, &float);
    assert_eq!(report.before.to_bits(), report.after.to_bits());
}

#[test]
fn a_negative_count_takes_no_step() {
    let report = run(-7, &float);
    assert_eq!(report.before.to_bits(), report.after.to_bits());
    assert_eq!(format!("{:.9}", report.after), "-0.169075164");
}

#[test]
fn run_is_the_sequence_of_its_parts() {
    let mut bodies = prepared();
    let before = energy(&bodies, &float);
    for _ in 0..25 {
        advance(&mut bodies, &float);
    }
    let after = energy(&bodies, &float);
    let report = run(25, &float);
    assert_eq!(report.before.to_bits(), before.to_bits());
    assert_eq!(report.after.to_bits(), after.to_bits());
}

#[test]
fn two_runs_agree_bit_for_bit() {
    let first = run(300, &float);
    let second = run(300, &float);
    assert_eq!(first.before.to_bits(), second.before.to_bits());
    assert_eq!(first.after.to_bits(), second.after.to_bits());
}

#[test]
fn momentum_is_zero_after_offset() {
    let bodies = prepared();
    for m in 0..3 {
        let mut total = 0.0;
        for body in bodies.iter() {
            total += body.mass * body.velocity[m];
        }
        assert!(total.abs() < 1e-9, "component {} of the momentum is {}", m, total);
    }
}

#[test]
fn offset_touches_only_the_velocity_of_the_sun() {
    let start = initial_state(&float);
    let bodies = prepared();
    assert_eq!(bodies[0].position, start[0].position);
    assert_eq!(bodies[0].mass.to_bits(), start[0].mass.to_bits());
    assert_ne!(bodies[0].velocity, start[0].velocity);
    for b in 1..BODIES_COUNT {
        assert_eq!(bodies[b].position, start[b].position);
        assert_eq!(bodies[b].velocity, start[b].velocity);
        assert_eq!(bodies[b].mass.to_bits(), start[b].mass.to_bits());
    }
}

#[test]
fn offset_subtracts_each_planet_in_turn() {
    let start = initial_state(&float);
    let bodies = prepared();
    let solar_mass = 4.0 * std::f64::consts::PI * std::f64::consts::PI;
    for m in 0..3 {
        let mut expected: f64 = 0.0;
        for b in 1..BODIES_COUNT {
            expected -= start[b].velocity[m] * start[b].mass / solar_mass;
        }
        assert_eq!(bodies[0].velocity[m].to_bits(), expected.to_bits());
    }
}

#[test]
fn initial_state_holds_the_recorded_values() {
    let solar_mass = 4.0 * std::f64::consts::PI * std::f64::consts::PI;
    let days_per_year = 365.24;
    let expected: [Body<f64>; BODIES_COUNT] = [
        Body { position: [0.0; 3], velocity: [0.0; 3], mass: solar_mass },
        Body {
            position: [
                4.84143144246472090e+00,
                -1.16032004402742839e+00,
                -1.03622044471123109e-01,
            ],
            velocity: [
                1.66007664274403694e-03 * days_per_year,
                7.69901118419740425e-03 * days_per_year,
                -6.90460016972063023e-05 * days_per_year,
            ],
            mass: 9.54791938424326609e-04 * solar_mass,
        },
        Body {
            position: [
                8.34336671824457987e+00,
                4.12479856412430479e+00,
                -4.03523417114321381e-01,
            ],
            velocity: [
                -2.76742510726862411e-03 * days_per_year,
                4.99852801234917238e-03 * days_per_year,
                2.30417297573763929e-05 * days_per_year,
            ],
            mass: 2.85885980666130812e-04 * solar_mass,
        },
        Body {
            position: [
                1.28943695621391310e+01,
                -1.51111514016986312e+01,
                -2.23307578892655734e-01,
            ],
            velocity: [
                2.96460137564761618e-03 * days_per_year,
                2.37847173959480950e-03 * days_per_year,
                -2.96589568540237556e-05 * days_per_year,
            ],
            mass: 4.36624404335156298e-05 * solar_mass,
        },
        Body {
            position: [
                1.53796971148509165e+01,
                -2.59193146099879641e+01,
                1.79258772950371181e-01,
            ],
            velocity: [
                2.68067772490389322e-03 * days_per_year,
                1.62824170038242295e-03 * days_per_year,
                -9.51592254519715870e-05 * days_per_year,
            ],
            mass: 5.15138902046611451e-05 * solar_mass,
        },
    ];
    let bodies = initial_state(&float);
    for b in 0..BODIES_COUNT {
        for m in 0..3 {
            assert_eq!(bodies[b].position[m].to_bits(), expected[b].position[m].to_bits());
            assert_eq!(bodies[b].velocity[m].to_bits(), expected[b].velocity[m].to_bits());
        }
        assert_eq!(bodies[b].mass.to_bits(), expected[b].mass.to_bits());
    }
}

fn advance_moving_too_early(bodies: &mut [Body<f64>; BODIES_COUNT]) {
    for i in 0..BODIES_COUNT - 1 {
        for j in i + 1..BODIES_COUNT {
            let mut delta = [0.0; 3];
            for m in 0..3 {
                delta[m] = bodies[i].position[m] - bodies[j].position[m];
            }
            let distance = (delta[0].powi(2) + delta[1].powi(2) + delta[2].powi(2)).sqrt();
            let magnitude = 0.01 / distance.powi(3);
            let i_mass_magnitude = bodies[i].mass * magnitude;
            let j_mass_magnitude = bodies[j].mass * magnitude;
            for m in 0..3 {
                bodies[i].velocity[m] -= delta[m] * j_mass_magnitude;
                bodies[j].velocity[m] += delta[m] * i_mass_magnitude;
            }
            for m in 0..3 {
                bodies[j].position[m] += 0.01 * bodies[j].velocity[m] / (j as f64);
            }
        }
    }
    for m in 0..3 {
        bodies[0].position[m] += 0.01 * bodies[0].velocity[m];
    }
}

#[test]
fn moving_a_body_before_all_pairs_have_pulled_goes_astray() {
    let mut reference = prepared();
    let mut reordered = prepared();
    for _ in 0..10 {
        advance(&mut reference, &float);
        advance_moving_too_early(&mut reordered);
    }
    let mut differs = false;
    for b in 0..BODIES_COUNT {
        for m in 0..3 {
            if reference[b].position[m].to_bits() != reordered[b].position[m].to_bits() {
                differs = true;
            }
        }
    }
    assert!(differs);
    assert_ne!(
        energy(&reference, &float).to_bits(),
        energy(&reordered, &float).to_bits()
    );
}

fn advance_by_hand(bodies: &mut [Body<f64>; BODIES_COUNT]) {
    let mut deltas = [[0.0; 3]; 10];
    let mut k = 0;
    for i in 0..BODIES_COUNT - 1 {
        for j in i + 1..BODIES_COUNT {
            for m in 0..3 {
                deltas[k][m] = bodies[i].position[m] - bodies[j].position[m];
            }
            k += 1;
        }
    }
    let mut magnitudes = [0.0; 10];
    for k in 0..10 {
        let distance =
            (deltas[k][0].powi(2) + deltas[k][1].powi(2) + deltas[k][2].powi(2)).sqrt();
        magnitudes[k] = 0.01 / distance.powi(3);
    }
    let mut k = 0;
    for i in 0..BODIES_COUNT - 1 {
        for j in i + 1..BODIES_COUNT {
            let i_mass_magnitude = bodies[i].mass * magnitudes[k];
            let j_mass_magnitude = bodies[j].mass * magnitudes[k];
            for m in 0..3 {
                bodies[i].velocity[m] -= deltas[k][m] * j_mass_magnitude;
                bodies[j].velocity[m] += deltas[k][m] * i_mass_magnitude;
            }
            k += 1;
        }
    }
    for body in bodies.iter_mut() {
        for m in 0..3 {
            body.position[m] += 0.01 * body.velocity[m];
        }
    }
}

#[test]
fn advance_pulls_on_old_positions_then_moves() {
    let mut stepped = prepared();
    let mut by_hand = prepared();
    for _ in 0..10 {
        advance(&mut stepped, &float);
        advance_by_hand(&mut by_hand);
    }
    for b in 0..BODIES_COUNT {
        for m in 0..3 {
            assert_eq!(stepped[b].position[m].to_bits(), by_hand[b].position[m].to_bits());
            assert_eq!(stepped[b].velocity[m].to_bits(), by_hand[b].velocity[m].to_bits());
        }
        assert_eq!(stepped[b].mass.to_bits(), by_hand[b].mass.to_bits());
    }
}

#[test]
fn bodies_at_one_place_are_left_to_the_arithmetic() {
    let mut bodies = prepared();
    bodies[1].position = bodies[0].position;
    assert!(energy(&bodies, &float).is_infinite());
    advance(&mut bodies, &float);
    for m in 0..3 {
        assert!(bodies[0].velocity[m].is_nan());
        assert!(bodies[1].velocity[m].is_nan());
    }
    for b in 2..BODIES_COUNT {
        for m in 0..3 {
            assert!(bodies[b].velocity[m].is_finite());
            assert!(bodies[b].position[m].is_finite());
        }
    }
}
