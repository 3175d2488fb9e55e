use nbody::arith::Operation;
use nbody::body::Body;
use nbody::constants::compute_solar_mass;
use nbody::energy::energy;
use nbody::initial::initial_state;
use nbody::momentum::offset_momentum;
use nbody::pairs::BODIES_COUNT;
use nbody::run::run;
use nbody::step::{advance, kick};
use nbody::vector::{length, separation, squared_length};

/// A fraction in lowest terms with a positive denominator.
#[derive(Clone, Copy, Debug, PartialEq)]
struct Ratio {
    num: i128,
    den: i128,
}

fn gcd(a: i128, b: i128) -> i128 {
    if b == 0 {
        a.abs()
    } else {
        gcd(b, a % b)
    }
}

fn ratio(num: i128, den: i128) -> Ratio {
    assert!(den != 0);
    let g = gcd(num, den);
    let sign = if den < 0 { -1 } else { 1 };
    Ratio { num: sign * num / g, den: sign * den / g }
}

fn whole(n: i128) -> Ratio {
    ratio(n, 1)
}

fn root(n: i128) -> i128 {
    let mut r: i128 = 0;
    while r * r < n {
        r += 1;
    }
    assert_eq!(r * r, n);
    r
}

/// Arithmetic without rounding; π is taken to be 3.
fn exact(op: Operation<Ratio>) -> Ratio {
    match op {
        Operation::Pi => whole(3),
        Operation::Literal(d) => {
            let mut value = whole(d.digits as i128);
            for _ in 0..d.exponent.abs() {
                value = if d.exponent > 0 {
                    ratio(value.num * 10, value.den)
                } else {
                    ratio(value.num, value.den * 10)
                };
            }
            value
        }
        Operation::Add(a, b) => ratio(a.num * b.den + b.num * a.den, a.den * b.den),
        Operation::Sub(a, b) => ratio(a.num * b.den - b.num * a.den, a.den * b.den),
        Operation::Mul(a, b) => ratio(a.num * b.num, a.den * b.den),
        Operation::Div(a, b) => ratio(a.num * b.den, a.den * b.num),
        Operation::Sqrt(x) => ratio(root(x.num), root(x.den)),
        Operation::Powi(x, n) => {
            let mut value = whole(1);
            for _ in 0..n {
                value = ratio(value.num * x.num, value.den * x.den);
            }
            value
        }
    }
}

fn body(position: [i128; 3], velocity: [i128; 3], mass: i128) -> Body<Ratio> {
    Body {
        position: [whole(position[0]), whole(position[1]), whole(position[2])],
        velocity: [whole(velocity[0]), whole(velocity[1]), whole(velocity[2])],
        mass: whole(mass),
    }
}

fn on_a_line() -> [Body<Ratio>; BODIES_COUNT] {
    [
        body([0, 0, 0], [0, 1, 0], 100),
        body([1, 0, 0], [1, 0, 0], 200),
        body([3, 0, 0], [0, 0, 2], 300),
        body([6, 0, 0], [-1, 0, 0], 400),
        body([10, 0, 0], [0, 0, 0], 500),
    ]
}

#[test]
fn solar_mass_is_four_pi_squared() {
    assert_eq!(compute_solar_mass(&exact), whole(36));
}

#[test]
fn separation_subtracts_component_by_component() {
    let a = [whole(5), whole(7), whole(-1)];
    let b = [whole(2), whole(9), whole(4)];
    assert_eq!(separation(&a, &b, &exact), [whole(3), whole(-2), whole(-5)]);
}

#[test]
fn length_is_the_root_of_the_squares() {
    let v = [whole(2), whole(-3), whole(6)];
    assert_eq!(squared_length(&v, &exact), whole(49));
    assert_eq!(length(&v, &exact), whole(7));
}

#[test]
fn kick_moves_momentum_from_one_body_to_the_other() {
    let mut bodies = [
        body([0, 0, 0], [10, 20, 30], 3),
        body([0, 0, 0], [1, 1, 1], 5),
        body([0, 0, 0], [4, 4, 4], 7),
        body([0, 0, 0], [5, 5, 5], 11),
        body([0, 0, 0], [6, 6, 6], 13),
    ];
    let before = bodies;
    let delta = [whole(1), whole(2), whole(3)];
    kick(&mut bodies, 0, 1, &delta, whole(2), &exact);
    assert_eq!(bodies[0].velocity, [whole(0), whole(0), whole(0)]);
    assert_eq!(bodies[1].velocity, [whole(7), whole(13), whole(19)]);
    for m in 0..3 {
        let lost = exact(Operation::Mul(
            before[0].mass,
            exact(Operation::Sub(bodies[0].velocity[m], before[0].velocity[m])),
        ));
        let gained = exact(Operation::Mul(
            before[1].mass,
            exact(Operation::Sub(bodies[1].velocity[m], before[1].velocity[m])),
        ));
        assert_eq!(lost, exact(Operation::Sub(whole(0), gained)));
    }
    for b in 0..BODIES_COUNT {
        assert_eq!(bodies[b].position, before[b].position);
        assert_eq!(bodies[b].mass, before[b].mass);
    }
    for b in 2..BODIES_COUNT {
        assert_eq!(bodies[b].velocity, before[b].velocity);
    }
}

#[test]
fn energy_is_kinetic_less_bound() {
    let bodies = [
        body([0, 0, 0], [0, 0, 0], 1),
        body([1, 0, 0], [1, 0, 0], 2),
        body([3, 0, 0], [2, 0, 0], 3),
        body([6, 0, 0], [3, 0, 0], 4),
        body([10, 0, 0], [4, 0, 0], 5),
    ];
    assert_eq!(energy(&bodies, &exact), ratio(27707, 630));
}

#[test]
fn offset_cancels_the_momentum_of_the_planets() {
    let mut bodies = [
        body([0, 0, 0], [1, 2, 3], 36),
        body([1, 0, 0], [36, 72, -36], 1),
        body([2, 0, 0], [18, 0, 9], 2),
        body([3, 0, 0], [-12, 24, 6], 3),
        body([4, 0, 0], [9, -9, 18], 4),
    ];
    let before = bodies;
    offset_momentum(&mut bodies, &exact);
    assert_eq!(bodies[0].velocity, [whole(-1), whole(-1), whole(1)]);
    assert_eq!(bodies[0].position, before[0].position);
    assert_eq!(bodies[0].mass, before[0].mass);
    for b in 1..BODIES_COUNT {
        assert_eq!(bodies[b], before[b]);
    }
}

#[test]
fn offset_leaves_the_momentum_of_the_sun() {
    let mut bodies = [
        body([0, 0, 0], [1, 2, 3], 36),
        body([1, 0, 0], [36, 72, -36], 1),
        body([2, 0, 0], [18, 0, 9], 2),
        body([3, 0, 0], [-12, 24, 6], 3),
        body([4, 0, 0], [9, -9, 18], 4),
    ];
    let before = bodies;
    offset_momentum(&mut bodies, &exact);
    for m in 0..3 {
        let mut total = whole(0);
        for b in 0..BODIES_COUNT {
            total = exact(Operation::Add(
                total,
                exact(Operation::Mul(bodies[b].mass, bodies[b].velocity[m])),
            ));
        }
        assert_eq!(total, exact(Operation::Mul(before[0].mass, before[0].velocity[m])));
    }
}

#[test]
fn advance_takes_one_step() {
    let mut bodies = on_a_line();
    advance(&mut bodies, &exact);
    assert_eq!(bodies[0].velocity, [ratio(449, 180), whole(1), whole(0)]);
    assert_eq!(bodies[1].velocity, [ratio(7871, 8100), whole(0), whole(0)]);
    assert_eq!(bodies[2].velocity, [ratio(-19, 294), whole(0), whole(2)]);
    assert_eq!(bodies[3].velocity, [ratio(-4063, 3600), whole(0), whole(0)]);
    assert_eq!(bodies[4].velocity, [ratio(-68647, 198450), whole(0), whole(0)]);
    assert_eq!(bodies[0].position, [ratio(449, 18000), ratio(1, 100), whole(0)]);
    assert_eq!(bodies[1].position, [ratio(817871, 810000), whole(0), whole(0)]);
    assert_eq!(bodies[2].position, [ratio(88181, 29400), whole(0), ratio(1, 50)]);
    assert_eq!(bodies[3].position, [ratio(2155937, 360000), whole(0), whole(0)]);
    assert_eq!(bodies[4].position, [ratio(198381353, 19845000), whole(0), whole(0)]);
    let start = on_a_line();
    for b in 0..BODIES_COUNT {
        assert_eq!(bodies[b].mass, start[b].mass);
    }
}

#[test]
fn advance_keeps_the_momentum_of_the_system() {
    let start = on_a_line();
    let mut bodies = on_a_line();
    advance(&mut bodies, &exact);
    for m in 0..3 {
        let mut before = whole(0);
        let mut after = whole(0);
        for b in 0..BODIES_COUNT {
            before = exact(Operation::Add(
                before,
                exact(Operation::Mul(start[b].mass, start[b].velocity[m])),
            ));
            after = exact(Operation::Add(
                after,
                exact(Operation::Mul(bodies[b].mass, bodies[b].velocity[m])),
            ));
        }
        assert_eq!(before, after);
    }
}

#[test]
fn initial_state_in_exact_arithmetic() {
    let bodies = initial_state(&exact);
    let zero = whole(0);
    assert_eq!(bodies[0].position, [zero, zero, zero]);
    assert_eq!(bodies[0].velocity, [zero, zero, zero]);
    assert_eq!(bodies[0].mass, whole(36));
    assert_eq!(bodies[1].position[0], ratio(484143144246472090, 100000000000000000));
    assert_eq!(bodies[2].position[1], ratio(412479856412430479, 100000000000000000));
    assert_eq!(bodies[3].position[2], ratio(-223307578892655734, 1000000000000000000));
    assert_eq!(bodies[4].position[0], ratio(153796971148509165, 10000000000000000));
    assert_eq!(
        bodies[1].velocity[2],
        ratio(-690460016972063023 * 36524, 10000000000000000000000 * 100)
    );
    assert_eq!(
        bodies[4].velocity[0],
        ratio(268067772490389322 * 36524, 100000000000000000000 * 100)
    );
    assert_eq!(bodies[2].mass, ratio(285885980666130812 * 36, 1000000000000000000000));
    assert_eq!(bodies[3].mass, ratio(436624404335156298 * 36, 10000000000000000000000));
}

fn rough(op: Operation<i64>) -> i64 {
    match op {
        Operation::Pi => 3,
        Operation::Literal(d) => d.digits / 1_000_000_000_000,
        Operation::Add(a, b) => a.wrapping_add(b),
        Operation::Sub(a, b) => a.wrapping_sub(b),
        Operation::Mul(a, b) => a.wrapping_mul(b),
        Operation::Div(a, b) => {
            if b == 0 {
                0
            } else {
                a.wrapping_div(b)
            }
        }
        Operation::Sqrt(x) => (x.unsigned_abs() as f64).sqrt() as i64,
        Operation::Powi(x, n) => x.wrapping_pow(n as u32),
    }
}

#[test]
fn run_takes_the_requested_number_of_steps() {
    let mut bodies = initial_state(&rough);
    offset_momentum(&mut bodies, &rough);
    let before = energy(&bodies, &rough);
    for _ in 0..3 {
        advance(&mut bodies, &rough);
    }
    let after = energy(&bodies, &rough);
    let report = run(3, &rough);
    assert_eq!(report.before, before);
    assert_eq!(report.after, after);
    let none = run(0, &rough);
    assert_eq!(none.before, before);
    assert_eq!(none.after, before);
}
