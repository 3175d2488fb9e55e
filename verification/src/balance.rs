//! The energy over the real numbers: the kinetic energy of every body, less
//! what every pair binds.

use crate::arith::{decimal, Operation};
use crate::body::{is_system, System};
use crate::energy::{energy_through, kinetic, potential, total_energy};
use crate::exact::{is_exact, power_of_ten, value_of};
use crate::pairs::{pair_first, pair_second, BODIES_COUNT, INTERACTIONS};
use vstd::prelude::*;

verus! {

/// The kinetic energies of the first `n` bodies, summed.
pub open spec fn kinetic_sum(
    ev: spec_fn(Operation<real>) -> real,
    sys: System<real>,
    n: nat,
) -> real
    decreases n,
{
    if n == 0 {
        0real
    } else {
        kinetic_sum(ev, sys, (n - 1) as nat) + kinetic(ev, sys[n - 1])
    }
}

/// What the first `n` pairs of the canonical order bind, summed.
pub open spec fn potential_sum(
    ev: spec_fn(Operation<real>) -> real,
    sys: System<real>,
    n: nat,
) -> real
    decreases n,
{
    if n == 0 {
        0real
    } else {
        potential_sum(ev, sys, (n - 1) as nat) + potential(
            ev,
            sys[pair_first(n - 1)],
            sys[pair_second(n - 1)],
        )
    }
}

/// In exact arithmetic the energy counts the kinetic energy of every body
/// once and what every unordered pair binds once, the latter taken away.
pub proof fn lemma_energy_counts_each_pair_once(
    ev: spec_fn(Operation<real>) -> real,
    sys: System<real>,
)
    requires
        is_exact(ev),
        is_system(sys),
    ensures
        total_energy(ev, sys) == kinetic_sum(ev, sys, BODIES_COUNT as nat) - potential_sum(
            ev,
            sys,
            INTERACTIONS as nat,
        ),
{
    assert(ev(Operation::Literal(decimal(0, 0))) == 0real) by {
        assert(value_of(decimal(0, 0)) == 0real * power_of_ten(0));
        assert(0real * power_of_ten(0) == 0real) by (nonlinear_arith);
    }
    reveal_with_fuel(energy_through, 16);
    reveal_with_fuel(kinetic_sum, 6);
    reveal_with_fuel(potential_sum, 11);
}

} // verus!
