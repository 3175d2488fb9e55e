//! Gravitational simulation of the Sun and the four giant planets.
//!
//! The kernel is written once, for every number system: each function takes
//! an evaluator that carries out single arithmetic operations, and its
//! contract says which operations are applied to which values, in which
//! order. Index bookkeeping, the order of the phases of a step and the frame
//! of every mutation are proved; rounding is the evaluator's business.

pub mod arith;
pub mod balance;
pub mod body;
pub mod constants;
pub mod energy;
pub mod exact;
pub mod initial;
pub mod momentum;
pub mod pairs;
pub mod rest;
pub mod run;
pub mod step;
pub mod vector;
