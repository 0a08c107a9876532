//! Verified core of a two-dimensional scalar wave simulation on a periodic
//! grid.
//!
//! The field is held on a dense row-major grid of fixed-point samples
//! (`i64` raw units, [`fixed::SCALE`] raw units to one). A five-point
//! finite-difference stencil with wrap-around indexing turns the value field
//! into an acceleration field, and a velocity-Verlet integrator (half-kick,
//! drift, half-kick) advances value and velocity one time step. Every
//! arithmetic step is stated exactly: each public operation's contract pins
//! the resulting cells down to the saturating, truncating fixed-point
//! formula it computes.

pub mod error;
pub mod fixed;
pub mod grid;
pub mod params;
pub mod stencil;
pub mod integrator;
pub mod sim;
pub mod laws;
