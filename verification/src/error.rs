//! Error taxonomy of the simulation core.

use vstd::prelude::*;

verus! {

/// The two failure classes of the core: bad run configuration, and
/// operations handed grids of inconsistent shape. Both are rejected
/// before any cell is touched.
#[derive(Clone, Copy, Debug, PartialEq, Eq, Structural)]
pub enum SimError {
    /// Zero or oversized grid dimensions, or a non-positive simulation
    /// parameter (including one whose fixed-point square truncates to
    /// zero, which would make the stencil division meaningless).
    InvalidConfig,
    /// Two grids that must share a shape do not.
    ShapeMismatch,
}

} // verus!
