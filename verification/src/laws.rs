//! Global laws of the simulation, stated and proved over the
//! mathematical model.

use vstd::prelude::*;

verus! {

use crate::fixed::{lemma_fp_mul_zero, lemma_fp_add_zero, lemma_fp_div_zero};
use crate::grid::{GridView, lemma_flat_index, lemma_flat_unindex};
use crate::params::Params;
use crate::stencil::{
    stencil_at,
    stencil_of,
    stencil_grid,
    prev_idx,
    next_idx,
    lemma_wrap_indices,
};
use crate::integrator::advanced;
use crate::sim::{SimView, tick_spec, ticks};

/// Determinism: the whole evolution is a function of the starting state
/// and the parameters alone — advancing equal states by the same number
/// of ticks yields equal states.
pub proof fn lemma_ticks_deterministic(s1: SimView, s2: SimView, n: nat)
    requires
        s1 == s2,
    ensures
        ticks(s1, n) == ticks(s2, n),
{
}

/// Periodic boundary: the stencil at cell `(i, j)` reads exactly the four
/// wrapped neighbors. At the first column the "left" neighbor is the last
/// column and at the last column the "right" neighbor is the first;
/// everywhere else the neighbors are plainly adjacent — and likewise for
/// rows.
pub proof fn lemma_stencil_reads_wrapped_neighbors(v: GridView, p: Params, i: int, j: int)
    requires
        v.wf(),
        0 <= i < v.nx,
        0 <= j < v.ny,
    ensures
        stencil_at(v, p, i, j) == stencil_of(
            v.at(i, j),
            v.at(if i == 0 { v.nx - 1 } else { i - 1 }, j),
            v.at(if i == v.nx - 1 { 0 } else { i + 1 }, j),
            v.at(i, if j == 0 { v.ny - 1 } else { j - 1 }),
            v.at(i, if j == v.ny - 1 { 0 } else { j + 1 }),
            p,
        ),
{
    lemma_wrap_indices(i, v.nx);
    lemma_wrap_indices(j, v.ny);
}

/// Equal neighbors cancel exactly in the discrete Laplacian, including in
/// saturating fixed point: the stencil of a spatially uniform grid is
/// zero at every cell.
pub proof fn lemma_stencil_uniform_zero(v: GridView, p: Params, i: int, j: int)
    requires
        v.wf(),
        p.wf(),
        v.is_uniform(),
        0 <= i < v.nx,
        0 <= j < v.ny,
    ensures
        stencil_at(v, p, i, j) == 0,
{
    lemma_wrap_indices(i, v.nx);
    lemma_wrap_indices(j, v.ny);
    lemma_flat_index(i, j, v.nx, v.ny);
    lemma_flat_index(prev_idx(i, v.nx), j, v.nx, v.ny);
    lemma_flat_index(next_idx(i, v.nx), j, v.nx, v.ny);
    lemma_flat_index(i, prev_idx(j, v.ny), v.nx, v.ny);
    lemma_flat_index(i, next_idx(j, v.ny), v.nx, v.ny);
    lemma_fp_div_zero(p.dxsq as int);
    lemma_fp_div_zero(p.dysq as int);
    lemma_fp_mul_zero(p.csq as int);
}

/// The acceleration grid derived from a spatially uniform value grid is
/// the zero grid.
pub proof fn lemma_stencil_grid_uniform_zero(v: GridView, p: Params)
    requires
        v.wf(),
        p.wf(),
        v.is_uniform(),
    ensures
        stencil_grid(v, p).is_zero(),
{
    let a = stencil_grid(v, p);
    assert forall|k: int| 0 <= k < a.cells.len() implies #[trigger] a.cells[k] == 0 by {
        lemma_flat_unindex(k, v.nx, v.ny);
        lemma_stencil_uniform_zero(v, p, k % v.nx, k / v.nx);
    }
}

/// One tick fixes a steady state: with a spatially uniform value grid and
/// zero velocity, the stencil is zero everywhere, so nothing moves.
pub proof fn lemma_tick_fixes_steady_state(s: SimView)
    requires
        s.wf(),
        s.value.is_uniform(),
        s.velocity.is_zero(),
    ensures
        tick_spec(s) == s,
{
    lemma_stencil_grid_uniform_zero(s.value, s.params);
    let vel_half = advanced(s.velocity, s.acceleration, s.params.dt_half as int);
    assert forall|k: int| 0 <= k < vel_half.cells.len() implies #[trigger] vel_half.cells[k]
        == 0 by {
        lemma_fp_mul_zero(s.params.dt_half as int);
    }
    assert(vel_half =~= s.velocity);
    let value_new = advanced(s.value, vel_half, s.params.dt as int);
    assert forall|k: int| 0 <= k < value_new.cells.len() implies #[trigger] value_new.cells[k]
        == s.value.cells[k] by {
        lemma_fp_mul_zero(s.params.dt as int);
        lemma_fp_add_zero(s.value.cells[k]);
    }
    assert(value_new =~= s.value);
    let acc_new = stencil_grid(value_new, s.params);
    assert(acc_new == s.acceleration);
    let vel_new = advanced(vel_half, acc_new, s.params.dt_half as int);
    assert forall|k: int| 0 <= k < vel_new.cells.len() implies #[trigger] vel_new.cells[k]
        == 0 by {
        lemma_fp_mul_zero(s.params.dt_half as int);
    }
    assert(vel_new =~= s.velocity);
    assert(tick_spec(s) =~= s);
}

/// Steady-state law: a spatially uniform value grid with zero velocity is
/// exactly unchanged by any number of ticks.
pub proof fn lemma_uniform_steady_state(s: SimView, n: nat)
    requires
        s.wf(),
        s.value.is_uniform(),
        s.velocity.is_zero(),
    ensures
        ticks(s, n) == s,
    decreases n,
{
    if n > 0 {
        lemma_uniform_steady_state(s, (n - 1) as nat);
        lemma_tick_fixes_steady_state(s);
    }
}

} // verus!
