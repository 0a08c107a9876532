//! Elementwise integration steps.
//!
//! Both integrator passes have the same elementwise shape: every cell of
//! the target grid is advanced by the matching cell of a rate grid scaled
//! by a time factor, `target[k] += rate[k] * h` in saturating fixed point.
//! [`update_velocity`] advances velocity by acceleration, and
//! [`update_value`] advances value by velocity; each pass touches every
//! cell exactly once, with no cross-cell ordering dependency.

use vstd::prelude::*;

verus! {

use crate::error::SimError;
use crate::fixed::{fp_add, fp_mul, add_fp, mul_fp};
use crate::grid::{Grid, GridView};

/// A grid advanced elementwise by a rate grid over a time factor:
/// cell `k` becomes `g[k] + rate[k] * h` in saturating fixed point.
pub open spec fn advanced(g: GridView, rate: GridView, h: int) -> GridView {
    GridView {
        nx: g.nx,
        ny: g.ny,
        cells: Seq::new(g.cells.len(), |k: int| fp_add(g.cells[k], fp_mul(rate.cells[k], h))),
    }
}

/// Advance every velocity cell by its acceleration cell scaled by `dt`.
/// Fails (leaving the velocity untouched) exactly when the two grids
/// differ in shape.
pub fn update_velocity(velocity: &mut Grid, acceleration: &Grid, dt: i64) -> (r: Result<
    (),
    SimError,
>)
    requires
        old(velocity).wf(),
        acceleration.wf(),
    ensures
        final(velocity).wf(),
        r is Ok <==> old(velocity)@.same_shape(acceleration@),
        old(velocity)@.same_shape(acceleration@) ==> final(velocity)@ == advanced(
            old(velocity)@,
            acceleration@,
            dt as int,
        ),
        !old(velocity)@.same_shape(acceleration@) ==> final(velocity)@ == old(velocity)@ && r
            == Err::<(), SimError>(SimError::ShapeMismatch),
{
    axpy_cells(velocity, acceleration, dt)
}

/// Advance every value cell by its velocity cell scaled by `dt`. Fails
/// (leaving the value untouched) exactly when the two grids differ in
/// shape.
pub fn update_value(value: &mut Grid, velocity: &Grid, dt: i64) -> (r: Result<(), SimError>)
    requires
        old(value).wf(),
        velocity.wf(),
    ensures
        final(value).wf(),
        r is Ok <==> old(value)@.same_shape(velocity@),
        old(value)@.same_shape(velocity@) ==> final(value)@ == advanced(
            old(value)@,
            velocity@,
            dt as int,
        ),
        !old(value)@.same_shape(velocity@) ==> final(value)@ == old(value)@ && r == Err::<
            (),
            SimError,
        >(SimError::ShapeMismatch),
{
    axpy_cells(value, velocity, dt)
}

/// Shared elementwise pass of the two integrator steps.
#[verifier::loop_isolation(false)]
fn axpy_cells(target: &mut Grid, rate: &Grid, h: i64) -> (r: Result<(), SimError>)
    requires
        old(target).wf(),
        rate.wf(),
    ensures
        final(target).wf(),
        r is Ok <==> old(target)@.same_shape(rate@),
        old(target)@.same_shape(rate@) ==> final(target)@ == advanced(
            old(target)@,
            rate@,
            h as int,
        ),
        !old(target)@.same_shape(rate@) ==> final(target)@ == old(target)@ && r == Err::<
            (),
            SimError,
        >(SimError::ShapeMismatch),
{
    if target.nx != rate.nx || target.ny != rate.ny {
        return Err(SimError::ShapeMismatch);
    }
    let n: usize = target.cells.len();
    let mut k: usize = 0;
    while k < n
        invariant
            rate.wf(),
            target.wf(),
            target@.same_shape(rate@),
            target@.same_shape(old(target)@),
            n == target@.cells.len(),
            n == rate@.cells.len(),
            k <= n,
            forall|m: int|
                0 <= m < k ==> #[trigger] target@.cells[m] == fp_add(
                    old(target)@.cells[m],
                    fp_mul(rate@.cells[m], h as int),
                ),
            forall|m: int| k <= m < n ==> #[trigger] target@.cells[m] == old(target)@.cells[m],
        decreases n - k,
    {
        let ghost pre = target@.cells;
        let cur: i64 = target.cells[k];
        let rk: i64 = rate.cells[k];
        let stepped: i64 = add_fp(cur, mul_fp(rk, h));
        target.cells[k] = stepped;
        proof {
            assert(target@.cells =~= pre.update(k as int, stepped as int));
            assert(pre[k as int] == cur as int);
            assert(rate@.cells[k as int] == rk as int);
            assert(target@.cells[k as int] == fp_add(
                old(target)@.cells[k as int],
                fp_mul(rate@.cells[k as int], h as int),
            ));
        }
        k = k + 1;
    }
    proof {
        assert(target@ =~= advanced(old(target)@, rate@, h as int));
    }
    Ok(())
}

} // verus!
