//! Five-point Laplacian stencil with periodic wrap-around.
//!
//! The acceleration field is the discrete wave-equation right-hand side
//!
//! ```text
//! acceleration[i,j] = c^2 * ( (value[i-1,j] + value[i+1,j] - 2*value[i,j]) / dx^2
//!                           + (value[i,j-1] + value[i,j+1] - 2*value[i,j]) / dy^2 )
//! ```
//!
//! computed in saturating fixed point, with the neighbor indices wrapping
//! modulo the grid dimensions (the grid is topologically a torus). This is
//! the only supported boundary policy.

use vstd::prelude::*;

verus! {

use vstd::arithmetic::div_mod::{lemma_small_mod, lemma_mod_self_0, lemma_mod_multiples_vanish};
use crate::error::SimError;
use crate::fixed::{fp_add, fp_sub, fp_mul, fp_div, add_fp, sub_fp, mul_fp, div_fp};
use crate::grid::{Grid, GridView, lemma_flat_index};
use crate::params::Params;

/// Index of the wrap-around predecessor of `i` on a periodic axis of
/// length `n`.
pub open spec fn prev_idx(i: int, n: int) -> int {
    (i + n - 1) % n
}

/// Index of the wrap-around successor of `i` on a periodic axis of
/// length `n`.
pub open spec fn next_idx(i: int, n: int) -> int {
    (i + 1) % n
}

/// The wrapped neighbor indices spelled out: the predecessor of the first
/// index is the last index, the successor of the last index is the first,
/// and everywhere else they are the plain adjacent indices.
pub proof fn lemma_wrap_indices(i: int, n: int)
    requires
        0 <= i < n,
    ensures
        0 <= prev_idx(i, n) < n,
        0 <= next_idx(i, n) < n,
        prev_idx(i, n) == if i == 0 { n - 1 } else { i - 1 },
        next_idx(i, n) == if i == n - 1 { 0 } else { i + 1 },
{
    if i == 0 {
        lemma_small_mod((n - 1) as nat, n as nat);
    } else {
        lemma_mod_multiples_vanish(1, i - 1, n);
        lemma_small_mod((i - 1) as nat, n as nat);
    }
    if i == n - 1 {
        lemma_mod_self_0(n);
    } else {
        lemma_small_mod((i + 1) as nat, n as nat);
    }
}

/// The stencil combination of the centre sample and its four neighbors:
/// `c^2 * ((pxm + pxp - 2*p00) / dx^2 + (pym + pyp - 2*p00) / dy^2)` in
/// saturating fixed point.
pub open spec fn stencil_of(p00: int, pxm: int, pxp: int, pym: int, pyp: int, p: Params) -> int {
    fp_mul(
        p.csq as int,
        fp_add(
            fp_div(fp_sub(fp_add(pxm, pxp), fp_add(p00, p00)), p.dxsq as int),
            fp_div(fp_sub(fp_add(pym, pyp), fp_add(p00, p00)), p.dysq as int),
        ),
    )
}

/// The discrete wave-equation right-hand side at cell `(i, j)` of a value
/// grid, with periodic neighbor indexing.
pub open spec fn stencil_at(v: GridView, p: Params, i: int, j: int) -> int {
    stencil_of(
        v.at(i, j),
        v.at(prev_idx(i, v.nx), j),
        v.at(next_idx(i, v.nx), j),
        v.at(i, prev_idx(j, v.ny)),
        v.at(i, next_idx(j, v.ny)),
        p,
    )
}

/// The acceleration grid derived from a value grid: every cell holds the
/// stencil at that cell.
pub open spec fn stencil_grid(v: GridView, p: Params) -> GridView {
    GridView {
        nx: v.nx,
        ny: v.ny,
        cells: Seq::new((v.nx * v.ny) as nat, |k: int| stencil_at(v, p, k % v.nx, k / v.nx)),
    }
}

/// Recompute the whole acceleration grid from the value grid: every cell
/// is overwritten with the stencil at that cell; no partial update. Fails
/// (leaving the output untouched) exactly when the two grids differ in
/// shape.
#[verifier::loop_isolation(false)]
pub fn update_acceleration(acceleration: &mut Grid, value: &Grid, params: &Params) -> (r: Result<
    (),
    SimError,
>)
    requires
        old(acceleration).wf(),
        value.wf(),
        params.wf(),
    ensures
        final(acceleration).wf(),
        r is Ok <==> old(acceleration)@.same_shape(value@),
        old(acceleration)@.same_shape(value@) ==> final(acceleration)@ == stencil_grid(
            value@,
            *params,
        ),
        !old(acceleration)@.same_shape(value@) ==> final(acceleration)@ == old(acceleration)@ && r
            == Err::<(), SimError>(SimError::ShapeMismatch),
{
    let nx: usize = value.nx;
    let ny: usize = value.ny;
    if acceleration.nx != nx || acceleration.ny != ny {
        return Err(SimError::ShapeMismatch);
    }
    proof {
        crate::grid::lemma_dims_product_fits(nx as int, ny as int);
    }
    let mut j: usize = 0;
    while j < ny
        invariant
            value.wf(),
            params.wf(),
            acceleration.wf(),
            nx == value@.nx,
            ny == value@.ny,
            acceleration@.same_shape(value@),
            j <= ny,
            forall|m: int|
                0 <= m < j * nx ==> #[trigger] acceleration@.cells[m] == stencil_grid(
                    value@,
                    *params,
                ).cells[m],
        decreases ny - j,
    {
        let mut i: usize = 0;
        while i < nx
            invariant
                value.wf(),
                params.wf(),
                acceleration.wf(),
                nx == value@.nx,
                ny == value@.ny,
                acceleration@.same_shape(value@),
                j < ny,
                i <= nx,
                forall|m: int|
                    0 <= m < j * nx + i ==> #[trigger] acceleration@.cells[m] == stencil_grid(
                        value@,
                        *params,
                    ).cells[m],
            decreases nx - i,
        {
            proof {
                lemma_wrap_indices(i as int, nx as int);
                lemma_wrap_indices(j as int, ny as int);
                lemma_flat_index(i as int, j as int, nx as int, ny as int);
            }
            let im1: usize = (i + nx - 1) % nx;
            let ip1: usize = (i + 1) % nx;
            let jm1: usize = (j + ny - 1) % ny;
            let jp1: usize = (j + 1) % ny;
            let p00 = value.get(i, j);
            let pxm = value.get(im1, j);
            let pxp = value.get(ip1, j);
            let pym = value.get(i, jm1);
            let pyp = value.get(i, jp1);
            let two_p = add_fp(p00, p00);
            let lapx = sub_fp(add_fp(pxm, pxp), two_p);
            let lapy = sub_fp(add_fp(pym, pyp), two_p);
            let a = mul_fp(params.csq, add_fp(div_fp(lapx, params.dxsq), div_fp(lapy, params.dysq)));
            acceleration.set(i, j, a);
            proof {
                assert(acceleration@.cells[j as int * nx as int + i as int] == stencil_at(
                    value@,
                    *params,
                    i as int,
                    j as int,
                ));
                assert(stencil_grid(value@, *params).cells[j as int * nx as int + i as int]
                    == stencil_at(value@, *params, i as int, j as int));
            }
            i = i + 1;
        }
        proof {
            assert((j + 1) * nx == j * nx + nx) by (nonlinear_arith);
        }
        j = j + 1;
    }
    proof {
        assert(ny as int * nx as int == nx as int * ny as int) by (nonlinear_arith);
        assert(acceleration@ =~= stencil_grid(value@, *params));
    }
    Ok(())
}

} // verus!
