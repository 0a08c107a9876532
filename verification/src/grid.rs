//! Dense two-dimensional grid of fixed-point samples.
//!
//! The grid is a single flat row-major buffer of length `nx * ny`; cell
//! `(i, j)` lives at flat index `j * nx + i`. Its mathematical model is
//! [`GridView`]: the two dimensions and the flat cell sequence as
//! unbounded integers.

use vstd::prelude::*;

verus! {

use vstd::arithmetic::div_mod::lemma_fundamental_div_mod_converse;
use crate::error::SimError;

/// Largest accepted side length of a grid. Keeps every flat index and the
/// cell count comfortably inside `usize` on any target.
pub const MAX_DIM: usize = 32768;

/// Mathematical model of a grid: dimensions and the flat row-major cell
/// sequence, cell `(i, j)` at index `j * nx + i`.
#[verifier::ext_equal]
pub ghost struct GridView {
    pub nx: int,
    pub ny: int,
    pub cells: Seq<int>,
}

impl GridView {
    /// The sample at cell `(i, j)`.
    pub open spec fn at(self, i: int, j: int) -> int {
        self.cells[j * self.nx + i]
    }

    /// Dimensions are positive and bounded, the buffer has exactly one
    /// sample per cell, and every sample is an `i64` value.
    pub open spec fn wf(self) -> bool {
        &&& 0 < self.nx <= MAX_DIM as int
        &&& 0 < self.ny <= MAX_DIM as int
        &&& self.cells.len() == self.nx * self.ny
        &&& forall|k: int|
            0 <= k < self.cells.len() ==> i64::MIN <= #[trigger] self.cells[k] <= i64::MAX
    }

    /// Equal dimensions.
    pub open spec fn same_shape(self, other: GridView) -> bool {
        self.nx == other.nx && self.ny == other.ny
    }

    /// Every cell holds the same sample.
    pub open spec fn is_uniform(self) -> bool {
        forall|k: int| 0 <= k < self.cells.len() ==> #[trigger] self.cells[k] == self.cells[0]
    }

    /// Every cell holds zero.
    pub open spec fn is_zero(self) -> bool {
        forall|k: int| 0 <= k < self.cells.len() ==> #[trigger] self.cells[k] == 0
    }
}

/// A dense `nx` by `ny` grid of fixed-point samples in one flat row-major
/// buffer.
pub struct Grid {
    pub nx: usize,
    pub ny: usize,
    pub cells: Vec<i64>,
}

impl View for Grid {
    type V = GridView;

    open spec fn view(&self) -> GridView {
        GridView {
            nx: self.nx as int,
            ny: self.ny as int,
            cells: self.cells@.map_values(|v: i64| v as int),
        }
    }
}

/// Bounded dimensions keep the cell count and every flat index small
/// enough for `usize` arithmetic on any target.
pub proof fn lemma_dims_product_fits(nx: int, ny: int)
    requires
        1 <= nx <= MAX_DIM as int,
        1 <= ny <= MAX_DIM as int,
    ensures
        nx <= nx * ny,
        ny <= nx * ny,
        nx * ny <= 0x40000000,
{
    assert(nx <= nx * ny && ny <= nx * ny && nx * ny <= 0x40000000) by (nonlinear_arith)
        requires
            1 <= nx <= 32768,
            1 <= ny <= 32768,
    ;
}

/// The flat index of an in-range cell is in range, and flattening is
/// inverted by division and remainder by `nx`.
pub proof fn lemma_flat_index(i: int, j: int, nx: int, ny: int)
    requires
        0 <= i < nx,
        0 <= j < ny,
        nx <= MAX_DIM as int,
        ny <= MAX_DIM as int,
    ensures
        0 <= j * nx + i < nx * ny,
        j * nx + i <= 0x40000000,
        (j * nx + i) % nx == i,
        (j * nx + i) / nx == j,
{
    assert(0 <= j * nx + i && j * nx + i < nx * ny && j * nx + i <= 0x40000000)
        by (nonlinear_arith)
        requires
            0 <= i < nx,
            0 <= j < ny,
            nx <= 32768,
            ny <= 32768,
    ;
    lemma_fundamental_div_mod_converse(j * nx + i, nx, j, i);
}

/// A flat index decomposes into the unique in-range cell coordinates
/// `(k % nx, k / nx)`.
pub proof fn lemma_flat_unindex(k: int, nx: int, ny: int)
    requires
        0 < nx,
        0 < ny,
        0 <= k < nx * ny,
    ensures
        0 <= k % nx < nx,
        0 <= k / nx < ny,
        k == (k / nx) * nx + (k % nx),
{
    vstd::arithmetic::div_mod::lemma_fundamental_div_mod(k, nx);
    vstd::arithmetic::div_mod::lemma_mod_bound(k, nx);
    vstd::arithmetic::div_mod::lemma_div_pos_is_pos(k, nx);
    let j = k / nx;
    let i = k % nx;
    assert(j * nx == nx * j) by (nonlinear_arith);
    assert(j < ny) by (nonlinear_arith)
        requires
            k == nx * j + i,
            0 <= i,
            0 <= j,
            k < nx * ny,
            nx > 0,
    ;
}

impl Grid {
    /// The grid's model is well formed.
    pub open spec fn wf(&self) -> bool {
        self@.wf()
    }

    /// Allocate an `nx` by `ny` grid with every cell set to `fill`.
    /// Rejects zero or oversized dimensions.
    pub fn filled(nx: usize, ny: usize, fill: i64) -> (r: Result<Grid, SimError>)
        ensures
            r is Ok <==> (1 <= nx <= MAX_DIM && 1 <= ny <= MAX_DIM),
            match r {
                Ok(g) => {
                    &&& g.wf()
                    &&& g@.nx == nx && g@.ny == ny
                    &&& g@.cells == Seq::new((nx * ny) as nat, |k: int| fill as int)
                },
                Err(e) => e == SimError::InvalidConfig,
            },
    {
        if nx < 1 || nx > MAX_DIM || ny < 1 || ny > MAX_DIM {
            return Err(SimError::InvalidConfig);
        }
        proof {
            lemma_dims_product_fits(nx as int, ny as int);
        }
        let n: usize = nx * ny;
        let mut cells: Vec<i64> = Vec::new();
        let mut k: usize = 0;
        while k < n
            invariant
                k <= n,
                cells@.len() == k,
                forall|m: int| 0 <= m < k ==> #[trigger] cells@[m] == fill,
            decreases n - k,
        {
            cells.push(fill);
            k = k + 1;
        }
        let g = Grid { nx, ny, cells };
        proof {
            assert(g@.cells =~= Seq::new((nx * ny) as nat, |kk: int| fill as int));
        }
        Ok(g)
    }

    /// Wrap an existing flat row-major buffer as an `nx` by `ny` grid.
    /// Rejects zero or oversized dimensions, and a buffer whose length is
    /// not exactly `nx * ny`.
    pub fn from_cells(nx: usize, ny: usize, cells: Vec<i64>) -> (r: Result<Grid, SimError>)
        ensures
            r is Ok <==> (1 <= nx <= MAX_DIM && 1 <= ny <= MAX_DIM && cells@.len() == nx * ny),
            match r {
                Ok(g) => {
                    &&& g.wf()
                    &&& g@.nx == nx && g@.ny == ny
                    &&& g@.cells == cells@.map_values(|v: i64| v as int)
                },
                Err(e) => if 1 <= nx <= MAX_DIM && 1 <= ny <= MAX_DIM {
                    e == SimError::ShapeMismatch
                } else {
                    e == SimError::InvalidConfig
                },
            },
    {
        if nx < 1 || nx > MAX_DIM || ny < 1 || ny > MAX_DIM {
            return Err(SimError::InvalidConfig);
        }
        proof {
            lemma_dims_product_fits(nx as int, ny as int);
        }
        let n: usize = nx * ny;
        if cells.len() != n {
            return Err(SimError::ShapeMismatch);
        }
        Ok(Grid { nx, ny, cells })
    }

    /// Read the sample at cell `(i, j)`.
    pub fn get(&self, i: usize, j: usize) -> (r: i64)
        requires
            self.wf(),
            i < self@.nx,
            j < self@.ny,
        ensures
            r as int == self@.at(i as int, j as int),
    {
        proof {
            lemma_flat_index(i as int, j as int, self@.nx, self@.ny);
        }
        self.cells[j * self.nx + i]
    }

    /// Overwrite the sample at cell `(i, j)`.
    pub fn set(&mut self, i: usize, j: usize, v: i64)
        requires
            old(self).wf(),
            i < old(self)@.nx,
            j < old(self)@.ny,
        ensures
            final(self).wf(),
            final(self)@.nx == old(self)@.nx,
            final(self)@.ny == old(self)@.ny,
            final(self)@.cells == old(self)@.cells.update(
                j * old(self)@.nx + i,
                v as int,
            ),
    {
        proof {
            lemma_flat_index(i as int, j as int, self@.nx, self@.ny);
        }
        let idx: usize = j * self.nx + i;
        self.cells[idx] = v;
        proof {
            assert(self@.cells =~= old(self)@.cells.update(
                j as int * old(self)@.nx + i as int,
                v as int,
            ));
        }
    }
}

} // verus!
