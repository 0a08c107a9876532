//! Field state and the per-tick pipeline.
//!
//! A [`Simulation`] owns the three same-shaped grids (value, velocity,
//! acceleration) and the fixed run parameters. The acceleration grid is a
//! derived cache: it always equals the stencil of the current value grid,
//! so each tick computes the stencil once and uses it twice — once for
//! the closing half-kick of the tick that produced it, once for the
//! opening half-kick of the next tick.
//!
//! One tick is the symmetric split-step (velocity-Verlet) update:
//! half-kick the velocity with the cached acceleration, drift the value
//! with the half-updated velocity, recompute the acceleration from the
//! new value, half-kick the velocity with the new acceleration. The
//! result of a tick is pinned down exactly by [`tick_spec`].

use vstd::prelude::*;

verus! {

use crate::error::SimError;
use crate::grid::{Grid, GridView, MAX_DIM};
use crate::params::Params;
use crate::stencil::{stencil_grid, update_acceleration};
use crate::integrator::{advanced, update_velocity, update_value};

/// Mathematical model of the whole simulation state.
#[verifier::ext_equal]
pub ghost struct SimView {
    pub value: GridView,
    pub velocity: GridView,
    pub acceleration: GridView,
    pub params: Params,
}

impl SimView {
    /// The three grids are well formed and share one shape, the
    /// parameters are valid, and the acceleration cache holds exactly the
    /// stencil of the current value grid.
    pub open spec fn wf(self) -> bool {
        &&& self.value.wf()
        &&& self.velocity.wf()
        &&& self.acceleration.wf()
        &&& self.value.same_shape(self.velocity)
        &&& self.value.same_shape(self.acceleration)
        &&& self.params.wf()
        &&& self.acceleration == stencil_grid(self.value, self.params)
    }
}

/// One symmetric split-step tick: half-kick, drift, stencil, half-kick.
pub open spec fn tick_spec(s: SimView) -> SimView {
    let vel_half = advanced(s.velocity, s.acceleration, s.params.dt_half as int);
    let value_new = advanced(s.value, vel_half, s.params.dt as int);
    let acc_new = stencil_grid(value_new, s.params);
    let vel_new = advanced(vel_half, acc_new, s.params.dt_half as int);
    SimView { value: value_new, velocity: vel_new, acceleration: acc_new, params: s.params }
}

/// The state after `n` ticks.
pub open spec fn ticks(s: SimView, n: nat) -> SimView
    decreases n,
{
    if n == 0 {
        s
    } else {
        tick_spec(ticks(s, (n - 1) as nat))
    }
}

/// The simulation state: the three grids and the fixed parameters. The
/// grids are allocated once at construction and then mutated in place,
/// tick after tick.
pub struct Simulation {
    pub value: Grid,
    pub velocity: Grid,
    pub acceleration: Grid,
    pub params: Params,
}

impl View for Simulation {
    type V = SimView;

    open spec fn view(&self) -> SimView {
        SimView {
            value: self.value@,
            velocity: self.velocity@,
            acceleration: self.acceleration@,
            params: self.params,
        }
    }
}

impl Simulation {
    /// The simulation's model is well formed.
    pub open spec fn wf(&self) -> bool {
        self@.wf()
    }

    /// Allocate and initialize a run: the value grid takes the seed
    /// buffer (flat row-major, one sample per cell), the velocity grid is
    /// all zeros, and the acceleration cache is computed from the seed.
    /// Rejects zero or oversized dimensions, and a seed whose length is
    /// not exactly `nx * ny`.
    pub fn new(nx: usize, ny: usize, params: Params, seed: Vec<i64>) -> (r: Result<
        Simulation,
        SimError,
    >)
        requires
            params.wf(),
        ensures
            r is Ok <==> (1 <= nx <= MAX_DIM && 1 <= ny <= MAX_DIM && seed@.len() == nx * ny),
            match r {
                Ok(s) => {
                    &&& s.wf()
                    &&& s@.params == params
                    &&& s@.value.nx == nx && s@.value.ny == ny
                    &&& s@.value.cells == seed@.map_values(|v: i64| v as int)
                    &&& s@.velocity.cells == Seq::new((nx * ny) as nat, |k: int| 0int)
                    &&& s@.acceleration == stencil_grid(s@.value, params)
                },
                Err(e) => if 1 <= nx <= MAX_DIM && 1 <= ny <= MAX_DIM {
                    e == SimError::ShapeMismatch
                } else {
                    e == SimError::InvalidConfig
                },
            },
    {
        let value = match Grid::from_cells(nx, ny, seed) {
            Ok(g) => g,
            Err(e) => {
                return Err(e);
            },
        };
        let velocity = match Grid::filled(nx, ny, 0) {
            Ok(g) => g,
            Err(e) => {
                return Err(e);
            },
        };
        let mut acceleration = match Grid::filled(nx, ny, 0) {
            Ok(g) => g,
            Err(e) => {
                return Err(e);
            },
        };
        let _ = update_acceleration(&mut acceleration, &value, &params);
        Ok(Simulation { value, velocity, acceleration, params })
    }

    /// Advance the state one tick: half-kick the velocity with the cached
    /// acceleration, drift the value, recompute the acceleration from the
    /// new value, half-kick the velocity with it.
    pub fn tick(&mut self)
        requires
            old(self).wf(),
        ensures
            final(self).wf(),
            final(self)@ == tick_spec(old(self)@),
    {
        let dt_half = self.params.dt_half;
        let _ = update_velocity(&mut self.velocity, &self.acceleration, dt_half);
        let _ = update_value(&mut self.value, &self.velocity, self.params.dt);
        let _ = update_acceleration(&mut self.acceleration, &self.value, &self.params);
        let _ = update_velocity(&mut self.velocity, &self.acceleration, dt_half);
        proof {
            assert(self@ =~= tick_spec(old(self)@));
        }
    }

    /// Advance the state `n` ticks in order.
    pub fn run(&mut self, n: u64)
        requires
            old(self).wf(),
        ensures
            final(self).wf(),
            final(self)@ == ticks(old(self)@, n as nat),
    {
        let mut done: u64 = 0;
        while done < n
            invariant
                self.wf(),
                done <= n,
                self@ == ticks(old(self)@, done as nat),
            decreases n - done,
        {
            self.tick();
            done = done + 1;
        }
    }
}

} // verus!
