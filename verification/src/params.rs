//! Fixed simulation parameters of one run.
//!
//! Grid spacings `dx`, `dy`, wave speed `c` and time step `dt` are
//! fixed-point raw values, validated once at construction and never
//! changed afterwards. The derived quantities the per-tick formulas use
//! (`dx*dx`, `dy*dy`, `c*c`, `dt/2`) are computed here once, so that every
//! tick works from exactly the same raw coefficients.
//!
//! Numerical stability is a configuration concern, not a runtime check:
//! the explicit scheme stays bounded only under a CFL-type bound,
//! roughly `dt <= min(dx, dy) / (c * sqrt(2))`. A `dt` above the bound is
//! accepted and the field then grows without limit (saturating at the
//! fixed-point range), exactly as the contracts describe.

use vstd::prelude::*;

verus! {

use crate::error::SimError;
use crate::fixed::{fp_mul, div_trunc, mul_fp};

/// Validated run parameters, with the derived fixed-point coefficients of
/// the stencil and the integrator.
#[derive(Clone, Copy)]
pub struct Params {
    /// Grid spacing along the first axis, in raw fixed-point units.
    pub dx: i64,
    /// Grid spacing along the second axis, in raw fixed-point units.
    pub dy: i64,
    /// Wave propagation speed, in raw fixed-point units.
    pub c: i64,
    /// Time step, in raw fixed-point units.
    pub dt: i64,
    /// `dx * dx` in fixed point.
    pub dxsq: i64,
    /// `dy * dy` in fixed point.
    pub dysq: i64,
    /// `c * c` in fixed point.
    pub csq: i64,
    /// Half the time step, truncated toward zero.
    pub dt_half: i64,
}

impl Params {
    /// The base parameters are positive, the squared spacings are still
    /// positive after fixed-point truncation (they are divided by), and
    /// the derived fields hold exactly the derived quantities.
    pub open spec fn wf(self) -> bool {
        &&& self.dx > 0
        &&& self.dy > 0
        &&& self.c > 0
        &&& self.dt > 0
        &&& self.dxsq as int == fp_mul(self.dx as int, self.dx as int)
        &&& self.dysq as int == fp_mul(self.dy as int, self.dy as int)
        &&& self.csq as int == fp_mul(self.c as int, self.c as int)
        &&& self.dxsq > 0
        &&& self.dysq > 0
        &&& self.dt_half as int == div_trunc(self.dt as int, 2)
    }

    /// Validate and freeze the parameters of a run. Succeeds exactly when
    /// all four base parameters are positive and the squared spacings do
    /// not truncate to zero in fixed point.
    pub fn new(dx: i64, dy: i64, c: i64, dt: i64) -> (r: Result<Params, SimError>)
        ensures
            r is Ok <==> (dx > 0 && dy > 0 && c > 0 && dt > 0
                && fp_mul(dx as int, dx as int) > 0
                && fp_mul(dy as int, dy as int) > 0),
            match r {
                Ok(p) => {
                    &&& p.wf()
                    &&& p.dx == dx
                    &&& p.dy == dy
                    &&& p.c == c
                    &&& p.dt == dt
                },
                Err(e) => e == SimError::InvalidConfig,
            },
    {
        if dx <= 0 || dy <= 0 || c <= 0 || dt <= 0 {
            return Err(SimError::InvalidConfig);
        }
        let dxsq = mul_fp(dx, dx);
        let dysq = mul_fp(dy, dy);
        if dxsq <= 0 || dysq <= 0 {
            return Err(SimError::InvalidConfig);
        }
        let csq = mul_fp(c, c);
        let dtu: u64 = dt as u64;
        let dt_half: i64 = (dtu / 2) as i64;
        Ok(Params { dx, dy, c, dt, dxsq, dysq, csq, dt_half })
    }
}

} // verus!
