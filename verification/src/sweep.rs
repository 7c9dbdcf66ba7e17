//! Sweep parameters, their arithmetic and their safety envelopes.

use vstd::prelude::*;

verus! {

use crate::micro_bounded;

/// The laser source's safe wavelength range, in micro-nm.
pub const WAVELENGTH_MIN: i64 = 1_527_600_000;

/// See `WAVELENGTH_MIN`.
pub const WAVELENGTH_MAX: i64 = 1_570_010_000;

/// The current driver's safe range, in micro-mA.
pub const CURRENT_MIN: i64 = 0;

/// See `CURRENT_MIN`.
pub const CURRENT_MAX: i64 = 100_000_000;

/// Most points a wavelength sweep may take.
pub const MAX_SWEEP_POINTS: u64 = 9;

/// The laser may only be driven inside its safe range.
pub open spec fn wavelength_in_range(v: int) -> bool {
    WAVELENGTH_MIN <= v <= WAVELENGTH_MAX
}

/// The current driver may only be driven inside its safe range.
pub open spec fn current_in_range(v: int) -> bool {
    CURRENT_MIN <= v <= CURRENT_MAX
}

/// Decides `wavelength_in_range`.
pub fn check_wavelength(v: i64) -> (ok: bool)
    ensures
        ok == wavelength_in_range(v as int),
{
    WAVELENGTH_MIN <= v && v <= WAVELENGTH_MAX
}

/// Decides `current_in_range`.
pub fn check_current(v: i64) -> (ok: bool)
    ensures
        ok == current_in_range(v as int),
{
    CURRENT_MIN <= v && v <= CURRENT_MAX
}

/// One sweep's independent-variable range: `start`, `stop` and `step`
/// in micro-units, and the dwell after each setpoint in milliseconds.
#[derive(Clone, Copy, Debug, PartialEq, Eq, Structural)]
pub struct SweepSpec {
    pub start: i64,
    pub stop: i64,
    pub step: i64,
    pub dwell_ms: u64,
}

impl SweepSpec {
    /// A sweep is well formed when it moves forward in positive steps
    /// between machine-representable bounds.
    pub open spec fn wf(self) -> bool {
        self.step > 0 && self.start < self.stop && micro_bounded(self.start as int)
            && micro_bounded(self.stop as int)
    }

    /// How many points the sweep visits:
    /// `floor((stop - start) / step) + 1`.
    pub open spec fn spec_point_count(self) -> int {
        (self.stop - self.start) / (self.step as int) + 1
    }

    /// The value the sweep sets at point `i`: `start + i * step`.
    pub open spec fn spec_setpoint(self, i: int) -> int {
        self.start + i * self.step
    }

    /// Computes the point count, `floor((stop - start) / step) + 1`.
    pub fn point_count(&self) -> (n: u64)
        requires
            self.wf(),
        ensures
            n as int == self.spec_point_count(),
            1 <= n,
    {
        let delta: i64 = self.stop - self.start;
        let q: i64 = delta / self.step;
        proof {
            let dd = delta as int;
            let ss = self.step as int;
            assert(dd / ss >= 0) by (nonlinear_arith)
                requires dd >= 0 && ss >= 1;
            assert(dd / ss <= dd) by (nonlinear_arith)
                requires dd >= 0 && ss >= 1;
        }
        (q as u64) + 1
    }

    /// Computes the setpoint of point `i`; it stays between `start` and
    /// `stop`.
    pub fn setpoint(&self, i: u64) -> (w: i64)
        requires
            self.wf(),
            i < self.spec_point_count(),
        ensures
            w as int == self.spec_setpoint(i as int),
            self.start <= w <= self.stop,
    {
        proof {
            let dd = (self.stop - self.start) as int;
            let ss = self.step as int;
            let ii = i as int;
            assert(ii <= dd / ss);
            vstd::arithmetic::div_mod::lemma_fundamental_div_mod(dd, ss);
            assert(ii * ss <= (dd / ss) * ss) by (nonlinear_arith)
                requires 0 <= ii <= dd / ss && ss >= 1;
            assert((dd / ss) * ss <= dd) by (nonlinear_arith)
                requires dd >= 0 && ss >= 1 && dd == ss * (dd / ss) + dd % ss
                    && dd % ss >= 0;
            assert(ii * ss >= 0) by (nonlinear_arith)
                requires ii >= 0 && ss >= 1;
        }
        let off: i128 = (i as i128) * (self.step as i128);
        self.start + (off as i64)
    }
}

/// Why a sweep request is refused.
#[derive(Clone, Copy, Debug, PartialEq, Eq, Structural)]
pub enum SweepRequestError {
    /// A bound is outside the safety envelope, the range is not
    /// forward, or the step is not positive.
    InvalidParams,
    /// The range and step are sound but would visit this many points,
    /// more than `MAX_SWEEP_POINTS`.
    TooManyPoints { count: u64 },
}

/// A wavelength sweep's numeric parameters are acceptable: both bounds
/// inside the laser's safe range, moving forward, in positive steps.
pub open spec fn wavelength_sweep_params_ok(start: int, stop: int, step: int) -> bool {
    wavelength_in_range(start) && wavelength_in_range(stop) && stop > start && step > 0
}

/// Validates a wavelength sweep request before anything is written to
/// an instrument: the safety envelope first, then the point cap.
pub fn validate_wavelength_sweep(start: i64, stop: i64, step: i64, dwell_ms: u64)
    -> (r: Result<SweepSpec, SweepRequestError>)
    ensures
        ({
            let ok = wavelength_sweep_params_ok(start as int, stop as int, step as int);
            let spec = (SweepSpec { start, stop, step, dwell_ms });
            match r {
                Ok(s) => ok && s == spec && s.wf()
                    && s.spec_point_count() <= MAX_SWEEP_POINTS,
                Err(e) => match e {
                    SweepRequestError::InvalidParams => !ok,
                    SweepRequestError::TooManyPoints { count } => ok
                        && count as int == spec.spec_point_count()
                        && count > MAX_SWEEP_POINTS,
                },
            }
        }),
{
    if !(check_wavelength(start) && check_wavelength(stop) && stop > start && step > 0) {
        return Err(SweepRequestError::InvalidParams);
    }
    let spec = SweepSpec { start, stop, step, dwell_ms };
    let n = spec.point_count();
    if n > MAX_SWEEP_POINTS {
        return Err(SweepRequestError::TooManyPoints { count: n });
    }
    Ok(spec)
}

/// Validates a single-point wavelength check: the wavelength must lie
/// in the laser's safe range.
pub fn validate_wavelength_check(wavelength: i64) -> (r: Result<i64, SweepRequestError>)
    ensures
        match r {
            Ok(w) => wavelength_in_range(wavelength as int) && w == wavelength,
            Err(e) => e == SweepRequestError::InvalidParams
                && !wavelength_in_range(wavelength as int),
        },
{
    if check_wavelength(wavelength) {
        Ok(wavelength)
    } else {
        Err(SweepRequestError::InvalidParams)
    }
}

/// A current sweep's numeric parameters are acceptable: both bounds
/// inside the driver's safe range, moving forward, in positive steps.
pub open spec fn current_sweep_params_ok(start: int, stop: int, step: int) -> bool {
    current_in_range(start) && current_in_range(stop) && stop > start && step > 0
}

/// Validates a current sweep request; the drive current has no point
/// cap, only its safety envelope.
pub fn validate_current_sweep(start: i64, stop: i64, step: i64, dwell_ms: u64)
    -> (r: Result<SweepSpec, SweepRequestError>)
    ensures
        ({
            let ok = current_sweep_params_ok(start as int, stop as int, step as int);
            match r {
                Ok(s) => ok && s == (SweepSpec { start, stop, step, dwell_ms }) && s.wf(),
                Err(e) => e == SweepRequestError::InvalidParams && !ok,
            }
        }),
{
    if check_current(start) && check_current(stop) && stop > start && step > 0 {
        Ok(SweepSpec { start, stop, step, dwell_ms })
    } else {
        Err(SweepRequestError::InvalidParams)
    }
}

} // verus!
