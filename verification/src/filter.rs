//! Resonant low-pass filter.
//!
//! A state-variable topology: the low-pass and band-pass integrators advance
//! once per sample, driven by a frequency coefficient derived from the
//! smoothed cutoff and a damping coefficient derived from the smoothed
//! resonance. Both integrators are limited to one full-scale unit each
//! sample, so the filter can never run away, whatever resonance is dialed
//! in.

use vstd::prelude::*;
use crate::fx::{SCALE, tdiv, sclamp};

verus! {

/// 2*pi in Q16.16, used to turn a cutoff in Hz into a per-sample phase step.
pub const TWO_PI_FX: i64 = 411775;

/// The frequency coefficient for a cutoff (Q16.16 Hz) at a sample rate:
/// roughly `2*pi*cutoff/rate`, kept in `[1, SCALE]`.
pub open spec fn freq_coeff(cutoff: int, rate: int) -> int
    recommends
        rate >= 1,
{
    sclamp(tdiv(cutoff * TWO_PI_FX, rate * SCALE), 1, SCALE as int)
}

/// The damping coefficient for a resonance value (Q16.16): `1/q`, kept in
/// `[1, 2*SCALE]` so the documented resonance range [0.5, 700] maps inside
/// it.
pub open spec fn damp_coeff(q: int) -> int
    recommends
        q >= 1,
{
    sclamp(tdiv(SCALE as int * SCALE as int, q), 1, 2 * SCALE as int)
}

/// Compute the frequency coefficient.
pub fn freq_coeff_x(cutoff: i64, rate: i64) -> (r: i64)
    requires
        1 <= rate <= 1000000,
        0 <= cutoff <= 262144000,
    ensures
        r == freq_coeff(cutoff as int, rate as int),
        1 <= r <= SCALE,
{
    let num = cutoff * TWO_PI_FX;
    let den = rate * SCALE;
    crate::fx::clamp_i64(crate::fx::dtz(num, den), 1, SCALE)
}

/// Compute the damping coefficient.
pub fn damp_coeff_x(q: i64) -> (r: i64)
    requires
        1 <= q,
    ensures
        r == damp_coeff(q as int),
        1 <= r <= 2 * SCALE,
{
    crate::fx::clamp_i64(crate::fx::dtz(SCALE * SCALE, q), 1, 2 * SCALE)
}

/// State-variable filter state; both integrators are held inside one
/// full-scale unit.
#[derive(Clone, Copy)]
pub struct Svf {
    /// Low-pass integrator; also the filter's output.
    pub low: i64,
    /// Band-pass integrator.
    pub band: i64,
}

/// Both integrators within one full-scale unit.
pub open spec fn svf_wf(s: Svf) -> bool {
    -SCALE <= s.low <= SCALE && -SCALE <= s.band <= SCALE
}

/// The filter state after absorbing `input` with coefficients `f` and `d`.
pub open spec fn svf_step(s: Svf, input: int, f: int, d: int) -> Svf
    recommends
        svf_wf(s),
        -SCALE <= input <= SCALE,
        1 <= f <= SCALE,
        1 <= d <= 2 * SCALE,
{
    let low1 = sclamp(s.low + tdiv(s.band * f, SCALE as int), -SCALE as int, SCALE as int);
    let high = input - low1 - tdiv(s.band * d, SCALE as int);
    let band1 = sclamp(s.band + tdiv(high * f, SCALE as int), -SCALE as int, SCALE as int);
    Svf { low: low1 as i64, band: band1 as i64 }
}

/// The sample the filter emits for that step: its low-pass integrator.
pub open spec fn svf_out(s: Svf, input: int, f: int, d: int) -> int {
    svf_step(s, input, f, d).low as int
}

/// A well-formed filter stays well-formed and emits a full-scale-bounded
/// sample.
pub proof fn lemma_svf_step_ok(s: Svf, input: int, f: int, d: int)
    requires
        svf_wf(s),
        -SCALE <= input <= SCALE,
        1 <= f <= SCALE,
        1 <= d <= 2 * SCALE,
    ensures
        svf_wf(svf_step(s, input, f, d)),
        -SCALE <= svf_out(s, input, f, d) <= SCALE,
{
}

impl Svf {
    /// A filter at rest.
    pub fn at_rest() -> (r: Svf)
        ensures
            r.low == 0,
            r.band == 0,
            svf_wf(r),
    {
        Svf { low: 0, band: 0 }
    }

    /// Absorb one input sample under coefficients `f` (frequency) and `d`
    /// (damping) and return the low-pass output.
    pub fn step(&mut self, input: i64, f: i64, d: i64) -> (r: i64)
        requires
            svf_wf(*old(self)),
            -SCALE <= input <= SCALE,
            1 <= f <= SCALE,
            1 <= d <= 2 * SCALE,
        ensures
            *final(self) == svf_step(*old(self), input as int, f as int, d as int),
            r == svf_out(*old(self), input as int, f as int, d as int),
            svf_wf(*final(self)),
            -SCALE <= r <= SCALE,
    {
        proof {
            crate::fx::lemma_gain_bound(self.band as int, f as int);
            crate::fx::lemma_gain_bound(self.band as int, d as int);
        }
        let low1 = crate::fx::clamp_i64(
            self.low + crate::fx::dtz(self.band * f, SCALE),
            -SCALE,
            SCALE,
        );
        let high = input - low1 - crate::fx::dtz(self.band * d, SCALE);
        proof {
            crate::fx::lemma_gain_bound_units(high as int, 4, f as int);
        }
        let band1 = crate::fx::clamp_i64(
            self.band + crate::fx::dtz(high * f, SCALE),
            -SCALE,
            SCALE,
        );
        self.low = low1;
        self.band = band1;
        low1
    }
}

} // verus!
