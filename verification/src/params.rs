//! The shared control parameters: volume, cutoff frequency and resonance.
//!
//! The store holds the most recently written value of each parameter, in
//! Q16.16 fixed point: last write wins, reads never block, and no bounds are
//! enforced at this layer. Clamping happens downstream, where the signal
//! graph reads the store each sample (the `eff_*` functions), so no setting
//! can push the signal path out of its proven bounds while the stored value
//! stays exactly what was written.

use vstd::prelude::*;
use crate::fx::sclamp;

verus! {

/// Lowest effective volume: silence.
pub const VOL_MIN: i64 = 0;

/// Highest effective volume: unity gain.
pub const VOL_MAX: i64 = 65536;

/// Lowest effective cutoff: 1 Hz (the cutoff must stay positive).
pub const CUT_MIN: i64 = 65536;

/// Highest effective cutoff: 4000 Hz.
pub const CUT_MAX: i64 = 262144000;

/// Lowest effective resonance: 0.5.
pub const Q_MIN: i64 = 32768;

/// Highest effective resonance: 700.
pub const Q_MAX: i64 = 45875200;

/// Default volume: 1.0.
pub const VOL_DEFAULT: i64 = 65536;

/// Default cutoff: 1000 Hz.
pub const CUT_DEFAULT: i64 = 65536000;

/// Default resonance: 1.5.
pub const Q_DEFAULT: i64 = 98304;

/// The three live control parameters, stored exactly as written.
#[derive(Clone, Copy)]
pub struct ParameterStore {
    /// Output gain; the signal path reads it clamped into
    /// `[VOL_MIN, VOL_MAX]`.
    pub volume: i64,
    /// Low-pass cutoff in Q16.16 Hz; read clamped into
    /// `[CUT_MIN, CUT_MAX]`.
    pub cutoff: i64,
    /// Filter resonance (Q); read clamped into `[Q_MIN, Q_MAX]`.
    pub q: i64,
}

/// The volume the signal path acts on: the stored value clamped into its
/// documented range.
pub open spec fn eff_volume(s: ParameterStore) -> int {
    sclamp(s.volume as int, VOL_MIN as int, VOL_MAX as int)
}

/// The cutoff the signal path acts on.
pub open spec fn eff_cutoff(s: ParameterStore) -> int {
    sclamp(s.cutoff as int, CUT_MIN as int, CUT_MAX as int)
}

/// The resonance the signal path acts on.
pub open spec fn eff_q(s: ParameterStore) -> int {
    sclamp(s.q as int, Q_MIN as int, Q_MAX as int)
}

impl ParameterStore {
    /// Build a store from raw values, stored as given.
    pub fn with_values(volume: i64, cutoff: i64, q: i64) -> (r: ParameterStore)
        ensures
            r.volume == volume,
            r.cutoff == cutoff,
            r.q == q,
    {
        ParameterStore { volume, cutoff, q }
    }

    /// The default settings: unity volume, 1000 Hz cutoff, resonance 1.5.
    pub fn with_defaults() -> (r: ParameterStore)
        ensures
            r.volume == VOL_DEFAULT,
            r.cutoff == CUT_DEFAULT,
            r.q == Q_DEFAULT,
    {
        ParameterStore { volume: VOL_DEFAULT, cutoff: CUT_DEFAULT, q: Q_DEFAULT }
    }

    /// Write the volume; the value is stored as given.
    pub fn set_volume(&mut self, v: i64)
        ensures
            final(self).volume == v,
            final(self).cutoff == old(self).cutoff,
            final(self).q == old(self).q,
    {
        self.volume = v;
    }

    /// Write the cutoff; the value is stored as given.
    pub fn set_cutoff(&mut self, v: i64)
        ensures
            final(self).cutoff == v,
            final(self).volume == old(self).volume,
            final(self).q == old(self).q,
    {
        self.cutoff = v;
    }

    /// Write the resonance; the value is stored as given.
    pub fn set_q(&mut self, v: i64)
        ensures
            final(self).q == v,
            final(self).volume == old(self).volume,
            final(self).cutoff == old(self).cutoff,
    {
        self.q = v;
    }

    /// A read-only snapshot (volume, cutoff, resonance) of the most recently
    /// written values, for a persistence collaborator to poll.
    pub fn snapshot(&self) -> (r: (i64, i64, i64))
        ensures
            r.0 == self.volume,
            r.1 == self.cutoff,
            r.2 == self.q,
    {
        (self.volume, self.cutoff, self.q)
    }
}

} // verus!
