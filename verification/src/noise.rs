//! Noise sources: a deterministic pseudo-random generator and the brown,
//! white and pink variants built on it, plus the silent source used while
//! muted.
//!
//! Every source is a pure function of its own state, so a fixed seed gives a
//! bit-for-bit reproducible sample stream at any sample rate.

use vstd::prelude::*;
use crate::fx::{SCALE, tdiv, sclamp};

verus! {

/// Multiplier of the linear-congruential state update.
pub const RNG_MUL: u64 = 6364136223846793005;

/// Increment of the linear-congruential state update.
pub const RNG_INC: u64 = 1442695040888963407;

/// Mixed into the right channel's seed so the two channels run unrelated
/// generator sequences; without it the right stream would merely trail the
/// left by one sample.
pub const RNG_SPLIT: u64 = 11400714819323198485;

/// The next generator state.
pub open spec fn rng_next(s: u64) -> u64 {
    s.wrapping_mul(RNG_MUL).wrapping_add(RNG_INC)
}

/// The white-noise sample drawn when stepping a generator in state `s`: the
/// top 17 bits of the successor state, centered, so it lies in
/// `[-SCALE, SCALE - 1]`.
pub open spec fn white_of(s: u64) -> int {
    (rng_next(s) >> 47) - 65536
}

/// A 17-bit right residue of a 64-bit shift stays below 2^17.
proof fn lemma_shift47_bound(x: u64)
    ensures
        x >> 47 < 131072,
{
    assert(x >> 47 < 131072) by (bit_vector);
}

/// The white-noise value is a centered 17-bit sample.
pub proof fn lemma_white_range(s: u64)
    ensures
        -SCALE <= white_of(s) < SCALE,
{
    lemma_shift47_bound(rng_next(s));
}

/// Deterministic pseudo-random generator (a 64-bit linear-congruential
/// sequence); the sole source of randomness in the engine.
#[derive(Clone, Copy)]
pub struct NoiseRng {
    /// Current generator state.
    pub state: u64,
}

impl NoiseRng {
    /// A generator starting from `seed`.
    pub fn seeded(seed: u64) -> (r: NoiseRng)
        ensures
            r.state == seed,
    {
        NoiseRng { state: seed }
    }

    /// Advance and return one white-noise sample.
    pub fn next_white(&mut self) -> (r: i64)
        ensures
            final(self).state == rng_next(old(self).state),
            r == white_of(old(self).state),
            -SCALE <= r < SCALE,
    {
        self.state = self.state.wrapping_mul(RNG_MUL).wrapping_add(RNG_INC);
        proof {
            lemma_shift47_bound(self.state);
        }
        let top: u64 = self.state >> 47;
        (top as i64) - 65536
    }
}

/// The closed set of noise algorithms the engine can run.
#[derive(Clone, Copy, PartialEq, Eq, Structural, Debug)]
pub enum NoiseMode {
    /// Integrated (leaky) white noise, -6 dB per octave.
    Brown,
    /// Independent identically distributed samples, flat spectrum.
    White,
    /// White noise shaped toward a 1/f spectrum, -3 dB per octave.
    Pink,
    /// Silence that still runs through the crossfade path.
    Muted,
}

impl Default for NoiseMode {
    /// The engine starts in brown noise.
    fn default() -> (r: NoiseMode)
        ensures
            r == NoiseMode::Brown,
    {
        NoiseMode::Brown
    }
}

impl NoiseMode {
    /// The display name of the mode.
    pub fn label(&self) -> (r: &'static str)
        ensures
            *self == NoiseMode::Brown ==> r@ == "Brown"@,
            *self == NoiseMode::White ==> r@ == "White"@,
            *self == NoiseMode::Pink ==> r@ == "Pink"@,
            *self == NoiseMode::Muted ==> r@ == "Muted"@,
    {
        match self {
            NoiseMode::Brown => "Brown",
            NoiseMode::White => "White",
            NoiseMode::Pink => "Pink",
            NoiseMode::Muted => "Muted",
        }
    }
}

/// The stateful signal source of one audio channel.
#[derive(Clone, Copy)]
pub enum Source {
    /// Leaky integrator over white noise, kept inside `[-SCALE, SCALE]`.
    Brown { rng: NoiseRng, acc: i64 },
    /// Raw white noise.
    White { rng: NoiseRng },
    /// Three one-pole followers at staggered rates, averaged with the raw
    /// sample.
    Pink { rng: NoiseRng, p1: i64, p2: i64, p3: i64 },
    /// Constant zero.
    Muted,
}

/// Internal source state stays within one full-scale unit.
pub open spec fn src_wf(s: Source) -> bool {
    match s {
        Source::Brown { acc, .. } => -SCALE <= acc <= SCALE,
        Source::White { .. } => true,
        Source::Pink { p1, p2, p3, .. } => -SCALE <= p1 <= SCALE && -SCALE <= p2 <= SCALE
            && -SCALE <= p3 <= SCALE,
        Source::Muted => true,
    }
}

/// The source a fresh graph instance starts from: filters at rest, the
/// generator at `seed`.
pub open spec fn src_init(mode: NoiseMode, seed: u64) -> Source {
    match mode {
        NoiseMode::Brown => Source::Brown { rng: NoiseRng { state: seed }, acc: 0 },
        NoiseMode::White => Source::White { rng: NoiseRng { state: seed } },
        NoiseMode::Pink => Source::Pink { rng: NoiseRng { state: seed }, p1: 0, p2: 0, p3: 0 },
        NoiseMode::Muted => Source::Muted,
    }
}

/// The state after producing one sample.
pub open spec fn src_step(s: Source) -> Source {
    match s {
        Source::Brown { rng, acc } => {
            let w = white_of(rng.state);
            Source::Brown {
                rng: NoiseRng { state: rng_next(rng.state) },
                acc: sclamp(acc - tdiv(acc as int, 64) + tdiv(w, 64), -SCALE as int, SCALE as int)
                    as i64,
            }
        },
        Source::White { rng } => Source::White { rng: NoiseRng { state: rng_next(rng.state) } },
        Source::Pink { rng, p1, p2, p3 } => {
            let w = white_of(rng.state);
            Source::Pink {
                rng: NoiseRng { state: rng_next(rng.state) },
                p1: (p1 + tdiv(w - p1, 4)) as i64,
                p2: (p2 + tdiv(w - p2, 16)) as i64,
                p3: (p3 + tdiv(w - p3, 64)) as i64,
            }
        },
        Source::Muted => Source::Muted,
    }
}

/// The sample produced while stepping out of state `s`.
pub open spec fn src_out(s: Source) -> int {
    match s {
        Source::Brown { rng, acc } => {
            let w = white_of(rng.state);
            sclamp(acc - tdiv(acc as int, 64) + tdiv(w, 64), -SCALE as int, SCALE as int)
        },
        Source::White { rng } => white_of(rng.state),
        Source::Pink { rng, p1, p2, p3 } => {
            let w = white_of(rng.state);
            let q1 = p1 + tdiv(w - p1, 4);
            let q2 = p2 + tdiv(w - p2, 16);
            let q3 = p3 + tdiv(w - p3, 64);
            tdiv(q1 + q2 + q3 + w, 4)
        },
        Source::Muted => 0,
    }
}

/// A well-formed source steps to a well-formed source and its sample is a
/// full-scale-bounded value.
pub proof fn lemma_src_step_ok(s: Source)
    requires
        src_wf(s),
    ensures
        src_wf(src_step(s)),
        -SCALE <= src_out(src_step(s)) <= SCALE,
        -SCALE <= src_out(s) <= SCALE,
{
    lemma_src_out_ok(s);
    match s {
        Source::Pink { rng, p1, p2, p3 } => {
            let w = white_of(rng.state);
            lemma_white_range(rng.state);
            crate::fx::lemma_tdiv_toward_zero(w - p1, 4);
            crate::fx::lemma_tdiv_toward_zero(w - p2, 16);
            crate::fx::lemma_tdiv_toward_zero(w - p3, 64);
            lemma_src_out_ok(src_step(s));
        },
        Source::Muted => {
        },
        _ => {
            lemma_src_out_ok(src_step(s));
        },
    }
}

/// The sample out of a well-formed source stays within one full-scale unit.
pub proof fn lemma_src_out_ok(s: Source)
    requires
        src_wf(s),
    ensures
        -SCALE <= src_out(s) <= SCALE,
{
    match s {
        Source::White { rng } => {
            lemma_white_range(rng.state);
        },
        Source::Pink { rng, p1, p2, p3 } => {
            let w = white_of(rng.state);
            lemma_white_range(rng.state);
            crate::fx::lemma_tdiv_toward_zero(w - p1, 4);
            crate::fx::lemma_tdiv_toward_zero(w - p2, 16);
            crate::fx::lemma_tdiv_toward_zero(w - p3, 64);
            let q1 = p1 + tdiv(w - p1, 4);
            let q2 = p2 + tdiv(w - p2, 16);
            let q3 = p3 + tdiv(w - p3, 64);
            assert(-4 * SCALE <= q1 + q2 + q3 + w <= 4 * SCALE);
            crate::fx::lemma_tdiv_mag(q1 + q2 + q3 + w, 4 * SCALE as int, 4);
            assert((4 * SCALE as int) / 4 == SCALE as int) by {
                vstd::arithmetic::div_mod::lemma_div_multiples_vanish(SCALE as int, 4);
            }
        },
        _ => {
        },
    }
}

impl Source {
    /// Build the source for `mode`, its generator seeded with `seed`.
    pub fn for_mode(mode: NoiseMode, seed: u64) -> (r: Source)
        ensures
            r == src_init(mode, seed),
            src_wf(r),
    {
        match mode {
            NoiseMode::Brown => Source::Brown { rng: NoiseRng::seeded(seed), acc: 0 },
            NoiseMode::White => Source::White { rng: NoiseRng::seeded(seed) },
            NoiseMode::Pink => Source::Pink {
                rng: NoiseRng::seeded(seed),
                p1: 0,
                p2: 0,
                p3: 0,
            },
            NoiseMode::Muted => Source::Muted,
        }
    }

    /// Advance one sample and return it.
    pub fn next_sample(&mut self) -> (r: i64)
        requires
            src_wf(*old(self)),
        ensures
            *final(self) == src_step(*old(self)),
            r == src_out(*old(self)),
            src_wf(*final(self)),
            -SCALE <= r <= SCALE,
    {
        proof {
            lemma_src_step_ok(*self);
        }
        let cur = *self;
        match cur {
            Source::Brown { mut rng, acc } => {
                let w = rng.next_white();
                proof {
                    crate::fx::lemma_tdiv_toward_zero(acc as int, 64);
                    crate::fx::lemma_tdiv_toward_zero(w as int, 64);
                }
                let leaked = acc - crate::fx::dtz(acc, 64) + crate::fx::dtz(w, 64);
                let v = crate::fx::clamp_i64(leaked, -SCALE, SCALE);
                *self = Source::Brown { rng, acc: v };
                v
            },
            Source::White { mut rng } => {
                let w = rng.next_white();
                *self = Source::White { rng };
                w
            },
            Source::Pink { mut rng, p1, p2, p3 } => {
                let w = rng.next_white();
                proof {
                    crate::fx::lemma_tdiv_toward_zero(w - p1, 4);
                    crate::fx::lemma_tdiv_toward_zero(w - p2, 16);
                    crate::fx::lemma_tdiv_toward_zero(w - p3, 64);
                }
                let q1 = p1 + crate::fx::dtz(w - p1, 4);
                let q2 = p2 + crate::fx::dtz(w - p2, 16);
                let q3 = p3 + crate::fx::dtz(w - p3, 64);
                *self = Source::Pink { rng, p1: q1, p2: q2, p3: q3 };
                crate::fx::dtz(q1 + q2 + q3 + w, 4)
            },
            Source::Muted => 0,
        }
    }
}

} // verus!
