//! The complete synthesis engine: parameter store, crossfader and a
//! deterministic seed stream for new graph instances.
//!
//! The audio thread owns the engine. Once per output buffer it drains the
//! pending control messages (acting only on the most recent) and then pulls
//! one stereo sample per frame. Every step is a pure function of the
//! engine's state, so a fixed construction seed makes the output stream
//! bit-for-bit reproducible.

use vstd::prelude::*;
use crate::fx::SCALE;
use crate::noise::{NoiseMode, rng_next};
use crate::params::ParameterStore;
use crate::fade::{
    FadeState, fade_wf, fade_mode, fade_rate, fade_step, fade_out_l, fade_out_r, fade_request,
};
use crate::graph::{RATE_MIN, RATE_MAX};

verus! {

/// A request carried from the control thread to the audio thread.
#[derive(Clone, Copy, PartialEq, Eq, Structural, Debug)]
pub enum ControlMessage {
    /// Switch the noise algorithm (or mute, which is a mode of its own).
    SetMode(NoiseMode),
}

/// The full engine state.
#[derive(Clone, Copy)]
pub struct NoiseEngine {
    /// The live control parameters.
    pub store: ParameterStore,
    /// The crossfade state machine and its graph instances.
    pub fade: FadeState,
    /// The sample rate the engine was built for.
    pub rate: i64,
    /// The deterministic seed stream for freshly built instances.
    pub seeds: u64,
}

/// Well-formedness of the whole engine.
pub open spec fn engine_wf(e: NoiseEngine) -> bool {
    &&& fade_wf(e.fade)
    &&& RATE_MIN <= e.rate <= RATE_MAX
    &&& fade_rate(e.fade) == e.rate
}

/// The engine after a mode request: requesting the mode already headed for
/// changes nothing at all; otherwise two instance seeds are drawn from the
/// seed stream and the crossfader is asked to bring the new mode in.
pub open spec fn engine_request(e: NoiseEngine, mode: NoiseMode) -> NoiseEngine {
    if mode == fade_mode(e.fade) {
        e
    } else {
        let s1 = rng_next(e.seeds);
        let s2 = rng_next(s1 ^ crate::noise::RNG_SPLIT);
        NoiseEngine {
            fade: fade_request(e.fade, mode, e.store, s1, s2),
            seeds: rng_next(s1),
            ..e
        }
    }
}

/// The engine after producing one stereo sample.
pub open spec fn engine_step(e: NoiseEngine) -> NoiseEngine {
    NoiseEngine { fade: fade_step(e.fade, e.store), ..e }
}

/// The left sample the next step produces.
pub open spec fn engine_out_l(e: NoiseEngine) -> int {
    fade_out_l(e.fade, e.store)
}

/// The right sample the next step produces.
pub open spec fn engine_out_r(e: NoiseEngine) -> int {
    fade_out_r(e.fade, e.store)
}

/// The stereo samples of `n` consecutive steps.
pub open spec fn engine_run(e: NoiseEngine, n: nat) -> Seq<(int, int)>
    decreases n,
{
    if n == 0 {
        Seq::empty()
    } else {
        seq![(engine_out_l(e), engine_out_r(e))] + engine_run(engine_step(e), (n - 1) as nat)
    }
}

/// Every part of the engine is settled: no fade is running and each smoothed
/// parameter of the live instance sits exactly on the store's effective
/// (range-clamped) value.
pub open spec fn engine_steady(e: NoiseEngine) -> bool {
    match e.fade {
        FadeState::Idle { active } => {
            &&& active.vol.cur == crate::params::eff_volume(e.store)
            &&& active.cut.cur == crate::params::eff_cutoff(e.store)
            &&& active.qres.cur == crate::params::eff_q(e.store)
        },
        FadeState::Fading { .. } => false,
    }
}

/// In the steady state the output magnitude never exceeds the effective
/// volume: for every cutoff, resonance and volume inside their documented
/// ranges the effective value is the written one, so each emitted sample
/// lies in `[-volume, volume]` (full scale standing for `[-1, 1]`).
pub proof fn lemma_steady_output_bound(e: NoiseEngine)
    requires
        engine_wf(e),
        engine_steady(e),
    ensures
        -crate::params::eff_volume(e.store) <= engine_out_l(e) <= crate::params::eff_volume(
            e.store,
        ),
        -crate::params::eff_volume(e.store) <= engine_out_r(e) <= crate::params::eff_volume(
            e.store,
        ),
{
    match e.fade {
        FadeState::Idle { active } => {
            crate::graph::lemma_graph_step_ok(active, e.store);
            assert(crate::graph::graph_vol_next(active, e.store) == crate::params::eff_volume(
                e.store,
            ));
            crate::fade::lemma_fade_out_within(e.fade, e.store, crate::params::eff_volume(e.store));
        },
        FadeState::Fading { .. } => {
        },
    }
}

/// A settled engine stays settled from sample to sample (until a parameter
/// is rewritten or a mode is requested), so the steady-state output bound
/// holds of every sample it goes on to emit.
pub proof fn lemma_steady_persists(e: NoiseEngine)
    requires
        engine_wf(e),
        engine_steady(e),
    ensures
        engine_wf(engine_step(e)),
        engine_steady(engine_step(e)),
{
    crate::fade::lemma_fade_step_ok(e.fade, e.store);
    if e.fade is Idle {
        reveal(crate::graph::graph_step);
    }
}

/// Setting the mode that is already active (or already being faded in) is a
/// no-op: no crossfade starts, no state changes, not even the seed stream
/// advances.
pub proof fn lemma_set_mode_idempotent(e: NoiseEngine, mode: NoiseMode)
    requires
        mode == fade_mode(e.fade),
    ensures
        engine_request(e, mode) == e,
{
}

/// The output stream is a function of the engine state alone: two engines
/// built identically (same seed, rate and parameters) emit bit-for-bit the
/// same samples, however long they run. Together with the executable step's
/// contract, which pins each step to `engine_step`, this is the
/// reproducibility of the noise stream.
pub proof fn lemma_run_reproducible(a: NoiseEngine, b: NoiseEngine, n: nat)
    requires
        a == b,
    ensures
        engine_run(a, n) == engine_run(b, n),
{
}

impl NoiseEngine {
    /// Build an engine at `rate`, starting in `mode` with the given
    /// parameter values (stored as written; the signal path clamps them on
    /// read) and a seed for the deterministic noise stream.
    pub fn with_settings(
        rate: i64,
        mode: NoiseMode,
        volume: i64,
        cutoff: i64,
        q: i64,
        seed: u64,
    ) -> (r: NoiseEngine)
        requires
            RATE_MIN <= rate <= RATE_MAX,
        ensures
            engine_wf(r),
            r.rate == rate,
            fade_mode(r.fade) == mode,
            r.store.volume == volume,
            r.store.cutoff == cutoff,
            r.store.q == q,
            r.fade == (FadeState::Idle {
                active: crate::graph::graph_init(
                    mode,
                    rate as int,
                    r.store,
                    rng_next(seed),
                    rng_next(rng_next(seed) ^ crate::noise::RNG_SPLIT),
                ),
            }),
            r.seeds == rng_next(rng_next(seed)),
            engine_steady(r),
    {
        let store = ParameterStore::with_values(volume, cutoff, q);
        let s1 = seed.wrapping_mul(crate::noise::RNG_MUL).wrapping_add(crate::noise::RNG_INC);
        let s2 = (s1 ^ crate::noise::RNG_SPLIT).wrapping_mul(crate::noise::RNG_MUL).wrapping_add(
            crate::noise::RNG_INC,
        );
        let s3 = s1.wrapping_mul(crate::noise::RNG_MUL).wrapping_add(crate::noise::RNG_INC);
        let fade = FadeState::starting(mode, rate, &store, s1, s2);
        NoiseEngine { store, fade, rate, seeds: s3 }
    }

    /// Write the volume; the value is stored as given and the signal path
    /// reads it clamped into `[VOL_MIN, VOL_MAX]`.
    pub fn set_volume(&mut self, v: i64)
        ensures
            final(self).store.volume == v,
            final(self).store.cutoff == old(self).store.cutoff,
            final(self).store.q == old(self).store.q,
            final(self).fade == old(self).fade,
            final(self).rate == old(self).rate,
            final(self).seeds == old(self).seeds,
    {
        self.store.set_volume(v);
    }

    /// Write the cutoff; the value is stored as given and the signal path
    /// reads it clamped into `[CUT_MIN, CUT_MAX]`.
    pub fn set_cutoff(&mut self, v: i64)
        ensures
            final(self).store.cutoff == v,
            final(self).store.volume == old(self).store.volume,
            final(self).store.q == old(self).store.q,
            final(self).fade == old(self).fade,
            final(self).rate == old(self).rate,
            final(self).seeds == old(self).seeds,
    {
        self.store.set_cutoff(v);
    }

    /// Write the resonance; the value is stored as given and the signal path
    /// reads it clamped into `[Q_MIN, Q_MAX]`.
    pub fn set_q(&mut self, v: i64)
        ensures
            final(self).store.q == v,
            final(self).store.volume == old(self).store.volume,
            final(self).store.cutoff == old(self).store.cutoff,
            final(self).fade == old(self).fade,
            final(self).rate == old(self).rate,
            final(self).seeds == old(self).seeds,
    {
        self.store.set_q(v);
    }

    /// A snapshot (volume, cutoff, resonance) of the current parameter
    /// values, for the persistence collaborator to poll.
    pub fn params_snapshot(&self) -> (r: (i64, i64, i64))
        ensures
            r.0 == self.store.volume,
            r.1 == self.store.cutoff,
            r.2 == self.store.q,
    {
        self.store.snapshot()
    }

    /// The mode the engine is playing, or fading toward.
    pub fn current_mode(&self) -> (r: NoiseMode)
        ensures
            r == fade_mode(self.fade),
    {
        self.fade.mode()
    }

    /// Request a mode. The parameters are untouched; requesting the mode
    /// already in force changes nothing.
    pub fn set_mode(&mut self, mode: NoiseMode)
        requires
            engine_wf(*old(self)),
        ensures
            *final(self) == engine_request(*old(self), mode),
            engine_wf(*final(self)),
            fade_mode(final(self).fade) == mode,
            final(self).store == old(self).store,
            final(self).rate == old(self).rate,
    {
        proof {
            crate::fade::lemma_fade_request_ok(
                self.fade,
                mode,
                self.store,
                rng_next(self.seeds),
                rng_next(rng_next(self.seeds) ^ crate::noise::RNG_SPLIT),
            );
        }
        let m = self.fade.mode();
        if mode == m {
            return ;
        }
        let s1 = self.seeds.wrapping_mul(crate::noise::RNG_MUL).wrapping_add(
            crate::noise::RNG_INC,
        );
        let s2 = (s1 ^ crate::noise::RNG_SPLIT).wrapping_mul(crate::noise::RNG_MUL).wrapping_add(
            crate::noise::RNG_INC,
        );
        let s3 = s1.wrapping_mul(crate::noise::RNG_MUL).wrapping_add(crate::noise::RNG_INC);
        self.fade.request(mode, &self.store, s1, s2);
        self.seeds = s3;
    }

    /// Drain a buffer's worth of pending control messages: consume them all
    /// and act only on the most recent, so rapid input cannot queue up
    /// fades.
    pub fn drain_messages(&mut self, msgs: &Vec<ControlMessage>)
        requires
            engine_wf(*old(self)),
        ensures
            engine_wf(*final(self)),
            msgs@.len() == 0 ==> *final(self) == *old(self),
            msgs@.len() > 0 ==> *final(self) == engine_request(
                *old(self),
                msgs@.last()->SetMode_0,
            ),
    {
        if msgs.len() > 0 {
            let last = msgs[msgs.len() - 1];
            match last {
                ControlMessage::SetMode(m) => self.set_mode(m),
            }
        }
    }

    /// Produce one stereo sample, advancing the whole engine exactly once.
    pub fn next_stereo_sample(&mut self) -> (r: (i64, i64))
        requires
            engine_wf(*old(self)),
        ensures
            *final(self) == engine_step(*old(self)),
            r.0 == engine_out_l(*old(self)),
            r.1 == engine_out_r(*old(self)),
            engine_wf(*final(self)),
            -SCALE <= r.0 <= SCALE,
            -SCALE <= r.1 <= SCALE,
    {
        proof {
            crate::fade::lemma_fade_step_ok(self.fade, self.store);
        }
        self.fade.next_stereo(&self.store)
    }
}

} // verus!
