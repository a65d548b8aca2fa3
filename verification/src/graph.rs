//! One concrete signal-processing graph, bound to a sample rate.
//!
//! Per channel: noise source -> resonant low-pass -> gain, with the cutoff,
//! resonance and volume each read through a smoothing follower (100 ms time
//! constant), and a linear fade-in envelope applied once, over the first
//! four seconds after construction, so a freshly built instance starts from
//! silence. Left and right run independently seeded sources, so the stereo
//! image stays decorrelated.
//!
//! An instance is replaced wholesale on a mode change - never rewired in
//! place - by the crossfader that owns it.

use vstd::prelude::*;
use crate::fx::{SCALE, tdiv};
use crate::noise::{NoiseMode, Source, src_wf, src_init, src_step, src_out};
use crate::filter::{Svf, svf_wf, svf_step, svf_out, freq_coeff, damp_coeff};
use crate::smooth::{Smoothed, smooth_step};
use crate::params::ParameterStore;

verus! {

/// Lowest sample rate the engine accepts.
pub const RATE_MIN: i64 = 1000;

/// Highest sample rate the engine accepts.
pub const RATE_MAX: i64 = 1000000;

/// Seconds of fade-in applied to every freshly built instance.
pub const FADE_IN_SECONDS: i64 = 4;

/// The smoothing time constant in samples: 100 ms at the given rate.
pub open spec fn tau_of(rate: int) -> int {
    tdiv(rate, 10)
}

/// A smoothing follower after one sample: target rewritten to `t`, value
/// advanced one step toward it.
pub open spec fn smoothed_next(s: Smoothed, t: int, k: int) -> Smoothed {
    Smoothed { cur: smooth_step(s.cur as int, t, k) as i64, tgt: t as i64 }
}

/// One stereo graph instance.
#[derive(Clone, Copy)]
pub struct GraphInstance {
    /// The noise algorithm this instance runs.
    pub mode: NoiseMode,
    /// Left-channel noise source.
    pub src_l: Source,
    /// Right-channel noise source.
    pub src_r: Source,
    /// Left-channel filter.
    pub filt_l: Svf,
    /// Right-channel filter.
    pub filt_r: Svf,
    /// Smoothed volume, in `[0, SCALE]`.
    pub vol: Smoothed,
    /// Smoothed cutoff, in Q16.16 Hz.
    pub cut: Smoothed,
    /// Smoothed resonance.
    pub qres: Smoothed,
    /// Samples elapsed of the fade-in envelope, in `[0, fade_len]`.
    pub fade_pos: i64,
    /// Length of the fade-in envelope in samples.
    pub fade_len: i64,
    /// The sample rate this instance was built for.
    pub rate: i64,
}

/// Well-formedness: every stateful part inside its proven range.
pub open spec fn graph_wf(g: GraphInstance) -> bool {
    &&& src_wf(g.src_l)
    &&& src_wf(g.src_r)
    &&& svf_wf(g.filt_l)
    &&& svf_wf(g.filt_r)
    &&& 0 <= g.vol.cur <= SCALE
    &&& 0 <= g.vol.tgt <= SCALE
    &&& crate::params::CUT_MIN <= g.cut.cur <= crate::params::CUT_MAX
    &&& crate::params::CUT_MIN <= g.cut.tgt <= crate::params::CUT_MAX
    &&& crate::params::Q_MIN <= g.qres.cur <= crate::params::Q_MAX
    &&& crate::params::Q_MIN <= g.qres.tgt <= crate::params::Q_MAX
    &&& RATE_MIN <= g.rate <= RATE_MAX
    &&& g.fade_len == FADE_IN_SECONDS * g.rate
    &&& 0 <= g.fade_pos <= g.fade_len
}

/// A fresh instance: sources seeded, filters at rest, followers settled at
/// the store's current values, fade-in at its start.
pub open spec fn graph_init(
    mode: NoiseMode,
    rate: int,
    store: ParameterStore,
    seed_l: u64,
    seed_r: u64,
) -> GraphInstance {
    GraphInstance {
        mode,
        src_l: src_init(mode, seed_l),
        src_r: src_init(mode, seed_r),
        filt_l: Svf { low: 0, band: 0 },
        filt_r: Svf { low: 0, band: 0 },
        vol: Smoothed {
            cur: crate::params::eff_volume(store) as i64,
            tgt: crate::params::eff_volume(store) as i64,
        },
        cut: Smoothed {
            cur: crate::params::eff_cutoff(store) as i64,
            tgt: crate::params::eff_cutoff(store) as i64,
        },
        qres: Smoothed {
            cur: crate::params::eff_q(store) as i64,
            tgt: crate::params::eff_q(store) as i64,
        },
        fade_pos: 0,
        fade_len: (FADE_IN_SECONDS * rate) as i64,
        rate: rate as i64,
    }
}

/// The fade-in envelope weight for the instance's current position, in
/// `[0, SCALE]`.
pub open spec fn fade_in_weight(g: GraphInstance) -> int {
    if g.fade_pos >= g.fade_len {
        SCALE as int
    } else {
        tdiv(g.fade_pos * SCALE, g.fade_len as int)
    }
}

/// The instance after one sample: followers pulled toward the store's
/// values, sources and filters advanced once, the fade-in one sample
/// further along.
#[verifier::opaque]
pub open spec fn graph_step(g: GraphInstance, store: ParameterStore) -> GraphInstance {
    let k = tau_of(g.rate as int);
    let vol1 = smoothed_next(g.vol, crate::params::eff_volume(store), k);
    let cut1 = smoothed_next(g.cut, crate::params::eff_cutoff(store), k);
    let q1 = smoothed_next(g.qres, crate::params::eff_q(store), k);
    let f = freq_coeff(cut1.cur as int, g.rate as int);
    let d = damp_coeff(q1.cur as int);
    GraphInstance {
        mode: g.mode,
        src_l: src_step(g.src_l),
        src_r: src_step(g.src_r),
        filt_l: svf_step(g.filt_l, src_out(g.src_l), f, d),
        filt_r: svf_step(g.filt_r, src_out(g.src_r), f, d),
        vol: vol1,
        cut: cut1,
        qres: q1,
        fade_pos: if g.fade_pos < g.fade_len {
            (g.fade_pos + 1) as i64
        } else {
            g.fade_pos
        },
        fade_len: g.fade_len,
        rate: g.rate,
    }
}

/// The sample one channel emits during that step: filtered noise, scaled by
/// the smoothed volume, scaled by the fade-in envelope.
pub open spec fn graph_chan_out(
    src: Source,
    filt: Svf,
    vol_cur: int,
    f: int,
    d: int,
    w: int,
) -> int {
    let y = svf_out(filt, src_out(src), f, d);
    let gained = tdiv(y * vol_cur, SCALE as int);
    tdiv(gained * w, SCALE as int)
}

/// The left sample of one step.
#[verifier::opaque]
pub open spec fn graph_out_l(g: GraphInstance, store: ParameterStore) -> int {
    let k = tau_of(g.rate as int);
    let vol1 = smoothed_next(g.vol, crate::params::eff_volume(store), k);
    let cut1 = smoothed_next(g.cut, crate::params::eff_cutoff(store), k);
    let q1 = smoothed_next(g.qres, crate::params::eff_q(store), k);
    graph_chan_out(
        g.src_l,
        g.filt_l,
        vol1.cur as int,
        freq_coeff(cut1.cur as int, g.rate as int),
        damp_coeff(q1.cur as int),
        fade_in_weight(g),
    )
}

/// The right sample of one step.
#[verifier::opaque]
pub open spec fn graph_out_r(g: GraphInstance, store: ParameterStore) -> int {
    let k = tau_of(g.rate as int);
    let vol1 = smoothed_next(g.vol, crate::params::eff_volume(store), k);
    let cut1 = smoothed_next(g.cut, crate::params::eff_cutoff(store), k);
    let q1 = smoothed_next(g.qres, crate::params::eff_q(store), k);
    graph_chan_out(
        g.src_r,
        g.filt_r,
        vol1.cur as int,
        freq_coeff(cut1.cur as int, g.rate as int),
        damp_coeff(q1.cur as int),
        fade_in_weight(g),
    )
}

/// The smoothed volume after one step, used to bound that step's output.
pub open spec fn graph_vol_next(g: GraphInstance, store: ParameterStore) -> int {
    smooth_step(g.vol.cur as int, crate::params::eff_volume(store), tau_of(g.rate as int))
}

/// One channel's sample is bounded by the gain applied to it.
#[verifier::rlimit(50)]
pub proof fn lemma_chan_out_bound(src: Source, filt: Svf, vol_cur: int, f: int, d: int, w: int)
    requires
        src_wf(src),
        svf_wf(filt),
        0 <= vol_cur <= SCALE,
        1 <= f <= SCALE,
        1 <= d <= 2 * SCALE,
        0 <= w <= SCALE,
    ensures
        -vol_cur <= graph_chan_out(src, filt, vol_cur, f, d, w) <= vol_cur,
{
    crate::noise::lemma_src_out_ok(src);
    crate::filter::lemma_svf_step_ok(filt, src_out(src), f, d);
    let y = svf_out(filt, src_out(src), f, d);
    crate::fx::lemma_gain_bound(y, vol_cur);
    crate::fx::lemma_scale_by_env(tdiv(y * vol_cur, SCALE as int), vol_cur, w);
}

/// Facts every step enjoys: well-formedness is preserved, the fade-in weight
/// is a valid envelope value, and both samples are bounded by the smoothed
/// volume of the step (hence by full scale).
pub proof fn lemma_graph_step_ok(g: GraphInstance, store: ParameterStore)
    requires
        graph_wf(g),
    ensures
        graph_wf(graph_step(g, store)),
        0 <= fade_in_weight(g) <= SCALE,
        -graph_vol_next(g, store) <= graph_out_l(g, store) <= graph_vol_next(g, store),
        -graph_vol_next(g, store) <= graph_out_r(g, store) <= graph_vol_next(g, store),
        0 <= graph_vol_next(g, store) <= SCALE,
        graph_step(g, store).vol.cur == graph_vol_next(g, store),
        graph_step(g, store).mode == g.mode,
        graph_step(g, store).rate == g.rate,
{
    reveal(graph_step);
    reveal(graph_out_l);
    reveal(graph_out_r);
    let k = tau_of(g.rate as int);
    crate::fx::lemma_tdiv_toward_zero(g.rate as int, 10);
    assert(k >= 1) by {
        assert(g.rate as int / 10 >= 100) by (nonlinear_arith)
            requires
                g.rate >= 1000,
        ;
    }
    crate::smooth::lemma_smooth_step_between(g.vol.cur as int, crate::params::eff_volume(store), k);
    crate::smooth::lemma_smooth_step_between(g.cut.cur as int, crate::params::eff_cutoff(store), k);
    crate::smooth::lemma_smooth_step_between(g.qres.cur as int, crate::params::eff_q(store), k);
    crate::noise::lemma_src_step_ok(g.src_l);
    crate::noise::lemma_src_step_ok(g.src_r);
    let vol1 = smoothed_next(g.vol, crate::params::eff_volume(store), k);
    let cut1 = smoothed_next(g.cut, crate::params::eff_cutoff(store), k);
    let q1 = smoothed_next(g.qres, crate::params::eff_q(store), k);
    let f = freq_coeff(cut1.cur as int, g.rate as int);
    let d = damp_coeff(q1.cur as int);
    crate::filter::lemma_svf_step_ok(g.filt_l, src_out(g.src_l), f, d);
    crate::filter::lemma_svf_step_ok(g.filt_r, src_out(g.src_r), f, d);
    assert(0 <= fade_in_weight(g) <= SCALE) by {
        if g.fade_pos < g.fade_len {
            assert(0 <= g.fade_pos * SCALE <= g.fade_len * SCALE) by (nonlinear_arith)
                requires
                    0 <= g.fade_pos <= g.fade_len,
            ;
            crate::fx::lemma_tdiv_mag(g.fade_pos * SCALE, g.fade_len * SCALE, g.fade_len as int);
            assert((g.fade_len * SCALE) / (g.fade_len as int) == SCALE) by {
                vstd::arithmetic::div_mod::lemma_div_multiples_vanish(
                    SCALE as int,
                    g.fade_len as int,
                );
                assert(g.fade_len * SCALE == (g.fade_len as int) * (SCALE as int))
                    by (nonlinear_arith);
            }
            crate::fx::lemma_tdiv_toward_zero(g.fade_pos * SCALE, g.fade_len as int);
        }
    }
    lemma_chan_out_bound(g.src_l, g.filt_l, vol1.cur as int, f, d, fade_in_weight(g));
    lemma_chan_out_bound(g.src_r, g.filt_r, vol1.cur as int, f, d, fade_in_weight(g));
}

impl GraphInstance {
    /// Build an instance for `mode` at `rate`, settled at the store's
    /// current parameter values, its two channels independently seeded.
    pub fn fresh(
        mode: NoiseMode,
        rate: i64,
        store: &ParameterStore,
        seed_l: u64,
        seed_r: u64,
    ) -> (r: GraphInstance)
        requires
            RATE_MIN <= rate <= RATE_MAX,
        ensures
            r == graph_init(mode, rate as int, *store, seed_l, seed_r),
            graph_wf(r),
    {
        GraphInstance {
            mode,
            src_l: Source::for_mode(mode, seed_l),
            src_r: Source::for_mode(mode, seed_r),
            filt_l: Svf::at_rest(),
            filt_r: Svf::at_rest(),
            vol: Smoothed::with_value(
                crate::fx::clamp_i64(store.volume, crate::params::VOL_MIN, crate::params::VOL_MAX),
            ),
            cut: Smoothed::with_value(
                crate::fx::clamp_i64(store.cutoff, crate::params::CUT_MIN, crate::params::CUT_MAX),
            ),
            qres: Smoothed::with_value(
                crate::fx::clamp_i64(store.q, crate::params::Q_MIN, crate::params::Q_MAX),
            ),
            fade_pos: 0,
            fade_len: FADE_IN_SECONDS * rate,
            rate,
        }
    }

    /// Produce one stereo sample, advancing every internal part exactly
    /// once.
    pub fn next_stereo(&mut self, store: &ParameterStore) -> (r: (i64, i64))
        requires
            graph_wf(*old(self)),
        ensures
            *final(self) == graph_step(*old(self), *store),
            r.0 == graph_out_l(*old(self), *store),
            r.1 == graph_out_r(*old(self), *store),
            graph_wf(*final(self)),
            -SCALE <= r.0 <= SCALE,
            -SCALE <= r.1 <= SCALE,
    {
        proof {
            reveal(graph_step);
            reveal(graph_out_l);
            reveal(graph_out_r);
            lemma_graph_step_ok(*self, *store);
        }
        let k = crate::fx::dtz(self.rate, 10);
        proof {
            vstd::arithmetic::div_mod::lemma_div_is_ordered(1000, self.rate as int, 10);
            crate::smooth::lemma_smooth_step_between(
                self.vol.cur as int,
                crate::params::eff_volume(*store),
                k as int,
            );
            crate::smooth::lemma_smooth_step_between(
                self.cut.cur as int,
                crate::params::eff_cutoff(*store),
                k as int,
            );
            crate::smooth::lemma_smooth_step_between(
                self.qres.cur as int,
                crate::params::eff_q(*store),
                k as int,
            );
        }
        self.vol.set_target(
            crate::fx::clamp_i64(store.volume, crate::params::VOL_MIN, crate::params::VOL_MAX),
        );
        self.vol.step(k);
        self.cut.set_target(
            crate::fx::clamp_i64(store.cutoff, crate::params::CUT_MIN, crate::params::CUT_MAX),
        );
        self.cut.step(k);
        self.qres.set_target(
            crate::fx::clamp_i64(store.q, crate::params::Q_MIN, crate::params::Q_MAX),
        );
        self.qres.step(k);
        let f = crate::filter::freq_coeff_x(self.cut.cur, self.rate);
        let d = crate::filter::damp_coeff_x(self.qres.cur);
        let w = if self.fade_pos >= self.fade_len {
            SCALE
        } else {
            crate::fx::dtz(self.fade_pos * SCALE, self.fade_len)
        };
        let sl = self.src_l.next_sample();
        let sr = self.src_r.next_sample();
        let yl = self.filt_l.step(sl, f, d);
        let yr = self.filt_r.step(sr, f, d);
        proof {
            crate::fx::lemma_gain_bound(yl as int, self.vol.cur as int);
            crate::fx::lemma_gain_bound(yr as int, self.vol.cur as int);
        }
        let gl = crate::fx::dtz(yl * self.vol.cur, SCALE);
        let gr = crate::fx::dtz(yr * self.vol.cur, SCALE);
        proof {
            crate::fx::lemma_gain_bound(gl as int, w as int);
            crate::fx::lemma_gain_bound(gr as int, w as int);
        }
        let ol = crate::fx::dtz(gl * w, SCALE);
        let or_ = crate::fx::dtz(gr * w, SCALE);
        if self.fade_pos < self.fade_len {
            self.fade_pos = self.fade_pos + 1;
        }
        (ol, or_)
    }
}

} // verus!
