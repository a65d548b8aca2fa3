//! Glitch-free replacement of the running signal graph.
//!
//! The crossfader is either `Idle`, driving a single instance, or `Fading`,
//! blending an outgoing source and an incoming instance over a fixed
//! one-second window with complementary linear weights. The very first
//! blended sample equals the sample the outgoing source would have produced
//! alone, so a mode switch introduces no discontinuity of its own.
//!
//! A request that arrives while a fade is already running restarts the fade:
//! the current blended output becomes the new outgoing source - the live
//! members keep playing at the mix weights they had reached, frozen - and a
//! freshly constructed instance becomes incoming, with the fade clock reset.
//! At every instant at most one outgoing/incoming pair is live, the outgoing
//! side holding at most the two members of the frozen mix: when a restart
//! finds the outgoing side already a pair, its lighter member is dropped, so
//! the fade chain never nests deeper.

use vstd::prelude::*;
use crate::fx::{SCALE, tdiv};
use crate::noise::NoiseMode;
use crate::graph::{
    GraphInstance, graph_wf, graph_step, graph_out_l, graph_out_r, graph_init,
};
use crate::params::ParameterStore;

verus! {

/// The crossfade state machine: one live instance, or a fading pair whose
/// outgoing side is a frozen mix of at most two members.
#[derive(Clone, Copy)]
pub enum FadeState {
    /// A single active instance.
    Idle {
        /// The instance driving the output.
        active: GraphInstance,
    },
    /// An outgoing mix and an incoming instance being blended.
    Fading {
        /// First member of the outgoing mix.
        out_a: GraphInstance,
        /// Its weight within the mix, in `[0, SCALE]`.
        out_aw: i64,
        /// Second member of the outgoing mix, present after a mid-fade
        /// restart froze the then-current blend.
        out_b: Option<GraphInstance>,
        /// Its weight within the mix; zero when absent.
        out_bw: i64,
        /// The instance fading in.
        incoming: GraphInstance,
        /// Samples of this fade already played, in `[0, duration)`.
        elapsed: i64,
        /// Length of the fade in samples (one second at the engine's rate).
        duration: i64,
    },
}

/// The sample a mix member contributes this step; an absent member is
/// silent.
pub open spec fn opt_out_l(ob: Option<GraphInstance>, store: ParameterStore) -> int {
    match ob {
        Option::Some(g) => graph_out_l(g, store),
        Option::None => 0,
    }
}

/// The right-channel sample a mix member contributes this step.
pub open spec fn opt_out_r(ob: Option<GraphInstance>, store: ParameterStore) -> int {
    match ob {
        Option::Some(g) => graph_out_r(g, store),
        Option::None => 0,
    }
}

/// A mix member after one sample.
pub open spec fn opt_step(ob: Option<GraphInstance>, store: ParameterStore) -> Option<
    GraphInstance,
> {
    match ob {
        Option::Some(g) => Option::Some(graph_step(g, store)),
        Option::None => Option::None,
    }
}

/// Well-formedness of the state machine.
pub open spec fn fade_wf(fs: FadeState) -> bool {
    match fs {
        FadeState::Idle { active } => graph_wf(active),
        FadeState::Fading { out_a, out_aw, out_b, out_bw, incoming, elapsed, duration } => {
            &&& graph_wf(out_a)
            &&& graph_wf(incoming)
            &&& out_a.rate == incoming.rate
            &&& (out_b is Some ==> graph_wf(out_b->0) && out_b->0.rate == incoming.rate)
            &&& (out_b is None ==> out_bw == 0)
            &&& duration == incoming.rate
            &&& 0 <= elapsed < duration
            &&& 0 <= out_aw
            &&& 0 <= out_bw
            &&& out_aw + out_bw <= SCALE
        },
    }
}

/// The mode the listener is headed for: the sole instance's when idle, the
/// incoming instance's while fading.
pub open spec fn fade_mode(fs: FadeState) -> NoiseMode {
    match fs {
        FadeState::Idle { active } => active.mode,
        FadeState::Fading { incoming, .. } => incoming.mode,
    }
}

/// The sample rate the machine runs at.
pub open spec fn fade_rate(fs: FadeState) -> int {
    match fs {
        FadeState::Idle { active } => active.rate as int,
        FadeState::Fading { incoming, .. } => incoming.rate as int,
    }
}

/// The outgoing envelope weight at `e` samples into a fade: linear from full
/// scale down to zero.
pub open spec fn fade_w_out(e: int, dur: int) -> int {
    tdiv(SCALE * (dur - e), dur)
}

/// The incoming envelope weight at `e` samples into a fade: linear from zero
/// up to full scale.
pub open spec fn fade_w_in(e: int, dur: int) -> int {
    tdiv(e * SCALE, dur)
}

/// The left sample of the outgoing mix this step.
pub open spec fn fade_mix_l(
    out_a: GraphInstance,
    out_aw: int,
    out_b: Option<GraphInstance>,
    out_bw: int,
    store: ParameterStore,
) -> int {
    tdiv(graph_out_l(out_a, store) * out_aw + opt_out_l(out_b, store) * out_bw, SCALE as int)
}

/// The right sample of the outgoing mix this step.
pub open spec fn fade_mix_r(
    out_a: GraphInstance,
    out_aw: int,
    out_b: Option<GraphInstance>,
    out_bw: int,
    store: ParameterStore,
) -> int {
    tdiv(graph_out_r(out_a, store) * out_aw + opt_out_r(out_b, store) * out_bw, SCALE as int)
}

/// The state after one stereo sample.
pub open spec fn fade_step(fs: FadeState, store: ParameterStore) -> FadeState {
    match fs {
        FadeState::Idle { active } => FadeState::Idle { active: graph_step(active, store) },
        FadeState::Fading { out_a, out_aw, out_b, out_bw, incoming, elapsed, duration } => {
            if elapsed + 1 >= duration {
                FadeState::Idle { active: graph_step(incoming, store) }
            } else {
                FadeState::Fading {
                    out_a: graph_step(out_a, store),
                    out_aw,
                    out_b: opt_step(out_b, store),
                    out_bw,
                    incoming: graph_step(incoming, store),
                    elapsed: (elapsed + 1) as i64,
                    duration,
                }
            }
        },
    }
}

/// The left sample of one step: the active instance's sample when idle, the
/// envelope-weighted blend of the outgoing mix and the incoming instance
/// while fading.
pub open spec fn fade_out_l(fs: FadeState, store: ParameterStore) -> int {
    match fs {
        FadeState::Idle { active } => graph_out_l(active, store),
        FadeState::Fading { out_a, out_aw, out_b, out_bw, incoming, elapsed, duration } => {
            let wo = fade_w_out(elapsed as int, duration as int);
            let wi = fade_w_in(elapsed as int, duration as int);
            let m = fade_mix_l(out_a, out_aw as int, out_b, out_bw as int, store);
            tdiv(m * wo + graph_out_l(incoming, store) * wi, SCALE as int)
        },
    }
}

/// The right sample of one step.
pub open spec fn fade_out_r(fs: FadeState, store: ParameterStore) -> int {
    match fs {
        FadeState::Idle { active } => graph_out_r(active, store),
        FadeState::Fading { out_a, out_aw, out_b, out_bw, incoming, elapsed, duration } => {
            let wo = fade_w_out(elapsed as int, duration as int);
            let wi = fade_w_in(elapsed as int, duration as int);
            let m = fade_mix_r(out_a, out_aw as int, out_b, out_bw as int, store);
            tdiv(m * wo + graph_out_r(incoming, store) * wi, SCALE as int)
        },
    }
}

/// The state after a mode request. Requesting the mode already headed for
/// changes nothing. From idle, a one-second fade starts, the active instance
/// leaving from full weight. Mid-fade, the fade restarts: the current
/// blended output becomes the new outgoing source - each live member frozen
/// at the effective weight it had this instant - and a fresh instance fades
/// in from zero. When the outgoing side was already a pair, its lighter
/// member is dropped so the mix never grows beyond two.
pub open spec fn fade_request(
    fs: FadeState,
    mode: NoiseMode,
    store: ParameterStore,
    seed_l: u64,
    seed_r: u64,
) -> FadeState {
    if mode == fade_mode(fs) {
        fs
    } else {
        match fs {
            FadeState::Idle { active } => FadeState::Fading {
                out_a: active,
                out_aw: SCALE,
                out_b: Option::None,
                out_bw: 0,
                incoming: graph_init(mode, active.rate as int, store, seed_l, seed_r),
                elapsed: 0,
                duration: active.rate,
            },
            FadeState::Fading { out_a, out_aw, out_b, out_bw, incoming, elapsed, duration } => {
                let wo = fade_w_out(elapsed as int, duration as int);
                let wi = fade_w_in(elapsed as int, duration as int);
                let aw2 = tdiv(out_aw * wo, SCALE as int);
                let bw2 = tdiv(out_bw * wo, SCALE as int);
                let kept = if out_b is Some && bw2 > aw2 {
                    out_b->0
                } else {
                    out_a
                };
                let kept_w = if out_b is Some && bw2 > aw2 {
                    bw2
                } else {
                    aw2
                };
                FadeState::Fading {
                    out_a: kept,
                    out_aw: kept_w as i64,
                    out_b: Option::Some(incoming),
                    out_bw: wi as i64,
                    incoming: graph_init(mode, incoming.rate as int, store, seed_l, seed_r),
                    elapsed: 0,
                    duration: incoming.rate,
                }
            },
        }
    }
}

/// Both envelope weights are valid and sum to at most full scale.
pub proof fn lemma_fade_weights_ok(e: int, dur: int)
    requires
        0 <= e < dur,
    ensures
        0 <= fade_w_out(e, dur) <= SCALE,
        0 <= fade_w_in(e, dur) <= SCALE,
        fade_w_out(e, dur) + fade_w_in(e, dur) <= SCALE,
{
    let wo = fade_w_out(e, dur);
    let wi = fade_w_in(e, dur);
    assert(0 <= SCALE * (dur - e) <= SCALE * dur) by (nonlinear_arith)
        requires
            0 <= e < dur,
    ;
    crate::fx::lemma_tdiv_mag(SCALE * (dur - e), SCALE * dur, dur);
    assert((SCALE * dur) / dur == SCALE as int) by {
        vstd::arithmetic::mul::lemma_mul_is_commutative(SCALE as int, dur);
        vstd::arithmetic::div_mod::lemma_div_multiples_vanish(SCALE as int, dur);
    }
    assert(0 <= e * SCALE <= dur * SCALE) by (nonlinear_arith)
        requires
            0 <= e <= dur,
    ;
    crate::fx::lemma_tdiv_mag(e * SCALE, dur * SCALE, dur);
    assert((dur * SCALE) / dur == SCALE as int) by {
        vstd::arithmetic::mul::lemma_mul_is_commutative(SCALE as int, dur);
        vstd::arithmetic::div_mod::lemma_div_multiples_vanish(SCALE as int, dur);
    }
    crate::fx::lemma_div_sum_le(SCALE * (dur - e), e * SCALE, dur);
    assert(SCALE * (dur - e) + e * SCALE == dur * SCALE) by (nonlinear_arith);
    crate::fx::lemma_tdiv_toward_zero(SCALE * (dur - e), dur);
    crate::fx::lemma_tdiv_toward_zero(e * SCALE, dur);
}

/// The outgoing mix is bounded by any bound on its members, its weights
/// summing to at most full scale.
pub proof fn lemma_fade_mix_bound(
    out_a: GraphInstance,
    out_aw: int,
    out_b: Option<GraphInstance>,
    out_bw: int,
    store: ParameterStore,
    b: int,
)
    requires
        0 <= b,
        -b <= graph_out_l(out_a, store) <= b,
        -b <= graph_out_r(out_a, store) <= b,
        -b <= opt_out_l(out_b, store) <= b,
        -b <= opt_out_r(out_b, store) <= b,
        0 <= out_aw,
        0 <= out_bw,
        out_aw + out_bw <= SCALE,
    ensures
        -b <= fade_mix_l(out_a, out_aw, out_b, out_bw, store) <= b,
        -b <= fade_mix_r(out_a, out_aw, out_b, out_bw, store) <= b,
{
    crate::fx::lemma_blend_bound(
        graph_out_l(out_a, store),
        opt_out_l(out_b, store),
        out_aw,
        out_bw,
        b,
    );
    crate::fx::lemma_blend_bound(
        graph_out_r(out_a, store),
        opt_out_r(out_b, store),
        out_aw,
        out_bw,
        b,
    );
}

/// Each envelope weight moves by at most `SCALE / duration + 1` per sample,
/// the outgoing one downward and the incoming one upward.
pub proof fn lemma_fade_weight_step(e: int, dur: int)
    requires
        0 <= e,
        e + 1 < dur,
    ensures
        0 <= fade_w_out(e, dur) - fade_w_out(e + 1, dur) <= (SCALE as int) / dur + 1,
        0 <= fade_w_in(e + 1, dur) - fade_w_in(e, dur) <= (SCALE as int) / dur + 1,
{
    assert(SCALE * (dur - (e + 1)) == SCALE * (dur - e) - SCALE) by (nonlinear_arith);
    assert(0 <= SCALE * (dur - (e + 1)) && SCALE <= SCALE * (dur - e)) by (nonlinear_arith)
        requires
            e + 1 < dur,
            0 <= e,
    ;
    crate::fx::lemma_div_diff_bound(SCALE * (dur - e), SCALE as int, dur);
    assert((e + 1) * SCALE == e * SCALE + SCALE) by (nonlinear_arith);
    assert(0 <= e * SCALE) by (nonlinear_arith)
        requires
            0 <= e,
    ;
    crate::fx::lemma_div_diff_bound((e + 1) * SCALE, SCALE as int, dur);
}

/// The click-free property of the crossfade window: between one blended
/// sample and the next, the output changes by no more than the sources'
/// own sample-to-sample changes plus a fixed small bound
/// `2 * SCALE / duration + 4` (six fixed-point units, about 0.0001 of full
/// scale, at a one-second fade and 44100 Hz).
pub proof fn lemma_fade_blend_difference(x1: int, y1: int, x2: int, y2: int, e: int, dur: int)
    requires
        -SCALE <= x1 <= SCALE,
        -SCALE <= x2 <= SCALE,
        -SCALE <= y1 <= SCALE,
        -SCALE <= y2 <= SCALE,
        0 <= e,
        e + 1 < dur,
    ensures
        ({
            let b1 = tdiv(x1 * fade_w_out(e, dur) + y1 * fade_w_in(e, dur), SCALE as int);
            let b2 = tdiv(x2 * fade_w_out(e + 1, dur) + y2 * fade_w_in(e + 1, dur), SCALE as int);
            let eps = 2 * ((SCALE as int) / dur) + 4;
            -(vstd::math::abs(x2 - x1) + vstd::math::abs(y2 - y1) + eps) <= b2 - b1
                && b2 - b1 <= vstd::math::abs(x2 - x1) + vstd::math::abs(y2 - y1) + eps
        }),
{
    lemma_fade_weights_ok(e, dur);
    lemma_fade_weights_ok(e + 1, dur);
    lemma_fade_weight_step(e, dur);
    lemma_blend_step_difference(
        x1,
        y1,
        x2,
        y2,
        fade_w_out(e, dur),
        fade_w_in(e, dur),
        fade_w_out(e + 1, dur),
        fade_w_in(e + 1, dur),
        (SCALE as int) / dur + 1,
    );
}

/// The click-free property on the output stream itself: while a fade is
/// running, one output sample differs from the next by no more than the live
/// sources' own sample-to-sample changes plus a fixed small bound. The
/// crossfade machinery itself can never produce a click; only the noise
/// signals' own variation passes through.
pub proof fn lemma_fade_output_difference(fs: FadeState, store: ParameterStore)
    requires
        fade_wf(fs),
        fs is Fading,
        fs->elapsed + 1 < fs->duration,
    ensures
        ({
            let m1 = fade_mix_l(fs->out_a, fs->out_aw as int, fs->out_b, fs->out_bw as int, store);
            let m2 = fade_mix_l(
                graph_step(fs->out_a, store),
                fs->out_aw as int,
                opt_step(fs->out_b, store),
                fs->out_bw as int,
                store,
            );
            let dinc = vstd::math::abs(
                graph_out_l(graph_step(fs->incoming, store), store) - graph_out_l(
                    fs->incoming,
                    store,
                ),
            );
            let eps = 2 * ((SCALE as int) / (fs->duration as int)) + 4;
            -(vstd::math::abs(m2 - m1) + dinc + eps) <= fade_out_l(fade_step(fs, store), store)
                - fade_out_l(fs, store) && fade_out_l(fade_step(fs, store), store) - fade_out_l(
                fs,
                store,
            ) <= vstd::math::abs(m2 - m1) + dinc + eps
        }),
        ({
            let m1 = fade_mix_l(fs->out_a, fs->out_aw as int, fs->out_b, fs->out_bw as int, store);
            let m2 = fade_mix_l(
                graph_step(fs->out_a, store),
                fs->out_aw as int,
                opt_step(fs->out_b, store),
                fs->out_bw as int,
                store,
            );
            let da = vstd::math::abs(
                graph_out_l(graph_step(fs->out_a, store), store) - graph_out_l(fs->out_a, store),
            );
            let db = vstd::math::abs(
                opt_out_l(opt_step(fs->out_b, store), store) - opt_out_l(fs->out_b, store),
            );
            vstd::math::abs(m2 - m1) <= da + db + 2
        }),
{
    let a = fs->out_a;
    let ob = fs->out_b;
    let ic = fs->incoming;
    let aw = fs->out_aw as int;
    let bw = fs->out_bw as int;
    let e = fs->elapsed as int;
    let dur = fs->duration as int;
    crate::graph::lemma_graph_step_ok(a, store);
    crate::graph::lemma_graph_step_ok(graph_step(a, store), store);
    crate::graph::lemma_graph_step_ok(ic, store);
    crate::graph::lemma_graph_step_ok(graph_step(ic, store), store);
    if let Option::Some(g) = ob {
        crate::graph::lemma_graph_step_ok(g, store);
        crate::graph::lemma_graph_step_ok(graph_step(g, store), store);
    }
    // The mix weights are frozen, so the mix moves only with its members.
    lemma_blend_step_difference(
        graph_out_l(a, store),
        opt_out_l(ob, store),
        graph_out_l(graph_step(a, store), store),
        opt_out_l(opt_step(ob, store), store),
        aw,
        bw,
        aw,
        bw,
        0,
    );
    let m1 = fade_mix_l(a, aw, ob, bw, store);
    let m2 = fade_mix_l(graph_step(a, store), aw, opt_step(ob, store), bw, store);
    lemma_fade_mix_bound(a, aw, ob, bw, store, SCALE as int);
    lemma_fade_mix_bound(graph_step(a, store), aw, opt_step(ob, store), bw, store, SCALE as int);
    lemma_fade_weights_ok(e, dur);
    lemma_fade_weights_ok(e + 1, dur);
    lemma_fade_weight_step(e, dur);
    lemma_blend_step_difference(
        m1,
        graph_out_l(ic, store),
        m2,
        graph_out_l(graph_step(ic, store), store),
        fade_w_out(e, dur),
        fade_w_in(e, dur),
        fade_w_out(e + 1, dur),
        fade_w_in(e + 1, dur),
        (SCALE as int) / dur + 1,
    );
}

/// The moment the fade window closes is click-free too: the incoming
/// instance's first solo sample differs from the last blended one by no more
/// than its own change plus the same fixed small bound.
pub proof fn lemma_fade_completion_difference(x1: int, y1: int, y2: int, dur: int)
    requires
        -SCALE <= x1 <= SCALE,
        -SCALE <= y1 <= SCALE,
        -SCALE <= y2 <= SCALE,
        dur >= 2,
    ensures
        ({
            let b1 = tdiv(
                x1 * fade_w_out(dur - 1, dur) + y1 * fade_w_in(dur - 1, dur),
                SCALE as int,
            );
            let eps = 2 * ((SCALE as int) / dur) + 4;
            -(vstd::math::abs(y2 - y1) + eps) <= y2 - b1 && y2 - b1 <= vstd::math::abs(y2 - y1)
                + eps
        }),
{
    let wo1 = fade_w_out(dur - 1, dur);
    let wi1 = fade_w_in(dur - 1, dur);
    let dw = (SCALE as int) / dur + 1;
    lemma_fade_weights_ok(dur - 1, dur);
    // The outgoing weight at the last fading sample is at most one step.
    assert(SCALE * (dur - (dur - 1)) == SCALE as int) by (nonlinear_arith);
    crate::fx::lemma_tdiv_toward_zero(SCALE as int, dur);
    vstd::arithmetic::div_mod::lemma_div_is_ordered(SCALE as int, SCALE as int, dur);
    // The incoming weight at the last fading sample is within one step of
    // full scale.
    assert((dur - 1) * SCALE == dur * SCALE - SCALE) by (nonlinear_arith);
    assert(0 <= (dur - 1) * SCALE && SCALE <= dur * SCALE) by (nonlinear_arith)
        requires
            dur >= 2,
    ;
    crate::fx::lemma_div_diff_bound(dur * SCALE, SCALE as int, dur);
    assert((dur * SCALE) / dur == SCALE as int) by {
        vstd::arithmetic::mul::lemma_mul_is_commutative(SCALE as int, dur);
        vstd::arithmetic::div_mod::lemma_div_multiples_vanish(SCALE as int, dur);
    }
    // The solo sample is the blend with the weights at their endpoints.
    assert(x1 * 0 + y2 * SCALE == y2 * SCALE) by (nonlinear_arith);
    crate::fx::lemma_tdiv_multiple(y2, SCALE as int);
    lemma_blend_step_difference(x1, y1, x1, y2, wo1, wi1, 0, SCALE as int, dw);
}

/// One step of a weighted blend: if both weights move by at most `dw`, the
/// blended value moves by at most the two samples' own changes plus
/// `2 * dw + 2`.
proof fn lemma_blend_step_difference(
    x1: int,
    y1: int,
    x2: int,
    y2: int,
    wo1: int,
    wi1: int,
    wo2: int,
    wi2: int,
    dw: int,
)
    requires
        -SCALE <= x1 <= SCALE,
        -SCALE <= x2 <= SCALE,
        -SCALE <= y1 <= SCALE,
        -SCALE <= y2 <= SCALE,
        0 <= wo2 <= SCALE,
        0 <= wi2 <= SCALE,
        0 <= wo1 - wo2 <= dw,
        0 <= wi2 - wi1 <= dw,
        0 <= dw,
    ensures
        ({
            let b1 = tdiv(x1 * wo1 + y1 * wi1, SCALE as int);
            let b2 = tdiv(x2 * wo2 + y2 * wi2, SCALE as int);
            -(vstd::math::abs(x2 - x1) + vstd::math::abs(y2 - y1) + 2 * dw + 2) <= b2 - b1 && b2
                - b1 <= vstd::math::abs(x2 - x1) + vstd::math::abs(y2 - y1) + 2 * dw + 2
        }),
{
    let v1 = x1 * wo1 + y1 * wi1;
    let v2 = x2 * wo2 + y2 * wi2;
    let dx = vstd::math::abs(x2 - x1) as int;
    let dy = vstd::math::abs(y2 - y1) as int;
    assert(v2 - v1 == wo2 * (x2 - x1) + x1 * (wo2 - wo1) + wi2 * (y2 - y1) + y1 * (wi2 - wi1))
        by (nonlinear_arith)
        requires
            v1 == x1 * wo1 + y1 * wi1,
            v2 == x2 * wo2 + y2 * wi2,
    ;
    assert(-(SCALE as int) * dx <= wo2 * (x2 - x1) <= (SCALE as int) * dx) by (nonlinear_arith)
        requires
            0 <= wo2 <= SCALE,
            -dx <= x2 - x1 <= dx,
            0 <= dx,
    ;
    assert(-(SCALE as int) * dw <= x1 * (wo2 - wo1) <= (SCALE as int) * dw) by (nonlinear_arith)
        requires
            -SCALE <= x1 <= SCALE,
            -dw <= wo2 - wo1 <= dw,
            0 <= dw,
    ;
    assert(-(SCALE as int) * dy <= wi2 * (y2 - y1) <= (SCALE as int) * dy) by (nonlinear_arith)
        requires
            0 <= wi2 <= SCALE,
            -dy <= y2 - y1 <= dy,
            0 <= dy,
    ;
    assert(-(SCALE as int) * dw <= y1 * (wi2 - wi1) <= (SCALE as int) * dw) by (nonlinear_arith)
        requires
            -SCALE <= y1 <= SCALE,
            -dw <= wi2 - wi1 <= dw,
            0 <= dw,
    ;
    crate::fx::lemma_tdiv_diff(v2, v1, SCALE as int);
    assert(-((SCALE as int) * (dx + dy + 2 * dw)) <= v2 - v1 && v2 - v1 <= (SCALE as int) * (dx
        + dy + 2 * dw)) by (nonlinear_arith)
        requires
            v2 - v1 == wo2 * (x2 - x1) + x1 * (wo2 - wo1) + wi2 * (y2 - y1) + y1 * (wi2 - wi1),
            -(SCALE as int) * dx <= wo2 * (x2 - x1) <= (SCALE as int) * dx,
            -(SCALE as int) * dw <= x1 * (wo2 - wo1) <= (SCALE as int) * dw,
            -(SCALE as int) * dy <= wi2 * (y2 - y1) <= (SCALE as int) * dy,
            -(SCALE as int) * dw <= y1 * (wi2 - wi1) <= (SCALE as int) * dw,
    ;
    assert((vstd::math::abs(v2 - v1) as int) <= (SCALE as int) * (dx + dy + 2 * dw));
    vstd::arithmetic::div_mod::lemma_div_is_ordered(
        (vstd::math::abs(v2 - v1) as int),
        (SCALE as int) * (dx + dy + 2 * dw),
        SCALE as int,
    );
    assert(((SCALE as int) * (dx + dy + 2 * dw)) / (SCALE as int) == dx + dy + 2 * dw) by {
        vstd::arithmetic::div_mod::lemma_div_multiples_vanish(dx + dy + 2 * dw, SCALE as int);
    }
}

/// Stepping preserves well-formedness and the mode and rate the machine is
/// headed for, and the output is a full-scale-bounded sample.
pub proof fn lemma_fade_step_ok(fs: FadeState, store: ParameterStore)
    requires
        fade_wf(fs),
    ensures
        fade_wf(fade_step(fs, store)),
        -SCALE <= fade_out_l(fs, store) <= SCALE,
        -SCALE <= fade_out_r(fs, store) <= SCALE,
        fade_mode(fade_step(fs, store)) == fade_mode(fs),
        fade_rate(fade_step(fs, store)) == fade_rate(fs),
{
    match fs {
        FadeState::Idle { active } => {
            crate::graph::lemma_graph_step_ok(active, store);
        },
        FadeState::Fading { out_a, out_aw, out_b, out_bw, incoming, elapsed, duration } => {
            crate::graph::lemma_graph_step_ok(out_a, store);
            crate::graph::lemma_graph_step_ok(incoming, store);
            if let Option::Some(g) = out_b {
                crate::graph::lemma_graph_step_ok(g, store);
            }
            lemma_fade_mix_bound(out_a, out_aw as int, out_b, out_bw as int, store, SCALE as int);
            lemma_fade_weights_ok(elapsed as int, duration as int);
            let wo = fade_w_out(elapsed as int, duration as int);
            let wi = fade_w_in(elapsed as int, duration as int);
            crate::fx::lemma_blend_bound(
                fade_mix_l(out_a, out_aw as int, out_b, out_bw as int, store),
                graph_out_l(incoming, store),
                wo,
                wi,
                SCALE as int,
            );
            crate::fx::lemma_blend_bound(
                fade_mix_r(out_a, out_aw as int, out_b, out_bw as int, store),
                graph_out_r(incoming, store),
                wo,
                wi,
                SCALE as int,
            );
        },
    }
}

/// The blend is bounded by any bound `b` on every live source's samples, not
/// just by full scale; used for the steady-state output bound.
pub proof fn lemma_fade_out_within(fs: FadeState, store: ParameterStore, b: int)
    requires
        fade_wf(fs),
        0 <= b,
        match fs {
            FadeState::Idle { active } => -b <= graph_out_l(active, store) <= b && -b
                <= graph_out_r(active, store) <= b,
            FadeState::Fading { out_a, out_b, incoming, .. } => {
                &&& -b <= graph_out_l(out_a, store) <= b
                &&& -b <= graph_out_r(out_a, store) <= b
                &&& -b <= opt_out_l(out_b, store) <= b
                &&& -b <= opt_out_r(out_b, store) <= b
                &&& -b <= graph_out_l(incoming, store) <= b
                &&& -b <= graph_out_r(incoming, store) <= b
            },
        },
    ensures
        -b <= fade_out_l(fs, store) <= b,
        -b <= fade_out_r(fs, store) <= b,
{
    match fs {
        FadeState::Idle { .. } => {
        },
        FadeState::Fading { out_a, out_aw, out_b, out_bw, incoming, elapsed, duration } => {
            lemma_fade_mix_bound(out_a, out_aw as int, out_b, out_bw as int, store, b);
            lemma_fade_weights_ok(elapsed as int, duration as int);
            let wo = fade_w_out(elapsed as int, duration as int);
            let wi = fade_w_in(elapsed as int, duration as int);
            crate::fx::lemma_blend_bound(
                fade_mix_l(out_a, out_aw as int, out_b, out_bw as int, store),
                graph_out_l(incoming, store),
                wo,
                wi,
                b,
            );
            crate::fx::lemma_blend_bound(
                fade_mix_r(out_a, out_aw as int, out_b, out_bw as int, store),
                graph_out_r(incoming, store),
                wo,
                wi,
                b,
            );
        },
    }
}

/// Requesting the mode already in force is a no-op. A request from idle
/// leaves the upcoming sample exactly as it would have been: the fade opens
/// with the full weight on the instance that was already playing. A request
/// mid-fade freezes the live members at their current effective weights: the
/// current blended output becomes the new outgoing source.
pub proof fn lemma_fade_request_ok(
    fs: FadeState,
    mode: NoiseMode,
    store: ParameterStore,
    seed_l: u64,
    seed_r: u64,
)
    requires
        fade_wf(fs),
    ensures
        fade_wf(fade_request(fs, mode, store, seed_l, seed_r)),
        fade_mode(fade_request(fs, mode, store, seed_l, seed_r)) == mode,
        mode == fade_mode(fs) ==> fade_request(fs, mode, store, seed_l, seed_r) == fs,
        fade_rate(fade_request(fs, mode, store, seed_l, seed_r)) == fade_rate(fs),
        fs is Idle && mode != fade_mode(fs) ==> fade_out_l(
            fade_request(fs, mode, store, seed_l, seed_r),
            store,
        ) == fade_out_l(fs, store) && fade_out_r(
            fade_request(fs, mode, store, seed_l, seed_r),
            store,
        ) == fade_out_r(fs, store),
        fs is Fading && mode != fade_mode(fs) ==> ({
            let r = fade_request(fs, mode, store, seed_l, seed_r);
            let wo = fade_w_out(fs->elapsed as int, fs->duration as int);
            let wi = fade_w_in(fs->elapsed as int, fs->duration as int);
            &&& r is Fading
            &&& r->elapsed == 0
            &&& r->out_b == Option::Some(fs->incoming)
            &&& r->out_bw == wi
            &&& (fs->out_b is None ==> r->out_a == fs->out_a && r->out_aw == tdiv(
                fs->out_aw * wo,
                SCALE as int,
            ))
        }),
{
    if mode != fade_mode(fs) {
        match fs {
            FadeState::Idle { active } => {
                let g2 = fade_request(fs, mode, store, seed_l, seed_r);
                crate::graph::lemma_graph_step_ok(active, store);
                if let FadeState::Fading { out_a, out_aw, out_b, out_bw, incoming, elapsed, duration } =
                    g2 {
                    assert(fade_w_out(0, duration as int) == SCALE) by {
                        crate::fx::lemma_tdiv_multiple(SCALE as int, duration as int);
                        vstd::arithmetic::mul::lemma_mul_is_commutative(
                            SCALE as int,
                            duration as int,
                        );
                    }
                    assert(fade_w_in(0, duration as int) == 0) by {
                        vstd::arithmetic::div_mod::lemma_div_of0(duration as int);
                    }
                    let xl = graph_out_l(out_a, store);
                    let xr = graph_out_r(out_a, store);
                    // The mix holds the old active instance alone at full
                    // weight, so it reproduces its sample exactly.
                    assert(xl * SCALE + 0 * 0 == xl * SCALE) by (nonlinear_arith);
                    assert(xr * SCALE + 0 * 0 == xr * SCALE) by (nonlinear_arith);
                    crate::fx::lemma_tdiv_multiple(xl, SCALE as int);
                    crate::fx::lemma_tdiv_multiple(xr, SCALE as int);
                    let ml = fade_mix_l(out_a, out_aw as int, out_b, out_bw as int, store);
                    let mr = fade_mix_r(out_a, out_aw as int, out_b, out_bw as int, store);
                    let yl = graph_out_l(incoming, store);
                    let yr = graph_out_r(incoming, store);
                    assert(ml * SCALE + yl * 0 == ml * SCALE) by (nonlinear_arith);
                    assert(mr * SCALE + yr * 0 == mr * SCALE) by (nonlinear_arith);
                    crate::fx::lemma_tdiv_multiple(ml, SCALE as int);
                    crate::fx::lemma_tdiv_multiple(mr, SCALE as int);
                }
            },
            FadeState::Fading { out_a, out_aw, out_b, out_bw, incoming, elapsed, duration } => {
                lemma_fade_weights_ok(elapsed as int, duration as int);
                let wo = fade_w_out(elapsed as int, duration as int);
                let wi = fade_w_in(elapsed as int, duration as int);
                crate::fx::lemma_gain_bound(out_aw as int, wo);
                crate::fx::lemma_gain_bound(out_bw as int, wo);
                crate::fx::lemma_tdiv_toward_zero(out_aw * wo, SCALE as int);
                crate::fx::lemma_tdiv_toward_zero(out_bw * wo, SCALE as int);
                assert(0 <= out_aw * wo && 0 <= out_bw * wo) by (nonlinear_arith)
                    requires
                        0 <= out_aw,
                        0 <= out_bw,
                        0 <= wo,
                ;
            },
        }
    }
}

/// Freezing a running blend loses almost nothing: the frozen mix of the same
/// samples differs from the running blend by at most four fixed-point units
/// of rounding.
proof fn lemma_freeze_blend_rounding(a_out: int, i_out: int, aw: int, wo: int, wi: int)
    requires
        -SCALE <= a_out <= SCALE,
        -SCALE <= i_out <= SCALE,
        0 <= aw <= SCALE,
        0 <= wo <= SCALE,
        0 <= wi <= SCALE,
    ensures
        ({
            let running = tdiv(tdiv(a_out * aw, SCALE as int) * wo + i_out * wi, SCALE as int);
            let frozen = tdiv(a_out * tdiv(aw * wo, SCALE as int) + i_out * wi, SCALE as int);
            -4 <= frozen - running <= 4
        }),
{
    let s = SCALE as int;
    let m = tdiv(a_out * aw, s);
    let aw2 = tdiv(aw * wo, s);
    assert(-(s * s) <= a_out * aw <= s * s && 0 <= aw * wo <= s * s) by (nonlinear_arith)
        requires
            -s <= a_out <= s,
            0 <= aw <= s,
            0 <= wo <= s,
    ;
    crate::fx::lemma_tdiv_remainder(a_out * aw, s);
    crate::fx::lemma_tdiv_remainder(aw * wo, s);
    let r1 = a_out * aw - s * m;
    let r2 = aw * wo - s * aw2;
    let n1 = m * wo + i_out * wi;
    let n2 = a_out * aw2 + i_out * wi;
    assert(s * (n2 - n1) == r1 * wo - a_out * r2) by (nonlinear_arith)
        requires
            n2 - n1 == a_out * aw2 - m * wo,
            s * aw2 == aw * wo - r2,
            s * m == a_out * aw - r1,
    ;
    assert(-(2 * s * s) <= s * (n2 - n1) <= 2 * s * s) by (nonlinear_arith)
        requires
            s * (n2 - n1) == r1 * wo - a_out * r2,
            -s <= a_out <= s,
            -(s - 1) <= r1 <= s - 1,
            -(s - 1) <= r2 <= s - 1,
            0 <= wo <= s,
    ;
    assert(-(2 * s) <= n2 - n1 <= 2 * s) by (nonlinear_arith)
        requires
            -(2 * s * s) <= s * (n2 - n1) <= 2 * s * s,
            s > 0,
    ;
    crate::fx::lemma_tdiv_diff(n2, n1, s);
    assert((vstd::math::abs(n2 - n1) as int) / s <= 2) by {
        vstd::arithmetic::div_mod::lemma_div_is_ordered(
            vstd::math::abs(n2 - n1) as int,
            2 * s,
            s,
        );
        assert(2 * s == s * 2) by (nonlinear_arith);
        vstd::arithmetic::div_mod::lemma_div_multiples_vanish(2, s);
    }
}

/// A restart arriving mid-fade is itself click-free: when the outgoing side
/// still holds a single member, the restarted machine's first sample differs
/// from the one the running fade would have produced by at most four
/// fixed-point units (pure rounding; the signal itself is untouched).
pub proof fn lemma_fade_restart_click_free(
    fs: FadeState,
    mode: NoiseMode,
    store: ParameterStore,
    seed_l: u64,
    seed_r: u64,
)
    requires
        fade_wf(fs),
        fs is Fading,
        fs->out_b is None,
        mode != fade_mode(fs),
    ensures
        -4 <= fade_out_l(fade_request(fs, mode, store, seed_l, seed_r), store) - fade_out_l(
            fs,
            store,
        ) <= 4,
        -4 <= fade_out_r(fade_request(fs, mode, store, seed_l, seed_r), store) - fade_out_r(
            fs,
            store,
        ) <= 4,
{
    let a = fs->out_a;
    let ic = fs->incoming;
    let aw = fs->out_aw as int;
    let e = fs->elapsed as int;
    let dur = fs->duration as int;
    let r = fade_request(fs, mode, store, seed_l, seed_r);
    let wo = fade_w_out(e, dur);
    let wi = fade_w_in(e, dur);
    crate::graph::lemma_graph_step_ok(a, store);
    crate::graph::lemma_graph_step_ok(ic, store);
    lemma_fade_weights_ok(e, dur);
    lemma_fade_request_ok(fs, mode, store, seed_l, seed_r);
    // The running blend: the single-member mix reduces to the member.
    assert(graph_out_l(a, store) * aw + 0 * 0 == graph_out_l(a, store) * aw) by (nonlinear_arith);
    assert(graph_out_r(a, store) * aw + 0 * 0 == graph_out_r(a, store) * aw) by (nonlinear_arith);
    // The restarted machine opens at full outgoing weight, so its first
    // sample is exactly its frozen mix.
    assert(fade_w_out(0, dur) == SCALE) by {
        crate::fx::lemma_tdiv_multiple(SCALE as int, dur);
        vstd::arithmetic::mul::lemma_mul_is_commutative(SCALE as int, dur);
    }
    assert(fade_w_in(0, dur) == 0) by {
        vstd::arithmetic::div_mod::lemma_div_of0(dur);
    }
    let ml = fade_mix_l(r->out_a, r->out_aw as int, r->out_b, r->out_bw as int, store);
    let mr = fade_mix_r(r->out_a, r->out_aw as int, r->out_b, r->out_bw as int, store);
    let fl = graph_out_l(r->incoming, store);
    let fr = graph_out_r(r->incoming, store);
    assert(ml * SCALE + fl * 0 == ml * SCALE) by (nonlinear_arith);
    assert(mr * SCALE + fr * 0 == mr * SCALE) by (nonlinear_arith);
    crate::fx::lemma_tdiv_multiple(ml, SCALE as int);
    crate::fx::lemma_tdiv_multiple(mr, SCALE as int);
    // What remains is the rounding cost of freezing the weights.
    lemma_freeze_blend_rounding(graph_out_l(a, store), graph_out_l(ic, store), aw, wo, wi);
    lemma_freeze_blend_rounding(graph_out_r(a, store), graph_out_r(ic, store), aw, wo, wi);
}

impl FadeState {
    /// A machine idling on one freshly built instance.
    pub fn starting(
        mode: NoiseMode,
        rate: i64,
        store: &ParameterStore,
        seed_l: u64,
        seed_r: u64,
    ) -> (r: FadeState)
        requires
            crate::graph::RATE_MIN <= rate <= crate::graph::RATE_MAX,
        ensures
            r == (FadeState::Idle { active: graph_init(mode, rate as int, *store, seed_l, seed_r) }),
            fade_wf(r),
            fade_mode(r) == mode,
            fade_rate(r) == rate,
    {
        FadeState::Idle { active: GraphInstance::fresh(mode, rate, store, seed_l, seed_r) }
    }

    /// The mode the machine is headed for.
    pub fn mode(&self) -> (r: NoiseMode)
        ensures
            r == fade_mode(*self),
    {
        match self {
            FadeState::Idle { active } => active.mode,
            FadeState::Fading { incoming, .. } => incoming.mode,
        }
    }

    /// Apply a mode request.
    pub fn request(&mut self, mode: NoiseMode, store: &ParameterStore, seed_l: u64, seed_r: u64)
        requires
            fade_wf(*old(self)),
        ensures
            *final(self) == fade_request(*old(self), mode, *store, seed_l, seed_r),
            fade_wf(*final(self)),
            fade_mode(*final(self)) == mode,
    {
        proof {
            lemma_fade_request_ok(*self, mode, *store, seed_l, seed_r);
        }
        if mode == self.mode() {
            return ;
        }
        let cur = *self;
        match cur {
            FadeState::Idle { active } => {
                let incoming = GraphInstance::fresh(mode, active.rate, store, seed_l, seed_r);
                *self = FadeState::Fading {
                    out_a: active,
                    out_aw: SCALE,
                    out_b: None,
                    out_bw: 0,
                    incoming,
                    elapsed: 0,
                    duration: active.rate,
                };
            },
            FadeState::Fading { out_a, out_aw, out_b, out_bw, incoming, elapsed, duration } => {
                proof {
                    lemma_fade_weights_ok(elapsed as int, duration as int);
                    assert(0 <= SCALE * (duration - elapsed) <= 65536000000) by (nonlinear_arith)
                        requires
                            0 <= elapsed < duration <= 1000000,
                    ;
                    crate::fx::lemma_gain_bound(
                        out_aw as int,
                        fade_w_out(elapsed as int, duration as int),
                    );
                    crate::fx::lemma_gain_bound(
                        out_bw as int,
                        fade_w_out(elapsed as int, duration as int),
                    );
                    assert(0 <= out_aw * fade_w_out(elapsed as int, duration as int) <= 4294967296
                        && 0 <= out_bw * fade_w_out(elapsed as int, duration as int) <= 4294967296)
                        by (nonlinear_arith)
                        requires
                            0 <= out_aw <= 65536,
                            0 <= out_bw <= 65536,
                            0 <= fade_w_out(elapsed as int, duration as int) <= 65536,
                    ;
                }
                let wo = crate::fx::dtz(SCALE * (duration - elapsed), duration);
                let wi = crate::fx::dtz(elapsed * SCALE, duration);
                let aw2 = crate::fx::dtz(out_aw * wo, SCALE);
                let bw2 = crate::fx::dtz(out_bw * wo, SCALE);
                let (kept, kept_w) = if out_b.is_some() && bw2 > aw2 {
                    (out_b.unwrap(), bw2)
                } else {
                    (out_a, aw2)
                };
                let fresh_in = GraphInstance::fresh(mode, incoming.rate, store, seed_l, seed_r);
                *self = FadeState::Fading {
                    out_a: kept,
                    out_aw: kept_w,
                    out_b: Some(incoming),
                    out_bw: wi,
                    incoming: fresh_in,
                    elapsed: 0,
                    duration: incoming.rate,
                };
            },
        }
    }

    /// Produce one stereo sample, advancing the machine one sample.
    #[verifier::rlimit(100)]
    pub fn next_stereo(&mut self, store: &ParameterStore) -> (r: (i64, i64))
        requires
            fade_wf(*old(self)),
        ensures
            *final(self) == fade_step(*old(self), *store),
            r.0 == fade_out_l(*old(self), *store),
            r.1 == fade_out_r(*old(self), *store),
            fade_wf(*final(self)),
            -SCALE <= r.0 <= SCALE,
            -SCALE <= r.1 <= SCALE,
    {
        proof {
            lemma_fade_step_ok(*self, *store);
        }
        let cur = *self;
        match cur {
            FadeState::Idle { active } => {
                let mut a = active;
                let out = a.next_stereo(store);
                *self = FadeState::Idle { active: a };
                out
            },
            FadeState::Fading { out_a, out_aw, out_b, out_bw, incoming, elapsed, duration } => {
                proof {
                    lemma_fade_weights_ok(elapsed as int, duration as int);
                    assert(0 <= SCALE * (duration - elapsed) <= 65536000000) by (nonlinear_arith)
                        requires
                            0 <= elapsed < duration <= 1000000,
                    ;
                }
                let wo = crate::fx::dtz(SCALE * (duration - elapsed), duration);
                let wi = crate::fx::dtz(elapsed * SCALE, duration);
                let mut a = out_a;
                let (axl, axr) = a.next_stereo(store);
                let (b2, bxl, bxr) = match out_b {
                    Some(g) => {
                        let mut gb = g;
                        let o = gb.next_stereo(store);
                        (Some(gb), o.0, o.1)
                    },
                    None => (None, 0i64, 0i64),
                };
                let mut ic = incoming;
                let (ixl, ixr) = ic.next_stereo(store);
                proof {
                    assert(-4294967296 <= axl * out_aw <= 4294967296 && -4294967296 <= bxl * out_bw
                        <= 4294967296 && -4294967296 <= axr * out_aw <= 4294967296 && -4294967296
                        <= bxr * out_bw <= 4294967296) by (nonlinear_arith)
                        requires
                            -65536 <= axl <= 65536,
                            -65536 <= bxl <= 65536,
                            -65536 <= axr <= 65536,
                            -65536 <= bxr <= 65536,
                            0 <= out_aw <= 65536,
                            0 <= out_bw <= 65536,
                    ;
                    crate::fx::lemma_blend_bound(
                        axl as int,
                        bxl as int,
                        out_aw as int,
                        out_bw as int,
                        SCALE as int,
                    );
                    crate::fx::lemma_blend_bound(
                        axr as int,
                        bxr as int,
                        out_aw as int,
                        out_bw as int,
                        SCALE as int,
                    );
                }
                let ml = crate::fx::dtz(axl * out_aw + bxl * out_bw, SCALE);
                let mr = crate::fx::dtz(axr * out_aw + bxr * out_bw, SCALE);
                proof {
                    assert(-4294967296 <= ml * wo <= 4294967296 && -4294967296 <= ixl * wi
                        <= 4294967296 && -4294967296 <= mr * wo <= 4294967296 && -4294967296 <= ixr
                        * wi <= 4294967296) by (nonlinear_arith)
                        requires
                            -65536 <= ml <= 65536,
                            -65536 <= ixl <= 65536,
                            -65536 <= mr <= 65536,
                            -65536 <= ixr <= 65536,
                            0 <= wo <= 65536,
                            0 <= wi <= 65536,
                    ;
                    crate::fx::lemma_blend_bound(
                        ml as int,
                        ixl as int,
                        wo as int,
                        wi as int,
                        SCALE as int,
                    );
                    crate::fx::lemma_blend_bound(
                        mr as int,
                        ixr as int,
                        wo as int,
                        wi as int,
                        SCALE as int,
                    );
                }
                let l = crate::fx::dtz(ml * wo + ixl * wi, SCALE);
                let r = crate::fx::dtz(mr * wo + ixr * wi, SCALE);
                if elapsed + 1 >= duration {
                    *self = FadeState::Idle { active: ic };
                } else {
                    *self = FadeState::Fading {
                        out_a: a,
                        out_aw,
                        out_b: b2,
                        out_bw,
                        incoming: ic,
                        elapsed: elapsed + 1,
                        duration,
                    };
                }
                (l, r)
            },
        }
    }
}

} // verus!
