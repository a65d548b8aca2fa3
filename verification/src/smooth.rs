//! Exponential smoothing of control parameters.
//!
//! A `Smoothed` value follows its target like a one-pole low-pass filter: each
//! sample it moves `1/k` of the remaining distance toward the target, where
//! `k` is the time constant in samples (the engine uses 100 ms). When the
//! remaining distance is below `k` the quotient truncates to zero, so the
//! step falls back to a single fixed-point unit; the value therefore reaches
//! its target exactly, monotonically, and never overshoots.

use vstd::prelude::*;
use crate::fx::tdiv;
use vstd::math::abs;

verus! {

/// Largest magnitude a smoothed control value may take. Chosen far below any
/// overflow boundary; the engine's parameters stay well within it.
pub const SMOOTH_LIM: i64 = 1099511627776;

/// One smoothing step: move `c` toward `t` by `1/k` of the distance, by at
/// least one unit while they differ.
pub open spec fn smooth_step(c: int, t: int, k: int) -> int
    recommends
        k >= 1,
{
    let d = t - c;
    if d == 0 {
        c
    } else {
        let m = tdiv(d, k);
        if m == 0 {
            if d > 0 {
                c + 1
            } else {
                c - 1
            }
        } else {
            c + m
        }
    }
}

/// `n` smoothing steps from `c` toward `t`.
pub open spec fn smooth_iter(c: int, t: int, k: int, n: nat) -> int
    recommends
        k >= 1,
    decreases n,
{
    if n == 0 {
        c
    } else {
        smooth_step(smooth_iter(c, t, k, (n - 1) as nat), t, k)
    }
}

/// One step stays between the old value and the target, and while they
/// differ it strictly shrinks the remaining distance.
pub proof fn lemma_smooth_step_between(c: int, t: int, k: int)
    requires
        k >= 1,
    ensures
        c <= t ==> c <= smooth_step(c, t, k) <= t,
        t <= c ==> t <= smooth_step(c, t, k) <= c,
        c != t ==> abs(t - smooth_step(c, t, k)) < abs(t - c),
        c == t ==> smooth_step(c, t, k) == c,
{
    crate::fx::lemma_tdiv_toward_zero(t - c, k);
}

/// Iterated smoothing stays between the start value and the target.
pub proof fn lemma_smooth_iter_between(c: int, t: int, k: int, n: nat)
    requires
        k >= 1,
    ensures
        c <= t ==> c <= smooth_iter(c, t, k, n) <= t,
        t <= c ==> t <= smooth_iter(c, t, k, n) <= c,
    decreases n,
{
    if n > 0 {
        lemma_smooth_iter_between(c, t, k, (n - 1) as nat);
        lemma_smooth_step_between(smooth_iter(c, t, k, (n - 1) as nat), t, k);
    }
}

/// Stepping first and iterating after is the same as iterating once more.
proof fn lemma_smooth_iter_shift(c: int, t: int, k: int, n: nat)
    requires
        k >= 1,
    ensures
        smooth_iter(c, t, k, n + 1) == smooth_iter(smooth_step(c, t, k), t, k, n),
    decreases n,
{
    if n == 0 {
        assert(smooth_iter(c, t, k, 1) == smooth_step(smooth_iter(c, t, k, 0), t, k));
    } else {
        lemma_smooth_iter_shift(c, t, k, (n - 1) as nat);
        assert(smooth_iter(c, t, k, n + 1) == smooth_step(smooth_iter(c, t, k, n), t, k));
        assert(smooth_iter(smooth_step(c, t, k), t, k, n) == smooth_step(
            smooth_iter(smooth_step(c, t, k), t, k, (n - 1) as nat),
            t,
            k,
        ));
    }
}

/// After at least `|t - c|` steps the smoothed value has reached its target.
pub proof fn lemma_smooth_converges(c: int, t: int, k: int, n: nat)
    requires
        k >= 1,
        n >= abs(t - c),
    ensures
        smooth_iter(c, t, k, n) == t,
    decreases n,
{
    if c == t {
        if n > 0 {
            lemma_smooth_converges(c, t, k, (n - 1) as nat);
            lemma_smooth_step_between(t, t, k);
        }
    } else {
        let c1 = smooth_step(c, t, k);
        lemma_smooth_step_between(c, t, k);
        lemma_smooth_converges(c1, t, k, (n - 1) as nat);
        lemma_smooth_iter_shift(c, t, k, (n - 1) as nat);
    }
}

/// After a parameter write, the smoothed value converges to the new target
/// within one time constant (`k` samples), monotonically and without
/// overshoot. This holds whenever the write moved the target by at most `k`
/// fixed-point units; a larger jump still converges monotonically, in
/// `|t - c|` steps (`lemma_smooth_converges`).
pub proof fn lemma_smoothing_within_time_constant(c: int, t: int, k: int)
    requires
        k >= 1,
        abs(t - c) <= k,
    ensures
        smooth_iter(c, t, k, k as nat) == t,
        forall|i: nat|
            c <= t ==> c <= #[trigger] smooth_iter(c, t, k, i) <= smooth_iter(
                c,
                t,
                k,
                i + 1,
            ) <= t,
        forall|i: nat|
            t <= c ==> t <= smooth_iter(c, t, k, i + 1) <= #[trigger] smooth_iter(
                c,
                t,
                k,
                i,
            ) <= c,
{
    lemma_smooth_converges(c, t, k, k as nat);
    assert forall|i: nat|
        (c <= t ==> c <= #[trigger] smooth_iter(c, t, k, i) <= smooth_iter(c, t, k, i + 1) <= t)
            && (t <= c ==> t <= smooth_iter(c, t, k, i + 1) <= smooth_iter(c, t, k, i)
            <= c) by {
        lemma_smooth_iter_between(c, t, k, i);
        assert(smooth_iter(c, t, k, i + 1) == smooth_step(smooth_iter(c, t, k, i), t, k));
        lemma_smooth_step_between(smooth_iter(c, t, k, i), t, k);
    }
}

/// A control value that trails its target exponentially; one is rebuilt per
/// graph instance so a new instance starts from the values then in force.
#[derive(Clone, Copy)]
pub struct Smoothed {
    /// The value the audio path reads this sample.
    pub cur: i64,
    /// The most recently written target.
    pub tgt: i64,
}

impl Smoothed {
    /// Start already settled at `v`.
    pub fn with_value(v: i64) -> (r: Smoothed)
        ensures
            r.cur == v,
            r.tgt == v,
    {
        Smoothed { cur: v, tgt: v }
    }

    /// Write a new target; the current value is untouched (it ramps there
    /// over the following samples).
    pub fn set_target(&mut self, t: i64)
        ensures
            final(self).tgt == t,
            final(self).cur == old(self).cur,
    {
        self.tgt = t;
    }

    /// Advance one sample with time constant `k`.
    pub fn step(&mut self, k: i64)
        requires
            k >= 1,
            -SMOOTH_LIM <= old(self).cur <= SMOOTH_LIM,
            -SMOOTH_LIM <= old(self).tgt <= SMOOTH_LIM,
        ensures
            final(self).cur == smooth_step(old(self).cur as int, old(self).tgt as int, k as int),
            final(self).tgt == old(self).tgt,
    {
        let d = self.tgt - self.cur;
        if d != 0 {
            let m = crate::fx::dtz(d, k);
            if m == 0 {
                if d > 0 {
                    self.cur = self.cur + 1;
                } else {
                    self.cur = self.cur - 1;
                }
            } else {
                proof {
                    crate::fx::lemma_tdiv_toward_zero(d as int, k as int);
                }
                self.cur = self.cur + m;
            }
        }
    }
}

} // verus!
