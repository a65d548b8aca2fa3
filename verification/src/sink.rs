//! Rendering into an output buffer.
//!
//! Once per hardware callback the audio thread renders the requested number
//! of frames: one stereo sample per frame, converted to the device's sample
//! representation and written interleaved, the left sample on even channel
//! indices and the right on odd ones (the stereo pair repeats across wider
//! layouts). The buffer is reused between callbacks, so rendering allocates
//! only while a callback asks for more frames than any before it.

use vstd::prelude::*;
use crate::fx::{SCALE, tdiv, sclamp};
use crate::engine::{NoiseEngine, engine_wf, engine_step, engine_out_l, engine_out_r};

verus! {

/// A fixed-point sample as a signed 16-bit value: clamped to full scale,
/// then rescaled to `[-32767, 32767]`.
pub open spec fn sample_to_i16_spec(s: int) -> int {
    tdiv(sclamp(s, -SCALE as int, SCALE as int) * 32767, SCALE as int)
}

/// Convert one fixed-point sample to the signed 16-bit representation.
pub fn sample_to_i16(s: i64) -> (r: i16)
    ensures
        r == sample_to_i16_spec(s as int),
        -32767 <= r <= 32767,
{
    let c = crate::fx::clamp_i64(s, -SCALE, SCALE);
    proof {
        crate::fx::lemma_gain_bound(c as int, 32767);
    }
    crate::fx::dtz(c * 32767, SCALE) as i16
}

/// Convert one signed 16-bit sample to the unsigned 16-bit representation
/// (the same waveform, biased around 32768).
pub fn i16_to_u16(v: i16) -> (r: u16)
    ensures
        r == v + 32768,
{
    (v as i32 + 32768) as u16
}

/// The engine after `n` samples.
pub open spec fn engine_iter(e: NoiseEngine, n: nat) -> NoiseEngine
    decreases n,
{
    if n == 0 {
        e
    } else {
        engine_step(engine_iter(e, (n - 1) as nat))
    }
}

/// The 16-bit value belonging at channel `c` of frame `f` when rendering
/// from engine state `e`.
pub open spec fn frame_val(e: NoiseEngine, f: int, c: int) -> int {
    if c % 2 == 0 {
        sample_to_i16_spec(engine_out_l(engine_iter(e, f as nat)))
    } else {
        sample_to_i16_spec(engine_out_r(engine_iter(e, f as nat)))
    }
}

/// Render `frames` stereo frames into `out`, interleaved over `channels`
/// channels: even channel indices carry the left sample, odd ones the
/// right. The engine advances exactly once per frame.
pub fn render_i16(eng: &mut NoiseEngine, out: &mut Vec<i16>, frames: usize, channels: usize)
    requires
        engine_wf(*old(eng)),
        1 <= channels,
        frames * channels <= usize::MAX,
    ensures
        engine_wf(*final(eng)),
        *final(eng) == engine_iter(*old(eng), frames as nat),
        final(out)@.len() == frames * channels,
        forall|f: int, c: int|
            0 <= f < frames && 0 <= c < channels ==> #[trigger] final(out)@[f * channels + c]
                == frame_val(*old(eng), f, c),
{
    out.clear();
    let ghost e0 = *eng;
    let mut f: usize = 0;
    while f < frames
        invariant
            engine_wf(*eng),
            *eng == engine_iter(e0, f as nat),
            0 <= f <= frames,
            1 <= channels,
            frames * channels <= usize::MAX,
            out@.len() == f * channels,
            forall|ff: int, cc: int|
                0 <= ff < f && 0 <= cc < channels ==> #[trigger] out@[ff * channels + cc]
                    == frame_val(e0, ff, cc),
        decreases frames - f,
    {
        let (l, r) = eng.next_stereo_sample();
        let li = sample_to_i16(l);
        let ri = sample_to_i16(r);
        let ghost flen = out@.len();
        let mut c: usize = 0;
        while c < channels
            invariant
                0 <= c <= channels,
                1 <= channels,
                out@.len() == flen + c,
                flen == f * channels,
                li == frame_val(e0, f as int, 0),
                f < frames,
                frames * channels <= usize::MAX,
                forall|cc: int|
                    0 <= cc < c ==> #[trigger] out@[flen + cc] == (if cc % 2 == 0 {
                        li as int
                    } else {
                        ri as int
                    }),
                forall|ff: int, cc: int|
                    0 <= ff < f && 0 <= cc < channels ==> #[trigger] out@[ff * channels + cc]
                        == frame_val(e0, ff, cc),
                li == sample_to_i16_spec(engine_out_l(engine_iter(e0, f as nat))),
                ri == sample_to_i16_spec(engine_out_r(engine_iter(e0, f as nat))),
            decreases channels - c,
        {
            if c % 2 == 0 {
                out.push(li);
            } else {
                out.push(ri);
            }
            proof {
                assert forall|ff: int, cc: int| 0 <= ff < f && 0 <= cc < channels implies #[trigger] out@[ff
                    * channels + cc] == frame_val(e0, ff, cc) by {
                    assert(ff * channels + cc < flen) by (nonlinear_arith)
                        requires
                            0 <= ff < f,
                            0 <= cc < channels,
                            flen == f * channels,
                    ;
                }
            }
            c = c + 1;
        }
        proof {
            assert((f + 1) * channels == f * channels + channels) by (nonlinear_arith);
            assert forall|ff: int, cc: int| 0 <= ff < f + 1 && 0 <= cc < channels implies #[trigger] out@[ff
                * channels + cc] == frame_val(e0, ff, cc) by {
                if ff == f {
                    assert(out@[f * channels + cc] == (if cc % 2 == 0 {
                        li as int
                    } else {
                        ri as int
                    }));
                } else {
                    assert(ff * channels + channels <= f * channels) by (nonlinear_arith)
                        requires
                            ff < f,
                            0 < channels,
                    ;
                }
            }
        }
        f = f + 1;
    }
}

} // verus!
