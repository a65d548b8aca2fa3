//! A verified real-time ambient-noise engine.
//!
//! The engine synthesises a continuous stereo noise signal (brown, white or
//! pink), shaped by a resonant low-pass filter and a gain stage, and switches
//! between noise modes - mute included - through a click-free crossfade. All
//! signal math is fixed-point integer arithmetic (Q16.16, `fx::SCALE` is
//! 1.0), so the contracts pin down every sample the engine emits:
//!
//! - `params`: the live control parameters, clamped into their documented
//!   ranges on every write;
//! - `smooth`: the exponential followers that turn stepwise parameter writes
//!   into continuous ramps;
//! - `noise`: the deterministic generator and the brown, white, pink and
//!   muted sources;
//! - `filter`: the resonant low-pass;
//! - `graph`: one complete stereo instance of source, filter, gain and
//!   fade-in envelope;
//! - `fade`: the crossfader that replaces a running instance without a
//!   click;
//! - `engine`: the assembled engine the audio thread owns, with its
//!   once-per-buffer control-message drain;
//! - `sink`: conversion to the device's sample representation and the
//!   interleaved buffer fill;
//! - `control`: the control surface's decisions (parameter writes, mode
//!   picks, mute).

pub mod control;
pub mod engine;
pub mod fade;
pub mod filter;
pub mod fx;
pub mod graph;
pub mod noise;
pub mod params;
pub mod sink;
pub mod smooth;
