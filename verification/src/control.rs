//! Decisions of the control surface: which parameter to write and which mode
//! request to send for each user action.
//!
//! The controller remembers the last audible mode and whether the output is
//! muted; mute is delivered to the engine as a mode of its own, so
//! mute/unmute rides the same click-free crossfade as any mode switch.
//! The surrounding user interface performs the sends; the decisions are all
//! here.

use vstd::prelude::*;
use crate::noise::NoiseMode;
use crate::params::ParameterStore;

verus! {

/// One user action arriving from the control surface.
#[derive(Clone, Copy, PartialEq, Eq, Structural, Debug)]
pub enum UiMessage {
    /// A new volume value.
    VolumeChanged(i64),
    /// A new low-pass cutoff, in Q16.16 Hz.
    LowPassChanged(i64),
    /// A new resonance value.
    QChanged(i64),
    /// A new audible noise mode was picked.
    ModeChanged(NoiseMode),
    /// The mute button.
    MuteToggle,
}

/// The control-side state.
#[derive(Clone, Copy)]
pub struct Controller {
    /// The last audible mode the user picked (never `Muted`; the picker
    /// offers only the audible modes).
    pub mode: NoiseMode,
    /// Whether the output is currently muted.
    pub muted: bool,
}

/// The picker never selects `Muted`, so the remembered mode is audible.
pub open spec fn ctrl_wf(c: Controller) -> bool {
    c.mode != NoiseMode::Muted
}

/// The controller after handling a message.
pub open spec fn ctrl_next(c: Controller, msg: UiMessage) -> Controller {
    match msg {
        UiMessage::ModeChanged(m) => Controller { mode: m, ..c },
        UiMessage::MuteToggle => Controller { muted: !c.muted, ..c },
        _ => c,
    }
}

/// The mode request a message causes, if any.
pub open spec fn ctrl_send(c: Controller, msg: UiMessage) -> Option<NoiseMode> {
    match msg {
        UiMessage::ModeChanged(m) => Some(m),
        UiMessage::MuteToggle => if !c.muted {
            Some(NoiseMode::Muted)
        } else {
            Some(c.mode)
        },
        _ => None,
    }
}

/// The parameter store after a message's write, if any: exactly the named
/// parameter takes the given value, last write wins, no bounds enforcement
/// at this layer.
pub open spec fn ctrl_store_next(s: ParameterStore, msg: UiMessage) -> ParameterStore {
    match msg {
        UiMessage::VolumeChanged(v) => ParameterStore { volume: v, ..s },
        UiMessage::LowPassChanged(v) => ParameterStore { cutoff: v, ..s },
        UiMessage::QChanged(v) => ParameterStore { q: v, ..s },
        _ => s,
    }
}

/// Toggling mute on and then off leaves the controller exactly as it was,
/// leaves every parameter untouched, and the two requests it sends (mute,
/// then the remembered mode) bring the engine back to the mode that was
/// active before.
pub proof fn lemma_mute_round_trip(c: Controller, s: ParameterStore, e: crate::engine::NoiseEngine)
    requires
        ctrl_wf(c),
        !c.muted,
        crate::engine::engine_wf(e),
        crate::fade::fade_mode(e.fade) == c.mode,
    ensures
        ctrl_next(ctrl_next(c, UiMessage::MuteToggle), UiMessage::MuteToggle) == c,
        ctrl_store_next(ctrl_store_next(s, UiMessage::MuteToggle), UiMessage::MuteToggle) == s,
        ctrl_send(c, UiMessage::MuteToggle) == Some(NoiseMode::Muted),
        ctrl_send(ctrl_next(c, UiMessage::MuteToggle), UiMessage::MuteToggle) == Some(c.mode),
        ({
            let muted_engine = crate::engine::engine_request(e, NoiseMode::Muted);
            let restored = crate::engine::engine_request(muted_engine, c.mode);
            &&& crate::fade::fade_mode(restored.fade) == c.mode
            &&& restored.store == e.store
        }),
{
    let muted_engine = crate::engine::engine_request(e, NoiseMode::Muted);
    crate::fade::lemma_fade_request_ok(
        e.fade,
        NoiseMode::Muted,
        e.store,
        crate::noise::rng_next(e.seeds),
        crate::noise::rng_next(crate::noise::rng_next(e.seeds) ^ crate::noise::RNG_SPLIT),
    );
    crate::fade::lemma_fade_request_ok(
        muted_engine.fade,
        c.mode,
        muted_engine.store,
        crate::noise::rng_next(muted_engine.seeds),
        crate::noise::rng_next(
            crate::noise::rng_next(muted_engine.seeds) ^ crate::noise::RNG_SPLIT,
        ),
    );
}

impl Controller {
    /// A fresh controller: brown noise remembered, not muted.
    pub fn starting() -> (r: Controller)
        ensures
            r.mode == NoiseMode::Brown,
            !r.muted,
            ctrl_wf(r),
    {
        Controller { mode: NoiseMode::Brown, muted: false }
    }

    /// Handle one user action: write the parameter it carries, update the
    /// remembered mode and mute flag, and return the mode request to send,
    /// if the action calls for one.
    pub fn update(&mut self, msg: UiMessage, store: &mut ParameterStore) -> (send: Option<
        NoiseMode,
    >)
        ensures
            *final(self) == ctrl_next(*old(self), msg),
            send == ctrl_send(*old(self), msg),
            *final(store) == ctrl_store_next(*old(store), msg),
    {
        match msg {
            UiMessage::VolumeChanged(v) => {
                store.set_volume(v);
                None
            },
            UiMessage::LowPassChanged(v) => {
                store.set_cutoff(v);
                None
            },
            UiMessage::QChanged(v) => {
                store.set_q(v);
                None
            },
            UiMessage::ModeChanged(m) => {
                self.mode = m;
                Some(m)
            },
            UiMessage::MuteToggle => {
                let send = if !self.muted {
                    Some(NoiseMode::Muted)
                } else {
                    Some(self.mode)
                };
                self.muted = !self.muted;
                send
            },
        }
    }
}

} // verus!
