use rusty_comfort::engine::NoiseEngine;
use rusty_comfort::fade::FadeState;
use rusty_comfort::filter::{damp_coeff_x, freq_coeff_x, Svf};
use rusty_comfort::noise::{NoiseMode, NoiseRng, Source};
use rusty_comfort::params::ParameterStore;
use rusty_comfort::sink::{i16_to_u16, render_i16, sample_to_i16};
use rusty_comfort::control::{Controller, UiMessage};

const RATE: i64 = 44100;
const VOL_HALF: i64 = 32768;
const CUT_1K: i64 = 65536000;
const Q_1_5: i64 = 98304;

fn active_volume(e: &NoiseEngine) -> i64 {
    match e.fade {
        FadeState::Idle { active } => active.vol.cur,
        FadeState::Fading { .. } => panic!("expected an idle engine"),
    }
}

#[test]
fn smoothed_volume_converges_within_one_time_constant() {
    // One time constant is 100 ms = 4410 samples at 44100 Hz; a write that
    // moves the target by at most that many fixed-point units settles
    // exactly, monotonically and without overshoot.
    let mut e = NoiseEngine::with_settings(RATE, NoiseMode::Brown, VOL_HALF, CUT_1K, Q_1_5, 8);
    let target = VOL_HALF + 4000;
    e.set_volume(target);
    let mut prev = active_volume(&e);
    for _ in 0..4410 {
        e.next_stereo_sample();
        let cur = active_volume(&e);
        assert!(cur >= prev, "the smoothed value must rise monotonically");
        assert!(cur <= target, "the smoothed value must not overshoot");
        prev = cur;
    }
    assert_eq!(active_volume(&e), target);
}

#[test]
fn smoothed_volume_falls_monotonically_too() {
    let mut e = NoiseEngine::with_settings(RATE, NoiseMode::Brown, VOL_HALF, CUT_1K, Q_1_5, 8);
    let target = VOL_HALF - 3000;
    e.set_volume(target);
    let mut prev = active_volume(&e);
    for _ in 0..4410 {
        e.next_stereo_sample();
        let cur = active_volume(&e);
        assert!(cur <= prev && cur >= target);
        prev = cur;
    }
    assert_eq!(active_volume(&e), target);
}

#[test]
fn parameters_are_stored_exactly_as_written() {
    let e = NoiseEngine::with_settings(RATE, NoiseMode::Brown, -500, 9999999999, 0, 1);
    assert_eq!(e.params_snapshot(), (-500, 9999999999, 0));
}

#[test]
fn store_writes_read_back_unclamped() {
    let mut s = ParameterStore::with_defaults();
    assert_eq!(s.snapshot(), (65536, 65536000, 98304));
    s.set_volume(70000);
    s.set_cutoff(-3);
    s.set_q(45875200 + 1);
    assert_eq!(s.snapshot(), (70000, -3, 45875201));
}

#[test]
fn out_of_range_parameters_are_clamped_downstream() {
    // A negative volume is stored as written but the signal path reads it
    // clamped to silence, so the engine emits exact zeros.
    let mut muted = NoiseEngine::with_settings(RATE, NoiseMode::White, -500, CUT_1K, Q_1_5, 2);
    for _ in 0..2_000 {
        assert_eq!(muted.next_stereo_sample(), (0, 0));
    }
    // A volume above unity acts as unity: the smoothed gain settles at full
    // scale, never above it.
    let mut loud = NoiseEngine::with_settings(RATE, NoiseMode::White, 131072, CUT_1K, Q_1_5, 2);
    assert_eq!(active_volume(&loud), 65536);
    loud.set_volume(999999);
    for _ in 0..5_000 {
        loud.next_stereo_sample();
    }
    assert_eq!(active_volume(&loud), 65536);
}

#[test]
fn sample_conversion_hits_exact_values() {
    assert_eq!(sample_to_i16(65536), 32767);
    assert_eq!(sample_to_i16(-65536), -32767);
    assert_eq!(sample_to_i16(0), 0);
    assert_eq!(sample_to_i16(32768), 16383);
    assert_eq!(sample_to_i16(200000), 32767, "overdrive clamps at full scale");
    assert_eq!(sample_to_i16(-999999), -32767);
    assert_eq!(i16_to_u16(-32768), 0);
    assert_eq!(i16_to_u16(0), 32768);
    assert_eq!(i16_to_u16(32767), 65535);
}

#[test]
fn rendering_interleaves_left_and_right_across_channels() {
    let mut e = NoiseEngine::with_settings(RATE, NoiseMode::White, VOL_HALF, CUT_1K, Q_1_5, 13);
    let mut twin = e;
    let mut out: Vec<i16> = Vec::new();
    render_i16(&mut e, &mut out, 5, 4);
    assert_eq!(out.len(), 20);
    for f in 0..5 {
        let (l, r) = twin.next_stereo_sample();
        assert_eq!(out[f * 4], sample_to_i16(l));
        assert_eq!(out[f * 4 + 1], sample_to_i16(r));
        assert_eq!(out[f * 4 + 2], sample_to_i16(l));
        assert_eq!(out[f * 4 + 3], sample_to_i16(r));
    }
}

#[test]
fn rendering_mono_takes_the_left_channel() {
    let mut e = NoiseEngine::with_settings(RATE, NoiseMode::Pink, VOL_HALF, CUT_1K, Q_1_5, 14);
    let mut twin = e;
    let mut out: Vec<i16> = Vec::new();
    render_i16(&mut e, &mut out, 8, 1);
    assert_eq!(out.len(), 8);
    for f in 0..8 {
        let (l, _r) = twin.next_stereo_sample();
        assert_eq!(out[f], sample_to_i16(l));
    }
}

#[test]
fn mode_labels_match_the_picker() {
    assert_eq!(NoiseMode::Brown.label(), "Brown");
    assert_eq!(NoiseMode::White.label(), "White");
    assert_eq!(NoiseMode::Pink.label(), "Pink");
    assert_eq!(NoiseMode::Muted.label(), "Muted");
    assert_eq!(NoiseMode::default(), NoiseMode::Brown);
}

#[test]
fn mute_toggle_round_trip_restores_everything() {
    let mut ctrl = Controller::starting();
    let mut store = ParameterStore::with_defaults();
    let mut e = NoiseEngine::with_settings(RATE, NoiseMode::Brown, VOL_HALF, CUT_1K, Q_1_5, 15);
    let params_before = e.params_snapshot();

    let first = ctrl.update(UiMessage::MuteToggle, &mut store).expect("a send");
    assert_eq!(first, NoiseMode::Muted);
    e.set_mode(first);
    let second = ctrl.update(UiMessage::MuteToggle, &mut store).expect("a send");
    assert_eq!(second, NoiseMode::Brown);
    e.set_mode(second);

    assert_eq!(ctrl.mode, NoiseMode::Brown);
    assert!(!ctrl.muted);
    assert_eq!(e.current_mode(), NoiseMode::Brown);
    assert_eq!(e.params_snapshot(), params_before);
    assert_eq!(store.snapshot(), ParameterStore::with_defaults().snapshot());
}

#[test]
fn controller_routes_parameter_writes_to_the_store() {
    let mut ctrl = Controller::starting();
    let mut store = ParameterStore::with_defaults();
    assert!(ctrl.update(UiMessage::VolumeChanged(30000), &mut store).is_none());
    assert!(ctrl.update(UiMessage::LowPassChanged(131072000), &mut store).is_none());
    assert!(ctrl.update(UiMessage::QChanged(65536), &mut store).is_none());
    assert_eq!(store.snapshot(), (30000, 131072000, 65536));
    let send = ctrl.update(UiMessage::ModeChanged(NoiseMode::White), &mut store);
    assert_eq!(send, Some(NoiseMode::White));
    assert_eq!(ctrl.mode, NoiseMode::White);
}

#[test]
fn generator_golden_values() {
    let mut rng = NoiseRng::seeded(1);
    let first: Vec<i64> = (0..5).map(|_| rng.next_white()).collect();
    assert_eq!(first, vec![-10066, 1233, 19445, -15354, 38724]);
}

#[test]
fn engine_golden_values_per_mode() {
    // Samples 200000..200003 (past the fade-in) of each mode with seed 42 at
    // the default parameters, volume 0.5; the stream is a pure function of
    // the seed, so these values never change.
    let cases: [(NoiseMode, [(i64, i64); 3]); 3] = [
        (NoiseMode::White, [(-10275, -2554), (-9379, -3930), (-7893, -4885)]),
        (NoiseMode::Brown, [(-2998, 1529), (-3098, 1445), (-3174, 1347)]),
        (NoiseMode::Pink, [(-8318, 629), (-7973, -143), (-7399, -806)]),
    ];
    for (mode, expected) in cases {
        let mut e = NoiseEngine::with_settings(RATE, mode, VOL_HALF, CUT_1K, Q_1_5, 42);
        for _ in 0..200_000 {
            e.next_stereo_sample();
        }
        for want in expected {
            assert_eq!(e.next_stereo_sample(), want, "golden mismatch in {:?}", mode);
        }
    }
}

#[test]
fn brown_scenario_rms_matches_the_reference_pipeline() {
    // volume 0.5, cutoff 1000 Hz, resonance 1.5, brown noise at 44100 Hz:
    // after the four-second fade-in, the engine's RMS must be within 1% of a
    // plain brown-noise -> low-pass -> gain pipeline with the same
    // parameters.
    let seed: u64 = 42;
    let fade_in = (4 * RATE) as usize;
    let window = RATE as usize;

    let mut e = NoiseEngine::with_settings(RATE, NoiseMode::Brown, VOL_HALF, CUT_1K, Q_1_5, seed);
    for _ in 0..fade_in {
        e.next_stereo_sample();
    }
    let mut sum_sq = 0.0f64;
    for _ in 0..window {
        let (l, _r) = e.next_stereo_sample();
        let v = l as f64 / 65536.0;
        sum_sq += v * v;
    }
    let engine_rms = (sum_sq / window as f64).sqrt();

    // The reference pipeline, seeded exactly as the engine seeds its left
    // channel: the engine draws instance seeds from its seed stream.
    let mut rng = NoiseRng::seeded(seed);
    rng.next_white();
    let left_seed = rng.state;
    let mut src = Source::for_mode(NoiseMode::Brown, left_seed);
    let mut svf = Svf::at_rest();
    let f = freq_coeff_x(CUT_1K, RATE);
    let d = damp_coeff_x(Q_1_5);
    let mut ref_sum_sq = 0.0f64;
    for n in 0..(fade_in + window) {
        let s = src.next_sample();
        let y = svf.step(s, f, d);
        let gained = y * VOL_HALF / 65536;
        if n >= fade_in {
            let v = gained as f64 / 65536.0;
            ref_sum_sq += v * v;
        }
    }
    let reference_rms = (ref_sum_sq / window as f64).sqrt();

    assert!(reference_rms > 0.0);
    let ratio = engine_rms / reference_rms;
    assert!(
        (ratio - 1.0).abs() < 0.01,
        "engine RMS {engine_rms} deviates from reference RMS {reference_rms}"
    );
}
