use beat_automation::automation::{
    fb_tick, FeedbackControlsAutomation, FeedbackShaderParams, RandConfig,
};
use beat_automation::beat::{BeatMute, TraktorBeat, TraktorMessage};
use beat_automation::chip_spin::{card_jump_scale, ChipSpinState, ChipSpinStateResource};

#[test]
fn beat_randomizes_enabled_slot_and_fires_pulse() {
    let mut mat = FeedbackShaderParams::default();
    let mut controls = FeedbackControlsAutomation::default();
    controls.rand[0] = RandConfig { enabled: true, lo: 10_000, hi: 20_000 };
    fb_tick(&mut mat, &controls, 1, false, 16);
    assert!((10_000..20_000).contains(&mat.rand[0]));
    assert_eq!(mat.beat_stuff.beat, 1000);
    assert_eq!(mat.beat_stuff.beatpt1, 1000);
}

#[test]
fn disabled_slots_are_untouched_by_beats() {
    let mut mat = FeedbackShaderParams::default();
    mat.rand[3] = 4321;
    mat.col_rot[2] = -777;
    let controls = FeedbackControlsAutomation::default();
    fb_tick(&mut mat, &controls, 3, false, 16);
    assert_eq!(mat.rand[3], 4321);
    assert_eq!(mat.col_rot[2], -777);
}

#[test]
fn color_channels_resample_independently() {
    let mut mat = FeedbackShaderParams::default();
    let mut controls = FeedbackControlsAutomation::default();
    controls.col[1] = RandConfig { enabled: true, lo: 2000, hi: 3000 };
    fb_tick(&mut mat, &controls, 1, false, 16);
    assert!((2000..3000).contains(&mat.col_rot[1]));
    assert_eq!(mat.col_rot[0], 0);
    assert_eq!(mat.col_rot[2], 0);
    assert_eq!(mat.col_rot[3], 0);
}

#[test]
fn beat_accumulator_sums_slot_one() {
    let mut mat = FeedbackShaderParams::default();
    mat.rand[1] = 500;
    let controls = FeedbackControlsAutomation::default();
    fb_tick(&mut mat, &controls, 1, false, 16);
    assert_eq!(mat.beat_stuff.beataccum, 500);
    fb_tick(&mut mat, &controls, 1, false, 16);
    assert_eq!(mat.beat_stuff.beataccum, 1000);
    // Bursty delivery: all beats of a tick accumulate.
    fb_tick(&mut mat, &controls, 3, false, 16);
    assert_eq!(mat.beat_stuff.beataccum, 2500);
}

#[test]
fn slot_smoothing_runs_every_tick() {
    let mut mat = FeedbackShaderParams::default();
    mat.rand[2] = 1000;
    let controls = FeedbackControlsAutomation::default();
    // tau = 300, dt = 100: one quarter of the gap per tick.
    fb_tick(&mut mat, &controls, 0, false, 100);
    assert_eq!(mat.randpt1[2], 250);
    fb_tick(&mut mat, &controls, 0, false, 100);
    assert_eq!(mat.randpt1[2], 437);
}

#[test]
fn beat_pulse_decays_between_beats() {
    let mut mat = FeedbackShaderParams::default();
    let controls = FeedbackControlsAutomation::default();
    fb_tick(&mut mat, &controls, 1, false, 100);
    assert_eq!(mat.beat_stuff.beatpt1, 1000);
    // tau = 300, dt = 100: the pulse decays toward zero by a quarter.
    fb_tick(&mut mat, &controls, 0, false, 100);
    assert_eq!(mat.beat_stuff.beatpt1, 750);
}

#[test]
fn palette_redraw_changes_palette() {
    for _ in 0..30 {
        let mut mat = FeedbackShaderParams::default();
        mat.palette = 4;
        let mut controls = FeedbackControlsAutomation::default();
        controls.rand_pal = true;
        fb_tick(&mut mat, &controls, 1, false, 16);
        assert!((0..6).contains(&mat.palette));
        assert_ne!(mat.palette, 4);
    }
}

#[test]
fn mute_suppresses_beat_effects_but_not_smoothing() {
    let mut mat = FeedbackShaderParams::default();
    mat.rand[1] = 500;
    mat.beat_stuff.beatpt1 = 1000;
    let mut controls = FeedbackControlsAutomation::default();
    controls.rand_pal = true;
    for i in 0..8 {
        controls.rand[i].enabled = true;
        controls.rand[i].lo = 100_000;
        controls.rand[i].hi = 200_000;
    }
    let rand_before = mat.rand.clone();
    let col_before = mat.col_rot.clone();
    fb_tick(&mut mat, &controls, 5, true, 100);
    // No beat-triggered mutation reached the parameters.
    assert_eq!(mat.rand, rand_before);
    assert_eq!(mat.col_rot, col_before);
    assert_eq!(mat.palette, 0);
    assert_eq!(mat.beat_stuff.beat, 0);
    assert_eq!(mat.beat_stuff.beataccum, 0);
    // The unconditional PT1 smoothing still executed: tau 300, dt 100.
    assert_eq!(mat.beat_stuff.beatpt1, 750);
    assert_eq!(mat.randpt1[1], 125);
}

#[test]
fn traktor_clock_emits_every_twenty_fourth_pulse() {
    let mut t = TraktorBeat::default();
    for _ in 0..23 {
        assert!(!t.apply_message(TraktorMessage::Beat));
    }
    assert_eq!(t.count, 23);
    assert!(t.apply_message(TraktorMessage::Beat));
    assert_eq!(t.count, 0);
}

#[test]
fn traktor_volume_updates_without_counting() {
    let mut t = TraktorBeat::default();
    assert!(!t.apply_message(TraktorMessage::Volume(96)));
    assert_eq!(t.last_volume, 96);
    assert_eq!(t.count, 0);
    assert!(!t.apply_message(TraktorMessage::Other));
}

#[test]
fn traktor_externally_advanced_count_still_wraps() {
    let mut t = TraktorBeat::default();
    t.count = 25;
    assert!(t.apply_message(TraktorMessage::Other));
    assert_eq!(t.count, 0);
}

#[test]
fn mute_gate_starts_open() {
    let m = BeatMute::default();
    assert!(!m.mute);
}

#[test]
fn chip_spin_redraws_active_triple_on_beat() {
    let mut csr = ChipSpinStateResource::default();
    csr.rand = true;
    assert_eq!(csr.state, ChipSpinState::Rate);
    csr.beat_resample(1, false);
    let (x, y, z) = csr.rate;
    assert!((0..2000).contains(&x));
    assert!((0..2000).contains(&y));
    assert!((0..2000).contains(&z));
    assert_eq!(csr.fixed, (0, 0, 0));
}

#[test]
fn chip_spin_fixed_pose_scales_to_full_turns() {
    let mut csr = ChipSpinStateResource::default();
    csr.rand = true;
    csr.state = ChipSpinState::Fixed;
    csr.beat_resample(1, false);
    // rand_range of two units scaled by tau: [0, 12566).
    let (x, y, z) = csr.fixed;
    assert!((0..12_566).contains(&x));
    assert!((0..12_566).contains(&y));
    assert!((0..12_566).contains(&z));
    assert_eq!(csr.rate, (250, 0, 0));
}

#[test]
fn chip_spin_muted_or_disabled_changes_nothing() {
    let mut csr = ChipSpinStateResource::default();
    csr.rand = true;
    csr.beat_resample(4, true);
    assert_eq!(csr.rate, (250, 0, 0));
    csr.rand = false;
    csr.beat_resample(4, false);
    assert_eq!(csr.rate, (250, 0, 0));
}

#[test]
fn card_jump_scale_mirrors_and_scales() {
    assert_eq!(card_jump_scale(128, 1000, true), (2000, 2000));
    assert_eq!(card_jump_scale(128, 1000, false), (-2000, 2000));
    assert_eq!(card_jump_scale(64, 1000, true), (1500, 1500));
    assert_eq!(card_jump_scale(0, 1000, true), (1000, 1000));
}
