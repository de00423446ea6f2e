use beat_automation::wipe::{
    shape_from_index, spawn_wipe_elements, WipeElement, WipeEvent, WipePhase, WipeShape,
};
use beat_automation::wipe_automation::{wipe_tick, WipeAutomationControls};

fn plain_controls() -> WipeAutomationControls {
    let mut c = WipeAutomationControls::default();
    c.randomize_shape = false;
    c.randomize_steps = false;
    c.randomize_min = false;
    c.randomize_max = false;
    c
}

#[test]
fn wipe_timing_five_steps() {
    let e = WipeEvent {
        shape: WipeShape::Circle,
        duration: 1000,
        steps: 5,
        start_size: 1000,
        end_size: 10_000,
    };
    assert_eq!(e.step_time(0), 0);
    assert_eq!(e.step_time(5), 1000);
    assert_eq!(e.step_size(0), 1000);
    assert_eq!(e.step_size(4), 10_000);
    // 9000 milli-units over 4 gaps: exactly linear with slope 2250.
    for i in 0..5 {
        assert_eq!(e.step_size(i), 1000 + 2250 * i);
    }
}

#[test]
fn wipe_single_step_has_fixed_size() {
    let e = WipeEvent {
        shape: WipeShape::Square,
        duration: 400,
        steps: 1,
        start_size: 7000,
        end_size: 9000,
    };
    assert_eq!(e.step_size(0), 7000);
    assert_eq!(e.step_time(1), 400);
}

#[test]
fn wipe_default_event() {
    let e = WipeEvent::default();
    assert_eq!(
        e,
        WipeEvent {
            shape: WipeShape::Circle,
            duration: 1000,
            steps: 5,
            start_size: 1000,
            end_size: 10_000,
        }
    );
}

#[test]
fn shape_indices_cover_all_variants() {
    assert_eq!(shape_from_index(0), WipeShape::Circle);
    assert_eq!(shape_from_index(1), WipeShape::Octagon);
    assert_eq!(shape_from_index(2), WipeShape::Cross);
    assert_eq!(shape_from_index(3), WipeShape::Square);
    assert_eq!(shape_from_index(4), WipeShape::Hexagram);
}

#[test]
fn spawned_elements_follow_the_event() {
    let e = WipeEvent::default();
    let elements = spawn_wipe_elements(e);
    assert_eq!(elements.len(), 5);
    for (i, el) in elements.iter().enumerate() {
        assert_eq!(el.step, i as i64);
        assert_eq!(el.age, 0);
        assert_eq!(el.trigger, e);
    }
}

#[test]
fn element_phases_follow_step_times() {
    // Steps of 200 milli-seconds each: step 0 runs over (0, 200].
    let mut el = WipeElement { trigger: WipeEvent::default(), step: 0, age: 0 };
    assert_eq!(el.phase(), WipePhase::Pending);
    el.advance(100);
    assert_eq!(el.phase(), WipePhase::Visible);
    el.advance(100);
    assert_eq!(el.phase(), WipePhase::Visible);
    el.advance(1);
    assert_eq!(el.phase(), WipePhase::Done);

    // The last step runs over (800, 1000].
    let mut last = WipeElement { trigger: WipeEvent::default(), step: 4, age: 0 };
    assert_eq!(last.phase(), WipePhase::Pending);
    last.advance(800);
    assert_eq!(last.phase(), WipePhase::Pending);
    last.advance(1);
    assert_eq!(last.phase(), WipePhase::Visible);
    last.advance(199);
    assert_eq!(last.phase(), WipePhase::Visible);
    last.advance(1);
    assert_eq!(last.phase(), WipePhase::Done);
}

#[test]
fn beat_division_gates_every_third_beat() {
    let mut controls = plain_controls();
    controls.on_beat = true;
    controls.beat_div = 3;
    let mut pending = WipeEvent::default();
    let out = wipe_tick(&mut controls, &mut pending, 7, false);
    assert_eq!(out.len(), 2);
    assert_eq!(controls.beat_count, 1);
}

#[test]
fn beat_division_fires_on_beats_three_and_six() {
    let mut controls = plain_controls();
    controls.on_beat = true;
    controls.beat_div = 3;
    let mut pending = WipeEvent::default();
    for beat in 1..=7usize {
        let out = wipe_tick(&mut controls, &mut pending, 1, false);
        if beat % 3 == 0 {
            assert_eq!(out.len(), 1, "beat {beat} should fire");
        } else {
            assert_eq!(out.len(), 0, "beat {beat} should be absorbed");
        }
    }
}

#[test]
fn wipe_mute_suppresses_everything() {
    let mut controls = plain_controls();
    controls.on_beat = true;
    controls.beat_div = 1;
    let mut pending = WipeEvent::default();
    let out = wipe_tick(&mut controls, &mut pending, 10, true);
    assert_eq!(out.len(), 0);
    assert_eq!(controls.beat_count, 0);
    assert_eq!(pending, WipeEvent::default());
}

#[test]
fn wipe_without_emission_still_gates() {
    let mut controls = plain_controls();
    controls.on_beat = false;
    controls.beat_div = 2;
    let mut pending = WipeEvent::default();
    let out = wipe_tick(&mut controls, &mut pending, 5, false);
    assert_eq!(out.len(), 0);
    assert_eq!(controls.beat_count, 1);
}

#[test]
fn wipe_fixed_fields_persist_and_random_fields_resample() {
    let mut controls = WipeAutomationControls::default();
    controls.on_beat = true;
    controls.beat_div = 1;
    controls.randomize_shape = false;
    controls.shape = WipeShape::Cross;
    controls.randomize_steps = false;
    controls.randomize_min = true;
    controls.min_lo = 10_000;
    controls.min_hi = 40_000;
    controls.randomize_max = true;
    controls.max_lo = 20_000;
    controls.max_hi = 50_000;
    let mut pending = WipeEvent::default();
    let out = wipe_tick(&mut controls, &mut pending, 4, false);
    assert_eq!(out.len(), 4);
    for e in &out {
        assert_eq!(e.shape, WipeShape::Cross);
        assert_eq!(e.steps, 5);
        assert_eq!(e.duration, 1000);
        assert!((10_000..40_000).contains(&e.start_size));
        assert!((20_000..50_000).contains(&e.end_size));
    }
    assert_eq!(out[3], pending);
}

#[test]
fn wipe_step_range_is_repaired_before_sampling() {
    let mut controls = plain_controls();
    controls.on_beat = true;
    controls.beat_div = 1;
    controls.randomize_steps = true;
    controls.steps_lo = 5;
    controls.steps_hi = 3;
    let mut pending = WipeEvent::default();
    let out = wipe_tick(&mut controls, &mut pending, 1, false);
    assert_eq!(out.len(), 1);
    assert_eq!(out[0].steps, 5);
    assert_eq!(controls.steps_hi, 6);
}

#[test]
fn wipe_random_steps_stay_in_range() {
    let mut controls = plain_controls();
    controls.on_beat = true;
    controls.beat_div = 1;
    controls.randomize_steps = true;
    controls.steps_lo = 5;
    controls.steps_hi = 15;
    let mut pending = WipeEvent::default();
    for _ in 0..50 {
        let out = wipe_tick(&mut controls, &mut pending, 1, false);
        assert_eq!(out.len(), 1);
        assert!((5..15).contains(&out[0].steps));
    }
}
