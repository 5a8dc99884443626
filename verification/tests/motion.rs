use pingpong::oscillator::Oscillator;
use pingpong::scaled::SCALE;
use pingpong::vec3::Vec3;

fn cube_segment() -> (Vec3, Vec3) {
    // The segment (-0.25, 1.5, 0.0) .. (0.25, 1.5, 0.0) in fixed-point units.
    (Vec3::new(-250_000, 1_500_000, 0), Vec3::new(250_000, 1_500_000, 0))
}

#[test]
fn new_stores_fields() {
    let (s, e) = cube_segment();
    let o = Oscillator::new(s, e, 250_000, -1000);
    assert_eq!(o.start, s);
    assert_eq!(o.end, e);
    assert_eq!(o.progress, 250_000);
    assert_eq!(o.step, -1000);
}

#[test]
fn vec3_new_stores_coordinates() {
    let v = Vec3::new(1, -2, 3);
    assert_eq!(v, Vec3 { x: 1, y: -2, z: 3 });
}

#[test]
fn first_update_moves_one_step() {
    // One tick from rest moves the progress by exactly one step and the
    // position a proportional distance along the segment.
    let (s, e) = cube_segment();
    let mut o = Oscillator::new(s, e, 0, 1000);
    o.update();
    assert_eq!(o.progress, 1000);
    assert_eq!(o.step, 1000);
    assert_eq!(o.current_position(), Vec3::new(-249_500, 1_500_000, 0));
}

#[test]
fn overshoot_triggers_reversal() {
    // An update that carries the progress past SCALE flips the step, so the
    // following update travels backward.
    let (s, e) = cube_segment();
    let mut o = Oscillator::new(s, e, 999_500, 1000);
    o.update();
    assert_eq!(o.progress, 1_000_500);
    assert_eq!(o.step, -1000);
    o.update();
    assert_eq!(o.progress, 999_500);
    assert_eq!(o.step, -1000);
}

#[test]
fn backward_reversal_at_zero() {
    let (s, e) = cube_segment();
    let mut o = Oscillator::new(s, e, 500, -1000);
    o.update();
    assert_eq!(o.progress, -500);
    assert_eq!(o.step, 1000);
    o.update();
    assert_eq!(o.progress, 500);
    assert_eq!(o.step, 1000);
}

#[test]
fn position_at_endpoints_exact() {
    let s = Vec3::new(0, 1_000_000, 0);
    let e = Vec3::new(1_000_000, 1_000_000, 2_000_000);
    let at_start = Oscillator::new(s, e, 0, 700);
    assert_eq!(at_start.current_position(), s);
    let at_end = Oscillator::new(s, e, SCALE, 700);
    assert_eq!(at_end.current_position(), e);
}

#[test]
fn degenerate_segment_constant() {
    // start == end: the position is that one point whatever the progress.
    let p = Vec3::new(123_456, -789_000, 42);
    for progress in [0, 1, 500_000, SCALE] {
        let o = Oscillator::new(p, p, progress, 1000);
        assert_eq!(o.current_position(), p);
    }
    // Even while overshooting past the far end.
    let o = Oscillator {
        start: p,
        end: p,
        progress: 1_000_500,
        step: -1000,
    };
    assert_eq!(o.current_position(), p);
}

#[test]
fn zero_step_is_motionless() {
    let (s, e) = cube_segment();
    let mut o = Oscillator::new(s, e, 400_000, 0);
    let before = o.current_position();
    for _ in 0..10 {
        o.update();
        assert_eq!(o.progress, 400_000);
        assert_eq!(o.step, 0);
        assert_eq!(o.current_position(), before);
    }
}

#[test]
fn progress_stays_within_one_step_of_range() {
    // Over many updates the progress never strays more than one step
    // magnitude outside [0, SCALE], and the step keeps its magnitude.
    let s = Vec3::new(0, 1_000_000, 0);
    let e = Vec3::new(1_000_000, 1_000_000, 2_000_000);
    let mut o = Oscillator::new(s, e, 0, 700);
    for _ in 0..5000 {
        o.update();
        assert!(o.progress >= -700);
        assert!(o.progress <= SCALE + 700);
        assert_eq!(o.step.abs(), 700);
    }
}

#[test]
fn two_thousand_updates_sweep_there_and_back() {
    // From progress 0 with step 0.001 the sweep runs forward, overshoots by
    // one step, reverses, and runs back: after 2000 updates it is two step
    // magnitudes from its starting progress and still travelling backward,
    // and after 2004 updates the initial state recurs exactly.
    let (s, e) = cube_segment();
    let mut o = Oscillator::new(s, e, 0, 1000);
    for _ in 0..2000 {
        o.update();
    }
    assert_eq!(o.progress, 2000);
    assert_eq!(o.step, -1000);
    for _ in 0..4 {
        o.update();
    }
    assert_eq!(o.progress, 0);
    assert_eq!(o.step, 1000);
}

#[test]
fn periodicity_holds_for_other_steps() {
    // The period 2 * (SCALE / step) + 4 from lemma_periodic, checked for a
    // second step size.
    let (s, e) = cube_segment();
    let mut o = Oscillator::new(s, e, 0, 2500);
    let k = (SCALE / 2500) as u64;
    for _ in 0..(2 * k + 4) {
        o.update();
    }
    assert_eq!(o.progress, 0);
    assert_eq!(o.step, 2500);
}

#[test]
fn overshoot_position_passes_the_end() {
    // With progress just past SCALE the reported position lies beyond the far
    // end by a proportional amount.
    let (s, e) = cube_segment();
    let o = Oscillator {
        start: s,
        end: e,
        progress: 1_000_500,
        step: -1000,
    };
    assert_eq!(o.current_position(), Vec3::new(250_250, 1_500_000, 0));
}

#[test]
fn negative_progress_rounds_toward_negative_infinity() {
    // With progress just below zero the position lies before the near end;
    // the fixed-point quotient rounds down, never toward zero.
    let (s, e) = cube_segment();
    let o = Oscillator {
        start: s,
        end: e,
        progress: -500,
        step: 1000,
    };
    assert_eq!(o.current_position(), Vec3::new(-250_250, 1_500_000, 0));
}

#[test]
fn second_scene_oscillator_first_update() {
    // The slower oscillator of the scene: step 0.0007 along (0,1,0)..(1,1,2).
    let s = Vec3::new(0, 1_000_000, 0);
    let e = Vec3::new(1_000_000, 1_000_000, 2_000_000);
    let mut o = Oscillator::new(s, e, 0, 700);
    o.update();
    assert_eq!(o.progress, 700);
    assert_eq!(o.current_position(), Vec3::new(700, 1_000_000, 1400));
}
