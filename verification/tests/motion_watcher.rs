use alarm_ring::motion::{MotionWatcher, DIFFERENCE_TOLERANCE};

#[test]
fn motion_sequence_emits_exactly_once_on_the_third_sample() {
    // Bootstrap the baseline from the first sample, then poll twice.
    let mut watcher = MotionWatcher::new(0, 0, 0);
    let mut emissions = 0;
    if watcher.observe(0, 0, 0) {
        emissions += 1;
    }
    assert_eq!(emissions, 0);
    if watcher.observe(2000, 0, 0) {
        emissions += 1;
    }
    assert_eq!(emissions, 1);
}

#[test]
fn delta_at_the_tolerance_does_not_emit() {
    assert_eq!(DIFFERENCE_TOLERANCE, 1000);
    let mut watcher = MotionWatcher::new(0, 0, 0);
    assert!(!watcher.observe(1000, 0, 0));
}

#[test]
fn delta_just_above_the_tolerance_emits() {
    let mut watcher = MotionWatcher::new(0, 0, 0);
    assert!(watcher.observe(334, 333, 334));
}

#[test]
fn deltas_count_by_absolute_value_summed_over_axes() {
    let mut watcher = MotionWatcher::new(500, -500, 0);
    // |dx| + |dy| + |dz| = 600 + 300 + 200 = 1100 > 1000.
    assert!(watcher.observe(-100, -200, -200));
}

#[test]
fn baseline_advances_even_when_nothing_is_emitted() {
    let mut watcher = MotionWatcher::new(0, 0, 0);
    assert!(!watcher.observe(600, 0, 0));
    // Against a stale baseline of (0, 0, 0) this would emit; against the
    // advanced baseline of (600, 0, 0) the delta is only 600.
    assert!(!watcher.observe(1200, 0, 0));
    assert!(watcher.observe(2400, 0, 0));
}

#[test]
fn baseline_advances_after_an_emission_too() {
    let mut watcher = MotionWatcher::new(0, 0, 0);
    assert!(watcher.observe(2000, 0, 0));
    // The same reading again is no new motion.
    assert!(!watcher.observe(2000, 0, 0));
}

#[test]
fn extreme_samples_do_not_overflow() {
    let mut watcher = MotionWatcher::new(i16::MIN, i16::MIN, i16::MIN);
    assert!(watcher.observe(i16::MAX, i16::MAX, i16::MAX));
    assert!(watcher.observe(i16::MIN, i16::MIN, i16::MIN));
    assert!(!watcher.observe(i16::MIN, i16::MIN, i16::MIN));
}
