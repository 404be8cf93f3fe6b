use long_press::detector::{race, Emit, Phase, PressDetector, Wake, DEFAULT_CADENCE_MS, DEFAULT_THRESHOLD_MS};

#[test]
fn new_detector_is_idle() {
    let d = PressDetector::new(2, 1);
    assert_eq!(d.phase(), Phase::Idle);
    assert!(!d.was_long_pressed());
    assert_eq!(d.threshold(), 2);
    assert_eq!(d.cadence(), 1);
    assert_eq!(d.next_wait(), None);
}

#[test]
fn default_detector_uses_default_timings() {
    let d = PressDetector::default();
    assert_eq!(d.threshold(), DEFAULT_THRESHOLD_MS);
    assert_eq!(d.cadence(), DEFAULT_CADENCE_MS);
    assert_eq!(d.threshold(), 2000);
    assert_eq!(d.cadence(), 1000);
    assert_eq!(d.phase(), Phase::Idle);
}

#[test]
fn race_prefers_cancellation() {
    assert_eq!(race(true, true), Some(Wake::Cancelled));
    assert_eq!(race(true, false), Some(Wake::Cancelled));
    assert_eq!(race(false, true), Some(Wake::Due));
    assert_eq!(race(false, false), None);
}

#[test]
fn quick_press_emits_short() {
    let mut d = PressDetector::new(2, 1);
    assert!(!d.on_key_down());
    assert_eq!(d.phase(), Phase::Waiting);
    assert_eq!(d.next_wait(), Some(2));
    assert_eq!(d.on_key_up(), Some(Emit::ShortPress));
    assert_eq!(d.phase(), Phase::Idle);
}

#[test]
fn long_press_then_ticks_then_no_short() {
    let mut d = PressDetector::new(2, 1);
    d.on_key_down();
    assert_eq!(d.on_timer_due(), Some(Emit::LongPress));
    assert!(d.was_long_pressed());
    assert_eq!(d.phase(), Phase::Held);
    assert_eq!(d.next_wait(), Some(1));
    assert_eq!(d.on_timer_due(), Some(Emit::HeldTick));
    assert_eq!(d.on_timer_due(), Some(Emit::HeldTick));
    assert_eq!(d.on_key_up(), None);
    assert!(!d.was_long_pressed());
}

#[test]
fn second_key_down_retires_stale_timer() {
    let mut d = PressDetector::new(2, 1);
    assert!(!d.on_key_down());
    assert!(d.on_key_down());
    assert_eq!(d.phase(), Phase::Waiting);
    assert_eq!(d.on_timer_due(), Some(Emit::LongPress));
    assert!(d.on_key_down());
    assert_eq!(d.phase(), Phase::Waiting);
    // a single live timer: one due event gives one emit
    assert_eq!(d.on_timer_due(), Some(Emit::LongPress));
}

#[test]
fn nothing_emitted_after_key_up() {
    let mut d = PressDetector::new(2, 1);
    d.on_key_down();
    d.on_timer_due();
    d.on_key_up();
    for _ in 0..100 {
        assert_eq!(d.on_timer_due(), None);
    }
    assert_eq!(d.phase(), Phase::Idle);
}

#[test]
fn flag_reset_after_long_cycle() {
    let mut d = PressDetector::new(2, 1);
    d.on_key_down();
    assert_eq!(d.on_timer_due(), Some(Emit::LongPress));
    assert_eq!(d.on_key_up(), None);
    d.on_key_down();
    assert_eq!(d.on_key_up(), Some(Emit::ShortPress));
}

#[test]
fn key_up_without_key_down_emits_short() {
    let mut d = PressDetector::new(2, 1);
    assert_eq!(d.on_key_up(), Some(Emit::ShortPress));
    assert_eq!(d.on_timer_due(), None);
}
