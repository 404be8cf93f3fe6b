use long_press::settings::CounterSettings;

fn with(value: isize, file: Option<&str>, pattern: Option<&str>) -> CounterSettings {
    CounterSettings {
        step: 1,
        value,
        file: file.map(|s| s.to_string()),
        pattern: pattern.map(|s| s.to_string()),
    }
}

#[test]
fn default_settings() {
    let s = CounterSettings::default();
    assert_eq!(s.step, 1);
    assert_eq!(s.value, 0);
    assert!(s.file.is_none());
    assert!(s.pattern.is_none());
}

#[test]
fn increment_moves_value_only() {
    let s = with(41, Some("out.txt"), Some("n={}"));
    let n = s.incremented(1).unwrap();
    assert_eq!(n.value, 42);
    assert_eq!(n.step, 1);
    assert_eq!(n.file.as_deref(), Some("out.txt"));
    assert_eq!(n.pattern.as_deref(), Some("n={}"));
    assert_eq!(s.incremented(-50).unwrap().value, -9);
}

#[test]
fn increment_overflow_is_none() {
    assert!(with(isize::MAX, None, None).incremented(1).is_none());
    assert!(with(isize::MIN, None, None).incremented(-1).is_none());
}

#[test]
fn dial_step_scales_by_ticks() {
    let mut s = CounterSettings::default();
    s.step = 3;
    assert_eq!(s.dial_step(-4), Some(-12));
    assert_eq!(s.dial_step(0), Some(0));
    s.step = isize::MAX;
    assert_eq!(s.dial_step(2), None);
}

#[test]
fn file_text_without_file_is_none() {
    assert_eq!(with(7, None, Some("v={}")).file_text(), None);
}

#[test]
fn file_text_is_decimal_value() {
    assert_eq!(with(-120, Some("f"), None).file_text().as_deref(), Some("-120"));
}

#[test]
fn file_text_fills_every_placeholder() {
    assert_eq!(
        with(7, Some("f"), Some("v={} ({})")).file_text().as_deref(),
        Some("v=7 (7)")
    );
}

#[test]
fn file_text_takes_matches_left_to_right() {
    assert_eq!(
        with(3, Some("f"), Some("{{}}{}")).file_text().as_deref(),
        Some("{3}3")
    );
    assert_eq!(with(3, Some("f"), Some("none")).file_text().as_deref(), Some("none"));
}
