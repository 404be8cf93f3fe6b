use long_press::adapter::{demo, Counter, LongPressAdapter};
use long_press::detector::Emit;

#[test]
fn demo_counts_one_short_press() {
    assert_eq!(demo(), 6);
}

#[test]
fn adapter_short_press_reports_increment() {
    let mut a = LongPressAdapter::new(Counter { value: 5 });
    assert!(!a.key_down());
    assert_eq!(a.key_up(), Some(6));
    assert_eq!(a.inner().value, 5);
}

#[test]
fn adapter_long_press_reports_decrement() {
    let mut a = LongPressAdapter::new(Counter { value: 5 });
    assert_eq!(a.next_wait(), None);
    assert!(!a.key_down());
    assert_eq!(a.next_wait(), Some(2000));
    assert_eq!(a.timer_due(), (Some(Emit::LongPress), Some(4)));
    assert_eq!(a.next_wait(), Some(1000));
    assert_eq!(a.timer_due(), (Some(Emit::HeldTick), None));
    assert_eq!(a.key_up(), None);
    assert_eq!(a.inner().value, 5);
}

#[test]
fn adapter_timer_without_key_down_reports_nothing() {
    let mut a = LongPressAdapter::new(Counter { value: 0 });
    assert_eq!(a.timer_due(), (None, None));
}

#[test]
fn counter_reports_at_the_bounds() {
    let mut a = LongPressAdapter::new(Counter { value: i32::MAX });
    a.key_down();
    assert_eq!(a.timer_due(), (Some(Emit::LongPress), Some(i32::MAX - 1)));
    assert_eq!(a.key_up(), None);
    let mut b = LongPressAdapter::new(Counter { value: i32::MIN });
    b.key_down();
    assert_eq!(b.key_up(), Some(i32::MIN + 1));
}
