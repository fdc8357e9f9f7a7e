use sysmetrics::{Information, Time};

#[test]
fn time_holds_its_ticks() {
    let t = Time::from_ticks(123_456);
    assert_eq!(t.ticks(), 123_456);
}

#[test]
fn time_difference_saturates_at_zero() {
    let a = Time::from_ticks(300);
    let b = Time::from_ticks(100);
    assert_eq!(a.saturating_sub(b).ticks(), 200);
    assert_eq!(b.saturating_sub(a).ticks(), 0);
}

#[test]
fn information_holds_its_bytes() {
    let i = Information::new(42);
    assert_eq!(i.bytes(), 42);
}

#[test]
fn information_difference_saturates_at_zero() {
    let a = Information::new(2_000_000_000);
    let b = Information::new(500_000_000);
    assert_eq!(a.saturating_sub(b).bytes(), 1_500_000_000);
    assert_eq!(b.saturating_sub(a).bytes(), 0);
}
