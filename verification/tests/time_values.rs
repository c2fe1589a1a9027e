use link_session::{Duration, Instant};

#[test]
fn instant_micros_round_trip() {
    let t = Instant::from_micros(123_456);
    assert_eq!(t.as_micros(), 123_456);
    assert_eq!(Instant::from_micros(-7).as_micros(), -7);
}

#[test]
fn instant_unit_arithmetic() {
    let t = Instant::from_micros(1_000_000);
    assert_eq!(t.add_micros(5).as_micros(), 1_000_005);
    assert_eq!(t.sub_micros(5).as_micros(), 999_995);
    assert_eq!(t.add_millis(3).as_micros(), 1_003_000);
    assert_eq!(t.sub_millis(3).as_micros(), 997_000);
    assert_eq!(t.add_secs(2).as_micros(), 3_000_000);
    assert_eq!(t.sub_secs(2).as_micros(), -1_000_000);
}

#[test]
fn instant_arithmetic_saturates() {
    let hi = Instant::from_micros(i64::MAX);
    assert_eq!(hi.add_micros(1).as_micros(), i64::MAX);
    assert_eq!(hi.add_secs(10).as_micros(), i64::MAX);
    let lo = Instant::from_micros(i64::MIN);
    assert_eq!(lo.sub_micros(1).as_micros(), i64::MIN);
    assert_eq!(lo.sub_millis(i64::MAX).as_micros(), i64::MIN);
}

#[test]
fn instant_duration_arithmetic() {
    let t = Instant::from_micros(500);
    let d = Duration::from_micros(200);
    assert_eq!(t.add_duration(d).as_micros(), 700);
    assert_eq!(t.sub_duration(d).as_micros(), 300);
    let later = Instant::from_micros(900);
    assert_eq!(later.duration_since(t).as_micros(), 400);
    assert_eq!(t.duration_since(later).as_micros(), -400);
}

#[test]
fn instant_ordering() {
    let a = Instant::from_micros(1);
    let b = Instant::from_micros(2);
    assert!(a < b);
    assert!(b > a);
    assert!(a <= a);
    assert_eq!(a, Instant::from_micros(1));
    assert_ne!(a, b);
}

#[test]
fn instant_default_is_origin() {
    assert_eq!(Instant::default().as_micros(), 0);
}

#[test]
fn duration_constructors() {
    assert_eq!(Duration::zero().as_micros(), 0);
    assert_eq!(Duration::from_micros(42).as_micros(), 42);
    assert_eq!(Duration::from_millis(42).as_micros(), 42_000);
    assert_eq!(Duration::from_secs(42).as_micros(), 42_000_000);
    assert_eq!(Duration::from_millis(-1).as_micros(), -1_000);
    assert_eq!(Duration::default().as_micros(), 0);
}

#[test]
fn duration_constructors_saturate() {
    assert_eq!(Duration::from_millis(i64::MAX).as_micros(), i64::MAX);
    assert_eq!(Duration::from_secs(i64::MIN).as_micros(), i64::MIN);
}

#[test]
fn duration_conversions_truncate_toward_zero() {
    assert_eq!(Duration::from_micros(1_999).as_millis(), 1);
    assert_eq!(Duration::from_micros(-1_999).as_millis(), -1);
    assert_eq!(Duration::from_micros(2_500_000).as_secs(), 2);
    assert_eq!(Duration::from_micros(-2_500_000).as_secs(), -2);
}

#[test]
fn duration_abs() {
    assert_eq!(Duration::from_micros(-5).abs().as_micros(), 5);
    assert_eq!(Duration::from_micros(5).abs().as_micros(), 5);
    assert_eq!(Duration::from_micros(i64::MIN).abs().as_micros(), i64::MAX);
}

#[test]
fn duration_add_sub_scale() {
    let a = Duration::from_millis(100);
    let b = Duration::from_millis(30);
    assert_eq!(a.add_duration(b).as_micros(), 130_000);
    assert_eq!(a.sub_duration(b).as_micros(), 70_000);
    assert_eq!(a.scale(2).as_micros(), 200_000);
    assert_eq!(a.scale(-1).as_micros(), -100_000);
    assert_eq!(a.div_by(2).as_micros(), 50_000);
    assert_eq!(Duration::from_micros(-7).div_by(2).as_micros(), -3);
}

#[test]
fn duration_scale_saturates() {
    assert_eq!(Duration::from_micros(i64::MAX).scale(2).as_micros(), i64::MAX);
    assert_eq!(Duration::from_micros(i64::MAX).scale(-2).as_micros(), i64::MIN);
}

#[test]
fn duration_ordering() {
    assert!(Duration::from_micros(-1) < Duration::zero());
    assert!(Duration::from_millis(1) > Duration::from_micros(999));
}
