use rcli::jwt::{claims_at, timestamp_after, Claims, Span};

#[test]
fn claims_new_keeps_fields() {
    let c = Claims::new("admin", 30, 20, "lee", 10, "user");
    assert_eq!(c.aud, "admin");
    assert_eq!(c.sub, "user");
    assert_eq!(c.iss, "lee");
    assert_eq!((c.exp, c.iat, c.nbf), (30, 20, 10));
}

#[test]
fn timestamps_carry_nanoseconds() {
    let now = Span { secs: 1_000, nanos: 600_000_000 };
    let delay = Span { secs: 14 * 86_400, nanos: 500_000_000 };
    assert_eq!(timestamp_after(now, delay), Some(1_000 + 14 * 86_400 + 1));
    let small = Span { secs: 5, nanos: 0 };
    assert_eq!(timestamp_after(now, small), Some(1_005));
    let huge = Span { secs: u64::MAX, nanos: 0 };
    assert_eq!(timestamp_after(now, huge), None);
}

#[test]
fn claims_at_shifts_each_time() {
    let now = Span { secs: 100, nanos: 0 };
    let day = |d: u64| Span { secs: d * 86_400, nanos: 0 };
    let c = claims_at(now, "user", "admin", day(14), day(13), "lee", day(12)).unwrap();
    assert_eq!(c.exp, 100 + 14 * 86_400);
    assert_eq!(c.iat, 100 + 13 * 86_400);
    assert_eq!(c.nbf, 100 + 12 * 86_400);
    assert_eq!(c.sub, "user");
}
