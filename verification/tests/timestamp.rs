use yunchaoplus_rw::timestamp::{from_wire_option, to_wire_option, Timestamp};

#[test]
fn wire_round_trip_truncates_subseconds() {
    let t = Timestamp { secs: 1_600_000_000, nanos: 123_456_789 };
    let back = Timestamp::from_wire(t.to_wire());
    assert_eq!(back.secs, 1_600_000_000);
    assert_eq!(back.nanos, 0);
}

#[test]
fn wire_integer_round_trips_exactly() {
    for secs in [0i64, 1, -1, 1_600_000_000, i64::MIN, i64::MAX] {
        assert_eq!(Timestamp::from_wire(secs).to_wire(), secs);
    }
}

#[test]
fn absent_timestamp_stays_absent_on_the_wire() {
    assert_eq!(to_wire_option(&None), None);
    assert_eq!(from_wire_option(&None), None);
}

#[test]
fn present_timestamp_crosses_the_wire() {
    let t = Timestamp { secs: 42, nanos: 7 };
    assert_eq!(to_wire_option(&Some(t)), Some(42));
    let back = from_wire_option(&Some(42)).unwrap();
    assert_eq!(back.secs, 42);
    assert_eq!(back.nanos, 0);
}

#[test]
fn ordering_compares_seconds_then_nanos() {
    let a = Timestamp { secs: 1, nanos: 999 };
    let b = Timestamp { secs: 2, nanos: 0 };
    let c = Timestamp { secs: 2, nanos: 1 };
    assert!(a.le(&b));
    assert!(b.le(&c));
    assert!(!c.le(&b));
    assert!(b.le(&b));
}
