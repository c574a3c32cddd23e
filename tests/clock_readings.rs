use precise_time::{duration_since_epoch, precise_time_ms, precise_time_ns, Elapsed, MAX_MILLIS};

#[test]
fn precise_time_ns_never_goes_back() {
    let mut last = precise_time_ns();
    for _ in 0..1000 {
        let now = precise_time_ns();
        assert!(now >= last);
        last = now;
    }
}

#[test]
fn readings_are_positive() {
    assert!(precise_time_ns() > 0);
    assert!(precise_time_ms() > 0);
    let d = duration_since_epoch();
    let seconds = d.secs as f64 + (d.nanos as f64 / 1_000_000_000.0);
    assert!(seconds > 0.0);
}

#[test]
fn millis_agree_with_nanos() {
    let before = precise_time_ms();
    let ns = precise_time_ns();
    let after = precise_time_ms();
    assert!(before <= ns / 1_000_000);
    assert!(ns / 1_000_000 <= after);
    assert!(after - before < 1000);
}

#[test]
fn reading_splits_seconds_and_nanos() {
    let d = duration_since_epoch();
    assert!(d.nanos < 1_000_000_000);
    // The system clock stands well after the start of 2017.
    assert!(d.secs > 1_483_228_800);
    assert!(d.total_nanos() > 1_483_228_800_000_000_000);
}

#[test]
fn total_nanos_combines_parts() {
    assert_eq!(Elapsed { secs: 0, nanos: 0 }.total_nanos(), 0);
    assert_eq!(Elapsed { secs: 1, nanos: 5 }.total_nanos(), 1_000_000_005);
    assert_eq!(
        Elapsed { secs: 1_700_000_000, nanos: 123_456_789 }.total_nanos(),
        1_700_000_000_123_456_789
    );
}

#[test]
fn total_nanos_saturates() {
    assert_eq!(
        Elapsed { secs: 18_446_744_073, nanos: 709_551_615 }.total_nanos(),
        u64::MAX
    );
    assert_eq!(
        Elapsed { secs: 18_446_744_073, nanos: 709_551_616 }.total_nanos(),
        u64::MAX
    );
    assert_eq!(
        Elapsed { secs: 18_446_744_073, nanos: 709_551_614 }.total_nanos(),
        u64::MAX - 1
    );
    assert_eq!(Elapsed { secs: u64::MAX, nanos: 999_999_999 }.total_nanos(), u64::MAX);
}

#[test]
fn total_millis_truncates() {
    assert_eq!(Elapsed { secs: 0, nanos: 999_999 }.total_millis(), 0);
    assert_eq!(Elapsed { secs: 0, nanos: 1_000_000 }.total_millis(), 1);
    assert_eq!(Elapsed { secs: 2, nanos: 345_678_901 }.total_millis(), 2345);
}

#[test]
fn total_millis_saturates_with_nanos() {
    assert_eq!(MAX_MILLIS, u64::MAX / 1_000_000);
    assert_eq!(
        Elapsed { secs: 18_446_744_073, nanos: 709_000_000 }.total_millis(),
        MAX_MILLIS
    );
    assert_eq!(
        Elapsed { secs: 18_446_744_073, nanos: 708_999_999 }.total_millis(),
        MAX_MILLIS - 1
    );
    assert_eq!(Elapsed { secs: u64::MAX, nanos: 0 }.total_millis(), MAX_MILLIS);
    let far = Elapsed { secs: 20_000_000_000, nanos: 0 };
    assert_eq!(far.total_millis(), far.total_nanos() / 1_000_000);
}
