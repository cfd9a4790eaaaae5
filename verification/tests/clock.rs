use shade::clock::{expired, valid_deadline, Timestamp, MAX_SECS, MIN_SECS};

#[test]
fn instants_are_ordered_by_seconds_then_nanoseconds() {
    let early = Timestamp { secs: 10, nanos: 500 };
    let late = Timestamp { secs: 11, nanos: 0 };
    let later = Timestamp { secs: 11, nanos: 1 };
    assert!(late.reached(early));
    assert!(!early.reached(late));
    assert!(later.reached(late));
    assert!(!late.reached(later));
    assert!(early.reached(early));
    assert!(Timestamp { secs: -1, nanos: 999_999_999 }.reached(Timestamp { secs: -2, nanos: 0 }));
}

#[test]
fn deadline_passes_when_reached() {
    let deadline = Timestamp { secs: 100, nanos: 0 };
    assert!(!expired(Some(deadline), Timestamp { secs: 99, nanos: 999_999_999 }));
    assert!(expired(Some(deadline), deadline));
    assert!(expired(Some(deadline), Timestamp { secs: 100, nanos: 1 }));
    assert!(!expired(None, Timestamp { secs: i64::MAX, nanos: 0 }));
}

fn on_calendar(secs: i64, nanos: u32) -> bool {
    chrono::DateTime::from_timestamp(secs, nanos).is_some()
}

#[test]
fn calendar_ends_where_the_dates_end() {
    assert_eq!(MIN_SECS, chrono::DateTime::<chrono::Utc>::MIN_UTC.timestamp());
    assert_eq!(MAX_SECS, chrono::DateTime::<chrono::Utc>::MAX_UTC.timestamp());
    assert!(Timestamp { secs: MIN_SECS, nanos: 0 }.valid());
    assert!(!Timestamp { secs: MIN_SECS - 1, nanos: 0 }.valid());
    assert!(Timestamp { secs: MAX_SECS, nanos: 999_999_999 }.valid());
    assert!(!Timestamp { secs: MAX_SECS + 1, nanos: 0 }.valid());
    assert!(!Timestamp { secs: i64::MIN, nanos: 0 }.valid());
    assert!(!Timestamp { secs: i64::MAX, nanos: 0 }.valid());
}

#[test]
fn validity_is_what_the_dates_accept() {
    let seconds = [
        i64::MIN,
        MIN_SECS - 1,
        MIN_SECS,
        MIN_SECS + 59,
        MIN_SECS + 60,
        -61,
        -60,
        -1,
        0,
        58,
        59,
        60,
        119,
        1_700_000_000,
        1_700_000_039,
        MAX_SECS - 60,
        MAX_SECS - 1,
        MAX_SECS,
        MAX_SECS + 1,
        i64::MAX,
    ];
    let nanos = [0u32, 1, 999_999_999, 1_000_000_000, 1_999_999_999, 2_000_000_000, u32::MAX];
    for secs in seconds {
        for nanos in nanos {
            assert_eq!(
                Timestamp { secs, nanos }.valid(),
                on_calendar(secs, nanos),
                "{} {}",
                secs,
                nanos
            );
        }
    }
}

#[test]
fn valid_instants_read_back_from_dates() {
    for (secs, nanos) in [(0i64, 0u32), (-1, 999_999_999), (59, 1_500_000_000), (MAX_SECS, 1)] {
        let instant = Timestamp { secs, nanos };
        assert!(instant.valid());
        let date = chrono::DateTime::from_timestamp(secs, nanos).unwrap();
        assert_eq!(date.timestamp(), secs);
        assert_eq!(date.timestamp_subsec_nanos(), nanos);
    }
}

#[test]
fn deadline_validity() {
    assert!(valid_deadline(None));
    assert!(valid_deadline(Some(Timestamp { secs: 5, nanos: 5 })));
    assert!(!valid_deadline(Some(Timestamp { secs: 5, nanos: 1_000_000_000 })));
}
