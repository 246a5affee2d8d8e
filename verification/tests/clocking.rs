use chrono::Timelike;
use sprinklers::ConfigStore;
use sprinklers::Controller;
use sprinklers::clock;

#[test]
fn epoch_zero_reads_nine_pm_west_of_utc() {
    // 1970-01-01T00:00:00Z is 21:00:00 of the previous day at UTC-3.
    assert_eq!(clock::seconds_since_midnight(0, 0), 75600);
    // Three hours past midnight UTC is local midnight.
    assert_eq!(clock::seconds_since_midnight(10800, 0), 0);
    assert_eq!(clock::seconds_since_midnight(10800, 86399), 86399);
}

#[test]
fn conversion_agrees_with_calendar_library() {
    let tz = chrono::FixedOffset::west_opt(3 * 3600).unwrap();
    for epoch in [0i64, 1700000000, -1, -10800, 951868800, 4102444800] {
        let expected = chrono::DateTime::<chrono::Utc>::from_timestamp(epoch, 0)
            .unwrap()
            .with_timezone(&tz)
            .time()
            .num_seconds_from_midnight();
        assert_eq!(clock::seconds_since_midnight(epoch, 0), expected);
    }
}

#[test]
fn reportable_clock_bounds_match_calendar_library() {
    assert_eq!(clock::CIVIL_EPOCH_MIN, chrono::DateTime::<chrono::Utc>::MIN_UTC.timestamp());
    assert_eq!(clock::CIVIL_EPOCH_MAX, chrono::DateTime::<chrono::Utc>::MAX_UTC.timestamp());
    let tz = chrono::FixedOffset::west_opt(3 * 3600).unwrap();
    for epoch in [clock::CIVIL_EPOCH_MIN, clock::CIVIL_EPOCH_MAX] {
        let expected = chrono::DateTime::<chrono::Utc>::from_timestamp(epoch, 0)
            .unwrap()
            .with_timezone(&tz)
            .time()
            .num_seconds_from_midnight();
        assert_eq!(clock::seconds_since_midnight(epoch, 0), expected);
    }
}

#[test]
fn conversion_is_total_and_well_formed_everywhere() {
    // Even sums no calendar could represent still yield a time of day.
    for (epoch, offset) in [
        (i64::MAX, i64::MAX),
        (i64::MIN, i64::MIN),
        (i64::MAX, i64::MIN),
        (clock::CIVIL_EPOCH_MAX, 1),
        (clock::CIVIL_EPOCH_MIN, -1),
    ] {
        assert!(clock::seconds_since_midnight(epoch, offset) < 86400);
    }
    // One second past the calendar's edge is one second later in the day.
    let at_edge = clock::seconds_since_midnight(clock::CIVIL_EPOCH_MAX, 0);
    let past_edge = clock::seconds_since_midnight(clock::CIVIL_EPOCH_MAX, 1);
    assert_eq!(u64::from(past_edge), (u64::from(at_edge) + 1) % 86400);
}

#[test]
fn now_is_always_a_well_formed_time_of_day() {
    let now = clock::now_seconds_since_midnight(0);
    assert!(now < 86400);
    // Cross-check against the calendar library at the same moment, allowing
    // the second to roll over between the two reads.
    let tz = chrono::FixedOffset::west_opt(3 * 3600).unwrap();
    let reference = chrono::Utc::now().with_timezone(&tz).time().num_seconds_from_midnight();
    let delta: i64 = (i64::from(reference) - i64::from(now)).rem_euclid(86400);
    assert!(delta <= 2, "library read {now}, calendar read {reference}");
}

#[test]
fn offset_shifts_the_reading() {
    let base = clock::seconds_since_midnight(1700000000, 0);
    let shifted = clock::seconds_since_midnight(1700000000, 3600);
    assert_eq!(u64::from(shifted), (u64::from(base) + 3600) % 86400);
}

#[test]
fn compute_clock_offset_is_the_checked_difference() {
    assert_eq!(clock::compute_clock_offset(1700000000, 1690000000), Some(10000000));
    assert_eq!(clock::compute_clock_offset(-5, 5), Some(-10));
    assert_eq!(clock::compute_clock_offset(i64::MAX, -1), None);
    assert_eq!(clock::compute_clock_offset(i64::MIN, 1), None);
}

#[test]
fn sync_then_read_reflects_client_time_of_day() {
    let mut store = ConfigStore::new();
    let mut c = Controller { devices: vec![], manual_mode: false, clock_offset_seconds: 0 };
    let client_epoch = 1700000000i64;
    let local_epoch = 1690001234i64;
    let offset = c.sync_clock(client_epoch, local_epoch, &mut store);
    assert_eq!(offset, client_epoch - local_epoch);
    // Reading immediately at the same local instant gives exactly the
    // client's local time of day: 22:13:20 UTC is 19:13:20 at UTC-3.
    let read = clock::seconds_since_midnight(local_epoch, offset);
    assert_eq!(read, clock::seconds_since_midnight(client_epoch, 0));
    assert_eq!(read, 19 * 3600 + 13 * 60 + 20);
}

#[test]
fn sync_clock_now_applies_and_persists_the_offset() {
    let mut store = ConfigStore::new();
    let mut c = Controller { devices: vec![], manual_mode: false, clock_offset_seconds: 0 };
    let client_epoch = chrono::Utc::now().timestamp() + 500;
    let offset = c.sync_clock_now(client_epoch, &mut store).unwrap();
    assert_eq!(c.clock_offset_seconds, offset);
    // The correction is about the 500 seconds we pushed the client ahead.
    assert!((498..=502).contains(&offset), "offset was {offset}");
    assert_eq!(store.get_i64("time_offset"), Some(offset));
}

#[test]
fn sync_clock_now_rejects_only_unrepresentable_differences() {
    let mut store = ConfigStore::new();
    let mut c = Controller { devices: vec![], manual_mode: false, clock_offset_seconds: 77 };
    // A difference that cannot fit a signed 64-bit integer changes nothing.
    assert_eq!(c.sync_clock_now(i64::MIN, &mut store), None);
    assert_eq!(c.clock_offset_seconds, 77);
    assert_eq!(store.get_i64("time_offset"), None);
    // Any realistic client instant succeeds.
    assert!(c.sync_clock_now(1700000000, &mut store).is_some());
}

#[test]
fn controller_reading_follows_its_own_correction() {
    let c = Controller { devices: vec![], manual_mode: false, clock_offset_seconds: 0 };
    let base = c.now_seconds_since_midnight();
    let shifted = Controller { devices: vec![], manual_mode: false, clock_offset_seconds: 7200 }
        .now_seconds_since_midnight();
    assert!(base < 86400 && shifted < 86400);
    // Two hours of correction move the reading by two hours, up to the
    // second that may roll over between the reads.
    let delta: i64 = (i64::from(shifted) - i64::from(base)).rem_euclid(86400);
    assert!((7200..=7202).contains(&delta), "delta was {delta}");
}
