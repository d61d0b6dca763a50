use chrono::{DateTime, Duration, Utc};
use graph::temporal::{is_adjacent, temporal_distance, temporal_overlap, TimeRange};
use graph::time::{MAX_UTC, MIN_UTC};

fn nanos(t: DateTime<Utc>) -> i128 {
    t.timestamp() as i128 * 1_000_000_000 + t.timestamp_subsec_nanos() as i128
}

#[test]
fn mod_test_time_range() {
    let now_dt = Utc::now();
    let now = nanos(now_dt);
    let future = nanos(now_dt + Duration::days(1));
    let range = TimeRange::new(now, future);

    assert_eq!(range.start, now);
    assert_eq!(range.end, future);

    let range2 = TimeRange::before(future);
    assert_eq!(range2.end, future);
    assert_eq!(range2.start, nanos(DateTime::<Utc>::MIN_UTC));
    assert_eq!(range2.start, MIN_UTC);

    let range3 = TimeRange::after(now);
    assert_eq!(range3.start, now);
    assert_eq!(range3.end, nanos(DateTime::<Utc>::MAX_UTC));
    assert_eq!(range3.end, MAX_UTC);

    let same_range = TimeRange::new(now, future);
    assert!(range.overlaps_with(&same_range), "Range should overlap with itself");

    let contained_range = TimeRange::new(now, nanos(now_dt + Duration::hours(12)));
    assert!(
        range.overlaps_with(&contained_range),
        "Range should overlap with range within its bounds"
    );

    let overlapping_range = TimeRange::new(
        nanos(now_dt - Duration::hours(12)),
        nanos(now_dt + Duration::hours(12)),
    );
    assert!(
        range.overlaps_with(&overlapping_range),
        "Range should overlap with range that extends beyond it"
    );

    let past_range = TimeRange::new(
        nanos(now_dt - Duration::days(2)),
        nanos(now_dt - Duration::days(1)),
    );
    assert!(!range.overlaps_with(&past_range), "Ranges should not overlap");

    let adjacent_range = TimeRange::new(future, nanos(now_dt + Duration::days(2)));
    assert!(
        !range.overlaps_with(&adjacent_range),
        "Adjacent ranges should not be considered overlapping"
    );

    assert_eq!(range.distance_from(&same_range), 0);
    assert_eq!(
        range.distance_from(&past_range),
        (now_dt - (now_dt - Duration::days(1))).num_nanoseconds().unwrap_or(i64::MAX)
    );

    assert!(range.is_adjacent_to(&adjacent_range), "Ranges should be adjacent");
    assert!(!range.is_adjacent_to(&past_range), "Ranges should not be adjacent");

    assert_eq!(temporal_overlap(&range, &same_range), range.overlaps_with(&same_range));
    assert_eq!(temporal_distance(&range, &same_range), range.distance_from(&same_range));
    assert_eq!(is_adjacent(&range, &adjacent_range), range.is_adjacent_to(&adjacent_range));
}

#[test]
fn mod_test_non_overlapping_ranges() {
    let now_dt = Utc::now();
    let range1 = TimeRange::new(nanos(now_dt), nanos(now_dt + Duration::days(1)));
    let range2 = TimeRange::new(nanos(now_dt + Duration::days(2)), nanos(now_dt + Duration::days(3)));

    assert!(!range1.overlaps_with(&range2), "Ranges should not overlap");
    assert!(!range1.is_adjacent_to(&range2), "Ranges should not be adjacent");
    assert_eq!(
        range1.distance_from(&range2),
        Duration::days(1).num_nanoseconds().unwrap_or(i64::MAX)
    );

    let adjacent_range = TimeRange::new(nanos(now_dt + Duration::days(1)), nanos(now_dt + Duration::days(2)));
    assert!(!range1.overlaps_with(&adjacent_range), "Adjacent ranges should not overlap");
    assert!(range1.is_adjacent_to(&adjacent_range), "Ranges should be adjacent");
    assert_eq!(
        range1.distance_from(&adjacent_range),
        0,
        "Distance between adjacent ranges should be 0"
    );
}

#[test]
fn distance_saturates_beyond_i64() {
    let a = TimeRange::new(0, 1);
    let b = TimeRange::new(1 + (i64::MAX as i128) + 10, (i64::MAX as i128) * 4);
    assert_eq!(a.distance_from(&b), i64::MAX);
    assert_eq!(b.distance_from(&a), i64::MAX);
}

#[test]
fn overlap_and_adjacency_are_symmetric() {
    let a = TimeRange::new(0, 10);
    let b = TimeRange::new(10, 20);
    let c = TimeRange::new(5, 15);
    assert_eq!(a.overlaps_with(&c), c.overlaps_with(&a));
    assert!(a.is_adjacent_to(&b) && b.is_adjacent_to(&a));
    assert!(!a.overlaps_with(&b));
    assert_eq!(a.distance_from(&c), 0);
    assert_eq!(a.distance_from(&TimeRange::new(13, 20)), 3);
}

#[test]
fn calendar_bounds_match_chrono() {
    let min_secs = (MIN_UTC / 1_000_000_000) as i64;
    let max_secs = (MAX_UTC / 1_000_000_000) as i64;
    assert!(DateTime::<Utc>::from_timestamp(min_secs, 0).is_some());
    assert!(DateTime::<Utc>::from_timestamp(min_secs - 1, 999_999_999).is_none());
    assert!(DateTime::<Utc>::from_timestamp(max_secs, 999_999_999).is_some());
    assert!(DateTime::<Utc>::from_timestamp(max_secs + 1, 0).is_none());
}
