use enma::time::Timestamp;

#[test]
fn timestamps_within_chrono_range() {
    let t = Timestamp::from_unix(1_431_648_000, 123).unwrap();
    assert_eq!(t.secs(), 1_431_648_000);
    assert_eq!(t.subsec_nanos(), 123);
    assert!(Timestamp::from_timestamp_secs(-8_334_601_228_800).is_some());
    assert!(Timestamp::from_timestamp_secs(8_210_266_876_799).is_some());
}

#[test]
fn timestamps_outside_chrono_range_are_refused() {
    assert!(Timestamp::from_timestamp_secs(-8_334_601_228_801).is_none());
    assert!(Timestamp::from_timestamp_secs(8_210_266_876_800).is_none());
    assert!(Timestamp::from_timestamp_secs(i64::MAX).is_none());
    assert!(Timestamp::from_unix(0, 2_000_000_000).is_none());
}

#[test]
fn leap_second_only_in_the_last_second_of_a_minute() {
    assert!(Timestamp::from_unix(59, 1_500_000_000).is_some());
    assert!(Timestamp::from_unix(58, 1_500_000_000).is_none());
    assert!(Timestamp::from_unix(-1, 1_000_000_000).is_some());
}

#[test]
fn agrees_with_chrono() {
    for (s, n) in [(0i64, 0u32), (59, 1_999_999_999), (60, 1_000_000_000), (-61, 1_000_000_000), (8_210_266_876_799, 999_999_999), (8_210_266_876_800, 0), (-8_334_601_228_800, 0), (-8_334_601_228_801, 0), (-8_334_601_228_801, 1_500_000_000)] {
        assert_eq!(
            Timestamp::from_unix(s, n).is_some(),
            chrono::DateTime::<chrono::Utc>::from_timestamp(s, n).is_some(),
            "{s} {n}"
        );
    }
}
