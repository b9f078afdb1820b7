use analytics_query::datetime::DateTime;
use analytics_query::granularity::{Granularity, PostProcessingError, SeriesBucket, TimeGranularityLevel};

const ALL: [Granularity; 6] = [
    Granularity::OneMin,
    Granularity::FiveMin,
    Granularity::FifteenMin,
    Granularity::ThirtyMin,
    Granularity::OneHour,
    Granularity::OneDay,
];

fn at(y: i32, mo: u8, d: u8, h: u8, mi: u8, s: u8) -> DateTime {
    DateTime::new(y, mo, d, h, mi, s, 0).unwrap()
}

fn last(y: i32, mo: u8, d: u8, h: u8, mi: u8, s: u8) -> DateTime {
    DateTime::new(y, mo, d, h, mi, s, 999_999_999).unwrap()
}

fn key(t: &DateTime) -> (i32, u8, u8, u8, u8, u8, u32) {
    (t.year, t.month, t.day, t.hour, t.minute, t.second, t.nanosecond)
}

#[test]
fn levels_and_sizes() {
    let expected = [
        (TimeGranularityLevel::Minute, 60),
        (TimeGranularityLevel::Hour, 5),
        (TimeGranularityLevel::Hour, 15),
        (TimeGranularityLevel::Hour, 30),
        (TimeGranularityLevel::Hour, 60),
        (TimeGranularityLevel::Day, 24),
    ];
    for (g, (level, size)) in ALL.iter().zip(expected) {
        assert_eq!(g.get_lowest_common_granularity_level(), level);
        assert_eq!(g.get_bucket_size(), size);
    }
    assert_eq!(TimeGranularityLevel::Minute.to_string(), "minute");
    assert_eq!(TimeGranularityLevel::Day.to_string(), "day");
}

#[test]
fn five_minute_bucket_bounds() {
    let t = at(2023, 5, 17, 10, 7, 0);
    assert_eq!(Granularity::FiveMin.clip_to_start(t).unwrap(), at(2023, 5, 17, 10, 5, 0));
    assert_eq!(Granularity::FiveMin.clip_to_end(t).unwrap(), last(2023, 5, 17, 10, 9, 59));
}

#[test]
fn minute_day_and_hour_bucket_bounds() {
    let t = DateTime::new(2024, 2, 29, 13, 42, 37, 500).unwrap();
    assert_eq!(Granularity::OneMin.clip_to_start(t).unwrap(), at(2024, 2, 29, 13, 42, 0));
    assert_eq!(Granularity::OneMin.clip_to_end(t).unwrap(), last(2024, 2, 29, 13, 42, 59));
    assert_eq!(Granularity::OneHour.clip_to_start(t).unwrap(), at(2024, 2, 29, 13, 0, 0));
    assert_eq!(Granularity::OneHour.clip_to_end(t).unwrap(), last(2024, 2, 29, 13, 59, 59));
    assert_eq!(Granularity::ThirtyMin.clip_to_end(t).unwrap(), last(2024, 2, 29, 13, 59, 59));
    assert_eq!(Granularity::FifteenMin.clip_to_start(t).unwrap(), at(2024, 2, 29, 13, 30, 0));
    assert_eq!(Granularity::OneDay.clip_to_start(t).unwrap(), at(2024, 2, 29, 0, 0, 0));
    assert_eq!(Granularity::OneDay.clip_to_end(t).unwrap(), last(2024, 2, 29, 23, 59, 59));
}

#[test]
fn clipping_keeps_order_and_date() {
    let samples = [
        at(2023, 1, 1, 0, 0, 0),
        at(2023, 12, 31, 23, 59, 0),
        at(2020, 6, 15, 7, 44, 0),
        at(2021, 3, 9, 18, 0, 0),
        DateTime::new(2022, 8, 8, 23, 30, 45, 123).unwrap(),
    ];
    for g in ALL {
        for t in samples {
            let s = g.clip_to_start(t).unwrap();
            let e = g.clip_to_end(t).unwrap();
            if g != Granularity::OneDay {
                assert_eq!(s.hour, t.hour);
                assert_eq!(e.hour, t.hour);
            }
            assert!(key(&s) <= key(&t));
            assert!(key(&t) <= key(&e));
            assert_eq!((s.year, s.month, s.day), (t.year, t.month, t.day));
            assert_eq!((e.year, e.month, e.day), (t.year, t.month, t.day));
            assert_eq!(g.clip_to_start(s).unwrap(), s);
        }
    }
}

#[test]
fn end_of_bucket_is_its_last_instant() {
    let t = at(2023, 5, 17, 10, 4, 30);
    let e = Granularity::FiveMin.clip_to_end(t).unwrap();
    assert_eq!(e, last(2023, 5, 17, 10, 4, 59));
    assert!(key(&t) < key(&e));
    let late = at(2023, 5, 17, 23, 30, 0);
    assert_eq!(Granularity::OneDay.clip_to_end(late).unwrap(), last(2023, 5, 17, 23, 59, 59));
}

#[test]
fn out_of_range_components_fail_to_clip() {
    let bad = DateTime { year: 2023, month: 1, day: 1, hour: 10, minute: 0, second: 200, nanosecond: 0 };
    assert_eq!(Granularity::OneMin.clip_to_start(bad), Err(PostProcessingError::BucketClipping));
    assert_eq!(Granularity::OneMin.clip_to_end(bad), Err(PostProcessingError::BucketClipping));
    let bad_hour = DateTime { year: 2023, month: 1, day: 1, hour: 250, minute: 0, second: 0, nanosecond: 0 };
    assert_eq!(Granularity::OneDay.clip_to_end(bad_hour), Err(PostProcessingError::BucketClipping));
    assert_eq!(Granularity::FiveMin.clip_to_start(bad_hour), Err(PostProcessingError::BucketClipping));
}

#[test]
fn timestamp_validation() {
    assert!(DateTime::new(2023, 2, 29, 0, 0, 0, 0).is_none());
    assert!(DateTime::new(2024, 2, 29, 0, 0, 0, 0).is_some());
    assert!(DateTime::new(1900, 2, 29, 0, 0, 0, 0).is_none());
    assert!(DateTime::new(2000, 2, 29, 0, 0, 0, 0).is_some());
    assert!(DateTime::new(2023, 4, 31, 0, 0, 0, 0).is_none());
    assert!(DateTime::new(2023, 0, 1, 0, 0, 0, 0).is_none());
    assert!(DateTime::new(2023, 1, 1, 24, 0, 0, 0).is_none());
    assert!(DateTime::new(2023, 1, 1, 0, 60, 0, 0).is_none());
    assert!(DateTime::new(2023, 1, 1, 0, 0, 60, 0).is_none());
    assert!(DateTime::new(2023, 1, 1, 0, 0, 0, 1_000_000_000).is_none());
    assert!(DateTime::new(10000, 1, 1, 0, 0, 0, 0).is_none());
    assert!(DateTime::new(9999, 12, 31, 23, 59, 59, 999_999_999).is_some());
}
