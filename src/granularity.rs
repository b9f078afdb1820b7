use vstd::prelude::*;

use crate::datetime::{checked_time_of_day, valid_time_of_day, DateTime};

verus! {

/// The width of a time bucket that results are grouped into.
#[derive(Clone, Copy, Debug, PartialEq, Eq, Hash, Structural)]
pub enum Granularity {
    OneMin,
    FiveMin,
    FifteenMin,
    ThirtyMin,
    OneHour,
    OneDay,
}

/// The coarsest time field that a bucket of a granularity never crosses.
#[derive(Clone, Copy, Debug, PartialEq, Eq, Structural)]
pub enum TimeGranularityLevel {
    Minute,
    Hour,
    Day,
}

/// The failures of turning raw rows into bucketed results.
#[derive(Clone, Copy, Debug, PartialEq, Eq, Structural)]
pub enum PostProcessingError {
    BucketClipping,
    DuplicateBucket,
}

pub open spec fn level_name(level: TimeGranularityLevel) -> Seq<char> {
    match level {
        TimeGranularityLevel::Minute => "minute"@,
        TimeGranularityLevel::Hour => "hour"@,
        TimeGranularityLevel::Day => "day"@,
    }
}

impl TimeGranularityLevel {
    /// The lower-case name of the level, as SQL date functions spell it.
    pub fn to_string(&self) -> (r: String)
        ensures
            r@ == level_name(*self),
    {
        match self {
            TimeGranularityLevel::Minute => String::from_str("minute"),
            TimeGranularityLevel::Hour => String::from_str("hour"),
            TimeGranularityLevel::Day => String::from_str("day"),
        }
    }
}

pub open spec fn level_of(g: Granularity) -> TimeGranularityLevel {
    match g {
        Granularity::OneMin => TimeGranularityLevel::Minute,
        Granularity::OneDay => TimeGranularityLevel::Day,
        _ => TimeGranularityLevel::Hour,
    }
}

pub open spec fn bucket_size_of(g: Granularity) -> u8 {
    match g {
        Granularity::OneMin => 60,
        Granularity::FiveMin => 5,
        Granularity::FifteenMin => 15,
        Granularity::ThirtyMin => 30,
        Granularity::OneHour => 60,
        Granularity::OneDay => 24,
    }
}

/// The time field of `t` that the buckets of `g` divide: the second within the
/// minute, the minute within the hour, or the hour within the day.
pub open spec fn bucket_field(g: Granularity, t: DateTime) -> int {
    match level_of(g) {
        TimeGranularityLevel::Minute => t.second as int,
        TimeGranularityLevel::Hour => t.minute as int,
        TimeGranularityLevel::Day => t.hour as int,
    }
}

/// The value of every field finer than the bucketed one: zero in the first
/// instant of a bucket, the field's largest value in the last.
pub open spec fn finer_value(last: bool, largest: int) -> int {
    if last {
        largest
    } else {
        0
    }
}

/// `t` with its bucketed field set to `c` and every finer field set to its
/// smallest value, or to its largest where `last`; `None` where `c` is not a valid
/// value of that field.
pub open spec fn with_bucket_field(g: Granularity, t: DateTime, c: int, last: bool) -> Option<
    DateTime,
> {
    let nanos = finer_value(last, 999_999_999) as u32;
    let sixty = finer_value(last, 59) as u8;
    match level_of(g) {
        TimeGranularityLevel::Minute => if valid_time_of_day(t.hour as int, t.minute as int, c) {
            Some(DateTime { second: c as u8, nanosecond: nanos, ..t })
        } else {
            None
        },
        TimeGranularityLevel::Hour => if valid_time_of_day(t.hour as int, c, 0) {
            Some(DateTime { minute: c as u8, second: sixty, nanosecond: nanos, ..t })
        } else {
            None
        },
        TimeGranularityLevel::Day => if valid_time_of_day(c, 0, 0) {
            Some(DateTime { hour: c as u8, minute: sixty, second: sixty, nanosecond: nanos, ..t })
        } else {
            None
        },
    }
}

/// The first value of the bucket of width `size` that holds `c`.
pub open spec fn first_in_bucket(c: int, size: int) -> int {
    c - c % size
}

/// The last value of the bucket of width `size` that holds `c`.
pub open spec fn last_in_bucket(c: int, size: int) -> int {
    c + size - 1 - c % size
}

pub open spec fn clip_to_start_of(g: Granularity, t: DateTime) -> Option<DateTime> {
    with_bucket_field(g, t, first_in_bucket(bucket_field(g, t), bucket_size_of(g) as int), false)
}

pub open spec fn clip_to_end_of(g: Granularity, t: DateTime) -> Option<DateTime> {
    with_bucket_field(g, t, last_in_bucket(bucket_field(g, t), bucket_size_of(g) as int), true)
}

/// A granularity of buckets over a series of values.
pub trait SeriesBucket {
    type SeriesType;

    type GranularityLevel;

    /// The coarsest field that a bucket never crosses.
    spec fn level(&self) -> Self::GranularityLevel;

    /// The number of units of the bucketed field in one bucket.
    spec fn bucket_size(&self) -> u8;

    /// The first value of the bucket that holds `value`; `None` where it is not a
    /// valid value.
    spec fn bucket_start(&self, value: Self::SeriesType) -> Option<Self::SeriesType>;

    /// The last value of the bucket that holds `value`; `None` where it is not a
    /// valid value.
    spec fn bucket_end(&self, value: Self::SeriesType) -> Option<Self::SeriesType>;

    fn get_lowest_common_granularity_level(&self) -> (r: Self::GranularityLevel)
        ensures
            r == self.level(),
    ;

    fn get_bucket_size(&self) -> (r: u8)
        ensures
            r == self.bucket_size(),
    ;

    /// The first value of the bucket that holds `value`.
    fn clip_to_start(&self, value: Self::SeriesType) -> (r: Result<
        Self::SeriesType,
        PostProcessingError,
    >)
        ensures
            match self.bucket_start(value) {
                Some(d) => r == Ok::<Self::SeriesType, PostProcessingError>(d),
                None => r == Err::<Self::SeriesType, PostProcessingError>(
                    PostProcessingError::BucketClipping,
                ),
            },
    ;

    /// The last value of the bucket that holds `value`.
    fn clip_to_end(&self, value: Self::SeriesType) -> (r: Result<
        Self::SeriesType,
        PostProcessingError,
    >)
        ensures
            match self.bucket_end(value) {
                Some(d) => r == Ok::<Self::SeriesType, PostProcessingError>(d),
                None => r == Err::<Self::SeriesType, PostProcessingError>(
                    PostProcessingError::BucketClipping,
                ),
            },
    ;
}

impl Granularity {
    /// `value` with its bucketed field set to `c` and the finer fields at their
    /// smallest values (or their largest, where `last`), provided `c` is a valid
    /// value of that field.
    fn replace_bucket_field(&self, value: DateTime, c: u16, last: bool) -> (r: Result<
        DateTime,
        PostProcessingError,
    >)
        ensures
            match with_bucket_field(*self, value, c as int, last) {
                Some(d) => r == Ok::<DateTime, PostProcessingError>(d),
                None => r == Err::<DateTime, PostProcessingError>(
                    PostProcessingError::BucketClipping,
                ),
            },
    {
        if c > 255 {
            return Err(PostProcessingError::BucketClipping);
        }
        let c8 = c as u8;
        let (sixty, nanosecond): (u8, u32) = if last {
            (59, 999_999_999)
        } else {
            (0, 0)
        };
        let checked = match self.get_lowest_common_granularity_level() {
            TimeGranularityLevel::Minute => checked_time_of_day(value.hour, value.minute, c8),
            TimeGranularityLevel::Hour => checked_time_of_day(value.hour, c8, sixty),
            TimeGranularityLevel::Day => checked_time_of_day(c8, sixty, sixty),
        };
        match checked {
            Err(_) => Err(PostProcessingError::BucketClipping),
            Ok((hour, minute, second)) => Ok(DateTime { hour, minute, second, nanosecond, ..value }),
        }
    }
}

impl SeriesBucket for Granularity {
    type SeriesType = DateTime;

    type GranularityLevel = TimeGranularityLevel;

    open spec fn level(&self) -> TimeGranularityLevel {
        level_of(*self)
    }

    open spec fn bucket_size(&self) -> u8 {
        bucket_size_of(*self)
    }

    open spec fn bucket_start(&self, value: DateTime) -> Option<DateTime> {
        clip_to_start_of(*self, value)
    }

    open spec fn bucket_end(&self, value: DateTime) -> Option<DateTime> {
        clip_to_end_of(*self, value)
    }

    fn get_lowest_common_granularity_level(&self) -> (r: TimeGranularityLevel) {
        match self {
            Granularity::OneMin => TimeGranularityLevel::Minute,
            Granularity::FiveMin | Granularity::FifteenMin | Granularity::ThirtyMin
            | Granularity::OneHour => TimeGranularityLevel::Hour,
            Granularity::OneDay => TimeGranularityLevel::Day,
        }
    }

    fn get_bucket_size(&self) -> (r: u8) {
        match self {
            Granularity::OneMin => 60,
            Granularity::FiveMin => 5,
            Granularity::FifteenMin => 15,
            Granularity::ThirtyMin => 30,
            Granularity::OneHour => 60,
            Granularity::OneDay => 24,
        }
    }

    fn clip_to_start(&self, value: DateTime) -> (r: Result<DateTime, PostProcessingError>) {
        let size = self.get_bucket_size();
        let field = match self.get_lowest_common_granularity_level() {
            TimeGranularityLevel::Minute => value.second,
            TimeGranularityLevel::Hour => value.minute,
            TimeGranularityLevel::Day => value.hour,
        };
        let c: u16 = (field - field % size) as u16;
        self.replace_bucket_field(value, c, false)
    }

    fn clip_to_end(&self, value: DateTime) -> (r: Result<DateTime, PostProcessingError>) {
        let size = self.get_bucket_size();
        let field = match self.get_lowest_common_granularity_level() {
            TimeGranularityLevel::Minute => value.second,
            TimeGranularityLevel::Hour => value.minute,
            TimeGranularityLevel::Day => value.hour,
        };
        let c: u16 = field as u16 + size as u16 - 1 - (field % size) as u16;
        self.replace_bucket_field(value, c, true)
    }
}

/// The bucket of a valid timestamp always has a valid first instant. That instant
/// is no later than the timestamp and falls on the same date. For hour-level
/// granularities it also falls in the same hour.
pub proof fn lemma_clip_to_start_bounds(g: Granularity, t: DateTime)
    requires
        t.wf(),
    ensures
        clip_to_start_of(g, t) is Some,
        clip_to_start_of(g, t)->Some_0.wf(),
        clip_to_start_of(g, t)->Some_0.le(t),
        clip_to_start_of(g, t)->Some_0.same_date(t),
        level_of(g) != TimeGranularityLevel::Day ==> clip_to_start_of(g, t)->Some_0.hour == t.hour,
{
}

/// The bucket of a valid timestamp always has a valid last instant. That instant
/// is no earlier than the timestamp and falls on the same date. For hour-level
/// granularities it also falls in the same hour.
pub proof fn lemma_clip_to_end_bounds(g: Granularity, t: DateTime)
    requires
        t.wf(),
    ensures
        clip_to_end_of(g, t) is Some,
        clip_to_end_of(g, t)->Some_0.wf(),
        clip_to_end_of(g, t)->Some_0.same_date(t),
        level_of(g) != TimeGranularityLevel::Day ==> clip_to_end_of(g, t)->Some_0.hour == t.hour,
        t.le(clip_to_end_of(g, t)->Some_0),
{
}

/// Clipping a valid timestamp to the start of its bucket twice gives the same
/// instant as clipping it once.
pub proof fn lemma_clip_to_start_idempotent(g: Granularity, t: DateTime)
    requires
        t.wf(),
    ensures
        clip_to_start_of(g, t) is Some,
        clip_to_start_of(g, clip_to_start_of(g, t)->Some_0) == clip_to_start_of(g, t),
{
    lemma_clip_to_start_bounds(g, t);
}

} // verus!
