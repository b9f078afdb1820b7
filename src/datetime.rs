use vstd::prelude::*;

verus! {

/// Number of days in `month` (1 to 12) of `year` in the proleptic Gregorian calendar.
pub open spec fn days_in_month_of(year: int, month: int) -> int {
    if month == 2 {
        if year % 4 == 0 && (year % 100 != 0 || year % 400 == 0) {
            29
        } else {
            28
        }
    } else if month == 4 || month == 6 || month == 9 || month == 11 {
        30
    } else {
        31
    }
}

/// Relies on time::util::days_in_month: the length of a month of a given year.
#[verifier::external_body]
fn days_in_month(year: i32, month: u8) -> (r: u8)
    requires
        1 <= month <= 12,
    ensures
        r as int == days_in_month_of(year as int, month as int),
{
    time::util::days_in_month(time::Month::try_from(month).unwrap(), year)
}

/// A date and a time of day without an offset, down to the nanosecond.
#[derive(Clone, Copy, Debug, PartialEq, Eq, Hash, Structural)]
pub struct DateTime {
    pub year: i32,
    pub month: u8,
    pub day: u8,
    pub hour: u8,
    pub minute: u8,
    pub second: u8,
    pub nanosecond: u32,
}

/// The components of a time of day that `time` accepts.
pub open spec fn valid_time_of_day(hour: int, minute: int, second: int) -> bool {
    0 <= hour < 24 && 0 <= minute < 60 && 0 <= second < 60
}

impl DateTime {
    /// Every component is in range: a real calendar date of the years -9999 to
    /// 9999 and a real time of day.
    pub open spec fn wf(&self) -> bool {
        &&& -9999 <= self.year <= 9999
        &&& 1 <= self.month <= 12
        &&& 1 <= self.day <= days_in_month_of(self.year as int, self.month as int)
        &&& valid_time_of_day(self.hour as int, self.minute as int, self.second as int)
        &&& self.nanosecond < 1_000_000_000
    }

    /// Chronological order: `self` is not later than `other`.
    pub open spec fn le(&self, other: DateTime) -> bool {
        if self.year != other.year {
            self.year < other.year
        } else if self.month != other.month {
            self.month < other.month
        } else if self.day != other.day {
            self.day < other.day
        } else if self.hour != other.hour {
            self.hour < other.hour
        } else if self.minute != other.minute {
            self.minute < other.minute
        } else if self.second != other.second {
            self.second < other.second
        } else {
            self.nanosecond <= other.nanosecond
        }
    }

    /// Both values fall on the same calendar date.
    pub open spec fn same_date(&self, other: DateTime) -> bool {
        self.year == other.year && self.month == other.month && self.day == other.day
    }

    /// Builds a timestamp from its components; `None` where one is out of range.
    pub fn new(
        year: i32,
        month: u8,
        day: u8,
        hour: u8,
        minute: u8,
        second: u8,
        nanosecond: u32,
    ) -> (r: Option<DateTime>)
        ensures
            r is Some <==> (DateTime { year, month, day, hour, minute, second, nanosecond }).wf(),
            r is Some ==> r->Some_0 == (DateTime { year, month, day, hour, minute, second, nanosecond }),
    {
        if year < -9999 || year > 9999 || month < 1 || month > 12 || day < 1 || day > days_in_month(year, month) {
            return None;
        }
        if hour >= 24 || minute >= 60 || second >= 60 || nanosecond >= 1_000_000_000 {
            return None;
        }
        Some(DateTime { year, month, day, hour, minute, second, nanosecond })
    }
}

/// Relies on time::Time::from_hms: it accepts exactly the hours below 24 and the
/// minutes and seconds below 60, and keeps them as given.
#[verifier::external_body]
pub(crate) fn checked_time_of_day(hour: u8, minute: u8, second: u8) -> (r: Result<
    (u8, u8, u8),
    time::error::ComponentRange,
>)
    ensures
        r is Ok <==> valid_time_of_day(hour as int, minute as int, second as int),
        r is Ok ==> r->Ok_0 == (hour, minute, second),
{
    time::Time::from_hms(hour, minute, second).map(|t| (t.hour(), t.minute(), t.second()))
}

/// The text of a timestamp: date, a space, then the time of day.
pub uninterp spec fn datetime_text(
    year: int,
    month: int,
    day: int,
    hour: int,
    minute: int,
    second: int,
    nanosecond: int,
) -> Seq<char>;

/// Relies on the Display of time::PrimitiveDateTime: the text depends on the
/// components alone.
#[verifier::external_body]
pub(crate) fn display_datetime(t: DateTime) -> (r: String)
    requires
        t.wf(),
    ensures
        r@ == datetime_text(
            t.year as int,
            t.month as int,
            t.day as int,
            t.hour as int,
            t.minute as int,
            t.second as int,
            t.nanosecond as int,
        ),
{
    let month = time::Month::try_from(t.month).unwrap();
    let date = time::Date::from_calendar_date(t.year, month, t.day).unwrap();
    let time = time::Time::from_hms_nano(t.hour, t.minute, t.second, t.nanosecond).unwrap();
    time::PrimitiveDateTime::new(date, time).to_string()
}

#[verifier::external_type_specification]
#[verifier::external_body]
pub struct ExComponentRange(time::error::ComponentRange);

} // verus!
