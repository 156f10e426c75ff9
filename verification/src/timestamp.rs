//! Calendar timestamps without a time zone.

use vstd::prelude::*;

verus! {

/// The first year that a timestamp can carry.
pub const MIN_YEAR: i32 = -262143;

/// The last year that a timestamp can carry.
pub const MAX_YEAR: i32 = 262142;

/// A point on the calendar, as six numbers.
pub struct CivilTime {
    pub year: int,
    pub month: int,
    pub day: int,
    pub hour: int,
    pub minute: int,
    pub second: int,
}

/// Whether `year` has a 29th of February in the Gregorian calendar.
pub open spec fn is_leap_year(year: int) -> bool {
    year % 4 == 0 && (year % 100 != 0 || year % 400 == 0)
}

/// The number of days of `month` in `year`; 0 where `month` is no month.
pub open spec fn days_in_month(year: int, month: int) -> int {
    if month == 2 {
        if is_leap_year(year) {
            29
        } else {
            28
        }
    } else if month == 4 || month == 6 || month == 9 || month == 11 {
        30
    } else if 1 <= month <= 12 {
        31
    } else {
        0
    }
}

/// Whether the six numbers name a day that exists and a time of that day.
pub open spec fn is_calendar_time(t: CivilTime) -> bool {
    &&& MIN_YEAR <= t.year <= MAX_YEAR
    &&& 1 <= t.month <= 12
    &&& 1 <= t.day <= days_in_month(t.year, t.month)
    &&& 0 <= t.hour < 24
    &&& 0 <= t.minute < 60
    &&& 0 <= t.second < 60
}

/// A date and time of day with no time zone: every time is taken as local.
///
/// Every value names a day that exists.
#[derive(Clone, Copy, Debug, PartialEq, Eq, Structural)]
pub struct Timestamp {
    year: i32,
    month: u32,
    day: u32,
    hour: u32,
    minute: u32,
    second: u32,
}

impl View for Timestamp {
    type V = CivilTime;

    closed spec fn view(&self) -> CivilTime {
        CivilTime {
            year: self.year as int,
            month: self.month as int,
            day: self.day as int,
            hour: self.hour as int,
            minute: self.minute as int,
            second: self.second as int,
        }
    }
}

/// The six numbers as one value.
pub open spec fn civil(year: int, month: int, day: int, hour: int, minute: int, second: int)
    -> CivilTime {
    CivilTime { year, month, day, hour, minute, second }
}

/// The timestamp that shows `t`; it is meant for a `t` that names a day that
/// exists.
pub closed spec fn timestamp_of(t: CivilTime) -> Timestamp {
    Timestamp {
        year: t.year as i32,
        month: t.month as u32,
        day: t.day as u32,
        hour: t.hour as u32,
        minute: t.minute as u32,
        second: t.second as u32,
    }
}

/// The timestamp that shows `t`, where `t` names a day that exists.
pub open spec fn timestamp_at(t: CivilTime) -> Option<Timestamp> {
    if is_calendar_time(t) {
        Some(timestamp_of(t))
    } else {
        None
    }
}

/// The executable form of `is_leap_year`.
fn leap_year(year: i32) -> (leap: bool)
    ensures
        leap == is_leap_year(year as int),
{
    year % 4 == 0 && (year % 100 != 0 || year % 400 == 0)
}

/// The executable form of `days_in_month`.
fn month_length(year: i32, month: u32) -> (days: u32)
    ensures
        days == days_in_month(year as int, month as int),
{
    if month == 2 {
        if leap_year(year) {
            29
        } else {
            28
        }
    } else if month == 4 || month == 6 || month == 9 || month == 11 {
        30
    } else if 1 <= month && month <= 12 {
        31
    } else {
        0
    }
}

impl Timestamp {
    /// What holds of every timestamp that a program can hold.
    #[verifier::type_invariant]
    pub open spec fn well_formed(self) -> bool {
        is_calendar_time(self@)
    }

    /// The timestamp with these six numbers, if they name a day that exists
    /// and a time of that day.
    pub fn new(year: i32, month: u32, day: u32, hour: u32, minute: u32, second: u32) -> (made:
        Option<Timestamp>)
        ensures
            made == timestamp_at(
                civil(year as int, month as int, day as int, hour as int, minute as int, second as int),
            ),
            made matches Some(date) ==> date@ == civil(
                year as int,
                month as int,
                day as int,
                hour as int,
                minute as int,
                second as int,
            ),
    {
        if year < MIN_YEAR || year > MAX_YEAR {
            return None;
        }
        if month < 1 || month > 12 {
            return None;
        }
        if day < 1 || day > month_length(year, month) {
            return None;
        }
        if hour >= 24 || minute >= 60 || second >= 60 {
            return None;
        }
        Some(Timestamp { year, month, day, hour, minute, second })
    }

    /// The year.
    pub fn year(&self) -> (year: i32)
        ensures
            year == self@.year,
    {
        self.year
    }

    /// The month, from 1 to 12.
    pub fn month(&self) -> (month: u32)
        ensures
            month == self@.month,
            1 <= month <= 12,
    {
        proof {
            use_type_invariant(self);
        }
        self.month
    }

    /// The day of the month, from 1.
    pub fn day(&self) -> (day: u32)
        ensures
            day == self@.day,
            1 <= day <= days_in_month(self@.year, self@.month),
    {
        proof {
            use_type_invariant(self);
        }
        self.day
    }

    /// The hour, from 0 to 23.
    pub fn hour(&self) -> (hour: u32)
        ensures
            hour == self@.hour,
            hour < 24,
    {
        proof {
            use_type_invariant(self);
        }
        self.hour
    }

    /// The minute, from 0 to 59.
    pub fn minute(&self) -> (minute: u32)
        ensures
            minute == self@.minute,
            minute < 60,
    {
        proof {
            use_type_invariant(self);
        }
        self.minute
    }

    /// The second, from 0 to 59.
    pub fn second(&self) -> (second: u32)
        ensures
            second == self@.second,
            second < 60,
    {
        proof {
            use_type_invariant(self);
        }
        self.second
    }
}

/// A timestamp shows the numbers it was made of.
pub proof fn lemma_timestamp_shows(t: CivilTime)
    requires
        is_calendar_time(t),
    ensures
        timestamp_of(t)@ == t,
{
}

/// A timestamp is the one that its six numbers make.
pub proof fn lemma_timestamp_is_made(date: Timestamp)
    ensures
        timestamp_of(date@) == date,
{
}

/// Two timestamps with the same six numbers are the same timestamp.
pub proof fn lemma_view_is_injective(a: Timestamp, b: Timestamp)
    requires
        a@ == b@,
    ensures
        a == b,
{
}

} // verus!
