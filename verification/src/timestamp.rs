//! The canonical timestamp: a calendar date and a wall-clock time without zone.

use vstd::prelude::*;

verus! {

/// The earliest year a timestamp may carry.
pub const MIN_YEAR: i32 = -262143;

/// The latest year a timestamp may carry.
pub const MAX_YEAR: i32 = 262142;

/// A date of the proleptic Gregorian calendar with a time of day, to the
/// nanosecond. A leap second is written as second 59 with a nanosecond part
/// of one billion or more. The type carries no zone: the engine keeps every
/// timestamp in universal time, so that two of them compare as instants.
#[derive(Clone, Copy, Debug, PartialEq, Eq, Structural)]
pub struct Timestamp {
    pub year: i32,
    pub month: u32,
    pub day: u32,
    pub hour: u32,
    pub minute: u32,
    pub second: u32,
    pub nanos: u32,
}

/// Whether `year` has a 29th of February.
pub open spec fn is_leap_year(year: int) -> bool {
    year % 4 == 0 && (year % 100 != 0 || year % 400 == 0)
}

/// The number of days of `month` in `year`, and 0 where `month` is no month.
pub open spec fn days_in_month(year: int, month: int) -> int {
    if month == 2 {
        if is_leap_year(year) {
            29
        } else {
            28
        }
    } else if month == 4 || month == 6 || month == 9 || month == 11 {
        30
    } else if 1 <= month <= 12 {
        31
    } else {
        0
    }
}

/// Whether the day exists in the calendar and its year is in range.
pub open spec fn is_calendar_date(year: int, month: int, day: int) -> bool {
    &&& MIN_YEAR <= year <= MAX_YEAR
    &&& 1 <= month <= 12
    &&& 1 <= day <= days_in_month(year, month)
}

/// Whether the fields give a time of day, a leap second included.
pub open spec fn is_time_of_day(hour: int, minute: int, second: int, nanos: int) -> bool {
    &&& 0 <= hour < 24
    &&& 0 <= minute < 60
    &&& 0 <= second < 60
    &&& 0 <= nanos
    &&& nanos < 1_000_000_000 || (second == 59 && nanos < 2_000_000_000)
}

impl Timestamp {
    /// The fields name an existing day and a time of that day.
    pub open spec fn wf(self) -> bool {
        &&& is_calendar_date(self.year as int, self.month as int, self.day as int)
        &&& is_time_of_day(
            self.hour as int,
            self.minute as int,
            self.second as int,
            self.nanos as int,
        )
    }

    /// `self` is strictly later than `other`: the fields compared in turn,
    /// from the year down to the nanoseconds.
    pub open spec fn after(self, other: Timestamp) -> bool {
        if self.year != other.year {
            self.year > other.year
        } else if self.month != other.month {
            self.month > other.month
        } else if self.day != other.day {
            self.day > other.day
        } else if self.hour != other.hour {
            self.hour > other.hour
        } else if self.minute != other.minute {
            self.minute > other.minute
        } else if self.second != other.second {
            self.second > other.second
        } else {
            self.nanos > other.nanos
        }
    }

    /// Builds the timestamp of a whole second, or nothing where the fields
    /// name no existing day or time.
    pub fn new(year: i32, month: u32, day: u32, hour: u32, minute: u32, second: u32) -> (r: Option<
        Timestamp,
    >)
        ensures
            r is Some <==> is_calendar_date(year as int, month as int, day as int)
                && is_time_of_day(hour as int, minute as int, second as int, 0),
            r matches Some(t) ==> t == (Timestamp {
                year,
                month,
                day,
                hour,
                minute,
                second,
                nanos: 0,
            }),
    {
        let t = Timestamp { year, month, day, hour, minute, second, nanos: 0 };
        if t.is_well_formed() {
            Some(t)
        } else {
            None
        }
    }

    /// Tests `wf`.
    pub fn is_well_formed(&self) -> (r: bool)
        ensures
            r == self.wf(),
    {
        if self.year < MIN_YEAR || self.year > MAX_YEAR {
            return false;
        }
        if self.month < 1 || self.month > 12 || self.day < 1 {
            return false;
        }
        if self.day > month_length(self.year, self.month) {
            return false;
        }
        if self.hour >= 24 || self.minute >= 60 || self.second >= 60 {
            return false;
        }
        self.nanos < 1_000_000_000 || (self.second == 59 && self.nanos < 2_000_000_000)
    }

    /// Tests `after`.
    pub fn is_after(&self, other: &Timestamp) -> (r: bool)
        ensures
            r == self.after(*other),
    {
        if self.year != other.year {
            self.year > other.year
        } else if self.month != other.month {
            self.month > other.month
        } else if self.day != other.day {
            self.day > other.day
        } else if self.hour != other.hour {
            self.hour > other.hour
        } else if self.minute != other.minute {
            self.minute > other.minute
        } else if self.second != other.second {
            self.second > other.second
        } else {
            self.nanos > other.nanos
        }
    }
}

/// Computes `is_leap_year`.
pub fn leap_year(year: i32) -> (r: bool)
    ensures
        r == is_leap_year(year as int),
{
    // 2_147_484_000 is a multiple of 400 that lifts every year above zero.
    let lifted: i64 = year as i64 + 2_147_484_000;
    lifted % 4 == 0 && (lifted % 100 != 0 || lifted % 400 == 0)
}

/// Computes `days_in_month`.
pub fn month_length(year: i32, month: u32) -> (r: u32)
    ensures
        r == days_in_month(year as int, month as int),
{
    if month == 2 {
        if leap_year(year) {
            29
        } else {
            28
        }
    } else if month == 4 || month == 6 || month == 9 || month == 11 {
        30
    } else if 1 <= month && month <= 12 {
        31
    } else {
        0
    }
}

/// No timestamp is later than itself.
pub proof fn after_is_irreflexive(a: Timestamp)
    ensures
        !a.after(a),
{
}

/// Of two timestamps at most one is later than the other.
pub proof fn after_is_asymmetric(a: Timestamp, b: Timestamp)
    ensures
        !(a.after(b) && b.after(a)),
{
}

/// Later than something later is later.
pub proof fn after_is_transitive(a: Timestamp, b: Timestamp, c: Timestamp)
    requires
        a.after(b),
        b.after(c),
    ensures
        a.after(c),
{
}

/// Two timestamps of which neither is later than the other are equal.
pub proof fn after_is_total(a: Timestamp, b: Timestamp)
    ensures
        a.after(b) || b.after(a) || a == b,
{
}

} // verus!
