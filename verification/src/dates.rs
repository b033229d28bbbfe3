//! The date normalizer: one canonical timestamp, in universal time, out of
//! the date dialects that feed documents are written in.

use crate::timestamp::{is_calendar_date, Timestamp};
use chrono::{Datelike, Timelike};
use std::str::FromStr;
use vstd::prelude::*;

verus! {

/// RFC 2822 with a numeric offset, as in `Tue, 02 Jan 2024 12:00:00 +0100`,
/// which is eleven o'clock in universal time.
pub const RFC2822_OFFSET: &'static str = "%a, %d %b %Y %T %z";

/// RFC 2822 with the zone written `UT`.
pub const RFC2822_UT: &'static str = "%a, %d %b %Y %T UT";

/// RFC 2822 with the zone written `GMT`.
pub const RFC2822_GMT: &'static str = "%a, %d %b %Y %T GMT";

/// ISO 8601 with a numeric offset, as in `2024-01-02T12:00:00+01:00`, which
/// is eleven o'clock in universal time.
pub const ISO8601_OFFSET: &'static str = "%Y-%m-%dT%H:%M:%S%:z";

/// Whether `format` is one of the two grammars with a numeric offset.
pub open spec fn is_offset_grammar(format: Seq<char>) -> bool {
    format == RFC2822_OFFSET@ || format == ISO8601_OFFSET@
}

/// Whether `format` is one of the two grammars that name the zone of
/// universal time.
pub open spec fn is_universal_grammar(format: Seq<char>) -> bool {
    format == RFC2822_UT@ || format == RFC2822_GMT@
}

/// What `chrono::DateTime::parse_from_str` makes of `text` under `format`:
/// the instant that was read, as its date and time of day in universal
/// time, or nothing where the text does not fit the format.
pub uninterp spec fn chrono_parse_zoned(text: Seq<char>, format: Seq<char>) -> Option<Timestamp>;

/// What `chrono::NaiveDateTime::parse_from_str` makes of `text` under
/// `format`: the date and time of day that were read, or nothing where the
/// text does not fit the format.
pub uninterp spec fn chrono_parse_from_str(text: Seq<char>, format: Seq<char>) -> Option<Timestamp>;

/// What `chrono::NaiveDateTime::from_str` makes of `text`: a bare ISO 8601
/// date and time without zone, or nothing.
pub uninterp spec fn chrono_from_str(text: Seq<char>) -> Option<Timestamp>;

/// Calls `chrono::DateTime::parse_from_str`, which reads the text with its
/// offset, and copies the fields of `naive_utc` of what it read: the date
/// and time of day of that instant in universal time. Trusted: the result
/// is a function of the two texts, and a date that chrono hands out exists
/// in the calendar. The offsets that these grammars admit are whole
/// minutes, so a leap second stays at second 59.
#[verifier::external_body]
fn parse_zoned(text: &str, format: &str) -> (r: Option<Timestamp>)
    requires
        is_offset_grammar(format@),
    ensures
        r == chrono_parse_zoned(text@, format@),
        r matches Some(t) ==> t.wf(),
{
    match chrono::DateTime::parse_from_str(text, format).map(|zoned| zoned.naive_utc()) {
        Ok(d) => Some(
            Timestamp {
                year: d.year(),
                month: d.month(),
                day: d.day(),
                hour: d.hour(),
                minute: d.minute(),
                second: d.second(),
                nanos: d.nanosecond(),
            },
        ),
        Err(_) => None,
    }
}

/// Calls `chrono::NaiveDateTime::parse_from_str` and copies the fields of
/// the date it read. Trusted: the result is a function of the two texts, and
/// a date that chrono hands out exists in the calendar.
#[verifier::external_body]
fn parse_universal(text: &str, format: &str) -> (r: Option<Timestamp>)
    requires
        is_universal_grammar(format@),
    ensures
        r == chrono_parse_from_str(text@, format@),
        r matches Some(t) ==> t.wf(),
{
    match chrono::NaiveDateTime::parse_from_str(text, format) {
        Ok(d) => Some(
            Timestamp {
                year: d.year(),
                month: d.month(),
                day: d.day(),
                hour: d.hour(),
                minute: d.minute(),
                second: d.second(),
                nanos: d.nanosecond(),
            },
        ),
        Err(_) => None,
    }
}

/// Calls `chrono::NaiveDateTime::from_str` and copies the fields of the date
/// it read. Trusted: the result is a function of the text, and a date that
/// chrono hands out exists in the calendar.
#[verifier::external_body]
fn parse_bare_iso(text: &str) -> (r: Option<Timestamp>)
    ensures
        r == chrono_from_str(text@),
        r matches Some(t) ==> t.wf(),
{
    match chrono::NaiveDateTime::from_str(text) {
        Ok(d) => Some(
            Timestamp {
                year: d.year(),
                month: d.month(),
                day: d.day(),
                hour: d.hour(),
                minute: d.minute(),
                second: d.second(),
                nanos: d.nanosecond(),
            },
        ),
        Err(_) => None,
    }
}

/// The digit that writes a number below ten.
pub open spec fn digit(n: int) -> char {
    seq!['0', '1', '2', '3', '4', '5', '6', '7', '8', '9'][n]
}

/// A number in decimal digits, without leading zeros.
pub open spec fn decimal(n: nat) -> Seq<char>
    decreases n,
{
    if n < 10 {
        seq![digit(n as int)]
    } else {
        decimal(n / 10).push(digit((n % 10) as int))
    }
}

/// A number in decimal digits, with zeros before it up to the width
/// `width`.
pub open spec fn zero_padded(n: nat, width: nat) -> Seq<char> {
    if decimal(n).len() >= width {
        decimal(n)
    } else {
        Seq::new((width - decimal(n).len()) as nat, |i: int| '0') + decimal(n)
    }
}

/// A year in at least four digits, and with its sign where it is before
/// the year 0 or after the year 9999.
pub open spec fn year_text(year: int) -> Seq<char> {
    if 0 <= year <= 9999 {
        zero_padded(year as nat, 4)
    } else if year < 0 {
        seq!['-'] + zero_padded((-year) as nat, 4)
    } else {
        seq!['+'] + zero_padded(year as nat, 4)
    }
}

/// A day as its month and its day in two digits each and its year, with
/// hyphens between.
pub open spec fn calendar_text(year: int, month: int, day: int) -> Seq<char> {
    zero_padded(month as nat, 2) + seq!['-'] + zero_padded(day as nat, 2) + seq!['-'] + year_text(
        year,
    )
}

/// Builds the day with `chrono::NaiveDate::from_ymd_opt` and writes it with
/// `chrono::NaiveDate::format` under `%m-%d-%Y`. Trusted: chrono has
/// exactly the days that exist in the calendar between its first and last
/// year, and it writes month and day zero-padded to two digits and the
/// year zero-padded to four, signed where it is outside 0 to 9999.
#[verifier::external_body]
fn format_month_day_year(year: i32, month: u32, day: u32) -> (r: Option<String>)
    ensures
        r is Some <==> is_calendar_date(year as int, month as int, day as int),
        r matches Some(text) ==> text@ == calendar_text(year as int, month as int, day as int),
{
    chrono::NaiveDate::from_ymd_opt(year, month, day).map(|d| d.format("%m-%d-%Y").to_string())
}

/// The first of two readings that succeeded.
pub open spec fn or_else(first: Option<Timestamp>, second: Option<Timestamp>) -> Option<Timestamp> {
    if first is Some {
        first
    } else {
        second
    }
}

/// The first of five readings that succeeded.
pub open spec fn first_of_five(
    first: Option<Timestamp>,
    second: Option<Timestamp>,
    third: Option<Timestamp>,
    fourth: Option<Timestamp>,
    fifth: Option<Timestamp>,
) -> Option<Timestamp> {
    or_else(first, or_else(second, or_else(third, or_else(fourth, fifth))))
}

/// The date that a text stands for: the reading of the first grammar that
/// accepts it, the grammars tried in a fixed order. A text with a numeric
/// offset stands for its instant in universal time; a text that names
/// universal time or no zone stands for the date and time it writes.
pub open spec fn date_of_text(text: Seq<char>) -> Option<Timestamp> {
    first_of_five(
        chrono_parse_zoned(text, RFC2822_OFFSET@),
        chrono_parse_from_str(text, RFC2822_UT@),
        chrono_parse_from_str(text, RFC2822_GMT@),
        chrono_parse_zoned(text, ISO8601_OFFSET@),
        chrono_from_str(text),
    )
}

/// Whether one of the grammars accepts the text.
pub open spec fn is_parsable(text: Seq<char>) -> bool {
    ||| chrono_parse_zoned(text, RFC2822_OFFSET@) is Some
    ||| chrono_parse_from_str(text, RFC2822_UT@) is Some
    ||| chrono_parse_from_str(text, RFC2822_GMT@) is Some
    ||| chrono_parse_zoned(text, ISO8601_OFFSET@) is Some
    ||| chrono_from_str(text) is Some
}

/// The timestamp of an optional date field: absent where the field is, and
/// where no grammar accepts it.
pub open spec fn normalized_date(raw: Option<Seq<char>>) -> Option<Timestamp> {
    match raw {
        Some(text) => date_of_text(text),
        None => None,
    }
}

/// Picks the first of five readings that succeeded: the reading of the
/// first grammar that accepted a text, from the readings of all five in
/// their order.
pub fn first_reading(
    first: Option<Timestamp>,
    second: Option<Timestamp>,
    third: Option<Timestamp>,
    fourth: Option<Timestamp>,
    fifth: Option<Timestamp>,
) -> (r: Option<Timestamp>)
    ensures
        r == first_of_five(first, second, third, fourth, fifth),
{
    if first.is_some() {
        first
    } else if second.is_some() {
        second
    } else if third.is_some() {
        third
    } else if fourth.is_some() {
        fourth
    } else {
        fifth
    }
}

/// Reads one date text under each of the five grammars and keeps the
/// reading of the first that accepts it.
pub fn parse_date_text(text: &str) -> (r: Option<Timestamp>)
    ensures
        r == date_of_text(text@),
        r matches Some(t) ==> t.wf(),
{
    first_reading(
        parse_zoned(text, RFC2822_OFFSET),
        parse_universal(text, RFC2822_UT),
        parse_universal(text, RFC2822_GMT),
        parse_zoned(text, ISO8601_OFFSET),
        parse_bare_iso(text),
    )
}

/// Normalizes the date field of a feed or of an entry. A field that is
/// missing or that no grammar accepts gives nothing; it is never an error.
pub fn parse_rss_date(maybe_date: Option<&str>) -> (r: Option<Timestamp>)
    ensures
        r == normalized_date(maybe_date.deep_view()),
        r matches Some(t) ==> t.wf(),
{
    match maybe_date {
        Some(date) => parse_date_text(date),
        None => None,
    }
}

/// The day of a timestamp as month, day and year with hyphens between.
pub open spec fn month_day_year(t: Timestamp) -> Seq<char> {
    calendar_text(t.year as int, t.month as int, t.day as int)
}

/// Writes the day of a timestamp as month, day and year.
pub fn date_text(t: &Timestamp) -> (r: String)
    requires
        t.wf(),
    ensures
        r@ == month_day_year(*t),
{
    format_month_day_year(t.year, t.month, t.day).unwrap()
}

/// A present date field has a timestamp exactly where a grammar accepts it.
pub proof fn date_is_absent_iff_unparsable(text: Seq<char>)
    ensures
        normalized_date(Some(text)) is Some <==> is_parsable(text),
        normalized_date(None) is None,
{
}

} // verus!
