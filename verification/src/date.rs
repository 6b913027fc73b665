//! Calendar dates as the catalogue stores them.

use crate::text::str_eq;
use vstd::prelude::*;

verus! {

/// A calendar date: year, month (1 to 12) and day of the month (1 to 31).
#[derive(Clone, Copy, Debug, PartialEq, Eq, Structural, Hash)]
pub struct Date {
    pub year: i32,
    pub month: u32,
    pub day: u32,
}

/// The text that stands for "no date" in an entry's front matter.
pub open spec fn no_date_text() -> Seq<char> {
    seq!['N', '/', 'A']
}

/// The date format of front matter and of query bounds.
pub open spec fn date_format() -> Seq<char> {
    seq!['%', 'Y', '-', '%', 'm', '-', '%', 'd']
}

/// Whether `a` lies strictly before `b` in the calendar.
pub open spec fn date_before(a: Date, b: Date) -> bool {
    a.year < b.year || (a.year == b.year && (a.month < b.month || (a.month == b.month && a.day
        < b.day)))
}

/// The date that chrono's `NaiveDate::parse_from_str` reads from `text` under
/// `format`, as year, month and day; `None` where it reports an error.
pub uninterp spec fn parsed_date(text: Seq<char>, format: Seq<char>) -> Option<Date>;

/// The milliseconds between the start of 1970 (UTC) and midnight at the start
/// of the given day, as chrono computes them; `None` where chrono has no such
/// date.
pub uninterp spec fn midnight_millis(year: i32, month: u32, day: u32) -> Option<i64>;

/// Calls `chrono::NaiveDate::parse_from_str` and reads year, month and day off
/// the result with `chrono::Datelike`. Trusted: the result is the named
/// `parsed_date`.
#[verifier::external_body]
fn parse_date_with(text: &str, format: &str) -> (r: Option<Date>)
    ensures
        r == parsed_date(text@, format@),
{
    match chrono::NaiveDate::parse_from_str(text, format) {
        Ok(d) => Some(
            Date {
                year: chrono::Datelike::year(&d),
                month: chrono::Datelike::month(&d),
                day: chrono::Datelike::day(&d),
            },
        ),
        Err(_) => None,
    }
}

/// Calls `chrono::NaiveDate::from_ymd_opt`, then takes the timestamp in
/// milliseconds of that day's midnight in UTC. Trusted: the result is the
/// named `midnight_millis`.
#[verifier::external_body]
fn millis_at_midnight(year: i32, month: u32, day: u32) -> (r: Option<i64>)
    ensures
        r == midnight_millis(year, month, day),
{
    match chrono::NaiveDate::from_ymd_opt(year, month, day) {
        Some(d) => Some(d.and_time(chrono::NaiveTime::MIN).and_utc().timestamp_millis()),
        None => None,
    }
}

/// Why a date text was refused.
#[derive(Clone, Copy, Debug, PartialEq, Eq, Structural)]
pub enum DateError {
    /// The text is neither the no-date marker nor a date in `%Y-%m-%d`.
    Invalid,
}

/// What a front-matter date field means, given whether it is the no-date
/// marker and what the date parser made of it.
pub open spec fn optional_date_of(is_marker: bool, parsed: Option<Date>) -> Result<
    Option<Date>,
    DateError,
> {
    if is_marker {
        Ok(None)
    } else {
        match parsed {
            Some(d) => Ok(Some(d)),
            None => Err(DateError::Invalid),
        }
    }
}

impl Date {
    /// Whether this date lies strictly before `other`.
    pub fn is_before(&self, other: &Date) -> (r: bool)
        ensures
            r == date_before(*self, *other),
    {
        self.year < other.year || (self.year == other.year && (self.month < other.month || (
        self.month == other.month && self.day < other.day)))
    }

    /// Reads a date written as `%Y-%m-%d`.
    pub fn parse(text: &str) -> (r: Option<Date>)
        ensures
            r == parsed_date(text@, date_format()),
    {
        proof {
            reveal_strlit("%Y-%m-%d");
        }
        assert("%Y-%m-%d"@ =~= date_format());
        parse_date_with(text, "%Y-%m-%d")
    }

    /// The timestamp in milliseconds of this day's midnight in UTC, where the
    /// calendar has such a day.
    pub fn timestamp_millis(&self) -> (r: Option<i64>)
        ensures
            r == midnight_millis(self.year, self.month, self.day),
    {
        millis_at_midnight(self.year, self.month, self.day)
    }
}

/// Decides a front-matter date field from the two facts about its text.
pub fn resolve_optional_date(is_marker: bool, parsed: Option<Date>) -> (r: Result<
    Option<Date>,
    DateError,
>)
    ensures
        r == optional_date_of(is_marker, parsed),
{
    if is_marker {
        Ok(None)
    } else {
        match parsed {
            Some(d) => Ok(Some(d)),
            None => Err(DateError::Invalid),
        }
    }
}

/// Reads an entry's finishing date: the marker `N/A` means the entry has
/// none, any other text must be a date in `%Y-%m-%d`.
pub fn deserialize_optional_date(text: &str) -> (r: Result<Option<Date>, DateError>)
    ensures
        r == optional_date_of(text@ == no_date_text(), parsed_date(text@, date_format())),
{
    proof {
        reveal_strlit("N/A");
    }
    assert("N/A"@ =~= no_date_text());
    let is_marker = str_eq(text, "N/A");
    if is_marker {
        resolve_optional_date(true, None)
    } else {
        resolve_optional_date(false, Date::parse(text))
    }
}

} // verus!
