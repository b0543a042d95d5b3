//! Calendar days, as the event records store them.

use vstd::prelude::*;
use chrono::Datelike;

verus! {

/// A day of the proleptic Gregorian calendar.
#[derive(Debug, Clone, PartialEq, Eq)]
pub struct CalendarDate {
    pub year: i32,
    pub month: u32,
    pub day: u32,
}

pub open spec fn is_leap_year(year: int) -> bool {
    (year % 4 == 0 && year % 100 != 0) || year % 400 == 0
}

pub open spec fn days_in_month(year: int, month: int) -> int {
    if month == 2 {
        if is_leap_year(year) { 29 } else { 28 }
    } else if month == 4 || month == 6 || month == 9 || month == 11 {
        30
    } else {
        31
    }
}

/// `month` and `day` name an existing day of `year`.
pub open spec fn is_valid_date(year: int, month: int, day: int) -> bool {
    1 <= month <= 12 && 1 <= day <= days_in_month(year, month)
}

/// The format the service reads event days in.
pub open spec fn event_date_format() -> Seq<char> {
    "%Y-%m-%d"@
}

/// What `chrono::NaiveDate::parse_from_str(text, fmt)` gives, as (year, month, day),
/// or `None` where it returns an error.
pub uninterp spec fn chrono_parse_date(text: Seq<char>, fmt: Seq<char>) -> Option<(i32, u32, u32)>;

/// `chrono::NaiveDate::parse_from_str`, read back with `year`, `month` and `day`.
///
/// The result is named (`chrono_parse_date`): chrono's format language is its own. The
/// one fact claimed beside the name is chrono's documented guarantee that a parsed
/// `NaiveDate` is an existing calendar day (out-of-bound dates are errors).
#[verifier::external_body]
fn naive_date_parse(text: &str, fmt: &str) -> (r: Option<(i32, u32, u32)>)
    ensures
        r == chrono_parse_date(text@, fmt@),
        r matches Some(ymd) ==> is_valid_date(ymd.0 as int, ymd.1 as int, ymd.2 as int),
{
    chrono::NaiveDate::parse_from_str(text, fmt).ok().map(|d| (d.year(), d.month(), d.day()))
}

/// The day `text` names in the event format `%Y-%m-%d`, as chrono reads it.
pub open spec fn parsed_event_date(text: Seq<char>) -> Option<(i32, u32, u32)> {
    chrono_parse_date(text, event_date_format())
}

/// Reads an event day written `YYYY-MM-DD`; `None` where chrono refuses the text.
pub fn parse_event_date(text: &str) -> (r: Option<CalendarDate>)
    ensures
        r is Some <==> parsed_event_date(text@) is Some,
        r matches Some(d) ==> parsed_event_date(text@) == Some((d.year, d.month, d.day)),
        r matches Some(d) ==> is_valid_date(d.year as int, d.month as int, d.day as int),
{
    match naive_date_parse(text, "%Y-%m-%d") {
        Some((year, month, day)) => Some(CalendarDate { year, month, day }),
        None => None,
    }
}


/// Event days are read with the format `%Y-%m-%d`.
pub proof fn event_days_are_read_as_year_month_day(text: Seq<char>)
    ensures
        parsed_event_date(text) == chrono_parse_date(text, "%Y-%m-%d"@),
{
}

} // verus!
