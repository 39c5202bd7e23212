//! Calendar dates of log files, and the `chrono` calls that read, write and
//! shift them.
use vstd::prelude::*;

use chrono::Datelike;

verus! {

/// A calendar date as plain numbers, standing for a `chrono::NaiveDate`.
#[derive(Debug, Clone, Copy, PartialEq, Eq, Hash, Structural)]
pub struct CalendarDate {
    pub year: i32,
    pub month: u32,
    pub day: u32,
}

/// The date that `chrono::NaiveDate::parse_from_str(text, "%Y-%m-%d")`
/// reads from `text`, or `None` when it rejects the text.
pub uninterp spec fn parsed_iso_date(text: Seq<char>) -> Option<CalendarDate>;

/// The text that `chrono` writes for a date with the format `%Y-%m-%d`, or
/// `None` when `NaiveDate::from_ymd_opt` rejects the numbers as a date.
pub uninterp spec fn iso_date_text(year: i32, month: u32, day: u32) -> Option<Seq<char>>;

/// The date `days` days before the given one by `NaiveDate::checked_sub_signed`,
/// or `None` when the numbers are no date or the result leaves chrono's range.
pub uninterp spec fn date_days_before(year: i32, month: u32, day: u32, days: u16) -> Option<CalendarDate>;

/// Calls `NaiveDate::parse_from_str(text, "%Y-%m-%d")` and reads the year,
/// month and day of the result; the result is named `parsed_iso_date`.
#[verifier::external_body]
pub(crate) fn parse_iso_date(text: &str) -> (r: Option<CalendarDate>)
    ensures
        r == parsed_iso_date(text@),
{
    match chrono::NaiveDate::parse_from_str(text, "%Y-%m-%d") {
        Ok(d) => Some(CalendarDate { year: d.year(), month: d.month(), day: d.day() }),
        Err(_) => None,
    }
}

/// Calls `NaiveDate::from_ymd_opt` and formats the date with `%Y-%m-%d`;
/// the result is named `iso_date_text`. chrono writes the year as four
/// zero-padded digits (with a sign outside 0..=9999) and month and day as two
/// digits, and `parse_from_str` with the same format reads exactly those
/// widths and signs back, so the text parses to the same date.
#[verifier::external_body]
pub(crate) fn format_iso_date(date: CalendarDate) -> (r: Option<String>)
    ensures
        match r {
            Some(s) => iso_date_text(date.year, date.month, date.day) == Some(s@),
            None => iso_date_text(date.year, date.month, date.day) is None,
        },
        r matches Some(s) ==> parsed_iso_date(s@) == Some(date),
{
    match chrono::NaiveDate::from_ymd_opt(date.year, date.month, date.day) {
        Some(d) => Some(d.format("%Y-%m-%d").to_string()),
        None => None,
    }
}

/// Calls `NaiveDate::from_ymd_opt` and `NaiveDate::checked_sub_signed` with
/// `TimeDelta::days(days)`, the checked form of `date - TimeDelta::days(days)`;
/// the result is named `date_days_before`. As chrono documents, a result is
/// the date that many days earlier: never later, and the same date only when
/// no day is subtracted.
#[verifier::external_body]
fn subtract_days(date: CalendarDate, days: u16) -> (r: Option<CalendarDate>)
    ensures
        r == date_days_before(date.year, date.month, date.day, days),
        r matches Some(e) ==> date_le(e, date),
        r matches Some(e) ==> (e == date <==> days == 0),
{
    match chrono::NaiveDate::from_ymd_opt(date.year, date.month, date.day) {
        Some(d) => match d.checked_sub_signed(chrono::TimeDelta::days(days as i64)) {
            Some(e) => Some(CalendarDate { year: e.year(), month: e.month(), day: e.day() }),
            None => None,
        },
        None => None,
    }
}

/// Chronological order of dates: by year, then month, then day.
pub open spec fn date_le(a: CalendarDate, b: CalendarDate) -> bool {
    a.year < b.year || (a.year == b.year && (a.month < b.month || (a.month == b.month && a.day
        <= b.day)))
}

/// Dates are ordered as the calendar orders them: an earlier year comes
/// first whatever the month and day, within a year an earlier month comes
/// first whatever the day, and within a month the earlier day. The order is
/// total, reflexive, antisymmetric and transitive.
pub proof fn law_date_order_is_chronological(a: CalendarDate, b: CalendarDate, c: CalendarDate)
    ensures
        a.year < b.year ==> date_le(a, b) && !date_le(b, a),
        a.year == b.year && a.month < b.month ==> date_le(a, b) && !date_le(b, a),
        a.year == b.year && a.month == b.month ==> (date_le(a, b) <==> a.day <= b.day),
        date_le(a, a),
        date_le(a, b) || date_le(b, a),
        date_le(a, b) && date_le(b, a) ==> a == b,
        date_le(a, b) && date_le(b, c) ==> date_le(a, c),
{
}

/// Compares two dates chronologically.
pub fn date_not_after(a: CalendarDate, b: CalendarDate) -> (r: bool)
    ensures
        r == date_le(a, b),
{
    a.year < b.year || (a.year == b.year && (a.month < b.month || (a.month == b.month && a.day
        <= b.day)))
}

/// The last day whose log files are removed when files are kept for
/// `retention_days` days counted back from `today`; `None` when chrono
/// cannot represent that day.
pub fn cleanup_expiration(today: CalendarDate, retention_days: u16) -> (r: Option<CalendarDate>)
    ensures
        r == date_days_before(today.year, today.month, today.day, retention_days),
        retention_days >= 1 ==> (r matches Some(e) ==> date_le(e, today) && e != today),
{
    subtract_days(today, retention_days)
}

} // verus!
