//! Calendar days, as the `chrono` crate reads and writes them.
//!
//! A day is counted from the first of January of the year 1, which is day 1.

use vstd::prelude::*;
use chrono::Datelike;
use std::fmt::Write;
use crate::error::{DateParseError, MappingError};

verus! {

/// How a date is written in a sheet: day, month and year, separated by dots,
/// the day and the month without leading zeros.
pub const HUMAN_DATE_FORMAT: &'static str = "%-d.%-m.%Y";

/// A route counts as new for this many days after it was set.
pub const NEW_ROUTE_WITHIN_DAYS: u32 = 7;

#[verifier::external_type_specification]
#[verifier::external_body]
pub struct ExDateParseError(chrono::ParseError);

/// What `chrono` writes for the moment `secs` seconds after the Unix epoch,
/// in UTC, under a format; `None` where the moment is beyond its calendar or
/// the format cannot be written.
pub uninterp spec fn formatted_time(secs: int, format: Seq<char>) -> Option<Seq<char>>;

/// The day that `chrono` reads from a text under a format; `None` where the
/// text does not fit the format or names no day of the calendar.
pub uninterp spec fn parsed_day(text: Seq<char>, format: Seq<char>) -> Option<int>;

/// Calls `chrono::DateTime::from_timestamp` and writes the result with
/// `DateTime::format`. Trusted: the text is the one named by
/// [`formatted_time`], and there is none exactly when the moment is out of
/// range or the formatting reports an error.
#[verifier::external_body]
fn format_timestamp(secs: i64, format: &str) -> (text: Option<String>)
    ensures
        text is Some <==> formatted_time(secs as int, format@) is Some,
        text is Some ==> text->0@ == formatted_time(secs as int, format@)->0,
{
    let moment = chrono::DateTime::from_timestamp(secs, 0)?;
    let mut text = String::new();
    write!(text, "{}", moment.format(format)).ok()?;
    Some(text)
}

/// Calls `chrono::NaiveDate::parse_from_str` and counts the days of the
/// result with `Datelike::num_days_from_ce`. Trusted: the day is the one
/// named by [`parsed_day`], and the call fails exactly when there is none.
#[verifier::external_body]
fn parse_day(text: &str, format: &str) -> (day: Result<i32, chrono::ParseError>)
    ensures
        day is Ok <==> parsed_day(text@, format@) is Some,
        day is Ok ==> day->Ok_0 == parsed_day(text@, format@)->0,
{
    let date = chrono::NaiveDate::parse_from_str(text, format)?;
    Ok(date.num_days_from_ce())
}

/// Calls `chrono::Utc::now` and counts the days of its date. Trusted: nothing
/// is claimed of the result, which changes from one call to the next. The
/// call takes no input; it gives up only where the clock of the machine
/// stands before the year 1970.
#[verifier::external_body]
fn utc_today() -> i32 {
    chrono::Utc::now().date_naive().num_days_from_ce()
}

/// The date cell of a climb set at `set_at` seconds after the Unix epoch.
pub open spec fn human_date_spec(set_at: i64) -> Option<Seq<char>> {
    formatted_time(set_at as int, HUMAN_DATE_FORMAT@)
}

/// The day that a date cell names.
pub open spec fn human_day_spec(cell: Seq<char>) -> Option<int> {
    parsed_day(cell, HUMAN_DATE_FORMAT@)
}

/// Whether a route set on day `set_on` is new on day `today`: the days from
/// `set_on` to the midnight that ends `today` are at most one more than
/// `within_days`.
pub open spec fn is_new_day(today: int, set_on: int, within_days: int) -> bool {
    (today + 1) - set_on <= within_days + 1
}

/// A route that was set `days_ago` days before `today` is new exactly when
/// `days_ago` is at most `within_days`: with seven days, a route of a week
/// ago is still new and one of eight days ago is not.
pub proof fn lemma_new_for_days(today: int, days_ago: int, within_days: int)
    ensures
        is_new_day(today, today - days_ago, within_days) <==> days_ago <= within_days,
{
}

/// Writes the date of a creation time as a sheet shows it.
pub fn format_human_date(set_at: i64) -> (cell: Result<String, MappingError>)
    ensures
        cell is Ok <==> human_date_spec(set_at) is Some,
        cell is Ok ==> cell->Ok_0@ == human_date_spec(set_at)->0,
        cell is Err ==> cell->Err_0 == MappingError::DateOutOfRange,
{
    match format_timestamp(set_at, HUMAN_DATE_FORMAT) {
        Some(text) => Ok(text),
        None => Err(MappingError::DateOutOfRange),
    }
}

/// Reads the day that a date cell names.
pub fn parse_human_date(cell: &str) -> (day: Result<i32, DateParseError>)
    ensures
        day is Ok <==> human_day_spec(cell@) is Some,
        day is Ok ==> day->Ok_0 == human_day_spec(cell@)->0,
{
    match parse_day(cell, HUMAN_DATE_FORMAT) {
        Ok(day) => Ok(day),
        Err(_) => Err(DateParseError),
    }
}

/// Decides whether a route set on `set_on` is new on `today`.
pub fn day_is_new(today: i32, set_on: i32, within_days: u32) -> (new: bool)
    ensures
        new == is_new_day(today as int, set_on as int, within_days as int),
{
    let days_since_set: i64 = (today as i64 + 1) - set_on as i64;
    days_since_set <= within_days as i64 + 1
}

/// The current day in UTC.
pub fn today() -> i32 {
    utc_today()
}

/// The hour of the day, from 0 to 23, of a moment given in seconds after
/// the Unix epoch, in UTC.
pub open spec fn hour_of_day_spec(secs: int) -> int {
    (secs % 86_400) / 3_600
}

/// The hour of the day at which a moment falls.
pub fn hour_of_day(secs: i64) -> (hour: u8)
    ensures
        hour == hour_of_day_spec(secs as int),
        hour < 24,
{
    let second_of_day: i64 = if secs >= 0 {
        secs % 86_400
    } else {
        // The day is counted down from its last second.
        86_399 - (-(secs + 1)) % 86_400
    };
    assert(second_of_day == (secs as int) % 86_400) by {
        if secs < 0 {
            let behind = -(secs + 1) as int;
            assert(behind == 86_400 * (behind / 86_400) + behind % 86_400) by {
                vstd::arithmetic::div_mod::lemma_fundamental_div_mod(behind, 86_400);
            }
            let days_back = behind / 86_400 + 1;
            assert(secs as int == 86_400 * (-days_back) + second_of_day);
            vstd::arithmetic::div_mod::lemma_fundamental_div_mod_converse(
                secs as int,
                86_400,
                -days_back,
                second_of_day as int,
            );
        }
    }
    (second_of_day / 3_600) as u8
}

} // verus!
