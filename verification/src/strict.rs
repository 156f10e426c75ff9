//! Strict reading of a date: two fully specified forms and nothing else.
//!
//! A date that a file carries inside is trusted text. It is read in the form
//! that internet messages use, such as `Mon, 1 Jan 2018 12:00:00 +0000`, or
//! in the plain form `2018-01-01 12:00:00`. Text in any other form is no date
//! at all: nothing is guessed here.

use crate::timestamp::civil;
use crate::timestamp::timestamp_at;
use crate::timestamp::CivilTime;
use crate::timestamp::Timestamp;
use crate::validation::validate_reading;
use crate::validation::validated_reading;
use crate::validation::PlausibleYears;
use chrono::Datelike;
use chrono::Timelike;
use vstd::prelude::*;

verus! {

/// What chrono's `DateTime::parse_from_rfc2822` makes of `text`: the local
/// date and time that the text states, without its offset, or nothing where
/// the text is no date in that form.
pub uninterp spec fn rfc2822_local_time(text: Seq<char>) -> Option<CivilTime>;

/// Reads `text` with chrono's `DateTime::parse_from_rfc2822` and takes the
/// local date and time of the result with `naive_local`, field by field.
///
/// The contract claims that the outcome depends on the text alone.
#[verifier::external_body]
fn read_rfc2822(text: &str) -> (fields: Option<(i32, u32, u32, u32, u32, u32)>)
    ensures
        rfc2822_local_time(text@) == match fields {
            Some((year, month, day, hour, minute, second)) => Some(
                civil(year as int, month as int, day as int, hour as int, minute as int, second as int),
            ),
            None => None,
        },
{
    let stated = chrono::DateTime::parse_from_rfc2822(text).ok()?;
    let local = stated.naive_local();
    Some((local.year(), local.month(), local.day(), local.hour(), local.minute(), local.second()))
}

/// What chrono's `NaiveDateTime::parse_from_str` makes of `text` under
/// `form`: the date and time that the text states, or nothing where the text
/// does not have that form.
pub uninterp spec fn strptime(text: Seq<char>, form: Seq<char>) -> Option<CivilTime>;

/// Reads `text` under `form` with chrono's `NaiveDateTime::parse_from_str`
/// and takes the result field by field.
///
/// The contract claims that the outcome depends on the text and the form
/// alone.
#[verifier::external_body]
fn read_with_form(text: &str, form: &str) -> (fields: Option<(i32, u32, u32, u32, u32, u32)>)
    ensures
        strptime(text@, form@) == match fields {
            Some((year, month, day, hour, minute, second)) => Some(
                civil(year as int, month as int, day as int, hour as int, minute as int, second as int),
            ),
            None => None,
        },
{
    let stated = chrono::NaiveDateTime::parse_from_str(text, form).ok()?;
    Some((stated.year(), stated.month(), stated.day(), stated.hour(), stated.minute(), stated.second()))
}

/// The plain form: year, month and day with hyphens, a space, then hour,
/// minute and second with colons.
pub open spec fn plain_form() -> Seq<char> {
    "%Y-%m-%d %H:%M:%S"@
}

/// The date and time that `text` states in one of the strict forms: as an
/// internet message date if it is one, and else in the plain form.
pub open spec fn stated_time(text: Seq<char>) -> Option<CivilTime> {
    match rfc2822_local_time(text) {
        Some(stated) => Some(stated),
        None => strptime(text, plain_form()),
    }
}

/// The timestamp that `text` states in a strict form, before validation.
pub open spec fn strict_reading(text: Seq<char>) -> Option<Timestamp> {
    match stated_time(text) {
        Some(stated) => timestamp_at(stated),
        None => None,
    }
}

/// The date that strict reading accepts from `text`: the one it states, if
/// its year lies in `years`.
pub open spec fn strict_date(text: Seq<char>, years: PlausibleYears) -> Option<Timestamp> {
    validated_reading(strict_reading(text), years)
}

/// Reads `text` in a strict form, without validation.
pub fn read_strict(text: &str) -> (reading: Option<Timestamp>)
    ensures
        reading == strict_reading(text@),
{
    let fields = match read_rfc2822(text) {
        Some(fields) => Some(fields),
        None => read_with_form(text, "%Y-%m-%d %H:%M:%S"),
    };
    match fields {
        Some((year, month, day, hour, minute, second)) => Timestamp::new(
            year,
            month,
            day,
            hour,
            minute,
            second,
        ),
        None => None,
    }
}

/// Reads `text` in a strict form and keeps the date if its year lies in
/// `years`. Text in any other form gives nothing: there is no guessing here.
pub fn parse_strict(text: &str, years: &PlausibleYears) -> (date: Option<Timestamp>)
    ensures
        date == strict_date(text@, *years),
{
    validate_reading(read_strict(text), years)
}

} // verus!
