//! Directory templates: the pattern that names a file's directory by its date.

use crate::paths::is_absolute;
use crate::paths::starts_at_root;
use crate::timestamp::civil;
use crate::timestamp::is_calendar_time;
use crate::timestamp::CivilTime;
use crate::timestamp::Timestamp;
use vstd::prelude::*;

verus! {

/// What chrono's `NaiveDateTime::format` writes for `date` under `pattern`,
/// or nothing where the pattern holds an item that chrono does not know or
/// that a date without a time zone cannot fill.
pub uninterp spec fn strftime(date: CivilTime, pattern: Seq<char>) -> Option<Seq<char>>;

/// Writes the date and time of these six numbers under `pattern`: makes
/// them a `NaiveDateTime` with chrono's `NaiveDate::from_ymd_opt` and
/// `and_hms_opt`, and writes that with `NaiveDateTime::format` into a string
/// through `DelayedFormat::write_to`; where that reports an error there is
/// no text.
///
/// The contract claims that the outcome depends on the date and the pattern
/// alone: chrono writes month and weekday names in English.
#[verifier::external_body]
fn write_date(
    year: i32,
    month: u32,
    day: u32,
    hour: u32,
    minute: u32,
    second: u32,
    pattern: &str,
) -> (text: Option<String>)
    requires
        is_calendar_time(
            civil(year as int, month as int, day as int, hour as int, minute as int, second as int),
        ),
    ensures
        strftime(
            civil(year as int, month as int, day as int, hour as int, minute as int, second as int),
            pattern@,
        ) == match text {
            Some(written) => Some(written@),
            None => None,
        },
{
    let day = chrono::NaiveDate::from_ymd_opt(year, month, day)?;
    let moment = day.and_hms_opt(hour, minute, second)?;
    let mut text = String::new();
    moment.format(pattern).write_to(&mut text).ok()?;
    Some(text)
}

/// Whether `directory` can stand below a root: it is not empty and does not
/// start at the root itself.
pub open spec fn is_relative_directory(directory: Seq<char>) -> bool {
    directory.len() > 0 && !is_absolute(directory)
}

/// The directory, relative to a root, that `pattern` gives to `date`; nothing
/// where the pattern cannot be written or what it writes cannot stand below
/// a root.
pub open spec fn relative_directory(date: CivilTime, pattern: Seq<char>) -> Option<Seq<char>> {
    match strftime(date, pattern) {
        Some(directory) => if is_relative_directory(directory) {
            Some(directory)
        } else {
            None
        },
        None => None,
    }
}

/// A pattern that names a directory by a date, such as `%Y/%B` for the year
/// and, below it, the month by name.
#[derive(Debug)]
pub struct DateFormatTemplate {
    pub pattern: String,
}

impl View for DateFormatTemplate {
    type V = Seq<char>;

    open spec fn view(&self) -> Seq<char> {
        self.pattern@
    }
}

impl DateFormatTemplate {
    /// The template with this pattern.
    pub fn new(pattern: &str) -> (template: DateFormatTemplate)
        ensures
            template@ == pattern@,
    {
        DateFormatTemplate { pattern: pattern.to_owned() }
    }

    /// The template that is used where none is given: the year, and below it
    /// the month by name.
    pub fn standard() -> (template: DateFormatTemplate)
        ensures
            template@ == "%Y/%B"@,
    {
        DateFormatTemplate::new("%Y/%B")
    }

    /// The directory that this template gives to `date`, relative to a root.
    pub fn apply(&self, date: &Timestamp) -> (directory: Option<String>)
        ensures
            relative_directory(date@, self@) == match directory {
                Some(text) => Some(text@),
                None => None,
            },
    {
        proof {
            use_type_invariant(date);
        }
        let written = write_date(
            date.year(),
            date.month(),
            date.day(),
            date.hour(),
            date.minute(),
            date.second(),
            self.pattern.as_str(),
        );
        match written {
            Some(text) => {
                if text.as_str().unicode_len() == 0 || starts_at_root(text.as_str()) {
                    None
                } else {
                    Some(text)
                }
            },
            None => None,
        }
    }
}

impl Default for DateFormatTemplate {
    fn default() -> (template: DateFormatTemplate)
        ensures
            template@ == "%Y/%B"@,
    {
        DateFormatTemplate::standard()
    }
}

} // verus!
