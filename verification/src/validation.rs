//! Plausibility of a date: the window of years in which a date is believed.
//!
//! A reading of a file name can take any run of four digits for a year. A
//! date is therefore kept only if its year lies in a window that ends with
//! the current year.

use crate::timestamp::Timestamp;
use chrono::Datelike;
use vstd::prelude::*;
use vstd::std_specs::cmp::PartialOrdIs;
use vstd::std_specs::cmp::PartialOrdSpec;

verus! {

/// The first year of the window, where the caller names no other.
pub const EARLIEST_PLAUSIBLE_YEAR: i32 = 1960;

/// Whether `i` lies in the closed range from `min` to `max`.
pub fn is_between<T: Ord>(i: T, min: T, max: T) -> (inside: bool)
    ensures
        T::obeys_partial_cmp_spec() ==> inside == (i.is_ge(&min) && i.is_le(&max)),
{
    i >= min && i <= max
}

/// The years, both ends included, in which a date is believed.
#[derive(Clone, Copy, Debug, PartialEq, Eq, Structural)]
pub struct PlausibleYears {
    pub earliest: i32,
    pub latest: i32,
}

/// The year that the system clock shows in the local time zone, read
/// through chrono's `Local::now`. Nothing is claimed of the value: it is
/// whatever the machine's clock says at the call.
#[verifier::external_body]
fn current_year() -> i32 {
    chrono::Local::now().year()
}

/// The window from `EARLIEST_PLAUSIBLE_YEAR` to `latest`.
pub open spec fn window_ending_in(latest: i32) -> PlausibleYears {
    PlausibleYears { earliest: EARLIEST_PLAUSIBLE_YEAR, latest }
}

impl PlausibleYears {
    /// Whether `year` lies in the window.
    pub open spec fn admits(self, year: int) -> bool {
        self.earliest <= year <= self.latest
    }

    /// The window from `earliest` to `latest`.
    pub fn new(earliest: i32, latest: i32) -> (years: PlausibleYears)
        ensures
            years == (PlausibleYears { earliest, latest }),
    {
        PlausibleYears { earliest, latest }
    }

    /// The window from `EARLIEST_PLAUSIBLE_YEAR` to `latest`.
    pub fn ending_in(latest: i32) -> (years: PlausibleYears)
        ensures
            years == window_ending_in(latest),
    {
        PlausibleYears { earliest: EARLIEST_PLAUSIBLE_YEAR, latest }
    }

    /// The window from `EARLIEST_PLAUSIBLE_YEAR` to the year that the clock
    /// shows at the call.
    pub fn until_now() -> (years: PlausibleYears)
        ensures
            exists|latest: i32| years == #[trigger] window_ending_in(latest),
    {
        PlausibleYears::ending_in(current_year())
    }

    /// Whether `year` lies in the window.
    pub fn contains(&self, year: i32) -> (inside: bool)
        ensures
            inside == self.admits(year as int),
    {
        is_between(year, self.earliest, self.latest)
    }
}

/// What validation makes of `date_time`: the same timestamp where its year
/// lies in `years`, nothing otherwise.
pub open spec fn validated(date_time: Timestamp, years: PlausibleYears) -> Option<Timestamp> {
    if years.admits(date_time@.year) {
        Some(date_time)
    } else {
        None
    }
}

/// What validation makes of a reading that may have failed.
pub open spec fn validated_reading(reading: Option<Timestamp>, years: PlausibleYears) -> Option<
    Timestamp,
> {
    match reading {
        Some(date_time) => validated(date_time, years),
        None => None,
    }
}

/// Keeps `date_time` if its year lies in `years`, and drops it otherwise.
pub fn validate_datetime_within(date_time: Timestamp, years: &PlausibleYears) -> (kept: Option<
    Timestamp,
>)
    ensures
        kept == validated(date_time, *years),
{
    if !years.contains(date_time.year()) {
        return None;
    }
    Some(date_time)
}

/// Validates a reading that may have failed: no reading stays no reading.
pub fn validate_reading(reading: Option<Timestamp>, years: &PlausibleYears) -> (kept: Option<
    Timestamp,
>)
    ensures
        kept == validated_reading(reading, *years),
{
    match reading {
        Some(date_time) => validate_datetime_within(date_time, years),
        None => None,
    }
}

/// Keeps `date_time` if its year lies between `EARLIEST_PLAUSIBLE_YEAR` and
/// the current year, read from the clock at the call.
///
/// The result is that of `validate_datetime_within` for some last year: which
/// one, the clock decides.
pub fn validate_datetime(date_time: Timestamp) -> (kept: Option<Timestamp>)
    ensures
        exists|latest: i32| kept == validated(date_time, #[trigger] window_ending_in(latest)),
{
    let years = PlausibleYears::until_now();
    validate_datetime_within(date_time, &years)
}

/// A date outside the window is dropped, and a date inside it comes back
/// unchanged.
pub proof fn lemma_validation_is_exact(date_time: Timestamp, years: PlausibleYears)
    ensures
        !years.admits(date_time@.year) ==> validated(date_time, years) is None,
        years.admits(date_time@.year) ==> validated(date_time, years) == Some(date_time),
{
}

/// A date that passed validation passes it again, unchanged.
pub proof fn lemma_validation_is_idempotent(reading: Option<Timestamp>, years: PlausibleYears)
    ensures
        validated_reading(validated_reading(reading, years), years) == validated_reading(
            reading,
            years,
        ),
{
}

} // verus!
