//! The date that a file carries inside: its Exif date and time.

use crate::strict::parse_strict;
use crate::strict::strict_date;
use crate::timestamp::Timestamp;
use crate::validation::PlausibleYears;
use vstd::prelude::*;

verus! {

/// What the exif crate shows for the `DateTime` field of the primary image
/// in `container`, the bytes of a file: the text that `display_value` writes
/// for the field, or nothing where `Reader::read_from_container` finds no
/// Exif data in the bytes or the data has no such field.
pub uninterp spec fn exif_date_time(container: Seq<u8>) -> Option<Seq<char>>;

/// Decodes `container` with the exif crate's `Reader::read_from_container`,
/// looks up the `DateTime` field of the primary image with `Exif::get_field`
/// and writes it with `Field::display_value`.
///
/// The contract claims that the outcome depends on the bytes alone.
#[verifier::external_body]
fn decode_date_time(container: &[u8]) -> (text: Option<String>)
    ensures
        exif_date_time(container@) == match text {
            Some(shown) => Some(shown@),
            None => None,
        },
{
    let mut bytes = std::io::Cursor::new(container);
    let decoded = exif::Reader::new().read_from_container(&mut bytes).ok()?;
    let field = decoded.get_field(exif::Tag::DateTime, exif::In::PRIMARY)?;
    Some(field.display_value().to_string())
}

/// The date that the bytes of a file carry: the Exif date and time, read
/// strictly and kept if its year lies in `years`.
pub open spec fn metadata_date(container: Seq<u8>, years: PlausibleYears) -> Option<Timestamp> {
    match exif_date_time(container) {
        Some(text) => strict_date(text, years),
        None => None,
    }
}

/// Resolves the date of a file from what it carries inside. `container` is
/// the bytes of the file; bytes that hold no Exif data, or none with a date,
/// give no date.
pub fn read_exif_date(container: &[u8], years: &PlausibleYears) -> (date: Option<Timestamp>)
    ensures
        date == metadata_date(container@, *years),
{
    match decode_date_time(container) {
        Some(text) => parse_strict(text.as_str(), years),
        None => None,
    }
}

} // verus!
