use vstd::prelude::*;

use crate::text::utc_rfc3339_shape;

verus! {

/// The current UTC time as RFC 3339 text: `chrono::Utc::now()` followed by
/// `DateTime::to_rfc3339`. The text depends on the clock; the only claim is its
/// shape: `write_rfc3339` writes the date (four digits or more for the year), `T`,
/// the time to the second, maybe a fraction, and then the offset, which for UTC
/// is `+00:00` (`allow_zulu` is off), so at least 25 characters.
#[verifier::external_body]
pub(crate) fn now_rfc3339() -> (r: String)
    ensures
        utc_rfc3339_shape(r@),
{
    chrono::Utc::now().to_rfc3339()
}

/// The current UTC time in whole seconds since the Unix epoch:
/// `chrono::Utc::now()` followed by `DateTime::timestamp`. The value depends on the
/// clock; the only claim is its range: `timestamp` is a day count that fits in an
/// `i32`, times 86 400, plus the seconds of the day, so it lies within plus or
/// minus 2^48.
#[verifier::external_body]
pub(crate) fn now_unix_seconds() -> (r: i64)
    ensures
        -0x1_0000_0000_0000i64 <= r <= 0x1_0000_0000_0000i64,
{
    chrono::Utc::now().timestamp()
}

/// A fresh random identifier: `uuid::Uuid::new_v4()` in its hyphenated text form.
/// The value is random; the only claim is its length, 36 characters, which the
/// hyphenated form (`Hyphenated::LENGTH` in the uuid source) always has.
#[verifier::external_body]
pub(crate) fn new_uuid_v4() -> (r: String)
    ensures
        r@.len() == 36,
{
    uuid::Uuid::new_v4().to_string()
}

} // verus!
