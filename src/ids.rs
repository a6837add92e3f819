//! Identifiers and clock readings that come from outside the library.

use vstd::prelude::*;

verus! {

/// Relies on `uuid::Uuid::new_v4` and its `Display`, which writes the
/// hyphenated form: 36 characters.
#[verifier::external_body]
pub(crate) fn new_uuid() -> (r: String)
    ensures
        r@.len() == 36,
{
    uuid::Uuid::new_v4().to_string()
}

/// Relies on `chrono::Utc::now` and `DateTime::timestamp_millis`: the
/// current time in milliseconds since the Unix epoch; any value may come.
#[verifier::external_body]
pub(crate) fn now_millis() -> (r: i64) {
    chrono::Utc::now().timestamp_millis()
}

/// Relies on `chrono::Utc::now` and `DateTime::timestamp`: the current time
/// in whole seconds since the Unix epoch; any value may come.
#[verifier::external_body]
pub(crate) fn now_seconds() -> (r: i64) {
    chrono::Utc::now().timestamp()
}

/// The UTC date and time text, `%Y-%m-%d %H:%M:%S`, of a time in
/// milliseconds since the Unix epoch.
pub uninterp spec fn utc_text(ms: int) -> Seq<char>;

/// Whether chrono can represent a time in milliseconds since the Unix epoch.
pub uninterp spec fn utc_in_range(ms: int) -> bool;

/// Relies on `chrono::DateTime::from_timestamp_millis` and its `format`:
/// the text depends on the time alone, and times that chrono cannot
/// represent give none.
#[verifier::external_body]
pub(crate) fn utc_millis_text(ms: i64) -> (r: Option<String>)
    ensures
        r is Some <==> utc_in_range(ms as int),
        r is Some ==> r->0@ == utc_text(ms as int),
{
    chrono::DateTime::from_timestamp_millis(ms).map(|d| d.format("%Y-%m-%d %H:%M:%S").to_string())
}

} // verus!
