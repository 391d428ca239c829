//! Rendering of Unix timestamps as the ISO-8601 strings the analytics query
//! embeds. The calendar arithmetic is done by chrono behind trusted wrappers;
//! both renderings are functions of the timestamp alone.

use vstd::prelude::*;

verus! {

/// The `%Y-%m-%dT%H:%M:%SZ` rendering of an epoch second (empty for a
/// timestamp outside chrono's representable range).
pub uninterp spec fn iso_datetime_of(epoch: i64) -> Seq<char>;

/// The `%Y-%m-%d` rendering of an epoch second (empty outside the
/// representable range).
pub uninterp spec fn iso_date_of(epoch: i64) -> Seq<char>;

/// Relies on chrono's `DateTime::<Utc>::from_timestamp` and `format` with
/// `"%Y-%m-%dT%H:%M:%SZ"`: the rendering depends on the epoch second alone.
#[verifier::external_body]
pub(crate) fn format_epoch_datetime(epoch: i64) -> (r: String)
    ensures
        r@ == iso_datetime_of(epoch),
{
    match chrono::DateTime::<chrono::Utc>::from_timestamp(epoch, 0) {
        Some(dt) => dt.format("%Y-%m-%dT%H:%M:%SZ").to_string(),
        None => String::new(),
    }
}

/// Relies on chrono's `DateTime::<Utc>::from_timestamp` and `format` with
/// `"%Y-%m-%d"`: the rendering depends on the epoch second alone.
#[verifier::external_body]
pub(crate) fn format_epoch_date(epoch: i64) -> (r: String)
    ensures
        r@ == iso_date_of(epoch),
{
    match chrono::DateTime::<chrono::Utc>::from_timestamp(epoch, 0) {
        Some(dt) => dt.format("%Y-%m-%d").to_string(),
        None => String::new(),
    }
}

} // verus!
