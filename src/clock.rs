//! The wall clock, through std, and the calendar, through chrono.

use vstd::prelude::*;

verus! {

/// What chrono's RFC 3339 formatting gives for a count of seconds since the Unix
/// epoch, or `None` where chrono's calendar does not reach.
pub uninterp spec fn rfc3339_text(secs: i64) -> Option<Seq<char>>;

/// Relies on std's `SystemTime::elapsed`, called on `UNIX_EPOCH`: the whole
/// seconds from the Unix epoch to the system time now, `Ok` where now is after the
/// epoch and `Err` where it is before. It does not panic; nothing is promised of
/// the value.
#[verifier::external_body]
fn epoch_offset() -> (r: Result<u64, u64>) {
    match std::time::UNIX_EPOCH.elapsed() {
        Ok(d) => Ok(d.as_secs()),
        Err(e) => Err(e.duration().as_secs()),
    }
}

/// The current time in whole seconds since the Unix epoch, negative before it,
/// held within the range of an `i64`.
pub(crate) fn now_seconds() -> (r: i64) {
    match epoch_offset() {
        Ok(after) => if after <= i64::MAX as u64 { after as i64 } else { i64::MAX },
        Err(before) => if before <= i64::MAX as u64 { -(before as i64) } else { -i64::MAX },
    }
}

/// Relies on chrono's `DateTime::from_timestamp` and `DateTime::to_rfc3339`: the
/// RFC 3339 text of a time given in seconds since the Unix epoch, `None` where the
/// seconds are out of chrono's range. The text depends on the seconds alone.
#[verifier::external_body]
pub(crate) fn rfc3339(secs: i64) -> (r: Option<String>)
    ensures
        match r {
            Some(s) => rfc3339_text(secs) == Some(s@),
            None => rfc3339_text(secs) is None,
        },
{
    chrono::DateTime::from_timestamp(secs, 0).map(|d| d.to_rfc3339())
}

} // verus!
