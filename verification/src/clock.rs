//! Reading the wall clock.
use vstd::prelude::*;

verus! {

/// Nanoseconds since the UNIX epoch, as read from the system clock (0 when the
/// clock reads a time before the epoch).
///
/// Trusted: calls `std::time::SystemTime::now` and
/// `SystemTime::duration_since(UNIX_EPOCH)`. The result depends on the
/// clock, so nothing is stated about it.
#[verifier::external_body]
pub fn now_nanos() -> (t: u128) {
    match std::time::SystemTime::now().duration_since(std::time::UNIX_EPOCH) {
        Ok(d) => d.as_nanos(),
        Err(_) => 0,
    }
}


/// The text that `humantime::format_duration` gives for a duration of
/// `secs` whole seconds.
pub uninterp spec fn humantime_text(secs: u64) -> Seq<char>;

/// A human-readable rendering of `secs` seconds, such as `7h 5m 23s`.
///
/// Trusted: calls `humantime::format_duration` on `Duration::from_secs(secs)`
/// and renders it with `to_string`. The contract names the result; the text
/// is a function of `secs` alone. humantime documents only that the text
/// parses back to the same duration and keeps the right to change how it is
/// composed, so the units and their spelling are not stated.
#[verifier::external_body]
pub fn format_duration_secs(secs: u64) -> (r: String)
    ensures
        r@ == humantime_text(secs),
{
    humantime::format_duration(std::time::Duration::from_secs(secs)).to_string()
}

/// Whole seconds of a duration of `nanos` nanoseconds.
pub open spec fn whole_seconds(nanos: u128) -> u64 {
    if nanos / 1_000_000_000 > u64::MAX as u128 {
        u64::MAX
    } else {
        (nanos / 1_000_000_000) as u64
    }
}

/// The human-readable rendering of an elapsed time, to whole seconds; an
/// elapsed time that could not be measured (`None`) counts as zero.
pub open spec fn human_duration_text(elapsed_nanos: Option<u128>) -> Seq<char> {
    match elapsed_nanos {
        Some(n) => humantime_text(whole_seconds(n)),
        None => humantime_text(0),
    }
}

/// formats a duration in human readable form, to seconds precision.
/// eg: 7h 5m 23s
pub fn human_duration_secs(elapsed_nanos: Option<u128>) -> (r: String)
    ensures
        r@ == human_duration_text(elapsed_nanos),
{
    let secs: u64 = match elapsed_nanos {
        Some(n) => {
            let s = n / 1_000_000_000;
            if s > u64::MAX as u128 {
                u64::MAX
            } else {
                s as u64
            }
        },
        None => 0,
    };
    format_duration_secs(secs)
}

/// The time from `since` to `now`, or `None` when `since` is later than
/// `now`.
pub open spec fn elapsed_between(since: u128, now: u128) -> Option<u128> {
    if now >= since {
        Some((now - since) as u128)
    } else {
        None
    }
}

/// The time from `since` to `now`, or `None` when `since` is later.
pub fn elapsed(since: u128, now: u128) -> (r: Option<u128>)
    ensures
        r == elapsed_between(since, now),
{
    if now >= since {
        Some(now - since)
    } else {
        None
    }
}

} // verus!
