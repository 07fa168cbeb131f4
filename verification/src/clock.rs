//! Readings of the system clock.

use vstd::prelude::*;

verus! {

/// A bound on the magnitude of every timestamp that `chrono` can represent:
/// its dates run from year -262143 to year 262142.
pub open spec fn timestamp_bound() -> int {
    10_000_000_000_000
}

#[verifier::external_type_specification]
#[verifier::external_body]
pub struct ExSystemTime(std::time::SystemTime);

/// `std::time::SystemTime::now`: a reading of the system clock. Nothing is
/// claimed of it; it depends on the time.
#[verifier::external_body]
fn clock_now() -> (t: std::time::SystemTime) {
    std::time::SystemTime::now()
}

/// `SystemTime::duration_since(UNIX_EPOCH)`: the time elapsed since 1970, or
/// `None` for a reading before 1970. Nothing is claimed of which comes back:
/// a `SystemTime` is opaque here.
#[verifier::external_body]
fn since_unix_epoch(t: &std::time::SystemTime) -> (d: Option<core::time::Duration>) {
    t.duration_since(std::time::UNIX_EPOCH).ok()
}

/// `Duration::as_secs`: the whole seconds of a duration. Nothing is claimed
/// of its value: a `Duration` is opaque here.
#[verifier::external_body]
fn whole_seconds(d: &core::time::Duration) -> (s: u64) {
    d.as_secs()
}

/// `Duration::subsec_nanos`: the fraction of a second in a duration, in
/// nanoseconds, which std documents to be below one billion.
#[verifier::external_body]
fn fraction_nanos(d: &core::time::Duration) -> (n: u32)
    ensures
        n < 1_000_000_000,
{
    d.subsec_nanos()
}

/// The current Unix time in whole seconds, as `chrono::Utc::now().timestamp()`
/// gives it. `None` where the clock reads before 1970, on which `Utc::now`
/// panics, or beyond `timestamp_bound()` seconds. Which value comes back
/// depends on the time.
pub fn now_timestamp() -> (r: Option<i64>)
    ensures
        r matches Some(t) ==> 0 <= t <= timestamp_bound(),
{
    let now = clock_now();
    match since_unix_epoch(&now) {
        Some(d) => {
            let s: u64 = whole_seconds(&d);
            if s <= 10_000_000_000_000 {
                Some(s as i64)
            } else {
                None
            }
        },
        None => None,
    }
}

/// The nanoseconds within the current second of the system clock; `0` for a
/// clock that reads before 1970. Which value comes back depends on the time.
pub fn subsec_nanos_now() -> (n: u32)
    ensures
        n < 1_000_000_000,
{
    let now = clock_now();
    match since_unix_epoch(&now) {
        Some(d) => fraction_nanos(&d),
        None => 0,
    }
}

} // verus!
