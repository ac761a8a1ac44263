//! The monotonic clock that the watch reads.
use vstd::prelude::*;

verus! {

#[verifier::external_type_specification]
#[verifier::external_body]
pub struct ExInstant(std::time::Instant);

/// Relies on `instant::Instant::now` (`std::time::Instant` on native targets):
/// a reading of the monotonic clock, used as the origin of a watch's timestamps.
#[verifier::external_body]
pub(crate) fn clock_origin() -> (r: instant::Instant) {
    instant::Instant::now()
}

/// Relies on `instant::Instant::elapsed` (`std::time::Instant::elapsed`):
/// the time that has passed since `origin`.
#[verifier::external_body]
pub(crate) fn time_since(origin: &instant::Instant) -> (r: std::time::Duration) {
    origin.elapsed()
}

/// Relies on `std::time::Duration::as_nanos`: the whole nanoseconds of `d`.
#[verifier::external_body]
pub(crate) fn duration_nanos(d: &std::time::Duration) -> (r: u128) {
    d.as_nanos()
}

/// A clock reading in nanoseconds, saturated to what a `u64` holds.
pub open spec fn saturate_nanos(t: u128) -> u64 {
    if t > u64::MAX as u128 { u64::MAX } else { t as u64 }
}

/// Narrows a nanosecond count to `u64`, saturating at `u64::MAX`.
pub fn to_u64_nanos(t: u128) -> (r: u64)
    ensures
        r == saturate_nanos(t),
{
    if t > u64::MAX as u128 {
        u64::MAX
    } else {
        t as u64
    }
}

} // verus!
