//! Monotonic time: the clock readings that code expiry and capture health
//! depend on.

use vstd::prelude::*;

verus! {

#[verifier::external_type_specification]
#[verifier::external_body]
pub struct ExInstant(std::time::Instant);

/// `std::time::Instant::now`: the current instant. Nothing is promised of it.
#[verifier::external_body]
pub(crate) fn now() -> (t: std::time::Instant) {
    std::time::Instant::now()
}

/// `Instant::saturating_duration_since`: the time from `earlier` to `later`,
/// or zero when `earlier` is the later one. Nothing is promised of its value.
#[verifier::external_body]
pub(crate) fn saturating_duration_since(
    later: &std::time::Instant,
    earlier: &std::time::Instant,
) -> (d: core::time::Duration) {
    later.saturating_duration_since(*earlier)
}

/// `Duration::as_nanos`: the whole nanoseconds in `d`.
#[verifier::external_body]
pub(crate) fn as_nanos(d: &core::time::Duration) -> (n: u128) {
    d.as_nanos()
}

/// Nanoseconds elapsed since `issued`, read from the clock: any value may
/// come back.
pub fn nanos_since(issued: &std::time::Instant) -> (n: u128) {
    let t = now();
    let d = saturating_duration_since(&t, issued);
    as_nanos(&d)
}

} // verus!
