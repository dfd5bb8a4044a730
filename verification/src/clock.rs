//! The monotonic clock, read through `std::time::Instant`.
use vstd::prelude::*;

verus! {

/// `std::time::Instant`, carried through as an opaque value.
#[verifier::external_type_specification]
#[verifier::external_body]
pub struct ExInstant(std::time::Instant);

/// `std::time::SystemTime`, carried through as an opaque value.
#[verifier::external_type_specification]
#[verifier::external_body]
pub struct ExSystemTime(std::time::SystemTime);

/// `SystemTime` is `Copy`, so its `clone` gives the same time back.
pub assume_specification[ <std::time::SystemTime as std::clone::Clone>::clone ](
    t: &std::time::SystemTime,
) -> (r: std::time::SystemTime)
    ensures
        r == *t,
;

/// `Instant` is `Copy`, so its `clone` gives the same instant back.
pub assume_specification[ <std::time::Instant as std::clone::Clone>::clone ](
    t: &std::time::Instant,
) -> (r: std::time::Instant)
    ensures
        r == *t,
;

/// Calls `Instant::now`: the current reading of the monotonic clock.
#[verifier::external_body]
pub fn instant_now() -> (r: std::time::Instant) {
    std::time::Instant::now()
}

/// Calls `Instant::elapsed` on `origin` and gives the whole nanoseconds of
/// the result; nothing is stated of it, as it is read off the clock.
#[verifier::external_body]
pub fn nanos_since(origin: &std::time::Instant) -> (r: u64) {
    origin.elapsed().as_nanos() as u64
}

/// Name for the length of a `Duration` in milliseconds, as `as_millis`
/// gives it.
pub uninterp spec fn duration_millis(d: std::time::Duration) -> nat;

/// Calls `Duration::from_millis`, documented to give a duration of `ms`
/// milliseconds.
#[verifier::external_body]
pub fn duration_from_millis(ms: u64) -> (r: std::time::Duration)
    ensures
        duration_millis(r) == ms,
{
    std::time::Duration::from_millis(ms)
}

} // verus!
