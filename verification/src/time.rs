//! The clock types of `embassy_time` that requests and responses carry.
use vstd::prelude::*;
use embassy_time::{Duration, Instant};

verus! {

#[verifier::external_type_specification]
#[verifier::external_body]
pub struct ExInstant(Instant);

#[verifier::external_type_specification]
#[verifier::external_body]
pub struct ExDuration(Duration);

/// `embassy_time::Instant` derives `Clone` beside `Copy`: a clone is the
/// same instant.
pub assume_specification[ <Instant as Clone>::clone ](i: &Instant) -> (r: Instant)
    ensures
        r == *i,
;

/// The `Duration` that `embassy_time::Duration::from_secs` makes of a
/// number of seconds.
pub uninterp spec fn duration_from_secs(secs: u64) -> Duration;

/// The `Duration` that `embassy_time::Duration::from_millis` makes of a
/// number of milliseconds.
pub uninterp spec fn duration_from_millis(millis: u64) -> Duration;

/// What `embassy_time::Duration::as_millis` reports for a duration.
pub uninterp spec fn duration_millis(d: Duration) -> u64;

/// Calls `embassy_time::Duration::from_secs`, which multiplies by the
/// tick rate; the bound keeps that product in `u64` for every tick rate
/// the crate offers. This crate builds `embassy_time` with its `std`
/// feature, whose tick rate is 1 MHz: the duration holds `n * 1_000_000`
/// ticks, which `as_millis` reports as `n * 1000` milliseconds.
#[verifier::external_body]
pub(crate) fn secs(n: u64) -> (d: Duration)
    requires
        n <= 1_000_000,
    ensures
        d == duration_from_secs(n),
        duration_millis(d) == n * 1000,
{
    Duration::from_secs(n)
}

/// Calls `embassy_time::Duration::from_millis`; as for [secs], the bound
/// keeps the tick arithmetic in range. At the 1 MHz tick rate the duration
/// holds `n * 1000` ticks, which `as_millis` reports as `n` milliseconds.
#[verifier::external_body]
pub(crate) fn millis(n: u64) -> (d: Duration)
    requires
        n <= 1_000_000_000,
    ensures
        d == duration_from_millis(n),
        duration_millis(d) == n,
{
    Duration::from_millis(n)
}

/// Calls `embassy_time::Duration::as_millis` (rounding down). The value is
/// given by name only. This crate builds `embassy_time` with its `std`
/// feature, whose tick rate is 1 MHz: the conversion is then a division by
/// 1000 and cannot overflow.
#[verifier::external_body]
pub(crate) fn as_millis(d: &Duration) -> (m: u64)
    ensures
        m == duration_millis(*d),
{
    d.as_millis()
}

/// Calls `embassy_time::Instant::now`. Nothing is stated of the result: it
/// is the clock's reading.
#[verifier::external_body]
pub(crate) fn now() -> Instant {
    Instant::now()
}

} // verus!
