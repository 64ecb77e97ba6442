//! Readings of the monotonic clock, and spans between instants. A reading
//! depends on when it is taken, so nothing is stated of it; a span between
//! two given instants depends on them alone, and has a name.
use std::time::{Duration, Instant};
use vstd::prelude::*;

verus! {

/// `std::time::Instant`, a point on the monotonic clock, carried through opaquely.
#[verifier::external_type_specification]
#[verifier::external_body]
pub struct ExInstant(Instant);

/// `Instant` is `Copy`, and its derived `clone` returns an identical instant.
pub assume_specification[ <Instant as Clone>::clone ](t: &Instant) -> (r: Instant)
    ensures
        r == *t,
;

/// Calls `Instant::now`, which reads the clock; nothing is stated of the reading.
#[verifier::external_body]
pub(crate) fn instant_now() -> Instant {
    Instant::now()
}

/// What `Instant::duration_since` returns for `later` and `earlier`: the time
/// from `earlier` to `later`, zero when `earlier` is the later one.
pub uninterp spec fn duration_between(later: Instant, earlier: Instant) -> Duration;

/// What `Duration::as_millis` returns for `d`: the whole milliseconds in `d`.
pub uninterp spec fn millis_of(d: Duration) -> u128;

/// Calls `Instant::duration_since`; the result is `duration_between` of the
/// two instants.
#[verifier::external_body]
pub(crate) fn instant_duration_since(later: &Instant, earlier: &Instant) -> (d: Duration)
    ensures
        d == duration_between(*later, *earlier),
{
    later.duration_since(*earlier)
}

/// Calls `Instant::elapsed`, the time from `t` to a fresh reading of the clock;
/// nothing is stated of the result.
#[verifier::external_body]
pub(crate) fn instant_elapsed(t: &Instant) -> Duration {
    t.elapsed()
}

/// Calls `Duration::is_zero`: whether `d` spans no time. Nothing is stated of
/// the result, as a `Duration` is opaque here.
#[verifier::external_body]
pub(crate) fn duration_is_zero(d: &Duration) -> bool {
    d.is_zero()
}

/// Calls `Duration::as_millis`; the result is `millis_of(d)`.
#[verifier::external_body]
pub(crate) fn duration_as_millis(d: &Duration) -> (ms: u128)
    ensures
        ms == millis_of(*d),
{
    d.as_millis()
}

} // verus!
