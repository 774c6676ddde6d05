//! The monotonic clock and the timer that the link relies on.

use std::time::{Duration, Instant};
use vstd::prelude::*;

use crate::timing::NANOS_PER_SEC;

verus! {

#[verifier::external_type_specification]
#[verifier::external_body]
pub struct ExInstant(std::time::Instant);

/// The total number of nanoseconds that a duration holds.
pub uninterp spec fn duration_nanos(d: Duration) -> u128;

/// The instant `nanos` nanoseconds after `t`, or `None` where the clock
/// cannot represent it.
pub uninterp spec fn instant_plus(t: Instant, nanos: u128) -> Option<Instant>;

/// Relies on `Instant::now`: a reading of the monotonic clock.
#[verifier::external_body]
pub(crate) fn instant_now() -> Instant {
    Instant::now()
}

/// Relies on `Instant::elapsed`: the time since `epoch` (zero if the clock
/// reads earlier).
#[verifier::external_body]
fn elapsed_since(epoch: &Instant) -> Duration {
    epoch.elapsed()
}

/// Relies on `Duration::as_nanos`: the total number of nanoseconds held.
#[verifier::external_body]
pub(crate) fn as_nanos(d: &Duration) -> (r: u128)
    ensures
        r == duration_nanos(*d),
{
    d.as_nanos()
}

/// Relies on `Duration::new`: `secs` whole seconds and `nanos` more
/// nanoseconds. It panics only when `nanos` carries into an overflowing
/// second count, which `nanos < NANOS_PER_SEC` rules out.
#[verifier::external_body]
fn duration_new(secs: u64, nanos: u32) -> (r: Duration)
    requires
        nanos < NANOS_PER_SEC,
    ensures
        duration_nanos(r) == secs as int * NANOS_PER_SEC + nanos as int,
{
    Duration::new(secs, nanos)
}

/// Relies on `Instant::checked_add`: `None` when the sum cannot be represented.
#[verifier::external_body]
fn checked_add(t: &Instant, d: Duration) -> (r: Option<Instant>)
    ensures
        r == instant_plus(*t, duration_nanos(d)),
{
    t.checked_add(d)
}

/// Relies on `smol::block_on` of `smol::Timer::at`: blocks the calling thread
/// until the clock reaches `t`, returning at once if it already has.
#[verifier::external_body]
pub(crate) fn block_until(t: Instant) {
    smol::block_on(smol::Timer::at(t));
}

/// Relies on `smol::block_on` of `smol::Timer::never`: a wait that never ends.
#[verifier::external_body]
pub(crate) fn block_forever() {
    smol::block_on(smol::Timer::never());
}

/// Nanoseconds elapsed on the monotonic clock since `epoch`.
pub(crate) fn nanos_since(epoch: &Instant) -> u128 {
    as_nanos(&elapsed_since(epoch))
}

/// The instant `at` nanoseconds after `epoch`, or `None` where the clock
/// cannot represent it.
pub(crate) fn instant_at(epoch: &Instant, at: u128) -> (r: Option<Instant>)
    ensures
        r.is_some() ==> at / NANOS_PER_SEC <= u64::MAX,
        at / NANOS_PER_SEC > u64::MAX ==> r.is_none(),
        at / NANOS_PER_SEC <= u64::MAX ==> r == instant_plus(*epoch, at),
{
    let secs = at / NANOS_PER_SEC;
    if secs > u64::MAX as u128 {
        None
    } else {
        let d = duration_new(secs as u64, (at % NANOS_PER_SEC) as u32);
        proof {
            assert(duration_nanos(d) == at);
        }
        checked_add(epoch, d)
    }
}

} // verus!
