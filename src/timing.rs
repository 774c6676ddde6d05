//! The time accounting of a link, on plain numbers of nanoseconds.

use vstd::arithmetic::div_mod::{lemma_div_is_ordered, lemma_fundamental_div_mod, lemma_mod_pos_bound};
use vstd::arithmetic::mul::lemma_mul_inequality;
use vstd::prelude::*;


verus! {

/// Nanoseconds in one second.
pub const NANOS_PER_SEC: u128 = 1_000_000_000;

/// The largest point in time that the link can represent; later times are
/// clamped to it.
pub open spec fn time_limit() -> nat {
    u128::MAX as nat
}

/// A point in time, clamped to the representable range.
pub open spec fn clamp_time(t: int) -> nat {
    if t > time_limit() {
        time_limit()
    } else if t < 0 {
        0
    } else {
        t as nat
    }
}

/// Time needed to push `size` bytes onto a medium of `bandwidth` bytes per
/// second, in nanoseconds rounded up. An unset bandwidth costs nothing.
pub open spec fn transmission_delay(bandwidth: Option<u32>, size: nat) -> nat {
    match bandwidth {
        None => 0,
        Some(b) => if b == 0 {
            0
        } else {
            ((size * NANOS_PER_SEC + b - 1) as int / (b as int)) as nat
        },
    }
}

/// When a payload of `size` bytes, handed over at `now`, has left the sender:
/// the medium is taken from the later of `now` and `next_free`, for the
/// transmission delay.
pub open spec fn departure(now: nat, next_free: nat, bandwidth: Option<u32>, size: nat) -> nat {
    let start = if now >= next_free {
        now
    } else {
        next_free
    };
    clamp_time(start + transmission_delay(bandwidth, size) as int)
}

/// Propagation delay in nanoseconds; an unset latency is none.
pub open spec fn latency_delay(latency: Option<u128>) -> nat {
    match latency {
        None => 0,
        Some(l) => l as nat,
    }
}

/// When a payload that departed at `departure` reaches the far end.
pub open spec fn arrival(departure: nat, latency: Option<u128>) -> nat {
    clamp_time(departure + latency_delay(latency) as int)
}

/// Computes the transmission delay of `size` bytes at `bandwidth`.
pub fn transmission_delay_nanos(bandwidth: Option<u32>, size: usize) -> (r: u128)
    requires
        bandwidth != Some(0u32),
    ensures
        r == transmission_delay(bandwidth, size as nat),
{
    match bandwidth {
        None => 0,
        Some(b) => {
            let s = size as u128;
            proof {
                assert(s * NANOS_PER_SEC <= 0xffff_ffff_ffff_ffffu128 * NANOS_PER_SEC)
                    by (nonlinear_arith)
                    requires
                        s <= 0xffff_ffff_ffff_ffffu128,
                ;
            }
            let bytes_nanos = s * NANOS_PER_SEC;
            (bytes_nanos + (b as u128) - 1) / (b as u128)
        },
    }
}

/// Adds two points or spans of time, clamping at the representable limit.
pub fn add_clamped(a: u128, b: u128) -> (r: u128)
    ensures
        r == clamp_time(a + b),
{
    a.saturating_add(b)
}

/// Computes `departure(now, next_free, bandwidth, size)`.
pub fn departure_nanos(now: u128, next_free: u128, bandwidth: Option<u32>, size: usize) -> (r: u128)
    requires
        bandwidth != Some(0u32),
    ensures
        r == departure(now as nat, next_free as nat, bandwidth, size as nat),
{
    let start = if now >= next_free {
        now
    } else {
        next_free
    };
    add_clamped(start, transmission_delay_nanos(bandwidth, size))
}

/// Computes `arrival(departure, latency)`.
pub fn arrival_nanos(departure: u128, latency: Option<u128>) -> (r: u128)
    ensures
        r == arrival(departure as nat, latency),
{
    match latency {
        None => departure,
        Some(l) => add_clamped(departure, l),
    }
}

/// A departure never precedes the clock reading or the time the medium was
/// free: later sends on one sender are never scheduled before earlier ones.
pub proof fn lemma_departure_bounds(now: nat, next_free: nat, bandwidth: Option<u32>, size: nat)
    requires
        now <= time_limit(),
        next_free <= time_limit(),
    ensures
        departure(now, next_free, bandwidth, size) >= now,
        departure(now, next_free, bandwidth, size) >= next_free,
{
}

/// Payloads keep their order: of two consecutive sends on one sender, the
/// second departs no earlier than the first, and under one latency it also
/// arrives no earlier, whatever the clock readings, sizes and bandwidths
/// (the bandwidth may change between them).
pub proof fn lemma_sends_keep_order(
    now1: nat,
    now2: nat,
    next_free: nat,
    bandwidth1: Option<u32>,
    bandwidth2: Option<u32>,
    size1: nat,
    size2: nat,
    latency: Option<u128>,
)
    requires
        now1 <= time_limit(),
        now2 <= time_limit(),
        next_free <= time_limit(),
    ensures
        ({
            let d1 = departure(now1, next_free, bandwidth1, size1);
            let d2 = departure(now2, d1, bandwidth2, size2);
            &&& d1 <= d2
            &&& arrival(d1, latency) <= arrival(d2, latency)
        }),
{
    let d1 = departure(now1, next_free, bandwidth1, size1);
    lemma_departure_bounds(now2, d1, bandwidth2, size2);
}

/// A link with neither bandwidth nor latency adds no delay: a payload sent
/// at `now` departs and arrives at `now`.
pub proof fn lemma_unconfigured_link_adds_no_delay(now: nat, next_free: nat, size: nat)
    requires
        now <= time_limit(),
        next_free <= now,
    ensures
        departure(now, next_free, None, size) == now,
        arrival(departure(now, next_free, None, size), None) == now,
{
}

/// The transmission delay grows with the size.
pub proof fn lemma_transmission_delay_monotonic(bandwidth: Option<u32>, size1: nat, size2: nat)
    requires
        size1 <= size2,
    ensures
        transmission_delay(bandwidth, size1) <= transmission_delay(bandwidth, size2),
{
    if let Some(b) = bandwidth {
        if b != 0 {
            lemma_mul_inequality(size1 as int, size2 as int, NANOS_PER_SEC as int);
            lemma_div_is_ordered(
                size1 * NANOS_PER_SEC + b - 1,
                size2 * NANOS_PER_SEC + b - 1,
                b as int,
            );
        }
    }
}

/// The transmission delay covers at least `size / bandwidth` seconds.
pub proof fn lemma_transmission_delay_covers_size(b: u32, size: nat)
    requires
        b > 0,
    ensures
        transmission_delay(Some(b), size) * b >= size * NANOS_PER_SEC,
{
    let x = size * NANOS_PER_SEC + b - 1;
    lemma_fundamental_div_mod(x, b as int);
    lemma_mod_pos_bound(x, b as int);
    assert(transmission_delay(Some(b), size) * b == (b as int) * (x / (b as int))) by (nonlinear_arith)
        requires
            transmission_delay(Some(b), size) == x / (b as int),
            x / (b as int) >= 0,
    ;
}

/// Bandwidth serializes the medium: of two payloads sent at the same instant,
/// the second departs exactly its own transmission delay after the first, so
/// both delays have passed since the sends; where the second is no smaller,
/// it departs at least the first's delay after the first.
pub proof fn lemma_bandwidth_serializes(now: nat, next_free: nat, b: u32, size1: nat, size2: nat)
    requires
        b > 0,
        next_free <= time_limit(),
        (if now >= next_free {
            now
        } else {
            next_free
        }) + transmission_delay(Some(b), size1) + transmission_delay(Some(b), size2)
            <= time_limit(),
    ensures
        ({
            let d1 = departure(now, next_free, Some(b), size1);
            let d2 = departure(now, d1, Some(b), size2);
            &&& d2 == d1 + transmission_delay(Some(b), size2)
            &&& d2 >= now + transmission_delay(Some(b), size1) + transmission_delay(Some(b), size2)
            &&& size1 <= size2 ==> d2 >= d1 + transmission_delay(Some(b), size1)
        }),
{
    if size1 <= size2 {
        lemma_transmission_delay_monotonic(Some(b), size1, size2);
    }
}

/// Delays add up: a payload arrives no sooner than its transmission delay
/// plus the latency after it was sent, and exactly then when the medium was
/// already free.
pub proof fn lemma_delays_add_up(
    now: nat,
    next_free: nat,
    bandwidth: Option<u32>,
    latency: Option<u128>,
    size: nat,
)
    requires
        next_free <= time_limit(),
        (if now >= next_free {
            now
        } else {
            next_free
        }) + transmission_delay(bandwidth, size) + latency_delay(latency) <= time_limit(),
    ensures
        arrival(departure(now, next_free, bandwidth, size), latency) >= now + transmission_delay(
            bandwidth,
            size,
        ) + latency_delay(latency),
        next_free <= now ==> arrival(departure(now, next_free, bandwidth, size), latency) == now
            + transmission_delay(bandwidth, size) + latency_delay(latency),
{
}

} // verus!
