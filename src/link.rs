//! The two ends of a link and the functions that create them.

use std::time::{Duration, Instant};
use vstd::prelude::*;

use crate::clock::{
    as_nanos, block_forever, block_until, duration_nanos, instant_at, instant_now, instant_plus,
    nanos_since,
};
use crate::timing::{
    arrival, arrival_nanos, departure, departure_nanos, lemma_departure_bounds, NANOS_PER_SEC,
};
use crate::transport::{open_queue, pop_blocking, try_push};

verus! {

/// What travels through the queue: a payload and the time it left the sender.
pub struct Envelope<T> {
    /// Nanoseconds after the link's creation at which the payload has been
    /// pushed onto the medium.
    pub departure: u128,
    pub payload: T,
}

/// A payload taken off the queue, with the time it reaches the receiver.
pub struct Delivery<T> {
    /// Nanoseconds after the link's creation at which the payload arrives.
    pub arrival: u128,
    pub payload: T,
}

/// The other end of the link has been dropped.
#[derive(Debug, Clone, Copy, PartialEq, Eq, Structural)]
pub struct LinkClosed;

/// A bandwidth of zero bytes per second was asked for: nothing would ever be
/// delivered.
#[derive(Debug, Clone, Copy, PartialEq, Eq, Structural)]
pub struct ZeroBandwidth;

/// Characteristics of a link fixed at its creation.
pub struct LinkConfig {
    /// Throughput in bytes per second; `None` for no limit.
    pub bandwidth: Option<u32>,
    /// One-way propagation delay; `None` for none.
    pub latency: Option<Duration>,
}

/// What a latency setting amounts to in nanoseconds.
pub open spec fn latency_setting(latency: Option<Duration>) -> Option<u128> {
    match latency {
        None => None,
        Some(d) => Some(duration_nanos(d)),
    }
}

/// The sending end of a link.
///
/// All payloads share one medium: each waits for the previous one to have
/// left before its own transmission delay starts. Sending never waits.
#[verifier::reject_recursive_types(T)]
pub struct Sender<T> {
    bandwidth: Option<u32>,
    /// When the medium is next free, in nanoseconds since `epoch`.
    next_free: u128,
    epoch: Instant,
    queue: crate::transport::QueueSender<Envelope<T>>,
    /// Every envelope handed to the queue, as (departure, payload), oldest
    /// first.
    sent: Ghost<Seq<(u128, T)>>,
}

/// The departures of `sent` never decrease and none is later than
/// `next_free`.
pub open spec fn departures_in_order<T>(sent: Seq<(u128, T)>, next_free: u128) -> bool {
    &&& forall|i: int, j: int| 0 <= i <= j < sent.len() ==> #[trigger] sent[i].0 <= #[trigger] sent[j].0
    &&& forall|i: int| 0 <= i < sent.len() ==> #[trigger] sent[i].0 <= next_free
}

impl<T> Sender<T> {
    #[verifier::type_invariant]
    spec fn inv(self) -> bool {
        &&& self.bandwidth != Some(0u32)
        &&& departures_in_order(self.sent@, self.next_free)
    }

    /// Every envelope this sender has handed to the queue, as (departure,
    /// payload), in the order of sending.
    pub closed spec fn spec_sent(&self) -> Seq<(u128, T)> {
        self.sent@
    }

    /// The bandwidth in bytes per second, if one is set.
    pub closed spec fn spec_bandwidth(&self) -> Option<u32> {
        self.bandwidth
    }

    /// When the medium is next free, in nanoseconds since the link's creation.
    pub closed spec fn spec_next_free(&self) -> u128 {
        self.next_free
    }

    /// The bandwidth in bytes per second, if one is set; never zero.
    pub fn bandwidth(&self) -> (r: Option<u32>)
        ensures
            r == self.spec_bandwidth(),
            r != Some(0u32),
    {
        proof {
            use_type_invariant(self);
        }
        self.bandwidth
    }

    /// When the medium is next free, in nanoseconds since the link's creation.
    pub fn next_free_time(&self) -> (r: u128)
        ensures
            r == self.spec_next_free(),
    {
        self.next_free
    }

    /// When a payload of `size` bytes handed over at `now` would depart.
    pub fn departure_time(&self, now: u128, size: usize) -> (r: u128)
        ensures
            r == departure(now as nat, self.spec_next_free() as nat, self.spec_bandwidth(), size as nat),
    {
        proof {
            use_type_invariant(self);
        }
        departure_nanos(now, self.next_free, self.bandwidth, size)
    }

    /// Sends `msg`, costing `size` bytes of transmission, as if the clock
    /// read `now`. On success the medium is taken until the payload's
    /// departure, and the envelope (departure, `msg`) is appended to the
    /// queue; when the receiver is gone nothing changes.
    pub fn send_at(&mut self, now: u128, size: usize, msg: T) -> (r: Result<(), LinkClosed>)
        ensures
            final(self).spec_bandwidth() == old(self).spec_bandwidth(),
            r is Ok ==> final(self).spec_next_free() == departure(
                now as nat,
                old(self).spec_next_free() as nat,
                old(self).spec_bandwidth(),
                size as nat,
            ),
            r is Ok ==> final(self).spec_sent() == old(self).spec_sent().push(
                (final(self).spec_next_free(), msg),
            ),
            r is Err ==> final(self).spec_next_free() == old(self).spec_next_free(),
            r is Err ==> final(self).spec_sent() == old(self).spec_sent(),
            departures_in_order(final(self).spec_sent(), final(self).spec_next_free()),
    {
        proof {
            use_type_invariant(&*self);
        }
        let departure = self.departure_time(now, size);
        let ghost payload = msg;
        if try_push(&self.queue, Envelope { departure, payload: msg }) {
            proof {
                lemma_departure_bounds(now as nat, self.next_free as nat, self.bandwidth, size as nat);
            }
            self.next_free = departure;
            self.sent = Ghost(self.sent@.push((departure, payload)));
            proof {
                let s = self.sent@;
                assert forall|i: int, j: int| 0 <= i <= j < s.len() implies #[trigger] s[i].0 <= #[trigger] s[j].0 by {
                    if j == s.len() - 1 {
                        assert(s[i].0 <= departure);
                    }
                }
            }
            Ok(())
        } else {
            Err(LinkClosed)
        }
    }

    /// Sends `msg`, costing `size` bytes of transmission, at the current
    /// time. Never waits.
    pub fn send(&mut self, size: usize, msg: T) -> (r: Result<(), LinkClosed>)
        ensures
            final(self).spec_bandwidth() == old(self).spec_bandwidth(),
            r is Ok ==> exists|now: u128|
                final(self).spec_next_free() == departure(
                    now as nat,
                    old(self).spec_next_free() as nat,
                    old(self).spec_bandwidth(),
                    size as nat,
                ),
            r is Ok ==> final(self).spec_sent() == old(self).spec_sent().push(
                (final(self).spec_next_free(), msg),
            ),
            r is Err ==> final(self).spec_next_free() == old(self).spec_next_free(),
            r is Err ==> final(self).spec_sent() == old(self).spec_sent(),
            departures_in_order(final(self).spec_sent(), final(self).spec_next_free()),
    {
        let now = nanos_since(&self.epoch);
        self.send_at(now, size, msg)
    }

    /// Sets the bandwidth for the sends that follow; payloads already sent
    /// keep their departure times. Zero is refused.
    pub fn set_bandwidth(&mut self, bandwidth: u32) -> (r: Result<(), ZeroBandwidth>)
        ensures
            r is Err <==> bandwidth == 0,
            r is Ok ==> final(self).spec_bandwidth() == Some(bandwidth),
            r is Err ==> final(self).spec_bandwidth() == old(self).spec_bandwidth(),
            final(self).spec_next_free() == old(self).spec_next_free(),
            final(self).spec_sent() == old(self).spec_sent(),
            departures_in_order(final(self).spec_sent(), final(self).spec_next_free()),
    {
        proof {
            use_type_invariant(&*self);
        }
        if bandwidth == 0 {
            Err(ZeroBandwidth)
        } else {
            self.bandwidth = Some(bandwidth);
            Ok(())
        }
    }
}

/// The receiving end of a link.
///
/// A payload is handed over once it has left the sender and its latency has
/// passed, in the order in which it was sent.
#[verifier::reject_recursive_types(T)]
pub struct Receiver<T> {
    /// Propagation delay in nanoseconds, if one is set.
    latency: Option<u128>,
    epoch: Instant,
    queue: crate::transport::QueueReceiver<Envelope<T>>,
}

impl<T> Receiver<T> {
    /// The instant the link was created; times are counted from it.
    pub closed spec fn spec_epoch(&self) -> Instant {
        self.epoch
    }

    /// The latency in nanoseconds, if one is set.
    pub closed spec fn spec_latency(&self) -> Option<u128> {
        self.latency
    }

    /// The latency in nanoseconds, if one is set.
    pub fn latency(&self) -> (r: Option<u128>)
        ensures
            r == self.spec_latency(),
    {
        self.latency
    }

    /// Sets the latency for the payloads taken off the queue from now on.
    pub fn set_latency(&mut self, latency: Duration)
        ensures
            final(self).spec_latency() == Some(duration_nanos(latency)),
    {
        self.latency = Some(as_nanos(&latency));
    }

    /// When a payload that departed at `departure` arrives, with the current
    /// latency.
    pub fn arrival_time(&self, departure: u128) -> (r: u128)
        ensures
            r == arrival(departure as nat, self.spec_latency()),
    {
        arrival_nanos(departure, self.latency)
    }

    /// What to hand over for the result of taking from the queue: the
    /// payload with its arrival time, or `LinkClosed` when the queue was
    /// closed and drained.
    pub fn deliver(&self, dequeued: Option<Envelope<T>>) -> (r: Result<Delivery<T>, LinkClosed>)
        ensures
            match dequeued {
                None => r == Err::<Delivery<T>, LinkClosed>(LinkClosed),
                Some(e) => r == Ok::<Delivery<T>, LinkClosed>(
                    Delivery {
                        arrival: arrival(e.departure as nat, self.spec_latency()) as u128,
                        payload: e.payload,
                    },
                ),
            },
    {
        match dequeued {
            None => Err(LinkClosed),
            Some(e) => Ok(Delivery { arrival: self.arrival_time(e.departure), payload: e.payload }),
        }
    }

    /// The queue end that this receiver takes envelopes from, for callers
    /// that wait on it asynchronously and pass the result to `deliver`.
    /// An envelope taken from it without `deliver` skips the link's delays,
    /// and closing it closes the link.
    pub fn queue(&self) -> &crate::transport::QueueReceiver<Envelope<T>> {
        &self.queue
    }

    /// The clock instant at which a payload arriving at `at` is due, or
    /// `None` where the clock cannot represent it (it never arrives).
    pub fn due_instant(&self, at: u128) -> (r: Option<Instant>)
        ensures
            r.is_some() ==> at / NANOS_PER_SEC <= u64::MAX,
            at / NANOS_PER_SEC > u64::MAX ==> r.is_none(),
            at / NANOS_PER_SEC <= u64::MAX ==> r == instant_plus(self.spec_epoch(), at),
    {
        instant_at(&self.epoch, at)
    }

    /// Blocks the calling thread until the next payload has arrived and
    /// returns it; `LinkClosed` once the sender is gone and every payload
    /// has been handed over. What is returned, and when, is decided by
    /// `deliver` on what the queue gave; the queue's state is outside this
    /// receiver, so no more is stated here. A payload whose arrival lies
    /// beyond what the clock can represent (a latency near `Duration::MAX`,
    /// say) is never due, and then this call never returns.
    pub fn recv_blocking(&self) -> Result<T, LinkClosed> {
        let delivery = self.deliver(pop_blocking(&self.queue))?;
        match self.due_instant(delivery.arrival) {
            Some(t) => block_until(t),
            None => block_forever(),
        }
        Ok(delivery.payload)
    }
}

/// Creates a link with no bandwidth limit and no latency.
pub fn channel<T>() -> (r: (Sender<T>, Receiver<T>))
    ensures
        r.0.spec_bandwidth() == None::<u32>,
        r.0.spec_next_free() == 0,
        r.0.spec_sent() == Seq::<(u128, T)>::empty(),
        departures_in_order(r.0.spec_sent(), r.0.spec_next_free()),
        r.1.spec_latency() == None::<u128>,
{
    let (tx, rx) = open_queue();
    let epoch = instant_now();
    (
        Sender { bandwidth: None, next_free: 0, epoch, queue: tx, sent: Ghost(Seq::empty()) },
        Receiver { latency: None, epoch, queue: rx },
    )
}

/// Creates a link with the characteristics of `config`; a zero bandwidth is
/// refused.
pub fn channel_with<T>(config: LinkConfig) -> (r: Result<(Sender<T>, Receiver<T>), ZeroBandwidth>)
    ensures
        r is Err <==> config.bandwidth == Some(0u32),
        r matches Ok(pair) ==> pair.0.spec_bandwidth() == config.bandwidth
            && pair.0.spec_next_free() == 0
            && pair.0.spec_sent() == Seq::<(u128, T)>::empty()
            && pair.1.spec_latency() == latency_setting(config.latency),
{
    let (mut tx, mut rx) = channel();
    if let Some(b) = config.bandwidth {
        if tx.set_bandwidth(b).is_err() {
            return Err(ZeroBandwidth);
        }
    }
    if let Some(l) = config.latency {
        rx.set_latency(l);
    }
    Ok((tx, rx))
}

} // verus!
