//! A simulated one-way network link: a sender that charges each payload a
//! transmission delay on a shared medium of finite bandwidth, and a receiver
//! that adds a propagation latency before handing the payload over.
//!
//! Times are counted in nanoseconds since the moment the link was created.

mod clock;
mod link;
mod timing;
mod transport;

pub use clock::{duration_nanos, instant_plus};
pub use link::{
    channel, channel_with, departures_in_order, latency_setting, Delivery, Envelope, LinkClosed,
    LinkConfig, Receiver, Sender, ZeroBandwidth,
};
pub use timing::{
    add_clamped, arrival, arrival_nanos, clamp_time, departure, departure_nanos, latency_delay,
    lemma_bandwidth_serializes, lemma_delays_add_up, lemma_departure_bounds,
    lemma_sends_keep_order, lemma_transmission_delay_covers_size,
    lemma_transmission_delay_monotonic, lemma_unconfigured_link_adds_no_delay, time_limit,
    transmission_delay, transmission_delay_nanos, NANOS_PER_SEC,
};
