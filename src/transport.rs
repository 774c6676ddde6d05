//! The unbounded FIFO queue that carries envelopes from sender to receiver.

use smol::channel as fifo;
pub(crate) use fifo::{Receiver as QueueReceiver, Sender as QueueSender};
use vstd::prelude::*;

verus! {

#[verifier::external_type_specification]
#[verifier::external_body]
#[verifier::reject_recursive_types(T)]
pub struct ExChannelSender<T>(QueueSender<T>);

#[verifier::external_type_specification]
#[verifier::external_body]
#[verifier::reject_recursive_types(T)]
pub struct ExChannelReceiver<T>(QueueReceiver<T>);

/// Relies on `smol::channel::unbounded`: a fresh queue with no capacity bound,
/// one handle for each end.
#[verifier::external_body]
pub(crate) fn open_queue<T>() -> (QueueSender<T>, QueueReceiver<T>) {
    fifo::unbounded()
}

/// Relies on `smol::channel::Sender::try_send`: appends `item` without
/// waiting; `false` when the queue cannot take it (its receiver is gone).
#[verifier::external_body]
pub(crate) fn try_push<T>(s: &QueueSender<T>, item: T) -> bool {
    s.try_send(item).is_ok()
}

/// Relies on `smol::channel::Receiver::recv_blocking`: blocks until the oldest
/// item can be taken; `None` once the queue is closed and drained.
#[verifier::external_body]
pub(crate) fn pop_blocking<T>(r: &QueueReceiver<T>) -> Option<T> {
    r.recv_blocking().ok()
}

} // verus!
