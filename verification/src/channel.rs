//! Trusted boundary to the cross-thread callback channel: an unbounded
//! multi-producer, single-consumer queue of deferred callbacks. Producers
//! on any thread enqueue; only the owner thread drains, inside the event
//! loop. What arrives depends on other threads, so nothing is promised
//! about the drained values: the controller is verified for every
//! possible sequence of them.

use vstd::prelude::*;
use crate::event::Callback;

verus! {

#[verifier::external_type_specification]
#[verifier::external_body]
#[verifier::reject_recursive_types(T)]
pub struct ExSender<T>(crossbeam_channel::Sender<T>);

#[verifier::external_type_specification]
#[verifier::external_body]
#[verifier::reject_recursive_types(T)]
pub struct ExReceiver<T>(crossbeam_channel::Receiver<T>);

/// Relies on crossbeam_channel::unbounded: a connected sender/receiver
/// pair over an unbounded queue; sending never blocks.
#[verifier::external_body]
pub fn callback_channel() -> (r: (
    crossbeam_channel::Sender<Callback>,
    crossbeam_channel::Receiver<Callback>,
))
{
    crossbeam_channel::unbounded()
}

/// Relies on crossbeam_channel::Sender::clone: another handle enqueueing
/// into the same channel.
#[verifier::external_body]
pub fn clone_sink(sink: &crossbeam_channel::Sender<Callback>) -> (r: crossbeam_channel::Sender<
    Callback,
>)
{
    sink.clone()
}

/// Relies on crossbeam_channel::Sender::send: enqueues the callback
/// without blocking. It fails only when the receiver is gone; the report
/// says whether the callback was accepted.
#[verifier::external_body]
pub fn send_callback(sink: &crossbeam_channel::Sender<Callback>, cb: Callback) -> (r: bool) {
    match sink.send(cb) {
        Ok(()) => true,
        Err(_) => false,
    }
}

/// Relies on crossbeam_channel::Receiver::try_iter: takes every callback
/// already enqueued, in arrival order, without blocking; the result is
/// empty when nothing is pending. A disconnected channel (no producer
/// left) yields the same empty result, never an error.
#[verifier::external_body]
pub fn drain_callbacks(source: &crossbeam_channel::Receiver<Callback>) -> (r: Vec<Callback>) {
    source.try_iter().collect()
}

} // verus!
