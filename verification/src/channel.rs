//! The channels that connect callers and workers.
//!
//! Nothing is proved of what travels through a channel: what a send or a
//! receive returns depends on the thread at the other end. The functions
//! here say only what holds whatever that thread does.

use vstd::prelude::*;
use crossbeam_channel::Receiver;
use crossbeam_channel::Sender;

verus! {

/// `crossbeam_channel::Sender`, the sending end of a channel.
#[verifier::external_type_specification]
#[verifier::external_body]
#[verifier::reject_recursive_types(T)]
pub struct ExSender<T>(crossbeam_channel::Sender<T>);

/// `crossbeam_channel::Receiver`, the receiving end of a channel.
#[verifier::external_type_specification]
#[verifier::external_body]
#[verifier::reject_recursive_types(T)]
pub struct ExReceiver<T>(crossbeam_channel::Receiver<T>);

/// `futures::channel::oneshot::Sender`, the sending end of a channel for one value.
#[verifier::external_type_specification]
#[verifier::external_body]
#[verifier::reject_recursive_types(T)]
pub struct ExPromise<T>(futures::channel::oneshot::Sender<T>);

/// `futures::channel::oneshot::Canceled`: the sender went away without sending.
#[verifier::external_type_specification]
#[verifier::external_body]
pub struct ExCanceled(futures::channel::oneshot::Canceled);

/// Largest capacity that a bounded channel is made with here.
pub const MAX_CAPACITY: usize = 1024;

/// `crossbeam_channel::unbounded`: a channel that holds any number of messages.
///
/// Trusted: the call returns the two ends of a new channel.
#[verifier::external_body]
pub(crate) fn unbounded<T>() -> (ends: (Sender<T>, Receiver<T>)) {
    crossbeam_channel::unbounded()
}

/// `crossbeam_channel::bounded`: a channel that holds at most `capacity`
/// messages; with capacity zero a send waits for a receive.
///
/// Trusted: the call returns the two ends of a new channel. It panics if
/// the capacity is too large to allocate, which the bound rules out.
#[verifier::external_body]
pub(crate) fn bounded<T>(capacity: usize) -> (ends: (Sender<T>, Receiver<T>))
    requires
        capacity <= MAX_CAPACITY,
{
    crossbeam_channel::bounded(capacity)
}

/// `crossbeam_channel::Sender::send`: waits until the message is taken into
/// the channel or every receiver is gone.
///
/// Trusted: a message that could not be sent comes back unchanged.
#[verifier::external_body]
pub(crate) fn send<T>(sender: &Sender<T>, message: T) -> (sent: Result<(), T>)
    ensures
        sent matches Err(returned) ==> returned == message,
{
    sender.send(message).map_err(|error| error.into_inner())
}

/// `crossbeam_channel::Receiver::recv`: waits for the next message; `None`
/// once the channel is empty and every sender is gone.
#[verifier::external_body]
pub(crate) fn recv<T>(receiver: &Receiver<T>) -> (message: Option<T>) {
    receiver.recv().ok()
}

/// `Clone::clone` of a `crossbeam_channel::Receiver`: one more receiving
/// end of the same channel.
#[verifier::external_body]
pub(crate) fn share<T>(receiver: &Receiver<T>) -> (shared: Receiver<T>) {
    receiver.clone()
}

/// `futures::channel::oneshot::Sender::send`: hands over the one value, and
/// does not wait.
///
/// Trusted: a value that could not be handed over, because the receiver is
/// gone, comes back unchanged.
#[verifier::external_body]
pub(crate) fn fulfil<T>(promise: futures::channel::oneshot::Sender<T>, value: T) -> (sent: Result<
    (),
    T,
>)
    ensures
        sent matches Err(returned) ==> returned == value,
{
    promise.send(value)
}

} // verus!
