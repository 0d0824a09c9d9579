//! Trusted boundary to `crossbeam_channel`.
//!
//! The peripherals publish interrupt edges and outgoing UART bytes on
//! unbounded multi-producer channels; worker threads outside this crate
//! consume them (and may inject their own edges through cloned senders).
//! What a receiver yields therefore depends on scheduling, so none of the
//! wrappers below promises anything about the messages themselves: every
//! caller states what holds of whatever came back.

use vstd::prelude::*;

verus! {

#[verifier::external_type_specification]
#[verifier::external_body]
#[verifier::reject_recursive_types(T)]
pub struct ExSender<T>(crossbeam_channel::Sender<T>);

#[verifier::external_type_specification]
#[verifier::external_body]
#[verifier::reject_recursive_types(T)]
pub struct ExReceiver<T>(crossbeam_channel::Receiver<T>);

/// Relies on `crossbeam_channel::unbounded`: creates a channel of unbounded
/// capacity, returning its sending and receiving halves.
#[verifier::external_body]
pub(crate) fn chan_unbounded<T>() -> (crossbeam_channel::Sender<T>, crossbeam_channel::Receiver<
    T,
>) {
    crossbeam_channel::unbounded()
}

/// Relies on `crossbeam_channel::Sender::send`: enqueues the message unless
/// every receiver has been dropped, in which case the message is discarded.
#[verifier::external_body]
pub(crate) fn chan_send<T>(tx: &crossbeam_channel::Sender<T>, msg: T) {
    let _ = tx.send(msg);
}

/// Relies on `crossbeam_channel::Receiver::try_recv`: pops the next pending
/// message without blocking; `None` when the channel is empty or closed.
#[verifier::external_body]
pub(crate) fn chan_try_recv<T>(rx: &crossbeam_channel::Receiver<T>) -> Option<T> {
    rx.try_recv().ok()
}

/// Relies on `crossbeam_channel`'s `Clone` impl for `Sender`: returns another
/// handle that feeds the same channel.
#[verifier::external_body]
pub(crate) fn chan_sender_clone<T>(tx: &crossbeam_channel::Sender<T>) -> crossbeam_channel::Sender<
    T,
> {
    tx.clone()
}

} // verus!
