//! The channel endpoints that connect a node to its neighbours and to the
//! controller. Nothing is proved of them: their behaviour is taken from
//! `crossbeam_channel` as it stands.

use vstd::prelude::*;
use crossbeam_channel::{Receiver, Sender};

verus! {

/// `crossbeam_channel::Sender`, the sending half of a channel. Verus sees
/// nothing inside it.
#[verifier::external_type_specification]
#[verifier::external_body]
#[verifier::reject_recursive_types(T)]
pub struct ExSender<T>(Sender<T>);

/// `crossbeam_channel::Receiver`, the receiving half of a channel. Verus sees
/// nothing inside it.
#[verifier::external_type_specification]
#[verifier::external_body]
#[verifier::reject_recursive_types(T)]
pub struct ExReceiver<T>(Receiver<T>);

/// Calls `Sender::try_send`, which enqueues the message without blocking, and
/// tells whether the channel took it. It does not when the receiving side is
/// gone or a bounded channel is full, which depends on the other end of the
/// channel, so nothing is claimed of the result.
#[verifier::external_body]
pub(crate) fn offer<T>(sender: &Sender<T>, message: T) -> (taken: bool) {
    sender.try_send(message).is_ok()
}

/// Calls `Receiver::try_recv`, which takes the next queued message without
/// blocking. What is queued depends on the senders, so nothing is claimed of
/// the result.
#[verifier::external_body]
pub(crate) fn poll<T>(receiver: &Receiver<T>) -> (message: Option<T>) {
    receiver.try_recv().ok()
}

/// Calls `Receiver::len`, the number of messages queued in the channel at the
/// moment of the call. Senders may add to it at any time, so nothing is
/// claimed of the result.
#[verifier::external_body]
pub(crate) fn queued<T>(receiver: &Receiver<T>) -> (count: usize) {
    receiver.len()
}

} // verus!
