//! Message channels as the library sees them.
//!
//! Everything in this file is taken on trust. A channel is shared with other
//! threads, so no call here promises what it finds: a send may meet a
//! receiver that is gone, and a receive may find the queue empty. No call
//! here waits without end.

use vstd::prelude::*;
use crossbeam_channel::{Receiver, Sender};

verus! {

/// `crossbeam_channel::Sender`: the sending end of a channel. Opaque.
#[verifier::external_type_specification]
#[verifier::external_body]
#[verifier::reject_recursive_types(T)]
pub struct ExSender<T>(Sender<T>);

/// `crossbeam_channel::Receiver`: the receiving end of a channel. Opaque.
#[verifier::external_type_specification]
#[verifier::external_body]
#[verifier::reject_recursive_types(T)]
pub struct ExReceiver<T>(Receiver<T>);

/// The longest wait that `receive_within` is asked for: one day.
pub const MAX_WAIT_MS: u64 = 86_400_000;

/// `crossbeam_channel::unbounded`: a fresh channel that takes any number of
/// messages, with its sending and its receiving end.
#[verifier::external_body]
pub(crate) fn open_channel<T>() -> (ends: (Sender<T>, Receiver<T>)) {
    crossbeam_channel::unbounded()
}

/// `Sender::try_send`: queues `message` if that can be done at once, and
/// never waits. The answer is `false` where the channel is full or every
/// receiver is gone; the message is then dropped. A channel made by
/// `open_channel` is never full.
#[verifier::external_body]
pub(crate) fn send<T>(sender: &Sender<T>, message: T) -> (sent: bool) {
    sender.try_send(message).is_ok()
}

/// `Receiver::try_recv`: the next message if one is queued, without waiting.
#[verifier::external_body]
pub(crate) fn receive_now<T>(receiver: &Receiver<T>) -> (message: Option<T>) {
    receiver.try_recv().ok()
}

/// `Receiver::recv_timeout`: the next message, waiting for one for at most
/// `millis` milliseconds. Nothing comes back where the time runs out or
/// every sender is gone. The wait is bounded so that its deadline can be
/// computed; without a deadline the call would wait without end.
#[verifier::external_body]
pub(crate) fn receive_within<T>(receiver: &Receiver<T>, millis: u64) -> (message: Option<T>)
    requires
        millis <= MAX_WAIT_MS,
{
    receiver.recv_timeout(std::time::Duration::from_millis(millis)).ok()
}

} // verus!
