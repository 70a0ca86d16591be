//! The message queues that connect this crate to the threads around it.
//!
//! The queues are `crossbeam_channel`'s. What they hold at any moment depends
//! on the other threads, so nothing here is claimed of what a receive returns;
//! the code that calls these functions is verified for every outcome.
use crossbeam_channel::{Receiver, Sender};
use vstd::prelude::*;

verus! {

/// `crossbeam_channel::Sender`: the sending end of a queue, carried as it is.
/// Nothing inside it is read here.
#[verifier::external_type_specification]
#[verifier::external_body]
#[verifier::reject_recursive_types(T)]
pub struct ExSender<T>(crossbeam_channel::Sender<T>);

/// `crossbeam_channel::Receiver`: the receiving end of a queue, carried as it
/// is. Nothing inside it is read here.
#[verifier::external_type_specification]
#[verifier::external_body]
#[verifier::reject_recursive_types(T)]
pub struct ExReceiver<T>(crossbeam_channel::Receiver<T>);

/// Why a queue handed nothing out.
#[derive(Debug, Clone, Copy, PartialEq, Eq, Structural)]
pub enum QueueError {
    /// Nothing is queued right now.
    Empty,
    /// Nothing is queued and every sender is gone.
    Disconnected,
}

/// `crossbeam_channel::unbounded`: a new queue without a capacity limit, as
/// its sending and its receiving end.
#[verifier::external_body]
pub(crate) fn open_queue<T>() -> (ends: (Sender<T>, Receiver<T>)) {
    crossbeam_channel::unbounded()
}

/// `Sender::clone`: one more sending end of the same queue.
#[verifier::external_body]
pub(crate) fn share_sender<T>(sender: &Sender<T>) -> (shared: Sender<T>) {
    sender.clone()
}

/// `Sender::send`: queues `item`. The call fails only when every receiver is
/// gone, and the error then carries the very item that was to be sent.
#[verifier::external_body]
pub(crate) fn queue_send<T>(sender: &Sender<T>, item: T) -> (sent: Result<(), T>)
    ensures
        sent matches Err(back) ==> back == item,
{
    match sender.send(item) {
        Ok(()) => Ok(()),
        Err(crossbeam_channel::SendError(back)) => Err(back),
    }
}

/// `Receiver::try_recv`: takes the oldest queued item without waiting, or
/// says why there is none.
#[verifier::external_body]
pub(crate) fn queue_try_recv<T>(receiver: &Receiver<T>) -> (polled: Result<T, QueueError>) {
    match receiver.try_recv() {
        Ok(item) => Ok(item),
        Err(crossbeam_channel::TryRecvError::Empty) => Err(QueueError::Empty),
        Err(crossbeam_channel::TryRecvError::Disconnected) => Err(QueueError::Disconnected),
    }
}

} // verus!
