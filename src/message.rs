use tokio::sync::mpsc::Sender;
use vstd::prelude::*;

verus! {

/// Messages this library pushes onto a client's outbound queue.
#[derive(Clone, Debug, PartialEq, Eq)]
pub enum S2CMessage {
    /// The session the client watched has ended.
    NotifySessionClosed,
    /// The session now has this many subscribers.
    NotifyViewCount { viewers: usize },
    /// An already encoded answer produced by the command handler.
    Response { payload: String },
}

#[verifier::external_type_specification]
#[verifier::external_body]
#[verifier::reject_recursive_types(T)]
pub struct ExSender<T>(Sender<T>);

/// Relies on tokio's `Sender::try_send`: it enqueues a copy of the message
/// without waiting and fails at once when the queue is full or closed. Which
/// of the two happens depends on the receiver, so nothing is promised.
#[verifier::external_body]
pub(crate) fn try_deliver(tx: &Sender<S2CMessage>, message: &S2CMessage) -> (delivered: bool) {
    tx.try_send(message.clone()).is_ok()
}

/// Relies on tokio's `Sender::clone`: a second handle on the same queue.
#[verifier::external_body]
pub(crate) fn share_sender(tx: &Sender<S2CMessage>) -> (r: Sender<S2CMessage>)
    ensures
        r == *tx,
{
    tx.clone()
}

} // verus!
