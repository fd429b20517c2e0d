use vstd::prelude::*;

verus! {

/// The sending end of a single-use channel, `oneshot::Sender`. Opaque.
#[verifier::external_type_specification]
#[verifier::external_body]
#[verifier::reject_recursive_types(T)]
pub struct ExReplySender<T>(oneshot::Sender<T>);

/// The receiving end of a single-use channel, `oneshot::Receiver`. Opaque.
#[verifier::external_type_specification]
#[verifier::external_body]
#[verifier::reject_recursive_types(T)]
pub struct ExReplyReceiver<T>(oneshot::Receiver<T>);

/// `oneshot::SendError`: the receiving end was gone; it holds the message.
#[verifier::external_type_specification]
#[verifier::external_body]
#[verifier::reject_recursive_types(T)]
pub struct ExReplySendError<T>(oneshot::SendError<T>);

/// `oneshot::RecvError`: the sending end was dropped with nothing sent.
#[verifier::external_type_specification]
#[verifier::external_body]
pub struct ExReplyRecvError(oneshot::RecvError);

/// The producer end of a worker's task queue, `std::sync::mpsc::Sender`. Opaque.
#[verifier::external_type_specification]
#[verifier::external_body]
#[verifier::reject_recursive_types(T)]
pub struct ExQueueSender<T>(std::sync::mpsc::Sender<T>);

/// `std::sync::mpsc::SendError`: the queue's consumer was gone; it holds the
/// message.
#[verifier::external_type_specification]
#[verifier::external_body]
#[verifier::reject_recursive_types(T)]
pub struct ExQueueSendError<T>(std::sync::mpsc::SendError<T>);

/// Calls `oneshot::channel`, which allocates a fresh single-use channel and
/// returns its two ends. Nothing is claimed about them.
#[verifier::external_body]
pub(crate) fn reply_channel<T>() -> (ends: (oneshot::Sender<T>, oneshot::Receiver<T>)) {
    oneshot::channel()
}

/// Calls `oneshot::Sender::send`, which never blocks. Whether it succeeds
/// depends on whether the receiving end is still alive, so nothing is claimed
/// about the result.
#[verifier::external_body]
pub(crate) fn send_reply<T>(sender: oneshot::Sender<T>, message: T) -> (sent: Result<
    (),
    oneshot::SendError<T>,
>) {
    sender.send(message)
}

/// Calls `oneshot::Receiver::recv`, which blocks until the sending end has
/// sent its message or has been dropped. What arrives is decided by whoever
/// holds the sending end, so nothing is claimed about the result.
#[verifier::external_body]
pub(crate) fn await_reply<T>(receiver: oneshot::Receiver<T>) -> (received: Result<
    T,
    oneshot::RecvError,
>) {
    receiver.recv()
}

/// Calls `std::sync::mpsc::Sender::send`, which never blocks. Whether it
/// succeeds depends on whether the queue's consumer is still alive, so nothing
/// is claimed about the result.
#[verifier::external_body]
pub(crate) fn enqueue<T>(queue: &std::sync::mpsc::Sender<T>, message: T) -> (sent: Result<
    (),
    std::sync::mpsc::SendError<T>,
>) {
    queue.send(message)
}

} // verus!
