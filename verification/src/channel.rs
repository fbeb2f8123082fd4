//! Trusted boundary to the asynchronous transport: bounded mailbox
//! channels and one-shot reply channels. Only construction, cloning and
//! the synchronous reply send are needed here; suspending operations
//! (receiving, sending with a timeout) are the caller's business.

use vstd::prelude::*;

verus! {

#[verifier::external_type_specification]
#[verifier::external_body]
#[verifier::reject_recursive_types(T)]
pub struct ExMpscSender<T>(tokio::sync::mpsc::Sender<T>);

#[verifier::external_type_specification]
#[verifier::external_body]
#[verifier::reject_recursive_types(T)]
pub struct ExMpscReceiver<T>(tokio::sync::mpsc::Receiver<T>);

#[verifier::external_type_specification]
#[verifier::external_body]
#[verifier::reject_recursive_types(T)]
pub struct ExOneshotSender<T>(tokio::sync::oneshot::Sender<T>);

#[verifier::external_type_specification]
#[verifier::external_body]
#[verifier::reject_recursive_types(T)]
pub struct ExOneshotReceiver<T>(tokio::sync::oneshot::Receiver<T>);

#[verifier::external_type_specification]
#[verifier::external_body]
pub struct ExOneshotRecvError(tokio::sync::oneshot::error::RecvError);

/// Relies on tokio::sync::mpsc::channel: allocates a bounded channel of
/// the given capacity. The call panics on a zero capacity and on one
/// above the semaphore's permit cap (`usize::MAX >> 3`), so those cases
/// are excluded here.
#[verifier::external_body]
pub(crate) fn new_mailbox<T>(buffer: usize) -> (tokio::sync::mpsc::Sender<T>, tokio::sync::mpsc::Receiver<T>)
    requires
        1 <= buffer <= usize::MAX >> 3,
{
    tokio::sync::mpsc::channel(buffer)
}

/// Relies on the Clone impl of tokio::sync::mpsc::Sender: the clone is a
/// handle to the same channel, so the two values are modelled as equal.
#[verifier::external_body]
pub(crate) fn clone_sender<T>(sender: &tokio::sync::mpsc::Sender<T>) -> (r: tokio::sync::mpsc::Sender<T>)
    ensures
        r == *sender,
{
    sender.clone()
}

/// Relies on tokio::sync::oneshot::channel: allocates a fresh one-shot
/// channel; the sender carries at most one value to the receiver.
#[verifier::external_body]
pub(crate) fn new_reply_channel<T>() -> (tokio::sync::oneshot::Sender<T>, tokio::sync::oneshot::Receiver<T>)
{
    tokio::sync::oneshot::channel()
}

/// Relies on tokio::sync::oneshot::Sender::send: delivers the value if
/// the receiving end is still alive and returns whether it did. The
/// sender is consumed either way, so no second delivery can follow.
#[verifier::external_body]
pub(crate) fn send_reply<T>(sink: tokio::sync::oneshot::Sender<T>, value: T) -> (delivered: bool)
{
    sink.send(value).is_ok()
}

} // verus!
