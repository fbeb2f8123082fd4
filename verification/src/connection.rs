//! The client-side handle over a worker's mailbox, and the exact error
//! semantics of its three send operations.
//!
//! The suspending enqueue itself (a send with a timeout) happens outside
//! this crate; the transport hands back a `SendStatus`, and the
//! functions here fix what the client sees for every such outcome:
//! which error is returned, and that a rejected request comes back to
//! the caller by value.

use vstd::prelude::*;
use crate::channel::clone_sender;
use crate::channel::new_reply_channel;
use crate::message::Message;

verus! {

/// What a send operation reports to the caller. A rejected `call` or
/// `cast` returns the original request by value so it can be retried.
#[derive(Debug)]
pub enum ServerError<Req> {
    Timeout(Req),
    Closed(Req),
    InternalServerError,
}

/// A cheaply cloneable, typed handle over a worker's mailbox sender.
#[verifier::reject_recursive_types(Req)]
#[verifier::reject_recursive_types(Resp)]
pub struct Connection<Req, Resp> {
    endpoint: tokio::sync::mpsc::Sender<Message<Req, Resp>>,
}

/// The transport's verdict on one enqueue attempt. A rejected attempt
/// hands the whole envelope back.
#[verifier::reject_recursive_types(Resp)]
pub enum SendStatus<Req, Resp> {
    /// The envelope was placed on the mailbox within the timeout.
    Accepted,
    /// The mailbox stayed full past the timeout; the envelope returns.
    RejectedTimeout(Message<Req, Resp>),
    /// The mailbox is closed; the envelope returns.
    RejectedClosed(Message<Req, Resp>),
}

impl<Req, Resp> SendStatus<Req, Resp> {
    /// Any envelope handed back is a data envelope (the status came
    /// from sending a call or a cast).
    pub open spec fn returns_data(&self) -> bool {
        match *self {
            SendStatus::Accepted => true,
            SendStatus::RejectedTimeout(m) => !m.is_signal(),
            SendStatus::RejectedClosed(m) => !m.is_signal(),
        }
    }
}

impl<Req, Resp> Connection<Req, Resp> {
    /// The mailbox sender this handle wraps.
    pub closed spec fn spec_endpoint(&self) -> tokio::sync::mpsc::Sender<Message<Req, Resp>> {
        self.endpoint
    }

    pub fn new(endpoint: tokio::sync::mpsc::Sender<Message<Req, Resp>>) -> (r: Self)
        ensures
            r.spec_endpoint() == endpoint,
    {
        Connection { endpoint }
    }

    /// The sender, for the caller to enqueue an envelope on.
    pub fn endpoint(&self) -> (r: &tokio::sync::mpsc::Sender<Message<Req, Resp>>)
        ensures
            *r == self.spec_endpoint(),
    {
        &self.endpoint
    }

    /// A call's envelope and the receiving end of its fresh one-shot
    /// reply channel.
    pub fn prepare_call(&self, request: Req) -> (r: (Message<Req, Resp>, tokio::sync::oneshot::Receiver<Resp>))
        ensures
            r.0.is_call(),
            r.0.spec_request() == request,
    {
        let (reply_to, rx) = new_reply_channel();
        (Message::new_call(request, reply_to), rx)
    }

    /// A cast's envelope.
    pub fn prepare_cast(&self, request: Req) -> (r: Message<Req, Resp>)
        ensures
            r.is_cast(),
            r.spec_request() == request,
    {
        Message::new_event(request)
    }

    /// A signal's envelope.
    pub fn prepare_signal(&self, info: crate::message::Signal) -> (r: Message<Req, Resp>)
        ensures
            r.is_signal(),
            r.spec_info() == info,
    {
        Message::new_signal(info)
    }
}

impl<Req, Resp> Clone for Connection<Req, Resp> {
    /// A clone sends into the same mailbox.
    fn clone(&self) -> (r: Self)
        ensures
            r == *self,
    {
        Connection { endpoint: clone_sender(&self.endpoint) }
    }
}

/// What a `call` or `cast` returns when its enqueue attempt ends with
/// `status`: a timeout or a closed mailbox hands the original request
/// back to the caller, and acceptance alone is success.
pub fn request_send_outcome<Req, Resp>(status: SendStatus<Req, Resp>) -> (r: Result<(), ServerError<Req>>)
    requires
        status.returns_data(),
    ensures
        r is Ok <==> status is Accepted,
        (status matches SendStatus::RejectedTimeout(m) ==>
            r == Err::<(), ServerError<Req>>(ServerError::Timeout(m.spec_request()))),
        (status matches SendStatus::RejectedClosed(m) ==>
            r == Err::<(), ServerError<Req>>(ServerError::Closed(m.spec_request()))),
{
    match status {
        SendStatus::Accepted => Ok(()),
        SendStatus::RejectedTimeout(m) => Err(ServerError::Timeout(m.unwrap())),
        SendStatus::RejectedClosed(m) => Err(ServerError::Closed(m.unwrap())),
    }
}

/// What a `signal` returns when its enqueue attempt ends with `status`:
/// signal payloads are not returned to the caller, so every rejection
/// collapses into `InternalServerError`.
pub fn signal_send_outcome<Req, Resp>(status: SendStatus<Req, Resp>) -> (r: Result<(), ServerError<Req>>)
    ensures
        r is Ok <==> status is Accepted,
        !(status is Accepted) ==> r == Err::<(), ServerError<Req>>(ServerError::InternalServerError),
{
    match status {
        SendStatus::Accepted => Ok(()),
        SendStatus::RejectedTimeout(_) => Err(ServerError::InternalServerError),
        SendStatus::RejectedClosed(_) => Err(ServerError::InternalServerError),
    }
}

/// What a `call` returns once its enqueue succeeded: the reply if one
/// arrived, and `InternalServerError` if the worker dropped the reply
/// sink without sending into it.
pub fn call_reply_outcome<Req, Resp>(reply: Option<Resp>) -> (r: Result<Resp, ServerError<Req>>)
    ensures
        (reply matches Some(v) ==> r == Ok::<Resp, ServerError<Req>>(v)),
        reply is None ==> r == Err::<Resp, ServerError<Req>>(ServerError::InternalServerError),
{
    match reply {
        Some(v) => Ok(v),
        None => Err(ServerError::InternalServerError),
    }
}

} // verus!
