//! Message envelopes. A worker's mailbox carries exactly two envelope
//! shapes: a data envelope holding a request and, for a call, a one-shot
//! reply sink; and a signal envelope holding an out-of-band notification.

use vstd::prelude::*;
use crate::url::Url;

verus! {

/// The three envelope classes a mailbox can carry.
#[derive(PartialEq, Eq, Structural, Clone, Copy, Debug)]
pub enum MessageType {
    /// A request expecting a single reply (a call).
    Message,
    /// A fire-and-forget request (a cast).
    Event,
    /// An out-of-band notification.
    Signal,
}

/// An out-of-band notification. The framework does not interpret the
/// variants; only user callbacks do.
#[derive(Debug)]
pub enum Signal {
    Normal,
    Exit(Url, Description),
    Disconnect(Url, Description),
}

impl Clone for Signal {
    fn clone(&self) -> (r: Self)
        ensures
            r == *self,
    {
        match self {
            Signal::Normal => Signal::Normal,
            Signal::Exit(url, description) => Signal::Exit(url.clone(), *description),
            Signal::Disconnect(url, description) => Signal::Disconnect(url.clone(), *description),
        }
    }
}

/// An extensible reason code carried by `Exit` and `Disconnect`.
#[derive(PartialEq, Eq, Structural, Clone, Copy, Debug)]
pub enum Description {
    Normal,
}

/// The envelope placed on a worker's mailbox. A `Data` envelope with a
/// reply sink denotes a call; one without denotes a cast.
#[verifier::reject_recursive_types(Response)]
pub enum Message<Request, Response> {
    Data {
        request: Request,
        reply_to: Option<tokio::sync::oneshot::Sender<Response>>,
    },
    SignalData {
        info: Signal,
    },
}

impl<Request, Response> Message<Request, Response> {
    /// The envelope is a call: a request with a reply sink.
    pub open spec fn is_call(&self) -> bool {
        match *self {
            Message::Data { request: _, reply_to } => reply_to is Some,
            Message::SignalData { .. } => false,
        }
    }

    /// The envelope is a cast: a request without a reply sink.
    pub open spec fn is_cast(&self) -> bool {
        match *self {
            Message::Data { request: _, reply_to } => reply_to is None,
            Message::SignalData { .. } => false,
        }
    }

    /// The envelope carries a signal.
    pub open spec fn is_signal(&self) -> bool {
        *self matches Message::SignalData { .. }
    }

    /// The request carried by a `Data` envelope.
    pub open spec fn spec_request(&self) -> Request
        recommends !self.is_signal(),
    {
        match *self {
            Message::Data { request, reply_to: _ } => request,
            Message::SignalData { .. } => arbitrary(),
        }
    }

    /// The signal carried by a `SignalData` envelope.
    pub open spec fn spec_info(&self) -> Signal
        recommends self.is_signal(),
    {
        match *self {
            Message::Data { .. } => arbitrary(),
            Message::SignalData { info } => info,
        }
    }

    /// The class of the envelope.
    pub open spec fn spec_type(&self) -> MessageType {
        if self.is_call() {
            MessageType::Message
        } else if self.is_cast() {
            MessageType::Event
        } else {
            MessageType::Signal
        }
    }

    #[inline]
    pub fn new_call(request: Request, reply_to: tokio::sync::oneshot::Sender<Response>) -> (m: Self)
        ensures
            m == (Message::Data { request, reply_to: Some(reply_to) }),
    {
        Message::Data { request, reply_to: Some(reply_to) }
    }

    #[inline]
    pub fn new_event(request: Request) -> (m: Self)
        ensures
            m == (Message::Data::<Request, Response> { request, reply_to: None }),
    {
        Message::Data { request, reply_to: None }
    }

    #[inline]
    pub fn new_signal(info: Signal) -> (m: Self)
        ensures
            m == (Message::SignalData::<Request, Response> { info }),
    {
        Message::SignalData { info }
    }

    #[inline]
    pub fn get_type(&self) -> (t: MessageType)
        ensures
            t == self.spec_type(),
    {
        match self {
            Message::Data { request: _, reply_to } => {
                if reply_to.is_some() {
                    return MessageType::Message;
                }
                return MessageType::Event;
            }
            Message::SignalData { info: _ } => {
                return MessageType::Signal;
            }
        }
    }

    /// The request of a `Data` envelope. A signal envelope carries no
    /// request, so that case is excluded by contract.
    #[inline]
    pub fn unwrap(self) -> (r: Request)
        requires
            !self.is_signal(),
        ensures
            r == self.spec_request(),
    {
        match self {
            Message::Data { request: req, reply_to: _ } => req,
            Message::SignalData { info: _ } => unreached(),
        }
    }

    /// Total variant of `unwrap`: the request if the envelope carries
    /// one, `None` for a signal envelope.
    #[inline]
    pub fn into_request(self) -> (r: Option<Request>)
        ensures
            self.is_signal() <==> r is None,
            !self.is_signal() ==> r == Some(self.spec_request()),
    {
        match self {
            Message::Data { request: req, reply_to: _ } => Some(req),
            Message::SignalData { info: _ } => None,
        }
    }
}

} // verus!
