//! Callback directives. A user callback returns a `Response`: a pattern
//! telling the loop whether to reply, keep going, or stop, and an
//! optional sleep applied after the pattern and before the next receive.

use vstd::prelude::*;
use crate::message::Signal;

verus! {

/// What a callback asks the loop to do next.
#[verifier::reject_recursive_types(Resp)]
pub enum Pattern<State, Resp> {
    /// Deliver the response into the reply sink and adopt the state.
    Reply(Resp, tokio::sync::oneshot::Sender<Resp>, State),
    /// Adopt the state; deliver nothing.
    NoReply(State),
    /// Adopt the state, run the terminate callback, and exit the loop
    /// with the signal.
    Stop(Signal, State),
}

/// A callback's full directive: the pattern, and an optional sleep in
/// milliseconds honoured after the pattern is applied and before the
/// next message is received.
#[verifier::reject_recursive_types(Resp)]
pub struct Response<State, Resp> {
    pub pattern: Pattern<State, Resp>,
    pub sleep_for: Option<u64>,
}

impl<State, Resp> Response<State, Resp> {
    pub fn reply(response: Resp, from: tokio::sync::oneshot::Sender<Resp>, state: State) -> (r: Self)
        ensures
            r.pattern == Pattern::Reply(response, from, state),
            r.sleep_for is None,
    {
        Response { pattern: Pattern::Reply(response, from, state), sleep_for: None }
    }

    pub fn no_reply(state: State) -> (r: Self)
        ensures
            r.pattern == Pattern::<State, Resp>::NoReply(state),
            r.sleep_for is None,
    {
        Response { pattern: Pattern::NoReply(state), sleep_for: None }
    }

    pub fn stop(info: Signal, state: State) -> (r: Self)
        ensures
            r.pattern == Pattern::<State, Resp>::Stop(info, state),
            r.sleep_for is None,
    {
        Response { pattern: Pattern::Stop(info, state), sleep_for: None }
    }

    /// Ask the loop to sleep for the given number of milliseconds after
    /// applying the pattern.
    pub fn with_sleep(&mut self, sleep_for: u64)
        ensures
            final(self).pattern == old(self).pattern,
            final(self).sleep_for == Some(sleep_for),
    {
        self.sleep_for = Some(sleep_for)
    }
}

} // verus!
