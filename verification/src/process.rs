//! The worker process: construction, spawning, and the dispatch loop's
//! decisions.
//!
//! A worker's callbacks suspend, so the loop itself is driven outside
//! this crate; every decision the loop takes is made here. `ProcessLoop`
//! is a state machine the driver obeys: `on_message` classifies each
//! envelope and says which callback to invoke, or that an untrapped
//! signal ends the worker; `on_directive` applies the callback's
//! directive, delivering a reply exactly when the directive is `Reply`;
//! `finish` completes every exit, removing the worker's name from the
//! registry whatever the reason — a `Stop` directive, an untrapped
//! signal, or a closed and drained mailbox. The phase discipline makes
//! the terminate callback run exactly once on every `Stop` or
//! untrapped-signal exit: those paths pass through the `Terminating`
//! phase with the callback between the step and `finish`, the closed
//! path passes through it with no callback, and no step accepts a
//! finished loop.

use vstd::prelude::*;
use crate::callback::Pattern;
use crate::callback::Response;
use crate::channel::clone_sender;
use crate::channel::new_mailbox;
use crate::channel::send_reply;
use crate::connection::Connection;
use crate::message::Message;
use crate::message::Signal;
use crate::registry::Registry;

verus! {

/// A worker that is created but not yet running: its mailbox exists,
/// no task consumes it yet.
#[verifier::reject_recursive_types(Req)]
#[verifier::reject_recursive_types(Resp)]
pub struct Process<Req, Resp> {
    sender: tokio::sync::mpsc::Sender<Message<Req, Resp>>,
    channel: tokio::sync::mpsc::Receiver<Message<Req, Resp>>,
    trap_exit: bool,
    register_name: Option<String>,
}

/// Which callback the driver must invoke for one envelope.
#[verifier::reject_recursive_types(Resp)]
pub enum Dispatch<Req, Resp> {
    /// Invoke the call callback with the request and its reply sink.
    Call(Req, tokio::sync::oneshot::Sender<Resp>),
    /// Invoke the cast callback with the request.
    Cast(Req),
    /// The worker traps signals: invoke the signal callback.
    Trapped(Signal),
}

/// What the loop does with one received envelope.
#[verifier::reject_recursive_types(Resp)]
pub enum LoopStep<Req, Resp> {
    /// Invoke a callback, then hand its directive to `on_directive`.
    Invoke(Dispatch<Req, Resp>),
    /// An untrapped signal: invoke the terminate callback with this
    /// signal and the current state, then call `finish`.
    Terminate(Signal),
    /// The mailbox is closed and drained: call `finish` and exit with
    /// this signal, invoking no callback.
    Exit(Signal),
}

/// What the loop does after a callback's directive is applied.
pub enum Flow<State> {
    /// Keep looping with this state; sleep `sleep_for` milliseconds
    /// before the next receive. `replied` says whether a delivery into
    /// the reply sink was attempted for this directive (the delivery
    /// itself is best-effort: it fails if the caller is gone).
    Continue { state: State, sleep_for: Option<u64>, replied: bool },
    /// Invoke the terminate callback with this signal and state, then
    /// call `finish`.
    Stop { info: Signal, state: State },
}

/// Where a running worker's loop stands.
pub enum LoopPhase {
    /// Receiving and dispatching messages.
    Running,
    /// The loop is exiting with this signal; only `finish` follows. On
    /// a `Stop` or untrapped-signal exit the terminate callback runs
    /// now; on a closed-mailbox exit nothing does.
    Terminating(Signal),
    /// The loop has exited.
    Done,
}

/// The loop-side half of a spawned worker.
#[verifier::reject_recursive_types(Req)]
#[verifier::reject_recursive_types(Resp)]
pub struct ProcessLoop<Req, Resp> {
    /// The receive end of the mailbox; the driver awaits messages on it.
    pub channel: tokio::sync::mpsc::Receiver<Message<Req, Resp>>,
    // Held for the lifetime of the loop so the mailbox stays open even
    // when no external client holds a handle.
    sender: tokio::sync::mpsc::Sender<Message<Req, Resp>>,
    trap_exit: bool,
    register_name: Option<String>,
    phase: LoopPhase,
}

impl<Req, Resp> Process<Req, Resp> {
    /// The mailbox sender of this worker.
    pub closed spec fn spec_sender(&self) -> tokio::sync::mpsc::Sender<Message<Req, Resp>> {
        self.sender
    }

    /// The receive end of this worker's mailbox.
    pub closed spec fn spec_channel(&self) -> tokio::sync::mpsc::Receiver<Message<Req, Resp>> {
        self.channel
    }

    /// Whether signals are delivered to the signal callback rather
    /// than terminating the worker.
    pub closed spec fn spec_trap_exit(&self) -> bool {
        self.trap_exit
    }

    /// The name the worker registers under, if any.
    pub closed spec fn spec_name(&self) -> Option<Seq<char>> {
        match self.register_name {
            Some(name) => Some(name@),
            None => None,
        }
    }

    /// Allocate the worker's bounded mailbox and record its name. No
    /// task runs yet and nothing is registered yet. The capacity is
    /// bounded by what the transport accepts without panicking.
    pub fn new(buffer_size: usize, register_name: Option<String>) -> (p: Self)
        requires
            1 <= buffer_size <= usize::MAX >> 3,
        ensures
            !p.spec_trap_exit(),
            register_name matches Some(name) ==> p.spec_name() == Some(name@),
            register_name is None ==> p.spec_name() == Option::<Seq<char>>::None,
    {
        let (sender, channel) = new_mailbox(buffer_size);
        Process { sender, channel, trap_exit: false, register_name }
    }

    /// Choose whether the worker traps signals. Off by default: an
    /// untrapped signal terminates the worker.
    pub fn set_trap_exit(&mut self, trap_exit: bool)
        ensures
            final(self).spec_trap_exit() == trap_exit,
            final(self).spec_sender() == old(self).spec_sender(),
            final(self).spec_name() == old(self).spec_name(),
    {
        self.trap_exit = trap_exit;
    }

    /// Hand out a connection for the caller, register the worker's
    /// name if it has one, and produce the loop half for the driver.
    pub fn spawn(self, registry: &mut Registry) -> (r: (Connection<Req, Resp>, ProcessLoop<Req, Resp>))
        where
            Req: Send + Sync + 'static,
            Resp: Send + Sync + 'static,
        ensures
            r.0.spec_endpoint() == self.spec_sender(),
            r.1.spec_phase() is Running,
            r.1.spec_trap_exit() == self.spec_trap_exit(),
            r.1.spec_name() == self.spec_name(),
            r.1.spec_sender() == self.spec_sender(),
            r.1.spec_channel() == self.spec_channel(),
            self.spec_name() matches Some(name) ==>
                final(registry).names() == old(registry).names().insert(name),
            self.spec_name() is None ==> final(registry).names() == old(registry).names(),
    {
        let connection = Connection::new(clone_sender(&self.sender));
        match &self.register_name {
            Some(name) => {
                registry.register(name.clone(), clone_sender(&self.sender));
            }
            None => {}
        }
        let lp = ProcessLoop {
            channel: self.channel,
            sender: self.sender,
            trap_exit: self.trap_exit,
            register_name: self.register_name,
            phase: LoopPhase::Running,
        };
        (connection, lp)
    }
}

impl<Req, Resp> ProcessLoop<Req, Resp> {
    /// Where the loop stands.
    pub closed spec fn spec_phase(&self) -> LoopPhase {
        self.phase
    }

    /// Whether signals are trapped.
    pub closed spec fn spec_trap_exit(&self) -> bool {
        self.trap_exit
    }

    /// The registered name, if any.
    pub closed spec fn spec_name(&self) -> Option<Seq<char>> {
        match self.register_name {
            Some(name) => Some(name@),
            None => None,
        }
    }

    /// The held mailbox sender: it keeps the channel open for the
    /// loop's lifetime.
    pub closed spec fn spec_sender(&self) -> tokio::sync::mpsc::Sender<Message<Req, Resp>> {
        self.sender
    }

    /// The receive end of the mailbox.
    pub closed spec fn spec_channel(&self) -> tokio::sync::mpsc::Receiver<Message<Req, Resp>> {
        self.channel
    }

    /// Everything but the phase stays as it was: the trap flag, the
    /// name, and both ends of the mailbox.
    pub open spec fn same_config(&self, other: &Self) -> bool {
        self.spec_trap_exit() == other.spec_trap_exit()
            && self.spec_name() == other.spec_name()
            && self.spec_sender() == other.spec_sender()
            && self.spec_channel() == other.spec_channel()
    }

    /// Classify one receive: `None` means the mailbox is closed and
    /// drained, and the loop exits with `Normal`, running no callback —
    /// only `finish`, which releases the worker's name as every exit
    /// does. A data envelope goes to the call or cast callback; a
    /// signal goes to the signal callback if trapped, and otherwise
    /// terminates the worker with that signal.
    pub fn on_message(&mut self, msg: Option<Message<Req, Resp>>) -> (step: LoopStep<Req, Resp>)
        requires
            old(self).spec_phase() is Running,
        ensures
            final(self).same_config(old(self)),
            msg is None ==> step == LoopStep::<Req, Resp>::Exit(Signal::Normal)
                && final(self).spec_phase() == LoopPhase::Terminating(Signal::Normal),
            (msg matches Some(m) ==> (m matches Message::Data { request, reply_to: Some(sink) } ==>
                step == LoopStep::<Req, Resp>::Invoke(Dispatch::Call(request, sink))
                && final(self).spec_phase() is Running)),
            (msg matches Some(m) ==> (m matches Message::Data { request, reply_to: None } ==>
                step == LoopStep::<Req, Resp>::Invoke(Dispatch::Cast(request))
                && final(self).spec_phase() is Running)),
            (msg matches Some(m) ==> (m matches Message::SignalData { info } ==>
                (old(self).spec_trap_exit() ==>
                    step == LoopStep::<Req, Resp>::Invoke(Dispatch::Trapped(info))
                    && final(self).spec_phase() is Running)
                && (!old(self).spec_trap_exit() ==>
                    step == LoopStep::<Req, Resp>::Terminate(info)
                    && final(self).spec_phase() == LoopPhase::Terminating(info)))),
    {
        match msg {
            None => {
                self.phase = LoopPhase::Terminating(Signal::Normal);
                LoopStep::Exit(Signal::Normal)
            }
            Some(Message::Data { request, reply_to: Some(sink) }) => {
                LoopStep::Invoke(Dispatch::Call(request, sink))
            }
            Some(Message::Data { request, reply_to: None }) => {
                LoopStep::Invoke(Dispatch::Cast(request))
            }
            Some(Message::SignalData { info }) => {
                if self.trap_exit {
                    LoopStep::Invoke(Dispatch::Trapped(info))
                } else {
                    let out = info.clone();
                    self.phase = LoopPhase::Terminating(info);
                    LoopStep::Terminate(out)
                }
            }
        }
    }

    /// Apply a callback's directive. A `Reply` delivers its response
    /// into the reply sink, best-effort, exactly once — `NoReply` and
    /// `Stop` deliver nothing — and the loop keeps the new state. A
    /// `Stop` moves the loop to `Terminating`; the sleep, if any, is
    /// honoured only on the continuing outcomes.
    pub fn on_directive<State>(&mut self, resp: Response<State, Resp>) -> (f: Flow<State>)
        requires
            old(self).spec_phase() is Running,
        ensures
            final(self).same_config(old(self)),
            (resp.pattern matches Pattern::Reply(_, _, state) ==>
                f == (Flow::Continue { state, sleep_for: resp.sleep_for, replied: true })
                && final(self).spec_phase() is Running),
            (resp.pattern matches Pattern::NoReply(state) ==>
                f == (Flow::Continue { state, sleep_for: resp.sleep_for, replied: false })
                && final(self).spec_phase() is Running),
            (resp.pattern matches Pattern::Stop(info, state) ==>
                f == (Flow::Stop { info, state })
                && final(self).spec_phase() == LoopPhase::Terminating(info)),
    {
        match resp.pattern {
            Pattern::Reply(response, sink, state) => {
                let _ = send_reply(sink, response);
                Flow::Continue { state, sleep_for: resp.sleep_for, replied: true }
            }
            Pattern::NoReply(state) => {
                Flow::Continue { state, sleep_for: resp.sleep_for, replied: false }
            }
            Pattern::Stop(info, state) => {
                let out = info.clone();
                self.phase = LoopPhase::Terminating(info);
                Flow::Stop { info: out, state }
            }
        }
    }

    /// Complete an exit: remove the worker's name from the registry,
    /// if it has one, and return the terminal signal. On a `Stop` or
    /// untrapped-signal exit this runs after the terminate callback;
    /// on a closed-mailbox exit it runs at once. The loop is then
    /// done; no step accepts it any more.
    pub fn finish(&mut self, registry: &mut Registry) -> (info: Signal)
        requires
            old(self).spec_phase() matches LoopPhase::Terminating(_),
        ensures
            final(self).same_config(old(self)),
            final(self).spec_phase() is Done,
            old(self).spec_phase() matches LoopPhase::Terminating(reason) ==> info == reason,
            old(self).spec_name() matches Some(name) ==>
                final(registry).names() == old(registry).names().remove(name),
            old(self).spec_name() is None ==> final(registry).names() == old(registry).names(),
    {
        match &self.register_name {
            Some(name) => {
                registry.unregister(name);
            }
            None => {}
        }
        let mut phase = LoopPhase::Done;
        core::mem::swap(&mut self.phase, &mut phase);
        match phase {
            LoopPhase::Terminating(info) => info,
            _ => unreached(),
        }
    }
}

/// How a loop's phase may move in one step, as the contracts above
/// allow it: a running loop keeps running or begins terminating; a
/// terminating loop is finished; a finished loop takes no step.
pub open spec fn phase_steps_to(before: LoopPhase, after: LoopPhase) -> bool {
    ||| (before is Running && after is Running)
    ||| (before is Running && after matches LoopPhase::Terminating(_))
    ||| (before matches LoopPhase::Terminating(_) && after is Done)
}

/// Termination happens at most once: along any trace of phases the
/// loop's steps allow, once the loop has left `Running` it is never
/// running again — so at most one step enters `Terminating`, and the
/// terminate callback, which runs exactly between that step and
/// `finish`, runs at most once; `finish`'s contract makes it run on
/// every `Stop` or untrapped-signal exit.
pub proof fn lemma_terminate_once(trace: Seq<LoopPhase>, i: int)
    requires
        forall|k: int| 0 <= k < trace.len() - 1 ==> #[trigger] phase_steps_to(trace[k], trace[k + 1]),
        0 <= i < trace.len(),
        !(trace[i] is Running),
    ensures
        forall|k: int| i <= k < trace.len() ==> !(#[trigger] trace[k] is Running),
    decreases trace.len() - i,
{
    if i + 1 < trace.len() {
        assert(phase_steps_to(trace[i], trace[i + 1]));
        lemma_terminate_once(trace, i + 1);
    }
}

} // verus!
