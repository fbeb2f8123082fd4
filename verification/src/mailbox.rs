//! The mailbox semantics: a bounded FIFO queue with a closed flag.
//!
//! This is the crate's sequential statement of what the transport does
//! with envelopes: messages come out in the order they went in, a full
//! mailbox rejects a send and hands the message back, and a closed
//! mailbox rejects every send and hands the message back. The proofs
//! here are what the ordering and failure guarantees of the framework
//! rest on.

use vstd::prelude::*;

verus! {

/// The outcome of one send attempt. A rejected attempt returns the
/// message to the sender by value.
pub enum MailboxSend<M> {
    /// The message was appended to the queue.
    Accepted,
    /// The queue was full; the message comes back unchanged.
    Full(M),
    /// The mailbox was closed; the message comes back unchanged.
    Closed(M),
}

/// A bounded FIFO mailbox.
pub struct Mailbox<M> {
    queue: Vec<M>,
    capacity: usize,
    closed: bool,
}

impl<M> Mailbox<M> {
    /// The queued messages, oldest first.
    pub closed spec fn queue(&self) -> Seq<M> {
        self.queue@
    }

    /// The fixed capacity the mailbox was created with.
    pub closed spec fn capacity(&self) -> usize {
        self.capacity
    }

    /// Whether the mailbox has been closed.
    pub closed spec fn is_closed(&self) -> bool {
        self.closed
    }

    /// The queue never exceeds the capacity, and the capacity is at
    /// least one.
    pub open spec fn wf(&self) -> bool {
        self.queue().len() <= self.capacity() && 1 <= self.capacity()
    }

    pub fn new(capacity: usize) -> (r: Self)
        requires
            1 <= capacity,
        ensures
            r.wf(),
            r.queue() == Seq::<M>::empty(),
            r.capacity() == capacity,
            !r.is_closed(),
    {
        Mailbox { queue: Vec::new(), capacity, closed: false }
    }

    /// Attempt to enqueue one message. Exactly one of three things
    /// happens: a closed mailbox returns the message as `Closed`, a
    /// full mailbox returns it as `Full`, and otherwise the message is
    /// appended at the tail. In the two failure cases the queue is
    /// untouched and the very message sent comes back.
    pub fn try_send(&mut self, message: M) -> (r: MailboxSend<M>)
        requires
            old(self).wf(),
        ensures
            final(self).wf(),
            final(self).capacity() == old(self).capacity(),
            final(self).is_closed() == old(self).is_closed(),
            old(self).is_closed() ==> r == MailboxSend::Closed(message)
                && final(self).queue() == old(self).queue(),
            !old(self).is_closed() && old(self).queue().len() == old(self).capacity() ==>
                r == MailboxSend::Full(message) && final(self).queue() == old(self).queue(),
            !old(self).is_closed() && old(self).queue().len() < old(self).capacity() ==>
                r is Accepted && final(self).queue() == old(self).queue().push(message),
    {
        if self.closed {
            MailboxSend::Closed(message)
        } else if self.queue.len() == self.capacity {
            MailboxSend::Full(message)
        } else {
            self.queue.push(message);
            MailboxSend::Accepted
        }
    }

    /// Take the oldest message, if any is queued.
    pub fn recv(&mut self) -> (r: Option<M>)
        requires
            old(self).wf(),
        ensures
            final(self).wf(),
            final(self).capacity() == old(self).capacity(),
            final(self).is_closed() == old(self).is_closed(),
            old(self).queue().len() == 0 ==> r is None && final(self).queue() == old(self).queue(),
            old(self).queue().len() > 0 ==> r == Some(old(self).queue()[0])
                && final(self).queue() == old(self).queue().drop_first(),
    {
        if self.queue.len() == 0 {
            None
        } else {
            Some(self.queue.remove(0))
        }
    }

    /// Close the mailbox: every later send is rejected as `Closed`.
    /// Messages already queued can still be received.
    pub fn close(&mut self)
        ensures
            final(self).wf() == old(self).wf(),
            final(self).capacity() == old(self).capacity(),
            final(self).queue() == old(self).queue(),
            final(self).is_closed(),
    {
        self.closed = true;
    }

    pub fn len(&self) -> (r: usize)
        ensures
            r == self.queue().len(),
    {
        self.queue.len()
    }
}

/// FIFO delivery: if, starting from a mailbox holding `prefix`, the
/// messages of `sent` are all accepted in order, the queue then holds
/// `prefix` followed by `sent`; in particular any two sent messages
/// stand in the queue in their sending order, and repeated receiving
/// hands `sent` back in that order once `prefix` is drained.
pub proof fn lemma_fifo<M>(prefix: Seq<M>, sent: Seq<M>)
    ensures
        push_all(prefix, sent) == prefix + sent,
        forall|i: int| 0 <= i < sent.len() ==> #[trigger] push_all(prefix, sent)[prefix.len() + i] == sent[i],
    decreases sent.len(),
{
    if sent.len() == 0 {
        assert(push_all(prefix, sent) == prefix + sent);
    } else {
        lemma_fifo(prefix.push(sent[0]), sent.drop_first());
        assert(prefix.push(sent[0]) + sent.drop_first() == prefix + sent);
    }
}

/// The queue after every message of `sent` is accepted in order, each
/// appended at the tail as `try_send` does.
pub open spec fn push_all<M>(prefix: Seq<M>, sent: Seq<M>) -> Seq<M>
    decreases sent.len(),
{
    if sent.len() == 0 {
        prefix
    } else {
        push_all(prefix.push(sent[0]), sent.drop_first())
    }
}

} // verus!
