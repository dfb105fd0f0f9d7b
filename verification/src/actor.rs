//! The behavior unit of the system.
//!
//! An actor owns one inbox and a message-handling function, and is
//! polymorphic over the pair of its own message and result types. The
//! handler runs to completion inside a worker task; it has no failure
//! channel, so an actor that needs to signal failure encodes it in its
//! result variants. `msg_ok` names the messages the handler accepts, and
//! the inbox only ever holds accepted messages, so every drained batch
//! can be handled to completion.

use vstd::prelude::*;

use crate::inbox::Inbox;

verus! {

/// An independently schedulable unit: one inbox of pending messages plus
/// a handler from messages to results.
pub trait Actor: Sized {
    /// The actor's message type.
    type M;

    /// The actor's result type.
    type R;

    /// What the handler returns for a message: a mathematical function of
    /// the actor's state and the message.
    spec fn handle_spec(&self, m: Self::M) -> Self::R;

    /// The messages the handler accepts. Only these may be enqueued, so a
    /// drained batch is always handled to completion.
    spec fn msg_ok(&self, m: Self::M) -> bool;

    /// The pending messages of the actor's inbox, oldest first.
    spec fn queued(&self) -> Seq<Self::M>;

    /// Handle one message to completion and return the handler's result.
    fn handle_msg(&self, m: Self::M) -> (r: Self::R)
        requires
            self.msg_ok(m),
        ensures
            r == self.handle_spec(m),
    ;

    /// Runtime test for `msg_ok`: whether the handler accepts `m`.
    fn check_msg(&self, m: &Self::M) -> (b: bool)
        ensures
            b == self.msg_ok(*m),
    ;

    /// Shared read access to the actor's inbox.
    fn inbox(&self) -> (r: &Inbox<Self::M>)
        ensures
            r@ == self.queued(),
    ;

    /// Number of messages pending in the actor's inbox.
    fn inbox_len(&self) -> (n: usize)
        ensures
            n == self.queued().len(),
    ;

    /// Append one accepted message at the tail of the actor's inbox.
    /// Nothing already pending is dropped or reordered, and the actor's
    /// handler behavior is untouched.
    fn enqueue(&mut self, m: Self::M)
        requires
            old(self).msg_ok(m),
        ensures
            final(self).queued() == old(self).queued().push(m),
            forall|x: Self::M| #[trigger] final(self).handle_spec(x) == old(self).handle_spec(x),
            forall|x: Self::M| #[trigger] final(self).msg_ok(x) == old(self).msg_ok(x),
    ;

    /// Remove and return up to `max` messages from the head of the
    /// actor's inbox, preserving order: the result is exactly the drained
    /// prefix, the inbox keeps exactly the remaining suffix, and the
    /// actor's handler behavior is untouched.
    fn drain_chunk(&mut self, max: usize) -> (batch: Vec<Self::M>)
        ensures
            batch@ == old(self).queued().take(
                vstd::math::min(old(self).queued().len() as int, max as int),
            ),
            final(self).queued() == old(self).queued().skip(
                vstd::math::min(old(self).queued().len() as int, max as int),
            ),
            forall|x: Self::M| #[trigger] final(self).handle_spec(x) == old(self).handle_spec(x),
            forall|x: Self::M| #[trigger] final(self).msg_ok(x) == old(self).msg_ok(x),
    ;

    /// Deliver one message directly to `target`, bypassing its inbox, and
    /// return the handler's result.
    fn send_msg(&self, m: Self::M, target: Box<Self>) -> (r: Self::R)
        requires
            target.msg_ok(m),
        ensures
            r == target.handle_spec(m),
    {
        target.handle_msg(m)
    }
}

/// Two actor states agree on handler behavior: the same messages are
/// accepted and each accepted message maps to the same result. Inbox
/// operations leave behavior unchanged in this sense.
pub open spec fn same_behavior<A: Actor>(a: A, b: A) -> bool {
    &&& forall|m: A::M| #[trigger] b.handle_spec(m) == a.handle_spec(m)
    &&& forall|m: A::M| #[trigger] b.msg_ok(m) == a.msg_ok(m)
}

/// Every message pending in the actor's inbox is one its handler
/// accepts. Enqueue only admits accepted messages, so the dispatcher can
/// rely on this when it hands a drained batch to the handler.
pub open spec fn inbox_ok<A: Actor>(a: A) -> bool {
    forall|i: int| 0 <= i < a.queued().len() ==> a.msg_ok(#[trigger] a.queued()[i])
}

} // verus!
