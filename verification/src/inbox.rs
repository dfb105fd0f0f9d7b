//! The message queue owned by one actor.
//!
//! An inbox is an ordered sequence of pending messages. Producers append
//! at the tail; the dispatcher removes a bounded prefix at a time, so the
//! order in which messages are handled is the order in which they were
//! enqueued.

use vstd::prelude::*;

verus! {

/// FIFO queue of pending messages belonging to one actor.
pub struct Inbox<M> {
    msgs: Vec<M>,
}

impl<M> View for Inbox<M> {
    type V = Seq<M>;

    closed spec fn view(&self) -> Seq<M> {
        self.msgs@
    }
}

impl<M> Inbox<M> {
    /// A fresh inbox holds no messages.
    pub fn new() -> (r: Self)
        ensures
            r@ == Seq::<M>::empty(),
    {
        Inbox { msgs: Vec::new() }
    }

    /// Number of pending messages.
    pub fn len(&self) -> (n: usize)
        ensures
            n == self@.len(),
    {
        self.msgs.len()
    }

    /// Append one message at the tail. Never drops or reorders what is
    /// already pending.
    pub fn enqueue(&mut self, m: M)
        ensures
            final(self)@ == old(self)@.push(m),
    {
        self.msgs.push(m);
    }

    /// Remove and return up to `max` messages from the head, preserving
    /// order: the result is exactly the drained prefix, and the inbox
    /// keeps exactly the remaining suffix.
    pub fn drain_chunk(&mut self, max: usize) -> (batch: Vec<M>)
        ensures
            batch@ == old(self)@.take(vstd::math::min(old(self)@.len() as int, max as int)),
            final(self)@ == old(self)@.skip(vstd::math::min(old(self)@.len() as int, max as int)),
            batch@.len() + final(self)@.len() == old(self)@.len(),
    {
        let n = self.msgs.len();
        let k = if n < max {
            n
        } else {
            max
        };
        let mut batch: Vec<M> = Vec::new();
        let mut i: usize = 0;
        while i < k
            invariant
                i <= k,
                k == vstd::math::min(old(self)@.len() as int, max as int),
                batch@ == old(self)@.take(i as int),
                self.msgs@ == old(self)@.skip(i as int),
            decreases k - i,
        {
            let m = self.msgs.remove(0);
            proof {
                assert(old(self)@.skip(i as int).remove(0) =~= old(self)@.skip(i as int + 1));
                assert(old(self)@.take(i as int).push(old(self)@.skip(i as int)[0]) =~= old(
                    self,
                )@.take(i as int + 1));
            }
            batch.push(m);
            i = i + 1;
        }
        batch
    }
}

/// Draining a prefix of length `k` loses nothing and duplicates nothing:
/// the drained batch followed by the remaining suffix is exactly the
/// original queue, and the two lengths add up to the original length.
pub proof fn lemma_drain_no_loss<M>(q: Seq<M>, k: int)
    requires
        0 <= k <= q.len(),
    ensures
        q.take(k) + q.skip(k) == q,
        q.take(k).len() + q.skip(k).len() == q.len(),
{
    assert(q.take(k) + q.skip(k) =~= q);
}

/// Two consecutive drains handle messages in enqueue order: the first
/// batch of length `k1` followed by the next batch of length `k2` (taken
/// from what the first drain left behind) is exactly the first `k1 + k2`
/// messages of the original queue. With at most one batch in flight per
/// actor, batches execute one after another, so the handler observes the
/// messages in the order they were enqueued.
pub proof fn lemma_consecutive_batches_keep_order<M>(q: Seq<M>, k1: int, k2: int)
    requires
        0 <= k1,
        0 <= k2,
        k1 + k2 <= q.len(),
    ensures
        q.take(k1) + q.skip(k1).take(k2) == q.take(k1 + k2),
{
    assert(q.take(k1) + q.skip(k1).take(k2) =~= q.take(k1 + k2));
}

} // verus!
