//! The scheduling core.
//!
//! The dispatcher scans every actor of a registry once per cycle. For
//! each actor it reads the inbox length, drains at most [`THROUGHPUT`]
//! messages as one batch, and has the batch executed: the handler runs
//! over the batch sequentially, in enqueue order, and each result is
//! produced exactly once. The throughput cap is the fairness mechanism:
//! a flooded inbox cannot inject more than one bounded batch of work per
//! cycle, so it cannot starve the other actors. An idle inbox submits
//! nothing at all.
//!
//! `dispatch_cycle` is one whole scan cycle; `scan_decision` is the
//! per-actor scheduling decision on its own, for a driver that submits
//! batches to worker threads and so must also skip an actor whose
//! previous batch is still in flight.

use vstd::prelude::*;

use crate::actor::Actor;
use crate::actor::inbox_ok;
use crate::actor::same_behavior;

verus! {

/// Maximum messages drained from one actor's inbox during one scheduling
/// cycle: the per-actor fairness cap.
pub const THROUGHPUT: usize = 100;

/// The number of messages one cycle drains from an inbox holding
/// `queued` messages: everything pending, capped at [`THROUGHPUT`].
pub open spec fn batch_size(queued: nat) -> nat {
    vstd::math::min(queued as int, THROUGHPUT as int) as nat
}

/// The per-actor scheduling decision of one scan step. `None` means no
/// batch is submitted for this actor in this cycle: either a previously
/// submitted batch is still in flight (at most one batch per actor may
/// be in flight, which keeps handling in enqueue order), or nothing is
/// pending (idle actors impose no worker load). Otherwise the decision
/// is to drain exactly `batch_size(queued)` messages.
pub fn scan_decision(in_flight: bool, queued: usize) -> (r: Option<usize>)
    ensures
        r == (if in_flight || queued == 0 {
            None::<usize>
        } else {
            Some(batch_size(queued as nat) as usize)
        }),
{
    if in_flight || queued == 0 {
        None
    } else if queued < THROUGHPUT {
        Some(queued)
    } else {
        Some(THROUGHPUT)
    }
}

/// Execute one drained batch: run the actor's handler over every message
/// of the batch, in order, and return the results in the same order.
pub fn run_batch<A: Actor>(actor: &A, batch: Vec<A::M>) -> (results: Vec<A::R>)
    requires
        forall|j: int| 0 <= j < batch@.len() ==> actor.msg_ok(#[trigger] batch@[j]),
    ensures
        results@.len() == batch@.len(),
        forall|j: int|
            0 <= j < batch@.len() ==> results@[j] == actor.handle_spec(#[trigger] batch@[j]),
{
    let ghost orig: Seq<A::M> = batch@;
    let mut rest = batch;
    let mut results: Vec<A::R> = Vec::new();
    while rest.len() > 0
        invariant
            results@.len() + rest@.len() == orig.len(),
            rest@ == orig.skip(results@.len() as int),
            forall|j: int|
                0 <= j < results@.len() ==> results@[j] == actor.handle_spec(#[trigger] orig[j]),
            forall|j: int| 0 <= j < orig.len() ==> actor.msg_ok(#[trigger] orig[j]),
        decreases rest@.len(),
    {
        let ghost k = results@.len() as int;
        let m = rest.remove(0);
        proof {
            assert(m == orig[k]);
            assert(orig.skip(k).remove(0) =~= orig.skip(k + 1));
        }
        let r = actor.handle_msg(m);
        results.push(r);
    }
    results
}

/// What one scan cycle does to one actor. `pre` is the actor at scan
/// time, `post` the actor afterwards, `out` the batch results submitted
/// for it in this cycle. An idle actor is left alone and submits
/// nothing; otherwise exactly `batch_size` messages leave the head of
/// the inbox and the handler's results for them, in enqueue order, are
/// the submitted batch. Either way the actor's handler behavior is
/// untouched.
pub open spec fn cycle_step<A: Actor>(pre: A, post: A, out: Option<Vec<A::R>>) -> bool {
    let k = batch_size(pre.queued().len()) as int;
    &&& same_behavior(pre, post)
    &&& if pre.queued().len() == 0 {
        &&& out is None
        &&& post.queued() == pre.queued()
    } else {
        &&& out is Some
        &&& out->0@.len() == k
        &&& forall|j: int|
            0 <= j < k ==> out->0@[j] == pre.handle_spec(#[trigger] pre.queued()[j])
        &&& post.queued() == pre.queued().skip(k)
    }
}

/// What one cycle submitted for an actor: the results of its batch,
/// empty when no batch went out.
pub open spec fn submitted<A: Actor>(out: Option<Vec<A::R>>) -> Seq<A::R> {
    match out {
        Some(rs) => rs@,
        None => Seq::empty(),
    }
}

/// FIFO preservation across scheduling cycles: with at most one batch
/// in flight per actor, the batches of two consecutive cycles run one
/// after the other, and together they handle exactly a prefix of the
/// messages pending at the first scan, in enqueue order.
pub proof fn lemma_cycles_handle_in_enqueue_order<A: Actor>(
    a0: A,
    a1: A,
    a2: A,
    out1: Option<Vec<A::R>>,
    out2: Option<Vec<A::R>>,
)
    requires
        cycle_step(a0, a1, out1),
        cycle_step(a1, a2, out2),
    ensures
        submitted::<A>(out1).len() + submitted::<A>(out2).len() <= a0.queued().len(),
        forall|j: int|
            0 <= j < submitted::<A>(out1).len() + submitted::<A>(out2).len() ==> (submitted::<A>(
                out1,
            ) + submitted::<A>(out2))[j] == a0.handle_spec(#[trigger] a0.queued()[j]),
{
    let k1 = submitted::<A>(out1).len() as int;
    let k2 = submitted::<A>(out2).len() as int;
    assert forall|j: int| 0 <= j < k1 + k2 implies (submitted::<A>(out1) + submitted::<A>(out2))[j]
        == a0.handle_spec(#[trigger] a0.queued()[j]) by {
        if j < k1 {
            assert((submitted::<A>(out1) + submitted::<A>(out2))[j] == submitted::<A>(out1)[j]);
        } else {
            assert((submitted::<A>(out1) + submitted::<A>(out2))[j] == submitted::<A>(out2)[j
                - k1]);
            assert(a1.queued()[j - k1] == a0.queued()[j]);
            assert(a1.handle_spec(a1.queued()[j - k1]) == a0.handle_spec(a0.queued()[j]));
        }
    }
}

/// A scan cycle keeps the inbox acceptable: when every pending message
/// was one the handler accepts, the same holds of what the cycle leaves
/// behind, so cycle after cycle can be run.
pub proof fn lemma_cycle_step_preserves_inbox_ok<A: Actor>(pre: A, post: A, out: Option<Vec<A::R>>)
    requires
        cycle_step(pre, post, out),
        inbox_ok(pre),
    ensures
        inbox_ok(post),
{
    let k = batch_size(pre.queued().len()) as int;
    assert forall|i: int| 0 <= i < post.queued().len() implies post.msg_ok(
        #[trigger] post.queued()[i],
    ) by {
        if pre.queued().len() == 0 {
            assert(post.queued() == pre.queued());
        } else {
            assert(post.queued()[i] == pre.queued()[k + i]);
            assert(pre.msg_ok(pre.queued()[k + i]));
        }
    }
}

/// An overfull inbox is throttled, not flushed: when more than
/// [`THROUGHPUT`] messages are pending at scan time, the cycle drains
/// exactly [`THROUGHPUT`] of them and the remainder stays queued for
/// later cycles, nothing dropped and nothing duplicated.
pub proof fn lemma_throughput_cap<A: Actor>(pre: A, post: A, out: Option<Vec<A::R>>)
    requires
        cycle_step(pre, post, out),
        pre.queued().len() > THROUGHPUT,
    ensures
        out is Some,
        out->0@.len() == THROUGHPUT,
        post.queued().len() == pre.queued().len() - THROUGHPUT,
        pre.queued().take(THROUGHPUT as int) + post.queued() == pre.queued(),
{
    crate::inbox::lemma_drain_no_loss(pre.queued(), THROUGHPUT as int);
}

/// An idle actor imposes zero load: when nothing is pending at scan
/// time, the cycle submits no batch for that actor and leaves its inbox
/// alone.
pub proof fn lemma_idle_actor_no_batch<A: Actor>(pre: A, post: A, out: Option<Vec<A::R>>)
    requires
        cycle_step(pre, post, out),
        pre.queued().len() == 0,
    ensures
        out is None,
        post.queued() == pre.queued(),
{
}

/// An ordered, append-only collection of actors: the unit the dispatcher
/// scans once per cycle, in order.
pub struct Registry<A> {
    actors: Vec<A>,
}

impl<A> View for Registry<A> {
    type V = Seq<A>;

    closed spec fn view(&self) -> Seq<A> {
        self.actors@
    }
}

impl<A> Registry<A> {
    /// A fresh registry holds no actors.
    pub fn new() -> (r: Self)
        ensures
            r@ == Seq::<A>::empty(),
    {
        Registry { actors: Vec::new() }
    }

    /// Append one actor. Identities of actors already registered are
    /// untouched: the registry is append-only.
    pub fn add_actor(&mut self, a: A)
        ensures
            final(self)@ == old(self)@.push(a),
    {
        self.actors.push(a);
    }

    /// Number of registered actors.
    pub fn n_actors(&self) -> (n: usize)
        ensures
            n == self@.len(),
    {
        self.actors.len()
    }

    /// Shared read access to the actor at position `i`, in registration
    /// order.
    pub fn actor(&self, i: usize) -> (r: &A)
        requires
            i < self@.len(),
        ensures
            *r == self@[i as int],
    {
        &self.actors[i]
    }
}

impl<A: Actor> Registry<A> {
    /// One whole scan cycle of the dispatcher, actors in registry order:
    /// for each actor, drain at most [`THROUGHPUT`] pending messages and
    /// execute the handler over the drained batch, in order. Entry `i`
    /// of the result is what was submitted for actor `i`: `None` for an
    /// idle inbox, otherwise the handler's results for exactly the
    /// drained prefix.
    pub fn dispatch_cycle(&mut self) -> (out: Vec<Option<Vec<A::R>>>)
        requires
            forall|i: int| 0 <= i < old(self)@.len() ==> inbox_ok(#[trigger] old(self)@[i]),
        ensures
            final(self)@.len() == old(self)@.len(),
            out@.len() == old(self)@.len(),
            forall|i: int|
                0 <= i < old(self)@.len() ==> cycle_step(
                    old(self)@[i],
                    #[trigger] final(self)@[i],
                    out@[i],
                ),
            forall|i: int| 0 <= i < old(self)@.len() ==> inbox_ok(#[trigger] final(self)@[i]),
    {
        let n = self.actors.len();
        let mut out: Vec<Option<Vec<A::R>>> = Vec::new();
        let mut i: usize = 0;
        while i < n
            invariant
                i <= n,
                n == self.actors@.len(),
                self.actors@.len() == old(self)@.len(),
                out@.len() == i as int,
                forall|j: int| 0 <= j < old(self)@.len() ==> inbox_ok(#[trigger] old(self)@[j]),
                forall|j: int| i <= j < old(self)@.len() ==> self.actors@[j] == old(self)@[j],
                forall|j: int|
                    0 <= j < i ==> cycle_step(old(self)@[j], #[trigger] self.actors@[j], out@[j]),
            decreases n - i,
        {
            let ghost pre_actors = self.actors@;
            let ghost a0 = self.actors@[i as int];
            let actor = &mut self.actors[i];
            let queued = actor.inbox_len();
            if queued == 0 {
                out.push(None);
            } else {
                let batch = actor.drain_chunk(THROUGHPUT);
                proof {
                    assert(forall|j: int|
                        0 <= j < batch@.len() ==> a0.queued()[j] == #[trigger] batch@[j]);
                    assert(a0 == old(self)@[i as int]);
                    assert(inbox_ok(old(self)@[i as int]));
                    assert(inbox_ok(a0));
                    assert(forall|j: int|
                        0 <= j < batch@.len() ==> a0.msg_ok(#[trigger] batch@[j]));
                    assert(forall|j: int|
                        0 <= j < batch@.len() ==> (*actor).msg_ok(#[trigger] batch@[j]));
                }
                let results = run_batch(&*actor, batch);
                proof {
                    assert(forall|j: int|
                        0 <= j < results@.len() ==> #[trigger] results@[j] == a0.handle_spec(
                            batch@[j],
                        ));
                }
                out.push(Some(results));
            }
            proof {
                assert(self.actors@ == pre_actors.update(i as int, self.actors@[i as int]));
                assert(cycle_step(a0, self.actors@[i as int], out@[i as int]));
            }
            i = i + 1;
        }
        proof {
            assert forall|j: int| 0 <= j < old(self)@.len() implies inbox_ok(
                #[trigger] self.actors@[j],
            ) by {
                lemma_cycle_step_preserves_inbox_ok(old(self)@[j], self.actors@[j], out@[j]);
            }
        }
        out
    }
}

} // verus!
