//! A sample actor: the smallest concrete behavior unit the core can
//! schedule. Its handler adds the two fields of a `Foo` message and
//! offsets the field of a `Bar` message by ten; its one-shot query
//! answers with the actor's name.

use vstd::prelude::*;

use crate::actor::Actor;
use crate::inbox::Inbox;
use crate::names::actor_name;
use crate::names::actor_name_spec;

verus! {

/// Result variants of the sample actor's handler.
#[derive(PartialEq, Eq, Structural, Debug)]
pub enum ExampleReturn {
    Foo(u8),
    Bar(u8),
}

/// Message variants the sample actor understands.
#[derive(Clone, Copy, PartialEq, Eq, Structural, Debug)]
pub enum ExampleMessage {
    Foo { x: u8, y: u8 },
    Bar { z: u8 },
}

/// A sample behavior unit with a stable id, a name derived from the id,
/// and its own inbox.
pub struct ExampleActor {
    id: usize,
    name: String,
    inbox: Inbox<ExampleMessage>,
}

impl ExampleActor {
    /// The actor's stable numeric id, unique within a registry.
    pub closed spec fn id_spec(&self) -> usize {
        self.id
    }

    /// The actor's human-readable name.
    pub closed spec fn name_spec(&self) -> Seq<char> {
        self.name@
    }

    /// The name is derived from the id, and stays so for the actor's
    /// whole lifetime.
    pub open spec fn wf(&self) -> bool {
        self.name_spec() == actor_name_spec(self.id_spec() as nat)
    }

    /// A fresh actor: given id, name derived from the id, empty inbox.
    pub fn new(id: usize) -> (a: ExampleActor)
        ensures
            a.id_spec() == id,
            a.wf(),
            a.queued() == Seq::<ExampleMessage>::empty(),
    {
        ExampleActor { id, name: actor_name(id), inbox: Inbox::new() }
    }

    /// The actor's stable numeric id.
    pub fn id(&self) -> (r: usize)
        ensures
            r == self.id_spec(),
    {
        self.id
    }

    /// The actor's human-readable name.
    pub fn name(&self) -> (r: &String)
        ensures
            r@ == self.name_spec(),
    {
        &self.name
    }

    /// The one-shot query, answered outside the mailbox path: this
    /// actor always answers with its own name. Scheduling the query on
    /// a task pool and deferring the answer is the driver's concern;
    /// the value delivered once the query completes is exactly this.
    pub fn decide(&self) -> (r: Result<String, String>)
        ensures
            r is Ok,
            r->Ok_0@ == self.name_spec(),
    {
        Ok(self.name.clone())
    }
}

impl Actor for ExampleActor {
    type M = ExampleMessage;

    type R = ExampleReturn;

    open spec fn handle_spec(&self, m: ExampleMessage) -> ExampleReturn {
        match m {
            ExampleMessage::Foo { x, y } => ExampleReturn::Foo((x + y) as u8),
            ExampleMessage::Bar { z } => ExampleReturn::Bar((10 + z) as u8),
        }
    }

    open spec fn msg_ok(&self, m: ExampleMessage) -> bool {
        match m {
            ExampleMessage::Foo { x, y } => x + y <= u8::MAX,
            ExampleMessage::Bar { z } => 10 + z <= u8::MAX,
        }
    }

    closed spec fn queued(&self) -> Seq<ExampleMessage> {
        self.inbox@
    }

    fn handle_msg(&self, m: ExampleMessage) -> (r: ExampleReturn) {
        match m {
            ExampleMessage::Foo { x, y } => ExampleReturn::Foo(x + y),
            ExampleMessage::Bar { z } => ExampleReturn::Bar(10 + z),
        }
    }

    fn check_msg(&self, m: &ExampleMessage) -> (b: bool) {
        match m {
            ExampleMessage::Foo { x, y } => (*x as u16) + (*y as u16) <= u8::MAX as u16,
            ExampleMessage::Bar { z } => (*z as u16) <= (u8::MAX as u16) - 10,
        }
    }

    fn inbox(&self) -> (r: &Inbox<ExampleMessage>) {
        &self.inbox
    }

    fn inbox_len(&self) -> (n: usize) {
        self.inbox.len()
    }

    fn enqueue(&mut self, m: ExampleMessage) {
        self.inbox.enqueue(m);
    }

    fn drain_chunk(&mut self, max: usize) -> (batch: Vec<ExampleMessage>) {
        self.inbox.drain_chunk(max)
    }
}

} // verus!
