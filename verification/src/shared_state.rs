//! The context handle threaded through every component: a queue of emitted
//! events and a queue of store operations for the runtime to launch, plus the
//! error taxonomy of the remote key-value store and the handling of its `get`
//! responses.

use vstd::prelude::*;

verus! {

use crate::events::Event;

/// How a store operation can fail: the requested key does not exist, the
/// store returned several values where one was expected, or the transport
/// (or its authentication) failed with the given message.
#[derive(Clone, Debug)]
pub enum StoreError {
    NotFound,
    MultipleValues,
    Transport(String),
}

/// Which task slot a store request was issued for, so that the runtime can
/// hand the completion back to the right task.
#[derive(Clone, Copy, Debug, PartialEq, Eq, Structural)]
pub enum SlotId {
    SelectorGet,
    SelectorList,
    SelectorDelete,
    EditorSave,
}

/// One of the four operations the remote store offers.
pub enum StoreOp {
    ListKeys,
    GetKey(String),
    PutKey(String, String),
    DeleteKey(String),
}

/// A store operation to be launched by the runtime, tagged with the slot it
/// belongs to and the ticket under which its result must be delivered.
pub struct StoreRequest {
    pub slot: SlotId,
    pub ticket: u64,
    pub op: StoreOp,
}

/// The completion of a store operation, as handed back by the runtime.
pub enum StoreReply {
    Keys(Result<Vec<String>, StoreError>),
    Value(Result<(String, String), StoreError>),
    Done(Result<(), StoreError>),
}

/// The capability every component receives: it can emit events for the loop
/// and ask for store operations to be launched. The runtime drains both
/// queues after each dispatch, in order.
pub struct SharedState {
    events: Vec<Event>,
    requests: Vec<StoreRequest>,
}

impl SharedState {
    pub closed spec fn events(&self) -> Seq<Event> {
        self.events@
    }

    pub closed spec fn requests(&self) -> Seq<StoreRequest> {
        self.requests@
    }

    /// True when nothing changed on either queue.
    pub open spec fn unchanged(pre: &Self, post: &Self) -> bool {
        &&& post.events() == pre.events()
        &&& post.requests() == pre.requests()
    }

    /// True when exactly the given event was emitted and no request made.
    pub open spec fn emitted(pre: &Self, post: &Self, event: Event) -> bool {
        &&& post.events() == pre.events().push(event)
        &&& post.requests() == pre.requests()
    }

    /// True when exactly the given request was made and no event emitted.
    pub open spec fn requested(pre: &Self, post: &Self, req: StoreRequest) -> bool {
        &&& post.events() == pre.events()
        &&& post.requests() == pre.requests().push(req)
    }

    pub fn new() -> (s: SharedState)
        ensures
            s.events() == Seq::<Event>::empty(),
            s.requests() == Seq::<StoreRequest>::empty(),
    {
        SharedState { events: Vec::new(), requests: Vec::new() }
    }

    pub fn send_event(&mut self, event: Event)
        ensures
            Self::emitted(old(self), final(self), event),
    {
        self.events.push(event);
    }

    pub fn tick(&mut self)
        ensures
            Self::emitted(old(self), final(self), Event::Tick),
    {
        self.send_event(Event::Tick);
    }

    pub fn push_request(&mut self, slot: SlotId, ticket: u64, op: StoreOp)
        ensures
            Self::requested(old(self), final(self), (StoreRequest { slot, ticket, op })),
    {
        self.requests.push(StoreRequest { slot, ticket, op });
    }

    /// Hands the queued events to the runtime, leaving the queue empty.
    pub fn take_events(&mut self) -> (out: Vec<Event>)
        ensures
            out@ == old(self).events(),
            final(self).events() == Seq::<Event>::empty(),
            final(self).requests() == old(self).requests(),
    {
        let mut out: Vec<Event> = Vec::new();
        core::mem::swap(&mut out, &mut self.events);
        out
    }

    /// Hands the queued store requests to the runtime, leaving the queue empty.
    pub fn take_requests(&mut self) -> (out: Vec<StoreRequest>)
        ensures
            out@ == old(self).requests(),
            final(self).requests() == Seq::<StoreRequest>::empty(),
            final(self).events() == old(self).events(),
    {
        let mut out: Vec<StoreRequest> = Vec::new();
        core::mem::swap(&mut out, &mut self.requests);
        out
    }
}

/// What a `get` for one key must yield, given the values the store returned
/// for it: exactly one value is the value of the key, none means the key is
/// missing, and several are an ambiguous answer.
pub fn value_from_kvs(values: Vec<String>) -> (r: Result<String, StoreError>)
    ensures
        values@.len() == 1 ==> r == Ok::<String, StoreError>(values@[0]),
        values@.len() == 0 ==> r == Err::<String, StoreError>(StoreError::NotFound),
        values@.len() > 1 ==> r == Err::<String, StoreError>(StoreError::MultipleValues),
{
    let mut values = values;
    if values.len() == 1 {
        Ok(values.remove(0))
    } else if values.len() == 0 {
        Err(StoreError::NotFound)
    } else {
        Err(StoreError::MultipleValues)
    }
}

} // verus!
