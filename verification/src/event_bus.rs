//! The event bus: it keeps every event it has received, in order, and after
//! each one hands the whole log on to the subscribers.

use vstd::prelude::*;
use crate::types::Event;

verus! {

/// The event log of the bus.
#[derive(Debug)]
pub struct EventData {
    pub events: Vec<Event>,
}

/// A copy of a list of events.
fn copy_events(v: &Vec<Event>) -> (r: Vec<Event>)
    ensures
        r@ == v@,
{
    let mut r: Vec<Event> = Vec::new();
    let n = v.len();
    let mut i: usize = 0;
    while i < n
        invariant
            n == v@.len(),
            i <= n,
            r@ == v@.subrange(0, i as int),
        decreases n - i,
    {
        r.push(v[i].duplicate());
        assert(r@ =~= v@.subrange(0, i + 1));
        i = i + 1;
    }
    assert(v@.subrange(0, n as int) =~= v@);
    r
}

impl EventData {
    /// An empty log.
    pub fn new() -> (r: EventData)
        ensures
            r.events@ == Seq::<Event>::empty(),
    {
        EventData { events: Vec::new() }
    }

    /// Every event received so far, oldest first.
    pub fn events(&self) -> (r: Vec<Event>)
        ensures
            r@ == self.events@,
    {
        copy_events(&self.events)
    }

    /// Records `event` at the end of the log and returns the whole log,
    /// which the bus sends on to each subscriber.
    pub fn handle_event(&mut self, event: Event) -> (r: Vec<Event>)
        ensures
            final(self).events@ == old(self).events@.push(event),
            r@ == final(self).events@,
    {
        self.events.push(event);
        copy_events(&self.events)
    }
}

/// The log only grows: after any number of events, what was logged before
/// is still its prefix, and the events handled come after it in order.
pub proof fn lemma_log_extends(before: Seq<Event>, e1: Event, e2: Event)
    ensures
        before.push(e1).push(e2).subrange(0, before.len() as int) == before,
        before.push(e1).push(e2) == before + seq![e1, e2],
{
    assert(before.push(e1).push(e2).subrange(0, before.len() as int) =~= before);
    assert(before.push(e1).push(e2) =~= before + seq![e1, e2]);
}

} // verus!
