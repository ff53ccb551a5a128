//! Listener holders: per-component logs of listener additions and removals.

use vstd::prelude::*;
use crate::operation::{Operation, OperationLog};

verus! {

/// What a listener addition installs: a callback for one native event type.
pub struct EventBinding<C> {
    pub event_type: String,
    pub callback: C,
}

/// Collects listener operations between two reconciliations. Each operation
/// carries the caller's listener id, which correlates an addition with a
/// later removal; a new addition under an id replaces the old listener.
pub struct ListenerHolder<C> {
    log: OperationLog<EventBinding<C>>,
}

impl<C> View for ListenerHolder<C> {
    type V = Seq<Operation<EventBinding<C>>>;

    closed spec fn view(&self) -> Seq<Operation<EventBinding<C>>> {
        self.log@
    }
}

impl<C> ListenerHolder<C> {
    pub fn new() -> (r: Self)
        ensures
            r@ == Seq::<Operation<EventBinding<C>>>::empty(),
    {
        ListenerHolder { log: OperationLog::new() }
    }

    /// Records that `callback` should listen for `event_type` under `id`.
    pub fn add_listener(&mut self, id: String, event_type: String, callback: C)
        ensures
            final(self)@ == old(self)@.push(
                Operation::Add { key: id, payload: EventBinding { event_type, callback } },
            ),
    {
        self.log.push_add(id, EventBinding { event_type, callback });
    }

    /// Records that the listener under `id` should go.
    pub fn remove_listener(&mut self, id: String)
        ensures
            final(self)@ == old(self)@.push(Operation::Remove { key: id }),
    {
        self.log.push_remove(id);
    }

    /// Hands the pending operations over, in log order, and empties the log.
    pub fn drain_operations(&mut self) -> (r: Vec<Operation<EventBinding<C>>>)
        ensures
            r@ == old(self)@,
            final(self)@ == Seq::<Operation<EventBinding<C>>>::empty(),
    {
        self.log.drain()
    }
}

} // verus!
