//! The reconciler: applies one drained batch of operations to a live element.
//!
//! The native calls themselves (setting an attribute, subscribing a callback)
//! belong to the host. The reconciler decides, one call at a time, what the
//! host must do next ([`Reconciler::next_action`]) and takes the outcome back
//! ([`Reconciler::complete`]), keeping the [`ActiveRegistry`] in step.
//!
//! Order of application: listener removals, listener additions, attribute
//! removals, attribute additions ([`crate::operation::phased`] within each
//! category). A listener id that is still installed when its addition comes
//! up is first detached, so an id never holds two handles. The first failed
//! call ends the batch; what was applied before it stays applied.

use vstd::prelude::*;
use crate::errors::{AddListenerError, ReconcileError, RemoveListenerError, SetAttributeError};
use crate::listener_holder::EventBinding;
use crate::operation::{into_phases, phased, Operation};
use crate::registry::{ActiveRegistry, InstalledListener};

verus! {

/// A native call that the host performs on the element.
pub enum NativeAction<C, H> {
    /// Release `handle`, unsubscribing it from the element. The registry no
    /// longer holds it.
    DetachListener { id: String, event_type: String, handle: H },
    /// Subscribe `callback` to events of type `event_type` on the element.
    AttachListener { id: String, event_type: String, callback: C },
    /// Remove the attribute `key`; a missing attribute is no failure.
    RemoveAttribute { key: String },
    /// Set the attribute `key` to `value`.
    SetAttribute { key: String, value: String },
}

/// What the host reports after performing a [`NativeAction`].
pub enum NativeOutcome<H> {
    Done,
    Attached(H),
    Failed,
}

/// The native call whose outcome the reconciler waits for.
pub enum PendingCall {
    Detach { id: String, event_type: String },
    Attach { id: String, event_type: String },
    Attribute { key: String, value: Option<String> },
}

/// The text that an attribute value is rendered as: a presence-only
/// attribute is rendered empty.
pub open spec fn text_of(value: Option<String>) -> Seq<char> {
    match value {
        Some(s) => s@,
        None => Seq::empty(),
    }
}

fn attribute_text(value: &Option<String>) -> (r: String)
    ensures
        r@ == text_of(*value),
{
    match value {
        Some(s) => s.clone(),
        None => String::new(),
    }
}

/// The listener steps left once the leading removals of ids that `ids` does
/// not hold are passed over: removing an absent listener does nothing.
pub open spec fn skip_absent<C>(steps: Seq<Operation<EventBinding<C>>>, ids: Set<Seq<char>>) -> Seq<
    Operation<EventBinding<C>>,
>
    decreases steps.len(),
{
    if steps.len() > 0 && steps[0] is Remove && !ids.contains(steps[0].key_view()) {
        skip_absent(steps.drop_first(), ids)
    } else {
        steps
    }
}

/// One batch in the course of being applied.
pub struct Reconciler<C> {
    listener_steps: Vec<Operation<EventBinding<C>>>,
    attribute_steps: Vec<Operation<Option<String>>>,
    pending: Option<PendingCall>,
}

impl<C> Reconciler<C> {
    /// The listener operations not yet applied, in application order.
    pub closed spec fn listener_queue(&self) -> Seq<Operation<EventBinding<C>>> {
        self.listener_steps@
    }

    /// The attribute operations not yet applied, in application order.
    pub closed spec fn attribute_queue(&self) -> Seq<Operation<Option<String>>> {
        self.attribute_steps@
    }

    /// The call handed to the host and not yet completed.
    pub closed spec fn pending_call(&self) -> Option<PendingCall> {
        self.pending
    }

    /// Starts applying a batch: the drained attribute and listener logs.
    pub fn new(attribute_ops: Vec<Operation<Option<String>>>, listener_ops: Vec<Operation<EventBinding<C>>>) -> (r: Self)
        ensures
            r.attribute_queue() == phased(attribute_ops@),
            r.listener_queue() == phased(listener_ops@),
            r.pending_call() is None,
    {
        Reconciler {
            listener_steps: into_phases(listener_ops),
            attribute_steps: into_phases(attribute_ops),
            pending: None,
        }
    }

    fn head_is_absent_removal<H>(&self, registry: &ActiveRegistry<H>) -> (r: bool)
        requires
            registry.wf(),
        ensures
            r == (self.listener_steps@.len() > 0 && self.listener_steps@[0] is Remove
                && !registry@.dom().contains(self.listener_steps@[0].key_view())),
    {
        self.listener_steps.len() > 0 && self.listener_steps[0].is_removal()
            && !registry.contains(self.listener_steps[0].key())
    }

    /// The next native call of the batch, or `None` once the batch is done.
    pub fn next_action<H>(&mut self, registry: &mut ActiveRegistry<H>) -> (r: Option<NativeAction<C, H>>)
        requires
            old(registry).wf(),
            old(self).pending_call() is None,
        ensures
            final(registry).wf(),
            ({
                let s = skip_absent(old(self).listener_queue(), old(registry)@.dom());
                let a = old(self).attribute_queue();
                let reg = old(registry)@;
                match r {
                    None => {
                        &&& s.len() == 0
                        &&& a.len() == 0
                        &&& final(registry)@ == reg
                        &&& final(self).listener_queue().len() == 0
                        &&& final(self).attribute_queue().len() == 0
                        &&& final(self).pending_call() is None
                    },
                    Some(NativeAction::DetachListener { id, event_type, handle }) => {
                        &&& s.len() > 0
                        &&& id@ == s[0].key_view()
                        &&& reg.contains_key(id@)
                        &&& reg[id@] == (InstalledListener { event_type, handle })
                        &&& final(registry)@ == reg.remove(id@)
                        &&& final(self).listener_queue() == (if s[0] is Remove {
                            s.drop_first()
                        } else {
                            s
                        })
                        &&& final(self).attribute_queue() == a
                        &&& final(self).pending_call() == Some(PendingCall::Detach { id, event_type })
                    },
                    Some(NativeAction::AttachListener { id, event_type, callback }) => {
                        &&& s.len() > 0
                        &&& s[0] == Operation::Add { key: id, payload: EventBinding { event_type, callback } }
                        &&& !reg.contains_key(id@)
                        &&& final(registry)@ == reg
                        &&& final(self).listener_queue() == s.drop_first()
                        &&& final(self).attribute_queue() == a
                        &&& final(self).pending_call() == Some(PendingCall::Attach { id, event_type })
                    },
                    Some(NativeAction::RemoveAttribute { key }) => {
                        &&& s.len() == 0
                        &&& a.len() > 0
                        &&& a[0] == Operation::<Option<String>>::Remove { key }
                        &&& final(registry)@ == reg
                        &&& final(self).listener_queue().len() == 0
                        &&& final(self).attribute_queue() == a.drop_first()
                        &&& final(self).pending_call() == Some(PendingCall::Attribute { key, value: None })
                    },
                    Some(NativeAction::SetAttribute { key, value }) => {
                        &&& s.len() == 0
                        &&& a.len() > 0
                        &&& a[0] is Add
                        &&& a[0] == Operation::Add { key, payload: a[0]->payload }
                        &&& value@ == text_of(a[0]->payload)
                        &&& final(registry)@ == reg
                        &&& final(self).listener_queue().len() == 0
                        &&& final(self).attribute_queue() == a.drop_first()
                        &&& final(self).pending_call() == Some(
                            PendingCall::Attribute { key, value: a[0]->payload },
                        )
                    },
                }
            }),
    {
        let ghost ids = registry@.dom();
        while self.head_is_absent_removal(registry)
            invariant
                registry.wf(),
                registry@ == old(registry)@,
                ids == registry@.dom(),
                skip_absent(self.listener_steps@, ids) == skip_absent(old(self).listener_queue(), ids),
                self.attribute_steps@ == old(self).attribute_queue(),
                self.pending is None,
            decreases self.listener_steps@.len(),
        {
            let ghost before = self.listener_steps@;
            self.listener_steps.remove(0);
            assert(self.listener_steps@ =~= before.drop_first());
        }
        if self.listener_steps.len() > 0 {
            let is_removal = self.listener_steps[0].is_removal();
            let id: String = self.listener_steps[0].key().clone();
            if registry.contains(&id) {
                let installed = registry.remove(&id).unwrap();
                if is_removal {
                    self.listener_steps.remove(0);
                }
                self.pending = Some(PendingCall::Detach { id: id.clone(), event_type: installed.event_type.clone() });
                return Some(
                    NativeAction::DetachListener { id, event_type: installed.event_type, handle: installed.handle },
                );
            }
            let op = self.listener_steps.remove(0);
            if let Operation::Add { key, payload } = op {
                self.pending = Some(PendingCall::Attach { id: key.clone(), event_type: payload.event_type.clone() });
                return Some(
                    NativeAction::AttachListener { id: key, event_type: payload.event_type, callback: payload.callback },
                );
            }
        }
        if self.attribute_steps.len() > 0 {
            let op = self.attribute_steps.remove(0);
            match op {
                Operation::Remove { key } => {
                    self.pending = Some(PendingCall::Attribute { key: key.clone(), value: None });
                    Some(NativeAction::RemoveAttribute { key })
                },
                Operation::Add { key, payload } => {
                    let text = attribute_text(&payload);
                    self.pending = Some(PendingCall::Attribute { key: key.clone(), value: payload });
                    Some(NativeAction::SetAttribute { key, value: text })
                },
            }
        } else {
            None
        }
    }

    /// Takes back the outcome of the pending call. A failure ends the batch:
    /// nothing more is applied, and the error names the key or id.
    pub fn complete<H>(&mut self, outcome: NativeOutcome<H>, registry: &mut ActiveRegistry<H>) -> (r: Result<(), ReconcileError>)
        requires
            old(registry).wf(),
            old(self).pending_call() is Some,
            old(self).pending_call() matches Some(PendingCall::Attach { id, .. }) ==> !old(registry)@.contains_key(id@),
        ensures
            final(registry).wf(),
            final(self).pending_call() is None,
            r is Ok ==> final(self).listener_queue() == old(self).listener_queue()
                && final(self).attribute_queue() == old(self).attribute_queue(),
            r is Err ==> final(self).listener_queue().len() == 0 && final(self).attribute_queue().len() == 0
                && final(registry)@ == old(registry)@,
            match (old(self).pending_call(), outcome) {
                (Some(PendingCall::Attach { id, event_type }), NativeOutcome::Attached(handle)) => {
                    &&& r is Ok
                    &&& final(registry)@ == old(registry)@.insert(id@, InstalledListener { event_type, handle })
                },
                (Some(PendingCall::Attach { id, event_type }), _) => r == Err::<(), ReconcileError>(
                    ReconcileError::ListenerAttach(AddListenerError { id, listener_type: event_type }),
                ),
                (Some(PendingCall::Detach { id, event_type }), NativeOutcome::Failed) => r == Err::<(), ReconcileError>(
                    ReconcileError::ListenerDetach(RemoveListenerError { id, listener_type: event_type }),
                ),
                (Some(PendingCall::Attribute { key, value }), NativeOutcome::Failed) => r == Err::<(), ReconcileError>(
                    ReconcileError::AttributeApply(SetAttributeError { key, value }),
                ),
                _ => r is Ok && final(registry)@ == old(registry)@,
            },
    {
        let mut pending: Option<PendingCall> = None;
        std::mem::swap(&mut pending, &mut self.pending);
        let failure = match (pending, outcome) {
            (Some(PendingCall::Attach { id, event_type }), NativeOutcome::Attached(handle)) => {
                let _ = registry.insert(id, event_type, handle);
                None
            },
            (Some(PendingCall::Attach { id, event_type }), _) => Some(
                ReconcileError::ListenerAttach(AddListenerError::new(id, event_type)),
            ),
            (Some(PendingCall::Detach { id, event_type }), NativeOutcome::Failed) => Some(
                ReconcileError::ListenerDetach(RemoveListenerError::new(id, event_type)),
            ),
            (Some(PendingCall::Attribute { key, value }), NativeOutcome::Failed) => Some(
                ReconcileError::AttributeApply(SetAttributeError::new(key, value)),
            ),
            _ => None,
        };
        match failure {
            Some(e) => {
                self.listener_steps.clear();
                self.attribute_steps.clear();
                Err(e)
            },
            None => Ok(()),
        }
    }
}

} // verus!
