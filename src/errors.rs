//! Errors that the reconciler reports when a native call fails.

use vstd::prelude::*;

verus! {

/// Setting or removing the attribute `key` on the element failed.
/// `value` is the value that was being set (`None` for a removal or a
/// presence-only attribute).
#[derive(Debug)]
pub struct SetAttributeError {
    pub key: String,
    pub value: Option<String>,
}

impl SetAttributeError {
    pub fn new(key: String, value: Option<String>) -> (r: Self)
        ensures
            r.key == key,
            r.value == value,
    {
        SetAttributeError { key, value }
    }
}

/// Installing the listener `id` for events of type `listener_type` failed.
#[derive(Debug)]
pub struct AddListenerError {
    pub id: String,
    pub listener_type: String,
}

impl AddListenerError {
    pub fn new(id: String, listener_type: String) -> (r: Self)
        ensures
            r.id == id,
            r.listener_type == listener_type,
    {
        AddListenerError { id, listener_type }
    }
}

/// Uninstalling the listener `id` for events of type `listener_type` failed.
#[derive(Debug)]
pub struct RemoveListenerError {
    pub id: String,
    pub listener_type: String,
}

impl RemoveListenerError {
    pub fn new(id: String, listener_type: String) -> (r: Self)
        ensures
            r.id == id,
            r.listener_type == listener_type,
    {
        RemoveListenerError { id, listener_type }
    }
}

/// The first failure of a reconciliation, naming the offending key or id.
#[derive(Debug)]
pub enum ReconcileError {
    AttributeApply(SetAttributeError),
    ListenerAttach(AddListenerError),
    ListenerDetach(RemoveListenerError),
}

} // verus!
