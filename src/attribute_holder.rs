//! Attribute holders: the attributes a component wants on its element, and
//! the log of changes not yet applied to the element.
//!
//! A holder keeps cumulative state: [`AttributeHolder::attributes`] is what
//! the holder has recorded across renders, and it always equals the state at
//! the last drain with the pending log replayed on it.

use vstd::prelude::*;
use crate::attribute::{opt_view, Attribute, CustomAttribute};
use crate::keyed::KeyedList;
use crate::operation::{apply_operation, lemma_replay_push, replay, Operation, OperationLog};

verus! {

/// One value per key for the attributes of one category (`T`), plus the
/// pending operations.
pub struct AttributeHolder<T> {
    present: KeyedList<Option<String>>,
    log: OperationLog<Option<String>>,
    drained: Ghost<Map<Seq<char>, Option<String>>>,
    tags: core::marker::PhantomData<T>,
}

impl<T: Attribute> AttributeHolder<T> {
    /// Key to value for every attribute the holder considers present.
    pub closed spec fn attributes(&self) -> Map<Seq<char>, Option<String>> {
        self.present@
    }

    /// The operations recorded since the last drain, in order.
    pub closed spec fn pending(&self) -> Seq<Operation<Option<String>>> {
        self.log@
    }

    pub closed spec fn wf(&self) -> bool {
        &&& self.present.wf()
        &&& self.present@ == replay(self.drained@, self.log@)
    }

    pub fn new() -> (r: Self)
        ensures
            r.wf(),
            r.attributes() == Map::<Seq<char>, Option<String>>::empty(),
            r.pending() == Seq::<Operation<Option<String>>>::empty(),
    {
        AttributeHolder {
            present: KeyedList::new(),
            log: OperationLog::new(),
            drained: Ghost(Map::empty()),
            tags: core::marker::PhantomData,
        }
    }

    /// Records `attribute`, replacing any value under its key. Returns whether
    /// the key was absent before.
    pub fn add_attribute(&mut self, attribute: T) -> (r: bool)
        requires
            old(self).wf(),
        ensures
            final(self).wf(),
            r == !old(self).attributes().contains_key(attribute.spec_key()),
            final(self).pending().len() == old(self).pending().len() + 1,
            final(self).pending().drop_last() == old(self).pending(),
            final(self).pending().last() is Add,
            final(self).pending().last().key_view() == attribute.spec_key(),
            opt_view(final(self).pending().last()->payload) == attribute.spec_value(),
            final(self).attributes() == apply_operation(old(self).attributes(), final(self).pending().last()),
    {
        let key = attribute.get_key();
        let value = attribute.get_val();
        let key_copy = key.clone();
        let value_copy = match &value {
            Some(v) => Some(v.clone()),
            None => None,
        };
        proof { lemma_replay_push(self.drained@, self.log@, Operation::Add { key: key_copy, payload: value_copy }); }
        self.log.push_add(key_copy, value_copy);
        let displaced = self.present.insert(key, value);
        proof { assert(self.log@.drop_last() =~= old(self).log@); }
        displaced.is_none()
    }

    /// Records that the attribute under `key` should go. Returns whether the
    /// key was present; removing an absent key is no error.
    pub fn remove_attribute_key(&mut self, key: String) -> (r: bool)
        requires
            old(self).wf(),
        ensures
            final(self).wf(),
            r == old(self).attributes().contains_key(key@),
            final(self).pending() == old(self).pending().push(Operation::Remove { key }),
            final(self).attributes() == old(self).attributes().remove(key@),
    {
        let removed = self.present.remove(&key);
        proof { lemma_replay_push(self.drained@, self.log@, Operation::Remove { key }); }
        self.log.push_remove(key);
        removed.is_some()
    }

    /// Records that the attribute with the key of `attribute` should go.
    /// Returns whether the key was present.
    pub fn remove_attribute(&mut self, attribute: T) -> (r: bool)
        requires
            old(self).wf(),
        ensures
            final(self).wf(),
            r == old(self).attributes().contains_key(attribute.spec_key()),
            final(self).pending().len() == old(self).pending().len() + 1,
            final(self).pending().drop_last() == old(self).pending(),
            final(self).pending().last() is Remove,
            final(self).pending().last().key_view() == attribute.spec_key(),
            final(self).attributes() == old(self).attributes().remove(attribute.spec_key()),
    {
        let ghost before = self.log@;
        let r = self.remove_attribute_key(attribute.get_key());
        proof { assert(self.log@.drop_last() =~= before); }
        r
    }

    /// Whether `key` is considered present, pending operations included.
    pub fn has_attribute(&self, key: &String) -> (r: bool)
        requires
            self.wf(),
        ensures
            r == self.attributes().contains_key(key@),
    {
        self.present.contains_key(key)
    }

    /// Hands the pending operations over, in log order, and empties the log;
    /// the recorded attributes stay.
    pub fn drain_operations(&mut self) -> (r: Vec<Operation<Option<String>>>)
        requires
            old(self).wf(),
        ensures
            final(self).wf(),
            r@ == old(self).pending(),
            final(self).pending() == Seq::<Operation<Option<String>>>::empty(),
            final(self).attributes() == old(self).attributes(),
    {
        let r = self.log.drain();
        self.drained = Ghost(self.present@);
        r
    }
}

/// Custom attributes with arbitrary keys.
pub struct CustomAttrs {
    holder: AttributeHolder<CustomAttribute>,
}

impl CustomAttrs {
    /// Key to value for every custom attribute considered present.
    pub closed spec fn attributes(&self) -> Map<Seq<char>, Option<String>> {
        self.holder.attributes()
    }

    /// The operations recorded since the last drain, in order.
    pub closed spec fn pending(&self) -> Seq<Operation<Option<String>>> {
        self.holder.pending()
    }

    pub closed spec fn wf(&self) -> bool {
        self.holder.wf()
    }

    pub fn new() -> (r: Self)
        ensures
            r.wf(),
            r.attributes() == Map::<Seq<char>, Option<String>>::empty(),
            r.pending() == Seq::<Operation<Option<String>>>::empty(),
    {
        CustomAttrs { holder: AttributeHolder::new() }
    }

    /// Records `key="value"`. Returns whether a value under `key` was replaced.
    pub fn add_attribute(&mut self, key: String, value: String) -> (r: bool)
        requires
            old(self).wf(),
        ensures
            final(self).wf(),
            r == old(self).attributes().contains_key(key@),
            final(self).pending().drop_last() == old(self).pending(),
            final(self).pending().len() == old(self).pending().len() + 1,
            final(self).pending().last() is Add,
            final(self).pending().last().key_view() == key@,
            opt_view(final(self).pending().last()->payload) == Some(value@),
            final(self).attributes() == apply_operation(old(self).attributes(), final(self).pending().last()),
    {
        !self.holder.add_attribute(CustomAttribute::new_key_value_attribute(key, value))
    }

    /// Records the presence-only attribute `key`. Returns whether a value
    /// under `key` was replaced.
    pub fn add_boolean_attribute(&mut self, key: String) -> (r: bool)
        requires
            old(self).wf(),
        ensures
            final(self).wf(),
            r == old(self).attributes().contains_key(key@),
            final(self).pending().drop_last() == old(self).pending(),
            final(self).pending().len() == old(self).pending().len() + 1,
            final(self).pending().last() is Add,
            final(self).pending().last().key_view() == key@,
            final(self).pending().last()->payload is None,
            final(self).attributes() == apply_operation(old(self).attributes(), final(self).pending().last()),
    {
        !self.holder.add_attribute(CustomAttribute::new_boolean_attribute(key))
    }

    /// Records `attribute`, replacing any value under its key. Returns
    /// whether a value under the key was replaced.
    pub fn add_custom(&mut self, attribute: CustomAttribute) -> (r: bool)
        requires
            old(self).wf(),
        ensures
            final(self).wf(),
            r == old(self).attributes().contains_key(attribute.spec_key()),
            final(self).pending().drop_last() == old(self).pending(),
            final(self).pending().len() == old(self).pending().len() + 1,
            final(self).pending().last() is Add,
            final(self).pending().last().key_view() == attribute.spec_key(),
            opt_view(final(self).pending().last()->payload) == attribute.spec_value(),
            final(self).attributes() == apply_operation(old(self).attributes(), final(self).pending().last()),
    {
        !self.holder.add_attribute(attribute)
    }

    /// Records that `key` should go. Returns whether it was present.
    pub fn remove_attribute(&mut self, key: String) -> (r: bool)
        requires
            old(self).wf(),
        ensures
            final(self).wf(),
            r == old(self).attributes().contains_key(key@),
            final(self).pending() == old(self).pending().push(Operation::Remove { key }),
            final(self).attributes() == old(self).attributes().remove(key@),
    {
        self.holder.remove_attribute_key(key)
    }

    /// Whether `key` is considered present, pending operations included.
    pub fn has_attribute(&self, key: &String) -> (r: bool)
        requires
            self.wf(),
        ensures
            r == self.attributes().contains_key(key@),
    {
        self.holder.has_attribute(key)
    }

    /// Hands the pending operations over and empties the log.
    pub fn drain_operations(&mut self) -> (r: Vec<Operation<Option<String>>>)
        requires
            old(self).wf(),
        ensures
            final(self).wf(),
            r@ == old(self).pending(),
            final(self).pending() == Seq::<Operation<Option<String>>>::empty(),
            final(self).attributes() == old(self).attributes(),
    {
        self.holder.drain_operations()
    }
}

} // verus!
