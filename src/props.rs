//! Element props: every attribute holder and the listener holder of one
//! element, drained together once per render.
//!
//! Each category keeps one value per key. The attribute logs are handed over
//! category after category (ARIA, HTML, SVG, button, custom), so when two
//! categories set the same key the later category wins.

use vstd::prelude::*;
use crate::aria_attributes::{AriaAttributeReceiver, AriaAttributes};
use crate::attribute::{opt_view, Attribute, CustomAttribute};
use crate::attribute_holder::{AttributeHolder, CustomAttrs};
use crate::button_attributes::ButtonHtmlAttributes;
use crate::html_attributes::{HtmlAttributeReceiver, HtmlAttributes};
use crate::listener_holder::{EventBinding, ListenerHolder};
use crate::operation::Operation;
use crate::svg_attributes::{SVGAttributes, SvgAttributeReceiver};

verus! {

/// A props type that takes custom attributes by key.
pub trait CustomAttributeReceiver {
    spec fn custom_receiver_wf(&self) -> bool;

    /// The custom attributes considered present, pending operations included.
    spec fn custom_attributes(&self) -> Map<Seq<char>, Option<String>>;

    /// Records `key="value"`; returns whether a value under `key` was replaced.
    fn add_attribute(&mut self, key: String, value: String) -> (r: bool)
        requires
            old(self).custom_receiver_wf(),
        ensures
            final(self).custom_receiver_wf(),
            r == old(self).custom_attributes().contains_key(key@),
            final(self).custom_attributes().contains_key(key@),
            opt_view(final(self).custom_attributes()[key@]) == Some(value@),
            final(self).custom_attributes().remove(key@) == old(self).custom_attributes().remove(key@),
    ;

    /// Records that `key` should go; returns whether it was present.
    fn remove_attribute(&mut self, key: String) -> (r: bool)
        requires
            old(self).custom_receiver_wf(),
        ensures
            final(self).custom_receiver_wf(),
            r == old(self).custom_attributes().contains_key(key@),
            final(self).custom_attributes() == old(self).custom_attributes().remove(key@),
    ;

    /// Records the presence-only attribute `key`; returns whether a value
    /// under `key` was replaced.
    fn add_boolean_attribute(&mut self, key: String) -> (r: bool)
        requires
            old(self).custom_receiver_wf(),
        ensures
            final(self).custom_receiver_wf(),
            r == old(self).custom_attributes().contains_key(key@),
            final(self).custom_attributes().contains_key(key@),
            final(self).custom_attributes()[key@] is None,
            final(self).custom_attributes().remove(key@) == old(self).custom_attributes().remove(key@),
    ;
}

/// A props type that takes [`CustomAttribute`] values.
pub trait CustomPropsHandler {
    spec fn custom_props_wf(&self) -> bool;

    /// The custom attributes considered present, pending operations included.
    spec fn custom_props(&self) -> Map<Seq<char>, Option<String>>;

    /// Records `prop`, replacing any value under its key.
    fn add_custom_prop(&mut self, prop: CustomAttribute)
        requires
            old(self).custom_props_wf(),
        ensures
            final(self).custom_props_wf(),
            final(self).custom_props().contains_key(prop.spec_key()),
            opt_view(final(self).custom_props()[prop.spec_key()]) == prop.spec_value(),
            final(self).custom_props().remove(prop.spec_key()) == old(self).custom_props().remove(prop.spec_key()),
    ;

    /// Records that the key of `prop` should go.
    fn remove_custom_prop(&mut self, prop: CustomAttribute)
        requires
            old(self).custom_props_wf(),
        ensures
            final(self).custom_props_wf(),
            final(self).custom_props() == old(self).custom_props().remove(prop.spec_key()),
    ;
}

/// Access to the pending attribute operations of a props type.
pub trait PropsGetterSetter {
    spec fn props_wf(&self) -> bool;

    /// The attribute operations recorded since the last drain, in the order
    /// in which they are handed over.
    spec fn pending_attributes(&self) -> Seq<Operation<Option<String>>>;

    /// Hands the pending attribute operations over and empties the logs.
    fn get_attributes(&mut self) -> (r: Vec<Operation<Option<String>>>)
        requires
            old(self).props_wf(),
        ensures
            final(self).props_wf(),
            r@ == old(self).pending_attributes(),
            final(self).pending_attributes().len() == 0,
    ;
}

/// The attributes and listeners that one element should carry. `C` is the
/// callback type of its listeners.
pub struct ElementProps<C> {
    aria: AttributeHolder<AriaAttributes>,
    html: AttributeHolder<HtmlAttributes>,
    svg: AttributeHolder<SVGAttributes>,
    button: AttributeHolder<ButtonHtmlAttributes>,
    custom: CustomAttrs,
    listeners: ListenerHolder<C>,
}

impl<C> ElementProps<C> {
    pub closed spec fn wf(&self) -> bool {
        &&& self.aria.wf()
        &&& self.html.wf()
        &&& self.svg.wf()
        &&& self.button.wf()
        &&& self.custom.wf()
    }

    /// The button attributes considered present, pending operations included.
    pub closed spec fn button_attributes(&self) -> Map<Seq<char>, Option<String>> {
        self.button.attributes()
    }

    /// The attribute operations recorded since the last drain, category after
    /// category.
    pub closed spec fn attribute_log(&self) -> Seq<Operation<Option<String>>> {
        self.aria.pending() + self.html.pending() + self.svg.pending() + self.button.pending()
            + self.custom.pending()
    }

    /// The listener operations recorded since the last drain, in order.
    pub closed spec fn listener_log(&self) -> Seq<Operation<EventBinding<C>>> {
        self.listeners@
    }

    pub fn new() -> (r: Self)
        ensures
            r.wf(),
            r.attribute_log().len() == 0,
            r.listener_log().len() == 0,
            r.button_attributes() == Map::<Seq<char>, Option<String>>::empty(),
    {
        ElementProps {
            aria: AttributeHolder::new(),
            html: AttributeHolder::new(),
            svg: AttributeHolder::new(),
            button: AttributeHolder::new(),
            custom: CustomAttrs::new(),
            listeners: ListenerHolder::new(),
        }
    }

    /// Records a button attribute; returns whether its key was absent before.
    pub fn add_btn_attribute(&mut self, attribute: ButtonHtmlAttributes) -> (r: bool)
        requires
            old(self).wf(),
        ensures
            final(self).wf(),
            r == !old(self).button_attributes().contains_key(attribute.spec_key()),
            final(self).button_attributes().contains_key(attribute.spec_key()),
            opt_view(final(self).button_attributes()[attribute.spec_key()]) == attribute.spec_value(),
            final(self).button_attributes().remove(attribute.spec_key()) == old(self).button_attributes().remove(
                attribute.spec_key(),
            ),
    {
        let ghost k = attribute.spec_key();
        let r = self.button.add_attribute(attribute);
        proof { assert(self.button.attributes().remove(k) =~= old(self).button.attributes().remove(k)); }
        r
    }

    /// Records that a button attribute should go; returns whether its key
    /// was present.
    pub fn remove_btn_attribute(&mut self, attribute: ButtonHtmlAttributes) -> (r: bool)
        requires
            old(self).wf(),
        ensures
            final(self).wf(),
            r == old(self).button_attributes().contains_key(attribute.spec_key()),
            final(self).button_attributes() == old(self).button_attributes().remove(attribute.spec_key()),
    {
        self.button.remove_attribute(attribute)
    }

    /// Records that `callback` should listen for `event_type` under `id`.
    pub fn add_listener(&mut self, id: String, event_type: String, callback: C)
        ensures
            final(self).listener_log() == old(self).listener_log().push(
                Operation::Add { key: id, payload: EventBinding { event_type, callback } },
            ),
            final(self).attribute_log() == old(self).attribute_log(),
    {
        self.listeners.add_listener(id, event_type, callback);
    }

    /// Records that the listener under `id` should go.
    pub fn remove_listener(&mut self, id: String)
        ensures
            final(self).listener_log() == old(self).listener_log().push(Operation::Remove { key: id }),
            final(self).attribute_log() == old(self).attribute_log(),
    {
        self.listeners.remove_listener(id);
    }

    fn drain_attribute_logs(&mut self) -> (r: Vec<Operation<Option<String>>>)
        requires
            old(self).wf(),
        ensures
            final(self).wf(),
            r@ == old(self).attribute_log(),
            final(self).attribute_log().len() == 0,
            final(self).listener_log() == old(self).listener_log(),
    {
        let mut all = self.aria.drain_operations();
        let mut html = self.html.drain_operations();
        let mut svg = self.svg.drain_operations();
        let mut button = self.button.drain_operations();
        let mut custom = self.custom.drain_operations();
        all.append(&mut html);
        all.append(&mut svg);
        all.append(&mut button);
        all.append(&mut custom);
        proof {
            assert(self.attribute_log() =~= Seq::<Operation<Option<String>>>::empty());
        }
        all
    }

    /// Hands both logs over for reconciliation and empties them: the attribute
    /// operations category after category, and the listener operations.
    pub fn take_operations(&mut self) -> (r: (Vec<Operation<Option<String>>>, Vec<Operation<EventBinding<C>>>))
        requires
            old(self).wf(),
        ensures
            final(self).wf(),
            r.0@ == old(self).attribute_log(),
            r.1@ == old(self).listener_log(),
            final(self).attribute_log().len() == 0,
            final(self).listener_log().len() == 0,
    {
        let listeners = self.listeners.drain_operations();
        let attributes = self.drain_attribute_logs();
        (attributes, listeners)
    }
}

impl<C> PropsGetterSetter for ElementProps<C> {
    closed spec fn props_wf(&self) -> bool {
        self.wf()
    }

    closed spec fn pending_attributes(&self) -> Seq<Operation<Option<String>>> {
        self.attribute_log()
    }

    fn get_attributes(&mut self) -> (r: Vec<Operation<Option<String>>>) {
        self.drain_attribute_logs()
    }
}

impl<C> AriaAttributeReceiver for ElementProps<C> {
    closed spec fn aria_receiver_wf(&self) -> bool {
        self.wf()
    }

    closed spec fn aria_attributes(&self) -> Map<Seq<char>, Option<String>> {
        self.aria.attributes()
    }

    fn add_aria_attribute(&mut self, attribute: AriaAttributes) -> (r: bool) {
        let ghost k = attribute.spec_key();
        let r = self.aria.add_attribute(attribute);
        proof { assert(self.aria.attributes().remove(k) =~= old(self).aria.attributes().remove(k)); }
        r
    }

    fn remove_aria_attribute(&mut self, attribute: AriaAttributes) -> (r: bool) {
        self.aria.remove_attribute(attribute)
    }
}

impl<C> HtmlAttributeReceiver for ElementProps<C> {
    closed spec fn html_receiver_wf(&self) -> bool {
        self.wf()
    }

    closed spec fn html_attributes(&self) -> Map<Seq<char>, Option<String>> {
        self.html.attributes()
    }

    fn add_html_attribute(&mut self, attribute: HtmlAttributes) -> (r: bool) {
        let ghost k = attribute.spec_key();
        let r = self.html.add_attribute(attribute);
        proof { assert(self.html.attributes().remove(k) =~= old(self).html.attributes().remove(k)); }
        r
    }

    fn remove_html_attribute(&mut self, attribute: HtmlAttributes) -> (r: bool) {
        self.html.remove_attribute(attribute)
    }
}

impl<C> SvgAttributeReceiver for ElementProps<C> {
    closed spec fn svg_receiver_wf(&self) -> bool {
        self.wf()
    }

    closed spec fn svg_attributes(&self) -> Map<Seq<char>, Option<String>> {
        self.svg.attributes()
    }

    fn add_svg_attribute(&mut self, attribute: SVGAttributes) -> (r: bool) {
        let ghost k = attribute.spec_key();
        let r = self.svg.add_attribute(attribute);
        proof { assert(self.svg.attributes().remove(k) =~= old(self).svg.attributes().remove(k)); }
        r
    }

    fn remove_svg_attribute(&mut self, attribute: SVGAttributes) -> (r: bool) {
        self.svg.remove_attribute(attribute)
    }
}

impl<C> CustomAttributeReceiver for ElementProps<C> {
    closed spec fn custom_receiver_wf(&self) -> bool {
        self.wf()
    }

    closed spec fn custom_attributes(&self) -> Map<Seq<char>, Option<String>> {
        self.custom.attributes()
    }

    fn add_attribute(&mut self, key: String, value: String) -> (r: bool) {
        let ghost k = key@;
        let r = self.custom.add_attribute(key, value);
        proof { assert(self.custom.attributes().remove(k) =~= old(self).custom.attributes().remove(k)); }
        r
    }

    fn remove_attribute(&mut self, key: String) -> (r: bool) {
        self.custom.remove_attribute(key)
    }

    fn add_boolean_attribute(&mut self, key: String) -> (r: bool) {
        let ghost k = key@;
        let r = self.custom.add_boolean_attribute(key);
        proof { assert(self.custom.attributes().remove(k) =~= old(self).custom.attributes().remove(k)); }
        r
    }
}

impl<C> CustomPropsHandler for ElementProps<C> {
    closed spec fn custom_props_wf(&self) -> bool {
        self.wf()
    }

    closed spec fn custom_props(&self) -> Map<Seq<char>, Option<String>> {
        self.custom.attributes()
    }

    fn add_custom_prop(&mut self, prop: CustomAttribute) {
        let ghost k = prop.spec_key();
        let _ = self.custom.add_custom(prop);
        proof { assert(self.custom.attributes().remove(k) =~= old(self).custom.attributes().remove(k)); }
    }

    fn remove_custom_prop(&mut self, prop: CustomAttribute) {
        let _ = self.custom.remove_attribute(prop.get_key());
    }
}

} // verus!
