use std::cell::{Cell, RefCell};
use std::collections::BTreeMap;
use std::rc::Rc;

use yew_dom_attributes::aria_attributes::{AriaAttributeReceiver, AriaAttributes, AriaChecked};
use yew_dom_attributes::button_attributes::ButtonHtmlAttributes;
use yew_dom_attributes::errors::ReconcileError;
use yew_dom_attributes::props::{CustomAttributeReceiver, ElementProps};
use yew_dom_attributes::reconciler::{NativeAction, NativeOutcome, Reconciler};
use yew_dom_attributes::registry::ActiveRegistry;

type Cb = Rc<dyn Fn()>;
type Table = Rc<RefCell<Vec<(u64, String, Cb)>>>;

/// A listener subscription on the fake element; dropping it unsubscribes.
struct Handle {
    token: u64,
    table: Table,
    released: Rc<Cell<u32>>,
}

impl Drop for Handle {
    fn drop(&mut self) {
        self.table.borrow_mut().retain(|(t, _, _)| *t != self.token);
        self.released.set(self.released.get() + 1);
    }
}

/// An element that records attributes and subscriptions, and fails on demand.
struct FakeElement {
    attributes: BTreeMap<String, String>,
    table: Table,
    released: Rc<Cell<u32>>,
    next_token: u64,
    calls: u32,
    attaches: u32,
    failing_keys: Vec<String>,
    failing_detach: bool,
}

impl FakeElement {
    fn new() -> Self {
        FakeElement {
            attributes: BTreeMap::new(),
            table: Rc::new(RefCell::new(Vec::new())),
            released: Rc::new(Cell::new(0)),
            next_token: 0,
            calls: 0,
            attaches: 0,
            failing_keys: Vec::new(),
            failing_detach: false,
        }
    }

    fn perform(&mut self, action: NativeAction<Cb, Handle>) -> NativeOutcome<Handle> {
        self.calls += 1;
        match action {
            NativeAction::SetAttribute { key, value } => {
                if self.failing_keys.contains(&key) {
                    NativeOutcome::Failed
                } else {
                    self.attributes.insert(key, value);
                    NativeOutcome::Done
                }
            }
            NativeAction::RemoveAttribute { key } => {
                if self.failing_keys.contains(&key) {
                    NativeOutcome::Failed
                } else {
                    self.attributes.remove(&key);
                    NativeOutcome::Done
                }
            }
            NativeAction::AttachListener { event_type, callback, .. } => {
                if event_type == "bogus" {
                    return NativeOutcome::Failed;
                }
                self.attaches += 1;
                self.next_token += 1;
                self.table.borrow_mut().push((self.next_token, event_type, callback));
                NativeOutcome::Attached(Handle {
                    token: self.next_token,
                    table: self.table.clone(),
                    released: self.released.clone(),
                })
            }
            NativeAction::DetachListener { handle, .. } => {
                drop(handle);
                if self.failing_detach {
                    NativeOutcome::Failed
                } else {
                    NativeOutcome::Done
                }
            }
        }
    }

    fn fire(&self, event_type: &str) {
        let callbacks: Vec<Cb> = self
            .table
            .borrow()
            .iter()
            .filter(|(_, t, _)| t == event_type)
            .map(|(_, _, c)| c.clone())
            .collect();
        for c in callbacks {
            c();
        }
    }

    fn attribute(&self, key: &str) -> Option<&str> {
        self.attributes.get(key).map(|s| s.as_str())
    }
}

fn reconcile(
    props: &mut ElementProps<Cb>,
    element: &mut FakeElement,
    registry: &mut ActiveRegistry<Handle>,
) -> Result<(), ReconcileError> {
    let (attributes, listeners) = props.take_operations();
    let mut reconciler = Reconciler::new(attributes, listeners);
    while let Some(action) = reconciler.next_action(registry) {
        let outcome = element.perform(action);
        reconciler.complete(outcome, registry)?;
    }
    Ok(())
}

fn counter() -> (Rc<Cell<u32>>, Cb) {
    let count = Rc::new(Cell::new(0));
    let inner = count.clone();
    (count, Rc::new(move || inner.set(inner.get() + 1)))
}

#[test]
fn boolean_attribute_renders_empty() {
    let mut props: ElementProps<Cb> = ElementProps::new();
    let mut element = FakeElement::new();
    let mut registry = ActiveRegistry::new();
    assert!(props.add_btn_attribute(ButtonHtmlAttributes::Disabled));
    reconcile(&mut props, &mut element, &mut registry).unwrap();
    assert_eq!(element.attribute("disabled"), Some(""));
}

#[test]
fn custom_boolean_attribute_renders_empty() {
    let mut props: ElementProps<Cb> = ElementProps::new();
    let mut element = FakeElement::new();
    let mut registry = ActiveRegistry::new();
    assert!(!props.add_boolean_attribute("hidden".to_string()));
    reconcile(&mut props, &mut element, &mut registry).unwrap();
    assert_eq!(element.attribute("hidden"), Some(""));
}

#[test]
fn later_render_overwrites_attribute() {
    let mut props: ElementProps<Cb> = ElementProps::new();
    let mut element = FakeElement::new();
    let mut registry = ActiveRegistry::new();
    assert!(props.add_aria_attribute(AriaAttributes::AriaChecked(AriaChecked::True)));
    reconcile(&mut props, &mut element, &mut registry).unwrap();
    assert_eq!(element.attribute("aria-checked"), Some("true"));
    assert!(!props.add_aria_attribute(AriaAttributes::AriaChecked(AriaChecked::False)));
    reconcile(&mut props, &mut element, &mut registry).unwrap();
    assert_eq!(element.attribute("aria-checked"), Some("false"));
}

#[test]
fn listener_fires_until_removed() {
    let mut props: ElementProps<Cb> = ElementProps::new();
    let mut element = FakeElement::new();
    let mut registry = ActiveRegistry::new();
    let (count, cb) = counter();
    props.add_listener("click-1".to_string(), "click".to_string(), cb);
    reconcile(&mut props, &mut element, &mut registry).unwrap();
    element.fire("click");
    assert_eq!(count.get(), 1);
    props.remove_listener("click-1".to_string());
    reconcile(&mut props, &mut element, &mut registry).unwrap();
    element.fire("click");
    assert_eq!(count.get(), 1);
    assert!(!registry.contains(&"click-1".to_string()));
    assert_eq!(element.released.get(), 1);
}

#[test]
fn failed_attribute_reports_key_and_value() {
    let mut props: ElementProps<Cb> = ElementProps::new();
    let mut element = FakeElement::new();
    element.failing_keys.push("bad key".to_string());
    let mut registry = ActiveRegistry::new();
    props.add_attribute("first".to_string(), "1".to_string());
    props.add_attribute("bad key".to_string(), "x".to_string());
    props.add_attribute("third".to_string(), "3".to_string());
    let err = reconcile(&mut props, &mut element, &mut registry).unwrap_err();
    match err {
        ReconcileError::AttributeApply(e) => {
            assert_eq!(e.key, "bad key");
            assert_eq!(e.value, Some("x".to_string()));
        }
        _ => panic!("expected an attribute error"),
    }
    assert_eq!(element.attribute("first"), Some("1"));
    assert_eq!(element.attribute("third"), None);
    let (attributes, listeners) = props.take_operations();
    assert!(attributes.is_empty());
    assert!(listeners.is_empty());
}

#[test]
fn failed_attach_reports_id_and_type() {
    let mut props: ElementProps<Cb> = ElementProps::new();
    let mut element = FakeElement::new();
    let mut registry = ActiveRegistry::new();
    let (_, cb) = counter();
    props.add_listener("x".to_string(), "bogus".to_string(), cb);
    props.add_attribute("after".to_string(), "1".to_string());
    match reconcile(&mut props, &mut element, &mut registry).unwrap_err() {
        ReconcileError::ListenerAttach(e) => {
            assert_eq!(e.id, "x");
            assert_eq!(e.listener_type, "bogus");
        }
        _ => panic!("expected an attach error"),
    }
    assert!(!registry.contains(&"x".to_string()));
    assert_eq!(element.attribute("after"), None);
}

#[test]
fn failed_detach_reports_id_and_type() {
    let mut props: ElementProps<Cb> = ElementProps::new();
    let mut element = FakeElement::new();
    let mut registry = ActiveRegistry::new();
    let (_, cb) = counter();
    props.add_listener("k".to_string(), "keydown".to_string(), cb);
    reconcile(&mut props, &mut element, &mut registry).unwrap();
    element.failing_detach = true;
    props.remove_listener("k".to_string());
    match reconcile(&mut props, &mut element, &mut registry).unwrap_err() {
        ReconcileError::ListenerDetach(e) => {
            assert_eq!(e.id, "k");
            assert_eq!(e.listener_type, "keydown");
        }
        _ => panic!("expected a detach error"),
    }
    assert!(!registry.contains(&"k".to_string()));
}

#[test]
fn removing_absent_entries_is_a_no_op() {
    let mut props: ElementProps<Cb> = ElementProps::new();
    let mut element = FakeElement::new();
    let mut registry = ActiveRegistry::new();
    props.remove_listener("never".to_string());
    assert!(!props.remove_attribute("never".to_string()));
    reconcile(&mut props, &mut element, &mut registry).unwrap();
    assert_eq!(element.attaches, 0);
    assert_eq!(element.released.get(), 0);
    assert!(element.attributes.is_empty());
    assert!(registry.remove(&"never".to_string()).is_none());
}

#[test]
fn replacing_a_listener_across_renders_releases_the_old_one() {
    let mut props: ElementProps<Cb> = ElementProps::new();
    let mut element = FakeElement::new();
    let mut registry = ActiveRegistry::new();
    let (first, cb1) = counter();
    let (second, cb2) = counter();
    props.add_listener("x".to_string(), "click".to_string(), cb1);
    reconcile(&mut props, &mut element, &mut registry).unwrap();
    props.add_listener("x".to_string(), "click".to_string(), cb2);
    reconcile(&mut props, &mut element, &mut registry).unwrap();
    element.fire("click");
    assert_eq!(first.get(), 0);
    assert_eq!(second.get(), 1);
    assert_eq!(element.released.get(), 1);
    assert_eq!(element.table.borrow().len(), 1);
    assert!(registry.contains(&"x".to_string()));
}

#[test]
fn replacing_a_listener_in_one_batch_attaches_once() {
    let mut props: ElementProps<Cb> = ElementProps::new();
    let mut element = FakeElement::new();
    let mut registry = ActiveRegistry::new();
    let (first, cb1) = counter();
    let (second, cb2) = counter();
    props.add_listener("x".to_string(), "click".to_string(), cb1);
    props.add_listener("x".to_string(), "click".to_string(), cb2);
    reconcile(&mut props, &mut element, &mut registry).unwrap();
    assert_eq!(element.attaches, 1);
    element.fire("click");
    assert_eq!(first.get(), 0);
    assert_eq!(second.get(), 1);
}

#[test]
fn logs_are_empty_after_reconcile() {
    let mut props: ElementProps<Cb> = ElementProps::new();
    let mut element = FakeElement::new();
    let mut registry = ActiveRegistry::new();
    let (_, cb) = counter();
    props.add_attribute("a".to_string(), "1".to_string());
    props.add_listener("l".to_string(), "input".to_string(), cb);
    reconcile(&mut props, &mut element, &mut registry).unwrap();
    let (attributes, listeners) = props.take_operations();
    assert!(attributes.is_empty());
    assert!(listeners.is_empty());
    let calls = element.calls;
    reconcile(&mut props, &mut element, &mut registry).unwrap();
    assert_eq!(element.calls, calls);
}

#[test]
fn remove_then_add_in_one_batch_keeps_the_listener() {
    let mut props: ElementProps<Cb> = ElementProps::new();
    let mut element = FakeElement::new();
    let mut registry = ActiveRegistry::new();
    let (old_count, old_cb) = counter();
    let (count, cb) = counter();
    props.add_listener("a".to_string(), "click".to_string(), old_cb);
    reconcile(&mut props, &mut element, &mut registry).unwrap();
    props.remove_listener("a".to_string());
    props.add_listener("a".to_string(), "click".to_string(), cb);
    reconcile(&mut props, &mut element, &mut registry).unwrap();
    assert!(registry.contains(&"a".to_string()));
    element.fire("click");
    assert_eq!(count.get(), 1);
    assert_eq!(old_count.get(), 0);
}

#[test]
fn add_then_remove_in_one_batch_drops_the_listener() {
    let mut props: ElementProps<Cb> = ElementProps::new();
    let mut element = FakeElement::new();
    let mut registry = ActiveRegistry::new();
    let (count, cb) = counter();
    props.add_listener("a".to_string(), "click".to_string(), cb);
    props.remove_listener("a".to_string());
    reconcile(&mut props, &mut element, &mut registry).unwrap();
    assert!(!registry.contains(&"a".to_string()));
    element.fire("click");
    assert_eq!(count.get(), 0);
    assert_eq!(element.attaches, 0);
}

#[test]
fn add_then_remove_attribute_leaves_element_untouched() {
    let mut props: ElementProps<Cb> = ElementProps::new();
    let mut element = FakeElement::new();
    let mut registry = ActiveRegistry::new();
    props.add_attribute("keep".to_string(), "1".to_string());
    reconcile(&mut props, &mut element, &mut registry).unwrap();
    let before = element.attributes.clone();
    props.add_aria_attribute(AriaAttributes::AriaLabel("label".to_string()));
    assert!(props.remove_aria_attribute(AriaAttributes::AriaLabel(String::new())));
    reconcile(&mut props, &mut element, &mut registry).unwrap();
    assert_eq!(element.attribute("aria-label"), None);
    assert_eq!(element.attributes, before);
}

#[test]
fn removed_attribute_leaves_the_element() {
    let mut props: ElementProps<Cb> = ElementProps::new();
    let mut element = FakeElement::new();
    let mut registry = ActiveRegistry::new();
    props.add_attribute("title".to_string(), "t".to_string());
    reconcile(&mut props, &mut element, &mut registry).unwrap();
    assert!(props.remove_attribute("title".to_string()));
    reconcile(&mut props, &mut element, &mut registry).unwrap();
    assert_eq!(element.attribute("title"), None);
}
