use yew_dom_attributes::attribute::{Attribute, CustomAttribute};
use yew_dom_attributes::attribute_holder::{AttributeHolder, CustomAttrs};
use yew_dom_attributes::html_attributes::HtmlAttributes;
use yew_dom_attributes::listener_holder::ListenerHolder;
use yew_dom_attributes::operation::{into_phases, Operation, OperationLog, ProcessAction};
use yew_dom_attributes::registry::ActiveRegistry;

#[test]
fn holder_tracks_presence_across_drains() {
    let mut holder: AttributeHolder<HtmlAttributes> = AttributeHolder::new();
    assert!(holder.add_attribute(HtmlAttributes::Id("main".to_string())));
    assert!(!holder.add_attribute(HtmlAttributes::Id("other".to_string())));
    assert!(holder.has_attribute(&"id".to_string()));
    let ops = holder.drain_operations();
    assert_eq!(ops.len(), 2);
    assert!(holder.drain_operations().is_empty());
    assert!(holder.has_attribute(&"id".to_string()));
    assert!(holder.remove_attribute(HtmlAttributes::Id(String::new())));
    assert!(!holder.has_attribute(&"id".to_string()));
    assert!(!holder.remove_attribute_key("id".to_string()));
    let ops = holder.drain_operations();
    assert_eq!(ops.len(), 2);
    assert_eq!(ops[0].action(), ProcessAction::Remove);
}

#[test]
fn custom_attrs_report_replacement() {
    let mut attrs = CustomAttrs::new();
    assert!(!attrs.add_attribute("data-x".to_string(), "1".to_string()));
    assert!(attrs.add_boolean_attribute("data-x".to_string()));
    assert!(attrs.remove_attribute("data-x".to_string()));
    assert!(!attrs.remove_attribute("data-x".to_string()));
    assert!(!attrs.has_attribute(&"data-x".to_string()));
    let ops = attrs.drain_operations();
    assert_eq!(ops.len(), 4);
    match &ops[1] {
        Operation::Add { key, payload } => {
            assert_eq!(key, "data-x");
            assert_eq!(*payload, None);
        }
        _ => panic!("expected an addition"),
    }
}

#[test]
fn custom_attribute_constructors() {
    let a = CustomAttribute::new_key_value_attribute("k".to_string(), "v".to_string());
    assert_eq!(a.get_key(), "k");
    assert_eq!(a.get_val(), Some("v".to_string()));
    assert_eq!(a.get_value(), Some("v".to_string()));
    let b = CustomAttribute::new_boolean_attribute("flag".to_string());
    assert_eq!(b.get_key(), "flag");
    assert_eq!(b.get_val(), None);
}

#[test]
fn phases_put_removals_first_and_keep_last_additions() {
    let ops = vec![
        Operation::Add { key: "a".to_string(), payload: 1 },
        Operation::Remove { key: "b".to_string() },
        Operation::Add { key: "a".to_string(), payload: 2 },
        Operation::Add { key: "c".to_string(), payload: 3 },
        Operation::Remove { key: "c".to_string() },
    ];
    let phased = into_phases(ops);
    let summary: Vec<(ProcessAction, String, Option<i32>)> = phased
        .iter()
        .map(|op| match op {
            Operation::Add { key, payload } => (ProcessAction::Add, key.clone(), Some(*payload)),
            Operation::Remove { key } => (ProcessAction::Remove, key.clone(), None),
        })
        .collect();
    assert_eq!(
        summary,
        vec![
            (ProcessAction::Remove, "b".to_string(), None),
            (ProcessAction::Remove, "c".to_string(), None),
            (ProcessAction::Add, "a".to_string(), Some(2)),
        ]
    );
}

#[test]
fn operation_log_drains_in_order() {
    let mut log: OperationLog<u8> = OperationLog::new();
    assert!(log.is_empty());
    log.push_add("x".to_string(), 7);
    log.push_remove("y".to_string());
    assert_eq!(log.len(), 2);
    let ops = log.drain();
    assert!(log.is_empty());
    assert_eq!(ops[0].key(), "x");
    assert_eq!(ops[1].key(), "y");
    assert!(ops[1].is_removal());
}

#[test]
fn listener_holder_records_in_order() {
    let mut holder: ListenerHolder<u32> = ListenerHolder::new();
    holder.add_listener("a".to_string(), "click".to_string(), 5);
    holder.remove_listener("a".to_string());
    let ops = holder.drain_operations();
    assert_eq!(ops.len(), 2);
    match &ops[0] {
        Operation::Add { key, payload } => {
            assert_eq!(key, "a");
            assert_eq!(payload.event_type, "click");
            assert_eq!(payload.callback, 5);
        }
        _ => panic!("expected an addition"),
    }
    assert!(holder.drain_operations().is_empty());
}

#[test]
fn registry_hands_back_displaced_handles() {
    let mut registry: ActiveRegistry<u32> = ActiveRegistry::new();
    assert!(registry.insert("a".to_string(), "click".to_string(), 1).is_none());
    let displaced = registry.insert("a".to_string(), "click".to_string(), 2).unwrap();
    assert_eq!(displaced.handle, 1);
    assert_eq!(registry.get(&"a".to_string()).unwrap().handle, 2);
    let removed = registry.remove(&"a".to_string()).unwrap();
    assert_eq!(removed.handle, 2);
    assert_eq!(removed.event_type, "click");
    assert!(registry.remove(&"a".to_string()).is_none());
    assert!(!registry.contains(&"a".to_string()));
}

#[test]
fn registry_retain_and_teardown_release_handles() {
    let mut registry: ActiveRegistry<u32> = ActiveRegistry::new();
    registry.insert("a".to_string(), "click".to_string(), 1);
    registry.insert("b".to_string(), "input".to_string(), 2);
    registry.insert("c".to_string(), "focus".to_string(), 3);
    let released = registry.retain(&vec!["b".to_string(), "z".to_string()]);
    let mut ids: Vec<String> = released.iter().map(|(id, _)| id.clone()).collect();
    ids.sort();
    assert_eq!(ids, vec!["a".to_string(), "c".to_string()]);
    assert!(registry.contains(&"b".to_string()));
    assert!(!registry.contains(&"a".to_string()));
    let rest = registry.teardown();
    assert_eq!(rest.len(), 1);
    assert_eq!(rest[0].1.handle, 2);
    assert!(!registry.contains(&"b".to_string()));
}
