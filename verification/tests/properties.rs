use analytics::properties::{PropValue, Properties};

fn text(value: &str) -> PropValue {
    PropValue::Text(value.to_string())
}

#[test]
fn new_map_is_empty() {
    let props = Properties::new();
    assert_eq!(props.len(), 0);
    assert!(!props.contains_key("anything"));
    assert_eq!(props.get("anything"), None);
}

#[test]
fn insert_binds_a_name() {
    let mut props = Properties::new();
    props.insert("os_name".to_string(), text("Linux"));
    props.insert("cpu_count".to_string(), PropValue::Count(8));
    assert_eq!(props.len(), 2);
    assert!(props.contains_key("os_name"));
    assert_eq!(props.get("os_name"), Some(&text("Linux")));
    assert_eq!(props.get("cpu_count"), Some(&PropValue::Count(8)));
    assert_eq!(props.get("os_version"), None);
}

#[test]
fn insert_replaces_an_earlier_binding() {
    let mut props = Properties::new();
    props.insert("a".to_string(), PropValue::Count(1));
    props.insert("b".to_string(), PropValue::Count(2));
    props.insert("a".to_string(), PropValue::Flag(true));
    assert_eq!(props.len(), 2);
    assert_eq!(props.get("a"), Some(&PropValue::Flag(true)));
    assert_eq!(props.get("b"), Some(&PropValue::Count(2)));
}

#[test]
fn names_are_told_apart_exactly() {
    let mut props = Properties::new();
    props.insert("key".to_string(), PropValue::Count(1));
    assert!(!props.contains_key("Key"));
    assert!(!props.contains_key("key "));
    assert!(!props.contains_key("ke"));
    assert!(!props.contains_key(""));
}

#[test]
fn extend_overwrites_shared_names_and_keeps_the_rest() {
    let mut base = Properties::new();
    base.insert("distinct_id".to_string(), text("user-1"));
    base.insert("os_name".to_string(), text("Linux"));
    base.insert("cpu_count".to_string(), PropValue::Count(4));
    let mut extension = Properties::new();
    extension.insert("os_name".to_string(), text("Plan 9"));
    extension.insert("is_healthy".to_string(), PropValue::Flag(false));
    base.extend(&extension);
    assert_eq!(base.len(), 4);
    assert_eq!(base.get("os_name"), Some(&text("Plan 9")));
    assert_eq!(base.get("is_healthy"), Some(&PropValue::Flag(false)));
    assert_eq!(base.get("distinct_id"), Some(&text("user-1")));
    assert_eq!(base.get("cpu_count"), Some(&PropValue::Count(4)));
    assert_eq!(extension.len(), 2);
}

#[test]
fn extend_with_an_empty_extension_changes_nothing() {
    let mut base = Properties::new();
    base.insert("a".to_string(), PropValue::Count(1));
    base.extend(&Properties::new());
    assert_eq!(base.len(), 1);
    assert_eq!(base.get("a"), Some(&PropValue::Count(1)));
}

#[test]
fn extend_an_empty_base_takes_every_binding() {
    let mut base = Properties::new();
    let mut extension = Properties::new();
    extension.insert("x".to_string(), PropValue::TextList(vec!["a".to_string(), "b".to_string()]));
    extension.insert("y".to_string(), PropValue::Count(7));
    base.extend(&extension);
    assert_eq!(base.len(), 2);
    assert_eq!(
        base.get("x"),
        Some(&PropValue::TextList(vec!["a".to_string(), "b".to_string()]))
    );
    assert_eq!(base.get("y"), Some(&PropValue::Count(7)));
}

#[test]
fn entry_at_visits_every_binding_once() {
    let mut props = Properties::new();
    props.insert("first".to_string(), PropValue::Count(1));
    props.insert("second".to_string(), PropValue::Count(2));
    props.insert("first".to_string(), PropValue::Count(3));
    let mut seen = Vec::new();
    for index in 0..props.len() {
        let (name, value) = props.entry_at(index);
        assert_eq!(props.get(name.as_str()), Some(value));
        seen.push(name.clone());
    }
    seen.sort();
    assert_eq!(seen, vec!["first".to_string(), "second".to_string()]);
}

#[test]
fn duplicate_gives_an_equal_value() {
    let values = vec![
        PropValue::Flag(true),
        PropValue::Count(u64::MAX),
        text("héllo"),
        PropValue::TextList(vec!["a".to_string(), String::new()]),
    ];
    for value in &values {
        assert_eq!(&value.duplicate(), value);
    }
}
