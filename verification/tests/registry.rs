use ulink_zenoh::registry::Registry;

#[test]
fn new_registry_is_empty() {
    let mut registry: Registry<u32> = Registry::new();
    assert_eq!(registry.get("a"), None);
    assert_eq!(registry.get(""), None);
    assert_eq!(registry.remove("a"), None);
}

#[test]
fn insert_then_get() {
    let mut registry = Registry::new();
    registry.insert("a".to_string(), 1u32);
    registry.insert("b".to_string(), 2u32);
    assert_eq!(registry.get("a"), Some(&1));
    assert_eq!(registry.get("b"), Some(&2));
    assert_eq!(registry.get("c"), None);
    assert_eq!(registry.get(""), None);
}

#[test]
fn insert_under_a_present_key_replaces() {
    let mut registry = Registry::new();
    registry.insert("a".to_string(), 1u32);
    registry.insert("b".to_string(), 2u32);
    registry.insert("a".to_string(), 3u32);
    assert_eq!(registry.get("a"), Some(&3));
    assert_eq!(registry.get("b"), Some(&2));
}

#[test]
fn remove_returns_the_value_once() {
    let mut registry = Registry::new();
    registry.insert("a".to_string(), 1u32);
    registry.insert("b".to_string(), 2u32);
    registry.insert("c".to_string(), 3u32);
    assert_eq!(registry.remove("b"), Some(2));
    assert_eq!(registry.remove("b"), None);
    assert_eq!(registry.get("a"), Some(&1));
    assert_eq!(registry.get("b"), None);
    assert_eq!(registry.get("c"), Some(&3));
    assert_eq!(registry.remove("a"), Some(1));
    assert_eq!(registry.remove("c"), Some(3));
}

#[test]
fn remove_of_an_absent_key_changes_nothing() {
    let mut registry = Registry::new();
    registry.insert("a".to_string(), 1u32);
    assert_eq!(registry.remove("A"), None);
    assert_eq!(registry.remove(""), None);
    assert_eq!(registry.get("a"), Some(&1));
}

#[test]
fn values_need_not_be_copyable() {
    let mut registry: Registry<Vec<String>> = Registry::new();
    registry.insert("k".to_string(), vec!["x".to_string()]);
    assert_eq!(registry.get("k"), Some(&vec!["x".to_string()]));
    assert_eq!(registry.remove("k"), Some(vec!["x".to_string()]));
}
