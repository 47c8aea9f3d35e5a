use payment_core::text::{same_bytes, same_text};
use payment_core::text_map::TextMap;

#[test]
fn new_map_is_empty() {
    let map: TextMap<String> = TextMap::new();
    assert_eq!(map.len(), 0);
    assert!(!map.contains_key("stripe"));
    assert_eq!(map.get("stripe"), None);
}

#[test]
fn insert_then_get() {
    let mut map: TextMap<String> = TextMap::new();
    map.insert("stripe".to_string(), "tok_1".to_string());
    assert_eq!(map.len(), 1);
    assert!(map.contains_key("stripe"));
    assert_eq!(map.get("stripe"), Some(&"tok_1".to_string()));
    assert_eq!(map.get("adyen"), None);
}

#[test]
fn insert_replaces_in_place() {
    let mut map: TextMap<String> = TextMap::new();
    map.insert("stripe".to_string(), "tok_1".to_string());
    map.insert("adyen".to_string(), "tok_2".to_string());
    map.insert("stripe".to_string(), "tok_3".to_string());
    assert_eq!(map.len(), 2);
    assert_eq!(map.key_at(0), "stripe");
    assert_eq!(map.value_at(0), "tok_3");
    assert_eq!(map.key_at(1), "adyen");
    assert_eq!(map.value_at(1), "tok_2");
}

#[test]
fn keys_are_compared_by_their_characters() {
    let mut map: TextMap<i64> = TextMap::new();
    map.insert("a".to_string(), 1);
    map.insert(String::from("a"), 2);
    map.insert("A".to_string(), 3);
    assert_eq!(map.len(), 2);
    assert_eq!(map.get("a"), Some(&2));
    assert_eq!(map.get("A"), Some(&3));
}

#[test]
fn text_helpers() {
    assert!(same_text("abc", "abc"));
    assert!(!same_text("abc", "abd"));
    assert!(!same_text("abc", "ab"));
    assert!(same_bytes(&[1, 2, 3], &[1, 2, 3]));
    assert!(!same_bytes(&[1, 2, 3], &[1, 2]));
    assert!(!same_bytes(&[1, 2, 3], &[1, 2, 4]));
    assert!(same_bytes(&[], &[]));
}
