use libcnab::SortedMap;

#[test]
fn new_map_is_empty() {
    let map: SortedMap<i64> = SortedMap::new();
    assert_eq!(map.len(), 0);
    assert!(map.is_empty());
    assert_eq!(map.get("a"), None);
    assert!(map.entries().is_empty());
}

#[test]
fn entries_are_kept_in_the_order_of_their_keys() {
    let mut map: SortedMap<i64> = SortedMap::new();
    assert_eq!(map.insert("m".to_string(), 1), None);
    assert_eq!(map.insert("z".to_string(), 2), None);
    assert_eq!(map.insert("a".to_string(), 3), None);
    assert_eq!(map.insert("mm".to_string(), 4), None);
    assert_eq!(map.insert("".to_string(), 5), None);
    let keys: Vec<&str> = map.entries().iter().map(|e| e.0.as_str()).collect();
    assert_eq!(keys, vec!["", "a", "m", "mm", "z"]);
    let values: Vec<i64> = map.entries().iter().map(|e| e.1).collect();
    assert_eq!(values, vec![5, 3, 1, 4, 2]);
    assert_eq!(map.len(), 5);
    assert!(!map.is_empty());
}

#[test]
fn insert_replaces_the_value_of_a_key_that_is_there() {
    let mut map: SortedMap<i64> = SortedMap::new();
    map.insert("b".to_string(), 1);
    map.insert("a".to_string(), 2);
    assert_eq!(map.insert("b".to_string(), 3), Some(1));
    assert_eq!(map.len(), 2);
    assert_eq!(map.get("b"), Some(&3));
    assert_eq!(map.get("a"), Some(&2));
    assert_eq!(map.get("c"), None);
    assert_eq!(map.entries()[0], ("a".to_string(), 2));
    assert_eq!(map.entries()[1], ("b".to_string(), 3));
}

#[test]
fn keys_are_ordered_by_their_bytes() {
    let mut map: SortedMap<i64> = SortedMap::new();
    map.insert("maximum".to_string(), 1);
    map.insert("maxLength".to_string(), 2);
    map.insert("\u{e9}".to_string(), 3);
    map.insert("z".to_string(), 4);
    map.insert("Z".to_string(), 5);
    let keys: Vec<&str> = map.entries().iter().map(|e| e.0.as_str()).collect();
    assert_eq!(keys, vec!["Z", "maxLength", "maximum", "z", "\u{e9}"]);
}
