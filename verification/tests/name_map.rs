use reda_lef::LefNameMap;

#[test]
fn name_map_starts_empty() {
    let map: LefNameMap<u32> = LefNameMap::new();
    assert_eq!(map.len(), 0);
    assert_eq!(map.get("a"), None);
    assert!(!map.contains_key("a"));
    assert_eq!(map.position("a"), None);
    assert_eq!(map, LefNameMap::default());
}

#[test]
fn name_map_keeps_insertion_order() {
    let mut map: LefNameMap<u32> = LefNameMap::new();
    map.insert("c".to_string(), 3);
    map.insert("a".to_string(), 1);
    map.insert("b".to_string(), 2);
    assert_eq!(map.len(), 3);
    assert_eq!(map.name_at(0), "c");
    assert_eq!(map.name_at(1), "a");
    assert_eq!(map.name_at(2), "b");
    assert_eq!(map.value_at(0), &3);
    assert_eq!(map.value_at(2), &2);
    assert_eq!(map.position("a"), Some(1));
    assert_eq!(map.get("b"), Some(&2));
    assert_eq!(map.get("B"), None);
}

#[test]
fn name_map_last_write_wins() {
    let mut map: LefNameMap<u32> = LefNameMap::new();
    map.insert("a".to_string(), 1);
    map.insert("b".to_string(), 2);
    map.insert("a".to_string(), 10);
    assert_eq!(map.len(), 2);
    assert_eq!(map.name_at(0), "a");
    assert_eq!(map.get("a"), Some(&10));
    assert_eq!(map.get("b"), Some(&2));
    assert!(map.contains_key("a"));
    assert!(!map.contains_key("c"));
}

#[test]
fn name_map_clone_is_equal() {
    let mut map: LefNameMap<String> = LefNameMap::new();
    map.insert("a".to_string(), "x".to_string());
    map.insert("".to_string(), "y".to_string());
    let copy = map.clone();
    assert_eq!(copy, map);
    assert_eq!(copy.get(""), Some(&"y".to_string()));
}
