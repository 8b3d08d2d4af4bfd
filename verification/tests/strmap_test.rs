use athenos::strmap::StrMap;

#[test]
fn test_strmap_keeps_first_insertion_order() {
    let mut map: StrMap<u32> = StrMap::new();
    assert!(map.is_empty());
    map.insert("b".to_string(), 1);
    map.insert("a".to_string(), 2);
    map.insert("b".to_string(), 3);
    assert_eq!(map.len(), 2);
    assert_eq!(map.key_at(0), "b");
    assert_eq!(map.key_at(1), "a");
    assert_eq!(*map.value_at(0), 3);
    assert_eq!(*map.value_at(1), 2);
    assert_eq!(map.get("a"), Some(&2));
    assert_eq!(map.get("c"), None);
    assert_eq!(map.position("a"), Some(1));
    assert_eq!(map.position("zz"), None);
    assert!(map.contains_key("b"));
    assert!(!map.contains_key(""));
}

#[test]
fn test_strmap_replace_at_hands_back_the_old_value() {
    let mut map: StrMap<String> = StrMap::new();
    map.insert("k".to_string(), "old".to_string());
    map.insert("l".to_string(), "other".to_string());
    let previous = map.replace_at(0, "new".to_string());
    assert_eq!(previous, "old");
    assert_eq!(map.get("k"), Some(&"new".to_string()));
    assert_eq!(map.get("l"), Some(&"other".to_string()));
    assert_eq!(map.len(), 2);
    let copy = map.clone();
    assert_eq!(copy.len(), 2);
    assert_eq!(copy.key_at(1), "l");
    assert_eq!(copy.get("k"), Some(&"new".to_string()));
}
