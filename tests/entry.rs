use assoc::vec::Entry;
use assoc::AssocExt;

#[test]
fn or_insert_appends_then_finds() {
    let mut map = vec![("a", 1), ("b", 2)];
    map.entry("c").or_insert(3);
    assert_eq!(map.get(&"c"), Some(&3));
    assert_eq!(map.entry("c").or_insert(4), &3);
    assert_eq!(map, vec![("a", 1), ("b", 2), ("c", 3)]);
}

#[test]
fn or_insert_with_runs_only_when_vacant() {
    let mut map = Vec::new();
    map.entry("c").or_insert_with(|| 3);
    assert_eq!(map.get(&"c"), Some(&3));
    let mut called = false;
    assert_eq!(
        map.entry("c").or_insert_with(|| {
            called = true;
            4
        }),
        &3
    );
    assert!(!called);
}

#[test]
fn or_insert_with_key_sees_key() {
    let mut map = vec![("a", 1), ("b", 2)];
    map.entry("ccc").or_insert_with_key(|key| key.len());
    assert_eq!(map.get(&"ccc"), Some(&3));
    assert_eq!(map.entry("a").or_insert_with_key(|key| key.len() + 10), &1);
}

#[test]
fn entry_key_is_the_query() {
    let mut map = vec![("a", 1), ("b", 2)];
    assert_eq!(map.entry("a").key(), &"a");
    assert_eq!(map.entry("z").key(), &"z");
}

#[test]
fn and_modify_then_or_insert() {
    let mut map = vec![("a", 1), ("b", 2)];
    map.entry("c").and_modify(|e| *e += 1).or_insert(3);
    assert_eq!(map.get(&"c"), Some(&3));
    map.entry("c").and_modify(|e| *e += 1).or_insert(9);
    assert_eq!(map.get(&"c"), Some(&4));
}

#[test]
fn and_modify_keeps_variant() {
    let mut map = vec![("a", 1)];
    assert!(matches!(map.entry("z").and_modify(|e| *e += 1), Entry::Vacant(_)));
    assert_eq!(map.len(), 1);
    assert!(matches!(map.entry("a").and_modify(|e| *e += 1), Entry::Occupied(_)));
    assert_eq!(map, vec![("a", 2)]);
}

#[test]
fn or_default_inserts_zero() {
    let mut map = vec![("a", 1), ("b", 2)];
    map.entry("c").or_default();
    assert_eq!(map.get(&"c"), Some(&0));
    assert_eq!(map.entry("a").or_default(), &1);
}

#[test]
fn counting_with_entries() {
    let mut count = Vec::new();
    for x in vec!["a", "b", "c", "b"] {
        *count.entry(x).or_insert(0) += 1;
    }
    assert_eq!(count.get(&"b"), Some(&2));
    assert_eq!(count, vec![("a", 1), ("b", 2), ("c", 1)]);
}

#[test]
fn vacant_entry_operations() {
    let mut map = vec![("a", 1)];
    match map.entry("b") {
        Entry::Vacant(e) => {
            assert_eq!(e.key(), &"b");
            let v = e.insert(5);
            *v += 1;
        }
        Entry::Occupied(_) => panic!("expected a vacant entry"),
    }
    assert_eq!(map, vec![("a", 1), ("b", 6)]);
    match map.entry("c") {
        Entry::Vacant(e) => assert_eq!(e.into_key(), "c"),
        Entry::Occupied(_) => panic!("expected a vacant entry"),
    }
    assert_eq!(map, vec![("a", 1), ("b", 6)]);
}

#[test]
fn occupied_entry_operations() {
    let mut map = vec![("a", 1), ("b", 2), ("c", 3)];
    match map.entry("b") {
        Entry::Occupied(mut e) => {
            assert_eq!(e.key(), &"b");
            assert_eq!(e.get(), &2);
            *e.get_mut() += 10;
            assert_eq!(e.get(), &12);
            assert_eq!(e.insert(20), 12);
            *e.into_mut() += 1;
        }
        Entry::Vacant(_) => panic!("expected an occupied entry"),
    }
    assert_eq!(map, vec![("a", 1), ("b", 21), ("c", 3)]);
}

#[test]
fn occupied_remove_swaps_last_in() {
    let mut map = vec![("a", 1), ("b", 2), ("c", 3)];
    match map.entry("a") {
        Entry::Occupied(e) => assert_eq!(e.remove(), 1),
        Entry::Vacant(_) => panic!("expected an occupied entry"),
    }
    assert_eq!(map, vec![("c", 3), ("b", 2)]);
    match map.entry("b") {
        Entry::Occupied(e) => assert_eq!(e.remove_entry(), ("b", 2)),
        Entry::Vacant(_) => panic!("expected an occupied entry"),
    }
    assert_eq!(map, vec![("c", 3)]);
}

#[test]
fn entry_on_empty_list_is_vacant() {
    let mut map: Vec<(u32, u32)> = Vec::new();
    assert!(matches!(map.entry(7), Entry::Vacant(_)));
    assert!(map.is_empty());
}
