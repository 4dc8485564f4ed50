use assoc::AssocStrictExt;

#[test]
fn strict_counting() {
    let mut count = Vec::new();
    for x in vec!["a", "b", "c", "b"] {
        *count.entry(x).or_insert(0) += 1;
    }
    assert_eq!(count.get(&"b"), Some(&2));
}

#[test]
fn strict_get_and_get_mut() {
    let mut map = vec![("a", 1), ("b", 2)];
    assert_eq!(map.get(&"a"), Some(&1));
    *map.get_mut(&"a").unwrap() += 1;
    assert_eq!(map.get(&"a"), Some(&2));
}

#[test]
fn strict_insert_and_remove() {
    let mut map = vec![("b", 3)];
    assert_eq!(AssocStrictExt::insert(&mut map, "a", 1), None);
    assert_eq!(AssocStrictExt::insert(&mut map, "a", 2), Some(1));
    assert_eq!(AssocStrictExt::remove(&mut map, &"b"), Some(3));
    assert_eq!(AssocStrictExt::remove(&mut map, &"b"), None);
    assert_eq!(map, vec![("a", 2)]);
}

#[test]
fn strict_views() {
    let mut map = vec![("a", 1), ("b", 2)];
    assert_eq!(map.keys().next(), Some(&"a"));
    assert_eq!(map.values().next(), Some(&1));
    let mut vm = map.values_mut();
    *vm.next().unwrap() = 5;
    assert_eq!(map, vec![("a", 5), ("b", 2)]);
    assert_eq!(map.clone().into_keys().next(), Some("a"));
    assert_eq!(map.into_values().next(), Some(5));
}
