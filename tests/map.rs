use assoc::AssocExt;

#[test]
fn get_finds_value() {
    let map = vec![("a", 1), ("b", 2)];
    assert_eq!(map.get(&"a"), Some(&1));
    assert_eq!(map.get(&"b"), Some(&2));
    assert_eq!(map.get(&"z"), None);
}

#[test]
fn get_on_empty_list() {
    let map: Vec<(&str, i32)> = Vec::new();
    assert_eq!(map.get(&"a"), None);
}

#[test]
fn get_mut_changes_value() {
    let mut map = vec![("a", 1), ("b", 2)];
    *map.get_mut(&"a").unwrap() += 1;
    assert_eq!(map.get(&"a"), Some(&2));
    assert!(map.get_mut(&"z").is_none());
    assert_eq!(map, vec![("a", 2), ("b", 2)]);
}

#[test]
fn insert_returns_old_value() {
    let mut map = vec![("b", 3)];
    assert_eq!(AssocExt::insert(&mut map, "a", 1), None);
    assert_eq!(AssocExt::insert(&mut map, "a", 2), Some(1));
    assert_eq!(map, vec![("b", 3), ("a", 2)]);
}

#[test]
fn remove_returns_value_once() {
    let mut map = vec![("a", 1)];
    assert_eq!(AssocExt::remove(&mut map, &"a"), Some(1));
    assert_eq!(AssocExt::remove(&mut map, &"a"), None);
    assert!(map.is_empty());
}

#[test]
fn remove_last_pair_keeps_order() {
    let mut map = vec![("a", 1), ("b", 2), ("c", 3)];
    assert_eq!(AssocExt::remove(&mut map, &"c"), Some(3));
    assert_eq!(map, vec![("a", 1), ("b", 2)]);
}

#[test]
fn keys_in_order() {
    let map = vec![("a", 1), ("b", 2)];
    let mut iter = map.keys();
    assert_eq!(iter.next().unwrap(), &"a");
    assert_eq!(iter.next().unwrap(), &"b");
    assert_eq!(iter.next(), None);
    assert_eq!(iter.next(), None);
}

#[test]
fn keys_clone_restarts_nothing() {
    let map = vec![("a", 1), ("b", 2)];
    let mut iter = map.keys();
    assert_eq!(iter.next(), Some(&"a"));
    let mut copy = iter.clone();
    assert_eq!(copy.next(), Some(&"b"));
    assert_eq!(copy.next(), None);
    assert_eq!(iter.next(), Some(&"b"));
}

#[test]
fn into_keys_in_order() {
    let map = vec![(1, "a"), (2, "b"), (3, "c")];
    let mut keys = Vec::new();
    let mut iter = map.into_keys();
    while let Some(k) = iter.next() {
        keys.push(k);
    }
    assert_eq!(keys, [1, 2, 3]);
}

#[test]
fn values_in_order() {
    let map = vec![("a", 1), ("b", 2)];
    let mut iter = map.values();
    assert_eq!(iter.next().unwrap(), &1);
    assert_eq!(iter.next().unwrap(), &2);
    assert_eq!(iter.next(), None);
    let mut again = map.values();
    assert_eq!(again.clone().next(), Some(&1));
    assert_eq!(again.next(), Some(&1));
}

#[test]
fn values_mut_changes_in_place() {
    let mut map = vec![(1, "a".to_string()), (2, "b".to_string())];
    let mut iter = map.values_mut();
    while let Some(value) = iter.next() {
        value.push_str("!");
    }
    assert_eq!(iter.next(), None);
    let mut values = Vec::new();
    let mut read = map.values();
    while let Some(v) = read.next() {
        values.push(v.clone());
    }
    assert_eq!(values, ["a!".to_string(), "b!".to_string()]);
    assert_eq!(map[0].0, 1);
    assert_eq!(map[1].0, 2);
}

#[test]
fn into_values_in_order() {
    let map = vec![(1, "a"), (2, "b")];
    let mut values = Vec::new();
    let mut iter = map.into_values();
    while let Some(v) = iter.next() {
        values.push(v);
    }
    assert_eq!(values, ["a", "b"]);
}

#[test]
fn views_of_empty_list() {
    let map: Vec<(u8, u8)> = Vec::new();
    assert_eq!(map.keys().next(), None);
    assert_eq!(map.values().next(), None);
    assert_eq!(map.clone().into_keys().next(), None);
    assert_eq!(map.into_values().next(), None);
}
