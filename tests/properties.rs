use assoc::AssocExt;

#[test]
fn default_insert_is_idempotent() {
    let mut s = vec![("a", 1), ("b", 2)];
    s.entry("c").or_insert(3);
    assert_eq!(s, vec![("a", 1), ("b", 2), ("c", 3)]);
    assert_eq!(s.entry("c").or_insert(4), &3);
    assert_eq!(s.len(), 3);
    assert_eq!(s, vec![("a", 1), ("b", 2), ("c", 3)]);
}

#[test]
fn modify_or_insert_composition() {
    let mut s: Vec<(&str, i32)> = Vec::new();
    s.entry("c").and_modify(|v| *v += 1).or_insert(3);
    assert_eq!(s, vec![("c", 3)]);
    s.entry("c").and_modify(|v| *v += 1).or_insert(3);
    assert_eq!(s, vec![("c", 4)]);
}

#[test]
fn swap_removal_reorders() {
    let mut s = vec![("a", 1), ("b", 2), ("c", 3)];
    assert_eq!(AssocExt::remove(&mut s, &"a"), Some(1));
    assert_eq!(s, vec![("c", 3), ("b", 2)]);
}

#[test]
fn first_match_wins_under_duplicates() {
    let mut s = vec![("k", 1), ("k", 2)];
    assert_eq!(s.get(&"k"), Some(&1));
    assert_eq!(AssocExt::insert(&mut s, "k", 9), Some(1));
    assert_eq!(s, vec![("k", 9), ("k", 2)]);
    assert_eq!(AssocExt::remove(&mut s, &"k"), Some(9));
    assert_eq!(s, vec![("k", 2)]);
}

#[test]
fn borrowed_key_lookup_agrees() {
    let mut s = vec![("a".to_string(), 1), ("b".to_string(), 2)];
    let owned = "b".to_string();
    assert_eq!(s.get(&owned), s.get("b"));
    assert_eq!(s.get("b"), Some(&2));
    assert_eq!(s.get(&owned), Some(&2));
    assert_eq!(s.get("z"), None);
    *s.get_mut("a").unwrap() += 5;
    assert_eq!(s.get(&"a".to_string()), Some(&6));
    assert_eq!(AssocExt::remove(&mut s, "a"), Some(6));
    assert_eq!(s, vec![("b".to_string(), 2)]);
}

#[test]
fn nan_keys_accumulate() {
    let mut v = vec![(1.0f32, "a")];
    v.entry(f32::NAN).or_insert("b");
    v.entry(f32::NAN).or_insert("c");
    assert_eq!(v.len(), 3);
    assert_eq!(format!("{:?}", v), r#"[(1.0, "a"), (NaN, "b"), (NaN, "c")]"#);
    assert_eq!(v.get(&f32::NAN), None);
}

#[test]
fn insert_return_contract() {
    let mut s = vec![("a", 1), ("b", 2), ("c", 3)];
    assert_eq!(AssocExt::insert(&mut s, "d", 4), None);
    assert_eq!(s, vec![("a", 1), ("b", 2), ("c", 3), ("d", 4)]);
    assert_eq!(AssocExt::insert(&mut s, "b", 20), Some(2));
    assert_eq!(s, vec![("a", 1), ("b", 20), ("c", 3), ("d", 4)]);
}
