use assoc::lenient::{AssocListExt, Entry};

#[test]
fn list_or_insert() {
    let mut v = vec![("a", 1), ("b", 2)];
    v.entry("c").or_insert(3);
    assert_eq!(v, vec![("a", 1), ("b", 2), ("c", 3)]);
    assert_eq!(v.entry("a").or_insert(7), &1);
}

#[test]
fn list_or_insert_with() {
    let mut v = vec![("a", 1), ("b", 2)];
    v.entry("c").or_insert_with(|| 3);
    assert_eq!(v, vec![("a", 1), ("b", 2), ("c", 3)]);
}

#[test]
fn list_or_insert_with_key() {
    let mut v = vec![("a", 1), ("b", 2)];
    v.entry("c").or_insert_with_key(|key| key.len());
    assert_eq!(v, vec![("a", 1), ("b", 2), ("c", 1)]);
}

#[test]
fn list_entry_key() {
    let mut v = vec![("a", 1), ("b", 2)];
    assert_eq!(v.entry("a").key(), &"a");
}

#[test]
fn list_and_modify() {
    let mut v = vec![("a", 1), ("b", 2)];
    v.entry("c").and_modify(|e| *e += 1).or_insert(3);
    assert_eq!(v, vec![("a", 1), ("b", 2), ("c", 3)]);
    v.entry("c").and_modify(|e| *e += 1).or_insert(3);
    assert_eq!(v, vec![("a", 1), ("b", 2), ("c", 4)]);
}

#[test]
fn list_or_default() {
    let mut v = vec![("a", 1), ("b", 2)];
    v.entry("c").or_default();
    assert_eq!(v, vec![("a", 1), ("b", 2), ("c", 0)]);
}

#[test]
fn list_entry_variants() {
    let mut v = vec![("a", 1), ("b", 2), ("b", 3)];
    assert!(matches!(v.entry("b"), Entry::Occupied(_, _, 1)));
    assert!(matches!(v.entry("z"), Entry::Vacant(_, _)));
}
