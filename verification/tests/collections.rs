use azalia_config::merge::strategy::maps::{btreemap, hashmap};
use azalia_config::merge::strategy::sets::{btreeset, hashset};
use azalia_config::merge::Merge;
use std::collections::{BTreeMap, BTreeSet, HashMap, HashSet};

#[test]
fn test_hashmap_impls() {
    let empty: HashMap<String, String> = HashMap::new();
    let sized: HashMap<String, String> = HashMap::with_capacity(2);
    let mut one: HashMap<String, String> = HashMap::new();
    one.insert("hello".into(), "world".into());
    let mut sized_one: HashMap<String, String> = HashMap::with_capacity(2);
    sized_one.insert("hello".into(), "world".into());

    let typed = HashMap::<String, String>::new();
    let typed_sized = HashMap::<String, String>::with_capacity(2);
    let mut typed_one = HashMap::<String, String>::with_capacity(2);
    typed_one.insert("hello".into(), "world".into());

    let mut all = empty;
    for map in [sized, one, sized_one, typed, typed_sized, typed_one] {
        all.merge(map);
    }
    assert_eq!(all.len(), 1);
    assert_eq!(all.get("hello").map(String::as_str), Some("world"));

    let mut replaced: HashMap<String, String> = HashMap::new();
    replaced.insert("hello".into(), "there".into());
    replaced.insert("good".into(), "bye".into());
    hashmap::extend(&mut replaced, all);
    assert_eq!(replaced.len(), 2);
    assert_eq!(replaced.get("hello").map(String::as_str), Some("world"));
    assert_eq!(replaced.get("good").map(String::as_str), Some("bye"));

    hashmap::overwrite(&mut replaced, HashMap::new());
    assert!(replaced.is_empty());
}

#[test]
fn test_hashset_impls() {
    let empty: HashSet<String> = HashSet::new();
    let sized: HashSet<String> = HashSet::with_capacity(2);
    let mut two: HashSet<String> = HashSet::new();
    two.insert("hello".into());
    two.insert("world".into());
    let mut sized_two: HashSet<String> = HashSet::with_capacity(2);
    sized_two.insert("hello".into());
    sized_two.insert("world".into());

    let typed = HashSet::<String>::new();
    let typed_sized = HashSet::<String>::with_capacity(32);
    let mut typed_one = HashSet::<String>::new();
    typed_one.insert("hello".into());
    let mut typed_sized_two = HashSet::<String>::with_capacity(32);
    typed_sized_two.insert("hello".into());
    typed_sized_two.insert("world".into());

    let mut all = empty;
    for set in [sized, two, sized_two, typed, typed_sized, typed_one] {
        all.merge(set);
    }
    assert_eq!(all.len(), 2);
    assert!(all.contains("hello") && all.contains("world"));

    let mut more: HashSet<String> = HashSet::new();
    more.insert("again".into());
    hashset::extend(&mut more, typed_sized_two);
    assert_eq!(more.len(), 3);
    assert!(more.contains("again") && more.contains("hello") && more.contains("world"));

    hashset::overwrite(&mut more, all);
    assert_eq!(more.len(), 2);
    assert!(!more.contains("again"));
}

#[test]
fn test_btreemap_impls() {
    let empty: BTreeMap<String, String> = BTreeMap::new();
    let mut one: BTreeMap<String, String> = BTreeMap::new();
    one.insert("hello".into(), "world".into());

    let typed = BTreeMap::<String, String>::new();
    let mut typed_one = BTreeMap::<String, String>::new();
    typed_one.insert("hello".into(), "world".into());

    let mut all = empty;
    for map in [one, typed, typed_one] {
        all.merge(map);
    }
    assert_eq!(all.len(), 1);
    assert_eq!(all.get("hello").map(String::as_str), Some("world"));

    let mut replaced: BTreeMap<String, String> = BTreeMap::new();
    replaced.insert("hello".into(), "there".into());
    replaced.insert("good".into(), "bye".into());
    btreemap::extend(&mut replaced, all);
    assert_eq!(
        replaced.into_iter().collect::<Vec<_>>(),
        vec![("good".to_string(), "bye".to_string()), ("hello".to_string(), "world".to_string())]
    );

    let mut gone: BTreeMap<u8, u8> = BTreeMap::new();
    gone.insert(1, 2);
    btreemap::overwrite(&mut gone, BTreeMap::new());
    assert!(gone.is_empty());
}

#[test]
fn test_btreeset_impls() {
    let empty: BTreeSet<String> = BTreeSet::new();
    let mut two: BTreeSet<String> = BTreeSet::new();
    two.insert("hello".into());
    two.insert("world".into());

    let typed = BTreeSet::<String>::new();
    let mut typed_two = BTreeSet::<String>::new();
    typed_two.insert("hello".into());
    typed_two.insert("world".into());

    let mut all = empty;
    for set in [two, typed] {
        all.merge(set);
    }
    assert_eq!(all.into_iter().collect::<Vec<_>>(), vec!["hello".to_string(), "world".to_string()]);

    let mut more: BTreeSet<String> = BTreeSet::new();
    more.insert("again".into());
    btreeset::extend(&mut more, typed_two.clone());
    assert_eq!(more.len(), 3);

    let mut moved: BTreeSet<String> = BTreeSet::new();
    moved.insert("first".into());
    btreeset::append(&mut moved, typed_two.clone());
    assert_eq!(
        moved.iter().map(String::as_str).collect::<Vec<_>>(),
        vec!["first", "hello", "world"]
    );

    btreeset::overwrite_empty(&mut moved, more.clone());
    assert_eq!(moved.len(), 3);
    assert!(!moved.contains("again"));

    let mut filled: BTreeSet<String> = BTreeSet::new();
    btreeset::overwrite_empty(&mut filled, more);
    assert_eq!(filled.len(), 3);
    assert!(filled.contains("again"));

    btreeset::overwrite(&mut filled, typed_two);
    assert_eq!(filled.len(), 2);
}
