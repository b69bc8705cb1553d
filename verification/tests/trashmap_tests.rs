use trashmap::DefaultStrategy;
use trashmap::TrashMap;
use trashmap::TrashSet;

#[test]
fn distinct_keys_distinct_entries() {
    let mut map: TrashMap<str, &'static str> = TrashMap::new();
    let id_foo = map.insert("foo", "value of foo");
    let id_bar = map.insert("bar", "value of bar");
    assert_ne!(id_foo, id_bar);
    assert_eq!(map.get(id_foo), Some(&"value of foo"));
    assert_eq!(map.get(id_bar), Some(&"value of bar"));
}

#[test]
fn map_round_trip() {
    let mut map: TrashMap<str, u32> = TrashMap::new();
    let id = map.insert("key", 17);
    assert_eq!(map.get(id), Some(&17));
    assert_eq!(map.remove(id), Some(17));
    assert_eq!(map.get(id), None);
}

#[test]
fn duplicate_insert_keeps_second_value() {
    let mut map: TrashMap<str, u32> = TrashMap::new();
    let id1 = map.insert("key", 1);
    let id2 = map.insert("key", 2);
    assert_eq!(id1, id2);
    assert_eq!(map.get(id1), Some(&2));
}

#[test]
fn insert_replace_reports_previous_value() {
    let mut map: TrashMap<str, u32> = TrashMap::new();
    let (id1, none) = map.insert_replace("key", 1);
    assert_eq!(none, None);
    let (id2, prev) = map.insert_replace("key", 2);
    assert_eq!(id1, id2);
    assert_eq!(prev, Some(1));
    assert_eq!(map.get(id2), Some(&2));
}

#[test]
fn insert_id_bypasses_hashing() {
    let mut map: TrashMap<str, u32> = TrashMap::new();
    let id = map.trash("key");
    assert_eq!(map.insert_id(id, 5), None);
    assert_eq!(map.insert_id(id, 6), Some(5));
    assert_eq!(map.get_key("key"), Some(&6));
}

#[test]
fn get_key_and_remove_key() {
    let mut map: TrashMap<str, u32> = TrashMap::new();
    assert_eq!(map.get_key("missing"), None);
    assert_eq!(map.remove_key("missing"), None);
    map.insert("present", 3);
    assert_eq!(map.get_key("present"), Some(&3));
    assert_eq!(map.remove_key("present"), Some(3));
    assert_eq!(map.get_key("present"), None);
}

#[test]
fn identifiers_are_stable() {
    let map: TrashMap<str, u32> = TrashMap::new();
    let id1 = map.trash("some longish key, hashed twice");
    let id2 = map.trash("some longish key, hashed twice");
    assert_eq!(id1, id2);
    assert_eq!(id1.get_hash(), id2.get_hash());
}

#[test]
fn identifiers_agree_across_instances_with_equal_strategies() {
    let map: TrashMap<str, u32> = TrashMap::new();
    let set: TrashSet<str> = TrashSet::new();
    assert_eq!(map.trash("shared key").get_hash(), set.trash("shared key").get_hash());

    let seeded_a: TrashMap<str, u32, DefaultStrategy> =
        TrashMap::with_capacity_and_hasher(8, DefaultStrategy::with_seed(42));
    let seeded_b: TrashMap<str, u32, DefaultStrategy> =
        TrashMap::with_capacity_and_hasher(0, DefaultStrategy::with_seed(42));
    assert_eq!(seeded_a.trash("shared key"), seeded_b.trash("shared key"));
}

#[test]
fn set_insert_check_detects_presence() {
    let mut set: TrashSet<str> = TrashSet::new();
    let (id, fresh) = set.insert_check("node");
    assert!(fresh);
    let (id_again, fresh_again) = set.insert_check("node");
    assert_eq!(id, id_again);
    assert!(!fresh_again);
    assert!(set.remove(id));
    let (_, fresh_after_remove) = set.insert_check("node");
    assert!(fresh_after_remove);
}

#[test]
fn set_insert_and_contains() {
    let mut set: TrashSet<str> = TrashSet::new();
    let id = set.insert("member");
    assert!(set.contains(id));
    assert!(set.contains_key("member"));
    assert!(!set.contains_key("stranger"));
}

#[test]
fn set_insert_id_and_remove_key() {
    let mut set: TrashSet<str> = TrashSet::new();
    let id = set.trash("member");
    assert!(set.insert_id(id));
    assert!(!set.insert_id(id));
    assert!(set.remove_key("member"));
    assert!(!set.remove_key("member"));
    assert!(!set.contains(id));
}

#[test]
fn never_inserted_identifier_is_absent() {
    let mut set: TrashSet<str> = TrashSet::new();
    let never = set.trash("never inserted");
    set.insert("this one");
    set.insert("that one");
    assert!(!set.contains(never));
    assert!(!set.remove(never));
    assert!(!set.contains(never));
}

#[test]
fn u64_and_byte_keys() {
    let mut by_number: TrashMap<u64, &'static str> = TrashMap::new();
    let id = by_number.insert(&7, "seven");
    assert_eq!(by_number.get(id), Some(&"seven"));
    assert_eq!(by_number.trash(&7), id);

    let mut by_bytes: TrashSet<[u8]> = TrashSet::new();
    let (bid, fresh) = by_bytes.insert_check(&[1u8, 2, 3]);
    assert!(fresh);
    assert!(by_bytes.contains(bid));
}

#[test]
fn string_keys_agree_with_str_keys() {
    let mut owned: TrashMap<String, u32> = TrashMap::new();
    let borrowed: TrashMap<str, u32> = TrashMap::new();
    let id = owned.insert(&"a rather long key".to_string(), 11);
    assert_eq!(id, borrowed.trash("a rather long key"));
    assert_eq!(owned.get(id), Some(&11));
}

#[test]
fn default_constructs_empty_containers() {
    let mut map: TrashMap<str, u32> = Default::default();
    assert_eq!(map.get_key("anything"), None);
    map.insert("anything", 1);
    assert_eq!(map.get_key("anything"), Some(&1));

    let set: TrashSet<str> = Default::default();
    assert!(!set.contains_key("anything"));
}

/// Looks up the children of `node` in an edge list.
fn children<'a>(edges: &[(&str, &'a [&'a str])], node: &str) -> &'a [&'a str] {
    for (name, targets) in edges.iter() {
        if *name == node {
            return targets;
        }
    }
    &[]
}

/// Walks the graph depth-first, keeping the set of nodes currently on the
/// call path. Returns the first node found already on the path, if any.
fn walk(seen: &mut TrashSet<str>, edges: &[(&str, &[&str])], node: &str) -> Result<(), String> {
    let (id, fresh) = seen.insert_check(node);
    if !fresh {
        return Err(node.to_string());
    }
    for child in children(edges, node).iter() {
        walk(seen, edges, child)?;
    }
    seen.remove(id);
    Ok(())
}

#[test]
fn acyclic_walk_completes() {
    let edges: &[(&str, &[&str])] = &[
        ("foo", &["bar", "baz", "quux"]),
        ("bar", &["baz", "quux"]),
        ("quux", &["one", "two", "baz"]),
    ];
    let mut seen: TrashSet<str> = TrashSet::new();
    assert_eq!(walk(&mut seen, edges, "foo"), Ok(()));
    assert!(!seen.contains_key("foo"));
}

#[test]
fn cyclic_walk_reports_the_node_on_the_path() {
    let edges: &[(&str, &[&str])] = &[
        ("foo", &["bar", "baz", "quux"]),
        ("bar", &["baz", "quux"]),
        ("quux", &["one", "two", "foo", "baz"]),
    ];
    let mut seen: TrashSet<str> = TrashSet::new();
    assert_eq!(walk(&mut seen, edges, "foo"), Err("foo".to_string()));
}
