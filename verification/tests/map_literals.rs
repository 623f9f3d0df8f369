use literal::map_expand::{build_map, build_map_with, extend_map, extend_map_with, insert_coerced};
use literal::map_literal::MapLiteral;
use std::collections::{BTreeMap, HashMap};
use std::rc::Rc;

#[derive(Debug)]
struct Point {
    x: i32,
    y: i32,
}

#[derive(Debug, Clone, Copy, PartialEq, Eq, Hash, PartialOrd, Ord)]
struct Id(u32);

#[test]
fn test1() {
    let m: HashMap<i32, i32> = build_map(vec![(0, 1), (1, 0)]);
    println!("{:?}", m);

    let m: HashMap<i32, i32> = build_map(vec![(0, 1), (1, 0),]);
    println!("{:?}", m);

    let m: HashMap<String, i32> = build_map(vec![("x", 0), ("y", 1)]);
    println!("{:?}", m);

    let m: HashMap<Rc<str>, i32> = build_map(vec![("x", 0), ("y", 1)]);
    println!("{:?}", m);

    let mut m: HashMap<i32, Option<i32>> = MapLiteral::with_capacity(2);
    insert_coerced(&mut m, 0, 0);
    insert_coerced(&mut m, 1, None);
    println!("{:?}", m);

    let mut m: HashMap<i32, Option<String>> = MapLiteral::with_capacity(2);
    insert_coerced(&mut m, 0, "x".to_string());
    insert_coerced(&mut m, 1, None);
    println!("{:?}", m);

    let m: HashMap<(i32, i32), i32> = build_map(vec![((0, 0), 0), ((0, 1), 1)]);
    println!("{:?}", m);

    let m: HashMap<String, Point> =
        build_map(vec![("p", Point { x: 0, y: 0 }), ("q", Point { x: 1, y: 0 })]);
    println!("{:?}", m);

    let m: BTreeMap<i32, i32> = build_map(vec![(0, 1), (1, 0)]);
    println!("{:?}", m);

    let m: BTreeMap<String, i32> = build_map(vec![("x", 0), ("y", 1)]);
    println!("{:?}", m);

    let m: BTreeMap<Rc<str>, i32> = build_map(vec![("x", 0), ("y", 1)]);
    println!("{:?}", m);

    let m: HashMap<String, HashMap<String, i32>> = build_map(vec![
        ("p", HashMap::from(build_map::<HashMap<String, i32>, _, _, _, _>(vec![("x", 0), ("y", 0)]))),
        ("q", HashMap::from(build_map::<HashMap<String, i32>, _, _, _, _>(vec![("x", 1), ("y", 0)]))),
    ]);
    println!("{:?}", m);
}

#[test]
fn integer_map_has_both_entries() {
    let m: HashMap<i32, i32> = build_map(vec![(0, 1), (1, 0)]);
    assert_eq!(m.len(), 2);
    assert_eq!(m.get(&0), Some(&1));
    assert_eq!(m.get(&1), Some(&0));
    assert_eq!(m, HashMap::from([(0, 1), (1, 0)]));
}

#[test]
fn text_keys_become_owned_strings() {
    let m: HashMap<String, i32> = build_map(vec![("x", 0), ("y", 1)]);
    assert_eq!(m.len(), 2);
    assert_eq!(m.get("x"), Some(&0));
    assert_eq!(m.get("y"), Some(&1));
    assert_eq!(m, HashMap::from([("x".to_string(), 0), ("y".to_string(), 1)]));
}

#[test]
fn nested_literal_gives_map_of_maps() {
    let m: HashMap<String, HashMap<String, i32>> = build_map(vec![
        ("p", HashMap::from(build_map::<HashMap<String, i32>, _, _, _, _>(vec![("x", 0), ("y", 0)]))),
        ("q", HashMap::from(build_map::<HashMap<String, i32>, _, _, _, _>(vec![("x", 1), ("y", 0)]))),
    ]);
    assert_eq!(m.len(), 2);
    let p = &m["p"];
    assert_eq!(p.len(), 2);
    assert_eq!(p["x"], 0);
    assert_eq!(p["y"], 0);
    let q = &m["q"];
    assert_eq!(q.len(), 2);
    assert_eq!(q["x"], 1);
    assert_eq!(q["y"], 0);
}

#[test]
fn distinct_keys_give_one_entry_each() {
    let clauses: Vec<(u8, u8)> = (0..50).map(|i| (i, 99 - i)).collect();
    let hashed: HashMap<u32, u64> = build_map(clauses.clone());
    let ordered: BTreeMap<u32, u64> = build_map(clauses.clone());
    assert_eq!(hashed.len(), 50);
    assert_eq!(ordered.len(), 50);
    for (k, v) in clauses {
        assert_eq!(hashed.get(&u32::from(k)), Some(&u64::from(v)));
        assert_eq!(ordered.get(&u32::from(k)), Some(&u64::from(v)));
    }
}

#[test]
fn empty_map_literal_is_empty() {
    let hashed: HashMap<String, i32> = build_map(Vec::<(&str, i32)>::new());
    let ordered: BTreeMap<String, i32> = build_map(Vec::<(&str, i32)>::new());
    assert!(hashed.is_empty());
    assert!(ordered.is_empty());
}

#[test]
fn later_clause_replaces_earlier_one() {
    let m: HashMap<String, i32> = build_map(vec![("x", 1), ("y", 2), ("x", 3)]);
    assert_eq!(m.len(), 2);
    assert_eq!(m["x"], 3);
    assert_eq!(m["y"], 2);
    let m: BTreeMap<String, i32> = build_map(vec![("x", 1), ("y", 2), ("x", 3)]);
    assert_eq!(m.len(), 2);
    assert_eq!(m["x"], 3);
    assert_eq!(m["y"], 2);
}

#[test]
fn ordered_map_lists_its_keys_in_key_order() {
    let m: BTreeMap<i32, &str> = build_map(vec![(3, "c"), (1, "a"), (2, "b")]);
    let listed: Vec<(i32, &str)> = m.into_iter().collect();
    assert_eq!(listed, vec![(1, "a"), (2, "b"), (3, "c")]);
}

#[test]
fn extension_keeps_init_and_overrides_on_collision() {
    let init: HashMap<String, i32> = build_map(vec![("a", 1), ("b", 2)]);
    let m: HashMap<String, i32> = extend_map(init, vec![("b", 20), ("c", 30)]);
    assert_eq!(m.len(), 3);
    assert_eq!(m["a"], 1);
    assert_eq!(m["b"], 20);
    assert_eq!(m["c"], 30);

    let init: BTreeMap<String, i32> = build_map(vec![("a", 1), ("b", 2)]);
    let m: BTreeMap<String, i32> = extend_map(init, vec![("b", 20), ("c", 30)]);
    let listed: Vec<(String, i32)> = m.into_iter().collect();
    assert_eq!(
        listed,
        vec![("a".to_string(), 1), ("b".to_string(), 20), ("c".to_string(), 30)]
    );
}

#[test]
fn extension_by_no_clause_returns_init() {
    let init: HashMap<i32, i32> = build_map(vec![(1, 1)]);
    let m: HashMap<i32, i32> = extend_map(init.clone(), Vec::<(i32, i32)>::new());
    assert_eq!(m, init);
}

#[test]
fn transforms_replace_the_coercion() {
    let m: HashMap<Id, String> =
        build_map_with(Id, |v: i32| format!("#{}", v), vec![(1, 10), (2, 20)]);
    assert_eq!(m.len(), 2);
    assert_eq!(m[&Id(1)], "#10");
    assert_eq!(m[&Id(2)], "#20");
}

#[test]
fn transformed_literal_equals_manual_build() {
    let tk = |k: u32| Id(k * 2);
    let tv = |v: &str| v.len();
    let raw = vec![(1, "a"), (2, "bb"), (1, "ccc"), (7, "")];

    let by_literal: BTreeMap<Id, usize> = build_map_with(tk, tv, raw.clone());

    let mut by_hand: BTreeMap<Id, usize> = BTreeMap::new();
    for (k, v) in raw {
        by_hand.insert(tk(k), tv(v));
    }
    assert_eq!(by_literal, by_hand);
    assert_eq!(by_literal.len(), 3);
    assert_eq!(by_literal[&Id(2)], 3);
}

#[test]
fn transformed_extension_overrides_init() {
    let init: HashMap<Id, i64> = build_map_with(Id, |v: i64| v, vec![(1, 1), (2, 2)]);
    let m: HashMap<Id, i64> = extend_map_with(init, Id, |v: i64| -v, vec![(2, 5), (3, 6)]);
    assert_eq!(m, HashMap::from([(Id(1), 1), (Id(2), -5), (Id(3), -6)]));
}

#[test]
fn capacity_hint_does_not_change_the_entries() {
    for n in [0usize, 1, 2, 17, 1000] {
        let clauses: Vec<(usize, usize)> = (0..n).map(|i| (i, i * i)).collect();
        let hinted: HashMap<usize, usize> = build_map(clauses.clone());
        let plain: HashMap<usize, usize> = extend_map(MapLiteral::new(), clauses.clone());
        let over: HashMap<usize, usize> = extend_map(MapLiteral::with_capacity(4 * n + 3), clauses.clone());
        let under: HashMap<usize, usize> = extend_map(MapLiteral::with_capacity(0), clauses);
        assert_eq!(hinted.len(), n);
        assert_eq!(hinted, plain);
        assert_eq!(hinted, over);
        assert_eq!(hinted, under);
    }
}

#[test]
fn new_and_hinted_containers_are_empty() {
    let m: HashMap<i32, i32> = MapLiteral::new();
    assert!(m.is_empty());
    let m: HashMap<i32, i32> = MapLiteral::with_capacity(0);
    assert!(m.is_empty());
    let m: HashMap<i32, i32> = MapLiteral::with_capacity(64);
    assert!(m.is_empty());
    assert!(m.capacity() >= 64);
    let m: BTreeMap<i32, i32> = MapLiteral::new();
    assert!(m.is_empty());
    let m: BTreeMap<i32, i32> = MapLiteral::with_capacity(64);
    assert!(m.is_empty());
}

#[test]
fn capability_insert_replaces_the_value() {
    let mut m: HashMap<&str, i32> = MapLiteral::new();
    MapLiteral::insert(&mut m, "k", 1);
    MapLiteral::insert(&mut m, "k", 2);
    assert_eq!(m.len(), 1);
    assert_eq!(m["k"], 2);
    let mut m: BTreeMap<&str, i32> = MapLiteral::new();
    MapLiteral::insert(&mut m, "k", 1);
    MapLiteral::insert(&mut m, "k", 2);
    assert_eq!(m.len(), 1);
    assert_eq!(m["k"], 2);
}

#[test]
fn clauses_of_mixed_token_types_are_coerced_one_by_one() {
    let mut m: HashMap<i32, Option<i32>> = MapLiteral::with_capacity(2);
    insert_coerced(&mut m, 0, 0);
    insert_coerced(&mut m, 1, None);
    assert_eq!(m, HashMap::from([(0, Some(0)), (1, None)]));
}

#[test]
fn hashed_map_holds_the_entries_whatever_the_clause_order() {
    let forward: HashMap<String, i32> = build_map(vec![("a", 1), ("b", 2), ("c", 3)]);
    let backward: HashMap<String, i32> = build_map(vec![("c", 3), ("b", 2), ("a", 1)]);
    assert_eq!(forward, backward);
    for (k, v) in [("a", 1), ("b", 2), ("c", 3)] {
        assert!(forward.contains_key(k));
        assert_eq!(forward[k], v);
    }
    assert!(!forward.contains_key("d"));
}

#[test]
fn clause_order_decides_between_clauses_of_one_key() {
    let first: BTreeMap<i32, &str> = build_map(vec![(1, "early"), (1, "late")]);
    let second: BTreeMap<i32, &str> = build_map(vec![(1, "late"), (1, "early")]);
    assert_eq!(first[&1], "late");
    assert_eq!(second[&1], "early");
}
