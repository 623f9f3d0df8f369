use literal::coercion::coerce;
use literal::sequence::{array_from, list, list_from, vec_from};
use std::collections::VecDeque;

#[test]
fn array_items_are_coerced_in_place() {
    let a: [String; 4] = array_from(["a", "b", "c", "d"]);
    assert_eq!(
        a,
        ["a".to_string(), "b".to_string(), "c".to_string(), "d".to_string()]
    );
    let wide: [u64; 3] = array_from([3u8, 1, 2]);
    assert_eq!(wide, [3u64, 1, 2]);
    let none: [u64; 0] = array_from::<u8, u64, 0>([]);
    assert_eq!(none.len(), 0);
}

#[test]
fn vector_items_are_coerced_in_order() {
    let v: Vec<String> = vec_from(vec!["a", "b", "c", "d"]);
    assert_eq!(
        v,
        vec!["a".to_string(), "b".to_string(), "c".to_string(), "d".to_string()]
    );
    let v: Vec<i64> = vec_from(vec![5i32, -5, 5]);
    assert_eq!(v, vec![5i64, -5, 5]);
    let v: Vec<String> = vec_from(Vec::<&str>::new());
    assert!(v.is_empty());
}

#[test]
fn list_keeps_its_items_in_order() {
    let l: VecDeque<i32> = list(vec![1, 2, 3, 4]);
    assert_eq!(l, VecDeque::from([1, 2, 3, 4]));
    assert_eq!(l.front(), Some(&1));
    assert_eq!(l.back(), Some(&4));
    let l: VecDeque<i32> = list(Vec::new());
    assert!(l.is_empty());
}

#[test]
fn list_items_are_coerced_in_order() {
    let l: VecDeque<String> = list_from(vec!["a", "b", "c", "d"]);
    assert_eq!(
        l,
        VecDeque::from(["a".to_string(), "b".to_string(), "c".to_string(), "d".to_string()])
    );
    let l: VecDeque<String> = list_from(Vec::<&str>::new());
    assert!(l.is_empty());
}

#[test]
fn coerce_is_the_conversion_of_the_token() {
    let s: String = coerce("text");
    assert_eq!(s, "text");
    let n: u64 = coerce(7u8);
    assert_eq!(n, 7);
    let o: Option<i32> = coerce(3);
    assert_eq!(o, Some(3));
    let same: i32 = coerce(3);
    assert_eq!(same, 3);
}
