use merge2::record::Saturated;
use merge2::Merge;
use std::collections::HashMap;

fn test<T: std::fmt::Debug + Merge + PartialEq>(expected: T, mut left: T, mut right: T) {
    left.merge(&mut right);
    assert_eq!(expected, left);
}

fn test_strategy<T: std::fmt::Debug + PartialEq>(
    strategy: fn(&mut T, &mut T),
    expected: T,
    mut left: T,
    mut right: T,
) {
    strategy(&mut left, &mut right);
    assert_eq!(expected, left);
}

fn map_of<V>(pairs: Vec<(u8, V)>) -> HashMap<u8, V> {
    let mut map = HashMap::new();
    for (k, v) in pairs {
        map.insert(k, v);
    }
    map
}

#[test]
fn test_any_overwrite() {
    test_strategy(merge2::any::overwrite::<u8>, 2, 1, 2);
    test_strategy(merge2::any::overwrite::<u8>, 2, 0, 2);
    test_strategy(merge2::any::overwrite::<u8>, 0, 1, 0);
    test_strategy(merge2::any::overwrite::<u8>, 0, 0, 0);
}

#[test]
fn test_any_overwrite_default() {
    test_strategy(merge2::any::overwrite_default::<u8>, 1, 1, 2);
    test_strategy(merge2::any::overwrite_default::<u8>, 2, 0, 2);
    test_strategy(merge2::any::overwrite_default::<u8>, 1, 1, 0);
    test_strategy(merge2::any::overwrite_default::<u8>, 0, 0, 0);
}

#[test]
fn test_any_swap() {
    test_strategy(merge2::any::swap::<u8>, 2, 1, 2);
    test_strategy(merge2::any::swap::<u8>, 2, 0, 2);
    test_strategy(merge2::any::swap::<u8>, 0, 1, 0);
    test_strategy(merge2::any::swap::<u8>, 0, 0, 0);
}

#[test]
fn test_option_overwrite_none() {
    test(Some(1u8), Some(1), Some(2));
    test(Some(2u8), None, Some(2));
    test(None::<u8>, None, None);
}

#[test]
fn test_option_recursive() {
    test_strategy(
        merge2::option::recursive::<Saturated>,
        Some(Saturated(3)),
        Some(Saturated(1)),
        Some(Saturated(2)),
    );
    test_strategy(
        merge2::option::recursive::<Saturated>,
        Some(Saturated(1)),
        Some(Saturated(1)),
        None,
    );
    test_strategy(
        merge2::option::recursive::<Saturated>,
        Some(Saturated(1)),
        None,
        Some(Saturated(1)),
    );
    test_strategy(merge2::option::recursive::<Saturated>, None, None, None);
}

#[test]
fn test_bool_overwrite_false() {
    test_strategy(merge2::bool::overwrite_false, false, false, false);
    test_strategy(merge2::bool::overwrite_false, true, false, true);
    test_strategy(merge2::bool::overwrite_false, true, true, false);
    test_strategy(merge2::bool::overwrite_false, true, true, true);
}

#[test]
fn test_bool_overwrite_true() {
    test_strategy(merge2::bool::overwrite_true, false, false, false);
    test_strategy(merge2::bool::overwrite_true, false, false, true);
    test_strategy(merge2::bool::overwrite_true, false, true, false);
    test_strategy(merge2::bool::overwrite_true, true, true, true);
}

#[test]
fn test_num_saturating_add() {
    test_strategy(merge2::num::saturating_add::<u8>, 0, 0, 0);
    test_strategy(merge2::num::saturating_add::<u8>, 1, 0, 1);
    test_strategy(merge2::num::saturating_add::<u8>, 255, 255, 10);
    test_strategy(merge2::num::saturating_add::<u8>, 40, 30, 10);
}

#[test]
fn test_ord_max() {
    test_strategy(merge2::ord::max_swap::<u8>, 2, 1, 2);
    test_strategy(merge2::ord::max_swap::<u8>, 2, 2, 1);
    test_strategy(merge2::ord::max_swap::<u8>, 2, 2, 2);
    test_strategy(merge2::ord::max_swap::<u8>, 2, 2, 0);
    test_strategy(merge2::ord::max_swap::<u8>, 2, 0, 2);
    test_strategy(merge2::ord::max_swap::<u8>, 33, 33, 11);
}

#[test]
fn test_ord_min() {
    test_strategy(merge2::ord::min_swap::<u8>, 1, 1, 2);
    test_strategy(merge2::ord::min_swap::<u8>, 1, 2, 1);
    test_strategy(merge2::ord::min_swap::<u8>, 2, 2, 2);
    test_strategy(merge2::ord::min_swap::<u8>, 0, 2, 0);
    test_strategy(merge2::ord::min_swap::<u8>, 0, 0, 2);
    test_strategy(merge2::ord::min_swap::<u8>, 11, 33, 11);
}

#[test]
fn test_string_overwrite_empty() {
    test("".to_owned(), "".to_owned(), "".to_owned());
    test("1".to_owned(), "".to_owned(), "1".to_owned());
    test("0".to_owned(), "0".to_owned(), "1".to_owned());
    test("255".to_owned(), "255".to_owned(), "10".to_owned());
}

#[test]
fn test_string_append() {
    test_strategy(merge2::string::append, "".to_owned(), "".to_owned(), "".to_owned());
    test_strategy(merge2::string::append, "1".to_owned(), "".to_owned(), "1".to_owned());
    test_strategy(merge2::string::append, "01".to_owned(), "0".to_owned(), "1".to_owned());
    test_strategy(merge2::string::append, "25510".to_owned(), "255".to_owned(), "10".to_owned());
    test_strategy(merge2::string::append, "01234".to_owned(), "012".to_owned(), "34".to_owned());
    test_strategy(merge2::string::append, "34012".to_owned(), "34".to_owned(), "012".to_owned());
}

#[test]
fn test_string_prepend() {
    test_strategy(merge2::string::prepend, "".to_owned(), "".to_owned(), "".to_owned());
    test_strategy(merge2::string::prepend, "1".to_owned(), "".to_owned(), "1".to_owned());
    test_strategy(merge2::string::prepend, "10".to_owned(), "0".to_owned(), "1".to_owned());
    test_strategy(merge2::string::prepend, "10255".to_owned(), "255".to_owned(), "10".to_owned());
    test_strategy(merge2::string::prepend, "34012".to_owned(), "012".to_owned(), "34".to_owned());
    test_strategy(merge2::string::prepend, "01234".to_owned(), "34".to_owned(), "012".to_owned());
}

#[test]
fn test_overwrite_empty() {
    test(vec![] as Vec<u8>, vec![], vec![]);
    test(vec![1u8], vec![], vec![1]);
    test(vec![0u8], vec![0], vec![1]);
    test(vec![255u8], vec![255], vec![10]);
}

#[test]
fn test_append() {
    test_strategy(merge2::vec::append::<u8>, vec![], vec![], vec![]);
    test_strategy(merge2::vec::append::<u8>, vec![1], vec![], vec![1]);
    test_strategy(merge2::vec::append::<u8>, vec![0, 1], vec![0], vec![1]);
    test_strategy(merge2::vec::append::<u8>, vec![255, 10], vec![255], vec![10]);
    test_strategy(merge2::vec::append::<u8>, vec![0, 1, 2, 3, 4], vec![0, 1, 2], vec![3, 4]);
    test_strategy(merge2::vec::append::<u8>, vec![3, 4, 0, 1, 2], vec![3, 4], vec![0, 1, 2]);
}

#[test]
fn test_prepend() {
    test_strategy(merge2::vec::prepend::<u8>, vec![], vec![], vec![]);
    test_strategy(merge2::vec::prepend::<u8>, vec![1], vec![], vec![1]);
    test_strategy(merge2::vec::prepend::<u8>, vec![1, 0], vec![0], vec![1]);
    test_strategy(merge2::vec::prepend::<u8>, vec![10, 255], vec![255], vec![10]);
    test_strategy(merge2::vec::prepend::<u8>, vec![3, 4, 0, 1, 2], vec![0, 1, 2], vec![3, 4]);
    test_strategy(merge2::vec::prepend::<u8>, vec![0, 1, 2, 3, 4], vec![3, 4], vec![0, 1, 2]);
}

#[test]
fn test_merge() {
    test_strategy(
        merge2::hashmap::merge::<u8, u8>,
        map_of(vec![(1, 1)]),
        map_of(vec![(1, 1)]),
        map_of(vec![(1, 2)]),
    );
    test_strategy(
        merge2::hashmap::merge::<u8, u8>,
        map_of(vec![(1, 2)]),
        map_of(vec![(1, 2)]),
        map_of(vec![(1, 1)]),
    );
    test_strategy(
        merge2::hashmap::merge::<u8, u8>,
        map_of(vec![(0, 1), (1, 2)]),
        map_of(vec![(0, 1)]),
        map_of(vec![(1, 2)]),
    );
}

#[test]
fn test_replace() {
    test_strategy(
        merge2::hashmap::replace::<u8, u8>,
        map_of(vec![(1, 2)]),
        map_of(vec![(1, 1)]),
        map_of(vec![(1, 2)]),
    );
    test_strategy(
        merge2::hashmap::replace::<u8, u8>,
        map_of(vec![(1, 1)]),
        map_of(vec![(1, 2)]),
        map_of(vec![(1, 1)]),
    );
    test_strategy(
        merge2::hashmap::replace::<u8, u8>,
        map_of(vec![(0, 1), (1, 2)]),
        map_of(vec![(0, 1)]),
        map_of(vec![(1, 2)]),
    );
}

#[test]
fn test_recursive() {
    test_strategy(
        merge2::hashmap::recursive::<u8, Saturated>,
        map_of(vec![(1, Saturated(3))]),
        map_of(vec![(1, Saturated(1))]),
        map_of(vec![(1, Saturated(2))]),
    );
    test_strategy(
        merge2::hashmap::recursive::<u8, Saturated>,
        map_of(vec![(1, Saturated(3))]),
        map_of(vec![(1, Saturated(2))]),
        map_of(vec![(1, Saturated(1))]),
    );
    test_strategy(
        merge2::hashmap::recursive::<u8, Saturated>,
        map_of(vec![(0, Saturated(1)), (1, Saturated(2))]),
        map_of(vec![(0, Saturated(1))]),
        map_of(vec![(1, Saturated(2))]),
    );
}

#[test]
fn test_intersection() {
    test_strategy(
        merge2::hashmap::intersection::<u8, Saturated>,
        map_of(vec![(1, Saturated(3))]),
        map_of(vec![(1, Saturated(1))]),
        map_of(vec![(1, Saturated(2))]),
    );
    test_strategy(
        merge2::hashmap::intersection::<u8, Saturated>,
        map_of(vec![(1, Saturated(3))]),
        map_of(vec![(1, Saturated(2))]),
        map_of(vec![(1, Saturated(1))]),
    );
    test_strategy(
        merge2::hashmap::intersection::<u8, Saturated>,
        map_of(vec![(0, Saturated(1))]),
        map_of(vec![(0, Saturated(1))]),
        map_of(vec![(1, Saturated(2))]),
    );
}
