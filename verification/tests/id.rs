use std::collections::HashSet;
use upl_microservice::id::{calculate_check, calculate_check_from_vec, is_valid, UplId};

#[test]
fn test_calculate_check_from_vec() {
    assert_eq!(calculate_check_from_vec(vec![0]), (9, 0));
    assert_eq!(calculate_check_from_vec(vec![1]), (1, 9));
    assert_eq!(calculate_check_from_vec(vec![2]), (2, 8));
    assert_eq!(calculate_check_from_vec(vec![3]), (3, 7));
    assert_eq!(calculate_check_from_vec(vec![4]), (4, 6));
    assert_eq!(calculate_check_from_vec(vec![5]), (5, 5));
    assert_eq!(calculate_check_from_vec(vec![6]), (6, 4));
    assert_eq!(calculate_check_from_vec(vec![7]), (7, 3));
    assert_eq!(calculate_check_from_vec(vec![8]), (8, 2));
    assert_eq!(calculate_check_from_vec(vec![9]), (9, 1));
    assert_eq!(calculate_check_from_vec(vec![4, 5]), (3, 7));
}

#[test]
fn test_calculate_check() {
    assert_eq!(calculate_check(0), (9, 0));
    assert_eq!(calculate_check(1), (1, 9));
    assert_eq!(calculate_check(459), (1, 9));
    assert_eq!(calculate_check(311), (2, 8));
}

#[test]
fn test_new() {
    assert_eq!(UplId::new(0), 900);
    assert_eq!(UplId::new(1), 119);
    assert_eq!(UplId::new(2), 228);
    assert_eq!(UplId::new(3), 337);
    assert_eq!(UplId::new(4), 446);
    assert_eq!(UplId::new(5), 555);
    assert_eq!(UplId::new(9), 991);
    assert_eq!(UplId::new(10), 2108);
    assert_eq!(UplId::new(49), 7493);
    assert_eq!(UplId::new(99), 7993);
    assert_eq!(UplId::new(1758), 317587);
}

#[test]
fn test_validation() {
    assert_eq!(is_valid(119), true);
    assert_eq!(is_valid(218), false);
    assert_eq!(is_valid(199), false);
    assert_eq!(is_valid(2108), true);
    assert_eq!(is_valid(7993), true);
    assert_eq!(is_valid(6994), false);
    assert_eq!(is_valid(92349671), true);
    assert_eq!(is_valid(82349672), false);
    assert_eq!(is_valid(900), true);
    assert_eq!(is_valid(7493), true);
}

#[test]
fn test_uniqueness() {
    let mut num_vec: HashSet<u32> = HashSet::new();
    let mut _num_vec: Vec<u32> = Vec::new();
    for n in 0..100_000 {
        _num_vec.push(n);
    }
    let res = _num_vec.iter().all(move |i| num_vec.insert(*i));
    assert_eq!(res, true);
}

#[test]
fn new_ids_validate_below_one_hundred_thousand() {
    for n in 0..100_000u32 {
        assert!(is_valid(UplId::new(n)), "base {}", n);
    }
}

#[test]
fn new_ids_are_distinct_below_fifty_thousand() {
    let mut seen: HashSet<u32> = HashSet::new();
    for n in 0..50_000u32 {
        assert!(seen.insert(UplId::new(n)), "base {}", n);
    }
    assert_eq!(seen.len(), 50_000);
}

#[test]
fn new_is_zero_where_the_id_does_not_fit() {
    // 9 digits and two check digits need eleven digits.
    assert_eq!(UplId::new(123_456_789), 0);
    assert_eq!(UplId::new(u32::MAX), 0);
    assert!(!is_valid(0));
    assert_eq!(UplId::new(10_000_000), 0);
    // Eight digits give ten: this one still fits.
    assert_eq!(UplId::new(29_496_727), 4_294_967_276);
    assert!(is_valid(4_294_967_276));
}

#[test]
fn validation_edge_cases() {
    // One digit has no room for two check digits.
    for n in 0..10u32 {
        assert!(!is_valid(n));
    }
    // Two digits frame the empty base, whose check digits are 9 and 0.
    assert!(is_valid(90));
    assert!(!is_valid(19));
    // The check of the empty sequence and of a longer one.
    assert_eq!(calculate_check_from_vec(vec![]), (9, 0));
    assert_eq!(calculate_check_from_vec(vec![1, 7, 5, 8]), (3, 7));
    // Entries that are no digits count by their full value.
    assert_eq!(calculate_check_from_vec(vec![4_000_000_000, 13]), (3, 7));
}

#[test]
fn upl_id_wraps_a_number() {
    let id = UplId(UplId::new(49));
    assert_eq!(*id, 7493);
    assert_eq!(id.0, 7493);
    assert_eq!(*UplId::default(), 0);
    let copy = id;
    assert_eq!(*copy, *id);
}
