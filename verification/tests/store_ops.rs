use std::collections::VecDeque;

use spreadsheet::Spreadsheet;

fn rows_of<R: Clone>(s: &Spreadsheet<R>) -> Vec<R> {
    s.iter().cloned().collect()
}

#[test]
fn construction_from_rows_defaults() {
    let s = Spreadsheet::from_rows(VecDeque::from(vec!['A', 'B', 'C']));
    assert_eq!(s.len(), 3);
    assert!(!s.is_dirty());
    assert!(!s.has_cache());
    assert_eq!(rows_of(&s), vec!['A', 'B', 'C']);
}

#[test]
fn new_store_is_empty() {
    let s = Spreadsheet::<u64>::new();
    assert!(s.is_empty());
    assert_eq!(s.len(), 0);
    assert!(!s.is_dirty());
    assert!(!s.has_cache());
}

#[test]
fn default_store_is_empty() {
    let s = Spreadsheet::<u64>::default();
    assert!(s.is_empty());
    assert!(!s.is_dirty());
    assert!(!s.has_cache());
}

#[test]
fn retain_removes_rows_in_order() {
    let mut s = Spreadsheet::from_rows(VecDeque::from(vec!['A', 'B', 'C', 'D', 'E']));
    s.retain(|row: &char| *row != 'C');
    assert_eq!(rows_of(&s), vec!['A', 'B', 'D', 'E']);
    assert!(!s.has_cache());
}

#[test]
fn retain_keeping_all_preserves_cache() {
    let mut s = Spreadsheet::from_rows(VecDeque::from(vec!['A', 'B']));
    s.build_cache();
    assert!(s.has_cache());
    s.retain(|_row: &char| true);
    assert_eq!(rows_of(&s), vec!['A', 'B']);
    assert!(s.has_cache());
}

#[test]
fn retain_removing_a_row_discards_cache() {
    let mut s = Spreadsheet::from_rows(VecDeque::from(vec!['A', 'B']));
    s.build_cache();
    s.retain(|row: &char| *row != 'A');
    assert_eq!(rows_of(&s), vec!['B']);
    assert!(!s.has_cache());
}

#[test]
fn retain_on_empty_store() {
    let mut s = Spreadsheet::<char>::new();
    s.build_cache();
    s.retain(|_row: &char| false);
    assert!(s.is_empty());
    assert!(s.has_cache());
}

#[test]
fn extend_appends_in_order_and_discards_cache() {
    let mut s = Spreadsheet::from_rows(VecDeque::from(vec!['A', 'B']));
    s.build_cache();
    s.extend(VecDeque::from(vec!['C', 'D']));
    assert_eq!(rows_of(&s), vec!['A', 'B', 'C', 'D']);
    assert!(!s.has_cache());
}

#[test]
fn extend_with_empty_input_still_discards_cache() {
    let mut s = Spreadsheet::from_rows(VecDeque::from(vec!['A']));
    s.build_cache();
    s.extend(VecDeque::new());
    assert_eq!(rows_of(&s), vec!['A']);
    assert!(!s.has_cache());
}

#[test]
fn take_on_empty_store() {
    let mut s = Spreadsheet::<u64>::new();
    let out = s.take();
    assert!(out.is_empty());
    assert!(s.is_empty());
}

#[test]
fn take_returns_rows_and_empties_store() {
    let mut s = Spreadsheet::from_rows(VecDeque::from(vec![1u64, 2, 3]));
    let out = s.take();
    assert_eq!(Vec::from(out), vec![1u64, 2, 3]);
    assert!(s.is_empty());
    assert_eq!(s.len(), 0);
}

#[test]
fn replace_swaps_rows() {
    let mut s = Spreadsheet::from_rows(VecDeque::from(vec![1u64, 2, 3]));
    let old = s.replace(VecDeque::from(vec![9u64, 9]));
    assert_eq!(Vec::from(old), vec![1u64, 2, 3]);
    assert_eq!(rows_of(&s), vec![9u64, 9]);
    assert_eq!(s.len(), 2);
}

#[test]
fn take_then_replace_is_observe_then_set() {
    let mut s = Spreadsheet::from_rows(VecDeque::from(vec![1u64, 2]));
    let observed = s.take();
    assert_eq!(Vec::from(observed.clone()), vec![1u64, 2]);
    assert!(s.is_empty());
    let in_between = s.replace(VecDeque::from(vec![5u64]));
    assert!(in_between.is_empty());
    assert_eq!(rows_of(&s), vec![5u64]);
}

#[test]
fn take_and_replace_leave_cache_and_dirty_flag_alone() {
    let mut s = Spreadsheet::from_rows(VecDeque::from(vec![1u64, 2]));
    s.build_cache();
    s.mark_dirty();
    let _ = s.take();
    assert!(s.has_cache());
    assert!(s.is_dirty());
    let _ = s.replace(VecDeque::from(vec![7u64]));
    assert!(s.has_cache());
    assert!(s.is_dirty());
}

#[test]
fn clear_dirty_flag_is_idempotent() {
    let mut s = Spreadsheet::from_rows(VecDeque::from(vec![1u64]));
    s.mark_dirty();
    assert!(s.is_dirty());
    s.clear_dirty_flag();
    let once = (s.is_dirty(), s.has_cache(), rows_of(&s));
    s.clear_dirty_flag();
    let twice = (s.is_dirty(), s.has_cache(), rows_of(&s));
    assert_eq!(once, twice);
    assert!(!s.is_dirty());
}

#[test]
fn dirty_flag_and_cache_are_independent() {
    let mut s = Spreadsheet::from_rows(VecDeque::from(vec![1u64, 2]));
    s.build_cache();
    s.mark_dirty();
    s.clear_dirty_flag();
    assert!(s.has_cache());
    s.mark_dirty();
    s.extend(VecDeque::from(vec![3u64]));
    assert!(!s.has_cache());
    assert!(s.is_dirty());
}

#[test]
fn user_modification_lifecycle() {
    let mut s = Spreadsheet::from_rows(VecDeque::from(vec![1u64]));
    assert!(!s.has_user_modification());
    s.mark_user_modification();
    assert!(!s.has_user_modification());
    s.clear_user_modification_flag();
    assert!(!s.has_cache());

    s.build_cache();
    assert!(!s.has_user_modification());
    s.mark_user_modification();
    assert!(s.has_user_modification());
    s.clear_user_modification_flag();
    assert!(!s.has_user_modification());
    assert!(s.has_cache());
}

#[test]
fn build_cache_keeps_existing_cache_state() {
    let mut s = Spreadsheet::from_rows(VecDeque::from(vec![1u64]));
    s.build_cache();
    s.mark_user_modification();
    s.build_cache();
    assert!(s.has_user_modification());
}

#[test]
fn length_tracks_operation_sequences() {
    let mut s = Spreadsheet::from_rows(VecDeque::from(vec![1u64, 2, 3]));
    assert_eq!(s.len(), 3);
    s.extend(VecDeque::from(vec![4u64, 5]));
    assert_eq!(s.len(), 5);
    s.retain(|row: &u64| row % 2 == 0);
    assert_eq!(s.len(), 2);
    assert_eq!(rows_of(&s), vec![2u64, 4]);
    let _ = s.take();
    assert_eq!(s.len(), 0);
    let _ = s.replace(VecDeque::from(vec![7u64]));
    assert_eq!(s.len(), 1);
    s.clear_dirty_flag();
    assert_eq!(s.len(), 1);
}
