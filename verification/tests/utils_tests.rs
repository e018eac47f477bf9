use launcher_inventory::utils::extend_once;
use launcher_inventory::utils::file_matches_expectation;
use launcher_inventory::utils::vec_to_string;

#[test]
fn joins_with_single_character_separator() {
    let v = vec!["a".to_string(), "b".to_string(), "c".to_string()];
    assert_eq!(vec_to_string(v, ",".to_string()), "a,b,c");
}

#[test]
fn join_of_one_part_has_no_separator() {
    let v = vec!["alone".to_string()];
    assert_eq!(vec_to_string(v, "/".to_string()), "alone");
}

#[test]
fn join_drops_one_character_of_a_long_separator() {
    // The separator is appended after every part and only the very last
    // character is dropped, so all but one character of the final separator
    // remain.
    let v = vec!["x".to_string(), "y".to_string()];
    assert_eq!(vec_to_string(v, ", ".to_string()), "x, y,");
}

#[test]
fn join_keeps_empty_parts() {
    let v = vec!["".to_string(), "b".to_string()];
    assert_eq!(vec_to_string(v, "-".to_string()), "-b");
}

#[test]
fn extend_once_skips_elements_already_present() {
    let merged = extend_once(vec![1, 2, 3], vec![2, 3, 4]);
    assert_eq!(merged, vec![1, 2, 3, 4]);
}

#[test]
fn extend_once_keeps_left_duplicates() {
    let merged = extend_once(vec![1, 1], vec![1, 2]);
    assert_eq!(merged, vec![1, 1, 2]);
}

#[test]
fn extend_once_deduplicates_within_the_right_list() {
    let merged = extend_once(Vec::<u32>::new(), vec![5, 5, 6]);
    assert_eq!(merged, vec![5, 6]);
}

#[test]
fn extend_once_on_strings() {
    let merged = extend_once(
        vec!["1.20".to_string()],
        vec!["1.20".to_string(), "1.19".to_string()],
    );
    assert_eq!(merged, vec!["1.20".to_string(), "1.19".to_string()]);
}

#[test]
fn missing_file_never_matches() {
    assert!(!file_matches_expectation(false, 0, 0));
    assert!(!file_matches_expectation(false, 10, 10));
}

#[test]
fn zero_expected_size_skips_the_size_check() {
    assert!(file_matches_expectation(true, 12345, 0));
}

#[test]
fn non_zero_expected_size_must_match_exactly() {
    assert!(file_matches_expectation(true, 42, 42));
    assert!(!file_matches_expectation(true, 41, 42));
}
