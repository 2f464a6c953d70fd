use crunchy_cli_core::text::{same_text, split_once, split_single, starts_with};

#[test]
fn starts_with_finds_a_prefix() {
    assert!(starts_with("invalid_grant: expired", "invalid_grant"));
    assert!(starts_with("abc", ""));
    assert!(starts_with("abc", "abc"));
    assert!(!starts_with("ab", "abc"));
    assert!(!starts_with("xabc", "abc"));
    assert!(starts_with("äöü", "äö"));
}

#[test]
fn same_text_compares_all_characters() {
    assert!(same_text("etp_rt", "etp_rt"));
    assert!(!same_text("etp_rt", "etp_r"));
    assert!(!same_text("etp_rt", "etp_rx"));
    assert!(same_text("", ""));
}

#[test]
fn split_once_splits_at_the_first_separator() {
    assert_eq!(split_once("a:b:c", ':'), Some(("a", "b:c")));
    assert_eq!(split_once(":b", ':'), Some(("", "b")));
    assert_eq!(split_once("a:", ':'), Some(("a", "")));
    assert_eq!(split_once("abc", ':'), None);
    assert_eq!(split_once("", ':'), None);
    assert_eq!(split_once("ä:ö", ':'), Some(("ä", "ö")));
}

#[test]
fn split_single_wants_exactly_one_separator() {
    assert_eq!(split_single("a:b", ':'), Some(("a", "b")));
    assert_eq!(split_single(":", ':'), Some(("", "")));
    assert_eq!(split_single("a:b:c", ':'), None);
    assert_eq!(split_single("abc", ':'), None);
}
