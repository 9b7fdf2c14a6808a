use release_util::{ReleaseError, decide_releasable, releasable_change_from_output};

#[test]
fn zero_matches_is_not_releasable() {
    assert!(matches!(releasable_change_from_output(b"[]"), Ok(None)));
}

#[test]
fn one_labeled_match_is_releasable_with_its_number() {
    let output = br#"[{"id": "abc", "number": 42, "labels": [{"name": "bug"}, {"name": "hra-release"}]}]"#;
    assert!(matches!(releasable_change_from_output(output), Ok(Some(42))));
}

#[test]
fn one_unlabeled_match_is_not_releasable() {
    let output = br#"[{"id": "abc", "number": 42, "labels": [{"name": "bug"}]}]"#;
    assert!(matches!(releasable_change_from_output(output), Ok(None)));
}

#[test]
fn ambiguous_matches_are_not_releasable() {
    let output = br#"[
        {"id": "abc", "number": 1, "labels": [{"name": "hra-release"}]},
        {"id": "def", "number": 2, "labels": [{"name": "hra-release"}]}
    ]"#;
    assert!(matches!(releasable_change_from_output(output), Ok(None)));
}

#[test]
fn empty_label_set_is_not_releasable() {
    let output = br#"[{"id": "abc", "number": 7, "labels": []}]"#;
    assert!(matches!(releasable_change_from_output(output), Ok(None)));
}

#[test]
fn malformed_forge_answers_are_parse_failures() {
    // Not JSON at all.
    assert_eq!(
        releasable_change_from_output(b"not json").unwrap_err(),
        ReleaseError::Parse
    );
    // A single match with no number field.
    let no_number = br#"[{"id": "abc", "labels": []}]"#;
    assert_eq!(
        releasable_change_from_output(no_number).unwrap_err(),
        ReleaseError::Parse
    );
    // A single match with no labels field.
    let no_labels = br#"[{"id": "abc", "number": 3}]"#;
    assert_eq!(
        releasable_change_from_output(no_labels).unwrap_err(),
        ReleaseError::Parse
    );
    // A label without a name.
    let bad_label = br#"[{"id": "abc", "number": 3, "labels": [{"color": "red"}]}]"#;
    assert_eq!(
        releasable_change_from_output(bad_label).unwrap_err(),
        ReleaseError::Parse
    );
    // A number that does not fit an unsigned 64-bit value.
    let bad_number = br#"[{"id": "abc", "number": -1, "labels": []}]"#;
    assert_eq!(
        releasable_change_from_output(bad_number).unwrap_err(),
        ReleaseError::Parse
    );
}

#[test]
fn decision_rule_on_plain_values() {
    let labeled = vec!["bug".to_string(), "hra-release".to_string()];
    let unlabeled = vec!["bug".to_string()];
    assert_eq!(decide_releasable(1, 9, &labeled), Some(9));
    assert_eq!(decide_releasable(1, 9, &unlabeled), None);
    assert_eq!(decide_releasable(0, 9, &labeled), None);
    assert_eq!(decide_releasable(2, 9, &labeled), None);
}
