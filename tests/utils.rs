use pocket_web_backend::utils::{are_sets_equal, Error};

#[test]
fn test_are_sets_equal_same_elements() {
    let a = vec![1, 2, 3, 4];
    let b = vec![4, 3, 2, 1];
    assert!(are_sets_equal(&a, &b));
}

#[test]
fn test_are_sets_equal_different_elements() {
    let a = vec![1, 2, 3];
    let b = vec![1, 2, 4];
    assert!(!are_sets_equal(&a, &b));
}

#[test]
fn test_are_sets_equal_empty_sets() {
    let a: Vec<i32> = vec![];
    let b: Vec<i32> = vec![];
    assert!(are_sets_equal(&a, &b));
}

#[test]
fn test_are_sets_equal_duplicates() {
    let a = vec![1, 2, 2, 3];
    let b = vec![1, 2, 3];
    assert!(are_sets_equal(&a, &b));
}

#[test]
fn test_are_sets_equal_strings() {
    let a = vec!["hello", "world"];
    let b = vec!["world", "hello"];
    assert!(are_sets_equal(&a, &b));
}

#[test]
fn are_sets_equal_subset_is_not_equal() {
    assert!(!are_sets_equal(&[1, 2], &[1, 2, 3]));
    assert!(!are_sets_equal(&[1, 2, 3], &[1, 2]));
}

#[test]
fn test_error_display() {
    let error = Error::Undefine;
    assert_eq!(error.to_string(), "Undefine");

    let error = Error::Msg("Custom error message".to_string());
    assert_eq!(error.to_string(), "Custom error message");
}

#[test]
fn test_error_description() {
    let error = Error::Undefine;
    assert_eq!(error.to_string(), "Undefine");

    let error = Error::Msg("Custom message".to_string());
    assert_eq!(error.to_string(), "Custom message");
}

#[test]
fn error_description_texts() {
    assert_eq!(Error::Undefine.description(), "UndefineError");
    assert_eq!(Error::Msg("m".to_string()).description(), "m");
}

#[test]
fn test_error_equality() {
    assert_eq!(Error::Undefine, Error::Undefine);
    assert_eq!(Error::Msg("test".to_string()), Error::Msg("test".to_string()));
    assert_ne!(Error::Undefine, Error::Msg("test".to_string()));
}
