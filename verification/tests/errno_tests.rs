use std::collections::HashSet;

use wasi_shim::{describe, ShimError, WasiError};

#[test]
fn describe_zero_is_success() {
    assert_eq!(describe(0), Ok("Success"));
}

#[test]
fn describe_known_codes() {
    assert_eq!(describe(1), Ok("Argument list too long."));
    assert_eq!(describe(8), Ok("Bad file descriptor."));
    assert_eq!(describe(20), Ok("File exists."));
    assert_eq!(describe(44), Ok("No such file or directory."));
    assert_eq!(describe(76), Ok("Extension: Capabilities insufficient."));
}

#[test]
fn describe_all_codes_nonempty_and_distinct() {
    let mut seen: HashSet<String> = HashSet::new();
    for code in 1..=76 {
        let msg = describe(code).unwrap();
        assert!(!msg.is_empty(), "code {} has an empty description", code);
        assert!(seen.insert(msg.to_string()), "code {} repeats {:?}", code, msg);
    }
    assert_eq!(seen.len(), 76);
}

#[test]
fn describe_out_of_range_is_internal_error() {
    assert_eq!(describe(77), Err(ShimError::Internal(77)));
    assert_eq!(describe(-1), Err(ShimError::Internal(-1)));
    assert_eq!(describe(1000), Err(ShimError::Internal(1000)));
    assert_eq!(describe(i32::MIN), Err(ShimError::Internal(i32::MIN)));
}

#[test]
fn from_code_covers_exactly_the_range() {
    for code in 1..=76 {
        let e = WasiError::from_code(code).expect("code in range");
        assert_eq!(e.code(), code);
    }
    assert!(WasiError::from_code(0).is_none());
    assert!(WasiError::from_code(77).is_none());
    assert!(WasiError::from_code(-5).is_none());
}

#[test]
fn messages_match_table_entries() {
    assert_eq!(WasiError::from_code(44).unwrap().message(), "No such file or directory.");
    assert_eq!(WasiError::from_code(2).unwrap().message(), "Permission denied.");
    assert_eq!(WasiError::from_code(31).unwrap().message(), "Is a directory.");
    assert_eq!(WasiError::from_code(63).unwrap().message(), "Operation not permitted.");
}
