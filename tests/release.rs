use string_release::owned::{NulError, OwnedByteString};
use string_release::release::{free_rust_string, release_decision, RawString, ReleaseOutcome};

#[test]
fn test_free_rust_string() {
    let original = OwnedByteString::new("Hello, Rust!".as_bytes().to_vec()).expect("CString::new failed");

    let ptr: RawString = original.into_raw();

    assert!(!ptr.is_null());

    assert_eq!(free_rust_string(ptr), ReleaseOutcome::Reclaimed);
}

#[test]
fn null_handle_release_is_ignored() {
    let ptr = RawString::null();
    assert!(ptr.is_null());
    assert_eq!(free_rust_string(ptr), ReleaseOutcome::Ignored);
}

#[test]
fn null_handle_release_repeated_is_ignored() {
    for _ in 0..3 {
        assert_eq!(free_rust_string(RawString::null()), ReleaseOutcome::Ignored);
    }
}

#[test]
fn handoff_of_strings_without_nul_is_reclaimed() {
    let inputs: Vec<Vec<u8>> = vec![
        vec![],
        vec![1u8],
        vec![255u8; 4096],
        (1u8..=255u8).collect(),
        "héllo".as_bytes().to_vec(),
    ];
    for bytes in inputs {
        let owned = OwnedByteString::new(bytes.clone()).expect("no nul in input");
        assert_eq!(owned.as_bytes(), &bytes[..]);
        assert_eq!(owned.len(), bytes.len());
        let handle = owned.into_raw();
        assert!(!handle.is_null());
        assert_eq!(free_rust_string(handle), ReleaseOutcome::Reclaimed);
    }
}

#[test]
fn empty_string_is_accepted() {
    let owned = OwnedByteString::new(Vec::new()).expect("empty input has no nul");
    assert_eq!(owned.len(), 0);
    assert!(owned.as_bytes().is_empty());
}

#[test]
fn new_reports_first_embedded_nul() {
    let r = OwnedByteString::new(b"ab\0c\0".to_vec());
    assert_eq!(r.err(), Some(NulError { position: 2 }));
}

#[test]
fn new_reports_leading_nul() {
    let r = OwnedByteString::new(vec![0u8]);
    assert_eq!(r.err(), Some(NulError { position: 0 }));
}

#[test]
fn new_reports_trailing_nul() {
    let r = OwnedByteString::new(b"Hello, Rust!\0".to_vec());
    assert_eq!(r.err(), Some(NulError { position: 12 }));
}

#[test]
fn decision_follows_nullness() {
    assert_eq!(release_decision(true), ReleaseOutcome::Ignored);
    assert_eq!(release_decision(false), ReleaseOutcome::Reclaimed);
}

#[test]
fn release_is_defined_on_both_kinds_of_handle() {
    let handed_out = OwnedByteString::new(vec![7u8, 8u8]).expect("no nul").into_raw();
    let handles = vec![RawString::null(), handed_out];
    let outcomes: Vec<ReleaseOutcome> = handles.into_iter().map(free_rust_string).collect();
    assert_eq!(outcomes, vec![ReleaseOutcome::Ignored, ReleaseOutcome::Reclaimed]);
}
