use lychee_lib::{AcceptRange, AcceptRangeError, AcceptSelector, AcceptSelectorError, StatusCodeExcluder, StatusCodeSelector, StatusCodeSelectorError};

#[test]
fn accept_ranges_parse() {
    assert_eq!(*AcceptRange::from_str("200").unwrap().start(), 200);
    let r = AcceptRange::from_str("100..=200").unwrap();
    assert_eq!((*r.start(), *r.end()), (100, 200));
    let r = AcceptRange::from_str("..300").unwrap();
    assert_eq!((*r.start(), *r.end()), (0, 299));
    assert!(AcceptRange::from_str("300..200").is_err());
    assert!(AcceptRange::from_str("abc").is_err());
    assert!(AcceptRange::from_str("1000").is_err());
    assert_eq!(AcceptRange::from_str("200..=100"), Err(AcceptRangeError::InvalidRangeIndices));
}

#[test]
fn accept_selector_parse_and_contains() {
    let s = AcceptSelector::from_str("100..=150,200..=299").unwrap();
    assert!(s.contains(120));
    assert!(s.contains(299));
    assert!(!s.contains(300));
    assert_eq!(s.to_string(), "[100..=150,200..=299]");
    let mut s = AcceptSelector::new();
    s.add_range(AcceptRange::new(200, 204));
    assert_eq!(s.len(), 1);
}

#[test]
fn status_code_selectors() {
    let s = StatusCodeSelector::from_str("200..=204, 429").unwrap();
    assert!(s.contains(429));
    assert!(!s.contains(205));
    assert_eq!(StatusCodeSelector::from_str("  "), Err(StatusCodeSelectorError::InvalidInput));
    let e = StatusCodeExcluder::from_str("").unwrap();
    assert_eq!(e.len(), 0);
    let e = StatusCodeExcluder::from_str("500..=599").unwrap();
    assert!(e.contains(503));
}

#[test]
fn adding_an_overlapping_range_accepts_both() {
    let mut selector = AcceptSelector::new();
    selector.add_range(AcceptRange::new(150, 200));
    selector.add_range(AcceptRange::new(100, 300));
    assert!(selector.contains(100));
    assert!(selector.contains(175));
    assert!(selector.contains(300));
    assert!(!selector.contains(301));
    assert_eq!(selector.len(), 1);
}

#[test]
fn empty_exclusive_range_is_invalid() {
    assert_eq!(AcceptRange::from_str("100..000"), Err(AcceptRangeError::InvalidRangeIndices));
    assert_eq!(AcceptRange::from_str("..000"), Err(AcceptRangeError::InvalidRangeIndices));
    assert_eq!(
        AcceptSelector::from_str("200..=299, ..000"),
        Err(AcceptSelectorError::AcceptRangeError(AcceptRangeError::InvalidRangeIndices))
    );
}
