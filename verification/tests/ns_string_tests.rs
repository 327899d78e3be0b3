use rust_macios::foundation::{ComparisonResult, Encoding, NSString};

#[test]
fn test_from_str() {
    let s = NSString::from_str("Hello, World!");
    assert_eq!(s.as_str().unwrap(), "Hello, World!");
}

#[test]
fn test_from_no_cpy_str() {
    let s = NSString::init_with_no_copy_str("Hello, World!");
    assert_eq!(s.as_str().unwrap(), "Hello, World!");
}

#[test]
fn test_bytes() {
    let s = NSString::from_str("Hello, World!");
    let other = s.bytes();
    assert_eq!(s.bytes(), other);
}

#[test]
fn test_bytes_len() {
    let s = NSString::from_str("Hello, World!");
    assert_eq!(s.length_of_bytes_using_encoding(Encoding::UTF8), 13);
}

#[test]
fn test_as_str() {
    let s = NSString::from_str("Hello, World!");
    assert_eq!(s.as_str().unwrap(), "Hello, World!");
}

#[test]
fn test_to_string() {
    let s = NSString::from_str("Hello, World!");
    assert_eq!(s.as_str().unwrap(), "Hello, World!".to_string());
}

#[test]
fn test_length() {
    let s = NSString::from_str("Hello, World!");
    assert_eq!(s.length(), 13);
}

#[test]
fn test_contains() {
    let s = NSString::from_str("Hello, World!");
    assert!(s.contains(&NSString::from_str("Hello")));
    assert!(!s.contains(&NSString::from_str("Goodbye")));
}

#[test]
fn test_character_at() {
    let s = NSString::from_str("Hello, World!");
    assert_eq!(s.character_at_index(0), 'H');
    assert_eq!(s.character_at_index(1), 'e');
    assert_eq!(s.character_at_index(2), 'l');
    assert_eq!(s.character_at_index(3), 'l');
    assert_eq!(s.character_at_index(4), 'o');
    assert_eq!(s.character_at_index(5), ',');
    assert_eq!(s.character_at_index(6), ' ');
    assert_eq!(s.character_at_index(7), 'W');
    assert_eq!(s.character_at_index(8), 'o');
    assert_eq!(s.character_at_index(9), 'r');
    assert_eq!(s.character_at_index(10), 'l');
    assert_eq!(s.character_at_index(11), 'd');
    assert_eq!(s.character_at_index(12), '!');
}

#[test]
fn test_has_prefix() {
    let s = NSString::from_str("Hello, World!");
    assert!(s.has_prefix(&NSString::from_str("Hello")));
    assert!(!s.has_prefix(&NSString::from_str("Goodbye")));
}

#[test]
fn test_has_suffix() {
    let s = NSString::from_str("Hello, World!");
    assert!(s.has_suffix(&NSString::from_str("World!")));
    assert!(!s.has_suffix(&NSString::from_str("Goodbye")));
}

#[test]
fn test_is_equal_to() {
    let s = NSString::from_str("Hello, World!");
    assert!(s.is_equal_to(&NSString::from_str("Hello, World!")));
    assert!(!s.is_equal_to(&NSString::from_str("Goodbye, World!")));
}

#[test]
fn test_length_of_bytes() {
    let s = NSString::from_str("Hello, World!");
    assert_eq!(s.length_of_bytes_using_encoding(Encoding::UTF8), 13);
}

#[test]
fn test_maximum_length_of_bytes() {
    let s = NSString::from_str("Hello, World!");
    assert_eq!(s.maximum_length_of_bytes_using_encoding(Encoding::UTF8), 39);
}

#[test]
fn test_case_insensitive_compare() {
    let s = NSString::from_str("Hello, World!");
    assert_eq!(
        s.case_insensitive_compare(&NSString::from_str("hello, world!")),
        ComparisonResult::OrderedSame
    );
    assert_eq!(
        s.case_insensitive_compare(&NSString::from_str("goodbye, world!")),
        ComparisonResult::OrderedDescending
    );
}

#[test]
fn test_localized_case_insensitive_compare() {
    let s = NSString::from_str("Hello, World!");
    assert_eq!(
        s.localized_case_insensitive_compare(&NSString::from_str("hello, world!")),
        ComparisonResult::OrderedSame
    );
    assert_eq!(
        s.localized_case_insensitive_compare(&NSString::from_str("goodbye, world!")),
        ComparisonResult::OrderedDescending
    );
}

#[test]
fn test_compare() {
    let s = NSString::from_str("Hello, World!");
    assert_eq!(
        s.compare(&NSString::from_str("Hello, World!")),
        ComparisonResult::OrderedSame
    );
    assert_eq!(
        s.compare(&NSString::from_str("Goodbye, World!")),
        ComparisonResult::OrderedDescending
    );
}

#[test]
fn test_localized_standard_compare() {
    let s = NSString::from_str("Hello, World!");
    assert_eq!(
        s.localized_standard_compare(&NSString::from_str("Hello, World!")),
        ComparisonResult::OrderedSame
    );
    assert_eq!(
        s.localized_standard_compare(&NSString::from_str("Goodbye, World!")),
        ComparisonResult::OrderedDescending
    );
}
