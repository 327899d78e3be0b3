use rust_macios::foundation::ns_string::CompareOptions;
use rust_macios::foundation::{ComparisonResult, Encoding, EncodingError, NSString};

#[test]
fn test_empty_round_trip() {
    let s = NSString::from_str("");
    assert_eq!(s.length(), 0);
    assert_eq!(s.as_str().unwrap(), "");
}

#[test]
fn test_supplementary_plane_round_trip() {
    let text = "a\u{1F600}b";
    let s = NSString::from_str(text);
    assert_eq!(s.length(), 4);
    assert_eq!(s.as_str().unwrap(), text);
}

#[test]
fn test_unpaired_surrogate_is_an_encoding_error() {
    let s = NSString::init_with_characters(vec![0x0048, 0xD800, 0x0049]);
    assert_eq!(s.length(), 3);
    assert_eq!(s.as_str(), Err(EncodingError));
    assert_eq!(s.bytes(), Err(EncodingError));
    assert_eq!(s.length_of_bytes_using_encoding(Encoding::UTF8), 0);
}

#[test]
fn test_init_with_characters_round_trip() {
    let s = NSString::init_with_characters(vec![0x0048, 0x0069]);
    assert_eq!(s.as_str().unwrap(), "Hi");
    assert_eq!(s.character_at_index(1), 'i');
}

#[test]
fn test_init_with_bytes_utf8() {
    let good = NSString::init_with_bytes(b"Hi!", Encoding::UTF8).unwrap();
    assert_eq!(good.as_str().unwrap(), "Hi!");
    assert!(NSString::init_with_bytes(&[0xFF, 0xFE], Encoding::UTF8).is_none());
}

#[test]
fn test_init_with_bytes_ascii() {
    let good = NSString::init_with_bytes(b"Hi!", Encoding::ASCII).unwrap();
    assert_eq!(good.as_str().unwrap(), "Hi!");
    assert!(NSString::init_with_bytes(&[0x48, 0x80], Encoding::ASCII).is_none());
}

#[test]
fn test_init_with_bytes_utf16() {
    let good = NSString::init_with_bytes(&[0x48, 0x00, 0x69, 0x00], Encoding::UTF16).unwrap();
    assert_eq!(good.as_str().unwrap(), "Hi");
    assert!(NSString::init_with_bytes(&[0x48, 0x00, 0x69], Encoding::UTF16).is_none());
}

#[test]
fn test_appending() {
    let s = NSString::from_str("Hello, ").appending(&NSString::from_str("World!"));
    assert_eq!(s.as_str().unwrap(), "Hello, World!");
}

#[test]
fn test_padding_truncates() {
    let s = NSString::from_str("Hello, World!");
    let cut = s.padding(5, &NSString::from_str("."), 0);
    assert_eq!(cut.as_str().unwrap(), "Hello");
}

#[test]
fn test_padding_cycles() {
    let s = NSString::from_str("abc");
    let padded = s.padding(9, &NSString::from_str("12"), 1);
    assert_eq!(padded.as_str().unwrap(), "abc212121");
}

#[test]
fn test_case_transforms() {
    let s = NSString::from_str("Hello, World!");
    assert_eq!(s.lowercased().as_str().unwrap(), "hello, world!");
    assert_eq!(s.uppercased().as_str().unwrap(), "HELLO, WORLD!");
    assert_eq!(s.localized_lowercase().as_str().unwrap(), "hello, world!");
    assert_eq!(s.localized_uppercase().as_str().unwrap(), "HELLO, WORLD!");
}

#[test]
fn test_capitalized() {
    let s = NSString::from_str("hello wORLD again");
    assert_eq!(s.capitalized().as_str().unwrap(), "Hello World Again");
    assert_eq!(s.localized_capitalized().as_str().unwrap(), "Hello World Again");
}

#[test]
fn test_compare_orders_prefixes_first() {
    let s = NSString::from_str("Hello");
    assert_eq!(
        s.compare(&NSString::from_str("Hello, World!")),
        ComparisonResult::OrderedAscending
    );
    assert_eq!(
        NSString::from_str("Hello, World!").compare(&s),
        ComparisonResult::OrderedDescending
    );
}

#[test]
fn test_empty_prefix_and_suffix() {
    let s = NSString::from_str("Hello");
    let empty = NSString::from_str("");
    assert!(s.has_prefix(&empty));
    assert!(s.has_suffix(&empty));
    assert!(s.contains(&empty));
}

#[test]
fn test_from_char() {
    let s = NSString::from_char('A');
    assert_eq!(s.length(), 1);
    assert_eq!(s.as_str().unwrap(), "A");
    let wide = NSString::from_char('\u{1F600}');
    assert_eq!(wide.length(), 2);
    assert_eq!(wide.as_str().unwrap(), "\u{1F600}");
}

#[test]
fn test_description_is_the_string() {
    let s = NSString::from_str("Hello");
    assert_eq!(s.description().as_str().unwrap(), "Hello");
    assert_eq!(s.debug_description().as_str().unwrap(), "Hello");
    assert_eq!(s.retained().as_str().unwrap(), "Hello");
}

#[test]
fn test_string_constructors_are_empty() {
    assert_eq!(NSString::new().length(), 0);
    assert_eq!(NSString::string().length(), 0);
    assert_eq!(NSString::init().length(), 0);
    assert_eq!(NSString::default().length(), 0);
    assert_eq!(NSString::init_with_str("xy").length(), 2);
}

#[test]
fn test_encoding_values() {
    assert_eq!(Encoding::ASCII.value(), 1);
    assert_eq!(Encoding::UTF8.value(), 4);
    assert_eq!(Encoding::UTF16.value(), 10);
    assert_eq!(ComparisonResult::OrderedAscending.value(), -1);
    assert_eq!(ComparisonResult::OrderedSame.value(), 0);
    assert_eq!(ComparisonResult::OrderedDescending.value(), 1);
}

#[test]
fn test_length_of_bytes_other_encodings() {
    let s = NSString::from_str("Hi");
    assert_eq!(s.length_of_bytes_using_encoding(Encoding::ASCII), 2);
    assert_eq!(s.length_of_bytes_using_encoding(Encoding::UTF16), 4);
    let wide = NSString::from_str("\u{00E9}");
    assert_eq!(wide.length_of_bytes_using_encoding(Encoding::ASCII), 0);
    assert_eq!(wide.length_of_bytes_using_encoding(Encoding::UTF8), 2);
}

#[test]
fn test_compare_with_options() {
    let s = NSString::from_str("Hello");
    assert_eq!(
        s.compare_with_options(&NSString::from_str("hello"), CompareOptions::CaseInsensitive),
        ComparisonResult::OrderedSame
    );
    assert_eq!(
        s.compare_with_options(&NSString::from_str("hello"), CompareOptions::Literal),
        ComparisonResult::OrderedAscending
    );
    assert_eq!(CompareOptions::CaseInsensitive.value(), 1);
    assert_eq!(CompareOptions::Literal.value(), 2);
}

#[test]
fn test_compare_with_options_range() {
    let s = NSString::from_str("Hello, World!");
    assert_eq!(
        s.compare_with_options_range(&NSString::from_str("World"), CompareOptions::Literal, 7, 12),
        ComparisonResult::OrderedSame
    );
    assert_eq!(
        s.substring_with_range(7, 12).as_str().unwrap(),
        "World"
    );
}

#[test]
fn test_localized_compare() {
    let s = NSString::from_str("Hello");
    assert_eq!(
        s.localized_compare(&NSString::from_str("Hello")),
        ComparisonResult::OrderedSame
    );
    assert_eq!(
        s.localized_compare(&NSString::from_str("Zebra")),
        ComparisonResult::OrderedAscending
    );
}
