use rust_macios::foundation::{NSNumber, NSString};
use rust_macios::runtime::{PNSObject, Protocol, Selector};

#[test]
fn test_constructors_box_the_value() {
    assert_eq!(NSNumber::from_u8(200).integer_value(), 200);
    assert_eq!(NSNumber::from_u16(60_000).integer_value(), 60_000);
    assert_eq!(NSNumber::from_u32(4_000_000_000).integer_value(), 4_000_000_000);
    assert_eq!(NSNumber::from_u64(12345).integer_value(), 12345);
    assert_eq!(NSNumber::from_usize(7).integer_value(), 7);
    assert_eq!(NSNumber::from_i8(-8).integer_value(), -8);
    assert_eq!(NSNumber::from_i16(-1600).integer_value(), -1600);
    assert_eq!(NSNumber::from_i32(-32).integer_value(), -32);
    assert_eq!(NSNumber::from_i64(i64::MIN).integer_value(), i64::MIN);
    assert_eq!(NSNumber::from_isize(-1).integer_value(), -1);
}

#[test]
fn test_unsigned_integer_value() {
    assert_eq!(NSNumber::from_u64(u64::MAX).unsigned_integer_value(), u64::MAX);
    assert_eq!(NSNumber::from_u8(0).unsigned_integer_value(), 0);
}

#[test]
fn test_equal_numbers_hash_equal() {
    let a = NSNumber::from_i64(41);
    let b = NSNumber::from_u8(41);
    assert!(a.is_equal(&b));
    assert_eq!(a.hash_value(), b.hash_value());
    let c = NSNumber::from_i64(-41);
    assert!(!a.is_equal(&c));
}

#[test]
fn test_equal_strings_hash_equal() {
    let a = NSString::from_str("Hello, World!");
    let b = NSString::from_str("Hello, World!");
    assert!(a.is_equal(&b));
    assert_eq!(a.hash_value(), b.hash_value());
}

#[test]
fn test_number_description() {
    assert_eq!(
        PNSObject::description(&NSNumber::from_u64(0)).as_str().unwrap(),
        "0"
    );
    assert_eq!(
        PNSObject::description(&NSNumber::from_u64(12345)).as_str().unwrap(),
        "12345"
    );
    assert_eq!(
        PNSObject::description(&NSNumber::from_i64(-5)).as_str().unwrap(),
        "-5"
    );
}

#[test]
fn test_capability_queries() {
    let n = NSNumber::from_u64(1);
    assert!(n.responds_to(Selector::IsEqual));
    assert!(n.responds_to(Selector::Hash));
    assert!(!n.responds_to(Selector::Count));
    assert!(n.conforms_to(Protocol::Copying));
    assert!(!n.conforms_to(Protocol::FastEnumeration));
    let s = NSString::from_str("x");
    assert!(s.responds_to(Selector::Length));
    assert!(!s.responds_to(Selector::AddObject));
    assert!(s.conforms_to(Protocol::ObjectProtocol));
}
