use rust_macios::foundation::{Array, MutableArray, NSMutableDictionary, NSNumber, NSString};

fn key(s: &str) -> NSString {
    NSString::from_str(s)
}

#[test]
fn test_insert_then_lookup() {
    let mut dict: NSMutableDictionary<NSString, NSNumber> = NSMutableDictionary::new();
    dict.insert(key("a"), NSNumber::from_u64(1));
    let got = dict.object_for_key(&key("a")).unwrap();
    assert_eq!(got.integer_value(), 1);
    assert_eq!(dict.count(), 1);
}

#[test]
fn test_insert_replaces() {
    let mut dict: NSMutableDictionary<NSString, NSNumber> = NSMutableDictionary::new();
    dict.insert(key("a"), NSNumber::from_u64(1));
    dict.insert(key("a"), NSNumber::from_u64(7));
    assert_eq!(dict.count(), 1);
    assert_eq!(dict.object_for_key(&key("a")).unwrap().integer_value(), 7);
}

#[test]
fn test_remove_object_for_key() {
    let mut dict: NSMutableDictionary<NSString, NSNumber> = NSMutableDictionary::new();
    dict.insert(key("a"), NSNumber::from_u64(1));
    dict.insert(key("b"), NSNumber::from_u64(2));
    dict.im_remove_object_for_key(key("a"));
    assert!(dict.object_for_key(&key("a")).is_none());
    assert!(!dict.contains_key(&key("a")));
    assert_eq!(dict.count(), 1);
    assert_eq!(dict.object_for_key(&key("b")).unwrap().integer_value(), 2);
}

#[test]
fn test_remove_all_objects() {
    let mut dict: NSMutableDictionary<NSString, NSNumber> = NSMutableDictionary::with_capacity(4);
    dict.insert(key("a"), NSNumber::from_u64(1));
    dict.insert(key("b"), NSNumber::from_u64(2));
    dict.im_remove_all_objects();
    assert_eq!(dict.count(), 0);
    assert!(dict.object_for_key(&key("a")).is_none());
}

#[test]
fn test_alternate_insertion_entry_points() {
    let mut dict: NSMutableDictionary<NSString, NSNumber> = NSMutableDictionary::default();
    dict.im_set_object_for_key(key("a"), NSNumber::from_u64(1));
    dict.im_set_object_forkeyed_superscript(key("b"), NSNumber::from_u64(2));
    dict.im_set_value_for_key(key("c"), NSNumber::from_u64(3));
    assert_eq!(dict.count(), 3);
    assert_eq!(dict.object_for_key(&key("b")).unwrap().integer_value(), 2);
    assert_eq!(dict.object_for_key(&key("c")).unwrap().integer_value(), 3);
}

#[test]
fn test_add_entries_from_dictionary() {
    let mut dict: NSMutableDictionary<NSString, NSNumber> = NSMutableDictionary::new();
    dict.insert(key("a"), NSNumber::from_u64(1));
    dict.insert(key("b"), NSNumber::from_u64(2));

    let mut other: NSMutableDictionary<NSString, NSNumber> = NSMutableDictionary::new();
    other.insert(key("b"), NSNumber::from_u64(20));
    other.insert(key("c"), NSNumber::from_u64(30));

    let mut merged = NSMutableDictionary::new();
    merged.im_set_dictionary(dict.into_dictionary());
    merged.im_add_entries_from_dictionary(other.into_dictionary());
    assert_eq!(merged.count(), 3);
    assert_eq!(merged.object_for_key(&key("a")).unwrap().integer_value(), 1);
    assert_eq!(merged.object_for_key(&key("b")).unwrap().integer_value(), 20);
    assert_eq!(merged.object_for_key(&key("c")).unwrap().integer_value(), 30);
}

#[test]
fn test_borrow_is_a_read_only_view() {
    let mut dict: NSMutableDictionary<NSString, NSNumber> = NSMutableDictionary::new();
    dict.insert(key("a"), NSNumber::from_u64(1));
    let view = dict.borrow();
    assert_eq!(view.count(), 1);
    assert!(view.contains_key(&key("a")));
    assert_eq!(view.object_for_key(&key("a")).unwrap().integer_value(), 1);
}

#[test]
fn test_remove_objects_for_keys() {
    let mut dict: NSMutableDictionary<NSString, NSNumber> = NSMutableDictionary::new();
    dict.insert(key("a"), NSNumber::from_u64(1));
    dict.insert(key("b"), NSNumber::from_u64(2));
    dict.insert(key("c"), NSNumber::from_u64(3));
    let mut doomed = MutableArray::new();
    doomed.add(key("a"));
    doomed.add(key("c"));
    doomed.add(key("missing"));
    dict.im_remove_objects_for_keys(&Array::from_mutable(doomed));
    assert_eq!(dict.count(), 1);
    assert!(dict.object_for_key(&key("b")).is_some());
    assert!(dict.object_for_key(&key("a")).is_none());
    assert!(dict.object_for_key(&key("c")).is_none());
}

#[test]
fn test_from_host_pairs() {
    let pairs: Vec<(&str, u64)> = vec![("a", 1), ("b", 2)];
    let dict: NSMutableDictionary<NSString, NSNumber> =
        NSMutableDictionary::from_host_pairs(&pairs);
    assert_eq!(dict.count(), 2);
    assert_eq!(dict.object_for_key(&key("a")).unwrap().integer_value(), 1);
    assert_eq!(dict.object_for_key(&key("b")).unwrap().integer_value(), 2);
}

#[test]
fn test_from_host_pairs_later_pair_wins() {
    let pairs: Vec<(&str, i64)> = vec![("a", 1), ("a", -2)];
    let dict: NSMutableDictionary<NSString, NSNumber> =
        NSMutableDictionary::from_host_pairs(&pairs);
    assert_eq!(dict.count(), 1);
    assert_eq!(dict.object_for_key(&key("a")).unwrap().integer_value(), -2);
}

#[test]
fn test_number_keys() {
    let pairs: Vec<(u64, &str)> = vec![(10, "ten"), (12, "twelve")];
    let dict: NSMutableDictionary<NSNumber, NSString> =
        NSMutableDictionary::from_host_pairs(&pairs);
    assert_eq!(dict.count(), 2);
    let got = dict.object_for_key(&NSNumber::from_u64(12)).unwrap();
    assert_eq!(got.as_str().unwrap(), "twelve");
}
