use rust_macios::foundation::{Array, MutableArray, NSNumber, NSString};

#[test]
fn test_add_then_object_at_last() {
    let mut arr: MutableArray<NSNumber> = MutableArray::new();
    arr.add(NSNumber::from_u64(5));
    arr.add(NSNumber::from_u64(9));
    let last = arr.object_at(arr.count() - 1);
    assert_eq!(last.integer_value(), 9);
}

#[test]
fn test_count_and_object_at() {
    let mut arr: MutableArray<NSString> = MutableArray::with_capacity(2);
    assert_eq!(arr.count(), 0);
    arr.add(NSString::from_str("a"));
    arr.add(NSString::from_str("b"));
    assert_eq!(arr.count(), 2);
    assert_eq!(arr.object_at(0).as_str().unwrap(), "a");
    assert_eq!(arr.object_at(1).as_str().unwrap(), "b");
}

#[test]
fn test_remove_at() {
    let mut arr: MutableArray<NSNumber> = MutableArray::new();
    arr.add(NSNumber::from_u64(1));
    arr.add(NSNumber::from_u64(2));
    arr.add(NSNumber::from_u64(3));
    let removed = arr.remove_at(1);
    assert_eq!(removed.integer_value(), 2);
    assert_eq!(arr.count(), 2);
    assert_eq!(arr.object_at(1).integer_value(), 3);
}

#[test]
fn test_remove_all() {
    let mut arr: MutableArray<NSNumber> = MutableArray::new();
    arr.add(NSNumber::from_u64(1));
    arr.remove_all();
    assert_eq!(arr.count(), 0);
}

#[test]
fn test_from_mutable_snapshot() {
    let mut arr: MutableArray<NSString> = MutableArray::new();
    arr.add(NSString::from_str("x"));
    arr.add(NSString::from_str("y"));
    let snap = Array::from_mutable(arr);
    assert_eq!(snap.count(), 2);
    assert_eq!(snap.object_at(0).as_str().unwrap(), "x");
    assert_eq!(snap.all_objects().len(), 2);
}

#[test]
fn test_iter_walks_in_order_and_finishes() {
    let arr = Array::from_vec(vec![
        NSNumber::from_u64(1),
        NSNumber::from_u64(2),
        NSNumber::from_u64(3),
    ]);
    let mut it = arr.iter();
    assert_eq!(it.next().unwrap().integer_value(), 1);
    assert_eq!(it.next().unwrap().integer_value(), 2);
    assert_eq!(it.next().unwrap().integer_value(), 3);
    assert!(it.next().is_none());
    assert!(it.next().is_none());
}

#[test]
fn test_iter_is_restartable() {
    let arr = Array::from_vec(vec![NSNumber::from_u64(7)]);
    let mut first = arr.iter();
    assert_eq!(first.next().unwrap().integer_value(), 7);
    let mut second = arr.iter();
    assert_eq!(second.next().unwrap().integer_value(), 7);
}

#[test]
fn test_empty_array() {
    let arr: Array<NSNumber> = Array::new();
    assert_eq!(arr.count(), 0);
    let mut it = arr.iter();
    assert!(it.next().is_none());
}
