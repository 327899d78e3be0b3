use rust_macios::foundation::ns_autoreleasepool::NSAutoreleasePool;
use rust_macios::runtime::{to_bool, to_native_bool, OwnedRef, PNSObject, Protocol, Runtime, Selector};

#[test]
fn test_alloc_starts_retained_once() {
    let mut rt = Runtime::new();
    let h = rt.alloc_object();
    assert!(rt.is_live(h));
    assert_eq!(rt.retain_count(h), 1);
}

#[test]
fn test_retain_and_release_move_the_count() {
    let mut rt = Runtime::new();
    let h = rt.alloc_object();
    rt.retain(h);
    assert_eq!(rt.retain_count(h), 2);
    rt.release(h);
    assert_eq!(rt.retain_count(h), 1);
    rt.release(h);
    assert_eq!(rt.retain_count(h), 0);
    assert!(!rt.is_live(h));
}

#[test]
fn test_clone_then_release_is_balanced() {
    let mut rt = Runtime::new();
    let h = rt.alloc_object();
    let w = OwnedRef::acquire(&rt, h);
    let c = w.clone_ref(&mut rt);
    assert_eq!(rt.retain_count(h), 2);
    c.release(&mut rt);
    assert_eq!(rt.retain_count(h), 1);
    assert!(rt.is_live(h));
    w.release(&mut rt);
    assert_eq!(rt.retain_count(h), 0);
}

#[test]
fn test_retain_wrapper_shares() {
    let mut rt = Runtime::new();
    let h = rt.alloc_object();
    let w = OwnedRef::retain(&mut rt, h);
    assert_eq!(rt.retain_count(h), 2);
    w.release(&mut rt);
    assert_eq!(rt.retain_count(h), 1);
}

#[test]
fn test_pool_defers_release_until_drain() {
    let mut rt = Runtime::new();
    let h = rt.alloc_object();
    let mut pool = NSAutoreleasePool::new();
    pool.add_object(&mut rt, h);
    assert_eq!(rt.retain_count(h), 2);
    pool.drain(&mut rt);
    assert_eq!(rt.retain_count(h), 1);
    assert!(rt.is_live(h));
}

#[test]
fn test_drain_releases_exactly_once() {
    let mut rt = Runtime::new();
    let h = rt.alloc_object();
    let mut pool = NSAutoreleasePool::default();
    pool.add_object(&mut rt, h);
    pool.drain(&mut rt);
    pool.drain(&mut rt);
    pool.drain(&mut rt);
    assert_eq!(rt.retain_count(h), 1);
}

#[test]
fn test_pool_holds_several_objects() {
    let mut rt = Runtime::new();
    let a = rt.alloc_object();
    let b = rt.alloc_object();
    let mut pool = NSAutoreleasePool::new();
    pool.add_object(&mut rt, a);
    pool.add_object(&mut rt, b);
    pool.add_object(&mut rt, a);
    assert_eq!(rt.retain_count(a), 3);
    assert_eq!(rt.retain_count(b), 2);
    pool.drain(&mut rt);
    assert_eq!(rt.retain_count(a), 1);
    assert_eq!(rt.retain_count(b), 1);
}

#[test]
fn test_boolean_marshaling() {
    assert_eq!(to_native_bool(true), 1);
    assert_eq!(to_native_bool(false), 0);
    assert!(to_bool(1));
    assert!(to_bool(-1));
    assert!(!to_bool(0));
}

#[test]
fn test_pool_object_protocol() {
    let a = NSAutoreleasePool::new();
    let b = NSAutoreleasePool::new();
    assert!(a.is_equal(&b));
    assert_eq!(a.hash_value(), b.hash_value());
    assert_eq!(PNSObject::description(&a).as_str().unwrap(), "NSAutoreleasePool");
    assert!(a.responds_to(Selector::AddObject));
    assert!(!a.conforms_to(Protocol::Copying));
}

#[test]
fn test_drained_pools_compare_unequal_to_fresh_ones() {
    let mut rt = Runtime::new();
    let mut a = NSAutoreleasePool::new();
    let b = NSAutoreleasePool::new();
    a.drain(&mut rt);
    assert!(!a.is_equal(&b));
}

#[test]
fn test_instance_method_entry_points() {
    let mut rt = Runtime::new();
    let h = rt.alloc_object();
    let mut pool = NSAutoreleasePool::new();
    pool.im_add_object(&mut rt, h);
    assert_eq!(rt.retain_count(h), 2);
    pool.im_drain(&mut rt);
    assert_eq!(rt.retain_count(h), 1);
}
