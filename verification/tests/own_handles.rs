use kj_rs::NativeHeap;
use kj_rs::Own;
use kj_rs::ProtocolViolation;
use kj_rs::Rc;

#[test]
fn test_nonnull_pass_to_cpp() {
    // A resource created with value 42 is handed over through a
    // guaranteed non-null handle; the far side reads 42 back.
    let mut heap = NativeHeap::new();
    let own = heap.heap(42);
    assert!(!own.is_null());
    assert_eq!(own.value(&heap), 42);
    heap.release(own);
}

#[test]
fn test_nonnull_return_from_cpp() {
    // A resource created on the far side arrives as a non-null handle
    // with value 100.
    let mut heap = NativeHeap::new();
    let own = heap.heap(100);
    assert!(!own.is_null());
    assert_eq!(own.value(&heap), 100);
}

#[test]
fn test_nonnull_roundtrip() {
    let mut heap = NativeHeap::new();
    let own = heap.heap(100);
    assert_eq!(own.value(&heap), 100);
    // The same handle keeps reading the same object.
    assert_eq!(own.value(&heap), 100);
}

#[test]
fn kj_own() {
    let mut heap = NativeHeap::new();
    let own = heap.heap(42);
    assert_eq!(own.value(&heap), 42);
    own.set_value(&mut heap, 14);
    assert_eq!(own.value(&heap), 14);
    // Explicitly release: the last handle disposes the object.
    assert!(heap.release(own));
}

#[test]
fn kj_move() {
    let mut heap = NativeHeap::new();
    let owned = heap.heap(42);
    // Move the handle; ownership transfers, the object stays put.
    let moved_value = owned;
    assert_eq!(moved_value.value(&heap), 42);
    moved_value.set_value(&mut heap, 14);
    assert_eq!(moved_value.value(&heap), 14);
}

#[test]
fn test_pass_cc() {
    let mut heap = NativeHeap::new();
    let own = heap.heap(42);
    own.set_value(&mut heap, 14);
    // Hand the object back: surrendering the handle releases our claim.
    assert!(heap.release(own));
}

#[test]
fn test_rc_return() {
    let mut heap = NativeHeap::new();
    let rc = Rc::from_own(heap.heap(7));
    assert!(!rc.is_shared(&heap));
}

#[test]
fn test_rc_return_shared() {
    let mut heap = NativeHeap::new();
    let rc = Rc::from_own(heap.heap(7));
    let rc2 = rc.add_ref(&mut heap);
    assert!(rc.is_shared(&heap));
    assert!(rc2.is_shared(&heap));
}

#[test]
fn shared_object_disposed_exactly_once() {
    // Two handles share one object through add_ref: dropping one keeps
    // the object alive; dropping the second fires the disposal hook —
    // exactly once across both drops.
    let mut heap = NativeHeap::new();
    let rc1 = Rc::from_own(heap.heap(5));
    let rc2 = rc1.add_ref(&mut heap);
    let first_disposed = rc1.release(&mut heap);
    assert!(!first_disposed);
    assert_eq!(rc2.value(&heap), 5);
    let second_disposed = rc2.release(&mut heap);
    assert!(second_disposed);
}

#[test]
fn null_handle_fails_fast() {
    let heap = NativeHeap::new();
    let null = Own::null();
    assert!(null.is_null());
    assert_eq!(null.try_value(&heap), Err(ProtocolViolation::NullHandle));
}

#[test]
fn rc_to_own_keeps_the_claim() {
    let mut heap = NativeHeap::new();
    let rc = Rc::from_own(heap.heap(3));
    let own = rc.to_own();
    assert_eq!(own.value(&heap), 3);
    assert!(heap.release(own));
}
