//! Tests of the exclusively-owning cell.

use std::sync::Arc;

use scanbridge::cptr::CPtr;

struct Foo {
    bar: u32,
}

fn validate_borrow(b: &CPtr<Foo>) {
    assert_eq!(b.borrow().bar, 32);
}

#[test]
fn test_borrow() {
    let p = CPtr::<Foo>::new(Foo { bar: 32 });

    validate_borrow(&p);
}

#[test]
fn test_from_ptr() {
    let foo = Box::new(Foo { bar: 32 });

    let p = CPtr::<Foo>::from_ptr(foo);

    assert_eq!(p.borrow().bar, 32);
}

struct Traced {
    token: Arc<()>,
}

#[test]
fn test_drop_runs_teardown_once() {
    let token = Arc::new(());
    assert_eq!(Arc::strong_count(&token), 1);

    let cell = CPtr::new(Traced { token: token.clone() });
    assert_eq!(Arc::strong_count(&token), 2);

    drop(cell);
    assert_eq!(Arc::strong_count(&token), 1);
}

#[test]
fn test_acquire_borrow_round_trip() {
    let cell = CPtr::new(12345u64);
    assert_eq!(*cell.borrow(), 12345u64);
}

#[test]
fn test_borrow_mut_updates_value() {
    let mut cell = CPtr::new(Foo { bar: 1 });
    cell.borrow_mut().bar = 32;
    assert_eq!(cell.borrow().bar, 32);
}
