use extendr_api::convert::{as_integer_slice, to_handle_integer_vector, to_handle_real_bits};
use extendr_api::engine::{is_nul_free, print_r_error, print_r_output, Engine, Ownership, ThreadGuard};
use extendr_api::value::RValue;

#[test]
fn fresh_engine_is_empty() {
    let e = Engine::new();
    assert_eq!(e.protect_depth(), 0);
    assert_eq!(e.heap.len(), 0);
    assert_eq!(e.guard, ThreadGuard::Uninitialized);
    assert!(!e.registered);
}

#[test]
fn protection_lifo() {
    let mut e = Engine::new();
    let r1 = e.allocate(RValue::Null);
    let r2 = e.allocate(RValue::Null);
    let r3 = e.allocate(RValue::Null);
    let h1 = e.acquire_owned(r1);
    let h2 = e.acquire_owned(r2);
    let h3 = e.acquire_owned(r3);
    assert_eq!(e.protect_depth(), 3);
    assert_eq!(h1.ownership, Ownership::Owned);
    // Releasing out of order is detected and rejected, changing nothing.
    assert!(!e.release(&h1));
    assert!(!e.release(&h2));
    assert_eq!(e.protect_depth(), 3);
    // Releases in exact reverse order are each accepted and end at depth 0.
    assert!(e.release(&h3));
    assert!(e.release(&h2));
    assert!(e.release(&h1));
    assert_eq!(e.protect_depth(), 0);
    // A release of an already-released registration is rejected too.
    assert!(!e.release(&h1));
}

#[test]
fn borrowed_handles_do_no_bookkeeping() {
    let mut e = Engine::new();
    let raw = e.allocate(RValue::Null);
    let depth = e.protect_depth();
    let b = e.borrow_handle(raw);
    assert_eq!(b.ownership, Ownership::Borrowed);
    assert_eq!(e.protect_depth(), depth);
}

#[test]
fn cloning_extends_protection() {
    let mut e = Engine::new();
    let raw = e.allocate(RValue::Null);
    let h = e.acquire_owned(raw);
    let h2 = e.clone_owned(&h);
    assert_eq!(h2.raw, h.raw);
    assert_eq!(e.protect_depth(), 2);
    assert!(e.release(&h2));
    assert!(e.release(&h));
}

#[test]
fn slice_borrow_survives_unrelated_allocation() {
    let mut e = Engine::new();
    let h = to_handle_integer_vector(&mut e, vec![10, 20, 30]);
    let before: Vec<i32> = as_integer_slice(&e, &h).unwrap().clone();
    // An unrelated owned-handle allocation in the same scope...
    let _h2 = to_handle_real_bits(&mut e, f64::to_bits(9.5));
    // ...moves nothing: the borrowed view's contents are identical.
    let after = as_integer_slice(&e, &h).unwrap();
    assert_eq!(&before, after);
}

#[test]
fn thread_guard_pins_first_thread() {
    let mut e = Engine::new();
    assert!(e.check_thread(7));
    assert_eq!(e.guard, ThreadGuard::Active(7));
    assert!(e.check_thread(7));
    // A different thread is rejected; the guard stays pinned.
    assert!(!e.check_thread(8));
    assert_eq!(e.guard, ThreadGuard::Active(7));
}

#[test]
fn single_threaded_scope_restores_state() {
    let mut e = Engine::new();
    let prior = e.single_threaded_begin(3).unwrap();
    assert_eq!(prior, ThreadGuard::Uninitialized);
    assert_eq!(e.guard, ThreadGuard::Active(3));
    // A nested scope from the same thread is fine; a wrong thread fails.
    assert!(e.single_threaded_begin(3).is_ok());
    assert!(e.single_threaded_begin(4).is_err());
    e.single_threaded_end(prior);
    assert_eq!(e.guard, ThreadGuard::Uninitialized);
}

#[test]
fn r_output_test() {
    let mut e = Engine::new();
    print_r_output(&mut e, &b"Hello world".to_vec());
    assert_eq!(e.output, b"Hello world".to_vec());
    assert_eq!(e.error_output.len(), 0);
}

#[test]
fn error_stream_is_separate() {
    let mut e = Engine::new();
    print_r_error(&mut e, &b"oops".to_vec());
    assert_eq!(e.error_output, b"oops".to_vec());
    assert_eq!(e.output.len(), 0);
}

#[test]
fn interior_nul_is_detected() {
    assert!(is_nul_free(&b"fine".to_vec()));
    assert!(!is_nul_free(&b"bad\0tail".to_vec()));
}
