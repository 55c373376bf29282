use wasm3::environment::{Environment, Host};
use wasm3::error::Error;

#[test]
fn create_and_drop_env() {
    let mut host = Host::new();
    assert!(Environment::new(&mut host).is_ok());
}

#[test]
fn new_env_handle_is_nonnull_and_live() {
    let mut host = Host::new();
    let env = Environment::new(&mut host).unwrap();
    let h = env.as_ptr(&host);
    assert_ne!(h, 0);
    assert!(host.handle_is_live(h));
    assert_eq!(host.handle_free_count(h), 0);
}

#[test]
fn clones_dropped_in_order_free_once() {
    let mut host = Host::new();
    let e1 = Environment::new(&mut host).unwrap();
    let h = e1.as_ptr(&host);
    let e2 = e1.retain(&mut host);
    let e3 = e1.retain(&mut host);
    e1.release(&mut host);
    assert!(host.handle_is_live(h));
    assert_eq!(host.handle_free_count(h), 0);
    e2.release(&mut host);
    assert!(host.handle_is_live(h));
    assert_eq!(host.handle_free_count(h), 0);
    e3.release(&mut host);
    assert!(!host.handle_is_live(h));
    assert_eq!(host.handle_free_count(h), 1);
}

#[test]
fn clones_dropped_in_reverse_order_free_once() {
    let mut host = Host::new();
    let e1 = Environment::new(&mut host).unwrap();
    let h = e1.as_ptr(&host);
    let e2 = e1.retain(&mut host);
    let e3 = e2.retain(&mut host);
    e3.release(&mut host);
    assert_eq!(host.handle_free_count(h), 0);
    e2.release(&mut host);
    assert_eq!(host.handle_free_count(h), 0);
    e1.release(&mut host);
    assert_eq!(host.handle_free_count(h), 1);
    assert!(!host.handle_is_live(h));
}

#[test]
fn equality_is_identity_not_structure() {
    let mut host = Host::new();
    let e1 = Environment::new(&mut host).unwrap();
    let e2 = Environment::new(&mut host).unwrap();
    assert!(e1 != e2);
    let c1 = e1.retain(&mut host);
    assert!(e1 == c1);
    assert!(c1 != e2);
    let c2 = e2.retain(&mut host);
    assert!(e2 == c2);
    assert!(c1 != c2);
}

#[test]
fn independent_envs_have_distinct_handles() {
    let mut host = Host::new();
    let e1 = Environment::new(&mut host).unwrap();
    let e2 = Environment::new(&mut host).unwrap();
    assert_ne!(e1.as_ptr(&host), e2.as_ptr(&host));
}

#[test]
fn allocation_failure_returns_error_and_frees_nothing() {
    let mut host = Host::new();
    host.set_alloc_ok(false);
    let r = Environment::new(&mut host);
    assert_eq!(r, Err(Error::AllocationFailure));
    // the handle the failed call would have produced: never created, never freed
    assert!(!host.handle_is_live(1));
    assert_eq!(host.handle_free_count(1), 0);
    // with the allocator back on, creation works again
    host.set_alloc_ok(true);
    assert!(Environment::new(&mut host).is_ok());
}

#[test]
fn end_to_end_clone_then_drop_frees_once() {
    let mut host = Host::new();
    let e1 = Environment::new(&mut host).unwrap();
    let h = e1.as_ptr(&host);
    let e2 = e1.retain(&mut host);
    e1.release(&mut host);
    assert!(host.handle_is_live(h));
    // e2 is still usable for downstream construction
    let store = e2.create_store(&mut host, 4096, ()).unwrap();
    store.release(&mut host);
    assert!(host.handle_is_live(h));
    assert_eq!(host.handle_free_count(h), 0);
    e2.release(&mut host);
    assert!(!host.handle_is_live(h));
    assert_eq!(host.handle_free_count(h), 1);
}
