use wasm3::environment::{Environment, Host};
use wasm3::error::Error;
use wasm3::module::Module;
use wasm3::store::Store;

#[test]
fn store_keeps_environment_alive() {
    let mut host = Host::new();
    let env = Environment::new(&mut host).unwrap();
    let h = env.as_ptr(&host);
    let store = env.create_store(&mut host, 1024, 7u64).unwrap();
    assert!(*store.environment() == env);
    env.release(&mut host);
    // the store still holds the environment: nothing freed yet
    assert!(host.handle_is_live(h));
    assert_eq!(host.handle_free_count(h), 0);
    let data = store.release(&mut host);
    assert_eq!(data, 7u64);
    assert!(!host.handle_is_live(h));
    assert_eq!(host.handle_free_count(h), 1);
}

#[test]
fn module_keeps_environment_alive() {
    let mut host = Host::new();
    let env = Environment::new(&mut host).unwrap();
    let h = env.as_ptr(&host);
    let wasm = vec![0x00u8, 0x61, 0x73, 0x6d, 0x01, 0x00, 0x00, 0x00];
    let module = env.parse_module(&mut host, wasm.clone()).unwrap();
    assert!(*module.environment() == env);
    assert_eq!(module.bytes(), &wasm);
    env.release(&mut host);
    assert!(host.handle_is_live(h));
    assert_eq!(host.handle_free_count(h), 0);
    let back = module.release(&mut host);
    assert_eq!(back, wasm);
    assert!(!host.handle_is_live(h));
    assert_eq!(host.handle_free_count(h), 1);
}

#[test]
fn store_carries_stack_size_and_payload() {
    let mut host = Host::new();
    let env = Environment::new(&mut host).unwrap();
    let store: Store<String> = Store::new(&env, &mut host, 60000, String::from("user data")).unwrap();
    assert_eq!(store.stack_size(), 60000);
    assert_eq!(store.data(), "user data");
    let data = store.release(&mut host);
    assert_eq!(data, "user data");
    env.release(&mut host);
}

#[test]
fn store_creation_failure_leaves_environment_unchanged() {
    let mut host = Host::new();
    let env = Environment::new(&mut host).unwrap();
    let h = env.as_ptr(&host);
    host.set_alloc_ok(false);
    let r = env.create_store(&mut host, 1024, 1u8);
    match r {
        Err(e) => assert_eq!(e, Error::AllocationFailure),
        Ok(_) => panic!("store creation succeeded with the allocator off"),
    }
    host.set_alloc_ok(true);
    // the failed construction took no holder: one release frees the handle
    env.release(&mut host);
    assert_eq!(host.handle_free_count(h), 1);
}

#[test]
fn module_parse_failure_leaves_environment_unchanged() {
    let mut host = Host::new();
    let env = Environment::new(&mut host).unwrap();
    let h = env.as_ptr(&host);
    host.set_alloc_ok(false);
    let r = Module::parse(&env, &mut host, vec![1u8, 2, 3]);
    match r {
        Err(e) => assert_eq!(e, Error::AllocationFailure),
        Ok(_) => panic!("module parsing succeeded with the allocator off"),
    }
    host.set_alloc_ok(true);
    env.release(&mut host);
    assert_eq!(host.handle_free_count(h), 1);
}

#[test]
fn two_dependents_share_one_environment() {
    let mut host = Host::new();
    let env = Environment::new(&mut host).unwrap();
    let h = env.as_ptr(&host);
    let store = env.create_store(&mut host, 512, ()).unwrap();
    let module = env.parse_module(&mut host, vec![0u8]).unwrap();
    env.release(&mut host);
    store.release(&mut host);
    assert!(host.handle_is_live(h));
    assert_eq!(host.handle_free_count(h), 0);
    module.release(&mut host);
    assert!(!host.handle_is_live(h));
    assert_eq!(host.handle_free_count(h), 1);
}
