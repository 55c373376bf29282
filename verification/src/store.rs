use vstd::prelude::*;

use crate::environment::{
    cells_preserved_except, native_preserved, release_post, Environment, Host,
};
use crate::error::Error;

verus! {

/// What constructing a dependent resource from the environment `e` does to
/// the host: it succeeds exactly while the native allocator is on; on
/// success the dependent has recorded its own holder of `e`, so the shared
/// count rose by one; on failure nothing changed at all. Nothing is freed
/// either way.
pub open spec fn dependent_create_post(pre: Host, post: Host, e: Environment, ok: bool) -> bool {
    &&& ok <==> pre.alloc_enabled()
    &&& post.cell_count() == pre.cell_count()
    &&& cells_preserved_except(pre, post, e.id())
    &&& native_preserved(pre, post)
    &&& post.alloc_enabled() == pre.alloc_enabled()
    &&& post.created_count() == pre.created_count()
    &&& post.env_live(e)
    &&& post.env_handle(e) == pre.env_handle(e)
    &&& ok ==> post.env_refs(e) == pre.env_refs(e) + 1
    &&& !ok ==> post == pre
}

/// An execution store built from an environment: the interpreter's stacks
/// and the host-supplied payload. The store keeps its own holder of the
/// environment, so the native environment handle cannot be freed while the
/// store lives — whatever the caller does with the holders it kept.
pub struct Store<T> {
    env: Environment,
    stack_size: u32,
    data: T,
}

impl<T> Store<T> {
    /// The environment this store depends on (and keeps alive).
    pub closed spec fn env(self) -> Environment {
        self.env
    }

    /// The stack capacity the store was built with, in native stack slots.
    pub closed spec fn stack_slots(self) -> u32 {
        self.stack_size
    }

    /// The host-supplied payload the store owns.
    pub closed spec fn payload(self) -> T {
        self.data
    }

    /// Builds a store from `env` with the given stack size in slots, taking
    /// ownership of `data`. The store records its own holder of the
    /// environment for its lifetime.
    ///
    /// No upper bound on `stack_size` is enforced at this layer; an
    /// out-of-range request is the native library's to reject.
    ///
    /// # Errors
    ///
    /// Fails with [`Error::AllocationFailure`] exactly when the native
    /// allocator fails; the environment's shared count then stands
    /// unchanged.
    pub fn new(env: &Environment, host: &mut Host, stack_size: u32, data: T) -> (r: Result<
        Store<T>,
        Error,
    >)
        requires
            old(host).wf(),
            old(host).env_live(*env),
            old(host).env_refs(*env) < u64::MAX,
        ensures
            final(host).wf(),
            dependent_create_post(*old(host), *final(host), *env, r is Ok),
            r matches Ok(s) ==> {
                &&& s.env() == *env
                &&& s.stack_slots() == stack_size
                &&& s.payload() == data
            },
            r matches Err(err) ==> err == Error::AllocationFailure,
    {
        if !host.allocator_on() {
            return Err(Error::AllocationFailure);
        }
        let held = env.retain(host);
        Ok(Store { env: held, stack_size, data })
    }

    /// Releases the store; this is the explicit form of dropping it. It
    /// gives up the store's holder of the environment and hands the payload
    /// back. If the store's holder was the last one, the native environment
    /// handle is freed, exactly once.
    pub fn release(self, host: &mut Host) -> (data: T)
        requires
            old(host).wf(),
            old(host).env_live(self.env()),
        ensures
            final(host).wf(),
            release_post(*old(host), *final(host), self.env()),
            data == self.payload(),
    {
        let Store { env, stack_size: _, data } = self;
        env.release(host);
        data
    }

    /// The environment this store depends on.
    pub fn environment(&self) -> (r: &Environment)
        ensures
            *r == self.env(),
    {
        &self.env
    }

    /// The stack capacity the store was built with, in native stack slots.
    pub fn stack_size(&self) -> (r: u32)
        ensures
            r == self.stack_slots(),
    {
        self.stack_size
    }

    /// The host-supplied payload the store owns.
    pub fn data(&self) -> (r: &T)
        ensures
            *r == self.payload(),
    {
        &self.data
    }
}

} // verus!
