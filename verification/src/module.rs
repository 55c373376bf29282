use vstd::prelude::*;

use crate::environment::{release_post, Environment, Host};
use crate::error::Error;
use crate::store::dependent_create_post;

verus! {

/// A wasm module held against an environment. This layer performs no
/// validation of the bytes; it records the dependency: the module keeps its
/// own holder of the environment, so the native environment handle cannot be
/// freed while the module lives.
pub struct Module {
    env: Environment,
    code: Vec<u8>,
}

impl Module {
    /// The environment this module depends on (and keeps alive).
    pub closed spec fn env(self) -> Environment {
        self.env
    }

    /// The raw module bytes, as handed in.
    pub closed spec fn code(self) -> Seq<u8> {
        self.code@
    }

    /// Parses a wasm module from raw bytes against `env`, taking ownership
    /// of the bytes. The module records its own holder of the environment
    /// for its lifetime; the bytes pass through this layer unchanged.
    ///
    /// # Errors
    ///
    /// Fails with [`Error::AllocationFailure`] exactly when the native
    /// allocator fails; the environment's shared count then stands
    /// unchanged.
    pub fn parse(env: &Environment, host: &mut Host, bytes: Vec<u8>) -> (r: Result<Module, Error>)
        requires
            old(host).wf(),
            old(host).env_live(*env),
            old(host).env_refs(*env) < u64::MAX,
        ensures
            final(host).wf(),
            dependent_create_post(*old(host), *final(host), *env, r is Ok),
            r matches Ok(m) ==> m.env() == *env && m.code() == bytes@,
            r matches Err(err) ==> err == Error::AllocationFailure,
    {
        if !host.allocator_on() {
            return Err(Error::AllocationFailure);
        }
        let held = env.retain(host);
        Ok(Module { env: held, code: bytes })
    }

    /// Releases the module; this is the explicit form of dropping it. It
    /// gives up the module's holder of the environment and hands the bytes
    /// back. If the module's holder was the last one, the native environment
    /// handle is freed, exactly once.
    pub fn release(self, host: &mut Host) -> (bytes: Vec<u8>)
        requires
            old(host).wf(),
            old(host).env_live(self.env()),
        ensures
            final(host).wf(),
            release_post(*old(host), *final(host), self.env()),
            bytes@ == self.code(),
    {
        let Module { env, code } = self;
        env.release(host);
        code
    }

    /// The environment this module depends on.
    pub fn environment(&self) -> (r: &Environment)
        ensures
            *r == self.env(),
    {
        &self.env
    }

    /// The raw module bytes.
    pub fn bytes(&self) -> (r: &Vec<u8>)
        ensures
            r@ == self.code(),
    {
        &self.code
    }
}

} // verus!
