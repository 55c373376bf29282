use vstd::prelude::*;

use crate::error::Error;
use crate::module::Module;
use crate::native::NativeLib;
use crate::store::{dependent_create_post, Store};

verus! {

/// One shared-ownership cell: the single owner of a native handle, together
/// with the count of host-side holders that still refer to it. The cell is
/// what makes release idempotent: however many holders existed, exactly one
/// cell owns the handle, and the free routine runs when the cell dies.
#[derive(Clone, Copy, Debug)]
struct EnvCell {
    handle: u64,
    refs: u64,
}

/// The host side of the safety boundary: the native library together with
/// every shared-ownership cell handed out so far. A cell's slot is `None`
/// once its last holder is gone and its native handle has been freed; slots
/// are never reused, so a cell's position is its identity for good.
///
/// Sharing is single-threaded by construction: every creation, retain and
/// release goes through one exclusive `Host` reference, so the shared counts
/// cannot race. Whether the native library tolerates one environment handle
/// being used from several threads is its own contract, not this layer's.
pub struct Host {
    native: NativeLib,
    cells: Vec<Option<EnvCell>>,
}

/// A host-side holder of one native environment. Many `Environment` values
/// may share one cell; the native handle is freed when the last of them is
/// released. The type deliberately has no `Clone`: new holders come only from
/// [`Environment::retain`] or from a dependent resource's constructor, both
/// of which record the new holder in the shared count.
///
/// Equality is identity: two environments are equal exactly when they refer
/// to the same ownership cell, never because two distinct native allocations
/// happen to look alike.
#[derive(Debug, PartialEq, Eq, Structural)]
pub struct Environment {
    cell: usize,
}

impl Environment {
    /// The identity of the ownership cell this holder refers to.
    pub closed spec fn id(self) -> int {
        self.cell as int
    }
}

impl Host {
    /// How many ownership cells have ever been created.
    pub closed spec fn cell_count(self) -> nat {
        self.cells@.len()
    }

    /// Whether the cell of `e` is still alive, that is, still has holders.
    pub closed spec fn env_live(self, e: Environment) -> bool {
        e.cell < self.cells@.len() && self.cells@[e.cell as int] is Some
    }

    /// The native handle owned by the cell of `e`.
    pub closed spec fn env_handle(self, e: Environment) -> u64
        recommends
            self.env_live(e),
    {
        self.cells@[e.cell as int].unwrap().handle
    }

    /// How many holders the cell of `e` has.
    pub closed spec fn env_refs(self, e: Environment) -> int
        recommends
            self.env_live(e),
    {
        self.cells@[e.cell as int].unwrap().refs as int
    }

    /// Whether the native library currently holds `h` as a live handle.
    pub closed spec fn native_live(self, h: u64) -> bool {
        self.native.live(h)
    }

    /// How many times the native free routine has run on `h`.
    pub closed spec fn freed_times(self, h: u64) -> nat {
        self.native.freed_times(h)
    }

    /// Whether the simulated native allocator is on.
    pub closed spec fn alloc_enabled(self) -> bool {
        self.native.alloc_enabled()
    }

    /// How many native handles the native library has ever created.
    pub closed spec fn created_count(self) -> nat {
        self.native.created_count()
    }

    /// Whether the native library has run out of handle values.
    pub open spec fn exhausted(self) -> bool {
        self.created_count() >= u64::MAX
    }

    /// Environment creation succeeds exactly under these conditions.
    pub open spec fn can_create(self) -> bool {
        self.alloc_enabled() && !self.exhausted()
    }

    /// The boundary's safety invariant: every live cell has at least one
    /// holder and owns a live native handle, and no two live cells own the
    /// same handle.
    pub closed spec fn wf(self) -> bool {
        &&& self.native.wf()
        &&& forall|i: int|
            0 <= i < self.cells@.len() && #[trigger] self.cells@[i] is Some ==> {
                &&& self.cells@[i].unwrap().refs >= 1
                &&& self.native.live(self.cells@[i].unwrap().handle)
            }
        &&& forall|i: int, j: int|
            #![trigger self.cells@[i], self.cells@[j]]
            0 <= i < self.cells@.len() && 0 <= j < self.cells@.len() && i != j
                && self.cells@[i] is Some && self.cells@[j] is Some
                ==> self.cells@[i].unwrap().handle != self.cells@[j].unwrap().handle
    }

    /// A fresh host: no environments yet, no native handles live, nothing
    /// freed, allocation enabled.
    pub fn new() -> (host: Host)
        ensures
            host.wf(),
            host.cell_count() == 0,
            host.created_count() == 0,
            forall|e: Environment| !host.env_live(e),
            forall|h: u64| !host.native_live(h),
            forall|h: u64| host.freed_times(h) == 0,
            host.can_create(),
    {
        Host { native: NativeLib::new(), cells: Vec::new() }
    }

    /// Whether the native library currently holds `h` as a live handle.
    pub fn handle_is_live(&self, h: u64) -> (r: bool)
        ensures
            r == self.native_live(h),
    {
        self.native.is_live(h)
    }

    /// How many times the native free routine has run on `h`.
    pub fn handle_free_count(&self, h: u64) -> (r: u64)
        ensures
            r == self.freed_times(h),
    {
        self.native.free_count(h)
    }

    /// Whether the simulated native allocator is currently on.
    pub fn allocator_on(&self) -> (r: bool)
        ensures
            r == self.alloc_enabled(),
    {
        self.native.allocator_on()
    }

    /// Turns the simulated native allocator on or off, to exercise the
    /// allocation-failure path. No cell and no handle changes.
    pub fn set_alloc_ok(&mut self, ok: bool)
        requires
            old(self).wf(),
        ensures
            final(self).wf(),
            final(self).alloc_enabled() == ok,
            final(self).created_count() == old(self).created_count(),
            final(self).cell_count() == old(self).cell_count(),
            cells_preserved(*old(self), *final(self)),
            native_preserved(*old(self), *final(self)),
    {
        self.native.set_alloc_ok(ok);
    }
}

/// Every ownership cell of `pre` whose identity is not `except` stands
/// unchanged in `post`: same liveness, and for a live cell the same native
/// handle and the same holder count.
pub open spec fn cells_preserved_except(pre: Host, post: Host, except: int) -> bool {
    forall|e: Environment|
        #![trigger post.env_live(e)]
        e.id() != except ==> {
            &&& post.env_live(e) == pre.env_live(e)
            &&& pre.env_live(e) ==> post.env_handle(e) == pre.env_handle(e)
                && post.env_refs(e) == pre.env_refs(e)
        }
}

/// Every ownership cell of `pre` stands unchanged in `post`.
pub open spec fn cells_preserved(pre: Host, post: Host) -> bool {
    forall|e: Environment|
        #![trigger post.env_live(e)]
        {
            &&& post.env_live(e) == pre.env_live(e)
            &&& pre.env_live(e) ==> post.env_handle(e) == pre.env_handle(e)
                && post.env_refs(e) == pre.env_refs(e)
        }
}

/// The native library's handle table and free log stand unchanged from `pre`
/// to `post`: nothing was created and, above all, nothing was freed.
pub open spec fn native_preserved(pre: Host, post: Host) -> bool {
    &&& forall|h: u64| #[trigger] post.native_live(h) == pre.native_live(h)
    &&& forall|h: u64| #[trigger] post.freed_times(h) == pre.freed_times(h)
}

/// What releasing one holder of `e` does to the host. While other holders
/// remain, only the shared count drops and nothing is freed; releasing the
/// last holder kills the cell and frees the native handle, exactly once.
/// Cells other than that of `e` are untouched either way.
pub open spec fn release_post(pre: Host, post: Host, e: Environment) -> bool {
    &&& post.cell_count() == pre.cell_count()
    &&& cells_preserved_except(pre, post, e.id())
    &&& post.alloc_enabled() == pre.alloc_enabled()
    &&& post.created_count() == pre.created_count()
    &&& pre.env_refs(e) > 1 ==> {
        &&& post.env_live(e)
        &&& post.env_refs(e) == pre.env_refs(e) - 1
        &&& post.env_handle(e) == pre.env_handle(e)
        &&& native_preserved(pre, post)
    }
    &&& pre.env_refs(e) == 1 ==> {
        &&& !post.env_live(e)
        &&& !post.native_live(pre.env_handle(e))
        &&& pre.freed_times(pre.env_handle(e)) == 0
        &&& post.freed_times(pre.env_handle(e)) == 1
        &&& forall|g: u64|
            g != pre.env_handle(e) ==> #[trigger] post.native_live(g) == pre.native_live(g)
        &&& forall|g: u64|
            g != pre.env_handle(e) ==> #[trigger] post.freed_times(g) == pre.freed_times(g)
    }
}

impl Environment {
    /// Creates a new environment: asks the native library for a handle and,
    /// on success, wraps it in a fresh single-owner cell with one holder.
    /// The handle is nonzero, was not live before, and has never been freed.
    ///
    /// # Errors
    ///
    /// Fails with [`Error::AllocationFailure`] exactly when the native
    /// creation call reports allocation failure by the null handle; the host
    /// then stands untouched, and in particular no free routine has run.
    pub fn new(host: &mut Host) -> (r: Result<Environment, Error>)
        requires
            old(host).wf(),
        ensures
            final(host).wf(),
            r is Ok <==> old(host).can_create(),
            r matches Ok(e) ==> {
                &&& e.id() == old(host).cell_count()
                &&& final(host).cell_count() == old(host).cell_count() + 1
                &&& final(host).created_count() == old(host).created_count() + 1
                &&& final(host).env_live(e)
                &&& final(host).env_refs(e) == 1
                &&& final(host).env_handle(e) != 0
                &&& final(host).native_live(final(host).env_handle(e))
                &&& !old(host).native_live(final(host).env_handle(e))
                &&& final(host).freed_times(final(host).env_handle(e)) == 0
                &&& forall|g: u64| #[trigger] final(host).freed_times(g) == old(host).freed_times(g)
                &&& forall|g: u64|
                    g != final(host).env_handle(e) ==> #[trigger] final(host).native_live(g)
                        == old(host).native_live(g)
                &&& cells_preserved_except(*old(host), *final(host), e.id())
                &&& final(host).alloc_enabled() == old(host).alloc_enabled()
            },
            r matches Err(err) ==> err == Error::AllocationFailure,
            r is Err ==> *final(host) == *old(host),
    {
        match host.native.create_environment() {
            Some(h) => {
                let idx: usize = host.cells.len();
                host.cells.push(Some(EnvCell { handle: h, refs: 1 }));
                let e = Environment { cell: idx };
                proof {
                    lemma_host_wf_after_new(*old(host), *host, h, idx as int);
                }
                Ok(e)
            },
            None => Err(Error::AllocationFailure),
        }
    }

    /// One more holder of the same environment: raises the shared count by
    /// one and returns a value equal, by identity, to `self`. Nothing is
    /// created or freed on the native side.
    pub fn retain(&self, host: &mut Host) -> (r: Environment)
        requires
            old(host).wf(),
            old(host).env_live(*self),
            old(host).env_refs(*self) < u64::MAX,
        ensures
            final(host).wf(),
            r == *self,
            final(host).env_live(*self),
            final(host).env_refs(*self) == old(host).env_refs(*self) + 1,
            final(host).env_handle(*self) == old(host).env_handle(*self),
            final(host).cell_count() == old(host).cell_count(),
            cells_preserved_except(*old(host), *final(host), self.id()),
            native_preserved(*old(host), *final(host)),
            final(host).alloc_enabled() == old(host).alloc_enabled(),
            final(host).created_count() == old(host).created_count(),
    {
        let c = host.cells[self.cell].unwrap();
        host.cells[self.cell] = Some(EnvCell { handle: c.handle, refs: c.refs + 1 });
        Environment { cell: self.cell }
    }

    /// Releases one holder; this is the explicit form of dropping a shared
    /// handle. While other holders remain, the native handle stays live and
    /// no free runs; releasing the last holder frees the native handle,
    /// exactly once.
    pub fn release(self, host: &mut Host)
        requires
            old(host).wf(),
            old(host).env_live(self),
        ensures
            final(host).wf(),
            release_post(*old(host), *final(host), self),
    {
        let c = host.cells[self.cell].unwrap();
        if c.refs > 1 {
            host.cells[self.cell] = Some(EnvCell { handle: c.handle, refs: c.refs - 1 });
        } else {
            host.cells[self.cell] = None;
            proof {
                lemma_cell_handle_live(*old(host), self);
            }
            host.native.free_environment(c.handle);
            proof {
                lemma_host_wf_after_free(*old(host), *host, self.cell as int, c.handle);
            }
        }
    }

    /// Creates a new store with the given stack size in slots, taking
    /// ownership of `data`. The store keeps its own holder of this
    /// environment, so this environment outlives it by construction.
    ///
    /// # Errors
    ///
    /// Propagates the store's allocation failure unchanged; this layer adds
    /// no error kind of its own.
    pub fn create_store<T>(&self, host: &mut Host, stack_size: u32, data: T) -> (r: Result<
        Store<T>,
        Error,
    >)
        requires
            old(host).wf(),
            old(host).env_live(*self),
            old(host).env_refs(*self) < u64::MAX,
        ensures
            final(host).wf(),
            dependent_create_post(*old(host), *final(host), *self, r is Ok),
            r matches Ok(s) ==> {
                &&& s.env() == *self
                &&& s.stack_slots() == stack_size
                &&& s.payload() == data
            },
            r matches Err(err) ==> err == Error::AllocationFailure,
    {
        Store::new(self, host, stack_size, data)
    }

    /// Parses a wasm module from raw bytes. The module keeps its own holder
    /// of this environment, so this environment outlives it by construction;
    /// the bytes are not validated at this layer.
    ///
    /// # Errors
    ///
    /// Propagates the module's failure unchanged; this layer adds no error
    /// kind of its own.
    pub fn parse_module(&self, host: &mut Host, bytes: Vec<u8>) -> (r: Result<Module, Error>)
        requires
            old(host).wf(),
            old(host).env_live(*self),
            old(host).env_refs(*self) < u64::MAX,
        ensures
            final(host).wf(),
            dependent_create_post(*old(host), *final(host), *self, r is Ok),
            r matches Ok(m) ==> m.env() == *self && m.code() == bytes@,
            r matches Err(err) ==> err == Error::AllocationFailure,
    {
        Module::parse(self, host, bytes)
    }

    /// The raw native handle, for sibling constructors' further native
    /// calls. The caller must neither free it nor let it outlive the last
    /// holder of this environment; ownership stays with the cell.
    pub fn as_ptr(&self, host: &Host) -> (r: u64)
        requires
            host.env_live(*self),
        ensures
            r == host.env_handle(*self),
    {
        host.cells[self.cell].unwrap().handle
    }
}

/// The handle of a live cell is live on the native side.
proof fn lemma_cell_handle_live(host: Host, e: Environment)
    requires
        host.wf(),
        host.env_live(e),
    ensures
        host.native.live(host.env_handle(e)),
{
}

/// Pushing a fresh cell for a freshly created handle keeps the host
/// invariant: the new handle is live and, being fresh, collides with no
/// older cell's handle.
proof fn lemma_host_wf_after_new(pre: Host, post: Host, h: u64, idx: int)
    requires
        pre.wf(),
        post.native.wf(),
        idx == pre.cells@.len(),
        post.cells@ == pre.cells@.push(Some(EnvCell { handle: h, refs: 1 })),
        post.native.live(h),
        !pre.native.live(h),
        forall|g: u64| g != h ==> post.native.live(g) == pre.native.live(g),
    ensures
        post.wf(),
{
    assert forall|i: int|
        0 <= i < post.cells@.len() && #[trigger] post.cells@[i] is Some implies {
        &&& post.cells@[i].unwrap().refs >= 1
        &&& post.native.live(post.cells@[i].unwrap().handle)
    } by {
        if i < idx {
            assert(pre.cells@[i] is Some);
            assert(pre.native.live(pre.cells@[i].unwrap().handle));
            assert(pre.cells@[i].unwrap().handle != h);
        }
    }
    assert forall|i: int, j: int|
        0 <= i < post.cells@.len() && 0 <= j < post.cells@.len() && i != j
            && post.cells@[i] is Some && post.cells@[j] is Some implies post.cells@[i].unwrap().handle
        != post.cells@[j].unwrap().handle by {
        if i < idx && j < idx {
            assert(pre.cells@[i] is Some && pre.cells@[j] is Some);
        } else if i < idx {
            assert(pre.native.live(pre.cells@[i].unwrap().handle));
        } else {
            assert(pre.native.live(pre.cells@[j].unwrap().handle));
        }
    }
}

/// Killing a cell and freeing its handle keeps the host invariant: by
/// handle-disjointness of live cells, no other cell owned the freed handle.
proof fn lemma_host_wf_after_free(pre: Host, post: Host, idx: int, h: u64)
    requires
        pre.wf(),
        post.native.wf(),
        0 <= idx < pre.cells@.len(),
        pre.cells@[idx] is Some,
        h == pre.cells@[idx].unwrap().handle,
        post.cells@ == pre.cells@.update(idx, None::<EnvCell>),
        forall|g: u64| g != h ==> post.native.live(g) == pre.native.live(g),
    ensures
        post.wf(),
{
    assert forall|i: int|
        0 <= i < post.cells@.len() && #[trigger] post.cells@[i] is Some implies {
        &&& post.cells@[i].unwrap().refs >= 1
        &&& post.native.live(post.cells@[i].unwrap().handle)
    } by {
        assert(i != idx);
        assert(pre.cells@[i] is Some);
        assert(pre.native.live(pre.cells@[i].unwrap().handle));
        assert(pre.cells@[i].unwrap().handle != h);
    }
}

/// The free routine runs at most once per native handle, whatever the host
/// has done so far.
pub proof fn lemma_free_at_most_once(host: Host, h: u64)
    requires
        host.wf(),
    ensures
        host.freed_times(h) <= 1,
{
    host.native.lemma_free_at_most_once(h);
}

/// While any holder of an environment remains, its native handle is live and
/// the free routine has never run on it: the free call can only come after
/// the last holder is gone.
pub proof fn lemma_live_env_not_freed(host: Host, e: Environment)
    requires
        host.wf(),
        host.env_live(e),
    ensures
        host.native_live(host.env_handle(e)),
        host.freed_times(host.env_handle(e)) == 0,
{
    lemma_cell_handle_live(host, e);
    host.native.lemma_live_never_freed(host.env_handle(e));
}

/// A live environment's native handle is never the null handle.
pub proof fn lemma_env_handle_nonzero(host: Host, e: Environment)
    requires
        host.wf(),
        host.env_live(e),
    ensures
        host.env_handle(e) != 0,
{
    lemma_cell_handle_live(host, e);
    host.native.lemma_live_nonzero(host.env_handle(e));
}

/// Equality of environments is identity of their ownership cells: an
/// environment equals every holder retained from it, and nothing else.
pub proof fn lemma_eq_is_identity(e1: Environment, e2: Environment)
    ensures
        (e1 == e2) <==> (e1.id() == e2.id()),
{
}

/// An environment with a fresh identity, as `Environment::new` returns,
/// differs from every environment the host already holds live: two
/// independently created environments are never equal.
pub proof fn lemma_fresh_env_distinct(host: Host, fresh: Environment, older: Environment)
    requires
        host.env_live(older),
        fresh.id() >= host.cell_count(),
    ensures
        fresh != older,
{
}

/// Two live environments with distinct identities own distinct native
/// handles: identity equality is no coarser than handle equality.
pub proof fn lemma_distinct_cells_distinct_handles(host: Host, e1: Environment, e2: Environment)
    requires
        host.wf(),
        host.env_live(e1),
        host.env_live(e2),
        e1.id() != e2.id(),
    ensures
        host.env_handle(e1) != host.env_handle(e2),
{
}

} // verus!
