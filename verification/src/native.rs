use vstd::prelude::*;

verus! {

/// The state of one handle the native library has handed out: still
/// allocated, or already given back to the native allocator.
#[derive(Clone, Copy, Debug, PartialEq, Eq, Structural)]
enum Slot {
    Live,
    Freed,
}

/// How many entries of `s` equal `h`.
spec fn count_matches(s: Seq<u64>, h: u64) -> nat
    decreases s.len(),
{
    if s.len() == 0 {
        0
    } else {
        count_matches(s.drop_last(), h) + if s.last() == h {
            1nat
        } else {
            0nat
        }
    }
}

proof fn lemma_count_push(s: Seq<u64>, x: u64, h: u64)
    ensures
        count_matches(s.push(x), h) == count_matches(s, h) + if x == h {
            1nat
        } else {
            0nat
        },
{
    assert(s.push(x).drop_last() =~= s);
}

proof fn lemma_count_take_step(s: Seq<u64>, i: int, h: u64)
    requires
        0 <= i < s.len(),
    ensures
        count_matches(s.take(i + 1), h) == count_matches(s.take(i), h) + if s[i] == h {
            1nat
        } else {
            0nat
        },
{
    assert(s.take(i + 1).drop_last() =~= s.take(i));
    assert(s.take(i + 1).last() == s[i]);
}

/// An instrumented stand-in for the native interpreter library. It hands out
/// opaque handles, remembers which of them are live, and keeps a log of every
/// call of the free routine, so that "freed exactly once" is a checkable
/// statement and not a convention. Handles are the nonzero values `1, 2, ...`;
/// the value `0` plays the role of the null handle, which creation reports by
/// returning `None`.
pub struct NativeLib {
    slots: Vec<Slot>,
    frees: Vec<u64>,
    alloc_ok: bool,
}

impl NativeLib {
    /// A handle the library has created and not yet freed.
    pub closed spec fn live(self, h: u64) -> bool {
        1 <= h <= self.slots@.len() && self.slots@[h - 1] is Live
    }

    /// How many times the free routine has run on `h`.
    pub closed spec fn freed_times(self, h: u64) -> nat {
        count_matches(self.frees@, h)
    }

    spec fn freed_slot(self, h: u64) -> bool {
        1 <= h <= self.slots@.len() && self.slots@[h - 1] is Freed
    }

    /// The allocation switch of the stand-in: while off, creation reports the
    /// null handle, as the native allocator does under memory pressure.
    pub closed spec fn alloc_enabled(self) -> bool {
        self.alloc_ok
    }

    /// How many handles the library has ever created.
    pub closed spec fn created_count(self) -> nat {
        self.slots@.len()
    }

    /// The stand-in has no handle values left to give out.
    pub open spec fn exhausted(self) -> bool {
        self.created_count() >= u64::MAX
    }

    /// Creation succeeds exactly under these conditions.
    pub open spec fn can_alloc(self) -> bool {
        self.alloc_enabled() && !self.exhausted()
    }

    /// The free log agrees with the handle table: a handle is in the log
    /// once if its slot says freed, and not at all otherwise.
    pub closed spec fn wf(self) -> bool {
        forall|h: u64|
            #[trigger] count_matches(self.frees@, h) == if self.freed_slot(h) {
                1nat
            } else {
                0nat
            }
    }

    /// A fresh library: no handles created, none freed, allocation enabled.
    pub fn new() -> (lib: NativeLib)
        ensures
            lib.wf(),
            lib.created_count() == 0,
            forall|h: u64| !lib.live(h),
            forall|h: u64| lib.freed_times(h) == 0,
            lib.alloc_enabled(),
    {
        NativeLib { slots: Vec::new(), frees: Vec::new(), alloc_ok: true }
    }

    /// Turns the simulated allocator on or off, so that a caller can exercise
    /// the allocation-failure path. Nothing else changes.
    pub fn set_alloc_ok(&mut self, ok: bool)
        requires
            old(self).wf(),
        ensures
            final(self).wf(),
            final(self).alloc_enabled() == ok,
            final(self).created_count() == old(self).created_count(),
            forall|h: u64| final(self).live(h) == old(self).live(h),
            forall|h: u64| final(self).freed_times(h) == old(self).freed_times(h),
    {
        self.alloc_ok = ok;
    }

    /// Whether the simulated allocator is currently on.
    pub fn allocator_on(&self) -> (r: bool)
        ensures
            r == self.alloc_enabled(),
    {
        self.alloc_ok
    }

    /// The native creation entry point of the stand-in: a fresh nonzero
    /// handle, or `None` in the role of the null handle when allocation
    /// fails. A failed call changes nothing, so there is never anything to
    /// free for it.
    pub fn create_environment(&mut self) -> (r: Option<u64>)
        requires
            old(self).wf(),
        ensures
            final(self).wf(),
            r is Some <==> old(self).can_alloc(),
            final(self).alloc_enabled() == old(self).alloc_enabled(),
            r matches Some(h) ==> {
                &&& h != 0
                &&& final(self).created_count() == old(self).created_count() + 1
                &&& !old(self).live(h)
                &&& old(self).freed_times(h) == 0
                &&& final(self).live(h)
                &&& forall|g: u64| g != h ==> final(self).live(g) == old(self).live(g)
                &&& forall|g: u64| final(self).freed_times(g) == old(self).freed_times(g)
            },
            r is None ==> *final(self) == *old(self),
    {
        if !self.alloc_ok {
            return None;
        }
        if !((self.slots.len() as u64) < u64::MAX) {
            return None;
        }
        let h: u64 = self.slots.len() as u64 + 1;
        self.slots.push(Slot::Live);
        Some(h)
    }

    /// The native free entry point of the stand-in: records the call in the
    /// log and marks the handle dead. The wrapper layer guarantees what the
    /// native library requires: the call comes only on a live handle, hence
    /// at most once per handle and never on the null handle.
    pub fn free_environment(&mut self, h: u64)
        requires
            old(self).wf(),
            old(self).live(h),
        ensures
            final(self).wf(),
            !final(self).live(h),
            old(self).freed_times(h) == 0,
            final(self).freed_times(h) == 1,
            forall|g: u64| g != h ==> final(self).live(g) == old(self).live(g),
            forall|g: u64| g != h ==> final(self).freed_times(g) == old(self).freed_times(g),
            final(self).alloc_enabled() == old(self).alloc_enabled(),
            final(self).created_count() == old(self).created_count(),
    {
        let n: usize = self.slots.len();
        proof {
            assert(1 <= h <= n);
        }
        let i: usize = (h as usize) - 1;
        self.slots[i] = Slot::Freed;
        self.frees.push(h);
        proof {
            assert forall|g: u64| true implies #[trigger] count_matches(self.frees@, g)
                == count_matches(old(self).frees@, g) + if g == h {
                1nat
            } else {
                0nat
            } by {
                lemma_count_push(old(self).frees@, h, g);
            }
        }
    }

    /// Whether `h` is a currently live handle.
    pub fn is_live(&self, h: u64) -> (r: bool)
        ensures
            r == self.live(h),
    {
        if 1 <= h && h <= self.slots.len() as u64 {
            let i: usize = (h as usize) - 1;
            self.slots[i] == Slot::Live
        } else {
            false
        }
    }

    /// How many times the free routine has run on `h`: the count of `h` in
    /// the log of free calls.
    pub fn free_count(&self, h: u64) -> (r: u64)
        ensures
            r == self.freed_times(h),
    {
        let mut n: u64 = 0;
        let mut i: usize = 0;
        while i < self.frees.len()
            invariant
                i <= self.frees@.len(),
                n <= i,
                n == count_matches(self.frees@.take(i as int), h),
            decreases self.frees@.len() - i,
        {
            proof {
                lemma_count_take_step(self.frees@, i as int, h);
            }
            if self.frees[i] == h {
                n = n + 1;
            }
            i = i + 1;
        }
        proof {
            assert(self.frees@.take(self.frees@.len() as int) =~= self.frees@);
        }
        n
    }

    /// A live handle is never the null handle.
    pub proof fn lemma_live_nonzero(self, h: u64)
        requires
            self.live(h),
        ensures
            h != 0,
    {
    }

    /// The free routine runs at most once per handle, whatever has happened.
    pub proof fn lemma_free_at_most_once(self, h: u64)
        requires
            self.wf(),
        ensures
            self.freed_times(h) <= 1,
    {
    }

    /// While a handle is live, the free routine has never run on it.
    pub proof fn lemma_live_never_freed(self, h: u64)
        requires
            self.wf(),
            self.live(h),
        ensures
            self.freed_times(h) == 0,
    {
    }
}

} // verus!
