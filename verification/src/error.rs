use vstd::prelude::*;

verus! {

/// The one failure this layer reports of itself: the native creation call
/// returned the null handle, which it does only on allocation failure.
/// Errors of dependent components pass through this layer unchanged.
#[derive(Clone, Copy, Debug, PartialEq, Eq, Structural)]
pub enum Error {
    AllocationFailure,
}

} // verus!
