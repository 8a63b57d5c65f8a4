//! Memory-ordering fences around accesses to the host's shared tables.

use vstd::prelude::*;
use core::sync::atomic::Ordering;

verus! {

/// `core::sync::atomic::fence`: returns for every ordering but `Relaxed`, for
/// which it panics. Nothing is claimed about what the fence does to memory.
pub assume_specification[ core::sync::atomic::fence ](order: Ordering)
    requires
        !(order is Relaxed),
;

/// Makes what other threads released visible to the loads that follow.
pub fn memory_fence_acquire() {
    core::sync::atomic::fence(Ordering::Acquire);
}

/// Makes the stores that came before visible to threads that acquire later.
/// A record is stored, then released, and only then announced.
pub fn memory_fence_release() {
    core::sync::atomic::fence(Ordering::Release);
}

} // verus!
