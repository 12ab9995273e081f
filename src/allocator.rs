use vstd::prelude::*;

use crate::errors::AllocationError;

verus! {

/// Largest alignment that firmware's pool allocator guarantees.
pub const MAX_POOL_ALIGN: usize = 8;

/// Heap allocation policy that forwards to firmware's pool allocator while
/// boot services exist, and refuses every request once it has been retired
/// ahead of their termination.
#[derive(Clone, Copy, Debug, PartialEq, Eq, Structural)]
pub struct Allocator {
    firmware_backed: bool,
}

impl Allocator {
    /// Whether requests may still go to firmware.
    pub closed spec fn spec_backed(&self) -> bool {
        self.firmware_backed
    }

    /// An allocator bound to firmware's pool services.
    pub fn new() -> (r: Allocator)
        ensures
            r.spec_backed(),
    {
        Allocator { firmware_backed: true }
    }

    /// Detaches from firmware; done before boot services are terminated.
    pub fn retire(&mut self)
        ensures
            !final(self).spec_backed(),
    {
        self.firmware_backed = false;
    }

    /// Whether a block may be handed back to firmware's pool: only while
    /// boot services exist.
    pub fn may_free(&self) -> (r: bool)
        ensures
            r == self.spec_backed(),
    {
        self.firmware_backed
    }

    /// Whether requests may still go to firmware.
    pub fn is_backed(&self) -> (r: bool)
        ensures
            r == self.spec_backed(),
    {
        self.firmware_backed
    }

    /// Decides a request for `size` bytes aligned to `align`, an alignment
    /// that pool memory guarantees: the pool size to ask firmware for, or
    /// why none may be asked.
    pub fn pool_request(&self, size: usize, align: usize) -> (r: Result<usize, AllocationError>)
        requires
            align <= MAX_POOL_ALIGN,
        ensures
            r == if self.spec_backed() {
                Ok::<usize, AllocationError>(size)
            } else {
                Err(AllocationError::OutOfResources)
            },
    {
        if self.firmware_backed {
            Ok(size)
        } else {
            Err(AllocationError::OutOfResources)
        }
    }
}

} // verus!
