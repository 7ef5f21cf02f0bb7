//! Accounting model of the device-memory allocator.
//!
//! The renderer owns one sub-allocator for device memory; every buffer
//! allocation is registered here and every destruction releases it, so
//! that teardown can prove the allocator reports no leaked blocks.

use vstd::prelude::*;

verus! {

/// Tracks how many device-memory blocks are currently allocated.
pub struct Allocator {
    /// Number of blocks handed out and not yet released.
    pub live_blocks: usize,
}

impl Allocator {
    /// How many blocks are live in this allocator.
    pub open spec fn live(self) -> nat {
        self.live_blocks as nat
    }

    /// A fresh allocator with no live blocks.
    pub fn new() -> (r: Allocator)
        ensures
            r.live() == 0,
    {
        Allocator { live_blocks: 0 }
    }

    /// Registers one newly allocated block.
    pub fn allocate(&mut self)
        requires
            old(self).live() < usize::MAX,
        ensures
            final(self).live() == old(self).live() + 1,
    {
        self.live_blocks = self.live_blocks + 1;
    }

    /// Releases one allocated block.
    pub fn free(&mut self)
        requires
            old(self).live() >= 1,
        ensures
            final(self).live() == old(self).live() - 1,
    {
        self.live_blocks = self.live_blocks - 1;
    }

    /// The number of blocks a leak report would show.
    pub fn leak_count(&self) -> (n: usize)
        ensures
            n == self.live(),
    {
        self.live_blocks
    }
}

} // verus!
