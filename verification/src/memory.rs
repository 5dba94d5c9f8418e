//! Memory shared with a service.
use crate::handle::Handle;
use vstd::prelude::*;

verus! {

/// A region of memory that the kernel knows by a capability: its size in bytes
/// and the capability. How the region was allocated is not this library's
/// business.
pub struct MemoryBlock {
    handle: Handle,
    size: usize,
}

impl MemoryBlock {
    /// The capability that stands for the region.
    pub closed spec fn handle(&self) -> Handle {
        self.handle
    }

    /// The size of the region in bytes.
    pub closed spec fn size(&self) -> usize {
        self.size
    }

    /// Describes a region of `size` bytes that `handle` stands for.
    pub fn new(handle: Handle, size: usize) -> (block: MemoryBlock)
        ensures
            block.handle() == handle,
            block.size() == size,
    {
        MemoryBlock { handle, size }
    }

    pub fn get_size(&self) -> (size: usize)
        ensures
            size == self.size(),
    {
        self.size
    }

    pub fn get_handle(&self) -> (handle: &Handle)
        ensures
            *handle == self.handle(),
    {
        &self.handle
    }

    /// Gives up the description and keeps the capability.
    pub fn into_handle(self) -> (handle: Handle)
        ensures
            handle == self.handle(),
    {
        self.handle
    }
}

} // verus!
