//! Blocks of the process heap, and who answers for them.

use vstd::prelude::*;

verus! {

/// The allocator had no block to give.
#[derive(Clone, Copy, Debug, PartialEq, Eq, Structural)]
pub struct AllocationFailed;

/// A block of the process heap that its holder answers for: whoever holds
/// the value gives the block back to the heap, once. The field is the
/// block's address.
///
/// A block is in one of two states. While a `HeapMemory` stands for it, it is
/// owned. Once `into_ptr` has turned the value into a bare address, it is
/// released: the system may read it, and nothing gives it back until
/// `from_ptr` makes a `HeapMemory` of that address again.
#[derive(Debug, PartialEq, Eq, Structural)]
pub struct HeapMemory(pub usize);

impl HeapMemory {
    /// Takes charge of what the allocator returned: the null address means
    /// that it had no block to give.
    pub fn from_allocation(allocated: usize) -> (block: Result<HeapMemory, AllocationFailed>)
        ensures
            block == (if allocated == 0 {
                Err::<HeapMemory, AllocationFailed>(AllocationFailed)
            } else {
                Ok::<HeapMemory, AllocationFailed>(HeapMemory(allocated))
            }),
    {
        if allocated == 0 {
            Err(AllocationFailed)
        } else {
            Ok(HeapMemory(allocated))
        }
    }

    /// Takes charge again of a block that `into_ptr` released.
    pub fn from_ptr(ptr: usize) -> (block: HeapMemory)
        ensures
            block == HeapMemory(ptr),
    {
        HeapMemory(ptr)
    }

    /// Releases the block: the address is all that is left of it.
    pub fn into_ptr(self) -> (ptr: usize)
        ensures
            ptr == self.0,
    {
        self.0
    }

    /// The block's address, the block staying owned.
    pub fn as_ptr(&self) -> (ptr: usize)
        ensures
            ptr == self.0,
    {
        self.0
    }
}

} // verus!
