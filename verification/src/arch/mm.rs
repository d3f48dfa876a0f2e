//! The heap of the firmware.
use vstd::prelude::*;
use crate::config::MEM_SIZE;

verus! {

/// The region handed to the heap allocator, as (start address, size in bytes): it
/// starts at `heap_start`, and its size is `MEM_SIZE - heap_start`.
pub fn init_heap(heap_start: usize) -> (r: (usize, usize))
    requires
        heap_start <= MEM_SIZE,
    ensures
        r.0 == heap_start,
        r.1 == MEM_SIZE - heap_start,
{
    let mem_size = MEM_SIZE - heap_start;
    (heap_start, mem_size)
}

} // verus!
