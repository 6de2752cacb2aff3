//! Boot-time heap sizing.
//!
//! Boards that feed a bump allocator from a linker-provided region must
//! decide, before handing the region over, whether it actually holds the
//! heap the firmware wants; a region that is too small halts the boot.
//! That decision is a pure function of the region's two addresses and is
//! verified here. Reading the linker symbols and initializing the
//! allocator over the approved bytes are the board's unsafe bring-up,
//! outside the library.

use vstd::prelude::*;

verus! {

/// Bytes of heap the monitor asks the allocator to manage.
pub const HEAP_SIZE: usize = 32 * 1024;

/// A linker region `[start, end)` suffices when it holds strictly more
/// than [`HEAP_SIZE`] bytes.
pub open spec fn heap_region_sufficient_spec(start: int, end: int) -> bool {
    end - start > HEAP_SIZE as int
}

/// Decide whether the region handed down by the linker can hold the heap.
/// The board's bring-up must halt on `false` instead of initializing the
/// allocator: there is no degraded mode.
pub fn heap_region_sufficient(start: usize, end: usize) -> (ok: bool)
    ensures
        ok == heap_region_sufficient_spec(start as int, end as int),
{
    end > start && end - start > HEAP_SIZE
}

/// A sufficient region strictly contains the heap handed to the
/// allocator: the [`HEAP_SIZE`] bytes starting at `start` end before the
/// region does.
pub proof fn lemma_heap_region_contained(start: int, end: int)
    requires
        heap_region_sufficient_spec(start, end),
    ensures
        start + HEAP_SIZE < end,
{
}

} // verus!
