//! The place of the kernel heap in the address space.

use vstd::prelude::*;

verus! {

/// The virtual address at which the kernel heap begins.
pub const HEAP_START: u64 = 0x4444_4444_0000;

/// The size of the kernel heap in bytes.
pub const HEAP_SIZE: u64 = 128 * 1024;

/// Why the kernel heap could not be set up.
#[derive(Clone, Copy, Debug, PartialEq, Eq, Structural)]
pub enum HeapError {
    /// No frame was left to back a page of the heap.
    FrameAllocationFailed,
}

/// The start address of the page that holds an address.
pub open spec fn page_of(address: u64) -> u64 {
    (address - address % 4096) as u64
}

/// The pages that back the heap: the start addresses of the first and of
/// the last page, both of which belong to the heap.
pub fn heap_page_range() -> (range: (u64, u64))
    ensures
        range.0 == page_of(HEAP_START),
        range.1 == page_of((HEAP_START + HEAP_SIZE - 1) as u64),
        range.0 <= range.1,
        (range.1 - range.0) / 4096 + 1 == 32,
{
    let heap_start: u64 = HEAP_START;
    let heap_end: u64 = heap_start + HEAP_SIZE - 1;
    (heap_start - heap_start % 4096, heap_end - heap_end % 4096)
}

/// The start address of the page after the one at `page`, as long as the
/// heap goes on: `None` after the last page of the range.
pub fn next_heap_page(page: u64, last: u64) -> (next: Option<u64>)
    requires
        page <= last,
        last <= u64::MAX - 4096,
    ensures
        next == if page < last {
            Some((page + 4096) as u64)
        } else {
            None
        },
{
    if page < last {
        Some(page + 4096)
    } else {
        None
    }
}

/// Takes the frame that was asked for to back a page of the heap, or tells
/// that the heap cannot be set up for want of a frame.
pub fn frame_for_page(frame: Option<u64>) -> (backing: Result<u64, HeapError>)
    ensures
        backing == match frame {
            Some(address) => Ok::<u64, HeapError>(address),
            None => Err::<u64, HeapError>(HeapError::FrameAllocationFailed),
        },
{
    match frame {
        Some(address) => Ok(address),
        None => Err(HeapError::FrameAllocationFailed),
    }
}

} // verus!
