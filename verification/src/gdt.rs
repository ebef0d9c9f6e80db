//! The interrupt stack table.

use vstd::prelude::*;

verus! {

/// The size in bytes of the stack that is reserved for the handler of
/// double faults.
pub const DOUBLE_FAULT_STACK_SIZE: usize = 5 * 4096;

/// The places in the interrupt stack table that the kernel uses. A handler
/// with a stack of its own still runs when the kernel stack has overflowed,
/// where otherwise the fault would be followed by a second and a third.
#[allow(non_camel_case_types)]
#[derive(Debug, Clone, Copy, PartialEq, Eq, Structural)]
pub enum IST_INDEX {
    DOUBLE_FAULT,
}

impl IST_INDEX {
    /// The index into the interrupt stack table.
    pub open spec fn spec_index(self) -> u16 {
        match self {
            IST_INDEX::DOUBLE_FAULT => 0,
        }
    }

    pub fn index(self) -> (index: u16)
        ensures
            index == self.spec_index(),
            index < 7,
    {
        match self {
            IST_INDEX::DOUBLE_FAULT => 0,
        }
    }

    /// The address one past the end of a stack that begins at `stack_start`:
    /// where its stack pointer starts out.
    pub fn stack_end(stack_start: u64) -> (end: Option<u64>)
        ensures
            end == if stack_start + DOUBLE_FAULT_STACK_SIZE <= u64::MAX {
                Some((stack_start + DOUBLE_FAULT_STACK_SIZE) as u64)
            } else {
                None
            },
    {
        stack_start.checked_add(DOUBLE_FAULT_STACK_SIZE as u64)
    }
}

} // verus!
