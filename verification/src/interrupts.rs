//! The interrupt vectors of the hardware interrupts.

use vstd::prelude::*;

verus! {

/// The interrupt vector of the first line of the first interrupt
/// controller: its lines 0-7 are remapped to the vectors 32-39, past the
/// vectors of the processor's exceptions.
pub const PIC_1_OFFSET: u8 = 32;

/// The interrupt vector of the first line of the second interrupt
/// controller: its lines are remapped to the vectors 40-47.
pub const PIC_2_OFFSET: u8 = PIC_1_OFFSET + 8;

/// The hardware interrupts that the kernel handles.
#[derive(Debug, Clone, Copy, PartialEq, Eq, Structural)]
pub enum InterruptIndex {
    Timer,
    Keyboard,
}

impl InterruptIndex {
    /// The interrupt vector: the timer is on the first line of the first
    /// controller, the keyboard on the second.
    pub open spec fn vector(self) -> u8 {
        match self {
            InterruptIndex::Timer => 32,
            InterruptIndex::Keyboard => 33,
        }
    }

    pub fn as_u8(self) -> (vector: u8)
        ensures
            vector == self.vector(),
            PIC_1_OFFSET <= vector < PIC_2_OFFSET,
    {
        match self {
            InterruptIndex::Timer => PIC_1_OFFSET,
            InterruptIndex::Keyboard => PIC_1_OFFSET + 1,
        }
    }

    pub fn as_usize(self) -> (vector: usize)
        ensures
            vector == self.vector(),
    {
        self.as_u8() as usize
    }
}

} // verus!
