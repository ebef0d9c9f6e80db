//! The logic of a small kernel for one x86-64 core, with proofs.
//!
//! At its centre is a cooperative scheduler that is driven by interrupts:
//! [`task::executor`] owns the live tasks, the bounded queue of tasks that
//! await a poll and the cache of wake handles; [`task::keyboard`] and
//! [`task::timer`] are the bridges over which the keyboard and the timer
//! interrupt hand scancodes and ticks to the tasks that wait for them.
//! Around it stand the text screen ([`vga`]), the programs ([`programs`]),
//! and what the kernel computes about memory and interrupt vectors.
//!
//! Nothing here touches the hardware. The state that a kernel keeps in
//! process-wide variables is owned by values of this library, and what an
//! interrupt does is a call like any other, so that every function has a
//! contract over the values it is given.
pub mod gdt;
pub mod interrupts;
pub mod keyboard;
pub mod memory;
pub mod programs;
pub mod task;
pub mod util;
pub mod vga;
