//! A pass-through writer.

use crate::vga::primitives::{ColorCode, ScreenArea, ScreenChar, ScreenPos};
use crate::vga::traits::{ScreenView, VgaBuffer};
use crate::vga::writer::plain_new_line;
use vstd::prelude::*;

verus! {

/// Hands every operation on to the buffer it wraps; it exists to state, at
/// one place in a stack of writers, that positions lie within the area.
#[derive(Clone)]
pub struct Validator<T> {
    buffer: T,
}

impl<T: VgaBuffer> Validator<T> {
    /// The wrapped buffer.
    pub closed spec fn inner(&self) -> T {
        self.buffer
    }

    pub fn new_from(buffer: T) -> (validator: Self)
        ensures
            validator.inner() == buffer,
    {
        Self { buffer }
    }
}

impl<T: VgaBuffer> VgaBuffer for Validator<T> {
    open spec fn screen(&self) -> ScreenView {
        self.inner().screen()
    }

    open spec fn inv(&self) -> bool {
        self.inner().inv()
    }

    open spec fn color(&self) -> ColorCode {
        ColorCode::default_code()
    }

    open spec fn line_break(screen: ScreenView) -> ScreenView {
        screen.line_broken()
    }

    proof fn lemma_inv_screen(&self) {
        self.inner().lemma_inv_screen();
    }

    fn write_at(&mut self, pos: ScreenPos, c: ScreenChar) {
        self.buffer.write_at(pos, c);
    }

    fn read_at(&self, pos: ScreenPos) -> (c: ScreenChar) {
        self.buffer.read_at(pos)
    }

    fn size(&self) -> (area: ScreenArea) {
        self.buffer.size()
    }

    fn cursor(&self) -> (pos: ScreenPos) {
        self.buffer.cursor()
    }

    fn set_cursor(&mut self, pos: ScreenPos) {
        self.buffer.set_cursor(pos)
    }

    fn new_line(&mut self) {
        plain_new_line(&mut self.buffer);
    }

    fn color_code(&self) -> (code: ColorCode) {
        ColorCode::default()
    }
}

} // verus!
