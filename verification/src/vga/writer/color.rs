//! Printing in colours.

use crate::vga::primitives::{ColorCode, ScreenArea, ScreenChar, ScreenPos};
use crate::vga::traits::{ScreenView, VgaBuffer};
use vstd::prelude::*;

verus! {

/// Prints in colours of its own on the buffer it wraps. Everything else,
/// line breaks included, is the wrapped buffer's affair.
#[derive(Clone)]
pub struct ColorWriter<T> {
    color_code: ColorCode,
    buffer: T,
}

impl<T: VgaBuffer> ColorWriter<T> {
    /// The wrapped buffer.
    pub closed spec fn inner(&self) -> T {
        self.buffer
    }

    /// The colours of this writer.
    pub closed spec fn own_color(&self) -> ColorCode {
        self.color_code
    }

    /// Wraps a buffer, to print on it in the default colours.
    pub fn new_from(buffer: T) -> (writer: Self)
        ensures
            writer.inner() == buffer,
            writer.own_color() == ColorCode::default_code(),
    {
        Self { color_code: ColorCode::default(), buffer }
    }

    /// Wraps a buffer, to print on it in the given colours.
    pub fn new_from_with(buffer: T, color_code: ColorCode) -> (writer: Self)
        ensures
            writer.inner() == buffer,
            writer.own_color() == color_code,
    {
        Self { color_code, buffer }
    }

    /// Changes the colours in which the writer prints from now on.
    pub fn set_color_code(&mut self, color_code: ColorCode)
        ensures
            final(self).inner() == old(self).inner(),
            final(self).own_color() == color_code,
    {
        self.color_code = color_code;
    }
}

impl<T: VgaBuffer> VgaBuffer for ColorWriter<T> {
    open spec fn screen(&self) -> ScreenView {
        self.inner().screen()
    }

    open spec fn inv(&self) -> bool {
        self.inner().inv()
    }

    open spec fn color(&self) -> ColorCode {
        self.own_color()
    }

    open spec fn line_break(screen: ScreenView) -> ScreenView {
        T::line_break(screen)
    }

    proof fn lemma_inv_screen(&self) {
        self.inner().lemma_inv_screen();
    }

    fn write_at(&mut self, pos: ScreenPos, c: ScreenChar) {
        self.buffer.write_at(pos, c);
    }

    fn read_at(&self, pos: ScreenPos) -> (c: ScreenChar) {
        self.buffer.read_at(pos)
    }

    fn size(&self) -> (area: ScreenArea) {
        self.buffer.size()
    }

    fn cursor(&self) -> (pos: ScreenPos) {
        self.buffer.cursor()
    }

    fn set_cursor(&mut self, pos: ScreenPos) {
        self.buffer.set_cursor(pos)
    }

    fn color_code(&self) -> (code: ColorCode) {
        self.color_code
    }

    fn new_line(&mut self) {
        self.buffer.new_line()
    }
}

} // verus!
