//! Printing that rolls the screen up.

use crate::vga::primitives::{ColorCode, ScreenArea, ScreenChar, ScreenPos};
use crate::vga::traits::{ScreenView, VgaBuffer};
use crate::vga::writer::shift_up;
use vstd::prelude::*;

verus! {

/// Rolls the buffer it wraps: a line break moves every row up by one and
/// goes on in the blanked last row. Rolling may wrap a band of another
/// buffer, but not the other way round.
#[derive(Clone)]
pub struct RollingWriter<T> {
    column_position: u8,
    buffer: T,
}

impl<T: VgaBuffer> RollingWriter<T> {
    /// The wrapped buffer.
    pub closed spec fn inner(&self) -> T {
        self.buffer
    }

    pub fn new_from(buffer: T) -> (writer: Self)
        ensures
            writer.inner() == buffer,
    {
        Self { column_position: 0, buffer }
    }

    /// Moves the cursor into the last row and leaves it in its column.
    pub fn set_cursor_on_last_line(&mut self)
        requires
            old(self).inv(),
        ensures
            final(self).inv(),
            final(self).screen() == old(self).screen().move_cursor(
                ScreenPos {
                    row: (old(self).screen().size.rows - 1) as u8,
                    col: old(self).screen().cursor.col,
                },
            ),
    {
        proof {
            self.inner().lemma_inv_screen();
        }
        let size = self.buffer.size();
        let col = self.buffer.cursor().col;
        self.buffer.set_cursor(ScreenPos { row: size.rows - 1, col });
    }
}

impl<T: VgaBuffer> VgaBuffer for RollingWriter<T> {
    open spec fn screen(&self) -> ScreenView {
        self.inner().screen()
    }

    open spec fn inv(&self) -> bool {
        self.inner().inv()
    }

    open spec fn color(&self) -> ColorCode {
        ColorCode::default_code()
    }

    open spec fn line_break(screen: ScreenView) -> ScreenView {
        screen.rolled(ColorCode::default_code())
    }

    proof fn lemma_inv_screen(&self) {
        self.inner().lemma_inv_screen();
    }

    fn write_at(&mut self, pos: ScreenPos, c: ScreenChar) {
        self.buffer.write_at(pos, c);
    }

    fn read_at(&self, pos: ScreenPos) -> (c: ScreenChar) {
        self.buffer.read_at(pos)
    }

    fn size(&self) -> (area: ScreenArea) {
        self.buffer.size()
    }

    fn cursor(&self) -> (pos: ScreenPos) {
        self.buffer.cursor()
    }

    fn set_cursor(&mut self, pos: ScreenPos) {
        self.buffer.set_cursor(pos)
    }

    fn color_code(&self) -> (code: ColorCode) {
        ColorCode::default()
    }

    fn new_line(&mut self) {
        self.set_cursor_on_last_line();
        shift_up(&mut self.buffer, ColorCode::default());
        proof {
            self.inner().lemma_inv_screen();
        }
        let mut cursor = self.buffer.cursor();
        cursor.col = 0;
        self.buffer.set_cursor(cursor);
        proof {
            assert(self.screen() =~= old(self).screen().rolled(ColorCode::default_code()));
        }
    }
}

} // verus!
