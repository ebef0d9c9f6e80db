//! Printing in a band of rows.

use crate::vga::primitives::{
    Color, ColorCode, RawBuffer, ScreenArea, ScreenChar, ScreenPos, BUFFER_COLS, BUFFER_ROWS,
};
use crate::vga::traits::{ScreenView, VgaBuffer};
use crate::vga::writer::BasicWriter;
use vstd::prelude::*;

verus! {

/// The position in the wrapped buffer that a position of the part stands
/// for.
pub open spec fn shifted(offset: ScreenPos, pos: ScreenPos) -> ScreenPos {
    ScreenPos { row: (pos.row + offset.row) as u8, col: (pos.col + offset.col) as u8 }
}

/// A band of rows of another buffer, used as a buffer of its own. Positions
/// are counted from the upper left corner of the band; the cursor is the
/// wrapped buffer's.
#[derive(Clone)]
pub struct SubareaWriter<T: VgaBuffer> {
    pos: ScreenPos,
    area: ScreenArea,
    column_position: u8,
    buffer: T,
}

impl<T: VgaBuffer> SubareaWriter<T> {
    /// The wrapped buffer.
    pub closed spec fn inner(&self) -> T {
        self.buffer
    }

    /// The upper left corner of the band within the wrapped buffer.
    pub closed spec fn offset(&self) -> ScreenPos {
        self.pos
    }

    /// The extent of the band.
    pub closed spec fn area(&self) -> ScreenArea {
        self.area
    }

    /// The band is not empty and lies within the wrapped buffer.
    pub open spec fn fits(&self) -> bool {
        &&& self.area().rows >= 1
        &&& self.area().cols >= 1
        &&& self.offset().row + self.area().rows <= self.inner().screen().size.rows
        &&& self.offset().col + self.area().cols <= self.inner().screen().size.cols
    }

    /// Makes the band of `height` rows that begins at row `start` of the
    /// buffer and is as wide as the buffer.
    pub fn new_from(buffer: T, start: u8, height: u8) -> (writer: Self)
        ensures
            writer.inner() == buffer,
            writer.offset() == (ScreenPos { row: start, col: 0 }),
            writer.area() == (ScreenArea { rows: height, cols: buffer.screen().size.cols }),
    {
        let cols = buffer.size().cols;
        let area = ScreenArea { rows: height, cols };
        let pos = ScreenPos { row: start, col: 0 };
        Self { pos, area, column_position: 0, buffer }
    }
}

impl SubareaWriter<BasicWriter> {
    /// Splits a blank screen at a row into an upper and a lower band.
    pub fn new_split(at: u8) -> (bands: (Self, Self))
        requires
            at <= BUFFER_ROWS,
        ensures
            bands.0.offset() == (ScreenPos { row: 0, col: 0 }),
            bands.0.area() == (ScreenArea { rows: at, cols: BUFFER_COLS }),
            bands.1.offset() == (ScreenPos { row: at, col: 0 }),
            bands.1.area() == (ScreenArea { rows: (BUFFER_ROWS - at) as u8, cols: BUFFER_COLS }),
            1 <= at ==> bands.0.inv(),
            at < BUFFER_ROWS ==> bands.1.inv(),
    {
        let buffer = BasicWriter::new();
        let buffer2 = BasicWriter::new();
        let rows = buffer.size().rows;
        (Self::new_from(buffer, 0, at), Self::new_from(buffer2, at, rows - at))
    }

    /// The upper half of a blank screen: its first twelve rows.
    pub fn new_top_half() -> (writer: Self)
        ensures
            writer.inv(),
            writer.offset() == (ScreenPos { row: 0, col: 0 }),
            writer.area() == (ScreenArea { rows: 12, cols: BUFFER_COLS }),
    {
        let buffer = BasicWriter::new();
        let rows = buffer.size().rows;
        Self::new_from(buffer, 0, rows / 2)
    }

    /// The lower half of a blank screen: the twelve rows from row twelve on.
    pub fn new_bottom_half() -> (writer: Self)
        ensures
            writer.inv(),
            writer.offset() == (ScreenPos { row: 12, col: 0 }),
            writer.area() == (ScreenArea { rows: 12, cols: BUFFER_COLS }),
    {
        let buffer = BasicWriter::new();
        let rows = buffer.size().rows;
        Self::new_from(buffer, rows / 2, rows / 2)
    }

    /// The band of `height` rows that begins at row `start` of a blank
    /// screen. It is usable if it is not empty and ends on the screen.
    pub fn new(start: u8, height: u8) -> (writer: Self)
        ensures
            writer.offset() == (ScreenPos { row: start, col: 0 }),
            writer.area() == (ScreenArea { rows: height, cols: BUFFER_COLS }),
            writer.screen().cursor == (ScreenPos { row: 0, col: 0 }),
            writer.inv() <==> 1 <= height && start + height <= BUFFER_ROWS,
            writer.inv() ==> forall|pos: ScreenPos|
                writer.area().contains(pos) ==> #[trigger] writer.screen().chars[pos]
                    == ScreenChar::blank_on(Color::Black),
    {
        let writer = Self::new_from(BasicWriter::new(), start, height);
        proof {
            if writer.inv() {
                assert forall|pos: ScreenPos| writer.area().contains(pos) implies #[trigger] writer.screen().chars[pos]
                    == ScreenChar::blank_on(Color::Black) by {
                    assert(RawBuffer::on_screen(shifted(writer.offset(), pos)));
                }
            }
        }
        writer
    }
}

impl<T: VgaBuffer> VgaBuffer for SubareaWriter<T> {
    open spec fn screen(&self) -> ScreenView {
        ScreenView {
            chars: Map::new(
                |pos: ScreenPos| self.area().contains(pos),
                |pos: ScreenPos| self.inner().screen().chars[shifted(self.offset(), pos)],
            ),
            cursor: self.inner().screen().cursor,
            size: self.area(),
        }
    }

    open spec fn inv(&self) -> bool {
        &&& self.inner().inv()
        &&& self.fits()
        &&& self.area().contains(self.inner().screen().cursor)
    }

    open spec fn color(&self) -> ColorCode {
        ColorCode::default_code()
    }

    open spec fn line_break(screen: ScreenView) -> ScreenView {
        screen.line_broken()
    }

    proof fn lemma_inv_screen(&self) {
    }

    fn write_at(&mut self, pos: ScreenPos, c: ScreenChar) {
        proof {
            self.inner().lemma_inv_screen();
        }
        let target = ScreenPos { row: pos.row + self.pos.row, col: pos.col + self.pos.col };
        self.buffer.write_at(target, c);
        proof {
            assert(self.screen() =~= old(self).screen().write(pos, c));
        }
    }

    fn read_at(&self, pos: ScreenPos) -> (c: ScreenChar) {
        proof {
            self.inner().lemma_inv_screen();
        }
        let target = ScreenPos { row: pos.row + self.pos.row, col: pos.col + self.pos.col };
        self.buffer.read_at(target)
    }

    fn size(&self) -> (area: ScreenArea) {
        self.area
    }

    fn cursor(&self) -> (pos: ScreenPos) {
        self.buffer.cursor()
    }

    fn set_cursor(&mut self, pos: ScreenPos) {
        proof {
            self.inner().lemma_inv_screen();
        }
        self.buffer.set_cursor(pos);
        proof {
            assert(self.screen() =~= old(self).screen().move_cursor(pos));
        }
    }

    fn new_line(&mut self) {
        proof {
            self.inner().lemma_inv_screen();
        }
        let cursor = self.buffer.cursor();
        let row = if cursor.row + 1 < self.area.rows {
            cursor.row + 1
        } else {
            self.area.rows - 1
        };
        self.buffer.set_cursor(ScreenPos { row, col: 0 });
        proof {
            assert(self.screen() =~= old(self).screen().line_broken());
        }
    }

    fn color_code(&self) -> (code: ColorCode) {
        ColorCode::default()
    }
}

} // verus!
