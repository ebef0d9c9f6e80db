//! Windows of the screen.

use super::primitives::{ColorCode, RawBuffer, ScreenArea, ScreenChar, ScreenPos, BUFFER_COLS, BUFFER_ROWS};
use super::traits::{ScreenView, VgaBuffer};
use vstd::prelude::*;

verus! {

/// A window of the screen: a band of full rows with a cursor of its own.
/// Positions are counted from the upper left corner of the band.
pub struct Area {
    row_offset: u8,
    rows: u8,
    cursor: ScreenPos,
    buffer: RawBuffer,
}

impl Area {
    /// The first row of the band on the screen.
    pub closed spec fn row_offset(&self) -> u8 {
        self.row_offset
    }

    /// The number of rows of the band.
    pub closed spec fn rows(&self) -> u8 {
        self.rows
    }

    /// The cells of the screen.
    pub closed spec fn raw(&self) -> RawBuffer {
        self.buffer
    }

    /// The place of the cursor within the band.
    pub closed spec fn cursor_pos(&self) -> ScreenPos {
        self.cursor
    }

    /// The position on the screen that a position of the band stands for.
    pub open spec fn global(&self, pos: ScreenPos) -> ScreenPos {
        ScreenPos { row: (self.row_offset() + pos.row) as u8, col: pos.col }
    }

    /// The whole screen as one window.
    pub fn new_full_vga_buffer() -> (area: Area)
        ensures
            area.inv(),
            area.row_offset() == 0,
            area.rows() == BUFFER_ROWS,
            area.cursor_pos() == (ScreenPos { row: 0, col: 0 }),
    {
        Area::new(0, BUFFER_ROWS)
    }

    /// The band of `rows` rows that begins at row `row_offset` of a blank
    /// screen, with the cursor in its upper left corner. It is usable if it
    /// is not empty and ends on the screen.
    pub fn new(row_offset: u8, rows: u8) -> (area: Area)
        ensures
            area.row_offset() == row_offset,
            area.rows() == rows,
            area.cursor_pos() == (ScreenPos { row: 0, col: 0 }),
            area.raw().wf(),
            area.inv() <==> 1 <= rows && row_offset + rows <= BUFFER_ROWS,
    {
        Area { row_offset, rows, cursor: ScreenPos::default(), buffer: RawBuffer::new() }
    }

    fn relative_to_global_pos(&self, pos: ScreenPos) -> (global: ScreenPos)
        requires
            self.inv(),
            self.screen().size.contains(pos),
        ensures
            global == self.global(pos),
            RawBuffer::on_screen(global),
    {
        ScreenPos { row: self.row_offset + pos.row, col: pos.col }
    }

    /// The first row of the band on the screen.
    pub fn first_row(&self) -> (row: u8)
        ensures
            row == self.row_offset(),
    {
        self.row_offset
    }

    /// The cells of the screen, to be copied to the display.
    pub fn buffer(&self) -> (buffer: &RawBuffer)
        ensures
            *buffer == self.raw(),
    {
        &self.buffer
    }
}

impl VgaBuffer for Area {
    open spec fn screen(&self) -> ScreenView {
        ScreenView {
            chars: Map::new(
                |pos: ScreenPos| pos.row < self.rows() && pos.col < BUFFER_COLS,
                |pos: ScreenPos| self.raw().cell(self.global(pos)),
            ),
            cursor: self.cursor_pos(),
            size: ScreenArea { rows: self.rows(), cols: BUFFER_COLS },
        }
    }

    open spec fn inv(&self) -> bool {
        &&& self.raw().wf()
        &&& 1 <= self.rows()
        &&& self.row_offset() + self.rows() <= BUFFER_ROWS
        &&& self.cursor_pos().row < self.rows()
        &&& self.cursor_pos().col < BUFFER_COLS
    }

    open spec fn color(&self) -> ColorCode {
        ColorCode::default_code()
    }

    open spec fn line_break(screen: ScreenView) -> ScreenView {
        screen.line_broken()
    }

    proof fn lemma_inv_screen(&self) {
    }

    fn write_at(&mut self, pos: ScreenPos, c: ScreenChar) {
        let absolute_position = self.relative_to_global_pos(pos);
        self.buffer.write_at(absolute_position, c);
        proof {
            assert forall|other: ScreenPos|
                other.row < self.rows() && other.col < BUFFER_COLS implies #[trigger] self.screen().chars[other]
                == old(self).screen().write(pos, c).chars[other] by {
                if RawBuffer::index_of(self.global(other)) == RawBuffer::index_of(
                    self.global(pos),
                ) {
                    RawBuffer::lemma_index_injective(self.global(other), self.global(pos));
                }
                RawBuffer::lemma_index_injective(self.global(other), self.global(other));
                RawBuffer::lemma_index_injective(self.global(pos), self.global(pos));
            }
            assert(self.screen() =~= old(self).screen().write(pos, c));
        }
    }

    fn read_at(&self, pos: ScreenPos) -> (c: ScreenChar) {
        let absolute_position = self.relative_to_global_pos(pos);
        self.buffer.read_at(absolute_position)
    }

    fn cursor(&self) -> (pos: ScreenPos) {
        self.cursor
    }

    fn set_cursor(&mut self, pos: ScreenPos) {
        self.cursor = pos;
        proof {
            assert(self.screen() =~= old(self).screen().move_cursor(pos));
        }
    }

    fn size(&self) -> (area: ScreenArea) {
        ScreenArea { rows: self.rows, cols: BUFFER_COLS }
    }

    fn new_line(&mut self) {
        let row = if self.cursor.row + 1 < self.rows {
            self.cursor.row + 1
        } else {
            self.rows - 1
        };
        self.cursor = ScreenPos { row, col: 0 };
        proof {
            assert(self.screen() =~= old(self).screen().line_broken());
        }
    }

    fn color_code(&self) -> (code: ColorCode) {
        ColorCode::default()
    }
}

} // verus!
