//! Writers: text buffers that wrap one another, each adding one ability.

use super::primitives::{ColorCode, RawBuffer, ScreenArea, ScreenChar, ScreenPos, BUFFER_COLS, BUFFER_ROWS};
use super::traits::{blank, ScreenView, VgaBuffer};
use vstd::prelude::*;

pub mod color;
pub mod rolling;
pub mod subarea;
pub mod validator;

verus! {

/// Breaks the line the plain way, whatever the buffer: the cursor goes to
/// the start of the row below, and stays in the last row once it is there.
pub fn plain_new_line<T: VgaBuffer>(buffer: &mut T)
    requires
        old(buffer).inv(),
    ensures
        final(buffer).inv(),
        final(buffer).screen() == old(buffer).screen().line_broken(),
        final(buffer).color() == old(buffer).color(),
{
    proof {
        buffer.lemma_inv_screen();
    }
    let mut cursor = buffer.cursor();
    let rows = buffer.size().rows;
    cursor.row = if cursor.row + 1 < rows {
        cursor.row + 1
    } else {
        rows - 1
    };
    cursor.col = 0;
    buffer.set_cursor(cursor);
}

/// Shifts the content of a buffer up by one row and blanks its last row in
/// the given colours. The cursor stays where it is.
pub fn shift_up<T: VgaBuffer>(buffer: &mut T, color: ColorCode)
    requires
        old(buffer).inv(),
    ensures
        final(buffer).inv(),
        final(buffer).screen() == old(buffer).screen().shifted_up(color),
        final(buffer).color() == old(buffer).color(),
{
    proof {
        buffer.lemma_inv_screen();
    }
    let size = buffer.size();
    let ghost start = buffer.screen();
    proof {
        assert(buffer.screen() =~= start.rows_shifted(1, 0));
    }
    let mut row: u8 = 1;
    while row < size.rows
        invariant
            1 <= row <= size.rows,
            size == start.size,
            start.wf(),
            buffer.inv(),
            buffer.color() == old(buffer).color(),
            buffer.screen() == start.rows_shifted(row as int, 0),
        decreases size.rows - row,
    {
        let mut col: u8 = 0;
        while col < size.cols
            invariant
                1 <= row < size.rows,
                col <= size.cols,
                size == start.size,
                start.wf(),
                buffer.inv(),
                buffer.color() == old(buffer).color(),
                buffer.screen() == start.rows_shifted(row as int, col as int),
            decreases size.cols - col,
        {
            let c = buffer.read_at(ScreenPos { row, col });
            buffer.write_at(ScreenPos { row: row - 1, col }, c);
            proof {
                assert(buffer.screen() =~= start.rows_shifted(row as int, col as int + 1));
            }
            col = col + 1;
        }
        proof {
            assert(buffer.screen() =~= start.rows_shifted(row as int + 1, 0));
        }
        row = row + 1;
    }
    let clear = ScreenChar { ascii_character: 0x20, color_code: color };
    let last = size.rows - 1;
    let ghost shifted = buffer.screen();
    let mut col: u8 = 0;
    proof {
        assert(buffer.screen() =~= shifted.row_cleared_upto(last, 0, color));
    }
    while col < size.cols
        invariant
            col <= size.cols,
            last == size.rows - 1,
            size == start.size,
            start.wf(),
            shifted == start.rows_shifted(size.rows as int, 0),
            clear == blank(color),
            buffer.inv(),
            buffer.color() == old(buffer).color(),
            buffer.screen() == shifted.row_cleared_upto(last, col as int, color),
        decreases size.cols - col,
    {
        buffer.write_at(ScreenPos { row: last, col }, clear);
        proof {
            assert(buffer.screen() =~= shifted.row_cleared_upto(last, col as int + 1, color));
        }
        col = col + 1;
    }
    proof {
        assert(buffer.screen() =~= start.shifted_up(color));
    }
}

/// The whole screen with a cursor: the bottom of every stack of writers.
#[derive(Clone)]
pub struct BasicWriter {
    cursor: ScreenPos,
    buffer: RawBuffer,
}

impl BasicWriter {
    /// The cells of the screen.
    pub closed spec fn raw(&self) -> RawBuffer {
        self.buffer
    }

    /// The place of the cursor.
    pub closed spec fn cursor_pos(&self) -> ScreenPos {
        self.cursor
    }

    /// A blank screen with the cursor in the upper left corner.
    pub fn new() -> (writer: BasicWriter)
        ensures
            writer.inv(),
            writer.screen().cursor == (ScreenPos { row: 0, col: 0 }),
            forall|pos: ScreenPos|
                RawBuffer::on_screen(pos) ==> #[trigger] writer.screen().chars[pos]
                    == ScreenChar::blank_on(super::primitives::Color::Black),
    {
        let writer = BasicWriter { cursor: ScreenPos::default(), buffer: RawBuffer::new() };
        proof {
            assert forall|pos: ScreenPos| RawBuffer::on_screen(pos) implies #[trigger] writer.screen().chars[pos]
                == ScreenChar::blank_on(super::primitives::Color::Black) by {
                RawBuffer::lemma_index_injective(pos, pos);
            }
        }
        writer
    }

    /// The cells of the screen, to be copied to the display.
    pub fn buffer(&self) -> (buffer: &RawBuffer)
        ensures
            *buffer == self.raw(),
    {
        &self.buffer
    }
}

impl Default for BasicWriter {
    fn default() -> (writer: BasicWriter)
        ensures
            writer.inv(),
    {
        BasicWriter::new()
    }
}

impl VgaBuffer for BasicWriter {
    open spec fn screen(&self) -> ScreenView {
        ScreenView {
            chars: Map::new(
                |pos: ScreenPos| RawBuffer::on_screen(pos),
                |pos: ScreenPos| self.raw().cell(pos),
            ),
            cursor: self.cursor_pos(),
            size: ScreenArea { rows: BUFFER_ROWS, cols: BUFFER_COLS },
        }
    }

    open spec fn inv(&self) -> bool {
        self.raw().wf() && RawBuffer::on_screen(self.cursor_pos())
    }

    open spec fn color(&self) -> ColorCode {
        ColorCode::default_code()
    }

    open spec fn line_break(screen: ScreenView) -> ScreenView {
        screen.line_broken()
    }

    proof fn lemma_inv_screen(&self) {
    }

    fn write_at(&mut self, pos: ScreenPos, c: ScreenChar) {
        self.buffer.write_at(pos, c);
        proof {
            assert forall|other: ScreenPos| RawBuffer::on_screen(other) implies #[trigger] self.screen().chars[other]
                == old(self).screen().write(pos, c).chars[other] by {
                if RawBuffer::index_of(other) == RawBuffer::index_of(pos) {
                    RawBuffer::lemma_index_injective(other, pos);
                }
                RawBuffer::lemma_index_injective(other, other);
                RawBuffer::lemma_index_injective(pos, pos);
            }
            assert(self.screen() =~= old(self).screen().write(pos, c));
        }
    }

    fn read_at(&self, pos: ScreenPos) -> (c: ScreenChar) {
        self.buffer.read_at(pos)
    }

    fn cursor(&self) -> (pos: ScreenPos) {
        self.cursor
    }

    fn set_cursor(&mut self, pos: ScreenPos) {
        self.cursor = pos;
        proof {
            assert(self.screen() =~= old(self).screen().move_cursor(pos));
        }
    }

    fn size(&self) -> (area: ScreenArea) {
        self.buffer.get_size()
    }

    fn new_line(&mut self) {
        let row = if self.cursor.row + 1 < BUFFER_ROWS {
            self.cursor.row + 1
        } else {
            BUFFER_ROWS - 1
        };
        self.cursor = ScreenPos { row, col: 0 };
        proof {
            assert(self.screen() =~= old(self).screen().line_broken());
        }
    }

    fn color_code(&self) -> (code: ColorCode) {
        ColorCode::default()
    }
}

} // verus!
