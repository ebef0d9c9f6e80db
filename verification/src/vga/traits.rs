//! What a text buffer is, what it shows, and how text is printed on it.

use super::primitives::{ColorCode, ScreenArea, ScreenChar, ScreenPos};
use vstd::prelude::*;
use vstd::string::StringSliceAdditionalSpecFns;

verus! {

/// What a text buffer shows: the cell at every position of its area, the
/// place of the cursor, and the extent of the area.
#[verifier::ext_equal]
pub struct ScreenView {
    pub chars: Map<ScreenPos, ScreenChar>,
    pub cursor: ScreenPos,
    pub size: ScreenArea,
}

/// The bytes of a slice.
pub open spec fn bytes_of(bytes: &[u8]) -> Seq<u8> {
    bytes@
}

/// A space in the given colours.
pub open spec fn blank(color: ColorCode) -> ScreenChar {
    ScreenChar { ascii_character: 0x20, color_code: color }
}

/// The byte that is shown for a byte of text: printable ASCII, carriage
/// return and line feed stand for themselves, every other byte for `0xfe`.
pub open spec fn shown_byte(byte: u8) -> u8 {
    if (0x20 <= byte <= 0x7e) || byte == 0x0d || byte == 0x0a {
        byte
    } else {
        0xfe
    }
}

impl ScreenView {
    /// The area is not empty, holds the cursor, and has a cell at each of
    /// its positions and nowhere else.
    pub open spec fn wf(self) -> bool {
        &&& self.size.rows >= 1
        &&& self.size.cols >= 1
        &&& self.size.contains(self.cursor)
        &&& forall|pos: ScreenPos| #[trigger] self.chars.contains_key(pos) <==> self.size.contains(pos)
    }

    /// The screen with one cell replaced.
    pub open spec fn write(self, pos: ScreenPos, c: ScreenChar) -> ScreenView {
        ScreenView { chars: self.chars.insert(pos, c), ..self }
    }

    /// The screen with the cursor somewhere else.
    pub open spec fn move_cursor(self, pos: ScreenPos) -> ScreenView {
        ScreenView { cursor: pos, ..self }
    }

    /// The row below the cursor, or the last row if the cursor is in it.
    pub open spec fn row_below(self) -> u8 {
        if self.cursor.row + 1 < self.size.rows {
            (self.cursor.row + 1) as u8
        } else {
            (self.size.rows - 1) as u8
        }
    }

    /// The plain line break: the cursor goes to the start of the row below
    /// and stays in the last row once it is there.
    pub open spec fn line_broken(self) -> ScreenView {
        self.move_cursor(ScreenPos { row: self.row_below(), col: 0 })
    }

    /// The screen with the cursor one cell on: to the right, or to the start
    /// of the row below at the end of a row.
    pub open spec fn advanced(self) -> ScreenView {
        if self.cursor.col + 1 < self.size.cols {
            self.move_cursor(ScreenPos { row: self.cursor.row, col: (self.cursor.col + 1) as u8 })
        } else {
            self.line_broken()
        }
    }

    /// The screen with the columns of one row before `upto` blanked.
    pub open spec fn row_cleared_upto(self, row: u8, upto: int, color: ColorCode) -> ScreenView {
        ScreenView {
            chars: Map::new(
                |pos: ScreenPos| self.chars.contains_key(pos),
                |pos: ScreenPos|
                    if pos.row == row && pos.col < upto {
                        blank(color)
                    } else {
                        self.chars[pos]
                    },
            ),
            ..self
        }
    }

    /// The screen with one row blanked.
    pub open spec fn row_cleared(self, row: u8, color: ColorCode) -> ScreenView {
        self.row_cleared_upto(row, self.size.cols as int, color)
    }

    /// The screen while it is being rolled up: the cells before position
    /// (`row`, `col`), counted row by row from the second row on, have been
    /// copied into the row above them.
    pub open spec fn rows_shifted(self, row: int, col: int) -> ScreenView {
        ScreenView {
            chars: Map::new(
                |pos: ScreenPos| self.chars.contains_key(pos),
                |pos: ScreenPos|
                    if pos.row + 1 < row || (pos.row + 1 == row && pos.col < col) {
                        self.chars[ScreenPos { row: (pos.row + 1) as u8, col: pos.col }]
                    } else {
                        self.chars[pos]
                    },
            ),
            ..self
        }
    }

    /// The screen with its content moved up by one row: every row shows
    /// what the row below showed, and the last row is blank. The cursor
    /// stays where it is.
    pub open spec fn shifted_up(self, color: ColorCode) -> ScreenView {
        ScreenView {
            chars: Map::new(
                |pos: ScreenPos| self.chars.contains_key(pos),
                |pos: ScreenPos|
                    if pos.row + 1 < self.size.rows {
                        self.chars[ScreenPos { row: (pos.row + 1) as u8, col: pos.col }]
                    } else {
                        blank(color)
                    },
            ),
            ..self
        }
    }

    /// The screen rolled up by one row: the content moves up, the last row
    /// is blank, and the cursor stands at its start.
    pub open spec fn rolled(self, color: ColorCode) -> ScreenView {
        self.shifted_up(color).move_cursor(
            ScreenPos { row: (self.size.rows - 1) as u8, col: 0 },
        )
    }
}

/// A text buffer with a cursor: the screen, or a part or a decoration of
/// another buffer.
pub trait VgaBuffer: Sized {
    /// What the buffer shows.
    spec fn screen(&self) -> ScreenView;

    /// What must hold of the buffer for its operations to be used.
    spec fn inv(&self) -> bool;

    /// The colours in which the buffer prints.
    spec fn color(&self) -> ColorCode;

    /// What a line break makes of a screen in this kind of buffer.
    spec fn line_break(screen: ScreenView) -> ScreenView;

    /// A usable buffer shows a well-formed screen.
    proof fn lemma_inv_screen(&self)
        requires
            self.inv(),
        ensures
            self.screen().wf(),
    ;

    fn write_at(&mut self, pos: ScreenPos, c: ScreenChar)
        requires
            old(self).inv(),
            old(self).screen().size.contains(pos),
        ensures
            final(self).inv(),
            final(self).screen() == old(self).screen().write(pos, c),
            final(self).color() == old(self).color(),
    ;

    fn read_at(&self, pos: ScreenPos) -> (c: ScreenChar)
        requires
            self.inv(),
            self.screen().size.contains(pos),
        ensures
            c == self.screen().chars[pos],
    ;

    fn cursor(&self) -> (pos: ScreenPos)
        ensures
            pos == self.screen().cursor,
    ;

    fn set_cursor(&mut self, pos: ScreenPos)
        requires
            old(self).inv(),
            old(self).screen().size.contains(pos),
        ensures
            final(self).inv(),
            final(self).screen() == old(self).screen().move_cursor(pos),
            final(self).color() == old(self).color(),
    ;

    fn size(&self) -> (area: ScreenArea)
        ensures
            area == self.screen().size,
    ;

    fn new_line(&mut self)
        requires
            old(self).inv(),
        ensures
            final(self).inv(),
            final(self).screen() == Self::line_break(old(self).screen()),
            final(self).color() == old(self).color(),
    ;

    fn color_code(&self) -> (code: ColorCode)
        ensures
            code == self.color(),
    ;

    /// Blanks one row in the colours of the buffer.
    fn clear_row(&mut self, row: u8)
        requires
            old(self).inv(),
            row < old(self).screen().size.rows,
        ensures
            final(self).inv(),
            final(self).screen() == old(self).screen().row_cleared(row, old(self).color()),
            final(self).color() == old(self).color(),
    {
        let clear = ScreenChar { ascii_character: 0x20, color_code: self.color_code() };
        let cols = self.size().cols;
        let mut col: u8 = 0;
        proof {
            self.lemma_inv_screen();
            assert(self.screen() =~= old(self).screen().row_cleared_upto(row, 0, self.color()));
        }
        while col < cols
            invariant
                col <= cols,
                cols == old(self).screen().size.cols,
                row < old(self).screen().size.rows,
                old(self).screen().wf(),
                clear == blank(old(self).color()),
                self.inv(),
                self.color() == old(self).color(),
                self.screen() == old(self).screen().row_cleared_upto(
                    row,
                    col as int,
                    old(self).color(),
                ),
            decreases cols - col,
        {
            let pos = ScreenPos { row, col };
            self.write_at(pos, clear);
            proof {
                assert(self.screen() =~= old(self).screen().row_cleared_upto(
                    row,
                    col as int + 1,
                    old(self).color(),
                ));
            }
            col = col + 1;
        }
    }
}

/// The screen after one byte was put at the cursor of a buffer of kind `T`:
/// a carriage return moves the cursor to the start of its row, a line feed
/// breaks the line, and every other byte is written in the given colours at
/// the cursor, which then moves one cell on.
pub open spec fn put<T: VgaBuffer>(screen: ScreenView, color: ColorCode, ascii: u8) -> ScreenView {
    if ascii == 0x0d {
        screen.move_cursor(ScreenPos { row: screen.cursor.row, col: 0 })
    } else if ascii == 0x0a {
        T::line_break(screen)
    } else {
        screen.write(
            screen.cursor,
            ScreenChar { ascii_character: ascii, color_code: color },
        ).advanced()
    }
}

/// The screen after the bytes of a text were printed one after the other,
/// each as the byte that is shown for it.
pub open spec fn printed<T: VgaBuffer>(
    screen: ScreenView,
    color: ColorCode,
    bytes: Seq<u8>,
) -> ScreenView
    decreases bytes.len(),
{
    if bytes.len() == 0 {
        screen
    } else {
        put::<T>(printed::<T>(screen, color, bytes.drop_last()), color, shown_byte(bytes.last()))
    }
}

/// Printing on top of the cell-wise operations of a text buffer.
pub trait VgaBufferExt: VgaBuffer {
    /// Puts one byte at the cursor.
    fn put_ascii(&mut self, ascii: u8)
        requires
            old(self).inv(),
        ensures
            final(self).inv(),
            final(self).screen() == put::<Self>(old(self).screen(), old(self).color(), ascii),
            final(self).color() == old(self).color(),
    {
        proof {
            self.lemma_inv_screen();
        }
        let mut cursor = self.cursor();
        if ascii == 0x0d {
            cursor.col = 0;
            self.set_cursor(cursor);
        } else if ascii == 0x0a {
            self.new_line();
        } else {
            let code = self.color_code();
            self.write_at(cursor, ScreenChar { ascii_character: ascii, color_code: code });
            self.increment_cursor();
        }
    }

    /// Prints a text byte by byte; bytes that are neither printable ASCII
    /// nor a carriage return or line feed are shown as `0xfe`.
    fn print(&mut self, s: &str)
        requires
            old(self).inv(),
        ensures
            final(self).inv(),
            final(self).screen() == printed::<Self>(
                old(self).screen(),
                old(self).color(),
                s.spec_bytes(),
            ),
            final(self).color() == old(self).color(),
    {
        let bytes = s.as_bytes();
        let mut i: usize = 0;
        while i < bytes.len()
            invariant
                i <= bytes@.len(),
                bytes@ == s.spec_bytes(),
                self.inv(),
                self.color() == old(self).color(),
                self.screen() == printed::<Self>(
                    old(self).screen(),
                    old(self).color(),
                    bytes@.take(i as int),
                ),
            decreases bytes@.len() - i,
        {
            let byte = bytes[i];
            proof {
                assert(bytes@.take(i as int + 1).drop_last() =~= bytes@.take(i as int));
                assert(bytes@.take(i as int + 1).last() == byte);
            }
            if (0x20 <= byte && byte <= 0x7e) || byte == 0x0d || byte == 0x0a {
                self.put_ascii(byte);
            } else {
                self.put_ascii(0xfe);
            }
            i = i + 1;
        }
        proof {
            assert(bytes@.take(i as int) =~= bytes@);
        }
    }

    /// Prints a text and breaks the line.
    fn println(&mut self, s: &str)
        requires
            old(self).inv(),
        ensures
            final(self).inv(),
            final(self).screen() == Self::line_break(
                printed::<Self>(old(self).screen(), old(self).color(), s.spec_bytes()),
            ),
            final(self).color() == old(self).color(),
    {
        self.print(s);
        self.new_line();
    }

    /// Moves the cursor one cell on.
    fn increment_cursor(&mut self)
        requires
            old(self).inv(),
        ensures
            final(self).inv(),
            final(self).screen() == old(self).screen().advanced(),
            final(self).color() == old(self).color(),
    {
        proof {
            self.lemma_inv_screen();
        }
        let size = self.size();
        let cursor = self.cursor();
        let col = cursor.col + 1;
        let pos = if col < size.cols {
            ScreenPos { row: cursor.row, col }
        } else if cursor.row + 1 < size.rows {
            ScreenPos { row: cursor.row + 1, col: 0 }
        } else {
            ScreenPos { row: size.rows - 1, col: 0 }
        };
        self.set_cursor(pos);
    }
}

impl<T: VgaBuffer> VgaBufferExt for T {

}

} // verus!
