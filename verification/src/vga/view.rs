//! Printing in a window that scrolls.

use super::area::Area;
use super::primitives::{ColorCode, ScreenArea, ScreenChar, ScreenPos};
use super::traits::{blank, bytes_of, shown_byte, ScreenView, VgaBuffer};
use super::writer::shift_up;
use vstd::prelude::*;
use vstd::string::StringSliceAdditionalSpecFns;

verus! {

/// The screen after a line break in a view: the cursor goes to the start of
/// the row below, and from the last row the content is shifted up instead.
pub open spec fn view_line_break(screen: ScreenView, color: ColorCode) -> ScreenView {
    if screen.cursor.row + 1 < screen.size.rows {
        screen.move_cursor(ScreenPos { row: (screen.cursor.row + 1) as u8, col: 0 })
    } else {
        screen.rolled(color)
    }
}

/// The screen after the cursor of a view moved one cell on: to the right,
/// or at the end of a row as by a line break.
pub open spec fn view_advanced(screen: ScreenView, color: ColorCode) -> ScreenView {
    if screen.cursor.col + 1 < screen.size.cols {
        screen.move_cursor(
            ScreenPos { row: screen.cursor.row, col: (screen.cursor.col + 1) as u8 },
        )
    } else {
        view_line_break(screen, color)
    }
}

/// The screen after one byte was put at the cursor of a view.
pub open spec fn view_put(screen: ScreenView, color: ColorCode, ascii: u8) -> ScreenView {
    if ascii == 0x0d {
        screen.move_cursor(ScreenPos { row: screen.cursor.row, col: 0 })
    } else if ascii == 0x0a {
        view_line_break(screen, color)
    } else {
        view_advanced(
            screen.write(screen.cursor, ScreenChar { ascii_character: ascii, color_code: color }),
            color,
        )
    }
}

/// The screen after the bytes of a text were printed in a view, each as the
/// byte that is shown for it.
pub open spec fn view_printed(screen: ScreenView, color: ColorCode, bytes: Seq<u8>) -> ScreenView
    decreases bytes.len(),
{
    if bytes.len() == 0 {
        screen
    } else {
        view_put(view_printed(screen, color, bytes.drop_last()), color, shown_byte(bytes.last()))
    }
}

/// The screen with every row blanked in rows before `upto`.
pub open spec fn view_cleared_upto(screen: ScreenView, upto: int, color: ColorCode) -> ScreenView
    decreases upto,
{
    if upto <= 0 {
        screen
    } else {
        view_cleared_upto(screen, upto - 1, color).row_cleared((upto - 1) as u8, color)
    }
}

/// Clearing a screen changes neither its extent nor the place of its
/// cursor.
pub proof fn lemma_cleared_keeps_frame(screen: ScreenView, upto: int, color: ColorCode)
    ensures
        view_cleared_upto(screen, upto, color).size == screen.size,
        view_cleared_upto(screen, upto, color).cursor == screen.cursor,
    decreases upto,
{
    if upto > 0 {
        lemma_cleared_keeps_frame(screen, upto - 1, color);
    }
}

/// A cleared screen shows a blank in every cell of the rows that were
/// cleared.
pub proof fn lemma_cleared_is_blank(screen: ScreenView, upto: int, color: ColorCode, pos: ScreenPos)
    requires
        screen.wf(),
        0 <= upto <= screen.size.rows,
        screen.size.contains(pos),
    ensures
        view_cleared_upto(screen, upto, color).chars.contains_key(pos),
        pos.row < upto ==> view_cleared_upto(screen, upto, color).chars[pos] == blank(color),
    decreases upto,
{
    if upto > 0 {
        lemma_cleared_keeps_frame(screen, upto - 1, color);
        lemma_cleared_is_blank(screen, upto - 1, color, pos);
    }
}

/// A window of the screen that prints in colours of its own and scrolls
/// when its last row is used up.
pub struct View {
    color_code: ColorCode,
    area: Area,
}

impl View {
    /// The window the view prints to.
    pub closed spec fn area(&self) -> Area {
        self.area
    }

    /// The colours in which the view prints.
    pub closed spec fn color(&self) -> ColorCode {
        self.color_code
    }

    /// What the view shows.
    pub open spec fn screen(&self) -> ScreenView {
        self.area().screen()
    }

    /// The window is usable.
    pub open spec fn inv(&self) -> bool {
        self.area().inv()
    }

    pub fn new(area: Area, color_code: ColorCode) -> (view: View)
        ensures
            view.area() == area,
            view.color() == color_code,
    {
        Self { color_code, area }
    }

    /// Changes the colours in which the view prints from now on.
    pub fn set_color_code(&mut self, color_code: ColorCode)
        ensures
            final(self).area() == old(self).area(),
            final(self).color() == color_code,
    {
        self.color_code = color_code;
    }

    pub fn color_code(&self) -> (color_code: ColorCode)
        ensures
            color_code == self.color(),
    {
        self.color_code
    }

    /// The window, to be copied to the display.
    pub fn window(&self) -> (area: &Area)
        ensures
            *area == self.area(),
    {
        &self.area
    }

    pub fn write_at(&mut self, pos: ScreenPos, c: ScreenChar)
        requires
            old(self).inv(),
            old(self).screen().size.contains(pos),
        ensures
            final(self).inv(),
            final(self).screen() == old(self).screen().write(pos, c),
            final(self).color() == old(self).color(),
    {
        self.area.write_at(pos, c);
    }

    pub fn read_at(&self, pos: ScreenPos) -> (c: ScreenChar)
        requires
            self.inv(),
            self.screen().size.contains(pos),
        ensures
            c == self.screen().chars[pos],
    {
        self.area.read_at(pos)
    }

    pub fn cursor(&self) -> (pos: ScreenPos)
        ensures
            pos == self.screen().cursor,
    {
        self.area.cursor()
    }

    pub fn set_cursor(&mut self, pos: ScreenPos)
        requires
            old(self).inv(),
            old(self).screen().size.contains(pos),
        ensures
            final(self).inv(),
            final(self).screen() == old(self).screen().move_cursor(pos),
            final(self).color() == old(self).color(),
    {
        self.area.set_cursor(pos);
    }

    pub fn size(&self) -> (area: ScreenArea)
        ensures
            area == self.screen().size,
    {
        self.area.size()
    }

    /// Clears the whole area with the current colours: every cell shows a
    /// blank, and the cursor stays where it is.
    pub fn clear(&mut self)
        requires
            old(self).inv(),
        ensures
            final(self).inv(),
            final(self).screen() == view_cleared_upto(
                old(self).screen(),
                old(self).screen().size.rows as int,
                old(self).color(),
            ),
            final(self).color() == old(self).color(),
            final(self).screen().size == old(self).screen().size,
            final(self).screen().cursor == old(self).screen().cursor,
            forall|pos: ScreenPos|
                final(self).screen().size.contains(pos) ==> #[trigger] final(self).screen().chars[pos]
                    == blank(old(self).color()),
    {
        proof {
            let fresh = self.screen();
            self.area().lemma_inv_screen();
            lemma_cleared_keeps_frame(fresh, fresh.size.rows as int, self.color());
            assert forall|pos: ScreenPos| fresh.size.contains(pos) implies #[trigger] view_cleared_upto(
                fresh,
                fresh.size.rows as int,
                self.color(),
            ).chars[pos] == blank(self.color()) by {
                lemma_cleared_is_blank(fresh, fresh.size.rows as int, self.color(), pos);
            }
        }
        let rows = self.area.size().rows;
        let mut i: u8 = 0;
        while i < rows
            invariant
                i <= rows,
                rows == old(self).screen().size.rows,
                self.inv(),
                self.color() == old(self).color(),
                self.screen().size == old(self).screen().size,
                self.screen() == view_cleared_upto(old(self).screen(), i as int, self.color()),
            decreases rows - i,
        {
            self.clear_row(i);
            i = i + 1;
        }
    }

    /// Prints a text with the current colours.
    pub fn print(&mut self, s: &str)
        requires
            old(self).inv(),
        ensures
            final(self).inv(),
            final(self).screen() == view_printed(
                old(self).screen(),
                old(self).color(),
                s.spec_bytes(),
            ),
            final(self).color() == old(self).color(),
    {
        let bytes = s.as_bytes();
        let mut i: usize = 0;
        while i < bytes.len()
            invariant
                i <= bytes_of(bytes).len(),
                bytes_of(bytes) == s.spec_bytes(),
                self.inv(),
                self.color() == old(self).color(),
                self.screen() == view_printed(
                    old(self).screen(),
                    old(self).color(),
                    bytes_of(bytes).take(i as int),
                ),
            decreases bytes_of(bytes).len() - i,
        {
            let byte = bytes[i];
            proof {
                assert(bytes_of(bytes).take(i as int + 1).drop_last() =~= bytes_of(bytes).take(i as int));
                assert(bytes_of(bytes).take(i as int + 1).last() == byte);
            }
            if (0x20 <= byte && byte <= 0x7e) || byte == 0x0d || byte == 0x0a {
                self.put_byte(byte);
            } else {
                self.put_byte(0xfe);
            }
            i = i + 1;
        }
        proof {
            assert(bytes_of(bytes).take(i as int) =~= bytes_of(bytes));
        }
    }

    /// Prints a line with the current colours.
    pub fn println(&mut self, s: &str)
        requires
            old(self).inv(),
        ensures
            final(self).inv(),
            final(self).screen() == view_line_break(
                view_printed(old(self).screen(), old(self).color(), s.spec_bytes()),
                old(self).color(),
            ),
            final(self).color() == old(self).color(),
    {
        self.print(s);
        self.put_byte(0x0a);
    }

    /// Moves the cursor to the start of the last row.
    pub fn set_cursor_on_last_line(&mut self)
        requires
            old(self).inv(),
        ensures
            final(self).inv(),
            final(self).screen() == old(self).screen().move_cursor(
                ScreenPos { row: (old(self).screen().size.rows - 1) as u8, col: 0 },
            ),
            final(self).color() == old(self).color(),
    {
        proof {
            self.area().lemma_inv_screen();
        }
        let size = self.size();
        self.set_cursor(ScreenPos { row: size.rows - 1, col: 0 });
    }

    /// Shifts the content of the area up by one row.
    pub fn shift_up(&mut self)
        requires
            old(self).inv(),
        ensures
            final(self).inv(),
            final(self).screen() == old(self).screen().shifted_up(old(self).color()),
            final(self).color() == old(self).color(),
    {
        shift_up(&mut self.area, self.color_code);
    }

    /// Blanks one row in the current colours.
    pub fn clear_row(&mut self, row: u8)
        requires
            old(self).inv(),
            row < old(self).screen().size.rows,
        ensures
            final(self).inv(),
            final(self).screen() == old(self).screen().row_cleared(row, old(self).color()),
            final(self).color() == old(self).color(),
    {
        proof {
            self.area().lemma_inv_screen();
        }
        let clear = ScreenChar { ascii_character: 0x20, color_code: self.color_code };
        let cols = self.size().cols;
        let mut col: u8 = 0;
        proof {
            assert(self.screen() =~= old(self).screen().row_cleared_upto(row, 0, self.color()));
        }
        while col < cols
            invariant
                col <= cols,
                cols == old(self).screen().size.cols,
                row < old(self).screen().size.rows,
                old(self).screen().wf(),
                clear.ascii_character == 0x20,
                clear.color_code == old(self).color(),
                self.inv(),
                self.color() == old(self).color(),
                self.screen() == old(self).screen().row_cleared_upto(
                    row,
                    col as int,
                    old(self).color(),
                ),
            decreases cols - col,
        {
            let pos = ScreenPos { row, col };
            self.write_at(pos, clear);
            proof {
                assert(self.screen() =~= old(self).screen().row_cleared_upto(
                    row,
                    col as int + 1,
                    old(self).color(),
                ));
            }
            col = col + 1;
        }
    }

    fn new_line(&mut self)
        requires
            old(self).inv(),
        ensures
            final(self).inv(),
            final(self).screen() == view_line_break(old(self).screen(), old(self).color()),
            final(self).color() == old(self).color(),
    {
        proof {
            self.area().lemma_inv_screen();
        }
        let mut cursor = self.cursor();
        let size = self.size();
        cursor.row = if cursor.row + 1 < size.rows {
            cursor.row + 1
        } else {
            size.rows
        };
        cursor.col = 0;
        if cursor.row >= size.rows {
            self.shift_up();
            cursor.row = size.rows - 1;
        }
        self.set_cursor(cursor);
    }

    fn increment_cursor(&mut self)
        requires
            old(self).inv(),
        ensures
            final(self).inv(),
            final(self).screen() == view_advanced(old(self).screen(), old(self).color()),
            final(self).color() == old(self).color(),
    {
        proof {
            self.area().lemma_inv_screen();
        }
        let cursor = self.cursor();
        let mut row = cursor.row;
        let size = self.size();
        let mut col = cursor.col + 1;
        if col >= size.cols {
            col = 0;
            row = row + 1;
        }
        if row >= size.rows {
            self.shift_up();
            row = size.rows - 1;
        }
        self.set_cursor(ScreenPos { row, col });
    }

    /// Puts one byte at the cursor: a carriage return moves the cursor to
    /// the start of its row, a line feed breaks the line, and every other
    /// byte is written at the cursor, which then moves one cell on.
    pub fn put_byte(&mut self, ascii: u8)
        requires
            old(self).inv(),
        ensures
            final(self).inv(),
            final(self).screen() == view_put(old(self).screen(), old(self).color(), ascii),
            final(self).color() == old(self).color(),
    {
        proof {
            self.area().lemma_inv_screen();
        }
        let mut cursor = self.cursor();
        if ascii == 0x0d {
            cursor.col = 0;
            self.set_cursor(cursor)
        } else if ascii == 0x0a {
            self.new_line()
        } else {
            self.write_at(cursor, ScreenChar { ascii_character: ascii, color_code: self.color_code });
            self.increment_cursor();
        }
    }
}

} // verus!
