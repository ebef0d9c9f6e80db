//! Colours, positions and cells of the text screen.

use vstd::prelude::*;

verus! {

/// The sixteen colours of the VGA text mode.
#[derive(Debug, Clone, Copy, PartialEq, Eq, Structural)]
pub enum Color {
    Black,
    Blue,
    Green,
    Cyan,
    Red,
    Magenta,
    Brown,
    LightGray,
    DarkGray,
    LightBlue,
    LightGreen,
    LightCyan,
    LightRed,
    Pink,
    Yellow,
    White,
}

impl Color {
    /// The four-bit number the hardware knows the colour by.
    pub open spec fn code(self) -> u8 {
        match self {
            Color::Black => 0,
            Color::Blue => 1,
            Color::Green => 2,
            Color::Cyan => 3,
            Color::Red => 4,
            Color::Magenta => 5,
            Color::Brown => 6,
            Color::LightGray => 7,
            Color::DarkGray => 8,
            Color::LightBlue => 9,
            Color::LightGreen => 10,
            Color::LightCyan => 11,
            Color::LightRed => 12,
            Color::Pink => 13,
            Color::Yellow => 14,
            Color::White => 15,
        }
    }

    /// The colour that goes by a number; numbers wrap round after fifteen.
    pub open spec fn of_code(code: u8) -> Color {
        match code % 16 {
            0 => Color::Black,
            1 => Color::Blue,
            2 => Color::Green,
            3 => Color::Cyan,
            4 => Color::Red,
            5 => Color::Magenta,
            6 => Color::Brown,
            7 => Color::LightGray,
            8 => Color::DarkGray,
            9 => Color::LightBlue,
            10 => Color::LightGreen,
            11 => Color::LightCyan,
            12 => Color::LightRed,
            13 => Color::Pink,
            14 => Color::Yellow,
            _ => Color::White,
        }
    }

    /// A colour is found again by its number.
    pub proof fn lemma_code_round_trip(self)
        ensures
            self.code() < 16,
            Color::of_code(self.code()) == self,
    {
    }

    pub fn as_u8(self) -> (code: u8)
        ensures
            code == self.code(),
            code < 16,
    {
        match self {
            Color::Black => 0,
            Color::Blue => 1,
            Color::Green => 2,
            Color::Cyan => 3,
            Color::Red => 4,
            Color::Magenta => 5,
            Color::Brown => 6,
            Color::LightGray => 7,
            Color::DarkGray => 8,
            Color::LightBlue => 9,
            Color::LightGreen => 10,
            Color::LightCyan => 11,
            Color::LightRed => 12,
            Color::Pink => 13,
            Color::Yellow => 14,
            Color::White => 15,
        }
    }

    pub fn from_u8(code: u8) -> (color: Color)
        ensures
            color == Color::of_code(code),
    {
        match code % 16 {
            0 => Color::Black,
            1 => Color::Blue,
            2 => Color::Green,
            3 => Color::Cyan,
            4 => Color::Red,
            5 => Color::Magenta,
            6 => Color::Brown,
            7 => Color::LightGray,
            8 => Color::DarkGray,
            9 => Color::LightBlue,
            10 => Color::LightGreen,
            11 => Color::LightCyan,
            12 => Color::LightRed,
            13 => Color::Pink,
            14 => Color::Yellow,
            _ => Color::White,
        }
    }
}

/// The attribute byte of a screen cell: the background colour in the upper
/// four bits, the foreground colour in the lower four.
#[derive(Debug, Clone, Copy, PartialEq, Eq, Structural)]
pub struct ColorCode(u8);

impl ColorCode {
    /// The attribute byte.
    pub closed spec fn value(self) -> u8 {
        self.0
    }

    /// The attribute byte for a foreground on a background.
    pub open spec fn value_of(foreground: Color, background: Color) -> u8 {
        (background.code() * 16 + foreground.code()) as u8
    }

    /// The colour code with the given attribute byte.
    pub closed spec fn of_value(value: u8) -> ColorCode {
        ColorCode(value)
    }

    /// Yellow on black, the colours in which a buffer prints unless told
    /// otherwise.
    pub open spec fn default_code() -> ColorCode {
        ColorCode::of_value(ColorCode::value_of(Color::Yellow, Color::Black))
    }

    /// A colour code is the one with its attribute byte.
    pub proof fn lemma_of_value(self)
        ensures
            ColorCode::of_value(self.value()) == self,
            ColorCode::of_value(self.value()).value() == self.value(),
    {
    }

    pub fn new(foreground: Color, background: Color) -> (code: ColorCode)
        ensures
            code == ColorCode::of_value(ColorCode::value_of(foreground, background)),
            code.value() == ColorCode::value_of(foreground, background),
    {
        let bg = background.as_u8();
        let fg = foreground.as_u8();
        assert((bg << 4 | fg) == bg * 16 + fg) by (bit_vector)
            requires
                bg < 16,
                fg < 16,
        ;
        ColorCode(bg << 4 | fg)
    }

    /// The attribute byte, as the display adapter takes it.
    pub fn as_u8(&self) -> (value: u8)
        ensures
            value == self.value(),
    {
        self.0
    }

    /// The background colour.
    pub fn get_bg(&self) -> (background: Color)
        ensures
            background == Color::of_code(self.value() / 16),
    {
        let value = self.0;
        let upper = value >> 4;
        assert(upper == value / 16 && upper < 16) by (bit_vector)
            requires
                upper == value >> 4,
        ;
        Color::from_u8(upper)
    }

    /// A colour code gives back the colours it was made of.
    pub proof fn lemma_colors_round_trip(foreground: Color, background: Color)
        ensures
            Color::of_code(ColorCode::value_of(foreground, background) / 16) == background,
            Color::of_code(ColorCode::value_of(foreground, background) % 16) == foreground,
    {
        foreground.lemma_code_round_trip();
        background.lemma_code_round_trip();
    }
}

impl Default for ColorCode {
    /// Yellow on black.
    fn default() -> (code: ColorCode)
        ensures
            code == ColorCode::default_code(),
            code.value() == ColorCode::value_of(Color::Yellow, Color::Black),
    {
        ColorCode::new(Color::Yellow, Color::Black)
    }
}

/// A position on the screen or within a part of it.
#[derive(Debug, Clone, Copy, PartialEq, Eq, Structural)]
pub struct ScreenPos {
    pub row: u8,
    pub col: u8,
}

impl Default for ScreenPos {
    /// The upper left corner.
    fn default() -> (pos: ScreenPos)
        ensures
            pos == (ScreenPos { row: 0, col: 0 }),
    {
        ScreenPos { row: 0, col: 0 }
    }
}

impl ScreenPos {
    /// The position one column on, or the start of the next row when the
    /// row of `max_cols` columns is used up.
    pub fn increment(&self, max_cols: u8) -> (next: ScreenPos)
        requires
            self.col < u8::MAX,
            self.col + 1 >= max_cols ==> self.row < u8::MAX,
        ensures
            next == if self.col + 1 < max_cols {
                ScreenPos { row: self.row, col: (self.col + 1) as u8 }
            } else {
                ScreenPos { row: (self.row + 1) as u8, col: 0 }
            },
    {
        let col = self.col + 1;
        if col < max_cols {
            ScreenPos { row: self.row, col: self.col + 1 }
        } else {
            self.newline()
        }
    }

    /// The start of the next row.
    pub fn newline(&self) -> (next: ScreenPos)
        requires
            self.row < u8::MAX,
        ensures
            next == (ScreenPos { row: (self.row + 1) as u8, col: 0 }),
    {
        ScreenPos { row: self.row + 1, col: 0 }
    }

    /// The start of the same row.
    pub fn cr(&self) -> (start: ScreenPos)
        ensures
            start == (ScreenPos { row: self.row, col: 0 }),
    {
        ScreenPos { row: self.row, col: 0 }
    }
}

/// The number of rows of the VGA text buffer.
pub const BUFFER_ROWS: u8 = 25;

/// The number of columns of the VGA text buffer.
pub const BUFFER_COLS: u8 = 80;

/// The extent of the screen or of a part of it.
#[derive(Debug, Clone, Copy, PartialEq, Eq, Structural)]
pub struct ScreenArea {
    pub rows: u8,
    pub cols: u8,
}

impl Default for ScreenArea {
    /// The whole VGA text buffer.
    fn default() -> (area: ScreenArea)
        ensures
            area == (ScreenArea { rows: BUFFER_ROWS, cols: BUFFER_COLS }),
    {
        ScreenArea { rows: BUFFER_ROWS, cols: BUFFER_COLS }
    }
}

impl ScreenArea {
    /// Whether the position lies within the area.
    pub open spec fn contains(self, pos: ScreenPos) -> bool {
        pos.row < self.rows && pos.col < self.cols
    }
}

/// One cell of the screen: a character and its colours.
#[derive(Debug, Clone, Copy, PartialEq, Eq, Structural)]
pub struct ScreenChar {
    pub ascii_character: u8,
    pub color_code: ColorCode,
}

impl ScreenChar {
    /// A space in black on the given background, as a value.
    pub open spec fn blank_on(bg: Color) -> ScreenChar {
        ScreenChar {
            ascii_character: 0x20,
            color_code: ColorCode::of_value(ColorCode::value_of(Color::Black, bg)),
        }
    }

    /// A space in black on the given background.
    pub fn empty_with_background(bg: Color) -> (cell: ScreenChar)
        ensures
            cell == ScreenChar::blank_on(bg),
    {
        ScreenChar { ascii_character: 0x20, color_code: ColorCode::new(Color::Black, bg) }
    }

    /// A space in black on the background of the default colour code.
    pub fn empty() -> (cell: ScreenChar)
        ensures
            cell == ScreenChar::blank_on(Color::Black),
    {
        let code = ColorCode::default();
        proof {
            ColorCode::lemma_colors_round_trip(Color::Yellow, Color::Black);
        }
        ScreenChar::empty_with_background(code.get_bg())
    }

    /// The character in the default colours.
    pub fn from_u8(character: u8) -> (cell: ScreenChar)
        ensures
            cell.ascii_character == character,
            cell.color_code == ColorCode::default_code(),
    {
        ScreenChar { ascii_character: character, color_code: ColorCode::default() }
    }
}

/// The number of cells of the VGA text buffer.
pub const BUFFER_CELLS: usize = 2000;

/// The cells of the VGA text buffer, row by row. The memory of the display
/// adapter is kept in step with it by whoever owns the hardware.
#[derive(Clone)]
pub struct RawBuffer {
    chars: [ScreenChar; 2000],
}

impl RawBuffer {
    /// The cells, row by row.
    pub closed spec fn cells(&self) -> Seq<ScreenChar> {
        self.chars@
    }

    /// The buffer has one cell for each position of the screen.
    pub open spec fn wf(&self) -> bool {
        self.cells().len() == BUFFER_CELLS
    }

    /// Where the cell of a position is found among the cells.
    pub open spec fn index_of(pos: ScreenPos) -> int {
        pos.row * 80 + pos.col
    }

    /// The cell at a position.
    pub open spec fn cell(&self, pos: ScreenPos) -> ScreenChar {
        self.cells()[RawBuffer::index_of(pos)]
    }

    /// Whether the position lies on the screen.
    pub open spec fn on_screen(pos: ScreenPos) -> bool {
        pos.row < BUFFER_ROWS && pos.col < BUFFER_COLS
    }

    /// A buffer of blank cells.
    pub fn new() -> (buffer: RawBuffer)
        ensures
            buffer.wf(),
            forall|i: int| 0 <= i < BUFFER_CELLS ==> #[trigger] buffer.cells()[i] == ScreenChar::blank_on(
                    Color::Black,
                ),
    {
        let blank = ScreenChar::empty();
        RawBuffer { chars: [blank; 2000] }
    }

    pub fn write_at(&mut self, pos: ScreenPos, c: ScreenChar)
        requires
            old(self).wf(),
            RawBuffer::on_screen(pos),
        ensures
            final(self).wf(),
            final(self).cells() == old(self).cells().update(RawBuffer::index_of(pos), c),
    {
        let index = (pos.row as usize) * 80 + (pos.col as usize);
        self.chars[index] = c;
    }

    pub fn read_at(&self, pos: ScreenPos) -> (c: ScreenChar)
        requires
            self.wf(),
            RawBuffer::on_screen(pos),
        ensures
            c == self.cell(pos),
    {
        let index = (pos.row as usize) * 80 + (pos.col as usize);
        self.chars[index]
    }

    pub fn get_size(&self) -> (area: ScreenArea)
        ensures
            area == (ScreenArea { rows: BUFFER_ROWS, cols: BUFFER_COLS }),
    {
        ScreenArea::default()
    }

    /// Different positions of the screen have different cells.
    pub proof fn lemma_index_injective(a: ScreenPos, b: ScreenPos)
        requires
            RawBuffer::on_screen(a),
            RawBuffer::on_screen(b),
            RawBuffer::index_of(a) == RawBuffer::index_of(b),
        ensures
            a == b,
            0 <= RawBuffer::index_of(a) < BUFFER_CELLS,
    {
    }
}

} // verus!
