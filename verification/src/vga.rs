//! The text screen: 25 rows of 80 cells, each a character and an attribute
//! byte of foreground and background colour.
//!
//! The screen is laid out in memory of the library; whoever owns the
//! display adapter copies it there. Two families of printers share the
//! cells of [`primitives`]: stacks of [`writer`]s over the [`traits`] of a
//! text buffer, and [`view`]s of window [`area`]s, which this module sets
//! up for the status line, the programs and the messages of the kernel.

use crate::vga::area::Area;
use crate::vga::primitives::{Color, ColorCode, ScreenPos, BUFFER_ROWS};
use crate::vga::traits::blank;
use crate::vga::view::{view_printed, view_put};
use vstd::prelude::*;
use vstd::string::StringSliceAdditionalSpecFns;

pub mod area;
pub mod macros;
pub mod primitives;
pub mod traits;
pub mod view;
pub mod writer;

verus! {

/// The number of rows at the top of the screen that show the status line.
pub const ROWS_FOR_STATUS: u8 = 1;

/// The number of rows in the middle of the screen that belong to programs.
pub const ROWS_FOR_PROG: u8 = 20;

/// The number of rows at the bottom of the screen for messages of the
/// kernel.
pub const ROWS_FOR_SPECIAL: u8 = BUFFER_ROWS - ROWS_FOR_PROG - ROWS_FOR_STATUS;

/// The view of the status line, cleared: green on dark grey, in the first
/// two rows of the screen.
pub fn status_view() -> (view: view::View)
    ensures
        view.inv(),
        view.color() == ColorCode::of_value(ColorCode::value_of(Color::Green, Color::DarkGray)),
        view.screen().size.rows == 2,
        view.screen().cursor == (ScreenPos { row: 0, col: 0 }),
        forall|pos: ScreenPos|
            view.screen().size.contains(pos) ==> #[trigger] view.screen().chars[pos] == blank(
                view.color(),
            ),
{
    let cc = ColorCode::new(Color::Green, Color::DarkGray);
    let mut view = view::View::new(Area::new(0, ROWS_FOR_STATUS + 1), cc);
    view.clear();
    view
}

/// The view of the programs, cleared: white on dark grey, in the twenty
/// rows below the status line.
pub fn stdout_view() -> (view: view::View)
    ensures
        view.inv(),
        view.color() == ColorCode::of_value(ColorCode::value_of(Color::White, Color::DarkGray)),
        view.screen().size.rows == 20,
        view.screen().cursor == (ScreenPos { row: 0, col: 0 }),
        forall|pos: ScreenPos|
            view.screen().size.contains(pos) ==> #[trigger] view.screen().chars[pos] == blank(
                view.color(),
            ),
{
    let cc = ColorCode::new(Color::White, Color::DarkGray);
    let mut view = view::View::new(Area::new(ROWS_FOR_STATUS, ROWS_FOR_PROG), cc);
    view.clear();
    view
}

/// The view of the kernel's messages, cleared: yellow on light grey, in the
/// last four rows of the screen.
pub fn kerout_view() -> (view: view::View)
    ensures
        view.inv(),
        view.color() == ColorCode::of_value(ColorCode::value_of(Color::Yellow, Color::LightGray)),
        view.screen().size.rows == 4,
        view.screen().cursor == (ScreenPos { row: 0, col: 0 }),
        forall|pos: ScreenPos|
            view.screen().size.contains(pos) ==> #[trigger] view.screen().chars[pos] == blank(
                view.color(),
            ),
{
    let cc = ColorCode::new(Color::Yellow, Color::LightGray);
    let mut view = view::View::new(Area::new(ROWS_FOR_STATUS + ROWS_FOR_PROG, ROWS_FOR_SPECIAL), cc);
    view.clear();
    view
}

/// The colours of error messages in the view of the programs.
pub fn stderr_color() -> (code: ColorCode)
    ensures
        code == ColorCode::of_value(ColorCode::value_of(Color::LightRed, Color::DarkGray)),
{
    ColorCode::new(Color::LightRed, Color::DarkGray)
}

/// Replaces the status line: the text is printed from the start of the row
/// in which the cursor of the status view stands.
pub fn _set_status_line(status: &mut view::View, text: &str)
    requires
        old(status).inv(),
    ensures
        final(status).inv(),
        final(status).color() == old(status).color(),
        final(status).screen() == view_printed(
            view_put(old(status).screen(), old(status).color(), 0x0d),
            old(status).color(),
            text.spec_bytes(),
        ),
{
    status.put_byte(0x0d);
    status.print(text);
}

/// Prints a formatted text to the view of the programs.
pub fn _print(stdout: &mut view::View, text: &str)
    requires
        old(stdout).inv(),
    ensures
        final(stdout).inv(),
        final(stdout).color() == old(stdout).color(),
        final(stdout).screen() == view_printed(
            old(stdout).screen(),
            old(stdout).color(),
            text.spec_bytes(),
        ),
{
    stdout.print(text);
}

/// Prints a formatted text to the view of the programs in the colours of
/// error messages, and leaves the view in the colours it had.
pub fn _eprint(stdout: &mut view::View, text: &str)
    requires
        old(stdout).inv(),
    ensures
        final(stdout).inv(),
        final(stdout).color() == old(stdout).color(),
        final(stdout).screen() == view_printed(
            old(stdout).screen(),
            ColorCode::of_value(ColorCode::value_of(Color::LightRed, Color::DarkGray)),
            text.spec_bytes(),
        ),
{
    let color = stdout.color_code();
    stdout.set_color_code(stderr_color());
    stdout.print(text);
    stdout.set_color_code(color);
}

/// Prints a formatted text to the view of the kernel's messages.
pub fn _kprint(kerout: &mut view::View, text: &str)
    requires
        old(kerout).inv(),
    ensures
        final(kerout).inv(),
        final(kerout).color() == old(kerout).color(),
        final(kerout).screen() == view_printed(
            old(kerout).screen(),
            old(kerout).color(),
            text.spec_bytes(),
        ),
{
    kerout.print(text);
}

} // verus!
