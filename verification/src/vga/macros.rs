//! The writers behind the standard output and the standard error.

use super::primitives::{Color, ColorCode, ScreenChar, ScreenPos, BUFFER_COLS};
use super::traits::{printed, VgaBuffer, VgaBufferExt};
use super::writer::color::ColorWriter;
use super::writer::rolling::RollingWriter;
use super::writer::subarea::SubareaWriter;
use super::writer::BasicWriter;
use vstd::prelude::*;
use vstd::string::StringSliceAdditionalSpecFns;

verus! {

/// The stack of writers behind the standard streams: colours of its own,
/// on a rolling band of the screen.
pub type VgaWriter = ColorWriter<RollingWriter<SubareaWriter<BasicWriter>>>;

/// The writer of the standard output: the first twenty rows of the screen,
/// in the default colours.
pub fn stdout() -> (writer: VgaWriter)
    ensures
        writer.inv(),
        writer.color() == ColorCode::default_code(),
        writer.screen().size.rows == 20,
        writer.screen().size.cols == BUFFER_COLS,
        writer.screen().cursor == (ScreenPos { row: 0, col: 0 }),
        forall|pos: ScreenPos|
            writer.screen().size.contains(pos) ==> #[trigger] writer.screen().chars[pos]
                == ScreenChar::blank_on(Color::Black),
{
    ColorWriter::new_from_with(
        RollingWriter::new_from(SubareaWriter::new(0, 20)),
        ColorCode::default(),
    )
}

/// The writer of the standard error: the last five rows of the screen, in
/// black on white.
pub fn stderr() -> (writer: VgaWriter)
    ensures
        writer.inv(),
        writer.color() == ColorCode::of_value(ColorCode::value_of(Color::Black, Color::White)),
        writer.screen().size.rows == 5,
        writer.screen().size.cols == BUFFER_COLS,
        writer.screen().cursor == (ScreenPos { row: 0, col: 0 }),
        forall|pos: ScreenPos|
            writer.screen().size.contains(pos) ==> #[trigger] writer.screen().chars[pos]
                == ScreenChar::blank_on(Color::Black),
{
    ColorWriter::new_from_with(
        RollingWriter::new_from(SubareaWriter::new(20, 5)),
        ColorCode::new(Color::Black, Color::White),
    )
}

/// Prints a formatted text to the standard output.
pub fn _print(stdout: &mut VgaWriter, text: &str)
    requires
        old(stdout).inv(),
    ensures
        final(stdout).inv(),
        final(stdout).color() == old(stdout).color(),
        final(stdout).screen() == printed::<VgaWriter>(
            old(stdout).screen(),
            old(stdout).color(),
            text.spec_bytes(),
        ),
{
    stdout.print(text);
}

/// Prints a formatted text to the standard error.
pub fn _eprint(stderr: &mut VgaWriter, text: &str)
    requires
        old(stderr).inv(),
    ensures
        final(stderr).inv(),
        final(stderr).color() == old(stderr).color(),
        final(stderr).screen() == printed::<VgaWriter>(
            old(stderr).screen(),
            old(stderr).color(),
            text.spec_bytes(),
        ),
{
    stderr.print(text);
}

} // verus!
