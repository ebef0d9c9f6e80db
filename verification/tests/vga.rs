use cbos::vga::area::Area;
use cbos::vga::macros::{stderr, stdout, VgaWriter};
use cbos::vga::primitives::{
    Color, ColorCode, RawBuffer, ScreenArea, ScreenChar, ScreenPos, BUFFER_COLS, BUFFER_ROWS,
};
use cbos::vga::traits::{VgaBuffer, VgaBufferExt};
use cbos::vga::view::View;
use cbos::vga::writer::color::ColorWriter;
use cbos::vga::writer::rolling::RollingWriter;
use cbos::vga::writer::subarea::SubareaWriter;
use cbos::vga::writer::validator::Validator;
use cbos::vga::writer::{plain_new_line, shift_up, BasicWriter};
use cbos::vga::{
    _eprint, _kprint, _print, _set_status_line, kerout_view, status_view, stderr_color,
    stdout_view,
};

fn pos(row: u8, col: u8) -> ScreenPos {
    ScreenPos { row, col }
}

fn row_text<T: VgaBuffer>(buffer: &T, row: u8, len: u8) -> String {
    (0..len).map(|col| char::from(buffer.read_at(pos(row, col)).ascii_character)).collect()
}

fn view_row_text(view: &View, row: u8, len: u8) -> String {
    (0..len).map(|col| char::from(view.read_at(pos(row, col)).ascii_character)).collect()
}

#[test]
fn color_codes_pack_background_and_foreground() {
    let code = ColorCode::new(Color::Yellow, Color::Black);
    assert_eq!(code, ColorCode::default());
    assert_eq!(code.get_bg(), Color::Black);
    let code = ColorCode::new(Color::LightRed, Color::DarkGray);
    assert_eq!(code.get_bg(), Color::DarkGray);
    assert_ne!(code, ColorCode::new(Color::DarkGray, Color::LightRed));
    assert_eq!(ColorCode::new(Color::White, Color::White).get_bg(), Color::White);
}

#[test]
fn colors_go_by_their_numbers() {
    assert_eq!(Color::Black.as_u8(), 0);
    assert_eq!(Color::LightGray.as_u8(), 7);
    assert_eq!(Color::DarkGray.as_u8(), 8);
    assert_eq!(Color::White.as_u8(), 15);
    for code in 0..16u8 {
        assert_eq!(Color::from_u8(code).as_u8(), code);
    }
    assert_eq!(Color::from_u8(18), Color::Green);
}

#[test]
fn screen_positions_step_through_rows() {
    assert_eq!(pos(3, 4).increment(80), pos(3, 5));
    assert_eq!(pos(3, 78).increment(80), pos(3, 79));
    assert_eq!(pos(3, 79).increment(80), pos(4, 0));
    assert_eq!(pos(3, 4).newline(), pos(4, 0));
    assert_eq!(pos(3, 4).cr(), pos(3, 0));
    assert_eq!(ScreenPos::default(), pos(0, 0));
    assert_eq!(ScreenArea::default(), ScreenArea { rows: 25, cols: 80 });
}

#[test]
fn screen_chars_are_made_of_character_and_colours() {
    let cell = ScreenChar::from_u8(b'x');
    assert_eq!(cell.ascii_character, b'x');
    assert_eq!(cell.color_code, ColorCode::default());
    let cell = ScreenChar::empty();
    assert_eq!(cell.ascii_character, b' ');
    assert_eq!(cell.color_code, ColorCode::new(Color::Black, Color::Black));
    let cell = ScreenChar::empty_with_background(Color::Cyan);
    assert_eq!(cell.ascii_character, b' ');
    assert_eq!(cell.color_code, ColorCode::new(Color::Black, Color::Cyan));
}

#[test]
fn raw_buffer_keeps_cells_apart() {
    let mut buffer = RawBuffer::new();
    assert_eq!(buffer.get_size(), ScreenArea { rows: BUFFER_ROWS, cols: BUFFER_COLS });
    assert_eq!(buffer.read_at(pos(24, 79)), ScreenChar::empty());
    buffer.write_at(pos(1, 0), ScreenChar::from_u8(b'a'));
    buffer.write_at(pos(0, 79), ScreenChar::from_u8(b'b'));
    buffer.write_at(pos(24, 79), ScreenChar::from_u8(b'c'));
    assert_eq!(buffer.read_at(pos(1, 0)), ScreenChar::from_u8(b'a'));
    assert_eq!(buffer.read_at(pos(0, 79)), ScreenChar::from_u8(b'b'));
    assert_eq!(buffer.read_at(pos(24, 79)), ScreenChar::from_u8(b'c'));
    assert_eq!(buffer.read_at(pos(0, 0)), ScreenChar::empty());
    assert_eq!(buffer.read_at(pos(1, 1)), ScreenChar::empty());
}

#[test]
fn basic_writer_prints_and_wraps() {
    let mut writer = BasicWriter::new();
    writer.print("ab");
    assert_eq!(writer.cursor(), pos(0, 2));
    assert_eq!(writer.read_at(pos(0, 0)), ScreenChar::from_u8(b'a'));
    assert_eq!(writer.read_at(pos(0, 1)), ScreenChar::from_u8(b'b'));
    writer.print("\rc");
    assert_eq!(writer.read_at(pos(0, 0)), ScreenChar::from_u8(b'c'));
    assert_eq!(writer.cursor(), pos(0, 1));
    writer.println("d");
    assert_eq!(writer.cursor(), pos(1, 0));
    writer.set_cursor(pos(1, 79));
    writer.put_ascii(b'e');
    assert_eq!(writer.read_at(pos(1, 79)).ascii_character, b'e');
    assert_eq!(writer.cursor(), pos(2, 0));
    assert_eq!(writer.buffer().read_at(pos(1, 79)).ascii_character, b'e');
}

#[test]
fn basic_writer_stays_in_the_last_row() {
    let mut writer = BasicWriter::new();
    writer.set_cursor(pos(24, 79));
    writer.put_ascii(b'z');
    assert_eq!(writer.cursor(), pos(24, 0));
    writer.new_line();
    assert_eq!(writer.cursor(), pos(24, 0));
    writer.set_cursor(pos(24, 5));
    plain_new_line(&mut writer);
    assert_eq!(writer.cursor(), pos(24, 0));
    writer.set_cursor(pos(3, 5));
    plain_new_line(&mut writer);
    assert_eq!(writer.cursor(), pos(4, 0));
}

#[test]
fn bytes_that_cannot_be_shown_become_blocks() {
    let mut writer = BasicWriter::new();
    writer.print("a\u{e9}~\t");
    assert_eq!(writer.read_at(pos(0, 0)).ascii_character, b'a');
    assert_eq!(writer.read_at(pos(0, 1)).ascii_character, 0xfe);
    assert_eq!(writer.read_at(pos(0, 2)).ascii_character, 0xfe);
    assert_eq!(writer.read_at(pos(0, 3)).ascii_character, b'~');
    assert_eq!(writer.read_at(pos(0, 4)).ascii_character, 0xfe);
    assert_eq!(writer.cursor(), pos(0, 5));
}

#[test]
fn clear_row_blanks_one_row_only() {
    let mut writer = BasicWriter::new();
    writer.print("one\ntwo\nthree");
    writer.clear_row(1);
    assert_eq!(row_text(&writer, 0, 3), "one");
    assert_eq!(row_text(&writer, 1, 3), "   ");
    assert_eq!(writer.read_at(pos(1, 0)).color_code, ColorCode::default());
    assert_eq!(row_text(&writer, 2, 5), "three");
    assert_eq!(writer.cursor(), pos(2, 5));
}

#[test]
fn color_writer_prints_in_its_own_colours() {
    let code = ColorCode::new(Color::Black, Color::White);
    let mut writer = ColorWriter::new_from_with(BasicWriter::new(), code);
    assert_eq!(writer.color_code(), code);
    writer.print("x");
    assert_eq!(writer.read_at(pos(0, 0)), ScreenChar { ascii_character: b'x', color_code: code });
    let other = ColorCode::new(Color::Red, Color::Blue);
    writer.set_color_code(other);
    writer.print("y");
    assert_eq!(writer.read_at(pos(0, 1)), ScreenChar { ascii_character: b'y', color_code: other });
    assert_eq!(writer.read_at(pos(0, 0)).color_code, code);
    let plain = ColorWriter::new_from(BasicWriter::new());
    assert_eq!(plain.color_code(), ColorCode::default());
    assert_eq!(plain.size(), ScreenArea { rows: 25, cols: 80 });
}

#[test]
fn subarea_writer_shifts_positions() {
    let mut writer = SubareaWriter::new_from(BasicWriter::new(), 10, 5);
    assert_eq!(writer.size(), ScreenArea { rows: 5, cols: 80 });
    writer.write_at(pos(0, 3), ScreenChar::from_u8(b'q'));
    assert_eq!(writer.read_at(pos(0, 3)), ScreenChar::from_u8(b'q'));
    writer.print("hi");
    assert_eq!(row_text(&writer, 0, 4), "hi q");
    writer.set_cursor(pos(4, 79));
    writer.put_ascii(b'!');
    assert_eq!(writer.cursor(), pos(4, 0));
    writer.set_cursor(pos(2, 7));
    writer.new_line();
    assert_eq!(writer.cursor(), pos(3, 0));
}

#[test]
fn subarea_constructors_cut_the_screen() {
    let (top, bottom) = SubareaWriter::new_split(20);
    assert_eq!(top.size(), ScreenArea { rows: 20, cols: 80 });
    assert_eq!(bottom.size(), ScreenArea { rows: 5, cols: 80 });
    assert_eq!(SubareaWriter::new_top_half().size(), ScreenArea { rows: 12, cols: 80 });
    assert_eq!(SubareaWriter::new_bottom_half().size(), ScreenArea { rows: 12, cols: 80 });
    assert_eq!(SubareaWriter::new(3, 4).size(), ScreenArea { rows: 4, cols: 80 });
    let mut bottom = SubareaWriter::new_bottom_half();
    bottom.set_cursor(pos(11, 0));
    bottom.print("end");
    assert_eq!(row_text(&bottom, 11, 3), "end");
}

#[test]
fn rolling_writer_scrolls_on_every_line_break() {
    let mut writer = RollingWriter::new_from(SubareaWriter::new(0, 3));
    writer.print("first");
    writer.new_line();
    // The first row rolled off the top; the cursor waits in the last row.
    assert_eq!(writer.cursor(), pos(2, 0));
    assert_eq!(row_text(&writer, 0, 5), "     ");
    writer.print("second");
    writer.new_line();
    assert_eq!(row_text(&writer, 1, 6), "second");
    assert_eq!(row_text(&writer, 2, 6), "      ");
    writer.println("third");
    assert_eq!(row_text(&writer, 0, 6), "second");
    assert_eq!(row_text(&writer, 1, 5), "third");
    assert_eq!(writer.cursor(), pos(2, 0));
    assert_eq!(writer.read_at(pos(2, 0)), ScreenChar::from_u8(b' '));
    writer.set_cursor(pos(0, 7));
    writer.set_cursor_on_last_line();
    assert_eq!(writer.cursor(), pos(2, 7));
}

#[test]
fn shift_up_moves_rows_and_blanks_the_last() {
    let mut writer = SubareaWriter::new(5, 3);
    writer.print("a\nb\nc");
    let code = ColorCode::new(Color::Pink, Color::Green);
    shift_up(&mut writer, code);
    assert_eq!(row_text(&writer, 0, 1), "b");
    assert_eq!(row_text(&writer, 1, 1), "c");
    assert_eq!(writer.read_at(pos(2, 0)), ScreenChar { ascii_character: b' ', color_code: code });
    assert_eq!(writer.read_at(pos(2, 79)), ScreenChar { ascii_character: b' ', color_code: code });
    assert_eq!(writer.cursor(), pos(2, 1));
}

#[test]
fn validator_hands_everything_on() {
    let mut writer = Validator::new_from(BasicWriter::new());
    assert_eq!(writer.size(), ScreenArea { rows: 25, cols: 80 });
    writer.print("ok\n");
    assert_eq!(row_text(&writer, 0, 2), "ok");
    assert_eq!(writer.cursor(), pos(1, 0));
    assert_eq!(writer.color_code(), ColorCode::default());
}

#[test]
fn test_println_simple() {
    let mut out: VgaWriter = stdout();
    out.println("test_println_simple output");
    assert_eq!(out.cursor(), pos(19, 0));
}

#[test]
fn test_println_many() {
    let mut out: VgaWriter = stdout();
    for _ in 0..200 {
        out.println("test_println_many output");
    }
    assert_eq!(out.cursor(), pos(19, 0));
    for row in 0..19 {
        assert_eq!(row_text(&out, row, 24), "test_println_many output");
    }
    assert_eq!(row_text(&out, 19, 24), " ".repeat(24));
}

#[test]
fn test_println_output() {
    let s = "Some test string that fits on a single line";
    let mut out: VgaWriter = stdout();
    cbos::vga::macros::_print(&mut out, "\n");
    cbos::vga::macros::_print(&mut out, "\r");
    cbos::vga::macros::_print(&mut out, s);
    cbos::vga::macros::_print(&mut out, "\n");
    let size = out.size();
    for (i, c) in s.chars().enumerate() {
        let screen_char = out.read_at(pos(size.rows - 2, i as u8));
        assert_eq!(char::from(screen_char.ascii_character), c);
    }
}

#[test]
fn standard_streams_have_their_bands_and_colours() {
    let out = stdout();
    assert_eq!(out.size(), ScreenArea { rows: 20, cols: 80 });
    assert_eq!(out.color_code(), ColorCode::default());
    let mut err = stderr();
    assert_eq!(err.size(), ScreenArea { rows: 5, cols: 80 });
    assert_eq!(err.color_code(), ColorCode::new(Color::Black, Color::White));
    cbos::vga::macros::_eprint(&mut err, "oops");
    assert_eq!(
        err.read_at(pos(0, 0)),
        ScreenChar { ascii_character: b'o', color_code: ColorCode::new(Color::Black, Color::White) }
    );
}

#[test]
fn area_is_a_band_of_the_screen() {
    let mut area = Area::new(21, 4);
    assert_eq!(area.size(), ScreenArea { rows: 4, cols: 80 });
    area.write_at(pos(3, 79), ScreenChar::from_u8(b'k'));
    assert_eq!(area.read_at(pos(3, 79)), ScreenChar::from_u8(b'k'));
    assert_eq!(area.buffer().read_at(pos(24, 79)), ScreenChar::from_u8(b'k'));
    assert_eq!(area.cursor(), pos(0, 0));
    area.set_cursor(pos(3, 1));
    area.new_line();
    assert_eq!(area.cursor(), pos(3, 0));
    assert_eq!(Area::new_full_vga_buffer().size(), ScreenArea { rows: 25, cols: 80 });
}

#[test]
fn view_scrolls_only_when_the_last_row_is_used_up() {
    let code = ColorCode::new(Color::White, Color::DarkGray);
    let mut view = View::new(Area::new(1, 3), code);
    view.clear();
    assert_eq!(view.read_at(pos(2, 79)), ScreenChar { ascii_character: b' ', color_code: code });
    view.println("one");
    view.println("two");
    assert_eq!(view.cursor(), pos(2, 0));
    assert_eq!(view_row_text(&view, 0, 3), "one");
    view.print("three");
    assert_eq!(view_row_text(&view, 2, 5), "three");
    view.put_byte(b'\n');
    assert_eq!(view_row_text(&view, 0, 3), "two");
    assert_eq!(view_row_text(&view, 1, 5), "three");
    assert_eq!(view_row_text(&view, 2, 5), "     ");
    assert_eq!(view.cursor(), pos(2, 0));
    view.set_cursor(pos(2, 79));
    view.put_byte(b'#');
    assert_eq!(view.read_at(pos(1, 79)).ascii_character, b'#');
    assert_eq!(view.cursor(), pos(2, 0));
    assert_eq!(view.read_at(pos(1, 79)).color_code, code);
}

#[test]
fn view_helpers_move_cursor_and_rows() {
    let code = ColorCode::new(Color::Green, Color::DarkGray);
    let mut view = View::new(Area::new(0, 2), code);
    view.print("ab");
    view.set_cursor_on_last_line();
    assert_eq!(view.cursor(), pos(1, 0));
    view.print("cd");
    view.shift_up();
    assert_eq!(view_row_text(&view, 0, 2), "cd");
    assert_eq!(view_row_text(&view, 1, 2), "  ");
    view.clear_row(0);
    assert_eq!(view_row_text(&view, 0, 2), "  ");
    assert_eq!(view.size(), ScreenArea { rows: 2, cols: 80 });
    assert_eq!(view.window().size(), ScreenArea { rows: 2, cols: 80 });
}

#[test]
fn views_of_the_kernel_have_their_windows_and_colours() {
    let mut status = status_view();
    assert_eq!(status.size().rows, 2);
    assert_eq!(status.color_code(), ColorCode::new(Color::Green, Color::DarkGray));
    _set_status_line(&mut status, "first");
    _set_status_line(&mut status, "2nd");
    assert_eq!(view_row_text(&status, 0, 5), "2ndst");
    let mut out = stdout_view();
    assert_eq!(out.size().rows, 20);
    _print(&mut out, "out");
    _eprint(&mut out, "err");
    assert_eq!(view_row_text(&out, 0, 6), "outerr");
    assert_eq!(out.read_at(pos(0, 0)).color_code, ColorCode::new(Color::White, Color::DarkGray));
    assert_eq!(out.read_at(pos(0, 3)).color_code, stderr_color());
    assert_eq!(stderr_color(), ColorCode::new(Color::LightRed, Color::DarkGray));
    assert_eq!(out.color_code(), ColorCode::new(Color::White, Color::DarkGray));
    let mut kernel = kerout_view();
    assert_eq!(kernel.size().rows, 4);
    _kprint(&mut kernel, "note");
    assert_eq!(kernel.read_at(pos(0, 0)).color_code, ColorCode::new(Color::Yellow, Color::LightGray));
    assert_eq!(kernel.window().buffer().read_at(pos(21, 0)).ascii_character, b'n');
}
