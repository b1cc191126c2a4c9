use vga_buffer::buffer::{Char, BUFFER_HEIGHT, BUFFER_WIDTH, PLACEHOLDER};
use vga_buffer::color::{Color, ColorCode};
use vga_buffer::writer::BufWriter;

fn white_on_black() -> ColorCode {
    ColorCode::new(Color::White, Color::Black)
}

fn ch(b: u8) -> Char {
    Char { ascii_character: b, color_code: white_on_black() }
}

fn blank() -> Char {
    ch(b' ')
}

fn last() -> usize {
    BUFFER_HEIGHT - 1
}

fn assert_row_blank(w: &BufWriter, row: usize) {
    for col in 0..BUFFER_WIDTH {
        assert_eq!(w.cell(row, col), blank());
    }
}

#[test]
fn color_code_packs_background_high_foreground_low() {
    assert_eq!(ColorCode::new(Color::White, Color::Black).0, 0x0f);
    assert_eq!(ColorCode::new(Color::Yellow, Color::Blue).0, 0x1e);
    assert_eq!(ColorCode::new(Color::Black, Color::White).0, 0xf0);
    assert_eq!(ColorCode::new(Color::LightGreen, Color::Red).0, 0x4a);
}

#[test]
fn color_codes_are_the_palette_order() {
    assert_eq!(Color::Black.code(), 0);
    assert_eq!(Color::Cyan.code(), 3);
    assert_eq!(Color::LightGray.code(), 7);
    assert_eq!(Color::DarkGray.code(), 8);
    assert_eq!(Color::Pink.code(), 13);
    assert_eq!(Color::White.code(), 15);
}

#[test]
fn default_color_code_is_white_on_black() {
    assert_eq!(ColorCode::default(), white_on_black());
}

#[test]
fn default_writer_is_blank_at_column_zero() {
    let w = BufWriter::default();
    assert_eq!(w.column_position(), 0);
    assert_eq!(w.color_code(), white_on_black());
    for row in 0..BUFFER_HEIGHT {
        assert_row_blank(&w, row);
    }
}

#[test]
fn printable_byte_lands_at_cursor() {
    let mut w = BufWriter::default();
    w.write_string("ab");
    let before = w.column_position();
    w.write_string("~");
    assert_eq!(w.cell(last(), before), ch(b'~'));
    assert_eq!(w.column_position(), before + 1);
}

#[test]
fn every_printable_byte_is_kept() {
    for b in 0x20u8..=0x7e {
        let mut w = BufWriter::default();
        let s = String::from_utf8(vec![b]).unwrap();
        w.write_string(&s);
        assert_eq!(w.cell(last(), 0), ch(b));
        assert_eq!(w.column_position(), 1);
    }
}

#[test]
fn unprintable_bytes_become_placeholder() {
    let mut w = BufWriter::default();
    w.write_string("a\tb\u{7f}é");
    assert_eq!(w.cell(last(), 0), ch(b'a'));
    assert_eq!(w.cell(last(), 1), ch(PLACEHOLDER));
    assert_eq!(w.cell(last(), 2), ch(b'b'));
    assert_eq!(w.cell(last(), 3), ch(PLACEHOLDER));
    // 'é' is two bytes of UTF-8, both outside the printable range
    assert_eq!(w.cell(last(), 4), ch(PLACEHOLDER));
    assert_eq!(w.cell(last(), 5), ch(PLACEHOLDER));
    assert_eq!(w.column_position(), 6);
}

#[test]
fn write_byte_writes_raw_byte() {
    let mut w = BufWriter::default();
    w.write_byte(0x01);
    assert_eq!(w.cell(last(), 0), ch(0x01));
    assert_eq!(w.column_position(), 1);
}

#[test]
fn full_row_does_not_scroll() {
    let mut w = BufWriter::default();
    w.write_string("top\n");
    let text: String = (0..BUFFER_WIDTH).map(|i| (b'A' + (i % 26) as u8) as char).collect();
    w.write_string(&text);
    assert_eq!(w.column_position(), BUFFER_WIDTH);
    for col in 0..BUFFER_WIDTH {
        assert_eq!(w.cell(last(), col), ch(b'A' + (col % 26) as u8));
    }
    assert_eq!(w.cell(last() - 1, 0), ch(b't'));
    assert_eq!(w.cell(last() - 1, 2), ch(b'p'));
}

#[test]
fn one_past_full_row_wraps() {
    let mut w = BufWriter::default();
    let text: String = (0..BUFFER_WIDTH + 1).map(|i| (b'a' + (i % 26) as u8) as char).collect();
    w.write_string(&text);
    for col in 0..BUFFER_WIDTH {
        assert_eq!(w.cell(last() - 1, col), ch(b'a' + (col % 26) as u8));
    }
    assert_eq!(w.cell(last(), 0), ch(b'a' + (BUFFER_WIDTH % 26) as u8));
    for col in 1..BUFFER_WIDTH {
        assert_eq!(w.cell(last(), col), blank());
    }
    assert_eq!(w.column_position(), 1);
}

#[test]
fn newline_shifts_up_once() {
    let mut w = BufWriter::default();
    w.write_string("first\nsecond");
    assert_eq!(w.column_position(), 6);
    w.write_string("\n");
    assert_eq!(w.column_position(), 0);
    assert_eq!(w.cell(last() - 2, 0), ch(b'f'));
    assert_eq!(w.cell(last() - 1, 0), ch(b's'));
    assert_eq!(w.cell(last() - 1, 5), ch(b'd'));
    assert_row_blank(&w, last());
}

#[test]
fn top_row_is_discarded() {
    let mut w = BufWriter::default();
    w.write_string("oldest");
    for _ in 0..BUFFER_HEIGHT - 1 {
        w.new_line();
    }
    assert_eq!(w.cell(0, 0), ch(b'o'));
    w.new_line();
    for row in 0..BUFFER_HEIGHT {
        assert_row_blank(&w, row);
    }
}

#[test]
fn clearing_a_row_twice_is_clearing_once() {
    let mut w = BufWriter::default();
    w.write_string("some text\nmore text");
    w.clear_row(last() - 1);
    assert_row_blank(&w, last() - 1);
    let once: Vec<Char> = (0..BUFFER_WIDTH).map(|c| w.cell(last() - 1, c)).collect();
    w.clear_row(last() - 1);
    let twice: Vec<Char> = (0..BUFFER_WIDTH).map(|c| w.cell(last() - 1, c)).collect();
    assert_eq!(once, twice);
    assert_eq!(w.cell(last(), 0), ch(b'm'));
    assert_eq!(w.column_position(), 9);
}

#[test]
fn short_text_round_trips_in_last_row() {
    let mut w = BufWriter::default();
    w.write_string("hello, world");
    for (col, b) in "hello, world".bytes().enumerate() {
        assert_eq!(w.cell(last(), col), ch(b));
    }
    for col in 12..BUFFER_WIDTH {
        assert_eq!(w.cell(last(), col), blank());
    }
    assert_eq!(w.column_position(), 12);
}

#[test]
fn hi_newline_scenario() {
    let mut w = BufWriter::default();
    w.write_string("HI\n");
    assert_eq!(w.cell(last() - 1, 0), ch(b'H'));
    assert_eq!(w.cell(last() - 1, 1), ch(b'I'));
    for col in 2..BUFFER_WIDTH {
        assert_eq!(w.cell(last() - 1, col), blank());
    }
    assert_row_blank(&w, last());
    for row in 0..BUFFER_HEIGHT - 2 {
        assert_row_blank(&w, row);
    }
    assert_eq!(w.column_position(), 0);
}

#[test]
fn width_plus_one_scenario() {
    let mut w = BufWriter::default();
    let mut text = "x".repeat(BUFFER_WIDTH);
    text.push('Z');
    w.write_string(&text);
    assert_eq!(w.cell(last(), 0), ch(b'Z'));
    assert_eq!(w.cell(last() - 1, BUFFER_WIDTH - 1), ch(b'x'));
    assert_eq!(w.column_position(), 1);
}

#[test]
fn empty_string_changes_nothing() {
    let mut w = BufWriter::default();
    w.write_string("ab");
    w.write_string("");
    assert_eq!(w.column_position(), 2);
    assert_eq!(w.cell(last(), 1), ch(b'b'));
}
