use bentos::vga_buffer::{
    Color, ColorCode, ScreenChar, Writer, BLANK, BUFFER_HEIGHT, BUFFER_WIDTH, PLACEHOLDER,
};

fn test_writer() -> Writer {
    Writer::new(ColorCode::new(Color::LightCyan, Color::Blue))
}

fn bottom_text(writer: &Writer, len: usize) -> Vec<u8> {
    (0..len).map(|c| writer.char_at(BUFFER_HEIGHT - 1, c).ascii_character).collect()
}

#[test]
fn color_codes_pack_background_high_foreground_low() {
    assert_eq!(ColorCode::new(Color::Yellow, Color::Black).0, 14);
    assert_eq!(ColorCode::new(Color::LightCyan, Color::Blue).0, (1 << 4) | 11);
    assert_eq!(ColorCode::new(Color::White, Color::White).0, 0xff);
    assert_eq!(ColorCode::new(Color::Black, Color::Black).0, 0);
}

#[test]
fn new_writer_is_blank() {
    let writer = test_writer();
    assert_eq!(writer.column_position, 0);
    for row in 0..BUFFER_HEIGHT {
        for col in 0..BUFFER_WIDTH {
            let cell = writer.char_at(row, col);
            assert_eq!(cell.ascii_character, BLANK);
        }
    }
}

#[test]
fn bytes_land_on_the_bottom_row() {
    let mut writer = test_writer();
    writer.write_string("Hi");
    assert_eq!(writer.column_position, 2);
    assert_eq!(writer.char_at(BUFFER_HEIGHT - 1, 0).ascii_character, b'H');
    assert_eq!(writer.char_at(BUFFER_HEIGHT - 1, 1).ascii_character, b'i');
    let color = ColorCode::new(Color::LightCyan, Color::Blue);
    assert_eq!(
        writer.char_at(BUFFER_HEIGHT - 1, 0),
        ScreenChar { ascii_character: b'H', color_code: color }
    );
}

#[test]
fn unprintable_bytes_become_the_placeholder() {
    let mut writer = test_writer();
    writer.write_bytes(&[0x01, 0x7f, 0x80]);
    for col in 0..3 {
        assert_eq!(writer.char_at(BUFFER_HEIGHT - 1, col).ascii_character, PLACEHOLDER);
    }
    // The same holds for the bytes of a non-ASCII character in a string.
    let mut writer = test_writer();
    writer.write_string("\u{fe}");
    assert_eq!(writer.char_at(BUFFER_HEIGHT - 1, 0).ascii_character, PLACEHOLDER);
}

#[test]
fn eighty_first_character_wraps_to_a_new_line() {
    // Scenario: fill the row with 80 printable characters, then one more.
    let mut writer = test_writer();
    for _ in 0..BUFFER_WIDTH {
        writer.write_byte(b'x');
    }
    assert_eq!(writer.column_position, BUFFER_WIDTH);
    writer.write_byte(b'y');
    // The row of x-es scrolled up by one; the y starts the fresh bottom row.
    assert_eq!(writer.column_position, 1);
    assert_eq!(writer.char_at(BUFFER_HEIGHT - 1, 0).ascii_character, b'y');
    assert_eq!(writer.char_at(BUFFER_HEIGHT - 2, 0).ascii_character, b'x');
    assert_eq!(writer.char_at(BUFFER_HEIGHT - 2, BUFFER_WIDTH - 1).ascii_character, b'x');
}

#[test]
fn newline_scrolls_and_clears_the_bottom_row() {
    let mut writer = test_writer();
    writer.write_string("abc\n");
    assert_eq!(writer.column_position, 0);
    assert_eq!(writer.char_at(BUFFER_HEIGHT - 2, 0).ascii_character, b'a');
    assert_eq!(writer.char_at(BUFFER_HEIGHT - 2, 1).ascii_character, b'b');
    assert_eq!(writer.char_at(BUFFER_HEIGHT - 2, 2).ascii_character, b'c');
    for col in 0..BUFFER_WIDTH {
        assert_eq!(writer.char_at(BUFFER_HEIGHT - 1, col).ascii_character, BLANK);
    }
}

#[test]
fn scrolling_moves_the_second_line_onto_the_first() {
    // Scenario: 26 distinct lines; what stood on the second row before the
    // last scroll stands on the first row after it.
    let mut writer = test_writer();
    for i in 0..25u8 {
        writer.write_string("line ");
        writer.write_byte(b'A' + i);
        writer.write_byte(b'\n');
    }
    let second_row_before: Vec<ScreenChar> =
        (0..BUFFER_WIDTH).map(|c| writer.char_at(1, c)).collect();
    writer.write_string("line Z\n");
    let first_row_after: Vec<ScreenChar> =
        (0..BUFFER_WIDTH).map(|c| writer.char_at(0, c)).collect();
    assert_eq!(first_row_after, second_row_before);
    // And the most recent line sits just above the cleared bottom row.
    assert_eq!(writer.char_at(BUFFER_HEIGHT - 2, 5).ascii_character, b'Z');
}

#[test]
fn long_string_wraps_inside_write_string() {
    let mut writer = test_writer();
    let long: String = std::iter::repeat('m').take(85).collect();
    writer.write_string(&long);
    assert_eq!(writer.column_position, 5);
    assert_eq!(bottom_text(&writer, 5), vec![b'm'; 5]);
    assert_eq!(writer.char_at(BUFFER_HEIGHT - 2, 79).ascii_character, b'm');
}

#[test]
fn color_enum_codes_are_the_hardware_values() {
    assert_eq!(Color::Black.code(), 0);
    assert_eq!(Color::Blue.code(), 1);
    assert_eq!(Color::LightCyan.code(), 11);
    assert_eq!(Color::White.code(), 15);
}
