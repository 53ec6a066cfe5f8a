use nibbled::dump::{dump_row, hex_digit};

fn row_string(buf: &[u8], row: usize, replacement: char) -> String {
    dump_row(buf, row, replacement).into_iter().collect()
}

#[test]
fn hex_digits_render_lowercase() {
    assert_eq!(hex_digit(0), '0');
    assert_eq!(hex_digit(9), '9');
    assert_eq!(hex_digit(10), 'a');
    assert_eq!(hex_digit(15), 'f');
}

#[test]
fn one_byte_file_renders_address_byte_and_ascii() {
    // row address 00000000, the byte 41, blank placeholders for the other
    // 15 columns, then the ASCII column showing only "A"
    let line = row_string(&[0x41], 0, '.');
    let expected = format!(" 00000000   41 {}  A", " ".repeat(46));
    assert_eq!(line, expected);
}

#[test]
fn full_row_renders_sixteen_columns_with_gap() {
    let bytes: Vec<u8> = (0x41..0x51).collect();
    let line = row_string(&bytes, 0, '.');
    assert_eq!(
        line,
        " 00000000   41 42 43 44 45 46 47 48  49 4a 4b 4c 4d 4e 4f 50   ABCDEFGHIJKLMNOP"
    );
}

#[test]
fn second_row_address_is_sixteen() {
    let bytes = vec![0u8; 17];
    let line = row_string(&bytes, 1, '.');
    let expected = format!(" 00000010   00 {}  {}", " ".repeat(46), '.');
    assert_eq!(line, expected);
}

#[test]
fn non_printable_bytes_use_the_replacement_glyph() {
    let line = row_string(&[0x00, 0x41, 0x7f, 0x1f], 0, '.');
    assert!(line.ends_with("  .A.."));
    let unicode = row_string(&[0x00], 0, '\u{fffd}');
    assert!(unicode.ends_with("  \u{fffd}"));
}

#[test]
fn printable_boundaries_are_space_and_tilde() {
    let line = row_string(&[0x20, 0x7e, 0x1f, 0x7f], 0, '.');
    assert!(line.ends_with("   ~.."));
}

#[test]
fn large_addresses_render_low_eight_digits() {
    let bytes = vec![0u8; 16 * 0x1234 + 1];
    let line = row_string(&bytes, 0x1234, '.');
    assert!(line.starts_with(" 00012340   "));
}
