use nibbled::editor::FileEditor;
use nibbled::session::{
    hex_char_to_u8, parse_hex_address, Action, InputPurpose, KeyInput, Session,
};
use nibbled::view::EditorMode;

fn session(bytes: &[u8]) -> Session {
    let editor = FileEditor::new(bytes.to_vec(), String::from("session.bin"));
    Session::new(editor, 80, 24)
}

fn type_line(s: &mut Session, line: &str) {
    for c in line.chars() {
        s.handle_key(KeyInput::Char(c));
    }
    s.handle_key(KeyInput::Enter);
}

#[test]
fn hex_digit_key_writes_nibble_and_advances() {
    let mut s = session(&[0x00, 0x00]);
    let act = s.handle_key(KeyInput::Char('5'));
    assert_eq!(act, Action::Redraw);
    assert_eq!(s.editor.buffer, vec![0x50, 0x00]);
    assert_eq!(s.editor.cursor_nibble(), 1);
    let act = s.handle_key(KeyInput::Char('a'));
    assert_eq!(act, Action::Redraw);
    assert_eq!(s.editor.buffer, vec![0x5a, 0x00]);
    assert_eq!(s.editor.cursor_nibble(), 2);
}

#[test]
fn undo_key_reports_whether_something_happened() {
    let mut s = session(&[0x00]);
    assert_eq!(s.handle_key(KeyInput::Char('u')), Action::Nothing);
    s.handle_key(KeyInput::Char('f'));
    assert_eq!(s.handle_key(KeyInput::Char('u')), Action::Redraw);
    assert_eq!(s.editor.buffer, vec![0x00]);
    assert_eq!(s.handle_key(KeyInput::Char('r')), Action::Redraw);
    assert_eq!(s.editor.buffer, vec![0xf0]);
    assert_eq!(s.handle_key(KeyInput::Char('r')), Action::Nothing);
}

#[test]
fn save_key_requests_a_save() {
    let mut s = session(&[0x00]);
    assert_eq!(s.handle_key(KeyInput::Char('w')), Action::Save);
}

#[test]
fn quit_with_saved_buffer_stops_the_session() {
    let mut s = session(&[0x00]);
    assert!(s.running);
    assert_eq!(s.handle_key(KeyInput::Char('q')), Action::Nothing);
    assert!(!s.running);
}

#[test]
fn quit_with_unsaved_changes_asks_for_confirmation() {
    let mut s = session(&[0x00]);
    s.handle_key(KeyInput::Char('1'));
    s.handle_key(KeyInput::Char('q'));
    assert_eq!(s.pending, Some(InputPurpose::QuitConfirm));
    assert!(s.running);
    type_line(&mut s, "y");
    assert!(!s.running);
}

#[test]
fn quit_confirmation_accepts_yes_in_any_case_and_nothing_else() {
    let mut s = session(&[0x00]);
    s.handle_key(KeyInput::Char('1'));
    s.handle_key(KeyInput::Char('q'));
    type_line(&mut s, "no");
    assert!(s.running);
    s.handle_key(KeyInput::Char('q'));
    type_line(&mut s, "YES");
    assert!(!s.running);
}

#[test]
fn jump_prompt_moves_cursor_to_hex_address() {
    let mut s = session(&[0u8; 100]);
    s.handle_key(KeyInput::Char('j'));
    assert_eq!(s.pending, Some(InputPurpose::Jump));
    type_line(&mut s, "0x10");
    assert_eq!(s.pending, None);
    assert_eq!(s.editor.cursor_nibble(), 32);
    // without the 0x prefix, still hex
    s.handle_key(KeyInput::Char('j'));
    type_line(&mut s, "2a");
    assert_eq!(s.editor.cursor_nibble(), 2 * 0x2a);
}

#[test]
fn jump_past_the_end_is_clamped_to_the_last_nibble() {
    let mut s = session(&[0u8; 10]);
    s.handle_key(KeyInput::Char('j'));
    type_line(&mut s, "ffff");
    assert_eq!(s.editor.cursor_nibble(), 19);
}

#[test]
fn malformed_jump_address_is_ignored() {
    let mut s = session(&[0u8; 10]);
    s.handle_key(KeyInput::Char('2'));
    s.handle_key(KeyInput::Char('j'));
    type_line(&mut s, "zz");
    assert_eq!(s.editor.cursor_nibble(), 1);
}

#[test]
fn search_prompt_finds_matches_and_jumps_to_first() {
    let mut s = session(&[0x61, 0x61, 0x61]);
    s.handle_key(KeyInput::Char('/'));
    assert_eq!(s.pending, Some(InputPurpose::Search));
    type_line(&mut s, "/aa");
    let results = s.search_results.as_ref().expect("matches exist");
    assert_eq!(results.len(), 2);
    assert_eq!(s.editor.cursor_nibble(), 0);
    // n moves to the next (overlapping) match, m back
    s.handle_key(KeyInput::Char('n'));
    assert_eq!(s.editor.cursor_nibble(), 2);
    s.handle_key(KeyInput::Char('n'));
    assert_eq!(s.editor.cursor_nibble(), 2);
    s.handle_key(KeyInput::Char('m'));
    assert_eq!(s.editor.cursor_nibble(), 0);
}

#[test]
fn failed_search_leaves_no_result_set() {
    let mut s = session(&[0x61]);
    s.handle_key(KeyInput::Char('/'));
    type_line(&mut s, "zz");
    assert!(s.search_results.is_none());
    assert_eq!(s.handle_key(KeyInput::Char('n')), Action::Nothing);
}

#[test]
fn new_search_discards_the_previous_result_set() {
    let mut s = session(&[0x61, 0x62]);
    s.handle_key(KeyInput::Char('/'));
    type_line(&mut s, "/a");
    assert!(s.search_results.is_some());
    s.handle_key(KeyInput::Char('/'));
    assert!(s.search_results.is_none());
    type_line(&mut s, "/b");
    assert_eq!(s.search_results.as_ref().expect("found").result(), 1);
}

#[test]
fn tab_switches_to_text_mode_and_esc_back() {
    let mut s = session(&[0x00, 0x00]);
    s.handle_key(KeyInput::Char('1'));
    assert_eq!(s.editor.cursor_nibble(), 1);
    assert_eq!(s.handle_key(KeyInput::Tab), Action::Redraw);
    assert_eq!(s.editor_mode, EditorMode::TextMode);
    // the mode switch forces whole-byte granularity
    assert_eq!(s.editor.cursor_nibble(), 0);
    assert_eq!(s.handle_key(KeyInput::Esc), Action::Redraw);
    assert_eq!(s.editor_mode, EditorMode::HexMode);
    // Esc in hex mode changes nothing
    assert_eq!(s.handle_key(KeyInput::Esc), Action::Nothing);
}

#[test]
fn text_mode_writes_whole_bytes() {
    let mut s = session(&[0x00, 0x00]);
    s.handle_key(KeyInput::Tab);
    let act = s.handle_key(KeyInput::Char('A'));
    assert_eq!(act, Action::Redraw);
    assert_eq!(s.editor.buffer, vec![0x41, 0x00]);
    assert_eq!(s.editor.cursor_nibble(), 2);
    // non-printable input writes nothing
    assert_eq!(s.handle_key(KeyInput::Char('\n')), Action::Nothing);
    assert_eq!(s.editor.buffer, vec![0x41, 0x00]);
}

#[test]
fn prompt_characters_and_backspace_edit_the_input_line() {
    let mut s = session(&[0x00]);
    s.handle_key(KeyInput::Char('j'));
    s.handle_key(KeyInput::Char('1'));
    s.handle_key(KeyInput::Char('2'));
    assert_eq!(s.input_buffer, vec!['1', '2']);
    s.handle_key(KeyInput::Backspace);
    assert_eq!(s.input_buffer, vec!['1']);
    s.handle_key(KeyInput::Backspace);
    assert!(s.input_buffer.is_empty());
    assert_eq!(s.pending, Some(InputPurpose::Jump));
    // backspace on an empty line leaves the prompt
    s.handle_key(KeyInput::Backspace);
    assert_eq!(s.pending, None);
}

#[test]
fn esc_cancels_the_prompt() {
    let mut s = session(&[0x00]);
    s.handle_key(KeyInput::Char('/'));
    s.handle_key(KeyInput::Char('a'));
    s.handle_key(KeyInput::Esc);
    assert_eq!(s.pending, None);
    assert!(s.input_buffer.is_empty());
    assert!(s.search_results.is_none());
}

#[test]
fn navigation_keys_keep_cursor_row_visible() {
    let mut s = session(&[0u8; 400]);
    s.handle_key(KeyInput::PageDown);
    let rows = (24 - 4) as usize;
    assert_eq!(s.editor.offset(), 16 * rows);
    let row = s.editor.cursor_nibble() / 32;
    assert!(s.editor.offset() / 16 <= row && row < s.editor.offset() / 16 + rows);
    s.handle_key(KeyInput::PageUp);
    assert_eq!(s.editor.offset(), 0);
    assert_eq!(s.editor.cursor_nibble(), 0);
}

#[test]
fn pagedown_on_short_buffer_saturates_at_final_row() {
    let mut s = session(&[0u8; 20]);
    s.handle_key(KeyInput::PageDown);
    assert_eq!(s.editor.offset(), 16);
    assert_eq!(s.editor.cursor_nibble(), 39);
    s.handle_key(KeyInput::PageUp);
    assert_eq!(s.editor.offset(), 0);
}

#[test]
fn resize_reclamps_the_viewport() {
    let mut s = session(&[0u8; 400]);
    s.handle_key(KeyInput::PageDown);
    s.resize(80, 10);
    let rows = (10 - 4) as usize;
    let row = s.editor.cursor_nibble() / 32;
    assert!(s.editor.offset() / 16 <= row && row < s.editor.offset() / 16 + rows);
}

#[test]
fn mark_saved_via_session() {
    let mut s = session(&[0x00]);
    s.handle_key(KeyInput::Char('1'));
    assert!(!s.editor.saved());
    s.mark_saved();
    assert!(s.editor.saved());
}

#[test]
fn cursor_coords_follow_the_mode_and_prompt() {
    let mut s = session(&[0u8; 64]);
    assert_eq!(s.cursor_coords(), Some((12, 3)));
    s.handle_key(KeyInput::Right);
    assert_eq!(s.cursor_coords(), Some((13, 3)));
    s.handle_key(KeyInput::Char('j'));
    s.handle_key(KeyInput::Char('1'));
    // prompt: prefix "j " plus one typed character, on the last row
    assert_eq!(s.cursor_coords(), Some((3, 23)));
}

#[test]
fn prompt_prefixes_match_their_purpose() {
    assert_eq!(InputPurpose::Jump.prefix(), "j ");
    assert_eq!(InputPurpose::Search.prefix(), "/");
    assert_eq!(InputPurpose::QuitConfirm.prefix(), "quit without saving? ");
}

#[test]
fn hex_char_values() {
    assert_eq!(hex_char_to_u8('0'), Some(0));
    assert_eq!(hex_char_to_u8('9'), Some(9));
    assert_eq!(hex_char_to_u8('a'), Some(10));
    assert_eq!(hex_char_to_u8('f'), Some(15));
    assert_eq!(hex_char_to_u8('g'), None);
    assert_eq!(hex_char_to_u8('A'), None);
}

#[test]
fn parse_hex_addresses() {
    assert_eq!(parse_hex_address(&vec!['1', '0']), Some(0x10));
    assert_eq!(parse_hex_address(&vec!['0', 'x', '1', '0']), Some(0x10));
    assert_eq!(parse_hex_address(&vec!['f', 'F']), Some(0xff));
    assert_eq!(parse_hex_address(&vec![]), None);
    assert_eq!(parse_hex_address(&vec!['0', 'x']), None);
    assert_eq!(parse_hex_address(&vec!['g']), None);
    // 17 hex digits exceed usize on every platform
    assert_eq!(parse_hex_address(&"1ffffffffffffffff".chars().collect()), None);
}
