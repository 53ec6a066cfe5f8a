use nibbled::editor::FileEditor;
use nibbled::view::{
    clamp_viewport, coords_for_cursor, move_cursor, CursorMovementType, EditorMode,
};

fn editor(len: usize) -> FileEditor {
    FileEditor::new(vec![0u8; len], String::from("view.bin"))
}

#[test]
fn editor_mode_cycles_between_the_two_modes() {
    assert_eq!(EditorMode::HexMode.next(), EditorMode::TextMode);
    assert_eq!(EditorMode::TextMode.next(), EditorMode::HexMode);
    assert_eq!(EditorMode::HexMode.name(), "normal");
    assert_eq!(EditorMode::TextMode.name(), "text");
}

#[test]
fn clamp_keeps_offset_row_aligned_and_in_range() {
    let mut ed = editor(100);
    ed.cursor_nibble = 500; // far past the buffer
    ed.offset = 96;
    clamp_viewport(&mut ed, 3);
    // offset is a multiple of 16 and at most L - L % 16
    assert_eq!(ed.offset() % 16, 0);
    assert!(ed.offset() <= 100 - 100 % 16);
    // cursor clamped into [0, 2L - 1]
    assert_eq!(ed.cursor_nibble(), 199);
}

#[test]
fn clamp_scrolls_down_to_keep_cursor_row_visible() {
    let mut ed = editor(160); // 10 rows
    ed.cursor_nibble = 2 * 150; // byte 150, row 9
    ed.offset = 0;
    clamp_viewport(&mut ed, 4);
    // the cursor's row becomes the bottom visible row
    assert_eq!(ed.offset(), 16 * (9 - 3));
    let row = ed.cursor_nibble() / 32;
    assert!(ed.offset() / 16 <= row && row < ed.offset() / 16 + 4);
}

#[test]
fn clamp_scrolls_up_when_cursor_is_above_viewport() {
    let mut ed = editor(160);
    ed.cursor_nibble = 2 * 20; // byte 20, row 1
    ed.offset = 80; // viewport starts at row 5
    clamp_viewport(&mut ed, 4);
    // the cursor's row becomes the top row
    assert_eq!(ed.offset(), 16);
}

#[test]
fn cursor_row_stays_visible_after_navigation_and_clamp() {
    let mut ed = editor(320);
    let rows = 5;
    for movement in [
        CursorMovementType::Down,
        CursorMovementType::Down,
        CursorMovementType::PageDown,
        CursorMovementType::Right,
        CursorMovementType::PageUp,
        CursorMovementType::Left,
        CursorMovementType::Up,
    ] {
        move_cursor(&mut ed, &EditorMode::HexMode, rows, movement);
        clamp_viewport(&mut ed, rows);
        let row = ed.cursor_nibble() / 32;
        assert!(ed.offset() % 16 == 0);
        assert!(ed.offset() / 16 <= row && row < ed.offset() / 16 + rows);
    }
}

#[test]
fn pageup_never_goes_negative_and_pagedown_saturates_at_final_row() {
    // PageUp at the start stays at the start
    let mut ed = editor(20);
    move_cursor(&mut ed, &EditorMode::HexMode, 10, CursorMovementType::PageUp);
    assert_eq!(ed.offset(), 0);
    assert_eq!(ed.cursor_nibble(), 0);

    // PageDown on a buffer shorter than one page lands on the final row
    // after the clamp that precedes the redraw
    move_cursor(&mut ed, &EditorMode::HexMode, 10, CursorMovementType::PageDown);
    assert_eq!(ed.offset(), 160); // not yet saturated: the clamp is responsible
    clamp_viewport(&mut ed, 10);
    assert_eq!(ed.offset(), 20 - 20 % 16);
    assert_eq!(ed.cursor_nibble(), 2 * 20 - 1);
}

#[test]
fn horizontal_step_depends_on_mode() {
    let mut ed = editor(16);
    move_cursor(&mut ed, &EditorMode::HexMode, 1, CursorMovementType::Right);
    assert_eq!(ed.cursor_nibble(), 1);
    move_cursor(&mut ed, &EditorMode::TextMode, 1, CursorMovementType::Right);
    assert_eq!(ed.cursor_nibble(), 3);
    move_cursor(&mut ed, &EditorMode::TextMode, 1, CursorMovementType::Left);
    assert_eq!(ed.cursor_nibble(), 1);
    move_cursor(&mut ed, &EditorMode::HexMode, 1, CursorMovementType::Down);
    assert_eq!(ed.cursor_nibble(), 33);
    move_cursor(&mut ed, &EditorMode::HexMode, 1, CursorMovementType::Up);
    assert_eq!(ed.cursor_nibble(), 1);
}

#[test]
fn hex_cursor_coordinates_account_for_column_gap() {
    let mut ed = editor(64);
    // nibble 0: first hex column
    assert_eq!(coords_for_cursor(&ed, &EditorMode::HexMode, 4), (12, 3));
    // second nibble of the first byte
    ed.cursor_nibble = 1;
    assert_eq!(coords_for_cursor(&ed, &EditorMode::HexMode, 4), (13, 3));
    // byte 8 crosses the visual gap after the 8th byte: one extra column
    ed.cursor_nibble = 16;
    assert_eq!(coords_for_cursor(&ed, &EditorMode::HexMode, 4), (37, 3));
    // one row down
    ed.cursor_nibble = 32;
    assert_eq!(coords_for_cursor(&ed, &EditorMode::HexMode, 4), (12, 4));
}

#[test]
fn text_cursor_coordinates_are_one_column_per_byte() {
    let mut ed = editor(64);
    ed.cursor_nibble = 2 * 5;
    assert_eq!(coords_for_cursor(&ed, &EditorMode::TextMode, 4), (63 + 5, 3));
    ed.cursor_nibble = 2 * 17;
    assert_eq!(coords_for_cursor(&ed, &EditorMode::TextMode, 4), (63 + 1, 4));
}

#[test]
fn coordinates_are_relative_to_the_viewport_offset() {
    let mut ed = editor(160);
    ed.offset = 32;
    ed.cursor_nibble = 2 * 33; // byte 1 of the viewport's first row
    assert_eq!(coords_for_cursor(&ed, &EditorMode::HexMode, 4), (12 + 3, 3));
    ed.cursor_nibble = 2 * 49; // byte 1, one row below
    assert_eq!(coords_for_cursor(&ed, &EditorMode::HexMode, 4), (12 + 3, 4));
}
