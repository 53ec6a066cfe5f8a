use nibbled::editor::FileEditor;

fn editor(bytes: &[u8]) -> FileEditor {
    FileEditor::new(bytes.to_vec(), String::from("test.bin"))
}

#[test]
fn write_nibble_high_half() {
    let mut ed = editor(&[0xab]);
    // cursor at nibble 0: replace the high 4 bits
    ed.write_nibble(0x5);
    assert_eq!(ed.buffer, vec![0x5b]);
    assert!(!ed.saved());
}

#[test]
fn write_nibble_low_half() {
    let mut ed = editor(&[0xab]);
    ed.cursor_nibble = 1;
    ed.write_nibble(0x5);
    assert_eq!(ed.buffer, vec![0xa5]);
}

#[test]
fn write_byte_replaces_whole_byte() {
    let mut ed = editor(&[0x00, 0x11]);
    ed.cursor_nibble = 2;
    ed.write_byte(0x7f);
    assert_eq!(ed.buffer, vec![0x00, 0x7f]);
}

#[test]
fn undo_after_single_write_restores_prewrite_state() {
    let mut ed = editor(&[0x12, 0x34, 0x56]);
    ed.cursor_nibble = 2;
    ed.write_nibble(0xf);
    assert_eq!(ed.buffer, vec![0x12, 0xf4, 0x56]);
    let undid = ed.undo();
    assert!(undid);
    assert_eq!(ed.buffer, vec![0x12, 0x34, 0x56]);
    // the cursor lands on the affected byte's first nibble
    assert_eq!(ed.cursor_nibble(), 2);
    // redo afterwards restores the post-write state
    let redid = ed.redo();
    assert!(redid);
    assert_eq!(ed.buffer, vec![0x12, 0xf4, 0x56]);
}

#[test]
fn undo_on_empty_stack_reports_nothing_happened() {
    let mut ed = editor(&[0x01]);
    assert!(!ed.undo());
    assert!(!ed.redo());
    assert_eq!(ed.buffer, vec![0x01]);
}

#[test]
fn new_write_discards_redo_stack() {
    let mut ed = editor(&[0x10, 0x20]);
    ed.write_byte(0xaa);
    ed.undo();
    // a fresh write after the undo discards the redo timeline
    ed.write_byte(0xbb);
    assert!(!ed.redo());
    assert_eq!(ed.buffer, vec![0xbb, 0x20]);
}

#[test]
fn undo_chain_restores_in_reverse_order() {
    let mut ed = editor(&[0x00, 0x00]);
    ed.write_byte(0x01);
    ed.cursor_nibble = 2;
    ed.write_byte(0x02);
    assert_eq!(ed.buffer, vec![0x01, 0x02]);
    assert!(ed.undo());
    assert_eq!(ed.buffer, vec![0x01, 0x00]);
    assert!(ed.undo());
    assert_eq!(ed.buffer, vec![0x00, 0x00]);
    assert!(ed.redo());
    assert_eq!(ed.buffer, vec![0x01, 0x00]);
}

#[test]
fn read_bytes_is_clipped_at_end_of_buffer() {
    let mut ed = editor(&[1, 2, 3, 4, 5]);
    ed.offset = 3;
    assert_eq!(ed.read_bytes(16), &[4, 5]);
    ed.offset = 0;
    assert_eq!(ed.read_bytes(2), &[1, 2]);
}

#[test]
fn mark_saved_clears_dirty_flag() {
    let mut ed = editor(&[9]);
    assert!(ed.saved());
    ed.write_nibble(0x1);
    assert!(!ed.saved());
    ed.mark_saved();
    assert!(ed.saved());
}

#[test]
fn file_size_and_filename() {
    let ed = editor(&[0; 42]);
    assert_eq!(ed.file_size(), 42);
    assert_eq!(ed.filename(), "test.bin");
}
