//! The cursor/viewport model: mode-dependent cursor movement, the clamp that
//! runs before every redraw to keep the cursor's row visible, and the mapping
//! from a nibble cursor to screen coordinates in the two editor modes.

use vstd::prelude::*;

use crate::editor::{EditorModel, FileEditor};

verus! {

/// The two editing modes: hex mode addresses single nibbles, text mode whole
/// bytes.
#[derive(PartialEq, Eq, Structural, Clone, Copy, Debug)]
pub enum EditorMode {
    HexMode,
    TextMode,
}

impl EditorMode {
    /// The other mode (the mode cycle has length two).
    pub fn next(&self) -> (r: EditorMode)
        ensures
            r == (match self {
                EditorMode::HexMode => EditorMode::TextMode,
                EditorMode::TextMode => EditorMode::HexMode,
            }),
    {
        match self {
            EditorMode::HexMode => EditorMode::TextMode,
            EditorMode::TextMode => EditorMode::HexMode,
        }
    }

    /// The mode's display name.
    pub fn name(&self) -> (r: &'static str)
        ensures
            *self == EditorMode::HexMode ==> r@ == "normal"@,
            *self == EditorMode::TextMode ==> r@ == "text"@,
    {
        match self {
            EditorMode::HexMode => "normal",
            EditorMode::TextMode => "text",
        }
    }
}

/// A navigation request.
#[derive(PartialEq, Eq, Structural, Clone, Copy, Debug)]
pub enum CursorMovementType {
    Right,
    Left,
    Up,
    Down,
    PageUp,
    PageDown,
}

/// `a + b` capped at the largest `usize` value. Positions pushed to the cap
/// are pulled back into range by the clamp that precedes every redraw.
pub open spec fn sat_add(a: int, b: int) -> int {
    if a + b <= usize::MAX as int {
        a + b
    } else {
        usize::MAX as int
    }
}

/// `a - b` floored at zero.
pub open spec fn sat_sub(a: int, b: int) -> int {
    if a - b >= 0 {
        a - b
    } else {
        0
    }
}

/// The horizontal step in nibbles: hex mode moves one nibble at a time, text
/// mode one byte (two nibbles).
pub open spec fn spec_x_step(mode: EditorMode) -> int {
    match mode {
        EditorMode::HexMode => 1,
        EditorMode::TextMode => 2,
    }
}

/// The state after one navigation step. Page moves shift the viewport offset
/// directly as well as the cursor: PageUp saturates both at the buffer
/// start, while PageDown deliberately leaves the upper bound to the clamp
/// that precedes the next redraw (an offset pushed past the numeric limit
/// lands on the last row start, which is where that clamp would put it).
pub open spec fn spec_move_cursor(
    m: EditorModel,
    mode: EditorMode,
    page_rows: int,
    movement: CursorMovementType,
) -> EditorModel {
    let x = spec_x_step(mode);
    let max_off = m.bytes.len() as int - m.bytes.len() as int % 16;
    match movement {
        CursorMovementType::Right => EditorModel { cursor: sat_add(m.cursor, x), ..m },
        CursorMovementType::Left => EditorModel { cursor: sat_sub(m.cursor, x), ..m },
        CursorMovementType::Up => EditorModel { cursor: sat_sub(m.cursor, 32), ..m },
        CursorMovementType::Down => EditorModel { cursor: sat_add(m.cursor, 32), ..m },
        CursorMovementType::PageUp => EditorModel {
            cursor: sat_sub(m.cursor, 32 * page_rows),
            offset: sat_sub(m.offset, 16 * page_rows),
            ..m
        },
        CursorMovementType::PageDown => EditorModel {
            cursor: sat_add(m.cursor, 32 * page_rows),
            offset: if m.offset + 16 * page_rows <= usize::MAX as int {
                m.offset + 16 * page_rows
            } else {
                max_off
            },
            ..m
        },
    }
}

/// Applies one navigation step to the editor state. `page_rows` is the
/// number of visible data rows, by which page moves jump.
pub fn move_cursor(
    ed: &mut FileEditor,
    mode: &EditorMode,
    page_rows: usize,
    movement: CursorMovementType,
)
    requires
        old(ed)@.inv(),
        32 * page_rows <= usize::MAX as int,
    ensures
        final(ed)@ == spec_move_cursor(old(ed)@, *mode, page_rows as int, movement),
        final(ed)@.inv(),
{
    let xmov: usize = match mode {
        EditorMode::HexMode => 1,
        EditorMode::TextMode => 2,
    };

    match movement {
        CursorMovementType::Right => {
            ed.cursor_nibble = add_saturating(ed.cursor_nibble, xmov);
        },
        CursorMovementType::Left => {
            ed.cursor_nibble = sub_saturating(ed.cursor_nibble, xmov);
        },
        CursorMovementType::Up => {
            ed.cursor_nibble = sub_saturating(ed.cursor_nibble, 32);
        },
        CursorMovementType::Down => {
            ed.cursor_nibble = add_saturating(ed.cursor_nibble, 32);
        },
        CursorMovementType::PageUp => {
            ed.cursor_nibble = sub_saturating(ed.cursor_nibble, 32 * page_rows);
            ed.offset = sub_saturating(ed.offset, 16 * page_rows);
        },
        CursorMovementType::PageDown => {
            ed.cursor_nibble = add_saturating(ed.cursor_nibble, 32 * page_rows);
            let len = ed.buffer.len();
            ed.offset = if ed.offset <= usize::MAX - 16 * page_rows {
                ed.offset + 16 * page_rows
            } else {
                len - len % 16
            };
        },
    }
}

fn add_saturating(a: usize, b: usize) -> (r: usize)
    ensures
        r == sat_add(a as int, b as int),
{
    if a <= usize::MAX - b {
        a + b
    } else {
        usize::MAX
    }
}

fn sub_saturating(a: usize, b: usize) -> (r: usize)
    ensures
        r == sat_sub(a as int, b as int),
{
    if a >= b {
        a - b
    } else {
        0
    }
}

/// The cursor pulled back into the buffer's nibble range `[0, 2L - 1]`.
pub open spec fn spec_clamp_cursor(m: EditorModel) -> EditorModel
    recommends
        m.bytes.len() >= 1,
{
    EditorModel {
        cursor: if m.cursor > 2 * m.bytes.len() - 1 {
            2 * m.bytes.len() - 1
        } else {
            m.cursor
        },
        ..m
    }
}

/// Pulls the cursor back into the buffer's nibble range.
pub fn clamp_cursor(ed: &mut FileEditor)
    requires
        old(ed)@.inv(),
    ensures
        final(ed)@ == spec_clamp_cursor(old(ed)@),
        final(ed)@.inv(),
        final(ed)@.cursor < 2 * final(ed)@.bytes.len(),
{
    let max_cursor = 2 * ed.buffer.len() - 1;
    if ed.cursor_nibble > max_cursor {
        ed.cursor_nibble = max_cursor;
    }
}

/// The state the redraw algorithm leaves behind, given `rows` visible data
/// rows: the cursor is clamped into the buffer, the viewport scrolls up or
/// down so the cursor's row is visible, and the offset is clamped to
/// `[0, L - L % 16]`.
pub open spec fn spec_clamp_viewport(m: EditorModel, rows: int) -> EditorModel
    recommends
        m.inv(),
        rows >= 1,
{
    let len = m.bytes.len() as int;
    let c = spec_clamp_cursor(m).cursor;
    let cursor_row_start = (c / 32) * 16;
    let scrolled = if c < 2 * m.offset {
        cursor_row_start
    } else if c >= 2 * (m.offset + 16 * rows) {
        cursor_row_start - 16 * (rows - 1)
    } else {
        m.offset
    };
    let max_off = len - len % 16;
    EditorModel {
        cursor: c,
        offset: if scrolled <= max_off {
            scrolled
        } else {
            max_off
        },
        ..m
    }
}

/// Runs the pre-redraw clamp. The postconditions state the viewport
/// invariants: the offset stays a row-aligned address no greater than
/// `L - L % 16`, and the cursor's row lies within the visible row range
/// `[offset / 16, offset / 16 + rows)`.
pub fn clamp_viewport(ed: &mut FileEditor, rows: usize)
    requires
        old(ed)@.inv(),
        1 <= rows,
        32 * rows <= usize::MAX as int,
    ensures
        final(ed)@ == spec_clamp_viewport(old(ed)@, rows as int),
        final(ed)@.inv(),
        final(ed)@.cursor < 2 * final(ed)@.bytes.len(),
        final(ed)@.offset % 16 == 0,
        0 <= final(ed)@.offset <= final(ed)@.bytes.len() - final(ed)@.bytes.len() % 16,
        2 * final(ed)@.offset <= final(ed)@.cursor < 2 * (final(ed)@.offset + 16 * rows),
{
    proof {
        lemma_clamp_viewport_in_range(old(ed)@, rows as int);
    }
    let len = ed.buffer.len();
    clamp_cursor(ed);
    let c = ed.cursor_nibble;
    let cursor_row_start = (c / 32) * 16;
    if c / 2 < ed.offset {
        ed.offset = cursor_row_start;
    } else {
        let below = match ed.offset.checked_add(16 * rows) {
            Some(end) => c / 2 >= end,
            None => false,
        };
        if below {
            assert(c >= 32 * rows);
            assert(cursor_row_start >= 16 * rows) by {
                assert(c / 32 >= rows);
            };
            ed.offset = cursor_row_start - 16 * (rows - 1);
        }
    }
    let max_off = len - len % 16;
    if ed.offset > max_off {
        ed.offset = max_off;
    }
}

/// The viewport invariants hold of the clamped state: a row-aligned offset
/// within `[0, L - L % 16]`, and the cursor inside the visible window.
pub proof fn lemma_clamp_viewport_in_range(m: EditorModel, rows: int)
    requires
        m.inv(),
        rows >= 1,
    ensures
        spec_clamp_viewport(m, rows).offset % 16 == 0,
        0 <= spec_clamp_viewport(m, rows).offset <= m.bytes.len() - m.bytes.len() % 16,
        2 * spec_clamp_viewport(m, rows).offset <= spec_clamp_viewport(m, rows).cursor,
        spec_clamp_viewport(m, rows).cursor < 2 * (spec_clamp_viewport(m, rows).offset + 16
            * rows),
        spec_clamp_viewport(m, rows).cursor < 2 * m.bytes.len(),
        spec_clamp_viewport(m, rows).offset / 16 <= spec_clamp_viewport(m, rows).cursor / 32
            < spec_clamp_viewport(m, rows).offset / 16 + rows,
{
    let len = m.bytes.len() as int;
    let c = spec_clamp_cursor(m).cursor;
    let cursor_row_start = (c / 32) * 16;
    assert(2 * cursor_row_start <= c < 2 * (cursor_row_start + 16));
    if c >= 2 * (m.offset + 16 * rows) {
        assert(c / 32 >= rows);
        assert(cursor_row_start >= 16 * rows);
    }
    assert(c <= 2 * len - 1);
    assert(len - len % 16 + 16 > len);
}

/// Page moves never leave the viewport's range once the pre-redraw clamp has
/// run: PageUp saturates at the buffer start (the offset cannot go
/// negative), and a PageDown — however far past the end, also on a buffer
/// shorter than one page — is pulled back to at most the last row start.
pub proof fn lemma_page_moves_bounded(
    m: EditorModel,
    mode: EditorMode,
    page_rows: int,
    rows: int,
)
    requires
        m.inv(),
        page_rows >= 0,
        rows >= 1,
    ensures
        spec_move_cursor(m, mode, page_rows, CursorMovementType::PageUp).offset >= 0,
        spec_clamp_viewport(
            spec_move_cursor(m, mode, page_rows, CursorMovementType::PageDown),
            rows,
        ).offset <= m.bytes.len() - m.bytes.len() % 16,
{
}

/// The screen column of the cursor in hex mode, relative to the viewport:
/// 3 columns per byte starting at column 12, one extra column for the nibble
/// within the byte, and one more past the visual gap after the 8th byte.
pub open spec fn spec_hex_cursor_x(n: int) -> int {
    let x = 12 + ((n % 32) / 2) * 3 + n % 2;
    if x >= 36 {
        x + 1
    } else {
        x
    }
}

/// The screen column of the cursor in text mode: one column per byte
/// starting at column 63.
pub open spec fn spec_text_cursor_x(n: int) -> int {
    63 + (n % 32) / 2
}

/// The screen row of the cursor: the data grid starts at row 3.
pub open spec fn spec_cursor_y(n: int) -> int {
    3 + n / 32
}

/// Screen coordinates of the cursor, valid when the cursor lies in the
/// visible window of `rows` data rows (which the pre-redraw clamp
/// establishes).
pub fn coords_for_cursor(ed: &FileEditor, mode: &EditorMode, rows: usize) -> (r: (usize, usize))
    requires
        2 * ed@.offset <= ed@.cursor < 2 * (ed@.offset + 16 * rows),
        32 * rows <= usize::MAX as int / 2,
    ensures
        r.0 == (match mode {
            EditorMode::HexMode => spec_hex_cursor_x(ed@.cursor - 2 * ed@.offset),
            EditorMode::TextMode => spec_text_cursor_x(ed@.cursor - 2 * ed@.offset),
        }),
        r.1 == spec_cursor_y(ed@.cursor - 2 * ed@.offset),
{
    let nibble_wo_offset = ed.cursor_nibble - 2 * ed.offset;
    assert(nibble_wo_offset < 32 * rows);

    let y = 3 + nibble_wo_offset / 32;
    match mode {
        EditorMode::HexMode => {
            let mut x = 12 + (nibble_wo_offset % 32) / 2 * 3 + nibble_wo_offset % 2;
            if x >= 36 {
                x += 1;
            }
            (x, y)
        },
        EditorMode::TextMode => {
            let x = 63 + (nibble_wo_offset % 32) / 2;
            (x, y)
        },
    }
}

} // verus!
