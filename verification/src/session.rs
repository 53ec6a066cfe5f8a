//! The interactive session's state machine.
//!
//! Every input event maps a session state to a successor state plus an
//! [`Action`] for the surrounding input/render loop: nothing, redraw, or
//! save. The prompt flow (jump address, search query, quit confirmation) is
//! a pending-command value rather than a callback, so the machine stays
//! inspectable. The clamp that precedes every redraw is folded into each
//! step that triggers one, mirroring a redraw after every state change.

use vstd::prelude::*;

use crate::editor::{EditorModel, FileEditor};
use crate::search::{spec_search, SearchModel, SearchResults};
use crate::view::{
    spec_clamp_cursor, spec_clamp_viewport, spec_move_cursor, CursorMovementType, EditorMode,
};

verus! {

/// A decoded input event, as the terminal layer hands it to the session.
#[derive(PartialEq, Eq, Structural, Clone, Copy, Debug)]
pub enum KeyInput {
    Char(char),
    Right,
    Left,
    Up,
    Down,
    PageUp,
    PageDown,
    Tab,
    Backspace,
    Enter,
    Esc,
}

/// What a pending prompt's input line is for.
#[derive(PartialEq, Eq, Structural, Clone, Copy, Debug)]
pub enum InputPurpose {
    Jump,
    Search,
    QuitConfirm,
}

/// The character count of a prompt's prefix text.
pub open spec fn spec_prefix_len(p: InputPurpose) -> int {
    match p {
        InputPurpose::Jump => 2,
        InputPurpose::Search => 1,
        InputPurpose::QuitConfirm => 21,
    }
}

impl InputPurpose {
    /// The character count of the prompt's prefix text.
    pub fn prefix_len(&self) -> (r: usize)
        ensures
            r == spec_prefix_len(*self),
    {
        match self {
            InputPurpose::Jump => 2,
            InputPurpose::Search => 1,
            InputPurpose::QuitConfirm => 21,
        }
    }

    /// The prompt text shown before the user's input line.
    pub fn prefix(&self) -> (r: &'static str)
        ensures
            *self == InputPurpose::Jump ==> r@ == "j "@,
            *self == InputPurpose::Search ==> r@ == "/"@,
            *self == InputPurpose::QuitConfirm ==> r@ == "quit without saving? "@,
    {
        match self {
            InputPurpose::Jump => "j ",
            InputPurpose::Search => "/",
            InputPurpose::QuitConfirm => "quit without saving? ",
        }
    }
}

/// What the surrounding loop must do after a step: nothing, repaint the
/// screen, or write the buffer to disk (and then repaint).
#[derive(PartialEq, Eq, Structural, Clone, Copy, Debug)]
pub enum Action {
    Nothing,
    Redraw,
    Save,
}

// ---------------------------------------------------------------------------
// Small input parsers
// ---------------------------------------------------------------------------

/// The nibble value of a lowercase hex digit, as typed in hex-edit mode.
pub open spec fn spec_hex_char_to_u8(c: char) -> Option<u8> {
    if '0' <= c <= '9' {
        Some((c as u32 - 48) as u8)
    } else if 'a' <= c <= 'f' {
        Some((c as u32 - 87) as u8)
    } else {
        None
    }
}

/// The nibble value of a lowercase hex digit; uppercase digits are not
/// accepted here (hex-edit mode reserves them for commands).
pub fn hex_char_to_u8(c: char) -> (r: Option<u8>)
    ensures
        r == spec_hex_char_to_u8(c),
        r matches Some(v) ==> v < 16,
{
    let i = c as u32;
    if '0' <= c && c <= '9' {
        Some((i - 48) as u8)
    } else if 'a' <= c && c <= 'f' {
        Some((i - 87) as u8)
    } else {
        None
    }
}

/// Whether `c` is a hex digit of either case (jump addresses accept both).
pub open spec fn is_hex_digit_char(c: char) -> bool {
    ('0' <= c <= '9') || ('a' <= c <= 'f') || ('A' <= c <= 'F')
}

/// The value of a hex digit of either case; 0 for other characters.
pub open spec fn hex_char_value(c: char) -> int {
    if '0' <= c <= '9' {
        c as u32 - 48
    } else if 'a' <= c <= 'f' {
        c as u32 - 87
    } else if 'A' <= c <= 'F' {
        c as u32 - 55
    } else {
        0
    }
}

/// The number a sequence of hex digits denotes.
pub open spec fn hex_chars_value(t: Seq<char>) -> int
    decreases t.len(),
{
    if t.len() == 0 {
        0
    } else {
        16 * hex_chars_value(t.drop_last()) + hex_char_value(t.last())
    }
}

proof fn lemma_hex_chars_value_nonneg(t: Seq<char>)
    ensures
        hex_chars_value(t) >= 0,
    decreases t.len(),
{
    if t.len() > 0 {
        lemma_hex_chars_value_nonneg(t.drop_last());
    }
}

/// A digit string's value only grows as digits are appended.
proof fn lemma_hex_chars_value_prefix(t: Seq<char>, j: int)
    requires
        0 <= j <= t.len(),
    ensures
        hex_chars_value(t.subrange(0, j)) <= hex_chars_value(t),
    decreases t.len() - j,
{
    if j == t.len() {
        assert(t.subrange(0, j) =~= t);
    } else {
        lemma_hex_chars_value_prefix(t, j + 1);
        let u = t.subrange(0, j + 1);
        assert(u.drop_last() =~= t.subrange(0, j));
        lemma_hex_chars_value_nonneg(u.drop_last());
    }
}

/// Whether every character of `t` is a hex digit of either case.
pub open spec fn all_hex_digit_chars(t: Seq<char>) -> bool {
    forall|i: int| 0 <= i < t.len() ==> is_hex_digit_char(#[trigger] t[i])
}

/// The address a jump prompt's text denotes: an optional `0x` prefix, then
/// one or more hex digits of either case, whose value fits in `usize`.
pub open spec fn spec_parse_hex_address(text: Seq<char>) -> Option<usize> {
    let t = if text.len() >= 2 && text[0] == '0' && text[1] == 'x' {
        text.subrange(2, text.len() as int)
    } else {
        text
    };
    if t.len() > 0 && all_hex_digit_chars(t) && hex_chars_value(t) <= usize::MAX {
        Some(hex_chars_value(t) as usize)
    } else {
        None
    }
}

/// Parses a jump address: an optional `0x` prefix, then hex digits of either
/// case. Fails on an empty or malformed string and on a value beyond
/// `usize`.
pub fn parse_hex_address(text: &Vec<char>) -> (r: Option<usize>)
    ensures
        r == spec_parse_hex_address(text@),
{
    let mut start: usize = 0;
    if text.len() >= 2 && text[0] == '0' && text[1] == 'x' {
        start = 2;
    }
    let ghost t = if start == 2 {
        text@.subrange(2, text@.len() as int)
    } else {
        text@
    };
    if text.len() == start {
        return None;
    }
    let mut acc: usize = 0;
    let mut i = start;
    while i < text.len()
        invariant
            start <= i <= text@.len(),
            t == (if start == 2 {
                text@.subrange(2, text@.len() as int)
            } else {
                text@
            }),
            start == 0 || start == 2,
            (start == 2) == (text@.len() >= 2 && text@[0] == '0' && text@[1] == 'x'),
            t.len() == text@.len() - start,
            forall|k: int| 0 <= k < t.len() ==> t[k] == text@[k + start],
            forall|k: int| 0 <= k < i - start ==> is_hex_digit_char(#[trigger] t[k]),
            acc == hex_chars_value(t.subrange(0, i - start)),
        decreases text@.len() - i,
    {
        let c = text[i];
        let v: usize = if '0' <= c && c <= '9' {
            (c as u32 - 48) as usize
        } else if 'a' <= c && c <= 'f' {
            (c as u32 - 87) as usize
        } else if 'A' <= c && c <= 'F' {
            (c as u32 - 55) as usize
        } else {
            proof {
                let st = if text@.len() >= 2 && text@[0] == '0' && text@[1] == 'x' {
                    text@.subrange(2, text@.len() as int)
                } else {
                    text@
                };
                assert(st == t);
                assert(0 <= i - start < st.len());
                assert(st[i - start] == text@[i as int]);
                assert(!is_hex_digit_char(st[i - start]));
                assert(!all_hex_digit_chars(st));
                assert(spec_parse_hex_address(text@) is None);
            }
            return None;
        };
        proof {
            let u = t.subrange(0, i + 1 - start);
            assert(u.drop_last() =~= t.subrange(0, i - start));
            assert(u.last() == t[i - start]);
            assert(t[i - start] == text@[i as int]);
            assert(hex_chars_value(u) == 16 * acc + hex_char_value(t[i - start]));
        }
        if acc > (usize::MAX - v) / 16 {
            proof {
                let u = t.subrange(0, i + 1 - start);
                assert(hex_chars_value(u) == 16 * acc + v);
                assert(hex_chars_value(u) > usize::MAX);
                lemma_hex_chars_value_prefix(t, i + 1 - start);
                assert(hex_chars_value(t) > usize::MAX);
            }
            return None;
        }
        acc = 16 * acc + v;
        i = i + 1;
    }
    proof {
        assert(t.subrange(0, i - start) =~= t);
    }
    Some(acc)
}

/// Whether a quit-confirmation answer counts as yes: `y` or `yes`, any case.
pub open spec fn spec_is_yes(t: Seq<char>) -> bool {
    ||| (t.len() == 1 && (t[0] == 'y' || t[0] == 'Y'))
    ||| (t.len() == 3 && (t[0] == 'y' || t[0] == 'Y') && (t[1] == 'e' || t[1] == 'E') && (t[2]
        == 's' || t[2] == 'S'))
}

fn is_yes(text: &Vec<char>) -> (r: bool)
    ensures
        r == spec_is_yes(text@),
{
    if text.len() == 1 {
        let c = text[0];
        c == 'y' || c == 'Y'
    } else if text.len() == 3 {
        let a = text[0];
        let b = text[1];
        let c = text[2];
        (a == 'y' || a == 'Y') && (b == 'e' || b == 'E') && (c == 's' || c == 'S')
    } else {
        false
    }
}

/// Relies on String's FromIterator impl for char: collecting characters
/// yields the string of exactly those characters.
#[verifier::external_body]
fn chars_to_string(text: &Vec<char>) -> (s: String)
    ensures
        s@ == text@,
{
    text.iter().collect()
}

// ---------------------------------------------------------------------------
// The session and its model
// ---------------------------------------------------------------------------

/// Mathematical model of a [`Session`].
#[verifier::ext_equal]
pub ghost struct SessionModel {
    pub editor: EditorModel,
    pub mode: EditorMode,
    /// The pending prompt, if the session is awaiting an input line.
    pub pending: Option<InputPurpose>,
    /// The prompt's partial input text.
    pub entry: Seq<char>,
    pub search: Option<SearchModel>,
    pub running: bool,
    pub width: int,
    pub height: int,
}

impl SessionModel {
    /// Well-formedness: a valid editor whose cursor addresses a real nibble,
    /// terminal dimensions that fit the terminal protocol's 16-bit sizes,
    /// and search results that point into the buffer.
    pub open spec fn wf(self) -> bool {
        &&& self.editor.inv()
        &&& self.editor.cursor < 2 * self.editor.bytes.len()
        &&& 0 <= self.width <= 0xffff
        &&& 0 <= self.height <= 0xffff
        &&& match self.search {
            Some(sm) => sm.wf() && (forall|k: int|
                0 <= k < sm.results.len() ==> #[trigger] sm.results[k]
                    <= self.editor.bytes.len()),
            None => true,
        }
    }
}

/// The interactive editing session: the editor state plus the edit mode, the
/// pending prompt, the active search results, and the terminal dimensions.
pub struct Session {
    pub editor: FileEditor,
    pub editor_mode: EditorMode,
    pub pending: Option<InputPurpose>,
    pub input_buffer: Vec<char>,
    pub search_results: Option<SearchResults>,
    pub running: bool,
    pub width: usize,
    pub height: usize,
}

impl View for Session {
    type V = SessionModel;

    open spec fn view(&self) -> SessionModel {
        SessionModel {
            editor: self.editor@,
            mode: self.editor_mode,
            pending: self.pending,
            entry: self.input_buffer@,
            search: match self.search_results {
                Some(ref sr) => Some(sr@),
                None => None,
            },
            running: self.running,
            width: self.width as int,
            height: self.height as int,
        }
    }
}

/// The visible data row count: the terminal height minus the four chrome
/// rows, or none when the terminal is shorter than the chrome.
pub open spec fn spec_page_rows(height: int) -> int {
    if height >= 4 {
        height - 4
    } else {
        0
    }
}

/// What the redraw that follows every state change does to the editor state:
/// with at least one data row visible it runs the full viewport clamp;
/// otherwise nothing is drawn and only the cursor is pulled back into the
/// buffer, so every later write has a valid target.
pub open spec fn spec_after_draw(ed: EditorModel, height: int) -> EditorModel {
    if height >= 5 {
        spec_clamp_viewport(ed, height - 4)
    } else {
        spec_clamp_cursor(ed)
    }
}

// ---------------------------------------------------------------------------
// The step function
// ---------------------------------------------------------------------------

/// A navigation key: move, then redraw.
pub open spec fn spec_nav(s: SessionModel, movement: CursorMovementType) -> (SessionModel, Action) {
    let moved = spec_move_cursor(s.editor, s.mode, spec_page_rows(s.height), movement);
    (SessionModel { editor: spec_after_draw(moved, s.height), ..s }, Action::Redraw)
}

/// A mode switch: on an actual change the cursor is forced to whole-byte
/// granularity (its even nibble) and the screen redrawn.
pub open spec fn spec_set_mode(s: SessionModel, m: EditorMode) -> (SessionModel, Action) {
    if s.mode == m {
        (s, Action::Nothing)
    } else {
        let ed = EditorModel { cursor: s.editor.cursor - s.editor.cursor % 2, ..s.editor };
        (
            SessionModel { mode: m, editor: spec_after_draw(ed, s.height), ..s },
            Action::Redraw,
        )
    }
}

/// A printable character in hex-edit mode: hex digits write a nibble and
/// advance; the others are the command keys.
pub open spec fn spec_step_hex_char(s: SessionModel, c: char) -> (SessionModel, Action) {
    if spec_hex_char_to_u8(c) is Some {
        let wrote = crate::editor::spec_write_nibble(s.editor, spec_hex_char_to_u8(c).unwrap());
        let moved = spec_move_cursor(wrote, s.mode, spec_page_rows(s.height),
            CursorMovementType::Right);
        (SessionModel { editor: spec_after_draw(moved, s.height), ..s }, Action::Redraw)
    } else if c == 'u' || c == 'z' {
        if s.editor.undo.len() > 0 {
            (
                SessionModel {
                    editor: spec_after_draw(crate::editor::spec_undo(s.editor), s.height),
                    ..s
                },
                Action::Redraw,
            )
        } else {
            (s, Action::Nothing)
        }
    } else if c == 'r' {
        if s.editor.redo.len() > 0 {
            (
                SessionModel {
                    editor: spec_after_draw(crate::editor::spec_redo(s.editor), s.height),
                    ..s
                },
                Action::Redraw,
            )
        } else {
            (s, Action::Nothing)
        }
    } else if c == 'w' {
        (SessionModel { editor: spec_after_draw(s.editor, s.height), ..s }, Action::Save)
    } else if c == 'j' {
        (
            SessionModel {
                pending: Some(InputPurpose::Jump),
                entry: Seq::empty(),
                editor: spec_after_draw(s.editor, s.height),
                ..s
            },
            Action::Redraw,
        )
    } else if c == '/' {
        (
            SessionModel {
                search: None,
                pending: Some(InputPurpose::Search),
                entry: Seq::empty(),
                editor: spec_after_draw(s.editor, s.height),
                ..s
            },
            Action::Redraw,
        )
    } else if c == 'n' {
        match s.search {
            Some(sm) => {
                let sel = if sm.sel + 1 < sm.results.len() {
                    sm.sel + 1
                } else {
                    sm.results.len() - 1
                };
                let ed = EditorModel { cursor: 2 * sm.results[sel], ..s.editor };
                (
                    SessionModel {
                        search: Some(SearchModel { sel, ..sm }),
                        editor: spec_after_draw(ed, s.height),
                        ..s
                    },
                    Action::Redraw,
                )
            },
            None => (s, Action::Nothing),
        }
    } else if c == 'm' {
        match s.search {
            Some(sm) => {
                let sel = if sm.sel > 0 {
                    sm.sel - 1
                } else {
                    0
                };
                let ed = EditorModel { cursor: 2 * sm.results[sel], ..s.editor };
                (
                    SessionModel {
                        search: Some(SearchModel { sel, ..sm }),
                        editor: spec_after_draw(ed, s.height),
                        ..s
                    },
                    Action::Redraw,
                )
            },
            None => (s, Action::Nothing),
        }
    } else if c == 'q' {
        if s.editor.saved {
            (SessionModel { running: false, ..s }, Action::Nothing)
        } else {
            (
                SessionModel {
                    pending: Some(InputPurpose::QuitConfirm),
                    entry: Seq::empty(),
                    editor: spec_after_draw(s.editor, s.height),
                    ..s
                },
                Action::Redraw,
            )
        }
    } else {
        (s, Action::Nothing)
    }
}

/// A character in text-edit mode: printable ASCII overwrites the byte at the
/// cursor and advances one byte.
pub open spec fn spec_step_text_char(s: SessionModel, c: char) -> (SessionModel, Action) {
    if ' ' <= c <= '~' {
        let wrote = crate::editor::spec_write_byte(s.editor, c as u8);
        let moved = spec_move_cursor(wrote, s.mode, spec_page_rows(s.height),
            CursorMovementType::Right);
        (SessionModel { editor: spec_after_draw(moved, s.height), ..s }, Action::Redraw)
    } else {
        (s, Action::Nothing)
    }
}

/// A key while no prompt is pending.
pub open spec fn spec_step_edit(s: SessionModel, key: KeyInput) -> (SessionModel, Action) {
    match key {
        KeyInput::Char(c) => match s.mode {
            EditorMode::HexMode => spec_step_hex_char(s, c),
            EditorMode::TextMode => spec_step_text_char(s, c),
        },
        KeyInput::Right => spec_nav(s, CursorMovementType::Right),
        KeyInput::Left => spec_nav(s, CursorMovementType::Left),
        KeyInput::Backspace => spec_nav(s, CursorMovementType::Left),
        KeyInput::Up => spec_nav(s, CursorMovementType::Up),
        KeyInput::Down => spec_nav(s, CursorMovementType::Down),
        KeyInput::PageUp => spec_nav(s, CursorMovementType::PageUp),
        KeyInput::PageDown => spec_nav(s, CursorMovementType::PageDown),
        KeyInput::Tab => spec_set_mode(
            s,
            match s.mode {
                EditorMode::HexMode => EditorMode::TextMode,
                EditorMode::TextMode => EditorMode::HexMode,
            },
        ),
        KeyInput::Esc => spec_set_mode(s, EditorMode::HexMode),
        KeyInput::Enter => (s, Action::Nothing),
    }
}

/// Submitting the pending prompt's text.
pub open spec fn spec_submit(s: SessionModel, purpose: InputPurpose) -> (SessionModel, Action) {
    let base = SessionModel { pending: None, entry: Seq::empty(), ..s };
    match purpose {
        InputPurpose::Jump => {
            let ed = match spec_parse_hex_address(s.entry) {
                Some(a) => EditorModel {
                    cursor: if 2 * a <= usize::MAX {
                        2 * (a as int)
                    } else {
                        usize::MAX as int
                    },
                    ..s.editor
                },
                None => s.editor,
            };
            (SessionModel { editor: spec_after_draw(ed, s.height), ..base }, Action::Redraw)
        },
        InputPurpose::Search => {
            match spec_search(s.editor.bytes, vstd::utf8::encode_utf8(s.entry)) {
                Some(sm) => {
                    let ed = EditorModel { cursor: 2 * sm.results[0], ..s.editor };
                    (
                        SessionModel {
                            search: Some(sm),
                            editor: spec_after_draw(ed, s.height),
                            ..base
                        },
                        Action::Redraw,
                    )
                },
                None => (
                    SessionModel {
                        search: None,
                        editor: spec_after_draw(s.editor, s.height),
                        ..base
                    },
                    Action::Redraw,
                ),
            }
        },
        InputPurpose::QuitConfirm => (
            SessionModel {
                running: !spec_is_yes(s.entry) && s.running,
                editor: spec_after_draw(s.editor, s.height),
                ..base
            },
            Action::Redraw,
        ),
    }
}

/// A key while a prompt is pending: characters extend the input line,
/// Backspace shortens it (or cancels when it is empty), Esc cancels, Enter
/// submits.
pub open spec fn spec_step_command(s: SessionModel, purpose: InputPurpose, key: KeyInput) -> (
    SessionModel,
    Action,
) {
    match key {
        KeyInput::Char(c) => (
            SessionModel {
                entry: s.entry.push(c),
                editor: spec_after_draw(s.editor, s.height),
                ..s
            },
            Action::Redraw,
        ),
        KeyInput::Esc => (
            SessionModel {
                pending: None,
                entry: Seq::empty(),
                editor: spec_after_draw(s.editor, s.height),
                ..s
            },
            Action::Redraw,
        ),
        KeyInput::Backspace => if s.entry.len() == 0 {
            (
                SessionModel { pending: None, editor: spec_after_draw(s.editor, s.height), ..s },
                Action::Redraw,
            )
        } else {
            (
                SessionModel {
                    entry: s.entry.drop_last(),
                    editor: spec_after_draw(s.editor, s.height),
                    ..s
                },
                Action::Redraw,
            )
        },
        KeyInput::Enter => spec_submit(s, purpose),
        _ => (s, Action::Nothing),
    }
}

/// The session's transition function: one input event maps the state to its
/// successor and the action the surrounding loop must take.
pub open spec fn spec_step(s: SessionModel, key: KeyInput) -> (SessionModel, Action) {
    match s.pending {
        None => spec_step_edit(s, key),
        Some(p) => spec_step_command(s, p, key),
    }
}

impl Session {
    /// Opens an interactive session over a freshly loaded editor at the
    /// given terminal size.
    pub fn new(editor: FileEditor, width: u16, height: u16) -> (r: Session)
        requires
            editor@.inv(),
            editor@.cursor < 2 * editor@.bytes.len(),
        ensures
            r@ == (SessionModel {
                editor: editor@,
                mode: EditorMode::HexMode,
                pending: None,
                entry: Seq::empty(),
                search: None,
                running: true,
                width: width as int,
                height: height as int,
            }),
            r@.wf(),
    {
        Session {
            editor,
            editor_mode: EditorMode::HexMode,
            pending: None,
            input_buffer: Vec::new(),
            search_results: None,
            running: true,
            width: width as usize,
            height: height as usize,
        }
    }

    /// Records a terminal resize and redraws (clamping the viewport to the
    /// new size).
    pub fn resize(&mut self, width: u16, height: u16)
        requires
            old(self)@.wf(),
        ensures
            final(self)@ == (SessionModel {
                width: width as int,
                height: height as int,
                editor: spec_after_draw(old(self)@.editor, height as int),
                ..old(self)@
            }),
            final(self)@.wf(),
    {
        self.width = width as usize;
        self.height = height as usize;
        self.after_draw();
    }

    /// Clears the dirty flag after the surrounding loop saved the buffer.
    pub fn mark_saved(&mut self)
        requires
            old(self)@.wf(),
        ensures
            final(self)@ == (SessionModel {
                editor: (EditorModel { saved: true, ..old(self)@.editor }),
                ..old(self)@
            }),
            final(self)@.wf(),
    {
        self.editor.mark_saved();
    }

    /// Screen coordinates of the cursor: in a prompt the end of the input
    /// line, otherwise its place in the data grid, or nothing when the
    /// terminal is too short to show the grid or the cursor fell outside the
    /// visible window.
    pub fn cursor_coords(&self) -> (r: Option<(usize, usize)>)
        requires
            self@.wf(),
        ensures
            r matches Some(xy) ==> (match self@.pending {
                Some(p) => xy.0 == spec_prefix_len(p) + self@.entry.len() && xy.1 == self@.height
                    - 1,
                None => {
                    let n = self@.editor.cursor - 2 * self@.editor.offset;
                    &&& xy.0 == (match self@.mode {
                        EditorMode::HexMode => crate::view::spec_hex_cursor_x(n),
                        EditorMode::TextMode => crate::view::spec_text_cursor_x(n),
                    })
                    &&& xy.1 == crate::view::spec_cursor_y(n)
                },
            }),
            r is Some <==> (match self@.pending {
                Some(p) => spec_prefix_len(p) + self@.entry.len() <= usize::MAX && self@.height
                    >= 1,
                None => self@.height >= 5 && 2 * self@.editor.offset <= self@.editor.cursor < 2
                    * (self@.editor.offset + 16 * (self@.height - 4)),
            }),
    {
        match &self.pending {
            Some(p) => {
                let px = p.prefix_len();
                if px <= usize::MAX - self.input_buffer.len() && self.height >= 1 {
                    Some((px + self.input_buffer.len(), self.height - 1))
                } else {
                    None
                }
            },
            None => {
                if self.height >= 5 {
                    let rows = self.height - 4;
                    let in_window = self.editor.cursor_nibble / 2 >= self.editor.offset
                        && match self.editor.offset.checked_add(16 * rows) {
                        Some(end) => self.editor.cursor_nibble / 2 < end,
                        None => true,
                    };
                    if in_window {
                        Some(
                            crate::view::coords_for_cursor(&self.editor, &self.editor_mode, rows),
                        )
                    } else {
                        None
                    }
                } else {
                    None
                }
            },
        }
    }

    fn after_draw(&mut self)
        requires
            old(self)@.editor.inv(),
            old(self)@.height <= 0xffff,
        ensures
            final(self)@ == (SessionModel {
                editor: spec_after_draw(old(self)@.editor, old(self)@.height),
                ..old(self)@
            }),
            final(self)@.editor.inv(),
            final(self)@.editor.cursor < 2 * final(self)@.editor.bytes.len(),
    {
        if self.height >= 5 {
            crate::view::clamp_viewport(&mut self.editor, self.height - 4);
        } else {
            crate::view::clamp_cursor(&mut self.editor);
        }
    }

    fn nav(&mut self, movement: CursorMovementType)
        requires
            old(self)@.wf(),
        ensures
            (final(self)@, Action::Redraw) == spec_nav(old(self)@, movement),
            final(self)@.wf(),
    {
        let page_rows = if self.height >= 4 {
            self.height - 4
        } else {
            0
        };
        crate::view::move_cursor(&mut self.editor, &self.editor_mode, page_rows, movement);
        self.after_draw();
    }

    fn set_mode(&mut self, m: EditorMode) -> (r: Action)
        requires
            old(self)@.wf(),
        ensures
            (final(self)@, r) == spec_set_mode(old(self)@, m),
            final(self)@.wf(),
    {
        if !(self.editor_mode == m) {
            self.editor_mode = m;
            self.editor.cursor_nibble = self.editor.cursor_nibble - self.editor.cursor_nibble % 2;
            proof {
                crate::editor::lemma_inv_after_cursor_move(old(self)@.editor, self@.editor);
            }
            self.after_draw();
            Action::Redraw
        } else {
            Action::Nothing
        }
    }

    fn submit(&mut self, purpose: InputPurpose, text: Vec<char>) -> (r: Action)
        requires
            old(self)@.wf(),
            old(self)@.pending is None,
            old(self)@.entry == Seq::<char>::empty(),
        ensures
            (final(self)@, r) == spec_submit(
                SessionModel { pending: Some(purpose), entry: text@, ..old(self)@ },
                purpose,
            ),
            final(self)@.wf(),
    {
        let ghost s = SessionModel { pending: Some(purpose), entry: text@, ..old(self)@ };
        match purpose {
            InputPurpose::Jump => {
                match parse_hex_address(&text) {
                    Some(address) => {
                        self.editor.cursor_nibble = if address <= usize::MAX / 2 {
                            2 * address
                        } else {
                            usize::MAX
                        };
                    },
                    None => {},
                }
                proof {
                    crate::editor::lemma_inv_after_cursor_move(old(self)@.editor, self@.editor);
                }
                self.after_draw();
                Action::Redraw
            },
            InputPurpose::Search => {
                let query = chars_to_string(&text);
                let found = crate::search::search(self.editor.buffer.as_slice(), query.as_str());
                proof {
                    match spec_search(s.editor.bytes, vstd::utf8::encode_utf8(s.entry)) {
                        Some(sm) => {
                            crate::search::lemma_matches_from_characterization(
                                s.editor.bytes,
                                crate::search::compiled_pattern(
                                    vstd::utf8::encode_utf8(s.entry),
                                ).unwrap(),
                                0,
                            );
                        },
                        None => {},
                    }
                }
                match found {
                    Some(sr) => {
                        let position = sr.result();
                        assert(position <= self@.editor.bytes.len());
                        self.search_results = Some(sr);
                        self.editor.cursor_nibble = 2 * position;
                    },
                    None => {
                        self.search_results = None;
                    },
                }
                proof {
                    crate::editor::lemma_inv_after_cursor_move(old(self)@.editor, self@.editor);
                }
                self.after_draw();
                Action::Redraw
            },
            InputPurpose::QuitConfirm => {
                if is_yes(&text) {
                    self.running = false;
                }
                self.after_draw();
                Action::Redraw
            },
        }
    }

    /// Feeds one input event to the session and returns what the surrounding
    /// loop must do. The state change is exactly [`spec_step`].
    pub fn handle_key(&mut self, key: KeyInput) -> (r: Action)
        requires
            old(self)@.wf(),
        ensures
            final(self)@ == spec_step(old(self)@, key).0,
            r == spec_step(old(self)@, key).1,
            final(self)@.wf(),
    {
        let ghost s0 = self@;
        match &self.pending {
            None => self.handle_key_edit(key),
            Some(p) => {
                let purpose = *p;
                match key {
                    KeyInput::Char(c) => {
                        self.input_buffer.push(c);
                        self.after_draw();
                        Action::Redraw
                    },
                    KeyInput::Esc => {
                        self.pending = None;
                        self.input_buffer.clear();
                        self.after_draw();
                        Action::Redraw
                    },
                    KeyInput::Backspace => {
                        if self.input_buffer.is_empty() {
                            self.pending = None;
                        } else {
                            self.input_buffer.pop();
                        }
                        self.after_draw();
                        Action::Redraw
                    },
                    KeyInput::Enter => {
                        let mut text: Vec<char> = Vec::new();
                        core::mem::swap(&mut text, &mut self.input_buffer);
                        self.pending = None;
                        self.submit(purpose, text)
                    },
                    _ => Action::Nothing,
                }
            },
        }
    }

    fn handle_key_edit(&mut self, key: KeyInput) -> (r: Action)
        requires
            old(self)@.wf(),
            old(self)@.pending is None,
        ensures
            (final(self)@, r) == spec_step_edit(old(self)@, key),
            final(self)@.wf(),
    {
        match key {
            KeyInput::Char(c) => self.handle_char_edit(c),
            KeyInput::Right => {
                self.nav(CursorMovementType::Right);
                Action::Redraw
            },
            KeyInput::Left | KeyInput::Backspace => {
                self.nav(CursorMovementType::Left);
                Action::Redraw
            },
            KeyInput::Up => {
                self.nav(CursorMovementType::Up);
                Action::Redraw
            },
            KeyInput::Down => {
                self.nav(CursorMovementType::Down);
                Action::Redraw
            },
            KeyInput::PageUp => {
                self.nav(CursorMovementType::PageUp);
                Action::Redraw
            },
            KeyInput::PageDown => {
                self.nav(CursorMovementType::PageDown);
                Action::Redraw
            },
            KeyInput::Tab => {
                let m = self.editor_mode.next();
                self.set_mode(m)
            },
            KeyInput::Esc => self.set_mode(EditorMode::HexMode),
            KeyInput::Enter => Action::Nothing,
        }
    }

    fn handle_char_edit(&mut self, c: char) -> (r: Action)
        requires
            old(self)@.wf(),
            old(self)@.pending is None,
        ensures
            (final(self)@, r) == (match old(self)@.mode {
                EditorMode::HexMode => spec_step_hex_char(old(self)@, c),
                EditorMode::TextMode => spec_step_text_char(old(self)@, c),
            }),
            final(self)@.wf(),
    {
        match self.editor_mode {
            EditorMode::HexMode => {
                match hex_char_to_u8(c) {
                    Some(nibble) => {
                        self.editor.write_nibble(nibble);
                        self.nav(CursorMovementType::Right);
                        return Action::Redraw;
                    },
                    None => {},
                }
                if c == 'u' || c == 'z' {
                    let undid = self.editor.undo();
                    if undid {
                        self.after_draw();
                        Action::Redraw
                    } else {
                        Action::Nothing
                    }
                } else if c == 'r' {
                    let redid = self.editor.redo();
                    if redid {
                        self.after_draw();
                        Action::Redraw
                    } else {
                        Action::Nothing
                    }
                } else if c == 'w' {
                    self.after_draw();
                    Action::Save
                } else if c == 'j' {
                    self.pending = Some(InputPurpose::Jump);
                    self.input_buffer.clear();
                    self.after_draw();
                    Action::Redraw
                } else if c == '/' {
                    self.search_results = None;
                    self.pending = Some(InputPurpose::Search);
                    self.input_buffer.clear();
                    self.after_draw();
                    Action::Redraw
                } else if c == 'n' {
                    let position = match &mut self.search_results {
                        Some(sr) => Some(sr.next()),
                        None => None,
                    };
                    match position {
                        Some(position) => {
                            self.editor.cursor_nibble = 2 * position;
                            proof {
                                crate::editor::lemma_inv_after_cursor_move(
                                    old(self)@.editor,
                                    self@.editor,
                                );
                            }
                            self.after_draw();
                            Action::Redraw
                        },
                        None => Action::Nothing,
                    }
                } else if c == 'm' {
                    let position = match &mut self.search_results {
                        Some(sr) => Some(sr.prev()),
                        None => None,
                    };
                    match position {
                        Some(position) => {
                            self.editor.cursor_nibble = 2 * position;
                            proof {
                                crate::editor::lemma_inv_after_cursor_move(
                                    old(self)@.editor,
                                    self@.editor,
                                );
                            }
                            self.after_draw();
                            Action::Redraw
                        },
                        None => Action::Nothing,
                    }
                } else if c == 'q' {
                    if self.editor.saved {
                        self.running = false;
                        Action::Nothing
                    } else {
                        self.pending = Some(InputPurpose::QuitConfirm);
                        self.input_buffer.clear();
                        self.after_draw();
                        Action::Redraw
                    }
                } else {
                    Action::Nothing
                }
            },
            EditorMode::TextMode => {
                if ' ' <= c && c <= '~' {
                    self.editor.write_byte(c as u8);
                    self.nav(CursorMovementType::Right);
                    Action::Redraw
                } else {
                    Action::Nothing
                }
            },
        }
    }
}

} // verus!
