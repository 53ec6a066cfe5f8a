//! The in-memory byte buffer with its undo/redo edit history.
//!
//! The buffer is overwrite-only: its length never changes after loading.
//! Every successful write records an [`Edit`] on the undo stack and clears
//! the redo stack; undo and redo move records between the two stacks while
//! restoring the byte they describe.

use vstd::prelude::*;

verus! {

/// One recorded byte overwrite: the position written, the byte that stood
/// there before, and the byte written.
pub struct Edit {
    pub position: usize,
    pub prev_byte: u8,
    pub new_byte: u8,
}

/// Mathematical model of a [`FileEditor`]: the buffer contents, the cursor
/// and scroll state, the dirty flag, and the two edit stacks.
#[verifier::ext_equal]
pub ghost struct EditorModel {
    pub bytes: Seq<u8>,
    pub filename: Seq<char>,
    /// Byte address of the first visible row; kept a multiple of 16.
    pub offset: int,
    /// Nibble-granularity cursor: `2 * byte_position + nibble_index`.
    pub cursor: int,
    pub saved: bool,
    pub undo: Seq<Edit>,
    pub redo: Seq<Edit>,
}

impl EditorModel {
    /// Well-formedness: the buffer is non-empty and small enough that every
    /// nibble address `2 * position + 1` fits in `usize`, the scroll offset
    /// is row-aligned, and every recorded edit points into the buffer.
    pub open spec fn inv(self) -> bool {
        &&& 1 <= self.bytes.len() <= usize::MAX as int / 2
        &&& 0 <= self.offset
        &&& self.offset % 16 == 0
        &&& 0 <= self.cursor
        &&& forall|i: int|
            0 <= i < self.undo.len() ==> (#[trigger] self.undo[i]).position < self.bytes.len()
        &&& forall|i: int|
            0 <= i < self.redo.len() ==> (#[trigger] self.redo[i]).position < self.bytes.len()
    }
}

/// A byte replacing the high 4 bits of `b` with `n`.
pub open spec fn with_high_nibble(b: u8, n: u8) -> u8
    recommends
        n < 16,
{
    (16 * (n as int) + (b as int) % 16) as u8
}

/// A byte replacing the low 4 bits of `b` with `n`.
pub open spec fn with_low_nibble(b: u8, n: u8) -> u8
    recommends
        n < 16,
{
    ((b as int) - (b as int) % 16 + (n as int)) as u8
}

/// The state after a successful overwrite of `new_byte` at byte position
/// `pos`: the byte is replaced, the edit is pushed on the undo stack, the
/// redo stack is discarded, and the session becomes dirty.
pub open spec fn spec_apply_write(m: EditorModel, pos: int, new_byte: u8) -> EditorModel
    recommends
        0 <= pos < m.bytes.len(),
{
    EditorModel {
        bytes: m.bytes.update(pos, new_byte),
        undo: m.undo.push(
            Edit { position: pos as usize, prev_byte: m.bytes[pos], new_byte: new_byte },
        ),
        redo: Seq::empty(),
        saved: false,
        ..m
    }
}

/// The state after writing nibble `n` at the cursor: the high half of the
/// byte at `cursor / 2` when the cursor is even, the low half when odd.
pub open spec fn spec_write_nibble(m: EditorModel, n: u8) -> EditorModel
    recommends
        n < 16,
        m.cursor / 2 < m.bytes.len(),
{
    let pos = m.cursor / 2;
    let b = m.bytes[pos];
    let nb = if m.cursor % 2 == 0 {
        with_high_nibble(b, n)
    } else {
        with_low_nibble(b, n)
    };
    spec_apply_write(m, pos, nb)
}

/// The state after overwriting the whole byte at the cursor's byte position.
pub open spec fn spec_write_byte(m: EditorModel, b: u8) -> EditorModel
    recommends
        m.cursor / 2 < m.bytes.len(),
{
    spec_apply_write(m, m.cursor / 2, b)
}

/// The state after `undo`: when the undo stack is non-empty, its top edit's
/// previous byte is restored, the cursor lands on that byte's first nibble,
/// and the edit moves to the redo stack; otherwise nothing changes.
pub open spec fn spec_undo(m: EditorModel) -> EditorModel {
    if m.undo.len() == 0 {
        m
    } else {
        let e = m.undo.last();
        EditorModel {
            bytes: m.bytes.update(e.position as int, e.prev_byte),
            cursor: 2 * e.position,
            undo: m.undo.drop_last(),
            redo: m.redo.push(e),
            saved: false,
            ..m
        }
    }
}

/// The state after `redo`: the mirror image of [`spec_undo`], restoring the
/// top redo edit's new byte and moving the edit back to the undo stack.
pub open spec fn spec_redo(m: EditorModel) -> EditorModel {
    if m.redo.len() == 0 {
        m
    } else {
        let e = m.redo.last();
        EditorModel {
            bytes: m.bytes.update(e.position as int, e.new_byte),
            cursor: 2 * e.position,
            undo: m.undo.push(e),
            redo: m.redo.drop_last(),
            saved: false,
            ..m
        }
    }
}

/// The editing session's core state: the loaded bytes, the name they came
/// from, the nibble cursor, the viewport offset, the dirty flag, and the
/// undo/redo stacks.
pub struct FileEditor {
    pub buffer: Vec<u8>,
    pub filename: String,
    pub offset: usize,
    pub cursor_nibble: usize,
    pub saved: bool,
    pub undo_stack: Vec<Edit>,
    pub redo_stack: Vec<Edit>,
}

impl View for FileEditor {
    type V = EditorModel;

    open spec fn view(&self) -> EditorModel {
        EditorModel {
            bytes: self.buffer@,
            filename: self.filename@,
            offset: self.offset as int,
            cursor: self.cursor_nibble as int,
            saved: self.saved,
            undo: self.undo_stack@,
            redo: self.redo_stack@,
        }
    }
}

impl FileEditor {
    /// Opens an editing session over bytes already read from `filename`.
    /// Zero-length files are rejected by the caller: an empty buffer has no
    /// valid cursor address. The length bound keeps every nibble address
    /// representable in `usize`.
    pub fn new(buffer: Vec<u8>, filename: String) -> (r: FileEditor)
        requires
            1 <= buffer@.len() <= usize::MAX as int / 2,
        ensures
            r@ == (EditorModel {
                bytes: buffer@,
                filename: filename@,
                offset: 0,
                cursor: 0,
                saved: true,
                undo: Seq::<Edit>::empty(),
                redo: Seq::<Edit>::empty(),
            }),
            r@.inv(),
    {
        FileEditor {
            buffer,
            filename,
            offset: 0,
            cursor_nibble: 0,
            saved: true,
            undo_stack: Vec::new(),
            redo_stack: Vec::new(),
        }
    }

    /// Length of the loaded buffer in bytes.
    pub fn file_size(&self) -> (r: usize)
        ensures
            r == self@.bytes.len(),
    {
        self.buffer.len()
    }

    /// Byte address of the first visible row.
    pub fn offset(&self) -> (r: usize)
        ensures
            r == self@.offset,
    {
        self.offset
    }

    /// The nibble-granularity cursor position.
    pub fn cursor_nibble(&self) -> (r: usize)
        ensures
            r == self@.cursor,
    {
        self.cursor_nibble
    }

    /// Whether the buffer is free of unsaved changes.
    pub fn saved(&self) -> (r: bool)
        ensures
            r == self@.saved,
    {
        self.saved
    }

    /// The name of the file the buffer was loaded from.
    pub fn filename(&self) -> (r: &String)
        ensures
            r@ == self@.filename,
    {
        &self.filename
    }

    /// Up to `size` bytes starting at the viewport offset, clipped to the
    /// end of the buffer; near the end the returned window is shorter than
    /// requested.
    pub fn read_bytes(&self, size: usize) -> (r: &[u8])
        ensures
            r@ == self@.bytes.subrange(
                vstd::math::min(self@.offset, self@.bytes.len() as int),
                vstd::math::min(self@.offset + size, self@.bytes.len() as int),
            ),
    {
        let len = self.buffer.len();
        let start = if self.offset < len {
            self.offset
        } else {
            len
        };
        let end = if size < len - start {
            start + size
        } else {
            len
        };
        vstd::slice::slice_subrange(self.buffer.as_slice(), start, end)
    }

    /// Writes the 4-bit value `nibble` into the byte at the cursor: into the
    /// high half when the cursor addresses an even nibble, the low half when
    /// odd. Records the whole byte's before/after value so undo restores it
    /// atomically.
    pub fn write_nibble(&mut self, nibble: u8)
        requires
            old(self)@.inv(),
            nibble < 16,
            old(self)@.cursor / 2 < old(self)@.bytes.len(),
        ensures
            final(self)@ == spec_write_nibble(old(self)@, nibble),
            final(self)@.inv(),
    {
        let position = self.cursor_nibble / 2;
        let byte = self.buffer[position];

        let new_byte = if self.cursor_nibble % 2 == 0 {
            (byte & 0x0f) | (nibble << 4)
        } else {
            (byte & 0xf0) | (nibble & 0x0f)
        };

        proof {
            assert((byte & 0x0f) | (nibble << 4) == (16 * (nibble as int) + (byte as int)
                % 16) as u8) by (bit_vector)
                requires
                    nibble < 16,
            ;
            assert((byte & 0xf0) | (nibble & 0x0f) == ((byte as int) - (byte as int) % 16
                + (nibble as int)) as u8) by (bit_vector)
                requires
                    nibble < 16,
            ;
        }

        self.push_undo(Edit { position, prev_byte: byte, new_byte });

        self.buffer[position] = new_byte;
        self.saved = false;
    }

    /// Overwrites the whole byte at the cursor's byte position (text-input
    /// mode writes whole bytes).
    pub fn write_byte(&mut self, byte: u8)
        requires
            old(self)@.inv(),
            old(self)@.cursor / 2 < old(self)@.bytes.len(),
        ensures
            final(self)@ == spec_write_byte(old(self)@, byte),
            final(self)@.inv(),
    {
        let position = self.cursor_nibble / 2;

        self.push_undo(Edit { position, prev_byte: self.buffer[position], new_byte: byte });

        self.buffer[position] = byte;
        self.saved = false;
    }

    /// Pushes a fresh edit on the undo stack and discards the redo stack:
    /// redo is only valid along the most recent undo chain.
    pub fn push_undo(&mut self, edit: Edit)
        requires
            old(self)@.inv(),
            edit.position < old(self)@.bytes.len(),
        ensures
            final(self)@ == (EditorModel {
                undo: old(self)@.undo.push(edit),
                redo: Seq::<Edit>::empty(),
                ..old(self)@
            }),
            final(self)@.inv(),
    {
        self.undo_stack.push(edit);
        self.redo_stack.clear();
    }

    /// Undoes the most recent edit, if any; returns whether one occurred so
    /// the caller can skip a redundant redraw.
    pub fn undo(&mut self) -> (r: bool)
        requires
            old(self)@.inv(),
        ensures
            final(self)@ == spec_undo(old(self)@),
            r == (old(self)@.undo.len() > 0),
            final(self)@.inv(),
    {
        if let Some(edit) = self.undo_stack.pop() {
            self.buffer[edit.position] = edit.prev_byte;
            self.cursor_nibble = 2 * edit.position;
            self.redo_stack.push(edit);
            self.saved = false;

            true
        } else {
            false
        }
    }

    /// Redoes the most recently undone edit, if any; returns whether one
    /// occurred.
    pub fn redo(&mut self) -> (r: bool)
        requires
            old(self)@.inv(),
        ensures
            final(self)@ == spec_redo(old(self)@),
            r == (old(self)@.redo.len() > 0),
            final(self)@.inv(),
    {
        if let Some(edit) = self.redo_stack.pop() {
            self.buffer[edit.position] = edit.new_byte;
            self.cursor_nibble = 2 * edit.position;
            self.undo_stack.push(edit);
            self.saved = false;

            true
        } else {
            false
        }
    }

    /// Clears the dirty flag after the caller has successfully written the
    /// buffer back to disk. A failed save must not call this, so the flag
    /// keeps reporting unsaved changes.
    pub fn mark_saved(&mut self)
        ensures
            final(self)@ == (EditorModel { saved: true, ..old(self)@ }),
    {
        self.saved = true;
    }
}

/// Well-formedness only constrains the cursor's sign, so moving the cursor
/// preserves it.
pub proof fn lemma_inv_after_cursor_move(m0: EditorModel, m1: EditorModel)
    requires
        m0.inv(),
        m1.bytes == m0.bytes,
        m1.offset == m0.offset,
        m1.undo == m0.undo,
        m1.redo == m0.redo,
        0 <= m1.cursor,
    ensures
        m1.inv(),
{
}

/// Undoing the single write that followed state `m` restores the buffer to
/// exactly its pre-write contents, and redoing afterwards restores the
/// post-write contents. Stated here for whole-byte writes.
pub proof fn lemma_write_byte_undo_redo(m: EditorModel, b: u8)
    requires
        m.inv(),
        m.cursor / 2 < m.bytes.len(),
    ensures
        spec_undo(spec_write_byte(m, b)).bytes == m.bytes,
        spec_redo(spec_undo(spec_write_byte(m, b))).bytes == spec_write_byte(m, b).bytes,
{
    lemma_apply_write_undo_redo(m, m.cursor / 2, b);
}

/// The same round trip for nibble writes: undo restores the whole byte the
/// nibble was written into, redo restores the written state.
pub proof fn lemma_write_nibble_undo_redo(m: EditorModel, n: u8)
    requires
        m.inv(),
        n < 16,
        m.cursor / 2 < m.bytes.len(),
    ensures
        spec_undo(spec_write_nibble(m, n)).bytes == m.bytes,
        spec_redo(spec_undo(spec_write_nibble(m, n))).bytes == spec_write_nibble(m, n).bytes,
{
    let pos = m.cursor / 2;
    let b = m.bytes[pos];
    let nb = if m.cursor % 2 == 0 {
        with_high_nibble(b, n)
    } else {
        with_low_nibble(b, n)
    };
    lemma_apply_write_undo_redo(m, pos, nb);
}

proof fn lemma_apply_write_undo_redo(m: EditorModel, pos: int, nb: u8)
    requires
        m.inv(),
        0 <= pos < m.bytes.len(),
    ensures
        spec_undo(spec_apply_write(m, pos, nb)).bytes == m.bytes,
        spec_redo(spec_undo(spec_apply_write(m, pos, nb))).bytes == spec_apply_write(
            m,
            pos,
            nb,
        ).bytes,
{
    let w = spec_apply_write(m, pos, nb);
    assert(w.undo.last() == (Edit {
        position: pos as usize,
        prev_byte: m.bytes[pos],
        new_byte: nb,
    }));
    assert(spec_undo(w).bytes =~= m.bytes);
    let u = spec_undo(w);
    assert(u.redo.last() == w.undo.last());
    assert(spec_redo(u).bytes =~= w.bytes);
}

/// Any new write discards every entry the redo stack held before it: after a
/// write, the discarded timeline can no longer be redone.
pub proof fn lemma_write_discards_redo(m: EditorModel, pos: int, nb: u8)
    ensures
        spec_apply_write(m, pos, nb).redo == Seq::<Edit>::empty(),
        spec_write_byte(m, nb).redo == Seq::<Edit>::empty(),
        spec_write_nibble(m, nb).redo == Seq::<Edit>::empty(),
{
}

} // verus!
