//! Core of a terminal hex/text editor: an overwrite-only byte buffer with
//! undo/redo history, a nibble-granularity cursor with a scrollable viewport,
//! a byte-pattern search engine that reports overlapping matches, and the
//! plain hex-dump row formatter. Rendering, raw-mode terminal handling and
//! file I/O live outside this crate; it exposes data and queries.

use vstd::prelude::*;

pub mod dump;
pub mod editor;
pub mod search;
pub mod session;
pub mod view;

verus! {

/// Number of bytes shown in one display row.
pub const BYTES_PER_ROW: usize = 16;

} // verus!
