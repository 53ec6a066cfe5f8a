//! The non-interactive dump formatter's row content: an 8-hex-digit row
//! address, sixteen two-digit byte columns with a visual gap after the 8th,
//! then the ASCII rendering of the same bytes with non-printable bytes
//! replaced by a configurable glyph. Column alignment is a compatibility
//! contract for tooling that scrapes the output, so the exact character
//! sequence is pinned down here.

use vstd::prelude::*;

verus! {

/// The lowercase hex digit for a value in `[0, 16)`.
pub open spec fn hex_digit_char(v: int) -> char
    recommends
        0 <= v < 16,
{
    seq!['0', '1', '2', '3', '4', '5', '6', '7', '8', '9', 'a', 'b', 'c', 'd', 'e', 'f'][v]
}

/// The lowercase hex digit for `v < 16`.
pub fn hex_digit(v: u8) -> (c: char)
    requires
        v < 16,
    ensures
        c == hex_digit_char(v as int),
{
    match v {
        0 => '0',
        1 => '1',
        2 => '2',
        3 => '3',
        4 => '4',
        5 => '5',
        6 => '6',
        7 => '7',
        8 => '8',
        9 => '9',
        10 => 'a',
        11 => 'b',
        12 => 'c',
        13 => 'd',
        14 => 'e',
        _ => 'f',
    }
}

/// The two lowercase hex digits of a byte.
pub open spec fn hex_byte_chars(b: u8) -> Seq<char> {
    seq![hex_digit_char(b as int / 16), hex_digit_char(b as int % 16)]
}

/// The 8 hex digits of the row address (its low 32 bits).
pub open spec fn addr_chars(addr: int) -> Seq<char> {
    let a = addr % 0x100000000;
    seq![
        hex_digit_char((a / 0x10000000) % 16),
        hex_digit_char((a / 0x1000000) % 16),
        hex_digit_char((a / 0x100000) % 16),
        hex_digit_char((a / 0x10000) % 16),
        hex_digit_char((a / 0x1000) % 16),
        hex_digit_char((a / 0x100) % 16),
        hex_digit_char((a / 0x10) % 16),
        hex_digit_char(a % 16),
    ]
}

/// How a byte renders in the ASCII column: itself when printable ASCII,
/// otherwise the replacement glyph.
pub open spec fn display_char(b: u8, replacement: char) -> char {
    if 32 <= b <= 126 {
        b as char
    } else {
        replacement
    }
}

/// The hex columns of one row from `col` on: a one-space gap before the 9th
/// column, then per column either two digits and a space or, past the end of
/// the buffer, three blank placeholders.
pub open spec fn hex_cells(buf: Seq<u8>, base: int, col: int) -> Seq<char>
    decreases 16 - col,
{
    if col < 0 || col >= 16 {
        Seq::empty()
    } else {
        let gap: Seq<char> = if col == 8 {
            seq![' ']
        } else {
            Seq::empty()
        };
        let cell: Seq<char> = if base + col < buf.len() {
            hex_byte_chars(buf[base + col]) + seq![' ']
        } else {
            seq![' ', ' ', ' ']
        };
        gap + cell + hex_cells(buf, base, col + 1)
    }
}

/// The ASCII columns of one row from `col` on; nothing is printed past the
/// end of the buffer.
pub open spec fn ascii_cells(buf: Seq<u8>, base: int, col: int, replacement: char) -> Seq<char>
    decreases 16 - col,
{
    if col < 0 || col >= 16 {
        Seq::empty()
    } else if base + col < buf.len() {
        seq![display_char(buf[base + col], replacement)] + ascii_cells(buf, base, col + 1, replacement)
    } else {
        ascii_cells(buf, base, col + 1, replacement)
    }
}

/// One full dump row: a leading space, the 8-digit address of byte
/// `16 * row`, three spaces, the sixteen hex columns, two spaces, and the
/// ASCII columns.
pub open spec fn dump_row_chars(buf: Seq<u8>, row: int, replacement: char) -> Seq<char> {
    seq![' '] + addr_chars(16 * row) + seq![' ', ' ', ' '] + hex_cells(buf, 16 * row, 0) + seq![
        ' ',
        ' ',
    ] + ascii_cells(buf, 16 * row, 0, replacement)
}

/// Formats dump row `row` (bytes `16 * row ..`) of `buf`. Rows are numbered
/// from zero; the last row may be partial, and its missing byte columns are
/// blank placeholders.
pub fn dump_row(buf: &[u8], row: usize, replacement: char) -> (line: Vec<char>)
    requires
        16 * row < buf@.len(),
    ensures
        line@ == dump_row_chars(buf@, row as int, replacement),
{
    let buf_len = buf.len();
    assert(16 * row < buf_len);
    let base = 16 * row;
    let mut line: Vec<char> = Vec::new();
    line.push(' ');

    let a: u64 = (base as u64) % 0x100000000;
    line.push(hex_digit(((a / 0x10000000) % 16) as u8));
    line.push(hex_digit(((a / 0x1000000) % 16) as u8));
    line.push(hex_digit(((a / 0x100000) % 16) as u8));
    line.push(hex_digit(((a / 0x10000) % 16) as u8));
    line.push(hex_digit(((a / 0x1000) % 16) as u8));
    line.push(hex_digit(((a / 0x100) % 16) as u8));
    line.push(hex_digit(((a / 0x10) % 16) as u8));
    line.push(hex_digit((a % 16) as u8));
    line.push(' ');
    line.push(' ');
    line.push(' ');

    let ghost head = seq![' '] + addr_chars(16 * row as int) + seq![' ', ' ', ' '];
    proof {
        assert(line@ =~= head);
    }

    let mut col: usize = 0;
    while col < 16
        invariant
            base == 16 * row,
            16 * row < buf@.len(),
            0 <= col <= 16,
            line@ + hex_cells(buf@, base as int, col as int) == head + hex_cells(
                buf@,
                base as int,
                0,
            ),
        decreases 16 - col,
    {
        let ghost before = line@;
        if col == 8 {
            line.push(' ');
        }
        if col < buf.len() - base {
            let b = buf[base + col];
            line.push(hex_digit(b / 16));
            line.push(hex_digit(b % 16));
            line.push(' ');
        } else {
            line.push(' ');
            line.push(' ');
            line.push(' ');
        }
        proof {
            assert(line@ + hex_cells(buf@, base as int, col as int + 1) =~= before + hex_cells(
                buf@,
                base as int,
                col as int,
            ));
        }
        col = col + 1;
    }

    line.push(' ');
    line.push(' ');

    let ghost head2 = head + hex_cells(buf@, base as int, 0) + seq![' ', ' '];
    proof {
        assert(line@ =~= head2);
    }

    let mut col2: usize = 0;
    while col2 < 16
        invariant
            base == 16 * row,
            16 * row < buf@.len(),
            0 <= col2 <= 16,
            line@ + ascii_cells(buf@, base as int, col2 as int, replacement) == head2
                + ascii_cells(buf@, base as int, 0, replacement),
        decreases 16 - col2,
    {
        let ghost before = line@;
        if col2 < buf.len() - base {
            let b = buf[base + col2];
            if 32 <= b && b <= 126 {
                line.push(b as char);
            } else {
                line.push(replacement);
            }
        }
        proof {
            assert(line@ + ascii_cells(buf@, base as int, col2 as int + 1, replacement)
                =~= before + ascii_cells(buf@, base as int, col2 as int, replacement));
        }
        col2 = col2 + 1;
    }

    proof {
        assert(line@ =~= dump_row_chars(buf@, row as int, replacement));
    }
    line
}

} // verus!
