use vstd::prelude::*;

use crate::color::{default_color_code, ColorCode};

verus! {

/// Number of rows of the grid.
pub const BUFFER_HEIGHT: usize = 25;

/// Number of columns of the grid.
pub const BUFFER_WIDTH: usize = 80;

/// Number of cells of the grid.
pub const BUFFER_CELLS: usize = BUFFER_HEIGHT * BUFFER_WIDTH;

/// The newline byte.
pub const NEWLINE: u8 = 0x0a;

/// The space byte, the character of a blank cell.
pub const SPACE: u8 = 0x20;

/// The glyph written in place of a byte that cannot be displayed.
pub const PLACEHOLDER: u8 = 0xfe;

/// One display cell: a character code and its attribute byte.
#[derive(Debug, Clone, Copy, PartialEq, Eq, Structural)]
pub struct Char {
    pub ascii_character: u8,
    pub color_code: ColorCode,
}

/// A blank cell: a space in the given attribute.
pub open spec fn blank(color_code: ColorCode) -> Char {
    Char { ascii_character: SPACE, color_code }
}

pub open spec fn is_printable(b: u8) -> bool {
    0x20 <= b <= 0x7e
}

/// What the writer puts on the grid for an input byte: printable bytes and
/// newlines are kept, anything else becomes the placeholder glyph.
pub open spec fn displayed(b: u8) -> u8 {
    if is_printable(b) || b == NEWLINE {
        b
    } else {
        PLACEHOLDER
    }
}

/// Position of cell (`row`, `col`) in the row-major cell sequence.
pub open spec fn index_of(row: int, col: int) -> int {
    row * BUFFER_WIDTH + col
}

/// The abstract state of a writer: cursor column, attribute, and the cells
/// of the grid in row-major order.
pub struct WriterView {
    pub column: nat,
    pub color_code: ColorCode,
    pub cells: Seq<Char>,
}

impl WriterView {
    pub open spec fn wf(self) -> bool {
        &&& self.cells.len() == BUFFER_CELLS
        &&& self.column <= BUFFER_WIDTH
    }

    pub open spec fn cell(self, row: int, col: int) -> Char {
        self.cells[index_of(row, col)]
    }

    pub open spec fn row(self, row: int) -> Seq<Char> {
        self.cells.subrange(index_of(row, 0), index_of(row + 1, 0))
    }
}

/// Every row moved up by one: row `r` takes the contents of row `r + 1`;
/// the last row is left as it was.
pub open spec fn shifted(cells: Seq<Char>) -> Seq<Char> {
    Seq::new(
        cells.len(),
        |i: int|
            if i < index_of(BUFFER_HEIGHT - 1, 0) {
                cells[i + BUFFER_WIDTH]
            } else {
                cells[i]
            },
    )
}

/// The cells with row `row` made blank in the given attribute.
pub open spec fn cleared(cells: Seq<Char>, row: int, color_code: ColorCode) -> Seq<Char> {
    Seq::new(
        cells.len(),
        |i: int|
            if index_of(row, 0) <= i < index_of(row + 1, 0) {
                blank(color_code)
            } else {
                cells[i]
            },
    )
}

/// A line advance: shift up, blank the last row, column back to 0.
pub open spec fn new_line_spec(v: WriterView) -> WriterView {
    WriterView {
        column: 0,
        color_code: v.color_code,
        cells: cleared(shifted(v.cells), BUFFER_HEIGHT - 1, v.color_code),
    }
}

/// Placing a non-newline byte: wrap first if the row is full, then write it
/// into the last row at the cursor and advance the cursor.
pub open spec fn put_spec(v: WriterView, b: u8) -> WriterView {
    let w = if v.column >= BUFFER_WIDTH {
        new_line_spec(v)
    } else {
        v
    };
    WriterView {
        column: w.column + 1,
        color_code: w.color_code,
        cells: w.cells.update(
            index_of(BUFFER_HEIGHT - 1, w.column as int),
            Char { ascii_character: b, color_code: w.color_code },
        ),
    }
}

/// The effect of one raw byte.
pub open spec fn write_byte_spec(v: WriterView, b: u8) -> WriterView {
    if b == NEWLINE {
        new_line_spec(v)
    } else {
        put_spec(v, b)
    }
}

/// The effect of a byte string, each byte first mapped by `displayed`.
pub open spec fn write_bytes_spec(v: WriterView, bs: Seq<u8>) -> WriterView
    decreases bs.len(),
{
    if bs.len() == 0 {
        v
    } else {
        write_byte_spec(write_bytes_spec(v, bs.drop_last()), displayed(bs.last()))
    }
}

/// The initial state: column 0, white on black, every cell blank.
pub open spec fn initial_view() -> WriterView {
    WriterView {
        column: 0,
        color_code: default_color_code(),
        cells: Seq::new(BUFFER_CELLS as nat, |i: int| blank(default_color_code())),
    }
}

} // verus!
