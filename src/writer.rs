use vstd::prelude::*;

use crate::buffer::{
    blank, cleared, index_of, initial_view, new_line_spec, write_byte_spec, write_bytes_spec,
    BUFFER_CELLS, BUFFER_HEIGHT, BUFFER_WIDTH, Char, NEWLINE, PLACEHOLDER, SPACE, WriterView,
};
use crate::color::ColorCode;
use vstd::string::StringSliceAdditionalSpecFns;

verus! {

/// The writer: a cursor column in the last row, the attribute used for new
/// cells, and the grid's cells in row-major order.
pub struct BufWriter {
    column_position: usize,
    color_code: ColorCode,
    buffer: Vec<Char>,
}

impl View for BufWriter {
    type V = WriterView;

    closed spec fn view(&self) -> WriterView {
        WriterView {
            column: self.column_position as nat,
            color_code: self.color_code,
            cells: self.buffer@,
        }
    }
}

impl Default for BufWriter {
    fn default() -> (r: BufWriter)
        ensures
            r@ == initial_view(),
            r@.wf(),
    {
        let color_code = ColorCode::default();
        let mut buffer: Vec<Char> = Vec::new();
        let mut i: usize = 0;
        while i < BUFFER_CELLS
            invariant
                i <= BUFFER_CELLS,
                buffer@.len() == i,
                forall|j: int| 0 <= j < i ==> buffer@[j] == blank(color_code),
            decreases BUFFER_CELLS - i,
        {
            buffer.push(Char { ascii_character: SPACE, color_code });
            i += 1;
        }
        let r = BufWriter { column_position: 0, color_code, buffer };
        assert(r@.cells =~= initial_view().cells);
        r
    }
}

impl BufWriter {
    /// Writes every byte of `s` in order; a byte that is neither printable
    /// ASCII nor a newline is written as the placeholder glyph.
    pub fn write_string(&mut self, s: &str)
        requires
            old(self)@.wf(),
        ensures
            final(self)@ == write_bytes_spec(old(self)@, s.spec_bytes()),
            final(self)@.wf(),
    {
        let bytes = s.as_bytes();
        let ghost start = self@;
        let mut i: usize = 0;
        while i < bytes.len()
            invariant
                i <= bytes@.len(),
                bytes@ == s.spec_bytes(),
                self@.wf(),
                self@ == write_bytes_spec(start, bytes@.take(i as int)),
            decreases bytes@.len() - i,
        {
            let byte = bytes[i];
            match byte {
                0x20..=0x7e | NEWLINE => self.write_byte(byte),
                _ => self.write_byte(PLACEHOLDER),
            }
            assert(bytes@.take(i + 1).drop_last() =~= bytes@.take(i as int));
            i += 1;
        }
        assert(bytes@.take(i as int) =~= bytes@);
    }

    /// Writes one byte as it is: a newline advances the line, any other
    /// byte goes into the last row at the cursor, after a line advance if
    /// the row is full.
    pub fn write_byte(&mut self, byte: u8)
        requires
            old(self)@.wf(),
        ensures
            final(self)@ == write_byte_spec(old(self)@, byte),
            final(self)@.wf(),
    {
        if byte == NEWLINE {
            self.new_line();
        } else {
            if self.column_position >= BUFFER_WIDTH {
                self.new_line();
            }
            let row = BUFFER_HEIGHT - 1;
            let col = self.column_position;
            let color_code = self.color_code;
            self.buffer.set(row * BUFFER_WIDTH + col, Char { ascii_character: byte, color_code });
            self.column_position += 1;
        }
    }

    /// Shifts every row up by one, dropping the top row, blanks the last
    /// row and moves the cursor to column 0.
    pub fn new_line(&mut self)
        requires
            old(self)@.wf(),
        ensures
            final(self)@ == new_line_spec(old(self)@),
            final(self)@.wf(),
    {
        let ghost start = self.buffer@;
        for row in 1..BUFFER_HEIGHT
            invariant
                self.buffer@.len() == BUFFER_CELLS,
                self.column_position <= BUFFER_WIDTH,
                self.column_position == old(self).column_position,
                self.color_code == old(self).color_code,
                start == old(self).buffer@,
                forall|i: int|
                    0 <= i < BUFFER_CELLS ==> self.buffer@[i] == if i < index_of(row - 1, 0) {
                        start[i + BUFFER_WIDTH]
                    } else {
                        start[i]
                    },
        {
            for col in 0..BUFFER_WIDTH
                invariant
                    1 <= row < BUFFER_HEIGHT,
                    self.buffer@.len() == BUFFER_CELLS,
                    self.column_position <= BUFFER_WIDTH,
                    self.column_position == old(self).column_position,
                    self.color_code == old(self).color_code,
                    start == old(self).buffer@,
                    forall|i: int|
                        0 <= i < BUFFER_CELLS ==> self.buffer@[i] == if i < index_of(
                            row - 1,
                            col as int,
                        ) {
                            start[i + BUFFER_WIDTH]
                        } else {
                            start[i]
                        },
            {
                let character = self.buffer[row * BUFFER_WIDTH + col];
                self.buffer.set((row - 1) * BUFFER_WIDTH + col, character);
            }
        }
        self.clear_row(BUFFER_HEIGHT - 1);
        self.column_position = 0;
        assert(self@.cells =~= new_line_spec(old(self)@).cells);
    }

    /// Blanks every cell of row `row` in the current attribute.
    pub fn clear_row(&mut self, row: usize)
        requires
            old(self)@.wf(),
            row < BUFFER_HEIGHT,
        ensures
            final(self)@ == (WriterView {
                column: old(self)@.column,
                color_code: old(self)@.color_code,
                cells: cleared(old(self)@.cells, row as int, old(self)@.color_code),
            }),
            final(self)@.wf(),
    {
        let blank_char = Char { ascii_character: SPACE, color_code: self.color_code };
        let ghost start = self.buffer@;
        for col in 0..BUFFER_WIDTH
            invariant
                row < BUFFER_HEIGHT,
                self.buffer@.len() == BUFFER_CELLS,
                self.column_position == old(self).column_position,
                self.color_code == old(self).color_code,
                blank_char == blank(self.color_code),
                start == old(self).buffer@,
                forall|i: int|
                    0 <= i < BUFFER_CELLS ==> self.buffer@[i] == if index_of(row as int, 0) <= i
                        < index_of(row as int, col as int) {
                        blank_char
                    } else {
                        start[i]
                    },
        {
            self.buffer.set(row * BUFFER_WIDTH + col, blank_char);
        }
        assert(self@.cells =~= cleared(start, row as int, self.color_code));
    }

    /// The cursor column.
    pub fn column_position(&self) -> (r: usize)
        ensures
            r == self@.column,
    {
        self.column_position
    }

    /// The attribute used for new cells.
    pub fn color_code(&self) -> (r: ColorCode)
        ensures
            r == self@.color_code,
    {
        self.color_code
    }

    /// The cell at (`row`, `col`).
    pub fn cell(&self, row: usize, col: usize) -> (r: Char)
        requires
            self@.wf(),
            row < BUFFER_HEIGHT,
            col < BUFFER_WIDTH,
        ensures
            r == self@.cell(row as int, col as int),
    {
        self.buffer[row * BUFFER_WIDTH + col]
    }
}

} // verus!
