//! Properties of the writer, stated over its abstract model.
use vstd::prelude::*;

use crate::buffer::{
    blank, cleared, displayed, index_of, is_printable, write_byte_spec, write_bytes_spec,
    BUFFER_CELLS, BUFFER_HEIGHT, BUFFER_WIDTH, Char, NEWLINE, PLACEHOLDER, WriterView,
};
use crate::color::ColorCode;

verus! {

/// The cells after `s` has been placed into the last row from column `start`.
spec fn placed(cells: Seq<Char>, start: int, s: Seq<u8>, color_code: ColorCode) -> Seq<Char> {
    Seq::new(
        cells.len(),
        |i: int|
            if index_of(BUFFER_HEIGHT - 1, start) <= i < index_of(BUFFER_HEIGHT - 1, start)
                + s.len() {
                Char {
                    ascii_character: displayed(s[i - index_of(BUFFER_HEIGHT - 1, start)]),
                    color_code,
                }
            } else {
                cells[i]
            },
    )
}

/// Text without newlines that fits in the rest of the row is placed from the
/// cursor on, with nothing else touched.
proof fn lemma_place_in_row(v: WriterView, s: Seq<u8>)
    requires
        v.wf(),
        v.column + s.len() <= BUFFER_WIDTH,
        forall|k: int| 0 <= k < s.len() ==> s[k] != NEWLINE,
    ensures
        write_bytes_spec(v, s) == (WriterView {
            column: v.column + s.len(),
            color_code: v.color_code,
            cells: placed(v.cells, v.column as int, s, v.color_code),
        }),
    decreases s.len(),
{
    if s.len() == 0 {
        assert(placed(v.cells, v.column as int, s, v.color_code) =~= v.cells);
    } else {
        let p = s.drop_last();
        lemma_place_in_row(v, p);
        let w = write_bytes_spec(v, p);
        assert(displayed(s.last()) != NEWLINE);
        assert(write_bytes_spec(v, s) == write_byte_spec(w, displayed(s.last())));
        assert(write_byte_spec(w, displayed(s.last())).cells =~= placed(
            v.cells,
            v.column as int,
            s,
            v.color_code,
        ));
    }
}

/// Writing a one-byte string is writing its displayed form.
proof fn lemma_single_byte(v: WriterView, b: u8)
    ensures
        write_bytes_spec(v, seq![b]) == write_byte_spec(v, displayed(b)),
{
    let s = seq![b];
    assert(s.drop_last() =~= Seq::<u8>::empty());
    assert(write_bytes_spec(v, Seq::<u8>::empty()) == v);
}

/// A printable byte lands, in the writer's attribute, at the cursor position
/// it was written at (column 0 of a fresh row when the last row was full),
/// and the cursor moves one column right.
pub proof fn lemma_printable_byte_written(v: WriterView, b: u8)
    requires
        v.wf(),
        is_printable(b),
    ensures
        ({
            let col: int = if v.column < BUFFER_WIDTH { v.column as int } else { 0 };
            let w = write_bytes_spec(v, seq![b]);
            &&& w.cell(BUFFER_HEIGHT - 1, col) == Char {
                ascii_character: b,
                color_code: v.color_code,
            }
            &&& w.column == col + 1
        }),
{
    lemma_single_byte(v, b);
}

/// A byte that is neither printable nor a newline shows as the placeholder
/// glyph at the cursor position, and the cursor still moves one column right.
pub proof fn lemma_unprintable_byte_placeholder(v: WriterView, b: u8)
    requires
        v.wf(),
        !is_printable(b),
        b != NEWLINE,
    ensures
        ({
            let col: int = if v.column < BUFFER_WIDTH { v.column as int } else { 0 };
            let w = write_bytes_spec(v, seq![b]);
            &&& w.cell(BUFFER_HEIGHT - 1, col) == Char {
                ascii_character: PLACEHOLDER,
                color_code: v.color_code,
            }
            &&& w.column == col + 1
        }),
{
    lemma_single_byte(v, b);
}

/// Writing exactly one row's worth of printable bytes from column 0 fills
/// the last row with them and leaves the cursor at the row's end, with no
/// line advance: every other row keeps its cells.
pub proof fn lemma_full_row_fills_last_row(v: WriterView, s: Seq<u8>)
    requires
        v.wf(),
        v.column == 0,
        s.len() == BUFFER_WIDTH,
        forall|k: int| 0 <= k < s.len() ==> is_printable(#[trigger] s[k]),
    ensures
        ({
            let w = write_bytes_spec(v, s);
            &&& w.wf()
            &&& w.column == BUFFER_WIDTH
            &&& w.color_code == v.color_code
            &&& forall|c: int|
                0 <= c < BUFFER_WIDTH ==> #[trigger] w.cell(BUFFER_HEIGHT - 1, c) == Char {
                    ascii_character: s[c],
                    color_code: v.color_code,
                }
            &&& forall|i: int| 0 <= i < index_of(BUFFER_HEIGHT - 1, 0) ==> w.cells[i] == v.cells[i]
        }),
{
    lemma_place_in_row(v, s);
}

/// Writing one more printable byte after a full row advances the line once:
/// the filled row moves up by one, the byte lands at column 0 of a blank
/// last row, and the rows above shift up with the top row dropped.
pub proof fn lemma_overflow_wraps(v: WriterView, s: Seq<u8>, b: u8)
    requires
        v.wf(),
        v.column == 0,
        s.len() == BUFFER_WIDTH,
        forall|k: int| 0 <= k < s.len() ==> is_printable(#[trigger] s[k]),
        is_printable(b),
    ensures
        ({
            let u = write_bytes_spec(v, s.push(b));
            &&& u.wf()
            &&& u.column == 1
            &&& u.cell(BUFFER_HEIGHT - 1, 0) == Char { ascii_character: b, color_code: v.color_code }
            &&& forall|c: int|
                1 <= c < BUFFER_WIDTH ==> #[trigger] u.cell(BUFFER_HEIGHT - 1, c) == blank(
                    v.color_code,
                )
            &&& forall|c: int|
                0 <= c < BUFFER_WIDTH ==> #[trigger] u.cell(BUFFER_HEIGHT - 2, c) == Char {
                    ascii_character: s[c],
                    color_code: v.color_code,
                }
            &&& forall|r: int, c: int|
                0 <= r < BUFFER_HEIGHT - 2 && 0 <= c < BUFFER_WIDTH ==> #[trigger] u.cell(r, c)
                    == v.cell(r + 1, c)
        }),
{
    lemma_full_row_fills_last_row(v, s);
    let w = write_bytes_spec(v, s);
    assert(s.push(b).drop_last() =~= s);
    assert(write_bytes_spec(v, s.push(b)) == write_byte_spec(w, b));
    let u = write_bytes_spec(v, s.push(b));
    assert forall|c: int| 0 <= c < BUFFER_WIDTH implies #[trigger] u.cell(BUFFER_HEIGHT - 2, c)
        == (Char { ascii_character: s[c], color_code: v.color_code }) by {
        assert(w.cell(BUFFER_HEIGHT - 1, c) == Char {
            ascii_character: s[c],
            color_code: v.color_code,
        });
    }
}

/// A newline moves the cursor to column 0 and shifts the grid up by exactly
/// one row: row 0's cells are dropped, each other row moves up by one, and
/// the new last row is blank.
pub proof fn lemma_newline_scrolls(v: WriterView)
    requires
        v.wf(),
    ensures
        ({
            let w = write_bytes_spec(v, seq![NEWLINE]);
            &&& w.wf()
            &&& w.column == 0
            &&& w.color_code == v.color_code
            &&& forall|r: int, c: int|
                0 <= r < BUFFER_HEIGHT - 1 && 0 <= c < BUFFER_WIDTH ==> #[trigger] w.cell(r, c)
                    == v.cell(r + 1, c)
            &&& forall|c: int|
                0 <= c < BUFFER_WIDTH ==> #[trigger] w.cell(BUFFER_HEIGHT - 1, c) == blank(
                    v.color_code,
                )
        }),
{
    lemma_single_byte(v, NEWLINE);
}

/// Clearing a row leaves it all blank in the given attribute, and clearing it
/// again changes nothing.
pub proof fn lemma_clear_row_idempotent(cells: Seq<Char>, row: int, color_code: ColorCode)
    requires
        cells.len() == BUFFER_CELLS,
        0 <= row < BUFFER_HEIGHT,
    ensures
        cleared(cleared(cells, row, color_code), row, color_code) == cleared(
            cells,
            row,
            color_code,
        ),
        forall|c: int|
            0 <= c < BUFFER_WIDTH ==> #[trigger] cleared(cells, row, color_code)[index_of(row, c)]
                == blank(color_code),
{
    assert(cleared(cleared(cells, row, color_code), row, color_code) =~= cleared(
        cells,
        row,
        color_code,
    ));
}

/// Text without newlines, shorter than a row, written from column 0 onto a
/// blank last row leaves that row holding exactly the text's displayed bytes
/// from column 0, blank after them, with the cursor just past the text.
pub proof fn lemma_short_text_round_trip(v: WriterView, s: Seq<u8>)
    requires
        v.wf(),
        v.column == 0,
        forall|c: int| 0 <= c < BUFFER_WIDTH ==> #[trigger] v.cell(BUFFER_HEIGHT - 1, c) == blank(
            v.color_code,
        ),
        s.len() < BUFFER_WIDTH,
        forall|k: int| 0 <= k < s.len() ==> s[k] != NEWLINE,
    ensures
        ({
            let w = write_bytes_spec(v, s);
            &&& w.column == s.len()
            &&& w.row(BUFFER_HEIGHT - 1) == Seq::new(
                BUFFER_WIDTH as nat,
                |c: int|
                    if c < s.len() {
                        Char { ascii_character: displayed(s[c]), color_code: v.color_code }
                    } else {
                        blank(v.color_code)
                    },
            )
        }),
{
    lemma_place_in_row(v, s);
    let w = write_bytes_spec(v, s);
    assert forall|c: int| 0 <= c < BUFFER_WIDTH && c >= s.len() implies #[trigger] w.cell(
        BUFFER_HEIGHT - 1,
        c,
    ) == blank(v.color_code) by {
        assert(v.cell(BUFFER_HEIGHT - 1, c) == blank(v.color_code));
    }
    assert forall|c: int| 0 <= c < BUFFER_WIDTH implies #[trigger] w.row(BUFFER_HEIGHT - 1)[c]
        == w.cell(BUFFER_HEIGHT - 1, c) by {}
    assert(w.row(BUFFER_HEIGHT - 1) =~= Seq::new(
        BUFFER_WIDTH as nat,
        |c: int|
            if c < s.len() {
                Char { ascii_character: displayed(s[c]), color_code: v.color_code }
            } else {
                blank(v.color_code)
            },
    ));
}

} // verus!
