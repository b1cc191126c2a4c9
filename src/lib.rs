//! A text-mode display driver modelled over a fixed 25 x 80 grid of cells.
//!
//! Characters are appended to the last row; the writer wraps at the row
//! boundary and shifts every row up by one when a new line is needed.
//! `buffer` holds the grid's model and the meaning of each operation,
//! `writer` the executable writer proved against it, and `laws` the
//! properties that follow.
pub mod buffer;
pub mod color;
pub mod laws;
pub mod writer;
