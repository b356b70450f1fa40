//! A cell coordinate on the playfield.
use vstd::prelude::*;

verus! {

/// A signed (row, column) pair, used both as a piece's anchor and as the
/// location of each cell that a piece covers. Two positions are equal exactly
/// when both coordinates are.
#[derive(Clone, Copy, Debug, PartialEq, Eq, Structural)]
pub struct Position {
    pub row: i8,
    pub col: i8,
}

} // verus!
