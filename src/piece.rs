//! A piece in play: its kind, its rotation state, and the cells it covers
//! relative to an anchor.
use crate::piece_type::{bit, lemma_every_shape_has_four_cells, ones_below, shape_of, PieceType};
use crate::position::Position;
use vstd::prelude::*;

verus! {

/// The field cell of bounding-box bit `i` for a piece anchored at `anchor`:
/// box row `i / 4` maps to field row `anchor.row + 3 - i / 4`, box column
/// `i % 4` to field column `anchor.col + i % 4`.
pub open spec fn cell_at(anchor: Position, i: int) -> Position {
    Position { row: (anchor.row + (3 - i / 4)) as i8, col: (anchor.col + i % 4) as i8 }
}

/// The cells of the set bits among the `n` lowest bits of `mask`, in
/// ascending bit order.
pub open spec fn filled_cells(mask: u16, anchor: Position, n: nat) -> Seq<Position>
    decreases n,
{
    if n == 0 {
        seq![]
    } else {
        let before = filled_cells(mask, anchor, (n - 1) as nat);
        if bit(mask, (n - 1) as u16) == 1 {
            before.push(cell_at(anchor, n - 1))
        } else {
            before
        }
    }
}

/// An anchor from which every cell of the 4x4 box fits in an `i8`.
pub open spec fn anchor_fits(anchor: Position) -> bool {
    anchor.row <= 124 && anchor.col <= 124
}

/// A piece that is falling: its kind and its rotation state.
#[derive(Clone, Copy, Debug, PartialEq, Eq, Structural)]
pub struct Piece {
    pub piece_type: PieceType,
    pub rotation: u8,
}

impl Piece {
    /// The rotation state lies in `0..4`.
    pub open spec fn wf(self) -> bool {
        self.rotation < 4
    }

    /// The piece after one clockwise quarter turn.
    pub open spec fn turned_cw(self) -> Piece {
        Piece { rotation: ((self.rotation + 1) % 4) as u8, ..self }
    }

    /// The piece after one counter-clockwise quarter turn.
    pub open spec fn turned_ccw(self) -> Piece {
        Piece { rotation: ((self.rotation + 3) % 4) as u8, ..self }
    }

    /// The occupancy mask of the piece in its current rotation state.
    pub open spec fn shape(self) -> u16 {
        shape_of(self.piece_type, self.rotation as int)
    }

    /// The field cells that the piece covers when anchored at `anchor`.
    pub open spec fn cells(self, anchor: Position) -> Seq<Position> {
        filled_cells(self.shape(), anchor, 16)
    }

    /// A new piece of the given kind, in rotation state 0.
    pub fn new(piece_type: PieceType) -> (r: Self)
        ensures
            r.piece_type == piece_type,
            r.rotation == 0,
            r.wf(),
    {
        Self { piece_type, rotation: 0 }
    }

    /// Turns the piece a quarter clockwise: the rotation state goes up by one,
    /// modulo 4.
    pub fn rotate_cw(&mut self)
        ensures
            *final(self) == old(self).turned_cw(),
            final(self).wf(),
    {
        self.rotation = (self.rotation % 4 + 1) % 4;
    }

    /// Turns the piece a quarter counter-clockwise: the rotation state goes
    /// down by one, modulo 4, so state 0 becomes state 3.
    pub fn rotate_ccw(&mut self)
        ensures
            *final(self) == old(self).turned_ccw(),
            final(self).wf(),
    {
        self.rotation = (self.rotation % 4 + 3) % 4;
    }

    /// The field cells that the piece covers when anchored at `pos`, in
    /// ascending bit order of its mask: always four, each within the 4x4 box
    /// that starts at the anchor.
    pub fn get_filled_positions(&self, pos: &Position) -> (r: Vec<Position>)
        requires
            anchor_fits(*pos),
        ensures
            r@ == self.cells(*pos),
            r@.len() == 4,
            forall|j: int|
                0 <= j < r@.len() ==> pos.row <= #[trigger] r@[j].row <= pos.row + 3 && pos.col
                    <= r@[j].col <= pos.col + 3,
    {
        let shape = self.piece_type.get_shape(self.rotation);
        let mut positions: Vec<Position> = Vec::new();
        let mut idx: u16 = 0;
        while idx < 16
            invariant
                idx <= 16,
                shape == self.shape(),
                anchor_fits(*pos),
                positions@ == filled_cells(shape, *pos, idx as nat),
            decreases 16 - idx,
        {
            if (shape >> idx) & 1 == 1 {
                let row: i8 = (idx / 4) as i8;
                let col: i8 = (idx % 4) as i8;
                positions.push(Position { row: pos.row + (3 - row), col: pos.col + col });
            }
            idx = idx + 1;
        }
        proof {
            lemma_filled_cells_count(shape, *pos, 16);
            lemma_filled_cells_in_box(shape, *pos, 16);
            lemma_every_shape_has_four_cells(self.piece_type, self.rotation as int % 4);
        }
        positions
    }
}

/// There is one cell for each set bit.
proof fn lemma_filled_cells_count(mask: u16, anchor: Position, n: nat)
    requires
        n <= 16,
    ensures
        filled_cells(mask, anchor, n).len() == ones_below(mask, n),
    decreases n,
{
    if n > 0 {
        lemma_filled_cells_count(mask, anchor, (n - 1) as nat);
        let i = (n - 1) as u16;
        assert(bit(mask, i) <= 1) by (bit_vector);
    }
}

/// Every cell lies in the 4x4 box whose least row and column are the anchor's.
proof fn lemma_filled_cells_in_box(mask: u16, anchor: Position, n: nat)
    requires
        n <= 16,
        anchor_fits(anchor),
    ensures
        forall|j: int|
            0 <= j < filled_cells(mask, anchor, n).len() ==> {
                let c = #[trigger] filled_cells(mask, anchor, n)[j];
                anchor.row <= c.row <= anchor.row + 3 && anchor.col <= c.col <= anchor.col + 3
            },
    decreases n,
{
    if n > 0 {
        lemma_filled_cells_in_box(mask, anchor, (n - 1) as nat);
        let i = n - 1;
        let before = filled_cells(mask, anchor, (n - 1) as nat);
        let all = filled_cells(mask, anchor, n);
        assert forall|j: int| 0 <= j < all.len() implies {
            let c = #[trigger] all[j];
            anchor.row <= c.row <= anchor.row + 3 && anchor.col <= c.col <= anchor.col + 3
        } by {
            if j < before.len() {
                assert(all[j] == before[j]);
            }
        }
    }
}

/// A clockwise turn followed by a counter-clockwise one, or the other way
/// round, gives back the piece one started with.
pub proof fn lemma_rotation_round_trip(p: Piece)
    requires
        p.wf(),
    ensures
        p.turned_cw().turned_ccw() == p,
        p.turned_ccw().turned_cw() == p,
{
}

/// Four clockwise turns give back the piece one started with.
pub proof fn lemma_four_turns_cw(p: Piece)
    requires
        p.wf(),
    ensures
        p.turned_cw().turned_cw().turned_cw().turned_cw() == p,
{
}

/// A record that a piece of the given kind has come to rest.
#[derive(Clone, Copy, Debug, PartialEq, Eq, Structural)]
pub struct DroppedPiece {
    pub piece_type: PieceType,
}

impl DroppedPiece {
    /// The record for a piece of the given kind.
    pub fn new(piece_type: PieceType) -> (r: Self)
        ensures
            r.piece_type == piece_type,
    {
        Self { piece_type }
    }
}

} // verus!
