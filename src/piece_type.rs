//! The seven piece kinds and the table of their rotation masks.
use rand::Rng;
use vstd::prelude::*;

verus! {

/// A 4x4 occupancy grid: bit `row * 4 + col` is set when that cell of the
/// piece's bounding box is filled. Row 0 is the low nibble.
pub type PieceShape = u16;

/// The seven tetromino kinds.
#[derive(Clone, Copy, Debug, PartialEq, Eq, Structural)]
pub enum PieceType {
    O,
    J,
    L,
    I,
    S,
    Z,
    T,
}

/// The masks of a kind for rotation states 0, 1, 2 and 3, in that order.
pub open spec fn rotation_masks(kind: PieceType) -> Seq<u16> {
    match kind {
        PieceType::O => seq![0xCC00u16, 0xCC00u16, 0xCC00u16, 0xCC00u16],
        PieceType::J => seq![0x44C0u16, 0x8E00u16, 0x6440u16, 0x0E20u16],
        PieceType::L => seq![0x4460u16, 0x0E80u16, 0xC440u16, 0x2E00u16],
        PieceType::I => seq![0x0F00u16, 0x2222u16, 0x00F0u16, 0x4444u16],
        PieceType::S => seq![0x06C0u16, 0x8C40u16, 0x6C00u16, 0x4620u16],
        PieceType::Z => seq![0x0C60u16, 0x4C80u16, 0xC600u16, 0x2640u16],
        PieceType::T => seq![0x0E40u16, 0x4C40u16, 0x4E00u16, 0x4640u16],
    }
}

/// The mask of `kind` in the rotation state that `rotation` stands for, taken
/// modulo 4.
pub open spec fn shape_of(kind: PieceType, rotation: int) -> u16 {
    rotation_masks(kind)[rotation % 4]
}

/// Bit `i` of `m`, as 0 or 1.
pub open spec fn bit(m: u16, i: u16) -> u16 {
    (m >> i) & 1u16
}

/// The number of set bits among the `n` lowest bits of `m`.
pub open spec fn ones_below(m: u16, n: nat) -> nat
    decreases n,
{
    if n == 0 {
        0
    } else {
        ones_below(m, (n - 1) as nat) + bit(m, (n - 1) as u16) as nat
    }
}

/// The kind that a draw of `n` from `0..7` selects; anything from 6 up
/// selects `T`.
pub open spec fn kind_of_index(n: int) -> PieceType {
    if n == 0 {
        PieceType::O
    } else if n == 1 {
        PieceType::J
    } else if n == 2 {
        PieceType::L
    } else if n == 3 {
        PieceType::I
    } else if n == 4 {
        PieceType::S
    } else if n == 5 {
        PieceType::Z
    } else {
        PieceType::T
    }
}

/// The draw in `0..7` that selects `kind`.
pub open spec fn index_of_kind(kind: PieceType) -> int {
    match kind {
        PieceType::O => 0,
        PieceType::J => 1,
        PieceType::L => 2,
        PieceType::I => 3,
        PieceType::S => 4,
        PieceType::Z => 5,
        PieceType::T => 6,
    }
}

/// Relies on rand's `thread_rng` and `Rng::gen_range(0, 7)`: a value drawn
/// uniformly from the half-open range, so below 7.
#[verifier::external_body]
fn draw_below_seven() -> (r: u32)
    ensures
        r < 7,
{
    rand::thread_rng().gen_range(0u32, 7u32)
}

impl PieceType {
    /// The occupancy mask of this kind in rotation state `rotation % 4`.
    pub fn get_shape(&self, rotation: u8) -> (r: PieceShape)
        ensures
            r == shape_of(*self, rotation as int),
    {
        let shapes: [u16; 4] = match *self {
            PieceType::O => [0xCC00, 0xCC00, 0xCC00, 0xCC00],
            PieceType::J => [0x44C0, 0x8E00, 0x6440, 0x0E20],
            PieceType::L => [0x4460, 0x0E80, 0xC440, 0x2E00],
            PieceType::I => [0x0F00, 0x2222, 0x00F0, 0x4444],
            PieceType::S => [0x06C0, 0x8C40, 0x6C00, 0x4620],
            PieceType::Z => [0x0C60, 0x4C80, 0xC600, 0x2640],
            PieceType::T => [0x0E40, 0x4C40, 0x4E00, 0x4640],
        };
        shapes[rotation as usize % 4]
    }

    /// The kind selected by a draw `n` from `0..7`, in declaration order;
    /// any larger value selects `T`.
    pub fn from_index(n: u32) -> (r: PieceType)
        ensures
            r == kind_of_index(n as int),
    {
        match n {
            0 => PieceType::O,
            1 => PieceType::J,
            2 => PieceType::L,
            3 => PieceType::I,
            4 => PieceType::S,
            5 => PieceType::Z,
            _ => PieceType::T,
        }
    }

    /// A kind drawn at random, each of the seven with the same chance: the
    /// draw is uniform over `0..7` and each kind has exactly one index there.
    pub fn random() -> (r: PieceType)
        ensures
            exists|n: int| 0 <= n < 7 && r == kind_of_index(n),
    {
        let n = draw_below_seven();
        PieceType::from_index(n)
    }
}

/// Every rotation state of every kind covers exactly four cells of the
/// bounding box.
pub proof fn lemma_every_shape_has_four_cells(kind: PieceType, rotation: int)
    requires
        0 <= rotation < 4,
    ensures
        ones_below(shape_of(kind, rotation), 16) == 4,
{
    let m = shape_of(kind, rotation);
    assert(is_table_mask(m));
    reveal_with_fuel(ones_below, 17);
    assert(bit(m, 0) as int + bit(m, 1) as int + bit(m, 2) as int + bit(m, 3) as int
        + bit(m, 4) as int + bit(m, 5) as int + bit(m, 6) as int + bit(m, 7) as int
        + bit(m, 8) as int + bit(m, 9) as int + bit(m, 10) as int + bit(m, 11) as int
        + bit(m, 12) as int + bit(m, 13) as int + bit(m, 14) as int + bit(m, 15) as int == 4)
        by (bit_vector)
        requires
            is_table_mask(m),
    ;
}

/// `m` is one of the masks of the shape table.
spec fn is_table_mask(m: u16) -> bool {
    m == 0xCC00 || m == 0x44C0 || m == 0x8E00 || m == 0x6440 || m == 0x0E20
        || m == 0x4460 || m == 0x0E80 || m == 0xC440 || m == 0x2E00 || m == 0x0F00
        || m == 0x2222 || m == 0x00F0 || m == 0x4444 || m == 0x06C0 || m == 0x8C40
        || m == 0x6C00 || m == 0x4620 || m == 0x0C60 || m == 0x4C80 || m == 0xC600
        || m == 0x2640 || m == 0x0E40 || m == 0x4C40 || m == 0x4E00 || m == 0x4640
}

/// The four rotation states of a kind give four different masks, except for
/// `O`, whose mask is `0xCC00` in every state.
pub proof fn lemma_rotations_distinct(kind: PieceType, r1: int, r2: int)
    requires
        0 <= r1 < 4,
        0 <= r2 < 4,
    ensures
        kind == PieceType::O ==> shape_of(kind, r1) == 0xCC00,
        kind != PieceType::O && r1 != r2 ==> shape_of(kind, r1) != shape_of(kind, r2),
{
}

/// Each kind is selected by exactly one draw in `0..7`, so a uniform draw
/// gives each kind with chance one in seven.
pub proof fn lemma_each_kind_has_one_index(kind: PieceType, n: int)
    requires
        0 <= n < 7,
    ensures
        0 <= index_of_kind(kind) < 7,
        kind_of_index(index_of_kind(kind)) == kind,
        kind_of_index(n) == kind <==> n == index_of_kind(kind),
{
}

} // verus!
