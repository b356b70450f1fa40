use tetromino::{DroppedPiece, Piece, PieceType, Position};

const ALL_KINDS: [PieceType; 7] = [
    PieceType::O,
    PieceType::J,
    PieceType::L,
    PieceType::I,
    PieceType::S,
    PieceType::Z,
    PieceType::T,
];

fn sorted(mut cells: Vec<Position>) -> Vec<(i8, i8)> {
    let mut out: Vec<(i8, i8)> = cells.drain(..).map(|p| (p.row, p.col)).collect();
    out.sort();
    out
}

#[test]
fn every_shape_has_four_cells() {
    for kind in ALL_KINDS {
        for r in 0..4u8 {
            assert_eq!(kind.get_shape(r).count_ones(), 4);
        }
    }
}

#[test]
fn rotations_are_distinct_except_o() {
    for kind in ALL_KINDS {
        let masks: Vec<u16> = (0..4u8).map(|r| kind.get_shape(r)).collect();
        if kind == PieceType::O {
            assert!(masks.iter().all(|&m| m == 0xCC00));
        } else {
            for a in 0..4 {
                for b in 0..4 {
                    if a != b {
                        assert_ne!(masks[a], masks[b]);
                    }
                }
            }
        }
    }
}

#[test]
fn shape_table_values() {
    assert_eq!(PieceType::J.get_shape(0), 0x44C0);
    assert_eq!(PieceType::L.get_shape(1), 0x0E80);
    assert_eq!(PieceType::I.get_shape(1), 0x2222);
    assert_eq!(PieceType::S.get_shape(2), 0x6C00);
    assert_eq!(PieceType::Z.get_shape(3), 0x2640);
    assert_eq!(PieceType::T.get_shape(0), 0x0E40);
}

#[test]
fn rotation_is_taken_modulo_four() {
    for kind in ALL_KINDS {
        for r in 0..=255u8 {
            assert_eq!(kind.get_shape(r), kind.get_shape(r % 4));
        }
    }
}

#[test]
fn new_piece_starts_in_state_zero() {
    let p = Piece::new(PieceType::L);
    assert_eq!(p.rotation, 0);
    assert!(p.piece_type == PieceType::L);
}

#[test]
fn cw_then_ccw_round_trip() {
    for kind in ALL_KINDS {
        for start in 0..4u8 {
            let mut p = Piece { piece_type: kind, rotation: start };
            p.rotate_cw();
            p.rotate_ccw();
            assert_eq!(p.rotation, start);
            p.rotate_ccw();
            p.rotate_cw();
            assert_eq!(p.rotation, start);
        }
    }
}

#[test]
fn four_cw_turns_cycle() {
    for start in 0..4u8 {
        let mut p = Piece { piece_type: PieceType::T, rotation: start };
        p.rotate_cw();
        assert_eq!(p.rotation, (start + 1) % 4);
        p.rotate_cw();
        p.rotate_cw();
        p.rotate_cw();
        assert_eq!(p.rotation, start);
    }
}

#[test]
fn ccw_from_zero_wraps_to_three() {
    let mut p = Piece::new(PieceType::Z);
    p.rotate_ccw();
    assert_eq!(p.rotation, 3);
    p.rotate_ccw();
    assert_eq!(p.rotation, 2);
}

#[test]
fn filled_positions_stay_in_box() {
    let anchors = [
        Position { row: 0, col: 0 },
        Position { row: -128, col: -128 },
        Position { row: 124, col: 124 },
        Position { row: 7, col: -3 },
    ];
    for kind in ALL_KINDS {
        for r in 0..4u8 {
            let p = Piece { piece_type: kind, rotation: r };
            for a in anchors {
                let cells = p.get_filled_positions(&a);
                assert_eq!(cells.len(), 4);
                for c in &cells {
                    assert!(c.row >= a.row && c.row <= a.row + 3);
                    assert!(c.col >= a.col && c.col <= a.col + 3);
                }
            }
        }
    }
}

#[test]
fn o_piece_cells_are_the_same_in_every_state() {
    let anchor = Position { row: 0, col: 0 };
    let mut p = Piece::new(PieceType::O);
    let first = p.get_filled_positions(&anchor);
    assert_eq!(
        first,
        vec![
            Position { row: 1, col: 2 },
            Position { row: 1, col: 3 },
            Position { row: 0, col: 2 },
            Position { row: 0, col: 3 },
        ]
    );
    for _ in 0..3 {
        p.rotate_cw();
        assert_eq!(p.get_filled_positions(&anchor), first);
    }
}

#[test]
fn i_piece_lies_on_one_row() {
    let p = Piece::new(PieceType::I);
    let cells = p.get_filled_positions(&Position { row: 5, col: 2 });
    assert_eq!(sorted(cells), vec![(6, 2), (6, 3), (6, 4), (6, 5)]);
}

#[test]
fn vertical_i_piece_lies_on_one_column() {
    let p = Piece { piece_type: PieceType::I, rotation: 1 };
    let cells = p.get_filled_positions(&Position { row: 0, col: 0 });
    assert_eq!(
        cells,
        vec![
            Position { row: 3, col: 1 },
            Position { row: 2, col: 1 },
            Position { row: 1, col: 1 },
            Position { row: 0, col: 1 },
        ]
    );
}

#[test]
fn t_piece_cells() {
    let p = Piece::new(PieceType::T);
    let cells = p.get_filled_positions(&Position { row: 10, col: 4 });
    assert_eq!(sorted(cells), vec![(11, 5), (11, 6), (11, 7), (12, 6)]);
}

#[test]
fn from_index_follows_declaration_order() {
    for (n, kind) in ALL_KINDS.iter().enumerate() {
        assert!(PieceType::from_index(n as u32) == *kind);
    }
    assert!(PieceType::from_index(200) == PieceType::T);
}

#[test]
fn random_kinds_are_uniform() {
    let draws = 70_000;
    let mut counts = [0u32; 7];
    for _ in 0..draws {
        let kind = PieceType::random();
        let idx = ALL_KINDS.iter().position(|k| *k == kind).unwrap();
        counts[idx] += 1;
    }
    let expected = draws as f64 / 7.0;
    for c in counts {
        assert!((c as f64 - expected).abs() < expected * 0.05);
    }
}

#[test]
fn dropped_piece_keeps_kind() {
    let d = DroppedPiece::new(PieceType::S);
    assert!(d.piece_type == PieceType::S);
}

#[test]
fn positions_compare_by_value() {
    let a = Position { row: 3, col: -2 };
    let b = a;
    assert_eq!(a, b);
    assert_ne!(a, Position { row: 3, col: -1 });
}
