use tetris::positions::Position;
use tetris::tetramino_rules::TetrominoRules;
use tetris::tetromino::{Colour, Orientation, Tetromino, TetrominoType};

fn p(x: i32, y: i32) -> Position {
    Position { x, y }
}

fn piece(type_: TetrominoType, orientation: Orientation, x: i32, y: i32) -> Tetromino {
    Tetromino { orientation, colour: Colour::Red, type_, box_corner: p(x, y) }
}

const KINDS: [TetrominoType; 7] = [
    TetrominoType::I,
    TetrominoType::J,
    TetrominoType::L,
    TetrominoType::O,
    TetrominoType::S,
    TetrominoType::T,
    TetrominoType::Z,
];

const ORIENTATIONS: [Orientation; 4] =
    [Orientation::Up, Orientation::Right, Orientation::Down, Orientation::Left];

#[test]
fn rotate_offset_90_turns_clockwise_in_box() {
    assert_eq!(TetrominoRules::rotate_offset_90(p(0, 0), 4), p(3, 0));
    assert_eq!(TetrominoRules::rotate_offset_90(p(1, 1), 4), p(2, 1));
    assert_eq!(TetrominoRules::rotate_offset_90(p(1, 1), 3), p(1, 1));
    assert_eq!(TetrominoRules::rotate_offset_90(p(1, 1), 2), p(0, 1));
    assert_eq!(TetrominoRules::rotate_offset_90(p(0, 1), 4), p(2, 0));
}

#[test]
fn every_piece_occupies_four_distinct_cells() {
    let rules = TetrominoRules::new(1);
    for k in KINDS {
        for o in ORIENTATIONS {
            let b = rules.blocks(&piece(k, o, 3, 7));
            for i in 0..4 {
                for j in (i + 1)..4 {
                    assert_ne!(b[i], b[j]);
                }
                assert!(b[i].x >= 3 && b[i].x < 7 && b[i].y >= 7 && b[i].y < 11);
            }
        }
    }
}

#[test]
fn up_tables_are_the_canonical_ones() {
    let rules = TetrominoRules::new(1);
    let b = |k| rules.blocks(&piece(k, Orientation::Up, 0, 0));
    assert_eq!(b(TetrominoType::I), [p(0, 1), p(1, 1), p(2, 1), p(3, 1)]);
    assert_eq!(b(TetrominoType::J), [p(0, 0), p(0, 1), p(1, 1), p(2, 1)]);
    assert_eq!(b(TetrominoType::L), [p(0, 1), p(1, 1), p(2, 1), p(2, 0)]);
    assert_eq!(b(TetrominoType::O), [p(0, 0), p(0, 1), p(1, 0), p(1, 1)]);
    assert_eq!(b(TetrominoType::S), [p(0, 1), p(1, 1), p(1, 0), p(2, 0)]);
    assert_eq!(b(TetrominoType::T), [p(0, 1), p(1, 1), p(1, 0), p(2, 1)]);
    assert_eq!(b(TetrominoType::Z), [p(0, 0), p(1, 0), p(1, 1), p(2, 1)]);
}

#[test]
fn turned_tables_follow_the_quarter_turn() {
    let rules = TetrominoRules::new(1);
    let i_right = rules.blocks(&piece(TetrominoType::I, Orientation::Right, 0, 0));
    assert_eq!(i_right, [p(2, 0), p(2, 1), p(2, 2), p(2, 3)]);
    let i_down = rules.blocks(&piece(TetrominoType::I, Orientation::Down, 0, 0));
    assert_eq!(i_down, [p(3, 2), p(2, 2), p(1, 2), p(0, 2)]);
    let t_left = rules.blocks(&piece(TetrominoType::T, Orientation::Left, 10, 20));
    assert_eq!(t_left, [p(11, 22), p(11, 21), p(10, 21), p(11, 20)]);
    let o_right = rules.blocks(&piece(TetrominoType::O, Orientation::Right, 0, 0));
    assert_eq!(o_right, [p(1, 0), p(0, 0), p(1, 1), p(0, 1)]);
}

#[test]
fn rotation_candidates_start_in_place_then_kick() {
    let rules = TetrominoRules::new(1);
    let t = piece(TetrominoType::J, Orientation::Up, 4, 4);
    let c = rules.rotate(&t, Orientation::Right);
    let corners: Vec<Position> = c.iter().map(|x| x.box_corner).collect();
    assert_eq!(corners, vec![p(4, 4), p(3, 4), p(3, 5), p(4, 2), p(3, 2)]);
    assert!(c.iter().all(|x| x.orientation == Orientation::Right && x.type_ == TetrominoType::J));

    let i = piece(TetrominoType::I, Orientation::Left, 4, 4);
    let c = rules.rotate(&i, Orientation::Up);
    let corners: Vec<Position> = c.iter().map(|x| x.box_corner).collect();
    assert_eq!(corners, vec![p(4, 4), p(5, 4), p(2, 4), p(5, 2), p(2, 5)]);
}

#[test]
fn o_piece_is_never_kicked() {
    let rules = TetrominoRules::new(1);
    for o in ORIENTATIONS {
        for target in ORIENTATIONS {
            let c = rules.rotate(&piece(TetrominoType::O, o, 2, 2), target);
            assert_eq!(c.len(), 1);
            assert_eq!(c[0].box_corner, p(2, 2));
            assert_eq!(c[0].orientation, target);
        }
    }
}

#[test]
fn translations_move_the_corner_only() {
    let rules = TetrominoRules::new(1);
    let t = piece(TetrominoType::S, Orientation::Down, 4, 4);
    assert_eq!(rules.move_down(&t).box_corner, p(4, 5));
    assert_eq!(rules.move_left(&t).box_corner, p(3, 4));
    assert_eq!(rules.move_right(&t).box_corner, p(5, 4));
    assert_eq!(rules.move_right(&t).orientation, Orientation::Down);
    assert_eq!(rules.move_right(&t).type_, TetrominoType::S);
}

#[test]
fn orientation_cycle() {
    for o in ORIENTATIONS {
        assert_eq!(o.rotate_clockwise().rotate_anticlockwise(), o);
        assert_eq!(o.rotate_clockwise().rotate_clockwise().rotate_clockwise().rotate_clockwise(), o);
    }
    assert_eq!(Orientation::Up.rotate_clockwise(), Orientation::Right);
    assert_eq!(Orientation::Up.rotate_anticlockwise(), Orientation::Left);
}

#[test]
fn switch_keeps_place_and_orientation() {
    let mut rules = TetrominoRules::new(7);
    let t = piece(TetrominoType::T, Orientation::Left, 3, 9);
    let mut kinds = std::collections::HashSet::new();
    let mut colours = std::collections::HashSet::new();
    for _ in 0..200 {
        let n = rules.switch(&t);
        assert_eq!(n.box_corner, t.box_corner);
        assert_eq!(n.orientation, t.orientation);
        kinds.insert(format!("{:?}", n.type_));
        colours.insert(format!("{:?}", n.colour));
    }
    assert_eq!(kinds.len(), 7);
    assert_eq!(colours.len(), 6);
}
