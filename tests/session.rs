use tetris::board::Board;
use tetris::game::Tetris;
use tetris::positions::Position;
use tetris::spawner::TetrominoSpawner;
use tetris::tetromino::{Colour, Orientation, Tetromino, TetrominoType};

fn p(x: i32, y: i32) -> Position {
    Position { x, y }
}

fn piece(type_: TetrominoType, orientation: Orientation, x: i32, y: i32) -> Tetromino {
    Tetromino { orientation, colour: Colour::Magenta, type_, box_corner: p(x, y) }
}

fn snapshot(g: &Tetris) -> (Vec<Vec<Option<Colour>>>, Option<[Position; 4]>, bool, u32) {
    let s = g.ui_state();
    (s.board, s.tetromino_blocks, s.game_over, s.score)
}

#[test]
fn score_table() {
    assert_eq!(Tetris::score_for_lines(0), 0);
    assert_eq!(Tetris::score_for_lines(1), 40);
    assert_eq!(Tetris::score_for_lines(2), 100);
    assert_eq!(Tetris::score_for_lines(3), 300);
    assert_eq!(Tetris::score_for_lines(4), 1200);
}

#[test]
fn i_piece_falls_to_the_floor_and_locks() {
    let mut g = Tetris::new(10, 20, 3);
    g.spawn_with(Tetromino::new(5, Colour::Red, Orientation::Up, TetrominoType::I));
    assert_eq!(g.ui_state().tetromino_blocks, Some([p(5, 1), p(6, 1), p(7, 1), p(8, 1)]));
    let mut steps = 0;
    while g.ui_state().tetromino_blocks.is_some() {
        g.move_tetromino_down();
        steps += 1;
    }
    assert_eq!(steps, 19);
    let s = g.ui_state();
    assert_eq!(s.score, 0);
    assert!(!s.game_over);
    for x in 0..10 {
        let want = if (5..9).contains(&x) { Some(Colour::Red) } else { None };
        assert_eq!(s.board[19][x], want);
    }
    g.spawn_with(Tetromino::new(5, Colour::Red, Orientation::Up, TetrominoType::I));
    assert_eq!(g.ui_state().tetromino_blocks, Some([p(5, 1), p(6, 1), p(7, 1), p(8, 1)]));
    assert!(!g.game_over);
}

#[test]
fn spawn_blocked_ends_the_game_and_freezes_it() {
    let mut b = Board::new(10, 20);
    for y in 0..2 {
        let xs: Vec<i32> = (0..10).filter(|x| *x != 5).collect();
        b.add_blocks(&[p(xs[0], y), p(xs[1], y), p(xs[2], y), p(xs[3], y)], Colour::Red);
        b.add_blocks(&[p(xs[4], y), p(xs[5], y), p(xs[6], y), p(xs[7], y)], Colour::Red);
        b.add_blocks(&[p(xs[8], y), p(xs[8], y), p(xs[8], y), p(xs[8], y)], Colour::Red);
    }
    let mut g = Tetris::with_board(b, 3);
    g.spawn_with(piece(TetrominoType::O, Orientation::Up, 5, 0));
    assert!(g.game_over);
    let before = snapshot(&g);
    assert_eq!(before.1, None);
    g.move_tetromino_left();
    g.drop_tetromino();
    g.rotate_clockwise();
    g.update();
    g.spawn_with(piece(TetrominoType::I, Orientation::Down, 5, 0));
    assert_eq!(snapshot(&g), before);
}

#[test]
fn update_spawns_a_piece_at_the_spawn_column() {
    let mut g = Tetris::new(10, 20, 3);
    g.update();
    let s = g.ui_state();
    assert!(!s.game_over);
    let blocks = s.tetromino_blocks.expect("a piece falls");
    assert!(blocks.iter().all(|b| b.x >= 5 && b.x < 9 && b.y >= 0 && b.y < 4));
    g.update();
    let t = g.ui_state().tetromino_blocks.expect("still falling");
    for i in 0..4 {
        assert_eq!(t[i], p(blocks[i].x, blocks[i].y + 1));
    }
}

#[test]
fn clockwise_then_anticlockwise_restores_piece() {
    let mut g = Tetris::new(10, 20, 3);
    g.spawn_with(piece(TetrominoType::T, Orientation::Up, 3, 5));
    let before = snapshot(&g);
    g.rotate_clockwise();
    assert_eq!(g.ui_state().tetromino_blocks, Some([p(4, 5), p(4, 6), p(5, 6), p(4, 7)]));
    g.rotate_anticlockwise();
    assert_eq!(snapshot(&g), before);
}

#[test]
fn rotation_against_wall_uses_first_fitting_kick() {
    let mut g = Tetris::new(10, 20, 3);
    g.spawn_with(piece(TetrominoType::J, Orientation::Right, -1, 5));
    assert_eq!(g.ui_state().tetromino_blocks, Some([p(1, 5), p(0, 5), p(0, 6), p(0, 7)]));
    g.rotate_clockwise();
    assert_eq!(g.ui_state().tetromino_blocks, Some([p(2, 7), p(2, 6), p(1, 6), p(0, 6)]));
}

#[test]
fn moves_are_rejected_at_walls() {
    let mut g = Tetris::new(4, 6, 3);
    g.spawn_with(piece(TetrominoType::O, Orientation::Up, 0, 0));
    let before = snapshot(&g);
    g.move_tetromino_left();
    assert_eq!(snapshot(&g), before);
    g.move_tetromino_right();
    g.move_tetromino_right();
    assert_eq!(g.ui_state().tetromino_blocks, Some([p(2, 0), p(2, 1), p(3, 0), p(3, 1)]));
    g.move_tetromino_right();
    assert_eq!(g.ui_state().tetromino_blocks, Some([p(2, 0), p(2, 1), p(3, 0), p(3, 1)]));
}

#[test]
fn drop_locks_at_landing_row() {
    let mut g = Tetris::new(4, 6, 3);
    g.spawn_with(piece(TetrominoType::O, Orientation::Up, 1, 0));
    g.drop_tetromino();
    let s = g.ui_state();
    assert_eq!(s.tetromino_blocks, None);
    assert_eq!(s.board[5], vec![None, Some(Colour::Magenta), Some(Colour::Magenta), None]);
    assert_eq!(s.board[4], vec![None, Some(Colour::Magenta), Some(Colour::Magenta), None]);
    assert_eq!(s.score, 0);
}

#[test]
fn single_line_scores_forty() {
    let mut g = Tetris::new(4, 2, 3);
    g.spawn_with(piece(TetrominoType::I, Orientation::Up, 0, 0));
    g.move_tetromino_down();
    let s = g.ui_state();
    assert_eq!(s.score, 40);
    assert!(s.board.iter().all(|r| r.iter().all(|c| c.is_none())));
}

#[test]
fn four_lines_score_twelve_hundred() {
    let mut b = Board::new(4, 4);
    for y in 0..4 {
        b.add_blocks(&[p(1, y), p(2, y), p(3, y), p(3, y)], Colour::Green);
    }
    let mut g = Tetris::with_board(b, 3);
    g.spawn_with(piece(TetrominoType::I, Orientation::Right, -2, 0));
    g.drop_tetromino();
    let s = g.ui_state();
    assert_eq!(s.score, 1200);
    assert!(s.board.iter().all(|r| r.iter().all(|c| c.is_none())));
}

#[test]
fn two_and_three_lines_score() {
    let mut b = Board::new(2, 4);
    b.add_blocks(&[p(1, 3), p(1, 3), p(1, 3), p(1, 3)], Colour::Green);
    let mut g = Tetris::with_board(b, 3);
    g.spawn_with(piece(TetrominoType::J, Orientation::Right, -1, 1));
    g.drop_tetromino();
    assert_eq!(g.score, 100);

    let mut b = Board::new(2, 4);
    b.add_blocks(&[p(1, 1), p(1, 2), p(1, 3), p(1, 3)], Colour::Green);
    let mut g = Tetris::with_board(b, 3);
    g.spawn_with(piece(TetrominoType::I, Orientation::Right, -2, 0));
    g.drop_tetromino();
    assert_eq!(g.score, 300);
}

#[test]
fn switch_with_keeps_place_where_it_fits() {
    let mut g = Tetris::new(10, 20, 3);
    g.spawn_with(piece(TetrominoType::T, Orientation::Up, 3, 5));
    g.switch_with(TetrominoType::O, Colour::Cyan);
    let s = g.ui_state();
    assert_eq!(s.tetromino_blocks, Some([p(3, 5), p(3, 6), p(4, 5), p(4, 6)]));
    assert_eq!(s.tetromino_colour, Some(Colour::Cyan));

    let mut g = Tetris::new(10, 20, 3);
    g.spawn_with(piece(TetrominoType::O, Orientation::Up, 7, 5));
    g.switch_with(TetrominoType::I, Colour::Cyan);
    assert_eq!(g.ui_state().tetromino_colour, Some(Colour::Magenta));
    g.switch_tetromino();
    assert!(g.ui_state().tetromino_blocks.is_some());
}

#[test]
fn seeded_spawners_agree_and_vary() {
    let mut a = TetrominoSpawner::new(42);
    let mut b = TetrominoSpawner::new(42);
    let mut kinds = std::collections::HashSet::new();
    for _ in 0..100 {
        let x = a.spawn();
        assert_eq!(x, b.spawn());
        assert_eq!(x.box_corner, p(5, 0));
        kinds.insert(format!("{:?}/{:?}", x.type_, x.orientation));
    }
    assert!(kinds.len() > 20);
}

#[test]
fn seeded_sessions_spawn_alike() {
    let mut a = Tetris::new(10, 20, 99);
    let mut b = Tetris::new(10, 20, 99);
    for _ in 0..5 {
        a.update();
        b.update();
        a.switch_tetromino();
        b.switch_tetromino();
        assert_eq!(snapshot(&a), snapshot(&b));
    }
}
