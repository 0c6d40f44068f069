use tetris::board::{Board, Cell};
use tetris::positions::Position;
use tetris::tetromino::Colour;

fn p(x: i32, y: i32) -> Position {
    Position { x, y }
}

#[test]
fn cell_basics() {
    let mut c = Cell::new();
    assert!(!c.filled());
    c.set_colour(Colour::Blue);
    assert!(c.filled());
    assert_eq!(c.colour, Some(Colour::Blue));
}

#[test]
fn new_board_is_empty() {
    let b = Board::new(10, 20);
    let g = b.draw();
    assert_eq!(g.len(), 20);
    assert!(g.iter().all(|r| r.len() == 10 && r.iter().all(|c| c.is_none())));
    assert_eq!(b.width(), 10);
    assert_eq!(b.height(), 20);
}

#[test]
fn valid_position_checks_bounds_and_filled_cells() {
    let mut b = Board::new(10, 20);
    let inside = [p(0, 0), p(9, 0), p(0, 19), p(9, 19)];
    assert!(b.valid_position(&inside));
    assert!(!b.valid_position(&[p(-1, 0), p(1, 0), p(2, 0), p(3, 0)]));
    assert!(!b.valid_position(&[p(0, 0), p(10, 0), p(2, 0), p(3, 0)]));
    assert!(!b.valid_position(&[p(0, 0), p(1, 0), p(2, -1), p(3, 0)]));
    assert!(!b.valid_position(&[p(0, 0), p(1, 0), p(2, 0), p(3, 20)]));
    assert_eq!(b.add_blocks(&[p(4, 4), p(4, 5), p(5, 5), p(6, 5)], Colour::Red), 0);
    assert!(!b.valid_position(&[p(0, 0), p(1, 0), p(6, 5), p(3, 0)]));
    assert!(b.valid_position(&[p(5, 4), p(6, 4), p(7, 4), p(7, 5)]));
}

#[test]
fn add_blocks_colours_cells() {
    let mut b = Board::new(6, 5);
    let n = b.add_blocks(&[p(0, 4), p(1, 4), p(1, 3), p(2, 3)], Colour::Green);
    assert_eq!(n, 0);
    let g = b.draw();
    assert_eq!(g[4][0], Some(Colour::Green));
    assert_eq!(g[4][1], Some(Colour::Green));
    assert_eq!(g[3][1], Some(Colour::Green));
    assert_eq!(g[3][2], Some(Colour::Green));
    assert_eq!(g[4][2], None);
}

#[test]
fn filled_row_is_removed_and_empty_row_added_on_top() {
    let mut b = Board::new(4, 3);
    b.add_blocks(&[p(1, 1), p(1, 1), p(1, 1), p(1, 1)], Colour::Cyan);
    let n = b.add_blocks(&[p(0, 2), p(1, 2), p(2, 2), p(3, 2)], Colour::Red);
    assert_eq!(n, 1);
    let g = b.draw();
    assert_eq!(g.len(), 3);
    assert_eq!(g[0], vec![None, None, None, None]);
    assert_eq!(g[1], vec![None, None, None, None]);
    assert_eq!(g[2], vec![None, Some(Colour::Cyan), None, None]);
}

#[test]
fn completing_bottom_row_relocates_rows_above() {
    let mut b = Board::new(10, 20);
    b.add_blocks(&[p(0, 19), p(1, 19), p(2, 19), p(3, 19)], Colour::Red);
    b.add_blocks(&[p(4, 19), p(5, 19), p(6, 19), p(7, 19)], Colour::Red);
    b.add_blocks(&[p(8, 19), p(8, 19), p(8, 19), p(8, 19)], Colour::Red);
    b.add_blocks(&[p(3, 17), p(3, 18), p(4, 18), p(4, 18)], Colour::Blue);
    let before = b.draw();
    let n = b.add_blocks(&[p(9, 19), p(9, 18), p(9, 17), p(9, 16)], Colour::Yellow);
    assert_eq!(n, 1);
    let g = b.draw();
    assert_eq!(g.len(), 20);
    assert!(g[0].iter().all(|c| c.is_none()));
    assert_eq!(g[19][3], Some(Colour::Blue));
    assert_eq!(g[19][4], Some(Colour::Blue));
    assert_eq!(g[19][9], Some(Colour::Yellow));
    assert_eq!(g[19][0], None);
    assert_eq!(g[18][3], Some(Colour::Blue));
    assert_eq!(g[18][9], Some(Colour::Yellow));
    assert_eq!(g[17][9], Some(Colour::Yellow));
    for y in 1..16 {
        assert_eq!(g[y], before[y - 1]);
    }
}

#[test]
fn several_rows_cleared_at_once() {
    let mut b = Board::new(2, 4);
    b.add_blocks(&[p(0, 0), p(0, 0), p(0, 0), p(0, 0)], Colour::Red);
    let n = b.add_blocks(&[p(0, 2), p(1, 2), p(0, 3), p(1, 3)], Colour::Blue);
    assert_eq!(n, 2);
    let g = b.draw();
    assert_eq!(g[0], vec![None, None]);
    assert_eq!(g[1], vec![None, None]);
    assert_eq!(g[2], vec![Some(Colour::Red), None]);
    assert_eq!(g[3], vec![None, None]);
}
