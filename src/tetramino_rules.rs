use vstd::prelude::*;

use rand::rngs::StdRng;

use crate::positions::{add_spec, fits_i32, Position};
use crate::random::{draw_below, seeded_rng};
use crate::tetromino::{quarter_turns, Colour, Orientation, Tetromino, TetrominoType};

verus! {

/// The four board cells that a piece occupies.
pub type Blocks = [Position; 4];

type BlockOffsets = [Position; 4];

/// The points that a sequence of positions stands for.
pub open spec fn views(s: Seq<Position>) -> Seq<(int, int)> {
    s.map_values(|p: Position| p@)
}

/// Side of the square bounding box of a kind.
pub open spec fn box_size_spec(t: TetrominoType) -> int {
    match t {
        TetrominoType::I => 4,
        TetrominoType::O => 2,
        _ => 3,
    }
}

/// The box-local cells of a kind in its `Up` orientation.
pub open spec fn base_offsets_spec(t: TetrominoType) -> Seq<(int, int)> {
    match t {
        TetrominoType::I => seq![(0, 1), (1, 1), (2, 1), (3, 1)],
        TetrominoType::J => seq![(0, 0), (0, 1), (1, 1), (2, 1)],
        TetrominoType::L => seq![(0, 1), (1, 1), (2, 1), (2, 0)],
        TetrominoType::O => seq![(0, 0), (0, 1), (1, 0), (1, 1)],
        TetrominoType::S => seq![(0, 1), (1, 1), (1, 0), (2, 0)],
        TetrominoType::T => seq![(0, 1), (1, 1), (1, 0), (2, 1)],
        TetrominoType::Z => seq![(0, 0), (1, 0), (1, 1), (2, 1)],
    }
}

/// A clockwise quarter turn of a point inside a box of side `n`.
pub open spec fn rotate90(p: (int, int), n: int) -> (int, int) {
    (n - p.1 - 1, p.0)
}

/// `k` clockwise quarter turns of a point inside a box of side `n`.
pub open spec fn rotate_steps(p: (int, int), k: nat, n: int) -> (int, int)
    decreases k,
{
    if k == 0 {
        p
    } else {
        rotate90(rotate_steps(p, (k - 1) as nat, n), n)
    }
}

/// The box-local cells of a kind in an orientation.
pub open spec fn offsets_spec(t: TetrominoType, o: Orientation) -> Seq<(int, int)> {
    base_offsets_spec(t).map_values(|p: (int, int)| rotate_steps(p, quarter_turns(o), box_size_spec(t)))
}

/// The board cells occupied by a piece.
pub open spec fn blocks_spec(tet: Tetromino) -> Seq<(int, int)> {
    offsets_spec(tet.type_, tet.orientation).map_values(|p: (int, int)| add_spec(tet.box_corner@, p))
}

/// A point inside the box of side `n`.
pub open spec fn in_box(p: (int, int), n: int) -> bool {
    0 <= p.0 < n && 0 <= p.1 < n
}

/// A box corner from which every cell of a piece can be written as a `Position`.
pub open spec fn corner_fits(c: Position) -> bool {
    c.x <= i32::MAX - 3 && c.y <= i32::MAX - 3
}

/// Kick vectors of the J, L, S, T and Z kinds for a turn from `from` to `to`, in the order they are tried.
pub open spec fn jltsz_kicks_spec(from: Orientation, to: Orientation) -> Seq<(int, int)> {
    match (from, to) {
        (Orientation::Up, Orientation::Right) => seq![(-1, 0), (-1, 1), (0, -2), (-1, -2)],
        (Orientation::Right, Orientation::Up) => seq![(1, 0), (1, -1), (0, -2), (1, 2)],
        (Orientation::Right, Orientation::Down) => seq![(1, 0), (1, -1), (0, 2), (1, 2)],
        (Orientation::Down, Orientation::Right) => seq![(-1, 0), (-1, 1), (0, -2), (-1, -2)],
        (Orientation::Down, Orientation::Left) => seq![(1, 0), (1, 1), (0, -2), (1, -2)],
        (Orientation::Left, Orientation::Down) => seq![(-1, 0), (-1, -1), (0, -2), (-1, 2)],
        (Orientation::Left, Orientation::Up) => seq![(-1, 0), (-1, -1), (0, 2), (-1, 2)],
        (Orientation::Up, Orientation::Left) => seq![(1, 0), (1, 1), (0, -2), (1, -2)],
        _ => seq![],
    }
}

/// Kick vectors of the I kind for a turn from `from` to `to`, in the order they are tried.
pub open spec fn i_kicks_spec(from: Orientation, to: Orientation) -> Seq<(int, int)> {
    match (from, to) {
        (Orientation::Up, Orientation::Right) => seq![(-2, 0), (1, 0), (-2, -1), (1, 2)],
        (Orientation::Right, Orientation::Up) => seq![(2, 0), (-1, 0), (2, 1), (-1, -2)],
        (Orientation::Right, Orientation::Down) => seq![(-1, 0), (2, 0), (-1, 2), (2, -1)],
        (Orientation::Down, Orientation::Right) => seq![(1, 0), (-2, 0), (1, -2), (-2, 1)],
        (Orientation::Down, Orientation::Left) => seq![(2, 0), (-1, 0), (2, 1), (-1, -2)],
        (Orientation::Left, Orientation::Down) => seq![(-2, 0), (1, 0), (-2, -1), (1, 2)],
        (Orientation::Left, Orientation::Up) => seq![(1, 0), (-2, 0), (1, -2), (-2, 1)],
        (Orientation::Up, Orientation::Left) => seq![(-1, 0), (2, 0), (-1, 2), (2, -1)],
        _ => seq![],
    }
}

/// Kick vectors of a kind for a turn; the O kind has none.
pub open spec fn kicks_spec(t: TetrominoType, from: Orientation, to: Orientation) -> Seq<(int, int)> {
    match t {
        TetrominoType::I => i_kicks_spec(from, to),
        TetrominoType::O => seq![],
        _ => jltsz_kicks_spec(from, to),
    }
}

/// The piece with its box corner moved by `d`.
pub open spec fn moved(t: Tetromino, d: (int, int)) -> Tetromino {
    Tetromino {
        box_corner: Position { x: (t.box_corner.x + d.0) as i32, y: (t.box_corner.y + d.1) as i32 },
        ..t
    }
}

/// The piece turned in place to orientation `o`.
pub open spec fn turned(t: Tetromino, o: Orientation) -> Tetromino {
    Tetromino { orientation: o, ..t }
}

/// The placements tried when turning `t` to `o`: first in place, then moved by
/// each kick vector in order.
pub open spec fn candidates_spec(t: Tetromino, o: Orientation) -> Seq<Tetromino> {
    seq![turned(t, o)] + kicks_spec(t.type_, t.orientation, o).map_values(
        |k: (int, int)| moved(turned(t, o), k),
    )
}

/// A box corner that any kick vector can move without leaving `i32`.
pub open spec fn kick_fits(c: Position) -> bool {
    i32::MIN + 2 <= c.x <= i32::MAX - 2 && i32::MIN + 2 <= c.y <= i32::MAX - 2
}

proof fn lemma_rotate_steps_in_box(p: (int, int), k: nat, n: int)
    requires
        in_box(p, n),
    ensures
        in_box(rotate_steps(p, k, n), n),
    decreases k,
{
    if k > 0 {
        lemma_rotate_steps_in_box(p, (k - 1) as nat, n);
    }
}

/// Every offset of every kind and orientation lies inside the kind's box.
pub proof fn lemma_offsets_in_box(t: TetrominoType, o: Orientation, i: int)
    requires
        0 <= i < 4,
    ensures
        offsets_spec(t, o).len() == 4,
        in_box(offsets_spec(t, o)[i], box_size_spec(t)),
        in_box(offsets_spec(t, o)[i], 4),
{
    lemma_rotate_steps_in_box(base_offsets_spec(t)[i], quarter_turns(o), box_size_spec(t));
}


/// Piece geometry and movement, with the generator used to reroll a piece.
pub struct TetrominoRules {
    rng: StdRng,
}

impl TetrominoRules {
    /// Rules whose rerolls follow a fixed sequence for each `seed`.
    pub fn new(seed: u64) -> (r: Self) {
        Self { rng: seeded_rng(seed) }
    }

    /// The piece one row lower.
    pub fn move_down(&self, tetromino: &Tetromino) -> (r: Tetromino)
        requires
            tetromino.box_corner.y < i32::MAX,
        ensures
            r == moved(*tetromino, (0, 1)),
    {
        Tetromino { box_corner: tetromino.box_corner.add(Position { x: 0, y: 1 }), ..*tetromino }
    }

    /// The piece one column to the right.
    pub fn move_right(&self, tetromino: &Tetromino) -> (r: Tetromino)
        requires
            tetromino.box_corner.x < i32::MAX,
        ensures
            r == moved(*tetromino, (1, 0)),
    {
        Tetromino { box_corner: tetromino.box_corner.add(Position { x: 1, y: 0 }), ..*tetromino }
    }

    /// The piece one column to the left.
    pub fn move_left(&self, tetromino: &Tetromino) -> (r: Tetromino)
        requires
            tetromino.box_corner.x > i32::MIN,
        ensures
            r == moved(*tetromino, (-1, 0)),
    {
        Tetromino { box_corner: tetromino.box_corner.add(Position { x: -1, y: 0 }), ..*tetromino }
    }

    /// The piece with a freshly drawn kind and colour, in the same place and
    /// orientation.
    pub fn switch(&mut self, tetromino: &Tetromino) -> (r: Tetromino)
        ensures
            r.orientation == tetromino.orientation,
            r.box_corner == tetromino.box_corner,
    {
        let t = draw_below(&mut self.rng, 7);
        let c = draw_below(&mut self.rng, 6);
        Tetromino {
            type_: TetrominoType::from_index(t),
            colour: Colour::from_index(c),
            ..*tetromino
        }
    }

    /// Side of the square bounding box of a kind.
    fn box_size(type_: TetrominoType) -> (r: u32)
        ensures
            r as int == box_size_spec(type_),
    {
        match type_ {
            TetrominoType::I => 4,
            TetrominoType::O => 2,
            _ => 3,
        }
    }

    /// One clockwise quarter turn of a box-local point.
    pub fn rotate_offset_90(pos: Position, box_size: u32) -> (r: Position)
        requires
            fits_i32(rotate90(pos@, box_size as int)),
        ensures
            r@ == rotate90(pos@, box_size as int),
    {
        let x: i64 = box_size as i64 - pos.y as i64 - 1;
        Position { x: x as i32, y: pos.x }
    }

    /// Kick vectors of the J, L, S, T and Z kinds.
    fn jltsz_kicks(from: Orientation, to: Orientation) -> (r: Vec<Position>)
        ensures
            views(r@) == jltsz_kicks_spec(from, to),
    {
        let r = match (from, to) {
            (Orientation::Up, Orientation::Right) => vec![
                Position { x: -1, y: 0 },
                Position { x: -1, y: 1 },
                Position { x: 0, y: -2 },
                Position { x: -1, y: -2 },
            ],
            (Orientation::Right, Orientation::Up) => vec![
                Position { x: 1, y: 0 },
                Position { x: 1, y: -1 },
                Position { x: 0, y: -2 },
                Position { x: 1, y: 2 },
            ],
            (Orientation::Right, Orientation::Down) => vec![
                Position { x: 1, y: 0 },
                Position { x: 1, y: -1 },
                Position { x: 0, y: 2 },
                Position { x: 1, y: 2 },
            ],
            (Orientation::Down, Orientation::Right) => vec![
                Position { x: -1, y: 0 },
                Position { x: -1, y: 1 },
                Position { x: 0, y: -2 },
                Position { x: -1, y: -2 },
            ],
            (Orientation::Down, Orientation::Left) => vec![
                Position { x: 1, y: 0 },
                Position { x: 1, y: 1 },
                Position { x: 0, y: -2 },
                Position { x: 1, y: -2 },
            ],
            (Orientation::Left, Orientation::Down) => vec![
                Position { x: -1, y: 0 },
                Position { x: -1, y: -1 },
                Position { x: 0, y: -2 },
                Position { x: -1, y: 2 },
            ],
            (Orientation::Left, Orientation::Up) => vec![
                Position { x: -1, y: 0 },
                Position { x: -1, y: -1 },
                Position { x: 0, y: 2 },
                Position { x: -1, y: 2 },
            ],
            (Orientation::Up, Orientation::Left) => vec![
                Position { x: 1, y: 0 },
                Position { x: 1, y: 1 },
                Position { x: 0, y: -2 },
                Position { x: 1, y: -2 },
            ],
            _ => Vec::new(),
        };
        assert(views(r@) =~= jltsz_kicks_spec(from, to));
        r
    }

    /// Kick vectors of the I kind.
    fn i_kicks(from: Orientation, to: Orientation) -> (r: Vec<Position>)
        ensures
            views(r@) == i_kicks_spec(from, to),
    {
        let r = match (from, to) {
            (Orientation::Up, Orientation::Right) => vec![
                Position { x: -2, y: 0 },
                Position { x: 1, y: 0 },
                Position { x: -2, y: -1 },
                Position { x: 1, y: 2 },
            ],
            (Orientation::Right, Orientation::Up) => vec![
                Position { x: 2, y: 0 },
                Position { x: -1, y: 0 },
                Position { x: 2, y: 1 },
                Position { x: -1, y: -2 },
            ],
            (Orientation::Right, Orientation::Down) => vec![
                Position { x: -1, y: 0 },
                Position { x: 2, y: 0 },
                Position { x: -1, y: 2 },
                Position { x: 2, y: -1 },
            ],
            (Orientation::Down, Orientation::Right) => vec![
                Position { x: 1, y: 0 },
                Position { x: -2, y: 0 },
                Position { x: 1, y: -2 },
                Position { x: -2, y: 1 },
            ],
            (Orientation::Down, Orientation::Left) => vec![
                Position { x: 2, y: 0 },
                Position { x: -1, y: 0 },
                Position { x: 2, y: 1 },
                Position { x: -1, y: -2 },
            ],
            (Orientation::Left, Orientation::Down) => vec![
                Position { x: -2, y: 0 },
                Position { x: 1, y: 0 },
                Position { x: -2, y: -1 },
                Position { x: 1, y: 2 },
            ],
            (Orientation::Left, Orientation::Up) => vec![
                Position { x: 1, y: 0 },
                Position { x: -2, y: 0 },
                Position { x: 1, y: -2 },
                Position { x: -2, y: 1 },
            ],
            (Orientation::Up, Orientation::Left) => vec![
                Position { x: -1, y: 0 },
                Position { x: 2, y: 0 },
                Position { x: -1, y: 2 },
                Position { x: 2, y: -1 },
            ],
            _ => Vec::new(),
        };
        assert(views(r@) =~= i_kicks_spec(from, to));
        r
    }

    /// The box-local cells of a kind in its `Up` orientation.
    fn base_offsets(type_: TetrominoType) -> (r: BlockOffsets)
        ensures
            views(r@) == base_offsets_spec(type_),
    {
        let r = match type_ {
            TetrominoType::I => [
                Position { x: 0, y: 1 },
                Position { x: 1, y: 1 },
                Position { x: 2, y: 1 },
                Position { x: 3, y: 1 },
            ],
            TetrominoType::J => [
                Position { x: 0, y: 0 },
                Position { x: 0, y: 1 },
                Position { x: 1, y: 1 },
                Position { x: 2, y: 1 },
            ],
            TetrominoType::L => [
                Position { x: 0, y: 1 },
                Position { x: 1, y: 1 },
                Position { x: 2, y: 1 },
                Position { x: 2, y: 0 },
            ],
            TetrominoType::O => [
                Position { x: 0, y: 0 },
                Position { x: 0, y: 1 },
                Position { x: 1, y: 0 },
                Position { x: 1, y: 1 },
            ],
            TetrominoType::S => [
                Position { x: 0, y: 1 },
                Position { x: 1, y: 1 },
                Position { x: 1, y: 0 },
                Position { x: 2, y: 0 },
            ],
            TetrominoType::T => [
                Position { x: 0, y: 1 },
                Position { x: 1, y: 1 },
                Position { x: 1, y: 0 },
                Position { x: 2, y: 1 },
            ],
            TetrominoType::Z => [
                Position { x: 0, y: 0 },
                Position { x: 1, y: 0 },
                Position { x: 1, y: 1 },
                Position { x: 2, y: 1 },
            ],
        };
        assert(views(r@) =~= base_offsets_spec(type_));
        r
    }

    /// The box-local cells of a piece, derived from the `Up` table by turning.
    fn offsets(&self, tetromino: &Tetromino) -> (r: BlockOffsets)
        ensures
            views(r@) == offsets_spec(tetromino.type_, tetromino.orientation),
    {
        let base = Self::base_offsets(tetromino.type_);
        let n = Self::box_size(tetromino.type_);
        assert forall|i: int| 0 <= i < 4 implies in_box(#[trigger] base@[i]@, n as int) by {
            assert(base@[i]@ == views(base@)[i]);
        }
        let r = Self::rotate_offsets(&base, tetromino.orientation, n);
        assert(views(r@) =~= offsets_spec(tetromino.type_, tetromino.orientation)) by {
            assert forall|i: int| 0 <= i < 4 implies #[trigger] views(r@)[i] == offsets_spec(
                tetromino.type_,
                tetromino.orientation,
            )[i] by {
                assert(base@[i]@ == views(base@)[i]);
            }
        }
        r
    }

    /// The board cells occupied by a piece: its box corner plus each offset.
    pub fn blocks(&self, tetromino: &Tetromino) -> (r: Blocks)
        requires
            corner_fits(tetromino.box_corner),
        ensures
            views(r@) == blocks_spec(*tetromino),
    {
        let o = self.offsets(tetromino);
        let c = tetromino.box_corner;
        proof {
            assert forall|i: int| 0 <= i < 4 implies in_box(#[trigger] o@[i]@, 4) by {
                lemma_offsets_in_box(tetromino.type_, tetromino.orientation, i);
                assert(o@[i]@ == views(o@)[i]);
            }
        }
        let r = [c.add(o[0]), c.add(o[1]), c.add(o[2]), c.add(o[3])];
        assert(views(r@) =~= blocks_spec(*tetromino)) by {
            assert forall|i: int| 0 <= i < 4 implies #[trigger] views(r@)[i] == blocks_spec(
                *tetromino,
            )[i] by {
                assert(o@[i]@ == views(o@)[i]);
            }
        }
        r
    }

    /// Kick vectors for turning `tetromino` to `new_orientation`.
    fn kicks(&self, tetromino: &Tetromino, new_orientation: Orientation) -> (r: Vec<Position>)
        ensures
            views(r@) == kicks_spec(tetromino.type_, tetromino.orientation, new_orientation),
    {
        match tetromino.type_ {
            TetrominoType::I => Self::i_kicks(tetromino.orientation, new_orientation),
            TetrominoType::O => {
                let r = Vec::new();
                assert(views(r@) =~= seq![]);
                r
            },
            _ => Self::jltsz_kicks(tetromino.orientation, new_orientation),
        }
    }

    /// The placements to try, in order, when turning a piece to
    /// `new_orientation`: the turn in place, then the turn moved by each kick.
    pub fn rotate(&self, tetromino: &Tetromino, new_orientation: Orientation) -> (r: Vec<Tetromino>)
        requires
            tetromino.type_ == TetrominoType::O || kick_fits(tetromino.box_corner),
        ensures
            r@ == candidates_spec(*tetromino, new_orientation),
    {
        let base_rotation = Tetromino { orientation: new_orientation, ..*tetromino };
        let mut rotations = vec![base_rotation];
        let kicks = self.kicks(tetromino, new_orientation);
        let ghost ks = kicks_spec(tetromino.type_, tetromino.orientation, new_orientation);
        let ghost want = candidates_spec(*tetromino, new_orientation);
        assert(ks.len() == 0 || ks.len() == 4);
        assert(forall|j: int| 0 <= j < ks.len() ==> -2 <= #[trigger] ks[j].0 <= 2 && -2 <= ks[j].1 <= 2);
        assert(want.len() == ks.len() + 1);
        assert(forall|j: int| 0 <= j < ks.len() ==> #[trigger] want[j + 1] == moved(base_rotation, ks[j]));
        let mut i: usize = 0;
        while i < kicks.len()
            invariant
                i <= kicks@.len(),
                views(kicks@) == ks,
                tetromino.type_ == TetrominoType::O || kick_fits(tetromino.box_corner),
                forall|j: int| 0 <= j < ks.len() ==> -2 <= #[trigger] ks[j].0 <= 2 && -2 <= ks[j].1 <= 2,
                base_rotation == turned(*tetromino, new_orientation),
                want == candidates_spec(*tetromino, new_orientation),
                rotations@ == want.take(i + 1),
                want.len() == ks.len() + 1,
                forall|j: int| 0 <= j < ks.len() ==> #[trigger] want[j + 1] == moved(base_rotation, ks[j]),
            decreases kicks@.len() - i,
        {
            assert(kicks@[i as int]@ == ks[i as int]);
            let corner = tetromino.box_corner.add(kicks[i]);
            let kick_rotation = Tetromino { box_corner: corner, ..base_rotation };
            assert(kick_rotation == want[i + 1]);
            assert(want.take(i + 2) =~= want.take(i + 1).push(want[i + 1]));
            rotations.push(kick_rotation);
            i = i + 1;
        }
        assert(rotations@ =~= want);
        rotations
    }

    /// `quarter_turns(orientation)` clockwise quarter turns of a box-local point.
    fn rotate_offset(pos: Position, orientation: Orientation, box_size: u32) -> (r: Position)
        requires
            box_size <= 4,
            in_box(pos@, box_size as int),
        ensures
            r@ == rotate_steps(pos@, quarter_turns(orientation), box_size as int),
            in_box(r@, box_size as int),
    {
        proof {
            reveal_with_fuel(rotate_steps, 4);
        }
        match orientation {
            Orientation::Up => pos,
            Orientation::Right => Self::rotate_offset_90(pos, box_size),
            Orientation::Down => {
                let a = Self::rotate_offset_90(pos, box_size);
                Self::rotate_offset_90(a, box_size)
            },
            Orientation::Left => {
                let a = Self::rotate_offset_90(pos, box_size);
                let b = Self::rotate_offset_90(a, box_size);
                Self::rotate_offset_90(b, box_size)
            },
        }
    }

    /// The four offsets turned to `orientation`.
    fn rotate_offsets(offsets: &BlockOffsets, orientation: Orientation, box_size: u32) -> (r:
        BlockOffsets)
        requires
            box_size <= 4,
            forall|i: int| 0 <= i < 4 ==> in_box(#[trigger] offsets@[i]@, box_size as int),
        ensures
            forall|i: int|
                0 <= i < 4 ==> #[trigger] r@[i]@ == rotate_steps(
                    offsets@[i]@,
                    quarter_turns(orientation),
                    box_size as int,
                ),
    {
        let a = Self::rotate_offset(offsets[0], orientation, box_size);
        let b = Self::rotate_offset(offsets[1], orientation, box_size);
        let c = Self::rotate_offset(offsets[2], orientation, box_size);
        let d = Self::rotate_offset(offsets[3], orientation, box_size);
        let r = [a, b, c, d];
        assert(r@ =~= seq![a, b, c, d]);
        r
    }
}

/// Each piece occupies four distinct cells, which are its box corner plus the
/// `Up` table of its kind turned clockwise once per quarter turn of its
/// orientation.
pub proof fn lemma_blocks_distinct(tet: Tetromino)
    ensures
        blocks_spec(tet).len() == 4,
        forall|i: int, j: int| 0 <= i < j < 4 ==> blocks_spec(tet)[i] != blocks_spec(tet)[j],
        forall|i: int|
            0 <= i < 4 ==> #[trigger] blocks_spec(tet)[i] == add_spec(
                tet.box_corner@,
                rotate_steps(base_offsets_spec(tet.type_)[i], quarter_turns(tet.orientation), box_size_spec(tet.type_)),
            ),
{
    reveal_with_fuel(rotate_steps, 4);
    let o = offsets_spec(tet.type_, tet.orientation);
    assert(o[0] != o[1] && o[0] != o[2] && o[0] != o[3] && o[1] != o[2] && o[1] != o[3] && o[2] != o[3]);
}

/// A piece of the O kind is only ever offered the turn in place: no kick moves
/// its box corner, whatever the target orientation.
pub proof fn lemma_o_never_kicked(tet: Tetromino, o: Orientation)
    requires
        tet.type_ == TetrominoType::O,
    ensures
        candidates_spec(tet, o).len() == 1,
        forall|i: int| 0 <= i < candidates_spec(tet, o).len() ==> (#[trigger] candidates_spec(tet, o)[i]).box_corner == tet.box_corner,
{
    assert(candidates_spec(tet, o) =~= seq![turned(tet, o)]);
}

} // verus!
