use vstd::prelude::*;

use crate::board::{all_free, cleared, compact, grid_wf, placed, row_full, Board, MAX_SIDE};
use crate::positions::add_spec;
use crate::spawner::{TetrominoSpawner, SPAWN_COLUMN};
use crate::tetramino_rules::{
    blocks_spec, candidates_spec, turned, lemma_offsets_in_box, moved, offsets_spec, views,
    TetrominoRules,
};
use crate::tetromino::{
    anticlockwise_of, clockwise_of, Colour, Orientation, Tetromino, TetrominoType,
};
use crate::ui::UIState;

verus! {

/// Every cell of the piece is on the board and empty.
pub open spec fn piece_fits(g: Seq<Seq<Option<Colour>>>, w: int, h: int, t: Tetromino) -> bool {
    all_free(g, w, h, blocks_spec(t))
}

/// Points for the rows removed by one lock-in.
pub open spec fn line_score(lines: int) -> int {
    if lines == 0 {
        0
    } else if lines == 1 {
        40
    } else if lines == 2 {
        100
    } else if lines == 3 {
        300
    } else if lines == 4 {
        1200
    } else {
        0
    }
}

/// A sum that stops at the largest `u32`.
pub open spec fn add_capped(a: int, b: int) -> int {
    if a + b > u32::MAX {
        u32::MAX as int
    } else {
        a + b
    }
}

/// The board after `t` is locked in: its cells coloured, full rows removed.
pub open spec fn locked(g: Seq<Seq<Option<Colour>>>, w: int, t: Tetromino) -> Seq<Seq<Option<Colour>>> {
    compact(placed(g, blocks_spec(t), t.colour), w as nat)
}

/// Rows removed when `t` is locked in.
pub open spec fn lock_lines(g: Seq<Seq<Option<Colour>>>, t: Tetromino) -> int {
    cleared(placed(g, blocks_spec(t), t.colour))
}

/// The first of the placements from index `i` on that fits, if any.
pub open spec fn first_fit_from(
    g: Seq<Seq<Option<Colour>>>,
    w: int,
    h: int,
    cs: Seq<Tetromino>,
    i: int,
) -> Option<Tetromino>
    decreases cs.len() - i,
{
    if i < 0 || i >= cs.len() {
        None
    } else if piece_fits(g, w, h, cs[i]) {
        Some(cs[i])
    } else {
        first_fit_from(g, w, h, cs, i + 1)
    }
}

/// Where turning `t` to `o` takes it: the first placement tried that fits.
pub open spec fn rotation_result(
    g: Seq<Seq<Option<Colour>>>,
    w: int,
    h: int,
    t: Tetromino,
    o: Orientation,
) -> Option<Tetromino> {
    first_fit_from(g, w, h, candidates_spec(t, o), 0)
}

/// Where `t` comes to rest when it falls as far as it fits.
pub open spec fn landed(g: Seq<Seq<Option<Colour>>>, w: int, h: int, t: Tetromino) -> Tetromino
    decreases h - t.box_corner.y,
{
    if t.box_corner.y < h && t.box_corner.y < i32::MAX && piece_fits(g, w, h, moved(t, (0, 1))) {
        landed(g, w, h, moved(t, (0, 1)))
    } else {
        t
    }
}

/// `r` is `s` after one step down of the falling piece of `s`: the piece moves
/// a row down where it fits there; else it is locked in, the full rows go, the
/// score grows by the points for them and no piece falls.
pub open spec fn stepped_down(s: Tetris, r: Tetris) -> bool {
    let t = s.active().unwrap();
    &&& r.width() == s.width()
    &&& r.height() == s.height()
    &&& r.over() == s.over()
    &&& if s.fits(moved(t, (0, 1))) {
        &&& r.active() == Some(moved(t, (0, 1)))
        &&& r.grid() == s.grid()
        &&& r.points() == s.points()
    } else {
        &&& r.active() is None
        &&& r.grid() == locked(s.grid(), s.width(), t)
        &&& r.points() == add_capped(s.points(), line_score(lock_lines(s.grid(), t)))
    }
}

/// `r` is `s` with its falling piece replaced by `n` where `n` fits, and
/// unchanged otherwise.
pub open spec fn replaced_if_fits(s: Tetris, r: Tetris, n: Tetromino) -> bool {
    &&& r.grid() == s.grid()
    &&& r.width() == s.width()
    &&& r.height() == s.height()
    &&& r.points() == s.points()
    &&& r.over() == s.over()
    &&& r.active() == if s.fits(n) {
        Some(n)
    } else {
        s.active()
    }
}

/// `r` is `s` after the falling piece of `s` was turned to `o`: it takes the
/// first placement tried that fits, and stays where it is if none does.
pub open spec fn rotated_to(s: Tetris, r: Tetris, o: Orientation) -> bool {
    let t = s.active().unwrap();
    &&& r.grid() == s.grid()
    &&& r.width() == s.width()
    &&& r.height() == s.height()
    &&& r.points() == s.points()
    &&& r.over() == s.over()
    &&& r.active() == match rotation_result(s.grid(), s.width(), s.height(), t, o) {
        Some(n) => Some(n),
        None => Some(t),
    }
}

/// `r` is `s` after its falling piece was dropped: locked in where it lands.
pub open spec fn dropped(s: Tetris, r: Tetris) -> bool {
    let l = landed(s.grid(), s.width(), s.height(), s.active().unwrap());
    &&& r.width() == s.width()
    &&& r.height() == s.height()
    &&& r.over() == s.over()
    &&& r.active() is None
    &&& r.grid() == locked(s.grid(), s.width(), l)
    &&& r.points() == add_capped(s.points(), line_score(lock_lines(s.grid(), l)))
}

/// The falling piece of `s` may act: there is one and the game goes on.
pub open spec fn in_play(s: Tetris) -> bool {
    !s.over() && s.active() is Some
}

/// The piece with another kind and colour, in the same place and orientation.
pub open spec fn rerolled(t: Tetromino, type_: TetrominoType, colour: Colour) -> Tetromino {
    Tetromino { type_, colour, ..t }
}

/// Turning a piece clockwise and then anticlockwise brings it back to where it
/// was, with the same orientation and box corner, whenever the turn in place
/// fits: that placement is always tried first.
pub proof fn lemma_rotation_round_trip(g: Seq<Seq<Option<Colour>>>, w: int, h: int, t: Tetromino)
    requires
        piece_fits(g, w, h, t),
        piece_fits(g, w, h, turned(t, clockwise_of(t.orientation))),
    ensures
        rotation_result(g, w, h, t, clockwise_of(t.orientation)) == Some(
            turned(t, clockwise_of(t.orientation)),
        ),
        rotation_result(
            g,
            w,
            h,
            turned(t, clockwise_of(t.orientation)),
            anticlockwise_of(clockwise_of(t.orientation)),
        ) == Some(t),
{
    let o = clockwise_of(t.orientation);
    let u = turned(t, o);
    crate::tetromino::lemma_turns_inverse(t.orientation);
    assert(candidates_spec(t, o)[0] == u);
    assert(turned(u, anticlockwise_of(o)) == t);
    assert(candidates_spec(u, anticlockwise_of(o))[0] == t);
}

/// A piece that fits has its box corner next to the board.
pub proof fn lemma_fits_corner(g: Seq<Seq<Option<Colour>>>, w: int, h: int, t: Tetromino)
    requires
        piece_fits(g, w, h, t),
    ensures
        -3 <= t.box_corner.x < w,
        -3 <= t.box_corner.y < h,
        w > 0,
        h > 0,
{
    lemma_offsets_in_box(t.type_, t.orientation, 0);
    assert(blocks_spec(t)[0] == add_spec(t.box_corner@, offsets_spec(t.type_, t.orientation)[0]));
}

/// Number of the points that lie above row `n`.
spec fn points_above(ps: Seq<(int, int)>, n: int) -> int {
    (if ps[0].1 < n { 1int } else { 0 }) + (if ps[1].1 < n { 1int } else { 0 }) + (if ps[2].1 < n {
        1int
    } else {
        0
    }) + (if ps[3].1 < n { 1int } else { 0 })
}

proof fn lemma_cleared_prefix(
    g: Seq<Seq<Option<Colour>>>,
    w: int,
    h: int,
    ps: Seq<(int, int)>,
    c: Colour,
    n: int,
)
    requires
        grid_wf(g, w, h),
        w > 0,
        ps.len() == 4,
        0 <= n <= h,
    ensures
        n - crate::board::kept_rows(placed(g, ps, c).take(n)).len() <= points_above(ps, n),
    decreases n,
{
    let q = placed(g, ps, c);
    if n > 0 {
        lemma_cleared_prefix(g, w, h, ps, c, n - 1);
        assert(q.take(n).drop_last() =~= q.take(n - 1));
        assert(q.take(n).last() == q[n - 1]);
        if row_full(q[n - 1]) {
            let y = n - 1;
            assert(!row_full(g[y]));
            let x = choose|x: int| 0 <= x < g[y].len() && !(#[trigger] g[y][x]).is_some();
            assert(q[y][x].is_some());
            assert(ps.contains((x, y)));
            let j = choose|j: int| 0 <= j < ps.len() && ps[j] == (x, y);
            assert(ps[j].1 == y);
        }
    }
}

/// Locking four cells into a compacted grid removes at most four rows.
proof fn lemma_lock_lines_bounded(
    g: Seq<Seq<Option<Colour>>>,
    w: int,
    h: int,
    ps: Seq<(int, int)>,
    c: Colour,
)
    requires
        grid_wf(g, w, h),
        w > 0,
        ps.len() == 4,
    ensures
        0 <= cleared(placed(g, ps, c)) <= 4,
{
    lemma_cleared_prefix(g, w, h, ps, c, h);
    let q = placed(g, ps, c);
    assert(q.take(h) =~= q);
    crate::board::lemma_kept_rows(q, w);
}

/// A lock-in removes at most four rows, and the score grows by 0, 40, 100, 300
/// or 1200 points for 0, 1, 2, 3 or 4 rows removed (where the sum stays within
/// `u32`).
pub proof fn lemma_lock_in_score(s: Tetris, r: Tetris)
    requires
        s.wf(),
        in_play(s),
        !s.fits(moved(s.active().unwrap(), (0, 1))),
        stepped_down(s, r),
        s.points() + 1200 <= u32::MAX,
    ensures
        0 <= lock_lines(s.grid(), s.active().unwrap()) <= 4,
        r.points() - s.points() == line_score(lock_lines(s.grid(), s.active().unwrap())),
        lock_lines(s.grid(), s.active().unwrap()) == 0 ==> r.points() == s.points(),
        lock_lines(s.grid(), s.active().unwrap()) == 1 ==> r.points() == s.points() + 40,
        lock_lines(s.grid(), s.active().unwrap()) == 2 ==> r.points() == s.points() + 100,
        lock_lines(s.grid(), s.active().unwrap()) == 3 ==> r.points() == s.points() + 300,
        lock_lines(s.grid(), s.active().unwrap()) == 4 ==> r.points() == s.points() + 1200,
{
    let t = s.active().unwrap();
    lemma_fits_corner(s.grid(), s.width(), s.height(), t);
    lemma_offsets_in_box(t.type_, t.orientation, 0);
    lemma_lock_lines_bounded(s.grid(), s.width(), s.height(), blocks_spec(t), t.colour);
}

/// A game in progress: the board, the falling piece if any, and the score.
pub struct Tetris {
    board: Board,
    current_tet: Option<Tetromino>,
    spawner: TetrominoSpawner,
    rules: TetrominoRules,
    pub score: u32,
    pub game_over: bool,
}

impl Tetris {
    /// Colours of the board's cells.
    pub closed spec fn grid(&self) -> Seq<Seq<Option<Colour>>> {
        self.board@
    }

    pub closed spec fn width(&self) -> int {
        self.board.spec_width()
    }

    pub closed spec fn height(&self) -> int {
        self.board.spec_height()
    }

    /// The falling piece, if any.
    pub closed spec fn active(&self) -> Option<Tetromino> {
        self.current_tet
    }

    pub closed spec fn points(&self) -> int {
        self.score as int
    }

    pub closed spec fn over(&self) -> bool {
        self.game_over
    }

    /// Whether `t` fits on this game's board.
    pub open spec fn fits(&self, t: Tetromino) -> bool {
        piece_fits(self.grid(), self.width(), self.height(), t)
    }

    /// The board is well formed and the falling piece fits on it.
    pub open spec fn wf(&self) -> bool {
        &&& grid_wf(self.grid(), self.width(), self.height())
        &&& self.width() <= MAX_SIDE
        &&& self.height() <= MAX_SIDE
        &&& self.points() <= u32::MAX
        &&& self.active() is Some ==> self.fits(self.active().unwrap())
    }

    /// Same board, piece, score and state.
    pub open spec fn same(&self, other: &Tetris) -> bool {
        &&& self.grid() == other.grid()
        &&& self.width() == other.width()
        &&& self.height() == other.height()
        &&& self.active() == other.active()
        &&& self.points() == other.points()
        &&& self.over() == other.over()
    }

    /// A new game on an empty board of `width` columns and `height` rows. The
    /// new pieces and the rerolls follow a fixed sequence for each `seed`.
    pub fn new(width: u32, height: u32, seed: u64) -> (r: Self)
        requires
            width <= MAX_SIDE,
            height <= MAX_SIDE,
        ensures
            r.wf(),
            r.width() == width,
            r.height() == height,
            r.grid() == Seq::new(height as nat, |y: int| crate::board::empty_row(width as nat)),
            r.active() is None,
            r.points() == 0,
            !r.over(),
    {
        Self::with_board(Board::new(width, height), seed)
    }

    /// A new game on the given board, with pieces and rerolls fixed by `seed`.
    pub fn with_board(board: Board, seed: u64) -> (r: Self)
        requires
            board.wf(),
        ensures
            r.wf(),
            r.grid() == board@,
            r.width() == board.spec_width(),
            r.height() == board.spec_height(),
            r.active() is None,
            r.points() == 0,
            !r.over(),
    {
        Self {
            board,
            current_tet: None,
            spawner: TetrominoSpawner::new(seed),
            rules: TetrominoRules::new(seed.wrapping_add(1)),
            score: 0,
            game_over: false,
        }
    }

    /// Whether `tetromino` fits on the board.
    fn valid(&self, tetromino: &Tetromino) -> (r: bool)
        requires
            self.board.shaped(),
        ensures
            r == self.fits(*tetromino),
    {
        let c = tetromino.box_corner;
        if c.x < -3 || c.y < -3 || c.x as i64 >= self.board.width() as i64 || c.y as i64
            >= self.board.height() as i64 {
            proof {
                if self.fits(*tetromino) {
                    lemma_fits_corner(self.grid(), self.width(), self.height(), *tetromino);
                }
            }
            return false;
        }
        let blocks = self.rules.blocks(tetromino);
        self.board.valid_position(&blocks)
    }

    /// Points for `lines` rows removed by one lock-in.
    pub fn score_for_lines(lines: u32) -> (r: u32)
        requires
            lines <= 4,
        ensures
            r == line_score(lines as int),
    {
        match lines {
            0 => 0,
            1 => 40,
            2 => 100,
            3 => 300,
            _ => 1200,
        }
    }

    /// One tick: the falling piece steps down; with none falling, a new piece
    /// from the supplier becomes the falling one, or the game ends where it
    /// does not fit.
    pub fn update(&mut self)
        requires
            old(self).wf(),
        ensures
            final(self).wf(),
            old(self).over() ==> final(self).same(old(self)),
            in_play(*old(self)) ==> stepped_down(*old(self), *final(self)),
            !old(self).over() && old(self).active() is None ==> {
                &&& final(self).grid() == old(self).grid()
                &&& final(self).width() == old(self).width()
                &&& final(self).height() == old(self).height()
                &&& final(self).points() == old(self).points()
                &&& exists|t: Tetromino|
                    #![trigger old(self).fits(t)]
                    t.box_corner@ == (SPAWN_COLUMN as int, 0int) && if old(self).fits(t) {
                        final(self).active() == Some(t) && !final(self).over()
                    } else {
                        final(self).active() is None && final(self).over()
                    }
            },
    {
        if self.game_over {
            return;
        }
        if self.current_tet.is_some() {
            self.move_tetromino_down();
        } else {
            let new = self.spawner.spawn();
            let ghost before = *self;
            self.spawn_with(new);
            assert(before.fits(new) ==> self.active() == Some(new) && !self.over());
            assert(!before.fits(new) ==> self.active() is None && self.over());
            assert(old(self).fits(new) == before.fits(new));
        }
    }

    /// Offers `tetromino` as the new falling piece while none falls: it is
    /// taken where it fits, and the game ends where it does not.
    pub fn spawn_with(&mut self, tetromino: Tetromino)
        requires
            old(self).wf(),
        ensures
            final(self).wf(),
            old(self).over() || old(self).active() is Some ==> final(self).same(old(self)),
            !old(self).over() && old(self).active() is None ==> {
                &&& final(self).grid() == old(self).grid()
                &&& final(self).width() == old(self).width()
                &&& final(self).height() == old(self).height()
                &&& final(self).points() == old(self).points()
                &&& if old(self).fits(tetromino) {
                    final(self).active() == Some(tetromino) && !final(self).over()
                } else {
                    final(self).active() is None && final(self).over()
                }
            },
    {
        if self.game_over || self.current_tet.is_some() {
            return;
        }
        if self.valid(&tetromino) {
            self.current_tet = Some(tetromino);
        } else {
            self.game_over = true;
        }
    }

    /// Moves the falling piece down a row, or locks it in where it cannot go
    /// lower.
    pub fn move_tetromino_down(&mut self)
        requires
            old(self).wf(),
        ensures
            final(self).wf(),
            !in_play(*old(self)) ==> final(self).same(old(self)),
            in_play(*old(self)) ==> stepped_down(*old(self), *final(self)),
    {
        if self.game_over {
            return;
        }
        match self.current_tet {
            Some(tet) => {
                proof {
                    lemma_fits_corner(self.grid(), self.width(), self.height(), tet);
                }
                let new = self.rules.move_down(&tet);
                if !self.valid(&new) {
                    let blocks = self.rules.blocks(&tet);
                    proof {
                        assert forall|i: int| 0 <= i < 4 implies crate::board::in_bounds(
                            #[trigger] blocks@[i]@,
                            self.width(),
                            self.height(),
                        ) by {
                            assert(views(blocks@)[i] == blocks@[i]@);
                        }
                        lemma_lock_lines_bounded(
                            self.grid(),
                            self.width(),
                            self.height(),
                            views(blocks@),
                            tet.colour,
                        );
                    }
                    let lines = self.board.add_blocks(&blocks, tet.colour);
                    self.score = self.score.saturating_add(Self::score_for_lines(lines));
                    self.current_tet = None;
                } else {
                    self.current_tet = Some(new);
                }
            },
            None => {},
        }
    }

    /// Adopts `new` as the falling piece where it fits.
    fn adopt_if_valid(&mut self, new: Tetromino)
        requires
            old(self).wf(),
            old(self).active() is Some,
        ensures
            final(self).wf(),
            replaced_if_fits(*old(self), *final(self), new),
    {
        if self.valid(&new) {
            self.current_tet = Some(new);
        }
    }

    /// The first of the placements offered for turning `tetromino` to
    /// `orientation` that fits, if any.
    fn try_rotation(&self, tetromino: &Tetromino, orientation: Orientation) -> (r: Option<Tetromino>)
        requires
            self.wf(),
            self.fits(*tetromino),
        ensures
            r == rotation_result(self.grid(), self.width(), self.height(), *tetromino, orientation),
            r is Some ==> self.fits(r.unwrap()),
    {
        proof {
            lemma_fits_corner(self.grid(), self.width(), self.height(), *tetromino);
        }
        let candidates = self.rules.rotate(tetromino, orientation);
        let ghost cs = candidates@;
        let ghost g = self.grid();
        let ghost w = self.width();
        let ghost h = self.height();
        let mut i: usize = 0;
        while i < candidates.len()
            invariant
                self.wf(),
                cs == candidates@,
                cs == candidates_spec(*tetromino, orientation),
                g == self.grid(),
                w == self.width(),
                h == self.height(),
                i <= cs.len(),
                first_fit_from(g, w, h, cs, 0) == first_fit_from(g, w, h, cs, i as int),
            decreases cs.len() - i,
        {
            if self.valid(&candidates[i]) {
                return Some(candidates[i]);
            }
            i = i + 1;
        }
        None
    }

    /// Turns the falling piece a quarter clockwise, taking the first offered
    /// placement that fits.
    pub fn rotate_clockwise(&mut self)
        requires
            old(self).wf(),
        ensures
            final(self).wf(),
            !in_play(*old(self)) ==> final(self).same(old(self)),
            in_play(*old(self)) ==> rotated_to(
                *old(self),
                *final(self),
                clockwise_of(old(self).active().unwrap().orientation),
            ),
    {
        if self.game_over {
            return;
        }
        if let Some(tet) = self.current_tet {
            let new_orientation = tet.orientation.rotate_clockwise();
            if let Some(new) = self.try_rotation(&tet, new_orientation) {
                self.current_tet = Some(new);
            }
        }
    }

    /// Turns the falling piece a quarter anticlockwise, taking the first
    /// offered placement that fits.
    pub fn rotate_anticlockwise(&mut self)
        requires
            old(self).wf(),
        ensures
            final(self).wf(),
            !in_play(*old(self)) ==> final(self).same(old(self)),
            in_play(*old(self)) ==> rotated_to(
                *old(self),
                *final(self),
                anticlockwise_of(old(self).active().unwrap().orientation),
            ),
    {
        if self.game_over {
            return;
        }
        if let Some(tet) = self.current_tet {
            let new_orientation = tet.orientation.rotate_anticlockwise();
            if let Some(new) = self.try_rotation(&tet, new_orientation) {
                self.current_tet = Some(new);
            }
        }
    }

    /// Moves the falling piece a column left where it fits there.
    pub fn move_tetromino_left(&mut self)
        requires
            old(self).wf(),
        ensures
            final(self).wf(),
            !in_play(*old(self)) ==> final(self).same(old(self)),
            in_play(*old(self)) ==> replaced_if_fits(
                *old(self),
                *final(self),
                moved(old(self).active().unwrap(), (-1, 0)),
            ),
    {
        if self.game_over {
            return;
        }
        if let Some(tet) = self.current_tet {
            proof {
                lemma_fits_corner(self.grid(), self.width(), self.height(), tet);
            }
            let new = self.rules.move_left(&tet);
            self.adopt_if_valid(new);
        }
    }

    /// Moves the falling piece a column right where it fits there.
    pub fn move_tetromino_right(&mut self)
        requires
            old(self).wf(),
        ensures
            final(self).wf(),
            !in_play(*old(self)) ==> final(self).same(old(self)),
            in_play(*old(self)) ==> replaced_if_fits(
                *old(self),
                *final(self),
                moved(old(self).active().unwrap(), (1, 0)),
            ),
    {
        if self.game_over {
            return;
        }
        if let Some(tet) = self.current_tet {
            proof {
                lemma_fits_corner(self.grid(), self.width(), self.height(), tet);
            }
            let new = self.rules.move_right(&tet);
            self.adopt_if_valid(new);
        }
    }

    /// Lets the falling piece fall as far as it fits and locks it in there.
    pub fn drop_tetromino(&mut self)
        requires
            old(self).wf(),
        ensures
            final(self).wf(),
            !in_play(*old(self)) ==> final(self).same(old(self)),
            in_play(*old(self)) ==> dropped(*old(self), *final(self)),
    {
        let ghost s0 = *self;
        let ghost target = landed(s0.grid(), s0.width(), s0.height(), s0.active().unwrap());
        while self.current_tet.is_some() && !self.game_over
            invariant
                self.wf(),
                target == landed(s0.grid(), s0.width(), s0.height(), s0.active().unwrap()),
                !in_play(s0) ==> self.same(&s0),
                in_play(s0) ==> {
                    &&& self.width() == s0.width()
                    &&& self.height() == s0.height()
                    &&& self.over() == s0.over()
                    &&& if self.active() is Some {
                        &&& self.grid() == s0.grid()
                        &&& self.points() == s0.points()
                        &&& landed(self.grid(), self.width(), self.height(), self.active().unwrap()) == target
                    } else {
                        dropped(s0, *self)
                    }
                },
            decreases
                (if self.active() is Some { self.height() - self.active().unwrap().box_corner.y } else { 0 }),
        {
            let ghost before = *self;
            let ghost t = self.active().unwrap();
            proof {
                lemma_fits_corner(self.grid(), self.width(), self.height(), t);
            }
            self.move_tetromino_down();
            proof {
                assert(stepped_down(before, *self));
                if self.active() is Some {
                    lemma_fits_corner(self.grid(), self.width(), self.height(), self.active().unwrap());
                    assert(landed(before.grid(), before.width(), before.height(), t) == landed(
                        before.grid(),
                        before.width(),
                        before.height(),
                        moved(t, (0, 1)),
                    ));
                } else {
                    assert(landed(before.grid(), before.width(), before.height(), t) == t);
                }
            }
        }
    }

    /// Gives the falling piece a freshly drawn kind and colour, kept only
    /// where the new piece fits in the same place and orientation.
    pub fn switch_tetromino(&mut self)
        requires
            old(self).wf(),
        ensures
            final(self).wf(),
            !in_play(*old(self)) ==> final(self).same(old(self)),
            in_play(*old(self)) ==> {
                &&& final(self).grid() == old(self).grid()
                &&& final(self).width() == old(self).width()
                &&& final(self).height() == old(self).height()
                &&& final(self).points() == old(self).points()
                &&& final(self).over() == old(self).over()
                &&& final(self).active() is Some
                &&& final(self).active().unwrap().box_corner == old(self).active().unwrap().box_corner
                &&& final(self).active().unwrap().orientation == old(self).active().unwrap().orientation
            },
    {
        if self.game_over {
            return;
        }
        if let Some(tet) = self.current_tet {
            let new = self.rules.switch(&tet);
            self.switch_with(new.type_, new.colour);
        }
    }

    /// Gives the falling piece kind `type_` and colour `colour`, kept only where
    /// the new piece fits in the same place and orientation.
    pub fn switch_with(&mut self, type_: TetrominoType, colour: Colour)
        requires
            old(self).wf(),
        ensures
            final(self).wf(),
            !in_play(*old(self)) ==> final(self).same(old(self)),
            in_play(*old(self)) ==> replaced_if_fits(
                *old(self),
                *final(self),
                rerolled(old(self).active().unwrap(), type_, colour),
            ),
    {
        if self.game_over {
            return;
        }
        if let Some(tet) = self.current_tet {
            let new = Tetromino { type_, colour, ..tet };
            self.adopt_if_valid(new);
        }
    }

    /// What a renderer needs: the board's colours, the falling piece's cells
    /// and colour, whether the game is over, and the score.
    pub fn ui_state(&self) -> (r: UIState)
        requires
            self.wf(),
        ensures
            r.board@.len() == self.grid().len(),
            forall|y: int| 0 <= y < r.board@.len() ==> (#[trigger] r.board@[y])@ == self.grid()[y],
            r.tetromino_blocks is Some <==> self.active() is Some,
            r.tetromino_blocks is Some ==> views(r.tetromino_blocks.unwrap()@) == blocks_spec(
                self.active().unwrap(),
            ),
            r.tetromino_colour == match self.active() {
                Some(t) => Some(t.colour),
                None => None::<Colour>,
            },
            r.game_over == self.over(),
            r.score == self.points(),
    {
        let blocks = match &self.current_tet {
            Some(t) => {
                proof {
                    lemma_fits_corner(self.grid(), self.width(), self.height(), *t);
                }
                Some(self.rules.blocks(t))
            },
            None => None,
        };
        let colour = match &self.current_tet {
            Some(t) => Some(t.colour),
            None => None,
        };
        UIState {
            board: self.board.draw(),
            tetromino_blocks: blocks,
            game_over: self.game_over,
            tetromino_colour: colour,
            score: self.score,
        }
    }
}

} // verus!
