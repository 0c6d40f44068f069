use vstd::prelude::*;

use crate::positions::Position;
use crate::tetramino_rules::{views, Blocks};
use crate::tetromino::Colour;

verus! {

/// Largest board side. Every cell, and every box corner that a piece next to
/// the board can reach, must stay an `i32` position.
pub const MAX_SIDE: u32 = 0x7fff_0000;

/// One square of the board: filled iff it has a colour.
#[derive(Debug, Clone, Copy, PartialEq, Eq, Structural)]
pub struct Cell {
    pub colour: Option<Colour>,
}

impl Cell {
    pub fn new() -> (r: Self)
        ensures
            r.colour.is_none(),
    {
        Self { colour: None }
    }

    pub fn set_colour(&mut self, colour: Colour)
        ensures
            final(self).colour == Some(colour),
    {
        self.colour = Some(colour);
    }

    pub fn filled(&self) -> (r: bool)
        ensures
            r == self.colour.is_some(),
    {
        self.colour.is_some()
    }
}

/// The colours of a row of cells.
pub open spec fn row_view(row: Seq<Cell>) -> Seq<Option<Colour>> {
    row.map_values(|c: Cell| c.colour)
}

/// The colours of a grid of cells, row 0 at the top.
pub open spec fn grid_view(cells: Seq<Vec<Cell>>) -> Seq<Seq<Option<Colour>>> {
    cells.map_values(|r: Vec<Cell>| row_view(r@))
}

/// A row with every cell filled.
pub open spec fn row_full(row: Seq<Option<Colour>>) -> bool {
    forall|x: int| 0 <= x < row.len() ==> (#[trigger] row[x]).is_some()
}

/// A row of `w` empty cells.
pub open spec fn empty_row(w: nat) -> Seq<Option<Colour>> {
    Seq::new(w, |x: int| None)
}

/// The rows of `g` that are not full, in their order.
pub open spec fn kept_rows(g: Seq<Seq<Option<Colour>>>) -> Seq<Seq<Option<Colour>>>
    decreases g.len(),
{
    if g.len() == 0 {
        g
    } else if row_full(g.last()) {
        kept_rows(g.drop_last())
    } else {
        kept_rows(g.drop_last()).push(g.last())
    }
}

/// Number of full rows of `g`.
pub open spec fn cleared(g: Seq<Seq<Option<Colour>>>) -> int {
    g.len() - kept_rows(g).len()
}

/// `g` with its full rows removed and as many empty rows of width `w` put on top.
pub open spec fn compact(g: Seq<Seq<Option<Colour>>>, w: nat) -> Seq<Seq<Option<Colour>>> {
    Seq::new(cleared(g) as nat, |i: int| empty_row(w)) + kept_rows(g)
}

/// A point inside a `w` by `h` board.
pub open spec fn in_bounds(p: (int, int), w: int, h: int) -> bool {
    0 <= p.0 < w && 0 <= p.1 < h
}

/// A point inside the board whose cell is empty.
pub open spec fn cell_free(g: Seq<Seq<Option<Colour>>>, w: int, h: int, p: (int, int)) -> bool {
    in_bounds(p, w, h) && g[p.1][p.0].is_none()
}

/// Each of the points is inside the board and empty.
pub open spec fn all_free(g: Seq<Seq<Option<Colour>>>, w: int, h: int, ps: Seq<(int, int)>) -> bool {
    forall|i: int| 0 <= i < ps.len() ==> cell_free(g, w, h, #[trigger] ps[i])
}

/// `g` with each of the points given colour `c`.
pub open spec fn placed(g: Seq<Seq<Option<Colour>>>, ps: Seq<(int, int)>, c: Colour) -> Seq<
    Seq<Option<Colour>>,
> {
    Seq::new(
        g.len(),
        |y: int| Seq::new(g[y].len(), |x: int| if ps.contains((x, y)) { Some(c) } else { g[y][x] }),
    )
}

/// A grid of `h` rows of `w` cells.
pub open spec fn grid_shape(g: Seq<Seq<Option<Colour>>>, w: int, h: int) -> bool {
    &&& g.len() == h
    &&& forall|y: int| 0 <= y < h ==> (#[trigger] g[y]).len() == w
}

/// A grid of `h` rows of `w` cells. Once a grid has been compacted no row of it
/// is full, which a grid without columns cannot avoid.
pub open spec fn grid_wf(g: Seq<Seq<Option<Colour>>>, w: int, h: int) -> bool {
    &&& grid_shape(g, w, h)
    &&& w > 0 ==> forall|y: int| 0 <= y < h ==> !row_full(#[trigger] g[y])
}

/// The rows kept by compaction are rows of the grid that are not full.
pub proof fn lemma_kept_rows(g: Seq<Seq<Option<Colour>>>, w: int)
    requires
        forall|y: int| 0 <= y < g.len() ==> (#[trigger] g[y]).len() == w,
    ensures
        kept_rows(g).len() <= g.len(),
        forall|i: int|
            0 <= i < kept_rows(g).len() ==> (#[trigger] kept_rows(g)[i]).len() == w && !row_full(
                kept_rows(g)[i],
            ),
    decreases g.len(),
{
    if g.len() > 0 {
        lemma_kept_rows(g.drop_last(), w);
    }
}

proof fn lemma_kept_prefix(g: Seq<Seq<Option<Colour>>>, r: int, n: int)
    requires
        0 <= r < g.len(),
        0 <= n <= g.len(),
        row_full(g[r]),
        forall|y: int| 0 <= y < g.len() && y != r ==> !row_full(#[trigger] g[y]),
    ensures
        n <= r ==> kept_rows(g.take(n)) == g.take(n),
        n > r ==> kept_rows(g.take(n)) == g.take(r) + g.subrange(r + 1, n),
    decreases n,
{
    if n > 0 {
        lemma_kept_prefix(g, r, n - 1);
        assert(g.take(n).drop_last() =~= g.take(n - 1));
        assert(g.take(n).last() == g[n - 1]);
        if n <= r {
            assert(g.take(n - 1).push(g[n - 1]) =~= g.take(n));
        } else if n == r + 1 {
            assert(g.take(r) + g.subrange(r + 1, n) =~= g.take(r));
        } else {
            assert((g.take(r) + g.subrange(r + 1, n - 1)).push(g[n - 1]) =~= g.take(r) + g.subrange(r + 1, n));
        }
    } else {
        assert(g.take(0) =~= Seq::<Seq<Option<Colour>>>::empty());
    }
}

/// When exactly one row of a grid is full, compaction removes that row alone:
/// the count of removed rows is one, the number of rows is unchanged, an empty
/// row appears on top, the rows above the full one move down by one and the
/// rows below it stay where they were.
pub proof fn lemma_single_row_cleared(g: Seq<Seq<Option<Colour>>>, w: nat, r: int)
    requires
        forall|y: int| 0 <= y < g.len() ==> (#[trigger] g[y]).len() == w,
        0 <= r < g.len(),
        row_full(g[r]),
        forall|y: int| 0 <= y < g.len() && y != r ==> !row_full(#[trigger] g[y]),
    ensures
        cleared(g) == 1,
        compact(g, w).len() == g.len(),
        compact(g, w)[0] == empty_row(w),
        forall|y: int| 0 <= y < r ==> #[trigger] compact(g, w)[y + 1] == g[y],
        forall|y: int| r < y < g.len() ==> #[trigger] compact(g, w)[y] == g[y],
{
    lemma_kept_prefix(g, r, g.len() as int);
    assert(g.take(g.len() as int) =~= g);
    let c = compact(g, w);
    assert forall|y: int| 0 <= y < r implies #[trigger] c[y + 1] == g[y] by {
        assert(kept_rows(g)[y] == g[y]);
    }
    assert forall|y: int| r < y < g.len() implies #[trigger] c[y] == g[y] by {
        assert(kept_rows(g)[y - 1] == g.subrange(r + 1, g.len() as int)[y - 1 - r]);
    }
}

/// The playing field: `height` rows of `width` cells, row 0 at the top.
#[derive(Debug)]
pub struct Board {
    width: u32,
    height: u32,
    cells: Vec<Vec<Cell>>,
}

impl View for Board {
    type V = Seq<Seq<Option<Colour>>>;

    closed spec fn view(&self) -> Seq<Seq<Option<Colour>>> {
        grid_view(self.cells@)
    }
}

impl Board {
    pub closed spec fn spec_width(&self) -> int {
        self.width as int
    }

    pub closed spec fn spec_height(&self) -> int {
        self.height as int
    }

    /// Rows and columns as stated, before compaction.
    pub open spec fn shaped(&self) -> bool {
        &&& grid_shape(self@, self.spec_width(), self.spec_height())
        &&& self.spec_width() <= MAX_SIDE
        &&& self.spec_height() <= MAX_SIDE
    }

    pub open spec fn wf(&self) -> bool {
        &&& grid_wf(self@, self.spec_width(), self.spec_height())
        &&& self.spec_width() <= MAX_SIDE
        &&& self.spec_height() <= MAX_SIDE
    }

    /// An empty board.
    pub fn new(width: u32, height: u32) -> (r: Self)
        requires
            width <= MAX_SIDE,
            height <= MAX_SIDE,
        ensures
            r.wf(),
            r.spec_width() == width,
            r.spec_height() == height,
            r@ == Seq::new(height as nat, |y: int| empty_row(width as nat)),
    {
        let cells = Self::new_grid(width, height);
        let r = Self { width, height, cells };
        assert(r@ =~= Seq::new(height as nat, |y: int| empty_row(width as nat)));
        assert forall|y: int| 0 <= y < height && width > 0 implies !row_full(#[trigger] r@[y]) by {
            assert(r@[y][0].is_none());
        }
        r
    }

    /// A row of `width` empty cells.
    fn new_row(width: u32) -> (r: Vec<Cell>)
        ensures
            row_view(r@) == empty_row(width as nat),
    {
        let mut row: Vec<Cell> = Vec::new();
        let mut x: u32 = 0;
        while x < width
            invariant
                x <= width,
                row@.len() == x,
                forall|i: int| 0 <= i < x ==> (#[trigger] row@[i]).colour.is_none(),
            decreases width - x,
        {
            row.push(Cell::new());
            x = x + 1;
        }
        assert(row_view(row@) =~= empty_row(width as nat));
        row
    }

    /// `height` rows of `width` empty cells.
    fn new_grid(width: u32, height: u32) -> (r: Vec<Vec<Cell>>)
        ensures
            grid_view(r@) == Seq::new(height as nat, |y: int| empty_row(width as nat)),
    {
        let mut grid: Vec<Vec<Cell>> = Vec::new();
        let mut y: u32 = 0;
        while y < height
            invariant
                y <= height,
                grid@.len() == y,
                forall|i: int| 0 <= i < y ==> row_view((#[trigger] grid@[i])@) == empty_row(width as nat),
            decreases height - y,
        {
            grid.push(Self::new_row(width));
            y = y + 1;
        }
        assert(grid_view(grid@) =~= Seq::new(height as nat, |y: int| empty_row(width as nat)));
        grid
    }

    pub fn width(&self) -> (r: u32)
        ensures
            r == self.spec_width(),
    {
        self.width
    }

    pub fn height(&self) -> (r: u32)
        ensures
            r == self.spec_height(),
    {
        self.height
    }

    /// Whether each cell is inside the board and empty.
    pub fn valid_position(&self, blocks: &Blocks) -> (r: bool)
        requires
            self.shaped(),
        ensures
            r == all_free(self@, self.spec_width(), self.spec_height(), views(blocks@)),
    {
        let ghost ps = views(blocks@);
        let mut i: usize = 0;
        while i < 4
            invariant
                i <= 4,
                self.shaped(),
                ps == views(blocks@),
                forall|j: int| 0 <= j < i ==> cell_free(self@, self.spec_width(), self.spec_height(), #[trigger] ps[j]),
            decreases 4 - i,
        {
            assert(ps[i as int] == blocks@[i as int]@);
            match self.get_cell(&blocks[i]) {
                Some(cell) => {
                    if cell.filled() {
                        return false;
                    }
                },
                None => {
                    return false;
                },
            }
            i = i + 1;
        }
        true
    }

    /// Gives each cell the colour, then removes the rows that became full;
    /// returns how many were removed.
    pub fn add_blocks(&mut self, blocks: &Blocks, colour: Colour) -> (r: u32)
        requires
            old(self).wf(),
            forall|i: int|
                0 <= i < 4 ==> in_bounds(
                    #[trigger] blocks@[i]@,
                    old(self).spec_width(),
                    old(self).spec_height(),
                ),
        ensures
            final(self).wf(),
            final(self).spec_width() == old(self).spec_width(),
            final(self).spec_height() == old(self).spec_height(),
            final(self)@ == compact(placed(old(self)@, views(blocks@), colour), old(self).spec_width() as nat),
            r == cleared(placed(old(self)@, views(blocks@), colour)),
    {
        let ghost g0 = self@;
        let ghost ps = views(blocks@);
        let mut i: usize = 0;
        assert(placed(g0, ps.take(0), colour) =~= g0) by {
            assert forall|y: int| 0 <= y < g0.len() implies #[trigger] placed(g0, ps.take(0), colour)[y] =~= g0[y] by {
            }
        }
        while i < 4
            invariant
                i <= 4,
                self.shaped(),
                self.spec_width() == old(self).spec_width(),
                self.spec_height() == old(self).spec_height(),
                g0 == old(self)@,
                ps == views(blocks@),
                forall|j: int| 0 <= j < 4 ==> in_bounds(#[trigger] blocks@[j]@, self.spec_width(), self.spec_height()),
                self@ == placed(g0, ps.take(i as int), colour),
            decreases 4 - i,
        {
            let ghost before = self@;
            assert(ps[i as int] == blocks@[i as int]@);
            self.set_cell(&blocks[i], colour);
            proof {
                let p = ps[i as int];
                let want = placed(g0, ps.take(i + 1), colour);
                assert forall|y: int| 0 <= y < g0.len() implies #[trigger] self@[y] =~= want[y] by {
                    assert forall|x: int| 0 <= x < g0[y].len() implies self@[y][x] == want[y][x] by {
                        assert(ps.take(i + 1) =~= ps.take(i as int).push(p));
                        assert(ps.take(i + 1).contains((x, y)) == (ps.take(i as int).contains((x, y)) || p == (x, y))) by {
                            if p == (x, y) {
                                assert(ps.take(i + 1)[i as int] == p);
                            }
                            if ps.take(i as int).contains((x, y)) {
                                let k = choose|k: int| 0 <= k < i && ps.take(i as int)[k] == (x, y);
                                assert(ps.take(i + 1)[k] == (x, y));
                            }
                        }
                    }
                }
                assert(self@ =~= want);
            }
            i = i + 1;
        }
        assert(ps.take(4) =~= ps);
        self.remove_full_rows()
    }

    /// A copy of the colours of every cell, row by row.
    pub fn draw(&self) -> (r: Vec<Vec<Option<Colour>>>)
        requires
            self.shaped(),
        ensures
            r@.len() == self@.len(),
            forall|y: int| 0 <= y < r@.len() ==> (#[trigger] r@[y])@ == self@[y],
    {
        let mut out: Vec<Vec<Option<Colour>>> = Vec::new();
        let mut y: usize = 0;
        while y < self.cells.len()
            invariant
                y <= self.cells@.len(),
                out@.len() == y,
                forall|j: int| 0 <= j < y ==> (#[trigger] out@[j])@ == self@[j],
            decreases self.cells@.len() - y,
        {
            let row = &self.cells[y];
            let mut line: Vec<Option<Colour>> = Vec::new();
            let mut x: usize = 0;
            while x < row.len()
                invariant
                    x <= row@.len(),
                    row == &self.cells@[y as int],
                    line@.len() == x,
                    forall|k: int| 0 <= k < x ==> #[trigger] line@[k] == row@[k].colour,
                decreases row@.len() - x,
            {
                line.push(row[x].colour);
                x = x + 1;
            }
            assert(line@ =~= self@[y as int]);
            out.push(line);
            y = y + 1;
        }
        out
    }

    /// Removes every full row, keeps the others in order and puts as many
    /// empty rows on top; returns how many rows were removed.
    fn remove_full_rows(&mut self) -> (r: u32)
        requires
            old(self).shaped(),
        ensures
            final(self).wf(),
            final(self).spec_width() == old(self).spec_width(),
            final(self).spec_height() == old(self).spec_height(),
            final(self)@ == compact(old(self)@, old(self).spec_width() as nat),
            r == cleared(old(self)@),
    {
        let ghost g = self@;
        let ghost w = self.spec_width();
        let mut kept: Vec<Vec<Cell>> = Vec::new();
        let mut removed: u32 = 0;
        let mut y: usize = 0;
        proof {
            lemma_kept_rows(g, w);
        }
        while y < self.cells.len()
            invariant
                y <= self.cells@.len(),
                self.shaped(),
                g == self@,
                w == self.spec_width(),
                grid_view(kept@) == kept_rows(g.take(y as int)),
                removed + kept@.len() == y,
                removed <= y,
                forall|j: int| 0 <= j < kept@.len() ==> (#[trigger] kept@[j])@.len() == w,
            decreases self.cells@.len() - y,
        {
            assert(g.take(y + 1).drop_last() =~= g.take(y as int));
            assert(g.take(y + 1).last() == g[y as int]);
            if Self::row_is_full(&self.cells[y]) {
                removed = removed + 1;
            } else {
                let row = Self::copy_row(&self.cells[y]);
                kept.push(row);
                assert(grid_view(kept@) =~= kept_rows(g.take(y + 1)));
            }
            y = y + 1;
        }
        assert(g.take(y as int) =~= g);
        let mut rows: Vec<Vec<Cell>> = Vec::new();
        let mut i: u32 = 0;
        while i < removed
            invariant
                i <= removed,
                w == self.spec_width(),
                rows@.len() == i,
                forall|j: int| 0 <= j < i ==> row_view((#[trigger] rows@[j])@) == empty_row(w as nat),
            decreases removed - i,
        {
            rows.push(Self::new_row(self.width));
            i = i + 1;
        }
        let ghost top = rows@;
        let ghost kept_v = kept@;
        rows.append(&mut kept);
        self.cells = rows;
        assert(self@ =~= compact(g, w as nat)) by {
            assert forall|j: int| 0 <= j < self@.len() implies #[trigger] self@[j] == compact(g, w as nat)[j] by {
                if j >= removed {
                    assert(self.cells@[j] == kept_v[j - removed]);
                } else {
                    assert(self.cells@[j] == top[j]);
                }
            }
        }
        proof {
            lemma_kept_rows(g, w);
            assert forall|j: int| 0 <= j < self@.len() implies (#[trigger] self@[j]).len() == w by {
            }
            if w > 0 {
                assert forall|j: int| 0 <= j < self@.len() implies !row_full(#[trigger] self@[j]) by {
                    if j < removed {
                        assert(self@[j][0].is_none());
                    }
                }
            }
        }
        removed
    }

    /// Whether every cell of the row is filled.
    fn row_is_full(row: &Vec<Cell>) -> (r: bool)
        ensures
            r == row_full(row_view(row@)),
    {
        let mut x: usize = 0;
        while x < row.len()
            invariant
                x <= row@.len(),
                forall|k: int| 0 <= k < x ==> (#[trigger] row@[k]).colour.is_some(),
            decreases row@.len() - x,
        {
            if !row[x].filled() {
                assert(row_view(row@)[x as int].is_none());
                return false;
            }
            x = x + 1;
        }
        assert forall|k: int| 0 <= k < row_view(row@).len() implies (#[trigger] row_view(row@)[k]).is_some() by {
            assert(row@[k].colour.is_some());
        }
        true
    }

    /// A cell-by-cell copy of a row.
    fn copy_row(row: &Vec<Cell>) -> (r: Vec<Cell>)
        ensures
            r@ == row@,
    {
        let mut out: Vec<Cell> = Vec::new();
        let mut x: usize = 0;
        while x < row.len()
            invariant
                x <= row@.len(),
                out@ == row@.take(x as int),
            decreases row@.len() - x,
        {
            out.push(row[x]);
            x = x + 1;
            assert(out@ =~= row@.take(x as int));
        }
        assert(row@.take(x as int) =~= row@);
        out
    }

    /// The cell at `pos`, if it is on the board.
    fn get_cell(&self, pos: &Position) -> (r: Option<&Cell>)
        requires
            self.shaped(),
        ensures
            r.is_some() == in_bounds(pos@, self.spec_width(), self.spec_height()),
            r.is_some() ==> r.unwrap().colour == self@[pos.y as int][pos.x as int],
    {
        if pos.x < 0 || pos.y < 0 {
            return None;
        }
        let x = pos.x as usize;
        let y = pos.y as usize;
        if y < self.cells.len() && x < self.cells[y].len() {
            assert(self@[y as int] == row_view(self.cells@[y as int]@));
            Some(&self.cells[y][x])
        } else {
            assert(y < self.cells@.len() ==> self@[y as int].len() == self.cells@[y as int]@.len());
            None
        }
    }

    /// Gives the cell at `pos` the colour.
    fn set_cell(&mut self, pos: &Position, colour: Colour)
        requires
            old(self).shaped(),
            in_bounds(pos@, old(self).spec_width(), old(self).spec_height()),
        ensures
            final(self).shaped(),
            final(self).spec_width() == old(self).spec_width(),
            final(self).spec_height() == old(self).spec_height(),
            final(self)@ == old(self)@.update(
                pos.y as int,
                old(self)@[pos.y as int].update(pos.x as int, Some(colour)),
            ),
    {
        let x = pos.x as usize;
        let y = pos.y as usize;
        assert(self@[y as int].len() == self.cells@[y as int]@.len());
        let mut row = Self::copy_row(&self.cells[y]);
        row.set(x, Cell { colour: Some(colour) });
        assert(row_view(row@) =~= old(self)@[y as int].update(x as int, Some(colour)));
        self.cells.set(y, row);
        assert(self@ =~= old(self)@.update(
            pos.y as int,
            old(self)@[pos.y as int].update(pos.x as int, Some(colour)),
        ));
    }
}

} // verus!
