//! The cell grid and the evolution rule.
use rayon::prelude::IntoParallelIterator;
use rayon::prelude::ParallelIterator;
use vstd::prelude::*;
use crate::display::chars_to_string;

verus! {

/// A rectangular matrix of cells, stored row by row; `true` is alive.
pub struct Grid {
    cells: Vec<Vec<bool>>,
}

impl View for Grid {
    type V = Seq<Seq<bool>>;

    closed spec fn view(&self) -> Seq<Seq<bool>> {
        self.cells@.map_values(|r: Vec<bool>| r@)
    }
}

/// At least one row and one column, and every row as long as the first.
pub open spec fn rect(g: Seq<Seq<bool>>) -> bool {
    &&& g.len() >= 1
    &&& g[0].len() >= 1
    &&& forall|y: int| 0 <= y < g.len() ==> #[trigger] g[y].len() == g[0].len()
}

pub open spec fn height_of(g: Seq<Seq<bool>>) -> nat {
    g.len()
}

pub open spec fn width_of(g: Seq<Seq<bool>>) -> nat {
    if g.len() == 0 { 0 } else { g[0].len() }
}

/// The cell at column `x`, row `y`; every cell outside the grid is dead.
pub open spec fn alive(g: Seq<Seq<bool>>, x: int, y: int) -> bool {
    0 <= y < g.len() && 0 <= x < g[y].len() && g[y][x]
}

pub open spec fn count(b: bool) -> nat {
    if b { 1 } else { 0 }
}

/// Live cells among the eight cells around `(x, y)`.
pub open spec fn neighbors(g: Seq<Seq<bool>>, x: int, y: int) -> nat {
    count(alive(g, x - 1, y - 1)) + count(alive(g, x, y - 1)) + count(alive(g, x + 1, y - 1))
        + count(alive(g, x - 1, y)) + count(alive(g, x + 1, y))
        + count(alive(g, x - 1, y + 1)) + count(alive(g, x, y + 1)) + count(alive(g, x + 1, y + 1))
}

/// A cell is born when exactly `birth` neighbours live; a live cell survives
/// when its neighbour count lies in `[live, birth)`; every other cell is dead.
pub open spec fn next_cell(g: Seq<Seq<bool>>, x: int, y: int, live: int, birth: int) -> bool {
    let n = neighbors(g, x, y) as int;
    n == birth || (alive(g, x, y) && live <= n && n < birth)
}

pub open spec fn next_row(g: Seq<Seq<bool>>, y: int, live: int, birth: int) -> Seq<bool> {
    Seq::new(width_of(g), |x: int| next_cell(g, x, y, live, birth))
}

/// The generation that follows `g`.
pub open spec fn next_gen(g: Seq<Seq<bool>>, live: int, birth: int) -> Seq<Seq<bool>> {
    Seq::new(height_of(g), |y: int| next_row(g, y, live, birth))
}

/// `g` cut or padded to `w` by `h`: the overlap at the top left is kept and
/// every new cell is dead.
pub open spec fn resized(g: Seq<Seq<bool>>, w: nat, h: nat) -> Seq<Seq<bool>> {
    Seq::new(h, |y: int| Seq::new(w, |x: int| alive(g, x, y)))
}

/// `g` with the cell at column `x`, row `y` flipped.
pub open spec fn toggled(g: Seq<Seq<bool>>, x: int, y: int) -> Seq<Seq<bool>> {
    g.update(y, g[y].update(x, !g[y][x]))
}

/// One row as text: `fg` for a live cell, `bg` for a dead one.
pub open spec fn row_text(r: Seq<bool>, fg: char, bg: char) -> Seq<char> {
    r.map_values(|b: bool| if b { fg } else { bg })
}

/// The rows as text, one line each, separated by `'\n'`.
pub open spec fn grid_text(g: Seq<Seq<bool>>, fg: char, bg: char) -> Seq<char>
    decreases g.len(),
{
    if g.len() == 0 {
        Seq::empty()
    } else if g.len() == 1 {
        row_text(g[0], fg, bg)
    } else {
        grid_text(g.drop_last(), fg, bg) + seq!['\n'] + row_text(g.last(), fg, bg)
    }
}

pub open spec fn blank(w: nat, h: nat) -> Seq<Seq<bool>> {
    Seq::new(h, |y: int| Seq::new(w, |x: int| false))
}

impl Grid {
    /// Flips the cell at column `col`, row `row`.
    pub fn toggle(&mut self, col: usize, row: usize)
        requires
            old(self).wf(),
            col < old(self).width(),
            row < old(self).height(),
        ensures
            final(self).wf(),
            final(self)@ == toggled(old(self)@, col as int, row as int),
    {
        assert(self@[row as int] == self.cells@[row as int]@);
        let v = self.cells[row][col];
        self.cells[row][col] = !v;
        assert(self@ =~= toggled(old(self)@, col as int, row as int));
    }

    /// Changes the size to `cols` by `rows`: the cells that the old and the
    /// new size share keep their value, new cells are dead, and the rest is
    /// dropped.
    pub fn resize(&mut self, cols: usize, rows: usize)
        requires
            old(self).wf(),
            cols >= 1,
            rows >= 1,
        ensures
            final(self).wf(),
            final(self)@ == resized(old(self)@, cols as nat, rows as nat),
    {
        let ghost g = self@;
        let ghost target = resized(g, cols as nat, rows as nat);
        self.cells.truncate(rows);
        let kept = self.cells.len();
        let mut y: usize = 0;
        while y < kept
            invariant
                target == resized(g, cols as nat, rows as nat),
                kept == self.cells@.len(),
                kept <= rows,
                kept == rows || kept == g.len(),
                kept <= g.len(),
                y <= kept,
                rect(g),
                forall|i: int| 0 <= i < y ==> #[trigger] self@[i] == target[i],
                forall|i: int| y <= i < kept ==> #[trigger] self@[i] == g[i],
            decreases kept - y,
        {
            let ghost before = self.cells@;
            let ghost prev = self@;
            assert(prev[y as int] == g[y as int]);
            assert(before[y as int]@ == g[y as int]);
            self.cells[y].resize(cols, false);
            assert forall|i: int| 0 <= i < kept && i != y implies #[trigger] self@[i] == prev[i] by {
                assert(self.cells@[i] == before[i]);
            }
            assert(forall|x: int| 0 <= x < cols ==> self.cells@[y as int]@[x] == alive(g, x, y as int));
            assert(self@[y as int] =~= target[y as int]);
            y += 1;
        }
        while y < rows
            invariant
                target == resized(g, cols as nat, rows as nat),
                kept <= y <= rows,
                self.cells@.len() == y,
                kept <= g.len(),
                kept == rows || kept == g.len(),
                forall|i: int| 0 <= i < y ==> #[trigger] self@[i] == target[i],
            decreases rows - y,
        {
            let row = vec![false; cols];
            assert(row@ =~= target[y as int]);
            let ghost prev = self@;
            let ghost before = self.cells@;
            self.cells.push(row);
            assert forall|i: int| 0 <= i < y implies #[trigger] self@[i] == prev[i] by {
                assert(self.cells@[i] == before[i]);
            }
            assert(self@[y as int] == row@);
            y += 1;
        }
        assert(self@ =~= target);
    }

    /// The grid as text, one line per row, `fg` for a live cell and `bg` for
    /// a dead one, lines separated by `'\n'`.
    pub fn render_text(&self, fg: char, bg: char) -> (r: String)
        requires
            self.wf(),
        ensures
            r@ == grid_text(self@, fg, bg),
    {
        let out = self.text_chars(fg, bg);
        chars_to_string(&out)
    }

    /// The characters of `render_text`.
    pub fn text_chars(&self, fg: char, bg: char) -> (r: Vec<char>)
        ensures
            r@ == grid_text(self@, fg, bg),
    {
        let mut out: Vec<char> = Vec::new();
        let h = self.cells.len();
        let mut y: usize = 0;
        while y < h
            invariant
                h == self@.len(),
                y <= h,
                out@ == grid_text(self@.take(y as int), fg, bg),
            decreases h - y,
        {
            let ghost start = out@;
            if y > 0 {
                out.push('\n');
            }
            let row = &self.cells[y];
            assert(row@ == self@[y as int]);
            let mut x: usize = 0;
            while x < row.len()
                invariant
                    x <= row@.len(),
                    out@ == start + (if y > 0 { seq!['\n'] } else { Seq::empty() }) + row_text(row@.take(x as int), fg, bg),
                decreases row@.len() - x,
            {
                let c = if row[x] { fg } else { bg };
                out.push(c);
                x += 1;
                assert(row_text(row@.take(x as int), fg, bg) =~= row_text(row@.take(x - 1), fg, bg).push(c));
            }
            assert(row@.take(x as int) =~= row@);
            assert(self@.take(y + 1).drop_last() =~= self@.take(y as int));
            assert(self@.take(y + 1).last() == self@[y as int]);
            if y == 0 {
                assert(out@ =~= grid_text(self@.take(y + 1), fg, bg));
            } else {
                assert(out@ =~= grid_text(self@.take(y + 1), fg, bg));
            }
            y += 1;
        }
        assert(self@.take(h as int) =~= self@);
        out
    }

    /// Live cells around column `x`, row `y`.
    fn neighbor_count(&self, x: usize, y: usize) -> (r: u32)
        requires
            self.wf(),
            x < self.width(),
            y < self.height(),
        ensures
            r == neighbors(self@, x as int, y as int),
    {
        let w = self.cols();
        let h = self.rows();
        assert(x + 1 <= w && y + 1 <= h);
        let mut n: u32 = 0;
        if y > 0 {
            if x > 0 && self.get(x - 1, y - 1) {
                n += 1;
            }
            if self.get(x, y - 1) {
                n += 1;
            }
            if self.get(x + 1, y - 1) {
                n += 1;
            }
        }
        if x > 0 && self.get(x - 1, y) {
            n += 1;
        }
        if self.get(x + 1, y) {
            n += 1;
        }
        if x > 0 && self.get(x - 1, y + 1) {
            n += 1;
        }
        if self.get(x, y + 1) {
            n += 1;
        }
        if self.get(x + 1, y + 1) {
            n += 1;
        }
        n
    }

    /// Row `y` of the next generation.
    pub fn step_row(&self, y: usize, live: u32, birth: u32) -> (r: Vec<bool>)
        requires
            self.wf(),
            y < self.height(),
        ensures
            r@ == next_row(self@, y as int, live as int, birth as int),
    {
        let w = self.cells[0].len();
        let mut out: Vec<bool> = Vec::new();
        let mut x: usize = 0;
        while x < w
            invariant
                self.wf(),
                y < self.height(),
                w == self.width(),
                x <= w,
                out@.len() == x,
                forall|i: int| 0 <= i < x ==> #[trigger] out@[i] == next_cell(self@, i, y as int, live as int, birth as int),
            decreases w - x,
        {
            let n = self.neighbor_count(x, y);
            let cell = n == birth || (self.get(x, y) && live <= n && n < birth);
            out.push(cell);
            x += 1;
        }
        assert(out@ =~= next_row(self@, y as int, live as int, birth as int));
        out
    }

    pub open spec fn wf(&self) -> bool {
        rect(self@)
    }

    pub open spec fn width(&self) -> nat {
        width_of(self@)
    }

    pub open spec fn height(&self) -> nat {
        height_of(self@)
    }

    /// An all-dead grid of `cols` columns and `rows` rows.
    pub fn new(cols: usize, rows: usize) -> (r: Grid)
        requires
            cols >= 1,
            rows >= 1,
        ensures
            r.wf(),
            r@ == blank(cols as nat, rows as nat),
    {
        let mut cells: Vec<Vec<bool>> = Vec::new();
        let mut y: usize = 0;
        while y < rows
            invariant
                y <= rows,
                cells@.len() == y,
                forall|i: int| 0 <= i < y ==> #[trigger] cells@[i]@ == Seq::new(cols as nat, |x: int| false),
            decreases rows - y,
        {
            let row = vec![false; cols];
            assert(row@ == Seq::new(cols as nat, |x: int| false));
            cells.push(row);
            y += 1;
        }
        let r = Grid { cells };
        assert(r@ =~= blank(cols as nat, rows as nat));
        r
    }

    pub fn cols(&self) -> (r: usize)
        requires
            self.wf(),
        ensures
            r == self.width(),
    {
        self.cells[0].len()
    }

    pub fn rows(&self) -> (r: usize)
        ensures
            r == self.height(),
    {
        self.cells.len()
    }

    /// The cell at column `col`, row `row`; `false` outside the grid.
    pub fn get(&self, col: usize, row: usize) -> (r: bool)
        ensures
            r == alive(self@, col as int, row as int),
    {
        if row < self.cells.len() && col < self.cells[row].len() {
            self.cells[row][col]
        } else {
            false
        }
    }
}

/// The next generation depends on the grid and the two thresholds alone:
/// equal grids give equal successors. (`step` reads its grid through a shared
/// reference, so the grid it is given stays as it was.)
pub proof fn lemma_step_deterministic(a: Grid, b: Grid, live: u32, birth: u32)
    requires
        a@ == b@,
    ensures
        next_gen(a@, live as int, birth as int) == next_gen(b@, live as int, birth as int),
{
}

/// A live cell with no live neighbour dies in one step whenever the birth
/// count and the survival threshold are both at least one; in particular the
/// only live cell of a grid dies.
pub proof fn lemma_lone_cell_dies(g: Seq<Seq<bool>>, x: int, y: int, live: int, birth: int)
    requires
        rect(g),
        0 <= y < g.len(),
        0 <= x < g[y].len(),
        forall|i: int, j: int| #[trigger] alive(g, i, j) ==> i == x && j == y,
        live >= 1,
        birth >= 1,
    ensures
        neighbors(g, x, y) == 0,
        !next_gen(g, live, birth)[y][x],
{
    assert(!alive(g, x - 1, y - 1) && !alive(g, x, y - 1) && !alive(g, x + 1, y - 1));
    assert(!alive(g, x - 1, y) && !alive(g, x + 1, y));
    assert(!alive(g, x - 1, y + 1) && !alive(g, x, y + 1) && !alive(g, x + 1, y + 1));
}

/// Resizing to `w2` by `h2` and back to the first size keeps every cell that
/// lay inside both sizes; every other cell comes back dead.
pub proof fn lemma_resize_round_trip(g: Seq<Seq<bool>>, w2: nat, h2: nat)
    requires
        rect(g),
        w2 >= 1,
        h2 >= 1,
    ensures
        ({
            let back = resized(resized(g, w2, h2), width_of(g), height_of(g));
            &&& back.len() == g.len()
            &&& forall|y: int| 0 <= y < g.len() ==> #[trigger] back[y].len() == g[y].len()
            &&& forall|x: int, y: int|
                0 <= y < g.len() && 0 <= x < g[y].len() ==> #[trigger] back[y][x] == (x < w2 && y < h2 && g[y][x])
        }),
{
    let mid = resized(g, w2, h2);
    let back = resized(mid, width_of(g), height_of(g));
    assert forall|y: int| 0 <= y < g.len() implies #[trigger] back[y].len() == g[y].len() by {
        assert(g[y].len() == g[0].len());
    }
    assert forall|x: int, y: int| 0 <= y < g.len() && 0 <= x < g[y].len() implies #[trigger] back[y][x] == (x < w2 && y < h2 && g[y][x]) by {
        assert(g[y].len() == g[0].len());
        assert(back[y][x] == alive(mid, x, y));
    }
}

/// Flipping the same cell twice gives back the grid.
pub proof fn lemma_toggle_twice(g: Seq<Seq<bool>>, x: int, y: int)
    requires
        0 <= y < g.len(),
        0 <= x < g[y].len(),
    ensures
        toggled(toggled(g, x, y), x, y) == g,
{
    assert(toggled(toggled(g, x, y), x, y)[y] =~= g[y]);
    assert(toggled(toggled(g, x, y), x, y) =~= g);
}

/// Relies on rayon's `into_par_iter` over a range and `collect` into a `Vec`:
/// an indexed parallel iterator collects its items in index order, so entry
/// `y` of the result is row `y` of the next generation.
#[verifier::external_body]
fn par_step_rows(g: &Grid, live: u32, birth: u32) -> (r: Vec<Vec<bool>>)
    requires
        g.wf(),
    ensures
        r@.len() == g.height(),
        forall|y: int| 0 <= y < r@.len() ==> #[trigger] r@[y]@ == next_row(g@, y, live as int, birth as int),
{
    (0..g.cells.len()).into_par_iter().map(|y| g.step_row(y, live, birth)).collect()
}

/// The next generation of `grid` under survival threshold `live` and birth
/// count `birth`; the rows are computed in parallel and `grid` is left as it is.
pub fn step(grid: &Grid, live: u32, birth: u32) -> (r: Grid)
    requires
        grid.wf(),
    ensures
        r.wf(),
        r@ == next_gen(grid@, live as int, birth as int),
{
    let cells = par_step_rows(grid, live, birth);
    let r = Grid { cells };
    assert(r@ =~= next_gen(grid@, live as int, birth as int));
    r
}

} // verus!
