//! The grid: one generation of cells, stored row by row.

use crate::cell::Cell;
use crate::parallel::par_rows;
use crate::source::draw_word;
use crate::rule::{follows, lemma_follows_keeps_shape, row_follows, rule_accepts};
use crate::text::{line, line_break, render};
use crate::torus::{
    count_around, height, is_torus, lemma_neighbour_count_unwrapped, neighbour_count, width,
};
use rand::Rng;
use vstd::prelude::*;

verus! {

/// Why a set of rows is not a grid.
#[derive(Debug, Clone, Copy, PartialEq, Eq, Structural)]
pub enum ShapeError {
    /// There is no row, or the first row has no cell.
    Empty,
    /// Some row is not as long as the first.
    Ragged,
}

/// One generation: `height` rows of `width` cells each, both at least one.
/// A grid is never changed; the next generation is a new grid.
pub struct Grid {
    cells: Vec<Vec<Cell>>,
}

impl View for Grid {
    type V = Seq<Seq<bool>>;

    /// The states of the cells, row by row.
    closed spec fn view(&self) -> Seq<Seq<bool>> {
        self.cells.deep_view()
    }
}

impl Grid {
    #[verifier::type_invariant]
    spec fn shaped(&self) -> bool {
        is_torus(self@)
    }

    /// Every grid is a torus. The type keeps this for executable values;
    /// proofs that speak of an arbitrary grid ask for it by this name.
    pub open spec fn wf(&self) -> bool {
        is_torus(self@)
    }

    /// What the view says of the stored rows: each stored row is as long as the
    /// grid is wide, and each stored cell has the state that the view shows.
    proof fn lemma_cell_states(&self)
        requires
            is_torus(self@),
        ensures
            self.cells@.len() == height(self@),
            forall|y: int| 0 <= y < height(self@) ==> (#[trigger] self.cells@[y])@.len() == width(self@),
            forall|y: int, x: int|
                0 <= y < height(self@) && 0 <= x < width(self@) ==> (#[trigger] self.cells@[y]@[x]).alive
                    == self@[y][x],
    {
        assert forall|y: int| 0 <= y < height(self@) implies (#[trigger] self.cells@[y])@.len() == width(
            self@,
        ) by {
            assert(self@[y].len() == self@[0].len());
        }
    }

    /// The grid that holds the given rows, if they form a rectangle with at
    /// least one cell. Rows with no cell in them, or no rows at all, are
    /// `Empty`; rows that start with a cell and are not all as long as the
    /// first are `Ragged`.
    pub fn from_rows(rows: Vec<Vec<Cell>>) -> (res: Result<Grid, ShapeError>)
        ensures
            match res {
                Ok(grid) => is_torus(rows.deep_view()) && grid@ == rows.deep_view(),
                Err(ShapeError::Empty) => height(rows.deep_view()) == 0 || width(rows.deep_view()) == 0,
                Err(ShapeError::Ragged) => height(rows.deep_view()) > 0 && width(rows.deep_view()) > 0
                    && !is_torus(rows.deep_view()),
            },
    {
        if rows.len() == 0 {
            return Err(ShapeError::Empty);
        }
        let w: usize = rows[0].len();
        if w == 0 {
            return Err(ShapeError::Empty);
        }
        let mut y: usize = 1;
        while y < rows.len()
            invariant
                1 <= y <= rows.len(),
                w == rows[0].len(),
                w > 0,
                forall|k: int| 0 <= k < y ==> (#[trigger] rows[k]).len() == w,
            decreases rows.len() - y,
        {
            if rows[y].len() != w {
                assert(rows.deep_view()[y as int].len() != rows.deep_view()[0].len());
                return Err(ShapeError::Ragged);
            }
            y += 1;
        }
        assert(is_torus(rows.deep_view()));
        Ok(Grid { cells: rows })
    }

    /// A grid of the given width and height, both at least one, in which the
    /// state of each cell is drawn from the random source: one word for each
    /// cell, row by row, and the cell is alive when its word is odd.
    ///
    /// Which cells are alive is up to the source; the contract states the
    /// shape of the grid, which holds whatever is drawn.
    pub fn random<R: Rng>(rng: R, width: usize, height: usize) -> (grid: Grid)
        requires
            width > 0,
            height > 0,
        ensures
            grid.wf(),
            crate::torus::width(grid@) == width,
            crate::torus::height(grid@) == height,
    {
        let mut rng = rng;
        let mut cells: Vec<Vec<Cell>> = Vec::new();
        let mut y: usize = 0;
        while y < height
            invariant
                y <= height,
                cells.len() == y,
                forall|k: int| 0 <= k < y ==> (#[trigger] cells[k]).len() == width,
            decreases height - y,
        {
            let mut row: Vec<Cell> = Vec::new();
            let mut x: usize = 0;
            while x < width
                invariant
                    x <= width,
                    row.len() == x,
                decreases width - x,
            {
                let word: u32 = draw_word(&mut rng);
                row.push(Cell::from_word(word));
                x += 1;
            }
            cells.push(row);
            y += 1;
        }
        assert(is_torus(cells.deep_view()));
        Grid { cells }
    }

    /// The rows of the grid.
    pub fn cells(&self) -> (rows: &Vec<Vec<Cell>>)
        ensures
            rows.deep_view() == self@,
    {
        &self.cells
    }

    /// The number of rows.
    pub fn height(&self) -> (h: usize)
        ensures
            h == height(self@),
            h > 0,
    {
        proof {
            use_type_invariant(self);
        }
        self.cells.len()
    }

    /// The number of cells in a row.
    pub fn width(&self) -> (w: usize)
        ensures
            w == width(self@),
            w > 0,
    {
        proof {
            use_type_invariant(self);
        }
        self.cells[0].len()
    }

    /// The cell in column `x` of row `y`.
    pub fn cell(&self, x: usize, y: usize) -> (cell: Cell)
        requires
            x < width(self@),
            y < height(self@),
        ensures
            cell.alive == self@[y as int][x as int],
    {
        proof {
            use_type_invariant(self);
            assert(self@[y as int].len() == self@[0].len());
        }
        self.cells[y][x]
    }

    /// The number of live cells among the eight neighbours of the cell in
    /// column `x` of row `y`, where the grid's edges join the opposite edges.
    pub fn neighbours(&self, x: usize, y: usize) -> (count: u8)
        requires
            x < width(self@),
            y < height(self@),
        ensures
            count == neighbour_count(self@, x as int, y as int),
            count <= 8,
    {
        proof {
            use_type_invariant(self);
            lemma_neighbour_count_unwrapped(self@, x as int, y as int);
        }
        let height: usize = self.cells.len();
        let width: usize = self.cells[0].len();
        let left: usize = if x > 0 { x - 1 } else { width - 1 };
        let right: usize = if x < width - 1 { x + 1 } else { 0 };
        let top: usize = if y > 0 { y - 1 } else { height - 1 };
        let bottom: usize = if y < height - 1 { y + 1 } else { 0 };
        self.live_around(left, x, right, top, y, bottom)
    }

    /// Counts the live cells among eight: three in row `top`, three in row
    /// `bottom`, and the two beside column `x` in row `y`.
    fn live_around(&self, left: usize, x: usize, right: usize, top: usize, y: usize, bottom: usize) -> (count:
        u8)
        requires
            left < width(self@),
            x < width(self@),
            right < width(self@),
            top < height(self@),
            y < height(self@),
            bottom < height(self@),
        ensures
            count == count_around(
                self@,
                left as int,
                x as int,
                right as int,
                top as int,
                y as int,
                bottom as int,
            ),
            count <= 8,
    {
        proof {
            use_type_invariant(self);
            self.lemma_cell_states();
        }
        let above = &self.cells[top];
        let beside = &self.cells[y];
        let below = &self.cells[bottom];
        (above[left].alive as u8) + (above[x].alive as u8) + (above[right].alive as u8)
            + (beside[left].alive as u8) + (beside[right].alive as u8)
            + (below[left].alive as u8) + (below[x].alive as u8) + (below[right].alive as u8)
    }

    /// Row `y` of the next generation under the given rule: the rule applied
    /// to each cell of row `y` and the number of its live neighbours.
    pub fn next_row<F>(&self, y: usize, rule: &F) -> (row: Vec<Cell>) where F: Fn(&Cell, u8) -> Cell
        requires
            y < height(self@),
            rule_accepts(*rule),
        ensures
            row_follows(self@, y as int, *rule, row.deep_view()),
    {
        proof {
            use_type_invariant(self);
            self.lemma_cell_states();
        }
        let w: usize = self.width();
        let mut row: Vec<Cell> = Vec::with_capacity(w);
        let mut x: usize = 0;
        while x < w
            invariant
                is_torus(self@),
                y < height(self@),
                w == width(self@),
                rule_accepts(*rule),
                x <= w,
                row.len() == x,
                forall|k: int|
                    0 <= k < x ==> call_ensures(
                        *rule,
                        (&Cell { alive: self@[y as int][k] }, neighbour_count(self@, k, y as int) as u8),
                        #[trigger] row[k],
                    ),
            decreases w - x,
        {
            proof {
                self.lemma_cell_states();
            }
            let count: u8 = self.neighbours(x, y);
            let cell = rule(&self.cells[y][x], count);
            row.push(cell);
            x += 1;
        }
        row
    }

    /// The next generation: every cell is replaced by what the rule gives for
    /// its state and the number of its live neighbours in this generation.
    /// This grid is left as it is. The rows are computed in parallel.
    pub fn next<F>(&self, cell_func: F) -> (grid: Grid) where F: Fn(&Cell, u8) -> Cell + Sync
        requires
            rule_accepts(cell_func),
        ensures
            grid.wf(),
            height(grid@) == height(self@),
            width(grid@) == width(self@),
            follows(self@, cell_func, grid@),
    {
        proof {
            use_type_invariant(self);
        }
        let rows = par_rows(self, &cell_func);
        proof {
            lemma_follows_keeps_shape(self@, cell_func, rows.deep_view());
        }
        Grid { cells: rows }
    }

    /// The next generation, as [`Grid::next`] gives it, computed row after row
    /// on the calling thread.
    pub fn next_sequential<F>(&self, cell_func: F) -> (grid: Grid) where F: Fn(&Cell, u8) -> Cell
        requires
            rule_accepts(cell_func),
        ensures
            grid.wf(),
            height(grid@) == height(self@),
            width(grid@) == width(self@),
            follows(self@, cell_func, grid@),
    {
        proof {
            use_type_invariant(self);
        }
        let h: usize = self.height();
        let mut rows: Vec<Vec<Cell>> = Vec::with_capacity(h);
        let mut y: usize = 0;
        while y < h
            invariant
                is_torus(self@),
                h == height(self@),
                rule_accepts(cell_func),
                y <= h,
                rows.len() == y,
                forall|k: int| 0 <= k < y ==> row_follows(self@, k, cell_func, (#[trigger] rows[k]).deep_view()),
            decreases h - y,
        {
            let row = self.next_row(y, &cell_func);
            rows.push(row);
            y += 1;
        }
        proof {
            assert(follows(self@, cell_func, rows.deep_view()));
            lemma_follows_keeps_shape(self@, cell_func, rows.deep_view());
        }
        Grid { cells: rows }
    }

    /// The grid as text: one line for each row, `'O'` for a live cell and a
    /// blank for a dead one, the lines joined by a carriage return and a line
    /// feed.
    pub fn to_text(&self) -> (text: String)
        ensures
            text@ == render(self@),
    {
        proof {
            use_type_invariant(self);
            self.lemma_cell_states();
        }
        let h: usize = self.height();
        let w: usize = self.width();
        let mut text = String::new();
        let mut y: usize = 0;
        while y < h
            invariant
                is_torus(self@),
                h == height(self@),
                w == width(self@),
                y <= h,
                text@ == render(self@.take(y as int)),
            decreases h - y,
        {
            if y > 0 {
                text.push('\r');
                text.push('\n');
            }
            let ghost head = text@;
            let mut x: usize = 0;
            while x < w
                invariant
                    is_torus(self@),
                    h == height(self@),
                    w == width(self@),
                    y < h,
                    x <= w,
                    text@ == head + line(self@[y as int]).take(x as int),
                decreases w - x,
            {
                proof {
                    self.lemma_cell_states();
                }
                text.push(self.cells[y][x].to_char());
                x += 1;
            }
            proof {
                let upto = self@.take(y + 1);
                assert(upto.drop_last() == self@.take(y as int));
                assert(upto.last() == self@[y as int]);
                assert(line(self@[y as int]).take(w as int) == line(self@[y as int]));
                if y > 0 {
                    assert(head == render(self@.take(y as int)) + line_break());
                } else {
                    assert(upto[0] == self@[0]);
                }
            }
            y += 1;
        }
        assert(self@.take(h as int) == self@);
        text
    }
}

} // verus!
