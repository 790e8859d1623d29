//! The mathematical model of a generation: a rectangle of cell states whose
//! edges are glued to the opposite edges.
//!
//! A generation is a `Seq<Seq<bool>>`: a sequence of rows, each a sequence of
//! states, `true` for alive. Row `y`, column `x` is `cells[y][x]`.

use vstd::arithmetic::div_mod::{lemma_mod_add_multiples_vanish, lemma_mod_self_0, lemma_small_mod};
use vstd::prelude::*;

verus! {

/// A generation is a torus when it has at least one row, at least one column,
/// and every row is as long as the first.
pub open spec fn is_torus(cells: Seq<Seq<bool>>) -> bool {
    &&& cells.len() > 0
    &&& cells[0].len() > 0
    &&& forall|y: int| 0 <= y < cells.len() ==> (#[trigger] cells[y]).len() == cells[0].len()
}

/// The number of rows.
pub open spec fn height(cells: Seq<Seq<bool>>) -> nat {
    cells.len()
}

/// The number of columns, read off the first row.
pub open spec fn width(cells: Seq<Seq<bool>>) -> nat {
    cells[0].len()
}

/// The coordinate that `i` lands on when an axis of length `n` is closed into
/// a ring: `-1` lands on `n - 1`, and `n` lands on `0`.
pub open spec fn wrap(i: int, n: int) -> int {
    i % n
}

/// What a cell adds to a count of live cells: 1 if alive, else 0.
pub open spec fn unit(alive: bool) -> int {
    if alive {
        1
    } else {
        0
    }
}

/// 1 if the cell at the wrapped position `(x, y)` is alive, else 0.
pub open spec fn live_at(cells: Seq<Seq<bool>>, x: int, y: int) -> int {
    unit(cells[wrap(y, height(cells) as int)][wrap(x, width(cells) as int)])
}

/// How many of the eight positions around `(x, y)` hold a live cell, each
/// position wrapped onto the torus.
pub open spec fn neighbour_count(cells: Seq<Seq<bool>>, x: int, y: int) -> int {
    live_at(cells, x - 1, y - 1) + live_at(cells, x, y - 1) + live_at(cells, x + 1, y - 1)
        + live_at(cells, x - 1, y) + live_at(cells, x + 1, y)
        + live_at(cells, x - 1, y + 1) + live_at(cells, x, y + 1) + live_at(cells, x + 1, y + 1)
}

/// On an axis of length `n`, a coordinate `i` in range stays where it is, its
/// predecessor is `i - 1` or the far end, and its successor is `i + 1` or the
/// near end.
pub proof fn lemma_wrap_step(i: int, n: int)
    requires
        0 <= i < n,
    ensures
        wrap(i, n) == i,
        wrap(i - 1, n) == if i > 0 { i - 1 } else { n - 1 },
        wrap(i + 1, n) == if i < n - 1 { i + 1 } else { 0 },
{
    lemma_small_mod(i as nat, n as nat);
    if i > 0 {
        lemma_small_mod((i - 1) as nat, n as nat);
    } else {
        lemma_small_mod((n - 1) as nat, n as nat);
        lemma_mod_add_multiples_vanish(-1, n);
    }
    if i < n - 1 {
        lemma_small_mod((i + 1) as nat, n as nat);
    } else {
        lemma_mod_self_0(n);
    }
}

/// How many of eight cells are alive: those in the columns `left`, `x` and
/// `right` of the rows `top` and `bottom`, and those in the columns `left` and
/// `right` of row `y`.
pub open spec fn count_around(
    cells: Seq<Seq<bool>>,
    left: int,
    x: int,
    right: int,
    top: int,
    y: int,
    bottom: int,
) -> int {
    unit(cells[top][left]) + unit(cells[top][x]) + unit(cells[top][right])
        + unit(cells[y][left]) + unit(cells[y][right])
        + unit(cells[bottom][left]) + unit(cells[bottom][x]) + unit(cells[bottom][right])
}

/// The neighbour count of a cell of the torus, written without wrapping: the
/// column before the first is the last, the column after the last is the
/// first, and so for rows.
pub proof fn lemma_neighbour_count_unwrapped(cells: Seq<Seq<bool>>, x: int, y: int)
    requires
        is_torus(cells),
        0 <= x < width(cells),
        0 <= y < height(cells),
    ensures
        neighbour_count(cells, x, y) == count_around(
            cells,
            if x > 0 { x - 1 } else { width(cells) - 1 },
            x,
            if x < width(cells) - 1 { x + 1 } else { 0 },
            if y > 0 { y - 1 } else { height(cells) - 1 },
            y,
            if y < height(cells) - 1 { y + 1 } else { 0 },
        ),
{
    lemma_wrap_step(x, width(cells) as int);
    lemma_wrap_step(y, height(cells) as int);
}

/// A cell has between zero and eight live neighbours.
pub proof fn lemma_neighbour_count_bounds(cells: Seq<Seq<bool>>, x: int, y: int)
    ensures
        0 <= neighbour_count(cells, x, y) <= 8,
{
}

} // verus!
