//! Handing the rows of a generation out to a pool of worker threads.

use crate::cell::Cell;
use crate::grid::Grid;
use crate::rule::{follows, rule_accepts};
use rayon::iter::{IndexedParallelIterator, IntoParallelRefIterator, ParallelIterator};
use vstd::prelude::*;

verus! {

/// Computes every row of the next generation with rayon: `par_iter` over the
/// rows, `enumerate` to number them, `map` to compute row `y` by
/// [`Grid::next_row`], and `collect` into a vector.
///
/// The contract claims of rayon that the closure is called once for each row
/// with that row's index, and that the vector holds the results in the order
/// of the rows; each result then is what [`Grid::next_row`] promises for its
/// index.
#[verifier::external_body]
pub(crate) fn par_rows<F>(grid: &Grid, rule: &F) -> (rows: Vec<Vec<Cell>>) where
    F: Fn(&Cell, u8) -> Cell + Sync,

    requires
        grid.wf(),
        rule_accepts(*rule),
    ensures
        follows(grid@, *rule, rows.deep_view()),
{
    grid.cells().par_iter().enumerate().map(|(y, _)| grid.next_row(y, rule)).collect()
}

} // verus!
