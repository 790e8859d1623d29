//! Transition rules, and what it means for one generation to follow from
//! another under a rule.
//!
//! A rule is any function from a cell and the number of its live neighbours
//! to the cell's next state. What a rule computes is known to the library
//! only through its contract, so the relations below are stated over that
//! contract.

use crate::cell::{survives, Cell};
use crate::torus::{height, is_torus, lemma_neighbour_count_bounds, neighbour_count, width};
use vstd::prelude::*;

verus! {

/// The rule may be applied to every cell with every count from 0 to 8.
pub open spec fn rule_accepts<F: Fn(&Cell, u8) -> Cell>(rule: F) -> bool {
    forall|cell: Cell, count: u8| count <= 8 ==> call_requires(rule, (&cell, count))
}

/// The rule is a function: a cell and a count from 0 to 8 decide its result.
pub open spec fn rule_decides<F: Fn(&Cell, u8) -> Cell>(rule: F) -> bool {
    forall|cell: Cell, count: u8, a: Cell, b: Cell|
        #![trigger call_ensures(rule, (&cell, count), a), call_ensures(rule, (&cell, count), b)]
        count <= 8 && call_ensures(rule, (&cell, count), a) && call_ensures(rule, (&cell, count), b) ==> a
            == b
}

/// `row` is a result of applying the rule to every cell of row `y` of
/// `before`, each with its neighbour count in `before`.
pub open spec fn row_follows<F: Fn(&Cell, u8) -> Cell>(
    before: Seq<Seq<bool>>,
    y: int,
    rule: F,
    row: Seq<bool>,
) -> bool {
    &&& row.len() == width(before)
    &&& forall|x: int|
        0 <= x < width(before) ==> call_ensures(
            rule,
            (&Cell { alive: before[y][x] }, neighbour_count(before, x, y) as u8),
            Cell { alive: #[trigger] row[x] },
        )
}

/// `after` is a result of applying the rule to every cell of `before`: it
/// has as many rows, and row `y` of `after` follows from row `y` of `before`.
/// Every count is taken in `before`, so no cell sees a neighbour's new state.
pub open spec fn follows<F: Fn(&Cell, u8) -> Cell>(
    before: Seq<Seq<bool>>,
    rule: F,
    after: Seq<Seq<bool>>,
) -> bool {
    &&& after.len() == height(before)
    &&& forall|y: int| 0 <= y < height(before) ==> row_follows(before, y, rule, #[trigger] after[y])
}

/// What follows from a torus under any rule is a torus of the same height and
/// width.
pub proof fn lemma_follows_keeps_shape<F: Fn(&Cell, u8) -> Cell>(
    before: Seq<Seq<bool>>,
    rule: F,
    after: Seq<Seq<bool>>,
)
    requires
        is_torus(before),
        follows(before, rule, after),
    ensures
        is_torus(after),
        height(after) == height(before),
        width(after) == width(before),
{
    assert(row_follows(before, 0, rule, after[0]));
    assert forall|y: int| 0 <= y < after.len() implies (#[trigger] after[y]).len() == after[0].len() by {
        assert(row_follows(before, y, rule, after[y]));
    }
}

/// Under a rule that is a function, one generation has one successor: two
/// generations that both follow from `before` are the same, in whatever
/// order and on however many threads their cells were computed.
pub proof fn lemma_follows_is_unique<F: Fn(&Cell, u8) -> Cell>(
    before: Seq<Seq<bool>>,
    rule: F,
    first: Seq<Seq<bool>>,
    second: Seq<Seq<bool>>,
)
    requires
        rule_decides(rule),
        follows(before, rule, first),
        follows(before, rule, second),
    ensures
        first == second,
{
    assert forall|y: int| 0 <= y < first.len() implies first[y] == second[y] by {
        assert(row_follows(before, y, rule, first[y]));
        assert(row_follows(before, y, rule, second[y]));
        assert forall|x: int| 0 <= x < first[y].len() implies first[y][x] == second[y][x] by {
            lemma_neighbour_count_bounds(before, x, y);
            let cell = Cell { alive: before[y][x] };
            let count: u8 = neighbour_count(before, x, y) as u8;
            assert(call_ensures(rule, (&cell, count), Cell { alive: first[y][x] }));
            assert(call_ensures(rule, (&cell, count), Cell { alive: second[y][x] }));
        }
        assert(first[y] =~= second[y]);
    }
    assert(first =~= second);
}

/// The generation that comes after `cells` in the Game of Life: the same
/// rows and columns, and in each place whether the cell there survives or is
/// born.
pub open spec fn life_step(cells: Seq<Seq<bool>>) -> Seq<Seq<bool>> {
    Seq::new(
        height(cells),
        |y: int| Seq::new(width(cells), |x: int| survives(cells[y][x], neighbour_count(cells, x, y))),
    )
}

/// [`Cell::next`] is a rule: it accepts every cell and every count, and it
/// is a function.
pub proof fn lemma_standard_rule()
    ensures
        rule_accepts(Cell::next),
        rule_decides(Cell::next),
{
}

/// What follows from a generation under [`Cell::next`] is its successor in
/// the Game of Life.
pub proof fn lemma_follows_standard_rule(before: Seq<Seq<bool>>, after: Seq<Seq<bool>>)
    requires
        follows(before, Cell::next, after),
    ensures
        after == life_step(before),
{
    let step = life_step(before);
    assert forall|y: int| 0 <= y < after.len() implies after[y] == step[y] by {
        assert(row_follows(before, y, Cell::next, after[y]));
        assert forall|x: int| 0 <= x < after[y].len() implies after[y][x] == step[y][x] by {
            lemma_neighbour_count_bounds(before, x, y);
            let cell = Cell { alive: before[y][x] };
            let count: u8 = neighbour_count(before, x, y) as u8;
            assert(call_ensures(Cell::next, (&cell, count), Cell { alive: after[y][x] }));
        }
        assert(after[y] =~= step[y]);
    }
    assert(after =~= step);
}

} // verus!
