//! A single cell and the rule that decides its next state.

use vstd::prelude::*;

verus! {

/// The standard rule (B3/S23): a cell lives in the next generation when it has
/// exactly three live neighbours, or when it has exactly two and is alive now.
pub open spec fn survives(alive: bool, neighbours: int) -> bool {
    neighbours == 3 || (neighbours == 2 && alive)
}

/// The character that stands for a cell: `'O'` when alive, a blank otherwise.
pub open spec fn symbol(alive: bool) -> char {
    if alive {
        'O'
    } else {
        ' '
    }
}

/// One cell of the automaton. Its whole state is whether it is alive.
#[derive(Debug, Clone, Copy, PartialEq, Eq, Structural)]
pub struct Cell {
    pub alive: bool,
}

impl View for Cell {
    type V = bool;

    open spec fn view(&self) -> bool {
        self.alive
    }
}

impl DeepView for Cell {
    type V = bool;

    open spec fn deep_view(&self) -> bool {
        self.alive
    }
}

impl Cell {
    /// The state of this cell in the next generation, given how many of its
    /// eight neighbours are alive.
    pub fn next(&self, neighbours: u8) -> (cell: Cell)
        ensures
            cell.alive == survives(self.alive, neighbours as int),
    {
        Cell { alive: (neighbours == 3) || ((neighbours == 2) && self.alive) }
    }

    /// The character that shows this cell on screen.
    pub fn to_char(&self) -> (c: char)
        ensures
            c == symbol(self.alive),
    {
        if self.alive {
            'O'
        } else {
            ' '
        }
    }

    /// The cell that a drawn word seeds: alive exactly when the word is odd.
    pub fn from_word(word: u32) -> (cell: Cell)
        ensures
            cell.alive == (word % 2 == 1),
    {
        assert((word & 1 != 0) == (word % 2 == 1)) by (bit_vector);
        Cell { alive: (word & 1) != 0 }
    }
}

} // verus!
