//! The mathematical model of a grid: its dimensions and its cells in
//! row-major order, with the rules of the game stated over it.
use vstd::prelude::*;

use crate::cell::Cell;
use crate::sum::sum_to;

verus! {

/// A grid of `height` rows of `width` cells, stored row by row.
pub struct Board {
    pub width: nat,
    pub height: nat,
    pub cells: Seq<Cell>,
}

/// Row and column offsets of the eight neighbours, in the order
/// north-west, north, north-east, west, east, south-west, south, south-east.
pub open spec fn neighbor_offset(j: int) -> (int, int) {
    if j == 0 {
        (-1, -1)
    } else if j == 1 {
        (-1, 0)
    } else if j == 2 {
        (-1, 1)
    } else if j == 3 {
        (0, -1)
    } else if j == 4 {
        (0, 1)
    } else if j == 5 {
        (1, -1)
    } else if j == 6 {
        (1, 0)
    } else {
        (1, 1)
    }
}

/// The state of a cell in the next generation, given its state and the
/// number of its live neighbours.
pub open spec fn successor(cell: Cell, live: int) -> Cell {
    match cell {
        Cell::Alive => if live == 2 || live == 3 {
            Cell::Alive
        } else {
            Cell::Dead
        },
        Cell::Dead => if live == 3 {
            Cell::Alive
        } else {
            Cell::Dead
        },
    }
}

/// Character drawn for a cell.
pub open spec fn glyph(cell: Cell) -> char {
    match cell {
        Cell::Dead => '\u{25FB}',
        Cell::Alive => '\u{25FC}',
    }
}

/// One cell per `true` draw made `Alive`, the others `Dead`.
pub open spec fn seeded(draws: Seq<bool>) -> Seq<Cell> {
    draws.map_values(
        |b: bool|
            if b {
                Cell::Alive
            } else {
                Cell::Dead
            },
    )
}

impl Board {
    /// Both dimensions positive and one cell for each position.
    pub open spec fn wf(self) -> bool {
        &&& self.width > 0
        &&& self.height > 0
        &&& self.cells.len() == self.width * self.height
    }

    /// Position in `cells` of `(row, column)`, each taken modulo its
    /// dimension, so that the grid wraps around on both axes.
    pub open spec fn index(self, row: int, column: int) -> int {
        (row % (self.height as int)) * (self.width as int) + column % (self.width as int)
    }

    /// 1 if the cell at `(row, column)` (wrapped) is alive, else 0.
    pub open spec fn weight_at(self, row: int, column: int) -> int {
        self.cells[self.index(row, column)].weight()
    }

    /// Number of live cells among the eight neighbours of `(row, column)`.
    pub open spec fn neighbors(self, row: int, column: int) -> int {
        sum_to(
            8,
            |j: int| self.weight_at(row + neighbor_offset(j).0, column + neighbor_offset(j).1),
        )
    }

    /// Number of live cells on the grid.
    pub open spec fn live_cells(self) -> int {
        sum_to(self.cells.len() as int, |i: int| self.cells[i].weight())
    }

    /// The next generation: every cell follows `successor`, reading only
    /// the current generation.
    pub open spec fn next(self) -> Board {
        Board {
            width: self.width,
            height: self.height,
            cells: Seq::new(
                self.cells.len(),
                |i: int|
                    successor(
                        self.cells[i],
                        self.neighbors(i / (self.width as int), i % (self.width as int)),
                    ),
            ),
        }
    }

    /// The grid with the cell at `(row, column)` (wrapped) set to `cell`.
    pub open spec fn set(self, row: int, column: int, cell: Cell) -> Board {
        Board { cells: self.cells.update(self.index(row, column), cell), ..self }
    }

    /// The grid with the cell at `(row, column)` (wrapped) flipped.
    pub open spec fn toggle(self, row: int, column: int) -> Board {
        self.set(row, column, self.cells[self.index(row, column)].toggled())
    }

    /// The grid with every cell flipped.
    pub open spec fn inverted(self) -> Board {
        Board { cells: self.cells.map_values(|c: Cell| c.toggled()), ..self }
    }

    /// Three live cells in a row, from `(row, column)` eastwards.
    pub open spec fn glider(self, row: int, column: int) -> Board {
        self.set(row, column, Cell::Alive).set(row, column + 1, Cell::Alive).set(
            row,
            column + 2,
            Cell::Alive,
        )
    }

    /// The centre `(row, column)` dead, then ten cells around it alive, set
    /// in this order (on a small grid a later write may land on an earlier).
    pub open spec fn pulsar(self, row: int, column: int) -> Board {
        self.set(row, column, Cell::Dead).set(row - 2, column, Cell::Alive).set(
            row + 2,
            column,
            Cell::Alive,
        ).set(row + 1, column, Cell::Alive).set(row - 1, column, Cell::Alive).set(
            row,
            column + 1,
            Cell::Alive,
        ).set(row, column - 1, Cell::Alive).set(row + 1, column + 1, Cell::Alive).set(
            row + 1,
            column - 1,
            Cell::Alive,
        ).set(row - 1, column + 1, Cell::Alive).set(row - 1, column - 1, Cell::Alive)
    }

    /// The glyphs of row `r`, followed by a line break.
    pub open spec fn row_text(self, r: int) -> Seq<char> {
        Seq::new(self.width, |c: int| glyph(self.cells[r * (self.width as int) + c])).push(
            '\n',
        )
    }

    /// The text of the first `n` rows.
    pub open spec fn text_of_rows(self, n: int) -> Seq<char>
        decreases n,
    {
        if n <= 0 {
            Seq::empty()
        } else {
            self.text_of_rows(n - 1) + self.row_text(n - 1)
        }
    }

    /// The whole grid as text: one line per row, each ending in a line break.
    pub open spec fn text(self) -> Seq<char> {
        self.text_of_rows(self.height as int)
    }
}

} // verus!
