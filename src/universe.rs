//! The grid itself: a fixed-size torus of cells that advances one
//! generation per `tick`.
use vstd::prelude::*;

use crate::board::{glyph, neighbor_offset, seeded, successor, Board};
use crate::cell::Cell;
use crate::sum::sum_to;

verus! {

/// Number of columns of a universe made by `new`.
pub const WIDTH: u32 = 128;

/// Number of rows of a universe made by `new`.
pub const HEIGHT: u32 = 128;

/// A toroidal grid of cells, stored row by row.
pub struct Universe {
    width: u32,
    height: u32,
    cells: Vec<Cell>,
}

impl View for Universe {
    type V = Board;

    closed spec fn view(&self) -> Board {
        Board { width: self.width as nat, height: self.height as nat, cells: self.cells@ }
    }
}

/// `(value + delta) mod dim`, for a small signed `delta`.
fn wrap_coordinate(value: u32, delta: i32, dim: u32) -> (r: u32)
    requires
        dim > 0,
        -2 <= delta <= 2,
    ensures
        r as int == (value as int + delta as int) % (dim as int),
{
    let base: u64 = (value % dim) as u64 + 2 * (dim as u64);
    let shifted: u64 = if delta >= 0 {
        base + delta as u64
    } else {
        base - ((-delta) as u64)
    };
    proof {
        let m = dim as int;
        let v = value as int;
        let d = delta as int;
        vstd::arithmetic::div_mod::lemma_mod_multiples_vanish(2, v % m + d, m);
        vstd::arithmetic::div_mod::lemma_add_mod_noop_right(d, v, m);
        assert(shifted as int == m * 2 + (v % m + d));
    }
    (shifted % (dim as u64)) as u32
}

/// One cell per draw: `Alive` where the draw is `true`, `Dead` elsewhere.
fn cells_from_draws(draws: &[bool]) -> (r: Vec<Cell>)
    ensures
        r@ == seeded(draws@),
{
    let mut cells: Vec<Cell> = Vec::with_capacity(draws.len());
    let mut i: usize = 0;
    while i < draws.len()
        invariant
            i <= draws@.len(),
            cells@ == seeded(draws@.subrange(0, i as int)),
        decreases draws@.len() - i,
    {
        let cell = if draws[i] {
            Cell::Alive
        } else {
            Cell::Dead
        };
        cells.push(cell);
        i += 1;
        assert(draws@.subrange(0, i as int) =~= draws@.subrange(0, i - 1).push(draws@[i - 1]));
        assert(cells@ =~= seeded(draws@.subrange(0, i as int)));
    }
    assert(draws@.subrange(0, i as int) =~= draws@);
    cells
}

impl Universe {
    /// A `WIDTH` by `HEIGHT` universe whose cell `i` (row-major) is alive
    /// exactly when `draws[i]` is `true`. Each draw is meant to be a fair
    /// coin flip, made by the caller.
    pub fn new(draws: &[bool]) -> (r: Universe)
        requires
            draws@.len() == WIDTH * HEIGHT,
        ensures
            r@ == (Board { width: WIDTH as nat, height: HEIGHT as nat, cells: seeded(draws@) }),
            r@.wf(),
    {
        Universe { width: WIDTH, height: HEIGHT, cells: cells_from_draws(draws) }
    }

    /// A universe of the given dimensions holding `cells` row by row, or
    /// `None` unless both dimensions are positive and there is exactly one
    /// cell per position.
    pub fn with_cells(width: u32, height: u32, cells: Vec<Cell>) -> (r: Option<Universe>)
        ensures
            r is Some <==> (width > 0 && height > 0 && cells@.len() == width * height),
            r matches Some(u) ==> u@ == (Board {
                width: width as nat,
                height: height as nat,
                cells: cells@,
            }),
    {
        if width == 0 || height == 0 {
            return None;
        }
        assert((width as int) * (height as int) <= u32::MAX as int * u32::MAX as int)
            by (nonlinear_arith)
            requires
                width <= u32::MAX,
                height <= u32::MAX,
        ;
        let size: u64 = (width as u64) * (height as u64);
        if cells.len() as u64 != size {
            return None;
        }
        Some(Universe { width, height, cells })
    }

    /// Replaces every cell from fresh draws, keeping the dimensions: cell
    /// `i` becomes alive exactly when `draws[i]` is `true`.
    pub fn restart(&mut self, draws: &[bool])
        requires
            old(self)@.wf(),
            draws@.len() == old(self)@.cells.len(),
        ensures
            final(self)@ == (Board { cells: seeded(draws@), ..old(self)@ }),
            final(self)@.wf(),
    {
        self.cells = cells_from_draws(draws);
    }

    /// Row and column reduced modulo the grid's height and width.
    fn normalize_coordinate(&self, row: u32, col: u32) -> (r: (u32, u32))
        requires
            self@.wf(),
        ensures
            r.0 as int == row as int % (self@.height as int),
            r.1 as int == col as int % (self@.width as int),
    {
        (row % self.height, col % self.width)
    }

    /// Position in the cell buffer of an in-range `(row, col)`.
    fn flat_index(&self, row: u32, col: u32) -> (r: usize)
        requires
            self@.wf(),
            row < self@.height,
            col < self@.width,
        ensures
            r as int == row as int * (self@.width as int) + col as int,
            r < self@.cells.len(),
    {
        let n = self.cells.len();
        let ghost w = self.width as int;
        let ghost h = self.height as int;
        assert(row as int * w + col < w * h) by (nonlinear_arith)
            requires
                0 <= row < h,
                0 <= col < w,
        ;
        assert(row as int * w + col < n);
        (row as usize) * (self.width as usize) + col as usize
    }

    /// Position in the cell buffer of `(row + dr, col + dc)`, wrapped.
    fn offset_index(&self, row: u32, col: u32, dr: i32, dc: i32) -> (r: usize)
        requires
            self@.wf(),
            -2 <= dr <= 2,
            -2 <= dc <= 2,
        ensures
            r as int == self@.index(row + dr, col + dc),
            r < self@.cells.len(),
    {
        let r = wrap_coordinate(row, dr, self.height);
        let c = wrap_coordinate(col, dc, self.width);
        self.flat_index(r, c)
    }

    /// Position in the cell buffer of `(row, column)`, each coordinate
    /// wrapped around its dimension.
    pub fn get_index(&self, row: u32, column: u32) -> (r: usize)
        requires
            self@.wf(),
        ensures
            r as int == self@.index(row as int, column as int),
            r < self@.cells.len(),
    {
        let (r, c) = self.normalize_coordinate(row, column);
        self.flat_index(r, c)
    }

    /// 1 for a live cell at buffer position `idx`, 0 for a dead one.
    fn weight_of(&self, idx: usize) -> (r: u8)
        requires
            idx < self@.cells.len(),
        ensures
            r as int == self@.cells[idx as int].weight(),
    {
        match self.cells[idx] {
            Cell::Dead => 0,
            Cell::Alive => 1,
        }
    }

    /// Number of live cells among the eight neighbours of `(row, column)`,
    /// the grid wrapping around on both axes.
    pub fn live_neighbor_count(&self, row: u32, column: u32) -> (count: u8)
        requires
            self@.wf(),
        ensures
            count as int == self@.neighbors(row as int, column as int),
            count <= 8,
    {
        let nw = self.weight_of(self.offset_index(row, column, -1, -1));
        let n = self.weight_of(self.offset_index(row, column, -1, 0));
        let ne = self.weight_of(self.offset_index(row, column, -1, 1));
        let w = self.weight_of(self.offset_index(row, column, 0, -1));
        let e = self.weight_of(self.offset_index(row, column, 0, 1));
        let sw = self.weight_of(self.offset_index(row, column, 1, -1));
        let s = self.weight_of(self.offset_index(row, column, 1, 0));
        let se = self.weight_of(self.offset_index(row, column, 1, 1));
        proof {
            let b = self@;
            let f = |j: int|
                b.weight_at(row + neighbor_offset(j).0, column + neighbor_offset(j).1);
            reveal_with_fuel(sum_to, 9);
            assert(sum_to(8, f) == f(0) + f(1) + f(2) + f(3) + f(4) + f(5) + f(6) + f(7));
        }
        nw + n + ne + w + e + sw + s + se
    }

    /// Advances the grid by one generation. The next generation is built
    /// in a fresh buffer from the current one alone, then replaces it.
    pub fn tick(&mut self)
        requires
            old(self)@.wf(),
        ensures
            final(self)@ == old(self)@.next(),
            final(self)@.wf(),
    {
        let n = self.cells.len();
        let mut next: Vec<Cell> = Vec::with_capacity(n);
        let mut i: usize = 0;
        while i < n
            invariant
                self@.wf(),
                n == self@.cells.len(),
                i <= n,
                next@.len() == i,
                forall|k: int| 0 <= k < i ==> next@[k] == #[trigger] self@.next().cells[k],
            decreases n - i,
        {
            let width = self.width as usize;
            let row = i / width;
            let col = i % width;
            proof {
                vstd::arithmetic::div_mod::lemma_multiply_divide_lt(
                    i as int,
                    width as int,
                    self.height as int,
                );
            }
            let cell = self.cells[i];
            let live_neighbors = self.live_neighbor_count(row as u32, col as u32);
            let next_cell = match (cell, live_neighbors) {
                (Cell::Alive, x) if x < 2 => Cell::Dead,
                (Cell::Alive, 2) | (Cell::Alive, 3) => Cell::Alive,
                (Cell::Alive, x) if x > 3 => Cell::Dead,
                (Cell::Dead, 3) => Cell::Alive,
                (otherwise, _) => otherwise,
            };
            next.push(next_cell);
            i += 1;
        }
        assert(next@ =~= self@.next().cells);
        self.cells = next;
    }

    /// The grid as text: one line per row, one glyph per cell (`\u{25FB}`
    /// dead, `\u{25FC}` alive), each line ending in `\n`.
    pub fn render(&self) -> (r: String)
        requires
            self@.wf(),
        ensures
            r@ == self@.text(),
    {
        let mut text = String::new();
        let mut row: u32 = 0;
        while row < self.height
            invariant
                self@.wf(),
                row <= self@.height,
                text@ == self@.text_of_rows(row as int),
            decreases self@.height - row,
        {
            let mut col: u32 = 0;
            while col < self.width
                invariant
                    self@.wf(),
                    row < self@.height,
                    col <= self@.width,
                    text@ == self@.text_of_rows(row as int) + Seq::new(
                        col as nat,
                        |k: int| glyph(self@.cells[row * (self@.width as int) + k]),
                    ),
                decreases self@.width - col,
            {
                let idx = self.flat_index(row, col);
                let symbol = match self.cells[idx] {
                    Cell::Dead => "\u{25FB}",
                    Cell::Alive => "\u{25FC}",
                };
                proof {
                    reveal_strlit("\u{25FB}");
                    reveal_strlit("\u{25FC}");
                }
                assert(symbol@ =~= seq![glyph(self@.cells[idx as int])]);
                text.append(symbol);
                col += 1;
                assert(text@ =~= self@.text_of_rows(row as int) + Seq::new(
                    col as nat,
                    |k: int| glyph(self@.cells[row * (self@.width as int) + k]),
                ));
            }
            proof {
                reveal_strlit("\n");
            }
            text.append("\n");
            row += 1;
            assert(text@ =~= self@.text_of_rows(row as int));
        }
        text
    }

    /// Number of columns.
    pub fn width(&self) -> (r: u32)
        ensures
            r == self@.width,
    {
        self.width
    }

    /// Number of rows.
    pub fn height(&self) -> (r: u32)
        ensures
            r == self@.height,
    {
        self.height
    }

    /// The cells, row by row. The view is valid until the next change.
    pub fn cells(&self) -> (r: &[Cell])
        ensures
            r@ == self@.cells,
    {
        self.cells.as_slice()
    }

    /// Flips the cell at `(row, column)`, wrapped; no other cell changes.
    pub fn toggle_cell(&mut self, row: u32, column: u32)
        requires
            old(self)@.wf(),
        ensures
            final(self)@ == old(self)@.toggle(row as int, column as int),
            final(self)@.wf(),
    {
        let idx = self.get_index(row, column);
        let mut cell = self.cells[idx];
        cell.toggle();
        self.cells.set(idx, cell);
    }

    /// Flips every cell of the grid.
    pub fn toggle_live_cell(&mut self)
        requires
            old(self)@.wf(),
        ensures
            final(self)@ == old(self)@.inverted(),
            final(self)@.wf(),
    {
        let n = self.cells.len();
        let mut i: usize = 0;
        while i < n
            invariant
                n == self@.cells.len(),
                i <= n,
                self.width == old(self).width,
                self.height == old(self).height,
                forall|k: int| 0 <= k < i ==> self@.cells[k] == (#[trigger] old(self)@.cells[k]).toggled(),
                forall|k: int| i <= k < n ==> self@.cells[k] == #[trigger] old(self)@.cells[k],
            decreases n - i,
        {
            let cell = if self.cells[i] == Cell::Dead {
                Cell::Alive
            } else {
                Cell::Dead
            };
            self.cells.set(i, cell);
            i += 1;
        }
        assert(self@.cells =~= old(self)@.inverted().cells);
    }

    /// Makes alive the three cells `(row, column)`, `(row, column + 1)` and
    /// `(row, column + 2)`, wrapped; no other cell changes.
    pub fn create_glider(&mut self, row: u32, col: u32)
        requires
            old(self)@.wf(),
        ensures
            final(self)@ == old(self)@.glider(row as int, col as int),
            final(self)@.wf(),
    {
        let idx1 = self.get_index(row, col);
        let idx2 = self.offset_index(row, col, 0, 1);
        let idx3 = self.offset_index(row, col, 0, 2);
        self.cells.set(idx1, Cell::Alive);
        self.cells.set(idx2, Cell::Alive);
        self.cells.set(idx3, Cell::Alive);
    }

    /// Kills the cell `(row, col)` and then makes alive the ten cells around
    /// it that seed a pulsar, all coordinates wrapped.
    pub fn create_pulsar_gerator(&mut self, row: u32, col: u32)
        requires
            old(self)@.wf(),
        ensures
            final(self)@ == old(self)@.pulsar(row as int, col as int),
            final(self)@.wf(),
    {
        let idx_center = self.get_index(row, col);
        self.cells.set(idx_center, Cell::Dead);
        let mut index = self.offset_index(row, col, -2, 0);
        self.cells.set(index, Cell::Alive);
        index = self.offset_index(row, col, 2, 0);
        self.cells.set(index, Cell::Alive);
        index = self.offset_index(row, col, 1, 0);
        self.cells.set(index, Cell::Alive);
        index = self.offset_index(row, col, -1, 0);
        self.cells.set(index, Cell::Alive);
        index = self.offset_index(row, col, 0, 1);
        self.cells.set(index, Cell::Alive);
        index = self.offset_index(row, col, 0, -1);
        self.cells.set(index, Cell::Alive);
        index = self.offset_index(row, col, 1, 1);
        self.cells.set(index, Cell::Alive);
        index = self.offset_index(row, col, 1, -1);
        self.cells.set(index, Cell::Alive);
        index = self.offset_index(row, col, -1, 1);
        self.cells.set(index, Cell::Alive);
        index = self.offset_index(row, col, -1, -1);
        self.cells.set(index, Cell::Alive);
    }
}

} // verus!
