//! Properties of the game that hold for every grid, proved over the model.
use vstd::prelude::*;

use crate::board::{neighbor_offset, successor, Board};
use crate::cell::Cell;
use crate::sum::{
    lemma_sum_ext, lemma_sum_of_bits, lemma_sum_rotate, lemma_sum_rows, lemma_sum_swap,
    lemma_sum_zero, sum_to,
};
use crate::universe::Universe;

verus! {

/// Every pair of coordinates, however large or negative, wraps to a
/// position inside the cell buffer.
pub proof fn lemma_index_in_bounds(b: Board, row: int, column: int)
    requires
        b.wf(),
    ensures
        0 <= b.index(row, column) < b.cells.len(),
{
    let h = b.height as int;
    let w = b.width as int;
    let r = row % h;
    let c = column % w;
    vstd::arithmetic::div_mod::lemma_mod_bound(row, h);
    vstd::arithmetic::div_mod::lemma_mod_bound(column, w);
    assert(0 <= r * w + c < w * h) by (nonlinear_arith)
        requires
            0 <= r < h,
            0 <= c < w,
    ;
}

/// Every cell has between zero and eight live neighbours.
pub proof fn lemma_neighbors_bounded(b: Board, row: int, column: int)
    requires
        b.wf(),
    ensures
        0 <= b.neighbors(row, column) <= 8,
{
    let f = |j: int| b.weight_at(row + neighbor_offset(j).0, column + neighbor_offset(j).1);
    assert forall|j: int| 0 <= j < 8 implies 0 <= #[trigger] f(j) <= 1 by {
        lemma_index_in_bounds(b, row + neighbor_offset(j).0, column + neighbor_offset(j).1);
    }
    lemma_sum_of_bits(8, f);
}

/// Summing, over all cells, the weight of the neighbour at one fixed offset
/// counts every live cell exactly once.
proof fn lemma_shifted_total(b: Board, dr: int, dc: int)
    requires
        b.wf(),
        -1 <= dr <= 1,
        -1 <= dc <= 1,
    ensures
        sum_to(b.height as int, |r: int| sum_to(b.width as int, |c: int| b.weight_at(r + dr, c + dc)))
            == b.live_cells(),
{
    let h = b.height as int;
    let w = b.width as int;
    let cellw = |k: int| b.cells[k].weight();
    let whole_row = |r: int| sum_to(w, |c: int| cellw(r * w + c));
    let shifted_row = |r: int| sum_to(w, |c: int| b.weight_at(r + dr, c + dc));
    assert forall|r: int| 0 <= r < h implies #[trigger] shifted_row(r) == whole_row(
        (r + dr) % h,
    ) by {
        let rr = (r + dr) % h;
        let g = |c: int| cellw(rr * w + c);
        lemma_sum_rotate(w, dc, g);
        lemma_sum_ext(w, |c: int| b.weight_at(r + dr, c + dc), |i: int| g((i + dc) % w));
        lemma_sum_ext(w, g, |c: int| cellw(rr * w + c));
    }
    lemma_sum_ext(h, shifted_row, |r: int| whole_row((r + dr) % h));
    lemma_sum_rotate(h, dr, whole_row);
    lemma_sum_rows(h, w, cellw);
    assert(h * w == w * h) by (nonlinear_arith);
}

/// Summing the neighbour counts of all cells gives eight times the number
/// of live cells: each live cell is counted once by each of its eight
/// neighbours.
pub proof fn lemma_neighbor_total(b: Board)
    requires
        b.wf(),
    ensures
        sum_to(b.height as int, |r: int| sum_to(b.width as int, |c: int| b.neighbors(r, c)))
            == 8 * b.live_cells(),
{
    let h = b.height as int;
    let w = b.width as int;
    let part = |r: int, j: int|
        sum_to(w, |c: int| b.weight_at(r + neighbor_offset(j).0, c + neighbor_offset(j).1));
    let row_total = |r: int| sum_to(w, |c: int| b.neighbors(r, c));
    assert forall|r: int| 0 <= r < h implies #[trigger] row_total(r) == sum_to(
        8,
        |j: int| part(r, j),
    ) by {
        let f = |c: int, j: int| b.weight_at(r + neighbor_offset(j).0, c + neighbor_offset(j).1);
        lemma_sum_swap(w, 8, f);
        assert forall|c: int| 0 <= c < w implies #[trigger] b.neighbors(r, c) == sum_to(
            8,
            |j: int| f(c, j),
        ) by {
            lemma_sum_ext(
                8,
                |j: int| b.weight_at(r + neighbor_offset(j).0, c + neighbor_offset(j).1),
                |j: int| f(c, j),
            );
        }
        lemma_sum_ext(w, |c: int| b.neighbors(r, c), |i: int| sum_to(8, |j: int| f(i, j)));
        assert forall|j: int| 0 <= j < 8 implies #[trigger] part(r, j) == sum_to(
            w,
            |i: int| f(i, j),
        ) by {
            lemma_sum_ext(
                w,
                |c: int| b.weight_at(r + neighbor_offset(j).0, c + neighbor_offset(j).1),
                |i: int| f(i, j),
            );
        }
        lemma_sum_ext(8, |j: int| part(r, j), |j: int| sum_to(w, |i: int| f(i, j)));
    }
    lemma_sum_ext(h, row_total, |r: int| sum_to(8, |j: int| part(r, j)));
    lemma_sum_swap(h, 8, part);
    let live = b.live_cells();
    let per_offset = |j: int| sum_to(h, |r: int| part(r, j));
    assert forall|j: int| 0 <= j < 8 implies #[trigger] per_offset(j) == live by {
        let (dr, dc) = neighbor_offset(j);
        lemma_shifted_total(b, dr, dc);
        lemma_sum_ext(
            h,
            |r: int| part(r, j),
            |r: int| sum_to(w, |c: int| b.weight_at(r + dr, c + dc)),
        );
    }
    lemma_sum_ext(8, per_offset, |j: int| live);
    reveal_with_fuel(sum_to, 9);
}

/// The next generation depends on the current grid alone: two universes
/// with the same grid advance to the same grid.
pub proof fn lemma_tick_deterministic(u1: &Universe, u2: &Universe)
    requires
        u1@ == u2@,
    ensures
        u1@.next() == u2@.next(),
{
}

/// A grid with no live cell stays without one.
pub proof fn lemma_dead_grid_fixed(b: Board)
    requires
        b.wf(),
        forall|i: int| 0 <= i < b.cells.len() ==> b.cells[i] == Cell::Dead,
    ensures
        b.next() == b,
{
    let w = b.width as int;
    assert forall|i: int| 0 <= i < b.cells.len() implies #[trigger] b.next().cells[i]
        == b.cells[i] by {
        let row = i / w;
        let column = i % w;
        let f = |j: int| b.weight_at(row + neighbor_offset(j).0, column + neighbor_offset(j).1);
        assert forall|j: int| 0 <= j < 8 implies #[trigger] f(j) == 0 by {
            lemma_index_in_bounds(b, row + neighbor_offset(j).0, column + neighbor_offset(j).1);
        }
        lemma_sum_zero(8, f);
        assert(successor(Cell::Dead, 0) == Cell::Dead);
    }
    assert(b.next().cells =~= b.cells);
}

/// Flipping the same cell twice restores the grid.
pub proof fn lemma_toggle_twice(b: Board, row: int, column: int)
    requires
        b.wf(),
    ensures
        b.toggle(row, column).toggle(row, column) == b,
{
    lemma_index_in_bounds(b, row, column);
    assert(b.toggle(row, column).toggle(row, column).cells =~= b.cells);
}

/// Inverting the whole grid twice restores it.
pub proof fn lemma_invert_twice(b: Board)
    ensures
        b.inverted().inverted() == b,
{
    assert(b.inverted().inverted().cells =~= b.cells);
}

} // verus!
