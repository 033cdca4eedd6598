use vstd::prelude::*;

verus! {

/// The state of one square of the grid.
#[derive(Clone, Copy, Debug, PartialEq, Eq, Structural)]
pub enum Cell {
    Dead,
    Alive,
}

impl Cell {
    /// The other state.
    pub open spec fn toggled(self) -> Cell {
        match self {
            Cell::Dead => Cell::Alive,
            Cell::Alive => Cell::Dead,
        }
    }

    /// 1 for a live cell, 0 for a dead one.
    pub open spec fn weight(self) -> int {
        match self {
            Cell::Dead => 0,
            Cell::Alive => 1,
        }
    }

    /// Flips the cell between `Dead` and `Alive`.
    pub fn toggle(&mut self)
        ensures
            *final(self) == old(self).toggled(),
    {
        *self = match *self {
            Cell::Dead => Cell::Alive,
            Cell::Alive => Cell::Dead,
        };
    }
}

} // verus!
