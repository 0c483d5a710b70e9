//! The state of a single cell of the board.
use vstd::prelude::*;

verus! {

/// Represents the state of a cell within the Conways game of life simulation.
///
/// An alive cell is represented as `true`.
/// A dead cell is represented as `false`.
#[derive(PartialEq, Eq, Structural, Debug, Clone, Copy)]
pub enum Cell {
    Dead,
    Alive,
}

/// The cell state that a boolean stands for.
pub open spec fn cell_of(value: bool) -> Cell {
    if value {
        Cell::Alive
    } else {
        Cell::Dead
    }
}

/// The boolean that a cell state stands for.
pub open spec fn bool_of(cell: Cell) -> bool {
    cell == Cell::Alive
}

impl Default for Cell {
    /// A cell is dead unless it has been brought to life.
    fn default() -> (r: Cell)
        ensures
            r == Cell::Dead,
    {
        Cell::Dead
    }
}

impl From<Cell> for bool {
    fn from(value: Cell) -> (r: bool) {
        match value {
            Cell::Alive => true,
            Cell::Dead => false,
        }
    }
}

impl vstd::std_specs::convert::FromSpecImpl<Cell> for bool {
    open spec fn obeys_from_spec() -> bool {
        true
    }

    open spec fn from_spec(v: Cell) -> bool {
        bool_of(v)
    }
}

impl From<bool> for Cell {
    fn from(value: bool) -> (r: Cell) {
        match value {
            true => Cell::Alive,
            false => Cell::Dead,
        }
    }
}

impl vstd::std_specs::convert::FromSpecImpl<bool> for Cell {
    open spec fn obeys_from_spec() -> bool {
        true
    }

    open spec fn from_spec(v: bool) -> Cell {
        cell_of(v)
    }
}

/// The opposite of a cell state.
pub open spec fn inverted(cell: Cell) -> Cell {
    match cell {
        Cell::Alive => Cell::Dead,
        Cell::Dead => Cell::Alive,
    }
}

impl Cell {
    /// Returns the opposite of the current cell.
    pub fn invert(self) -> (r: Cell)
        ensures
            r == inverted(self),
            r != self,
    {
        match self {
            Cell::Alive => Cell::Dead,
            Cell::Dead => Cell::Alive,
        }
    }
}

/// Inverting a cell twice gives back the cell.
pub proof fn law_invert_involution(cell: Cell)
    ensures
        inverted(inverted(cell)) == cell,
{
}

/// Converting a cell to a boolean and back gives back the cell,
/// and converting a boolean to a cell and back gives back the boolean.
pub proof fn law_bool_roundtrip(cell: Cell, value: bool)
    ensures
        cell_of(bool_of(cell)) == cell,
        bool_of(cell_of(value)) == value,
{
}

} // verus!
