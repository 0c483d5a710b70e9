//! Contains [`BoardDisplay`].
//! See its documentation for more information.
use vstd::prelude::*;
use crate::cell::Cell;
use crate::position::IntoPosition;

verus! {

/// Holds the board data for the ui to display.
///
/// This data type assumes that each sub-array has the same length.
/// The top array can be any length, regardless of the sub-array length.
#[derive(PartialEq, Eq, Debug)]
pub struct BoardDisplay {
    /// The generation of the board to be displayed.
    generation: u64,
    /// The area of the board to display: `board[x][y]` is the cell in column `x`, row `y`.
    board: Vec<Box<[Cell]>>,
}

impl BoardDisplay {
    /// The generation of the displayed board.
    pub closed spec fn generation_view(&self) -> u64 {
        self.generation
    }

    /// The displayed cells, column by column.
    pub closed spec fn grid(&self) -> Seq<Seq<Cell>> {
        self.board@.map_values(|column: Box<[Cell]>| column@)
    }

    /// Constructs a new [`BoardDisplay`] with the given generation & the given board to display.
    pub fn new(generation: u64, board: Vec<Box<[Cell]>>) -> (r: Self)
        ensures
            r.generation_view() == generation,
            r.grid() == board@.map_values(|column: Box<[Cell]>| column@),
    {
        Self { generation, board }
    }

    /// Gets the amount of cells in the x axis.
    ///
    /// If the board is 0 sized then an amount of 10 will be returned.
    pub fn get_x(&self) -> (r: usize)
        ensures
            r == (if self.grid().len() == 0 {
                10
            } else {
                self.grid().len()
            }),
            r > 0,
    {
        let len = self.board.len();
        if len == 0 {
            10
        } else {
            len
        }
    }

    /// Gets the amount of cells in the y axis.
    ///
    /// If the board is 0 sized then an amount of 10 will be returned.
    pub fn get_y(&self) -> (r: usize)
        ensures
            r == (if self.grid().len() == 0 || self.grid()[0].len() == 0 {
                10
            } else {
                self.grid()[0].len()
            }),
            r > 0,
    {
        if self.board.len() == 0 {
            return 10;
        }
        let len = self.board[0].len();
        if len == 0 {
            10
        } else {
            len
        }
    }

    /// Gets the cell at the given position **relative** to this [BoardDisplay].
    ///
    /// If the given position is outside the bounds of the display board then [`Cell::Dead`] will be returned.
    pub fn get_cell(&self, position: impl IntoPosition) -> (r: Cell)
        ensures
            r == (if 0 <= position.position_view().0 < self.grid().len() && 0
                <= position.position_view().1 < self.grid()[position.position_view().0].len() {
                self.grid()[position.position_view().0][position.position_view().1]
            } else {
                Cell::Dead
            }),
    {
        let position = position.into_position();
        let x = position.get_x();
        let y = position.get_y();
        if x < 0 || y < 0 {
            return Cell::Dead;
        }
        let x = x as usize;
        let y = y as usize;
        if x < self.board.len() && y < self.board[x].len() {
            self.board[x][y]
        } else {
            Cell::Dead
        }
    }
}

impl Default for BoardDisplay {
    /// An empty display of generation zero.
    fn default() -> (r: Self)
        ensures
            r.generation_view() == 0,
            r.grid().len() == 0,
    {
        Self { generation: 0, board: Vec::new() }
    }
}

} // verus!
