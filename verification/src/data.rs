//! The board data that saves and blueprints consist of.
use vstd::prelude::*;
use crate::bits::{CellBits, cell_bits};
use crate::area::{Area, AreaView};

verus! {

/// The board data that a simulation consists of.
#[derive(PartialEq, Eq, Debug)]
pub struct SimulationSave {
    /// The generation the board was saved at.
    pub generation: u64,
    /// The area of the board that the data covers.
    pub board_area: Area,
    /// One bit per cell of the area, walked row by row (see [`Area::iterate_over`]).
    pub board_data: CellBits,
}

impl SimulationSave {
    /// Bundles a generation, an area and its cell data.
    pub fn new(generation: u64, board_area: Area, board_data: CellBits) -> (r: Self)
        ensures
            r.generation == generation,
            r.board_area == board_area,
            r.board_data == board_data,
    {
        Self { generation, board_area, board_data }
    }
}

impl Default for SimulationSave {
    /// An empty board of generation zero, covering the single cell at the origin with no data.
    fn default() -> (r: Self)
        ensures
            r.generation == 0,
            r.board_area@ == (AreaView { min_x: 0, min_y: 0, max_x: 0, max_y: 0 }),
            cell_bits(r.board_data) == Seq::<bool>::empty(),
    {
        SimulationSave { generation: 0, board_area: Area::default(), board_data: CellBits::new() }
    }
}

/// The board data that a blueprint consists of.
#[derive(PartialEq, Eq, Debug)]
pub struct SimulationBlueprint {
    /// The difference between the largest and the smallest x of the blueprint.
    pub x_size: u32,
    /// The difference between the largest and the smallest y of the blueprint.
    pub y_size: u32,
    /// One bit per cell, walked row by row.
    pub blueprint_data: CellBits,
}

impl SimulationBlueprint {
    /// Bundles the sizes of a blueprint and its cell data.
    pub fn new(x_size: u32, y_size: u32, blueprint_data: CellBits) -> (r: Self)
        ensures
            r.x_size == x_size,
            r.y_size == y_size,
            r.blueprint_data == blueprint_data,
    {
        Self { x_size, y_size, blueprint_data }
    }
}

impl Default for SimulationBlueprint {
    /// A blueprint of zero sizes with no data.
    fn default() -> (r: Self)
        ensures
            r.x_size == 0,
            r.y_size == 0,
            cell_bits(r.blueprint_data) == Seq::<bool>::empty(),
    {
        SimulationBlueprint { x_size: 0, y_size: 0, blueprint_data: CellBits::new() }
    }
}

} // verus!
