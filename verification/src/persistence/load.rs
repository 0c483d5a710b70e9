//! Checking board and blueprint data read from files against the sizes they claim.
use vstd::prelude::*;
use crate::bits::cell_bits;
use crate::data::{SimulationBlueprint, SimulationSave};
use crate::position::is_i32;

verus! {

/// `std::io::Error`, carried through the errors of reading a file; nothing is read from it.
#[verifier::external_type_specification]
#[verifier::external_body]
pub struct ExIoError(std::io::Error);

/// `serde_json::Error`, carried through the errors of parsing a file; nothing is read from it.
#[verifier::external_type_specification]
#[verifier::external_body]
pub struct ExJsonError(serde_json::Error);

/// Returns true if the given number is equal to the given usize.
pub fn usize_eq(unsigned_size: usize, other_num: u128) -> (r: bool)
    ensures
        r == (unsigned_size == other_num),
{
    unsigned_size as u128 == other_num
}

/// The possible errors when attempting to parse a save file from disk.
#[derive(Debug)]
pub enum SaveParseError {
    /// Unable to read file.
    FileRead(std::io::Error),
    /// File is not a valid save file.
    InvalidData(serde_json::Error),
    /// Simulation data does not match the area allocated for this board.
    UnexpectedSize { data_area: usize, allocated_area: u128 },
}

/// The possible errors when attempting to parse a blueprint from disk.
#[derive(Debug)]
pub enum BlueprintParseError {
    /// Unable to read file.
    FileRead(std::io::Error),
    /// File is not a valid blueprint file.
    InvalidData(serde_json::Error),
    /// Blueprint cell data does not match the area allocated for this blueprint.
    UnexpectedSize { data_size: usize, allocated_size: u128 },
    /// The size of this blueprint is too large for your computer.
    BlueprintTooBig,
}

/// The number of cells that a save claims: the product of its area's x and y differences.
pub open spec fn claimed_board_size(simulation: SimulationSave) -> int {
    (simulation.board_area@.max_x - simulation.board_area@.min_x) * (simulation.board_area@.max_y
        - simulation.board_area@.min_y)
}

/// The number of cells that a blueprint claims: the product of its sizes.
pub open spec fn claimed_blueprint_size(blueprint: SimulationBlueprint) -> int {
    blueprint.x_size * blueprint.y_size
}

/// Checks board data parsed from a save file: it is accepted when it holds one bit per cell that
/// its area claims, the product of the area's x and y differences.
///
/// Note that a board save holds one bit for every cell of its area, borders included, which is
/// `(x difference + 1) * (y difference + 1)` bits, so a save made by `Simulator::save_board` does not
/// pass this check.
pub fn load_board_data(simulation: SimulationSave) -> (r: Result<SimulationSave, SaveParseError>)
    requires
        is_i32(simulation.board_area@.max_x - simulation.board_area@.min_x),
        is_i32(simulation.board_area@.max_y - simulation.board_area@.min_y),
    ensures
        r == (if cell_bits(simulation.board_data).len() == claimed_board_size(simulation) {
            Ok(simulation)
        } else {
            Err(
                SaveParseError::UnexpectedSize {
                    data_area: cell_bits(simulation.board_data).len() as usize,
                    allocated_area: claimed_board_size(simulation) as u128,
                },
            )
        }),
{
    let x = simulation.board_area.x_difference() as u128;
    let y = simulation.board_area.y_difference() as u128;
    assert(x * y <= 0x1_0000_0000 * 0x1_0000_0000) by (nonlinear_arith)
        requires
            x <= 0x1_0000_0000,
            y <= 0x1_0000_0000,
    ;
    let area: u128 = x * y;
    let unsigned_size = simulation.board_data.len();
    if !usize_eq(unsigned_size, area) {
        return Err(SaveParseError::UnexpectedSize { data_area: unsigned_size, allocated_area: area });
    }
    Ok(simulation)
}

/// Checks a blueprint parsed from a file: it is accepted when it holds one bit per cell that
/// its sizes claim, the product of its x and y sizes.
///
/// Note that a blueprint saved by `Simulator::save_blueprint` holds `(x size + 1) * (y size + 1)`
/// bits, so it does not pass this check.
pub fn load_blueprint(blueprint: SimulationBlueprint) -> (r: Result<SimulationBlueprint, BlueprintParseError>)
    ensures
        r == (if cell_bits(blueprint.blueprint_data).len() == claimed_blueprint_size(blueprint) {
            Ok(blueprint)
        } else {
            Err(
                BlueprintParseError::UnexpectedSize {
                    data_size: cell_bits(blueprint.blueprint_data).len() as usize,
                    allocated_size: claimed_blueprint_size(blueprint) as u128,
                },
            )
        }),
{
    let x = blueprint.x_size as u128;
    let y = blueprint.y_size as u128;
    assert(x * y <= 0x1_0000_0000 * 0x1_0000_0000) by (nonlinear_arith)
        requires
            x <= 0x1_0000_0000,
            y <= 0x1_0000_0000,
    ;
    let area: u128 = x * y;
    let unsigned_size = blueprint.blueprint_data.len();
    if !usize_eq(unsigned_size, area) {
        return Err(BlueprintParseError::UnexpectedSize { data_size: unsigned_size, allocated_size: area });
    }
    Ok(blueprint)
}

} // verus!
