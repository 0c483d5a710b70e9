//! Conway's game of life: the board and its rules, the simulator thread's decisions,
//! the history of the user's edits, and the data that a simulation exchanges and saves.
pub mod area;
pub mod bits;
pub mod board;
pub mod cell;
pub mod communication;
pub mod control;
pub mod data;
pub mod display;
pub mod display_path;
pub mod life;
pub mod persistence;
pub mod position;
pub mod selection;
pub mod simulator;
pub mod user_actions;

pub use area::{Area, AreaView};
pub use bits::CellBits;
pub use board::Board;
pub use cell::Cell;
pub use communication::IsRunning;
pub use display::BoardDisplay;
pub use position::{GlobalPosition, IntoPosition};
pub use simulator::Simulator;
