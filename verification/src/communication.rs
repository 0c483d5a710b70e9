//! The messages that the ui and the simulation exchange.
use vstd::prelude::*;
use crate::area::Area;
use crate::cell::Cell;
use crate::data::{SimulationBlueprint, SimulationSave};
use crate::position::GlobalPosition;

verus! {

/// The data packets that the UI will send to the simulator.
#[derive(Debug, PartialEq, Eq)]
pub enum UiPacket {
    /// Requests for a new display area to be rendered.
    DisplayArea { new_area: Area },
    /// Sets a cell on the board.
    SetCell {
        /// The position of the cell to set.
        position: GlobalPosition,
        /// The state of the cell to set.
        cell_state: Cell,
    },
    /// Requests for the simulation to send a save of the boards current state to the ui for handling.
    SaveBoard,
    /// Sends a board to the simulation for it to simulate.
    LoadBoard {
        /// The board state to load.
        board: SimulationSave,
    },
    /// Requests for the simulation to send a save of a portion of the current board to the ui for handling.
    SaveBlueprint {
        /// The area to save.
        area: Area,
    },
    /// Sends a blueprint for the simulation to load.
    LoadBlueprint {
        /// The position of to load the blueprint at.
        /// The blueprint will be loaded with this position as the top left.
        load_position: GlobalPosition,
        /// The blueprint to load.
        blueprint: SimulationBlueprint,
    },
    /// Starts the simulation.
    Start,
    /// Starts the simulation, with it automatically stopping at the given generation.
    StartUntil { generation: u64 },
    /// Stops the simulation.
    Stop,
    /// Sets the current speed of the simulation.
    SimulationSpeed { speed: SimulationSpeed },
    /// Terminates the simulator thread.
    /// This is unrecoverable without relaunching the application.
    Terminate,
}

/// The data packets that the simulator will send to the ui.
#[derive(Debug, PartialEq, Eq)]
pub enum SimulatorPacket {
    /// A save of the boards current state.
    BoardSave { board: SimulationSave },
    /// A save of a portion of the board.
    BlueprintSave { blueprint: SimulationBlueprint },
}

/// The speed the simulation runs at.
#[derive(Debug, PartialEq, Eq, Clone, Copy)]
pub struct SimulationSpeed {
    /// The ticks per second, or `None` when the speed is not capped. Never `Some(0)`.
    ticks_per_second: Option<u32>,
}

impl SimulationSpeed {
    /// The ticks per second of this speed, `None` when uncapped.
    pub closed spec fn ticks_view(&self) -> Option<u32> {
        self.ticks_per_second
    }

    /// A capped speed never has zero ticks per second.
    #[verifier::type_invariant]
    pub closed spec fn inv(&self) -> bool {
        self.ticks_per_second != Some(0u32)
    }

    /// A simulation speed that is not capped.
    pub fn uncapped() -> (r: Self)
        ensures
            r.ticks_view() == None::<u32>,
    {
        Self { ticks_per_second: None }
    }

    /// A simulation speed capped at the given ticks per second; zero ticks per second becomes ten.
    pub fn new(ticks_per_second: u32) -> (r: Self)
        ensures
            r.ticks_view() == Some(if ticks_per_second == 0 {
                10u32
            } else {
                ticks_per_second
            }),
    {
        Self { ticks_per_second: Some(if ticks_per_second == 0 { 10 } else { ticks_per_second }) }
    }

    /// Gets the ticks per second the simulation will run at.
    /// If [`None`] is returned there is no cap for the simulation speed.
    pub fn get(&self) -> (r: Option<u32>)
        ensures
            r == self.ticks_view(),
            r != Some(0u32),
    {
        proof {
            use_type_invariant(self);
        }
        self.ticks_per_second
    }
}

/// This boolean value represents whether the simulation is currently running or not.
///
/// If it is true, the simulation is running.
/// If it is false, the simulation is not running.
///
/// This value **cannot** be changed to control the state of the simulation.
#[derive(Debug, PartialEq, Eq, Clone, Copy)]
pub struct IsRunning(bool);

impl IsRunning {
    /// Whether the simulation is running.
    pub closed spec fn running(&self) -> bool {
        self.0
    }

    /// Wraps whether the simulation is running.
    pub fn new(running: bool) -> (r: Self)
        ensures
            r.running() == running,
    {
        IsRunning(running)
    }
}

impl std::ops::Deref for IsRunning {
    type Target = bool;

    fn deref(&self) -> (r: &bool)
        ensures
            *r == self.running(),
    {
        &self.0
    }
}

} // verus!
