//! The decisions of the simulator thread: how it answers each packet from the ui,
//! and what it does next on each round of its loop.
//!
//! The thread itself (receiving packets, sleeping, pacing the ticks) runs outside the library;
//! it hands each event to these functions and performs the action they return.
use vstd::prelude::*;
use crate::area::{Area, AreaView, group_area};
use crate::bits::{cell_bits, MAX_BITS};
use crate::cell::Cell;
use crate::communication::{SimulatorPacket, UiPacket};
use crate::data::{SimulationBlueprint, SimulationSave};
use crate::display::BoardDisplay;
use crate::life::{away_from_edge, life_step};
use crate::position::{GlobalPosition, group_position, is_i32};
use crate::simulator::{
    Simulator,
    area_bits,
    blueprint_target,
    display_grid,
    is_board_area,
    lemma_board_area_unique,
    overlay,
};

verus! {

broadcast use {group_position, group_area};

/// What the simulator thread remembers from one round of its loop to the next.
#[derive(Debug, PartialEq, Eq, Structural, Clone, Copy)]
pub struct ControlState {
    /// Whether the simulation is running.
    pub is_running: bool,
    /// The generation given by the last request to run until a generation, if any.
    pub run_until: Option<u64>,
    /// Whether the ticks are paced by the tick rate limiter.
    pub tick_rate_limited: bool,
    /// Whether the board changed since the display was last updated.
    pub display_needs_updating: bool,
}

impl ControlState {
    /// The state the thread starts in: stopped, unpaced, with nothing to display.
    pub fn new() -> (r: Self)
        ensures
            r == (ControlState {
                is_running: false,
                run_until: None,
                tick_rate_limited: false,
                display_needs_updating: false,
            }),
    {
        ControlState { is_running: false, run_until: None, tick_rate_limited: false, display_needs_updating: false }
    }
}

/// What the simulator thread does after handling a packet.
#[derive(Debug, PartialEq, Eq)]
pub enum PacketEffect {
    /// Go on with the next packet.
    Continue,
    /// Send this packet to the ui, then go on.
    Reply(SimulatorPacket),
    /// Pace the ticks at this many per second, then go on.
    SetTickRate(u32),
    /// End the simulator thread.
    Terminate,
    /// The request names cells or sizes outside what a board or its saved data can hold;
    /// the thread cannot carry it out.
    Overflow,
}

/// What the simulator thread does in a round of its loop, once every waiting packet is handled.
#[derive(Debug, PartialEq, Eq)]
pub enum StepAction {
    /// The simulation is stopped: wait about a tenth of a second.
    /// Carries the new display when the board changed since the last one.
    Idle(Option<BoardDisplay>),
    /// The generation to run until has been passed: the simulation stopped.
    Stopped,
    /// Advance the simulation by a tick; first wait for the tick rate limiter when `rate_limited`.
    Tick { rate_limited: bool },
}

/// Every rectangle that bounds the board holds no more cells than a bit-vector can.
pub open spec fn save_fits(cells: Set<(int, int)>) -> bool {
    forall|a: AreaView| #[trigger] is_board_area(cells, a) ==> a.cell_count() <= MAX_BITS
}

/// The area can be saved as a blueprint: its sizes fit an `i32` and its cells fit a bit-vector.
pub open spec fn blueprint_area_fits(a: AreaView) -> bool {
    &&& is_i32(a.max_x - a.min_x)
    &&& is_i32(a.max_y - a.min_y)
    &&& a.cell_count() <= MAX_BITS
}

/// A blueprint of the given sizes can be loaded at the given position:
/// its sizes and the corner opposite the position fit an `i32`.
pub open spec fn blueprint_load_fits(load: (int, int), x_size: int, y_size: int) -> bool {
    &&& x_size <= i32::MAX
    &&& y_size <= i32::MAX
    &&& is_i32(load.0 + x_size)
    &&& is_i32(load.1 + y_size)
}

/// The reply carries a save of the board: its generation, the area that bounds it, and a bit per cell of that area.
pub open spec fn is_board_reply(r: PacketEffect, cells: Set<(int, int)>, generation: u64) -> bool {
    match r {
        PacketEffect::Reply(SimulatorPacket::BoardSave { board }) => {
            &&& board.generation == generation
            &&& is_board_area(cells, board.board_area@)
            &&& cell_bits(board.board_data) == area_bits(cells, board.board_area@)
        },
        _ => false,
    }
}

/// The reply carries a blueprint of the area: its sizes and a bit per cell of it.
pub open spec fn is_blueprint_reply(r: PacketEffect, cells: Set<(int, int)>, a: AreaView) -> bool {
    match r {
        PacketEffect::Reply(SimulatorPacket::BlueprintSave { blueprint }) => {
            &&& blueprint.x_size == a.max_x - a.min_x
            &&& blueprint.y_size == a.max_y - a.min_y
            &&& cell_bits(blueprint.blueprint_data) == area_bits(cells, a)
        },
        _ => false,
    }
}

/// Whether the simulation runs after a packet: start requests set it running, a stop request stops it,
/// and every other packet leaves it as it was.
pub open spec fn running_after(running: bool, packet: UiPacket) -> bool {
    match packet {
        UiPacket::Start => true,
        UiPacket::StartUntil { .. } => true,
        UiPacket::Stop => false,
        _ => running,
    }
}

/// What handling a packet makes of a simulator's alive cells, generation and display area:
/// setting a cell, loading a board or a blueprint that fits, and moving the display area change them;
/// every other packet leaves them as they were.
pub open spec fn board_after(board: (Set<(int, int)>, u64, Area), packet: UiPacket) -> (Set<(int, int)>, u64, Area) {
    match packet {
        UiPacket::DisplayArea { new_area } => (board.0, board.1, new_area),
        UiPacket::SetCell { position, cell_state } => (
            if cell_state == Cell::Alive {
                board.0.insert(position@)
            } else {
                board.0.remove(position@)
            },
            board.1,
            board.2,
        ),
        UiPacket::LoadBoard { board: save } => (
            overlay(Set::<(int, int)>::empty(), save.board_area@, cell_bits(save.board_data)),
            save.generation,
            board.2,
        ),
        UiPacket::LoadBlueprint { load_position, blueprint } => if blueprint_load_fits(
            load_position@,
            blueprint.x_size as int,
            blueprint.y_size as int,
        ) {
            (
                overlay(
                    board.0,
                    blueprint_target(load_position@, blueprint.x_size as int, blueprint.y_size as int),
                    cell_bits(blueprint.blueprint_data),
                ),
                board.1,
                board.2,
            )
        } else {
            board
        },
        _ => board,
    }
}

/// The reply that handling a packet gives for a simulator with the given alive cells and generation:
/// a save of the board or of an area when one is asked for and fits, and the end of the thread on
/// a terminate request.
pub open spec fn reply_fits(cells: Set<(int, int)>, generation: u64, packet: UiPacket, r: PacketEffect) -> bool {
    match packet {
        UiPacket::SaveBoard => if save_fits(cells) {
            is_board_reply(r, cells, generation)
        } else {
            r == PacketEffect::Overflow
        },
        UiPacket::SaveBlueprint { area } => if blueprint_area_fits(area@) {
            is_blueprint_reply(r, cells, area@)
        } else {
            r == PacketEffect::Overflow
        },
        UiPacket::Terminate => r == PacketEffect::Terminate,
        _ => true,
    }
}

/// The alive cells, generation and display area after a queue of packets has been handled in order.
pub open spec fn board_after_queue(board: (Set<(int, int)>, u64, Area), packets: Seq<UiPacket>) -> (
    Set<(int, int)>,
    u64,
    Area,
)
    decreases packets.len(),
{
    if packets.len() == 0 {
        board
    } else {
        board_after(board_after_queue(board, packets.drop_last()), packets.last())
    }
}

/// The number of cells of an area.
fn cell_count(area: &Area) -> (r: u128)
    ensures
        r == area@.cell_count(),
{
    let min = area.get_min();
    let max = area.get_max();
    let width = (max.get_x() as i64 - min.get_x() as i64 + 1) as u128;
    let height = (max.get_y() as i64 - min.get_y() as i64 + 1) as u128;
    assert(width * height <= 0x2_0000_0000 * 0x2_0000_0000) by (nonlinear_arith)
        requires
            width <= 0x2_0000_0000,
            height <= 0x2_0000_0000,
    ;
    width * height
}

/// Handles one packet from the ui: the simulator and the thread's state change as the packet asks,
/// and the result says what the thread does next.
pub fn handle_packet<S: Simulator>(simulator: &mut S, state: &mut ControlState, packet: UiPacket) -> (r:
    PacketEffect)
    ensures
        final(state).is_running == running_after(old(state).is_running, packet),
        (final(simulator).alive_cells(), final(simulator).current_generation(), final(simulator).display_area())
            == board_after(
            (old(simulator).alive_cells(), old(simulator).current_generation(), old(simulator).display_area()),
            packet,
        ),
        reply_fits(old(simulator).alive_cells(), old(simulator).current_generation(), packet, r),
        match packet {
            UiPacket::DisplayArea { new_area } => {
                &&& final(simulator).display_area() == new_area
                &&& final(simulator).alive_cells() == old(simulator).alive_cells()
                &&& final(simulator).current_generation() == old(simulator).current_generation()
                &&& *final(state) == ControlState { display_needs_updating: true, ..*old(state) }
                &&& r == PacketEffect::Continue
            },
            UiPacket::SetCell { position, cell_state } => {
                &&& final(simulator).alive_cells() == (if cell_state == Cell::Alive {
                    old(simulator).alive_cells().insert(position@)
                } else {
                    old(simulator).alive_cells().remove(position@)
                })
                &&& final(simulator).current_generation() == old(simulator).current_generation()
                &&& final(simulator).display_area() == old(simulator).display_area()
                &&& *final(state) == ControlState { display_needs_updating: true, ..*old(state) }
                &&& r == PacketEffect::Continue
            },
            UiPacket::SaveBoard => {
                &&& *final(simulator) == *old(simulator)
                &&& *final(state) == *old(state)
                &&& (r is Overflow <==> !save_fits(old(simulator).alive_cells()))
                &&& (save_fits(old(simulator).alive_cells()) ==> is_board_reply(
                    r,
                    old(simulator).alive_cells(),
                    old(simulator).current_generation(),
                ))
            },
            UiPacket::LoadBoard { board } => {
                &&& final(simulator).alive_cells() == overlay(
                    Set::<(int, int)>::empty(),
                    board.board_area@,
                    cell_bits(board.board_data),
                )
                &&& final(simulator).current_generation() == board.generation
                &&& final(simulator).display_area() == old(simulator).display_area()
                &&& *final(state) == ControlState { display_needs_updating: true, ..*old(state) }
                &&& r == PacketEffect::Continue
            },
            UiPacket::SaveBlueprint { area } => {
                &&& *final(simulator) == *old(simulator)
                &&& *final(state) == *old(state)
                &&& (r is Overflow <==> !blueprint_area_fits(area@))
                &&& (blueprint_area_fits(area@) ==> is_blueprint_reply(r, old(simulator).alive_cells(), area@))
            },
            UiPacket::LoadBlueprint { load_position, blueprint } => {
                if blueprint_load_fits(load_position@, blueprint.x_size as int, blueprint.y_size as int) {
                    &&& final(simulator).alive_cells() == overlay(
                        old(simulator).alive_cells(),
                        blueprint_target(load_position@, blueprint.x_size as int, blueprint.y_size as int),
                        cell_bits(blueprint.blueprint_data),
                    )
                    &&& final(simulator).current_generation() == old(simulator).current_generation()
                    &&& final(simulator).display_area() == old(simulator).display_area()
                    &&& *final(state) == ControlState { display_needs_updating: true, ..*old(state) }
                    &&& r == PacketEffect::Continue
                } else {
                    &&& *final(simulator) == *old(simulator)
                    &&& *final(state) == *old(state)
                    &&& r == PacketEffect::Overflow
                }
            },
            UiPacket::Start => {
                &&& *final(simulator) == *old(simulator)
                &&& *final(state) == ControlState { is_running: true, ..*old(state) }
                &&& r == PacketEffect::Continue
            },
            UiPacket::StartUntil { generation } => {
                &&& *final(simulator) == *old(simulator)
                &&& *final(state) == ControlState {
                    is_running: true,
                    run_until: Some(generation),
                    ..*old(state)
                }
                &&& r == PacketEffect::Continue
            },
            UiPacket::Stop => {
                &&& *final(simulator) == *old(simulator)
                &&& *final(state) == ControlState { is_running: false, ..*old(state) }
                &&& r == PacketEffect::Continue
            },
            UiPacket::SimulationSpeed { speed } => {
                &&& *final(simulator) == *old(simulator)
                &&& *final(state) == ControlState {
                    tick_rate_limited: speed.ticks_view() is Some,
                    ..*old(state)
                }
                &&& r == (match speed.ticks_view() {
                    Some(ticks) => PacketEffect::SetTickRate(ticks),
                    None => PacketEffect::Continue,
                })
            },
            UiPacket::Terminate => {
                &&& *final(simulator) == *old(simulator)
                &&& *final(state) == *old(state)
                &&& r == PacketEffect::Terminate
            },
        },
{
    match packet {
        UiPacket::DisplayArea { new_area } => {
            simulator.set_display_area(new_area);
            state.display_needs_updating = true;
            PacketEffect::Continue
        },
        UiPacket::SetCell { position, cell_state } => {
            simulator.set(position, cell_state);
            state.display_needs_updating = true;
            PacketEffect::Continue
        },
        UiPacket::SaveBoard => {
            let area = simulator.get_board_area();
            if cell_count(&area) <= MAX_BITS as u128 {
                proof {
                    assert forall|a: AreaView| #[trigger]
                        is_board_area(simulator.alive_cells(), a) implies a.cell_count() <= MAX_BITS by {
                        lemma_board_area_unique(simulator.alive_cells(), a, area@);
                    }
                }
                let board = simulator.save_board();
                PacketEffect::Reply(SimulatorPacket::BoardSave { board })
            } else {
                proof {
                    assert(is_board_area(simulator.alive_cells(), area@));
                }
                PacketEffect::Overflow
            }
        },
        UiPacket::LoadBoard { board } => {
            simulator.load_board(board);
            state.display_needs_updating = true;
            PacketEffect::Continue
        },
        UiPacket::SaveBlueprint { area } => {
            let min = area.get_min();
            let max = area.get_max();
            let dx = max.get_x() as i64 - min.get_x() as i64;
            let dy = max.get_y() as i64 - min.get_y() as i64;
            if dx <= i32::MAX as i64 && dy <= i32::MAX as i64 && cell_count(&area) <= MAX_BITS as u128 {
                let blueprint = simulator.save_blueprint(area);
                PacketEffect::Reply(SimulatorPacket::BlueprintSave { blueprint })
            } else {
                PacketEffect::Overflow
            }
        },
        UiPacket::LoadBlueprint { load_position, blueprint } => {
            let x = load_position.get_x() as i64;
            let y = load_position.get_y() as i64;
            let x_size = blueprint.x_size as i64;
            let y_size = blueprint.y_size as i64;
            if x_size <= i32::MAX as i64 && y_size <= i32::MAX as i64 && x + x_size <= i32::MAX as i64 && y
                + y_size <= i32::MAX as i64 {
                simulator.load_blueprint(load_position, blueprint);
                state.display_needs_updating = true;
                PacketEffect::Continue
            } else {
                PacketEffect::Overflow
            }
        },
        UiPacket::Start => {
            state.is_running = true;
            PacketEffect::Continue
        },
        UiPacket::StartUntil { generation } => {
            state.is_running = true;
            state.run_until = Some(generation);
            PacketEffect::Continue
        },
        UiPacket::Stop => {
            state.is_running = false;
            PacketEffect::Continue
        },
        UiPacket::SimulationSpeed { speed } => match speed.get() {
            Some(ticks_per_second) => {
                state.tick_rate_limited = true;
                PacketEffect::SetTickRate(ticks_per_second)
            },
            None => {
                state.tick_rate_limited = false;
                PacketEffect::Continue
            },
        },
        UiPacket::Terminate => PacketEffect::Terminate,
    }
}

/// Decides a round of the loop, once the packets are handled.
///
/// A stopped simulation idles, refreshing the display when the board changed.
/// A running one stops once it has reached the generation it was asked to run until;
/// otherwise it ticks, paced when a tick rate was set.
pub fn plan_step<S: Simulator>(simulator: &S, state: &mut ControlState) -> (r: StepAction)
    ensures
        !old(state).is_running ==> {
            &&& *final(state) == ControlState { display_needs_updating: false, ..*old(state) }
            &&& match r {
                StepAction::Idle(display) => match display {
                    Some(d) => old(state).display_needs_updating && d.generation_view()
                        == simulator.current_generation() && d.grid() == display_grid(
                        simulator.alive_cells(),
                        simulator.display_area()@,
                    ),
                    None => !old(state).display_needs_updating,
                },
                _ => false,
            }
        },
        old(state).is_running ==> match old(state).run_until {
            Some(generation) if simulator.current_generation() >= generation => {
                &&& *final(state) == ControlState { is_running: false, ..*old(state) }
                &&& r == StepAction::Stopped
            },
            _ => {
                &&& *final(state) == *old(state)
                &&& r == (StepAction::Tick { rate_limited: old(state).tick_rate_limited })
            },
        },
{
    if !state.is_running {
        if state.display_needs_updating {
            let display = simulator.display_board();
            state.display_needs_updating = false;
            return StepAction::Idle(Some(display));
        }
        return StepAction::Idle(None);
    }
    if let Some(generation) = state.run_until {
        if simulator.get_generation() >= generation {
            state.is_running = false;
            return StepAction::Stopped;
        }
    }
    StepAction::Tick { rate_limited: state.tick_rate_limited }
}

/// Advances the simulation by a tick and gives the display of the new board;
/// gives `None`, and leaves the simulator as it was, when the tick cannot be computed
/// (an alive cell lies on the outermost rows or columns, or the generation cannot be counted up).
pub fn advance<S: Simulator>(simulator: &mut S) -> (r: Option<BoardDisplay>)
    ensures
        r is Some <==> (away_from_edge(old(simulator).alive_cells()) && old(simulator).current_generation()
            < u64::MAX),
        r is Some ==> {
            &&& final(simulator).alive_cells() == life_step(old(simulator).alive_cells())
            &&& final(simulator).current_generation() == old(simulator).current_generation() + 1
            &&& final(simulator).display_area() == old(simulator).display_area()
            &&& r->0.generation_view() == final(simulator).current_generation()
            &&& r->0.grid() == display_grid(final(simulator).alive_cells(), final(simulator).display_area()@)
        },
        r is None ==> *final(simulator) == *old(simulator),
{
    if !simulator.can_tick() {
        return None;
    }
    simulator.tick();
    Some(simulator.display_board())
}

/// The simulation is still stopped after the first `k` packets of the queue.
proof fn lemma_stopped_after(running: Seq<bool>, packets: Seq<UiPacket>, k: int)
    requires
        running.len() == packets.len() + 1,
        !running[0],
        forall|i: int| 0 <= i < packets.len() ==> !(#[trigger] packets[i] is Start) && !(packets[i] is StartUntil),
        forall|i: int|
            0 <= i < packets.len() ==> running[i + 1] == running_after(running[i], #[trigger] packets[i]),
        0 <= k < running.len(),
    ensures
        !running[k],
    decreases k,
{
    if k > 0 {
        lemma_stopped_after(running, packets, k - 1);
        assert(running[k] == running_after(running[k - 1], packets[k - 1]));
    }
}

/// A stopped simulation that is handed a queue of packets, none of which asks it to start, stays
/// stopped while it handles them: after each packet the round of the loop idles and never ticks.
pub proof fn law_queue_keeps_stopped(running: Seq<bool>, packets: Seq<UiPacket>)
    requires
        running.len() == packets.len() + 1,
        !running[0],
        forall|i: int| 0 <= i < packets.len() ==> !(#[trigger] packets[i] is Start) && !(packets[i] is StartUntil),
        forall|i: int|
            0 <= i < packets.len() ==> running[i + 1] == running_after(running[i], #[trigger] packets[i]),
    ensures
        forall|i: int| 0 <= i < running.len() ==> !#[trigger] running[i],
{
    assert forall|i: int| 0 <= i < running.len() implies !#[trigger] running[i] by {
        lemma_stopped_after(running, packets, i);
    }
}

/// The boards seen while a queue of packets is handled in order are the ones that handling its
/// first packets gives.
proof fn lemma_boards_in_order(
    boards: Seq<(Set<(int, int)>, u64, Area)>,
    packets: Seq<UiPacket>,
    k: int,
)
    requires
        boards.len() == packets.len() + 1,
        forall|i: int| 0 <= i < packets.len() ==> boards[i + 1] == board_after(boards[i], #[trigger] packets[i]),
        0 <= k < boards.len(),
    ensures
        boards[k] == board_after_queue(boards[0], packets.take(k)),
    decreases k,
{
    if k > 0 {
        lemma_boards_in_order(boards, packets, k - 1);
        assert(packets.take(k).drop_last() == packets.take(k - 1));
        assert(packets.take(k).last() == packets[k - 1]);
    }
}

/// Handling a queue of packets one after the other, with no request to start among them, handles
/// them in order: after the first `k` packets the simulator's cells, generation and display area are
/// what those packets make of the first board, the simulation stays stopped (so no round of the loop
/// ticks), and each save request is answered with a save of the board as the packets before it left it.
pub proof fn law_queue_in_order(
    boards: Seq<(Set<(int, int)>, u64, Area)>,
    running: Seq<bool>,
    packets: Seq<UiPacket>,
    replies: Seq<PacketEffect>,
)
    requires
        boards.len() == packets.len() + 1,
        running.len() == packets.len() + 1,
        replies.len() == packets.len(),
        !running[0],
        forall|i: int| 0 <= i < packets.len() ==> !(#[trigger] packets[i] is Start) && !(packets[i] is StartUntil),
        forall|i: int| 0 <= i < packets.len() ==> boards[i + 1] == board_after(boards[i], #[trigger] packets[i]),
        forall|i: int|
            0 <= i < packets.len() ==> running[i + 1] == running_after(running[i], #[trigger] packets[i]),
        forall|i: int|
            0 <= i < packets.len() ==> reply_fits(boards[i].0, boards[i].1, #[trigger] packets[i], replies[i]),
    ensures
        forall|k: int|
            0 <= k < boards.len() ==> #[trigger] boards[k] == board_after_queue(boards[0], packets.take(k)),
        forall|k: int| 0 <= k < running.len() ==> !#[trigger] running[k],
        forall|k: int|
            0 <= k < packets.len() ==> reply_fits(
                board_after_queue(boards[0], packets.take(k)).0,
                board_after_queue(boards[0], packets.take(k)).1,
                #[trigger] packets[k],
                replies[k],
            ),
{
    assert forall|k: int| 0 <= k < boards.len() implies #[trigger] boards[k] == board_after_queue(
        boards[0],
        packets.take(k),
    ) by {
        lemma_boards_in_order(boards, packets, k);
    }
    law_queue_keeps_stopped(running, packets);
    assert forall|k: int| 0 <= k < packets.len() implies reply_fits(
        board_after_queue(boards[0], packets.take(k)).0,
        board_after_queue(boards[0], packets.take(k)).1,
        #[trigger] packets[k],
        replies[k],
    ) by {
        lemma_boards_in_order(boards, packets, k);
    }
}

} // verus!
