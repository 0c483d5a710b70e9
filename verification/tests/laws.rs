use gol_lib::communication::UiPacket;
use gol_lib::user_actions::{Action, History};
use gol_lib::{Area, Board, Cell, GlobalPosition, Simulator};

#[test]
/// Saving a board and loading the save into another board gives back the same cells and generation.
fn save_then_load_board() {
    let mut board = Board::new();
    for (x, y) in [(-3, 2), (0, 0), (4, -1), (1, 1)] {
        board.set(GlobalPosition::new(x, y), Cell::Alive);
    }
    board.set_generation(42);
    let save = board.save_board();

    let mut other = Board::new();
    other.set(GlobalPosition::new(10, 10), Cell::Alive);
    other.load_board(save);
    for position in Area::new((-12, -12), (12, 12)).iterate_over() {
        assert_eq!(other.get(position), board.get(position), "at {position:?}");
    }
    assert_eq!(other.get_generation(), 42);
}

#[test]
/// Loading a blueprint at the corner of the area it was saved from leaves the board unchanged.
fn save_then_load_blueprint() {
    let mut board = Board::new();
    for (x, y) in [(1, 1), (2, 3), (3, 2)] {
        board.set(GlobalPosition::new(x, y), Cell::Alive);
    }
    let area = Area::new((0, 0), (4, 4));
    let blueprint = board.save_blueprint(area);
    board.load_blueprint(area.get_min(), blueprint);
    for position in Area::new((-2, -2), (6, 6)).iterate_over() {
        let expected = if [(1, 1), (2, 3), (3, 2)].contains(&(position.get_x(), position.get_y())) {
            Cell::Alive
        } else {
            Cell::Dead
        };
        assert_eq!(board.get(position), expected);
    }
}

#[test]
/// An undo followed by a redo replays the undone action and returns the history to where it was.
fn undo_then_redo() {
    let mut history = History::default();
    history.add_action(Action::set(GlobalPosition::new(1, 2), Cell::Alive));
    history.add_action(Action::set(GlobalPosition::new(3, 4), Cell::Dead));
    let undo = history.undo();
    assert_eq!(undo, vec![UiPacket::SetCell { position: GlobalPosition::new(3, 4), cell_state: Cell::Alive }]);
    assert_eq!(history.undo_index(), 1);
    let redo = history.redo();
    assert_eq!(redo, vec![UiPacket::SetCell { position: GlobalPosition::new(3, 4), cell_state: Cell::Dead }]);
    assert_eq!(history.undo_index(), 0);
}

#[test]
/// Undo gives packets exactly when an action can be undone; adding an action leaves nothing to redo.
fn availability_matches_packets() {
    let mut history = History::default();
    assert!(!history.can_undo());
    assert!(history.undo().is_empty());
    history.add_action(Action::set(GlobalPosition::new(0, 0), Cell::Alive));
    assert!(history.can_undo());
    assert!(!history.undo().is_empty());
    assert!(history.can_redo());
    history.add_action(Action::set(GlobalPosition::new(5, 5), Cell::Alive));
    assert!(!history.can_redo());
    assert_eq!(
        history.undo(),
        vec![UiPacket::SetCell { position: GlobalPosition::new(5, 5), cell_state: Cell::Dead }]
    );
}

#[test]
/// Adding an action after an undo discards the undone action, also when the history is not full.
fn add_discards_undone_action() {
    let mut history = History::default();
    history.add_action(Action::set(GlobalPosition::new(0, 0), Cell::Alive));
    history.add_action(Action::set(GlobalPosition::new(0, 1), Cell::Alive));
    let _ = history.undo();
    history.add_action(Action::set(GlobalPosition::new(1, 1), Cell::Alive));
    assert!(!history.can_redo());
    assert_eq!(
        history.undo(),
        vec![UiPacket::SetCell { position: GlobalPosition::new(1, 1), cell_state: Cell::Dead }]
    );
    assert_eq!(
        history.undo(),
        vec![UiPacket::SetCell { position: GlobalPosition::new(0, 0), cell_state: Cell::Dead }]
    );
    assert!(history.undo().is_empty());
}

#[test]
/// Inverting a cell twice gives it back.
fn invert_twice() {
    assert_eq!(Cell::Alive.invert().invert(), Cell::Alive);
    assert_eq!(Cell::Dead.invert(), Cell::Alive);
    assert!(bool::from(Cell::from(true)));
}

#[test]
/// A blinker turns from a row into a column and back.
fn blinker_oscillates() {
    let mut board = Board::new();
    for x in 0..3 {
        board.set(GlobalPosition::new(x, 0), Cell::Alive);
    }
    board.tick();
    for y in -1..=1 {
        assert_eq!(board.get(GlobalPosition::new(1, y)), Cell::Alive);
    }
    assert_eq!(board.get(GlobalPosition::new(0, 0)), Cell::Dead);
    board.tick();
    for x in 0..3 {
        assert_eq!(board.get(GlobalPosition::new(x, 0)), Cell::Alive);
    }
    assert_eq!(board.get(GlobalPosition::new(1, 1)), Cell::Dead);
}
