use gol_lib::communication::UiPacket;
use gol_lib::user_actions::{Action, History, UNDO_BUFFER};
use gol_lib::Cell;

/// Creates a new [`History`] struct with a filled action buffer (see method for more details).
fn fill_buffer() -> History {
    let mut history = History::default();

    for index in 0..UNDO_BUFFER {
        history.add_action(Action::SetAlive {
            position: (0, index as i32).into(),
        });
    }

    assert!(history.is_full());
    history
}

/// Undo returns the correct actions in the correct order.
#[test]
fn undo() {
    let mut history = fill_buffer();

    for index in (0..UNDO_BUFFER).rev() {
        let undo = history.undo();
        let ui_packet = undo.get(0).unwrap();

        let expected_packet = &UiPacket::SetCell {
            position: (0, index as i32).into(),
            cell_state: Cell::Dead,
        };

        assert_eq!(ui_packet, expected_packet);
    }

    assert!(history.undo().is_empty());
}

/// Redo returns the correct actions in the correct order.
#[test]
fn redo() {
    let mut history = fill_buffer();

    // Undo the entire buffer
    for _ in 0..UNDO_BUFFER {
        let _ = history.undo();
    }

    // Will start at 0 as the most recent undo is for 0
    for index in 0..UNDO_BUFFER {
        let redo = history.redo();
        let ui_packet = redo.get(0).unwrap();

        let expected_packet = &UiPacket::SetCell {
            position: (0, index as i32).into(),
            cell_state: Cell::Alive,
        };

        assert_eq!(ui_packet, expected_packet);
    }

    // All actions have been redone
    assert!(history.redo().is_empty());
}

/// Calling redo at the start of the queue must return an empty vec
#[test]
fn excessive_redo() {
    let mut history = fill_buffer();

    // One undo
    assert_eq!(
        history.undo().get(0).unwrap(),
        &UiPacket::SetCell {
            position: (0, UNDO_BUFFER as i32 - 1).into(),
            cell_state: Cell::Dead,
        }
    );

    // One redo
    assert_eq!(
        history.redo().get(0).unwrap(),
        &UiPacket::SetCell {
            position: (0, UNDO_BUFFER as i32 - 1).into(),
            cell_state: Cell::Alive,
        }
    );

    // Further redo's will return nothing
    assert_eq!(history.redo(), Vec::new());
}

/// Calling undo at the end of the queue must return an empty vec
#[test]
fn excessive_undo() {
    let mut history = fill_buffer();

    for _ in 0..UNDO_BUFFER {
        assert!(!history.undo().is_empty());
    }

    // Attempt calling more undo's when all have been done
    assert!(history.undo().is_empty());
    assert!(history.undo().is_empty());

    assert_eq!(
        history.undo_index(), UNDO_BUFFER,
        "The undo index should be constrained to {UNDO_BUFFER}"
    );

    assert_eq!(
        history.redo(),
        vec![UiPacket::SetCell {
            position: (0, 0).into(),
            cell_state: Cell::Alive
        }]
    )
}

/// Editing from an undo should remove the previous actions and set this action to the first one.
#[test]
fn edit_from_undo() {
    let mut history = fill_buffer();

    assert_eq!(
        history.undo(),
        vec![UiPacket::SetCell {
            position: (0, UNDO_BUFFER as i32 - 1).into(),
            cell_state: Cell::Dead
        }]
    );
    assert_eq!(
        history.undo(),
        vec![UiPacket::SetCell {
            position: (0, UNDO_BUFFER as i32 - 2).into(),
            cell_state: Cell::Dead
        }]
    );

    // Perform an action
    history.add_action(Action::SetAlive {
        position: (1, 1).into(),
    });

    // At the start of queue so redo will have no effect
    assert_eq!(history.redo(), vec![]);

    // First undo is new action
    assert_eq!(
        history.undo(),
        vec![UiPacket::SetCell {
            position: (1, 1).into(),
            cell_state: Cell::Dead
        }]
    );
    // Second undo continues from original actions
    assert_eq!(
        history.undo(),
        vec![UiPacket::SetCell {
            position: (0, UNDO_BUFFER as i32 - 3).into(),
            cell_state: Cell::Dead
        }]
    );
}

/// [`History`] after clear must be identical to a new history.
#[test]
fn clear() {
    let mut history = fill_buffer();

    history.clear();

    assert_eq!(history, History::default());
}

/// Can undo must only be true when there are actions to undo.
#[test]
fn can_undo() {
    let mut history = fill_buffer();

    assert!(history.can_undo(), "There are actions that can be undone");

    for _ in 0..UNDO_BUFFER {
        let _ = history.undo();
    }

    assert!(!history.can_undo(), "There is no more actions to undo");
}

/// Can redo must only be true when there are arctions to redo.
#[test]
fn can_redo() {
    let mut history = fill_buffer();

    assert!(!history.can_redo(), "There are no actions to redo");

    let _ = history.undo();

    assert!(history.can_redo(), "There are actions that can be redone");
}
