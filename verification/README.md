# gol_lib

Conway's game of life, written in Verus: the rules of the game, a board that simulates them,
the decisions of the simulator thread, the undo history of the user's edits, and the save and
blueprint files.

## Layout

- `src/` is the verified library.
  - `life.rs` states the rules over the set of alive cells; `board.rs` is a board that follows them
    (`Board::tick` is proved to compute the next generation of the whole board).
  - `simulator.rs` is the interface that every board offers, with saving and loading of boards and
    blueprints built on top and proved to give back what was saved.
  - `control.rs` decides what the simulator thread does with each packet from the interface and on
    each round of its loop.
  - `user_actions.rs` is the undo and redo history, kept in a `circular_buffer` buffer.
  - `persistence.rs` and `persistence/` hold the save format, the names of save files (hashed with
    the standard library's `DefaultHasher`) and the checks of data read back.
  - `area.rs`, `position.rs`, `cell.rs`, `display.rs`, `bits.rs`, `communication.rs`,
    `display_path.rs` and `selection.rs` hold the smaller types.
- `tests/` runs the library on concrete values.
- `app/` is the program around the library: the simulator thread and its channels, file reading
  and writing with serde, and the command line.
