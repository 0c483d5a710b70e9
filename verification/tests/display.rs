use gol_lib::{BoardDisplay, Cell};

fn generate_board() -> BoardDisplay {
    let mut board_build = Vec::new();
    for _ in 0..5 {
        let mut y_builder = Vec::new();
        for y in 0..6 {
            y_builder.push({
                if y % 2 == 0 {
                    Cell::Dead
                } else {
                    Cell::Alive
                }
            });
        }
        // Convert the vec into the correct type
        let array: Box<[Cell]> = y_builder.into();
        board_build.push(array);
    }

    BoardDisplay::new(0, board_build)
}

#[test]
fn default_is_correct() {
    let board_build: Vec<Box<[Cell]>> = Vec::new();
    assert_eq!(BoardDisplay::default(), BoardDisplay::new(0, board_build))
}

#[test]
fn default_x() {
    let get_x = BoardDisplay::default().get_x();
    assert_eq!(get_x, 10);
}

#[test]
fn default_y() {
    let get_y = BoardDisplay::default().get_y();
    assert_eq!(get_y, 10);
}

#[test]
fn get_x() {
    let generate_board = generate_board();
    assert_eq!(generate_board.get_x(), 5);
}

#[test]
fn get_y() {
    let generate_board = generate_board();
    assert_eq!(generate_board.get_y(), 6);
}

#[test]
fn dead_out_of_bounds() {
    let cell = BoardDisplay::default().get_cell((2, 2));
    assert_eq!(cell, Cell::Dead)
}

#[test]
fn get_cell() {
    // Populate vector with dummy data
    let board_display = generate_board();

    assert_eq!(board_display.get_cell((1, 1)), Cell::Alive);
    assert_eq!(board_display.get_cell((3, 4)), Cell::Dead);
}
