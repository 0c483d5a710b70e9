use gol_lib::GlobalPosition;

#[test]
/// Adding an offset, given as a position or as a pair, moves the position.
fn add_moves_position() {
    let position = GlobalPosition::new(1, -2);
    assert_eq!(position + (1, 1), GlobalPosition::new(2, -1));
    assert_eq!(position + GlobalPosition::new(-3, 4), GlobalPosition::new(-2, 2));
}

#[test]
/// Subtracting an offset moves the position back.
fn sub_moves_position_back() {
    let position = GlobalPosition::new(1, -2);
    assert_eq!(position - (1, 1), GlobalPosition::new(0, -3));
    assert_eq!(position - GlobalPosition::new(-3, 4), GlobalPosition::new(4, -6));
}

#[test]
fn pair_converts_to_position() {
    let position: GlobalPosition = (7, -8).into();
    assert_eq!(position.get_x(), 7);
    assert_eq!(position.get_y(), -8);
}
