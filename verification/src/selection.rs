//! The area of the board that the user selects by dragging.
use vstd::prelude::*;
use crate::position::GlobalPosition;

verus! {

/// Holds the information regarding the area of the board that was selected by the user.
#[derive(Debug, PartialEq, Eq, Structural, Clone, Copy)]
pub struct Selection {
    /// Where the drag started.
    pub drag_start: GlobalPosition,
    /// Where the drag is now, or ended.
    pub drag_end: GlobalPosition,
}

impl Selection {
    /// Creates a new selection starting at the given global position.
    pub fn new(pos: GlobalPosition) -> (r: Self)
        ensures
            r.drag_start == pos,
            r.drag_end == pos,
    {
        Self { drag_start: pos, drag_end: pos }
    }
}

} // verus!
