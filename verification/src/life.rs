//! The rules of Conway's game of life, stated over the set of alive cells.
use vstd::prelude::*;
use crate::position::is_i32;

verus! {

/// One when the cell at the given coordinates is alive, zero otherwise.
pub open spec fn alive_at(cells: Set<(int, int)>, x: int, y: int) -> int {
    if cells.contains((x, y)) {
        1
    } else {
        0
    }
}

/// The number of alive cells among the eight cells that surround the given coordinates.
pub open spec fn neighbour_count(cells: Set<(int, int)>, x: int, y: int) -> int {
    alive_at(cells, x - 1, y - 1) + alive_at(cells, x, y - 1) + alive_at(cells, x + 1, y - 1)
        + alive_at(cells, x - 1, y) + alive_at(cells, x + 1, y) + alive_at(cells, x - 1, y + 1)
        + alive_at(cells, x, y + 1) + alive_at(cells, x + 1, y + 1)
}

/// Whether the cell at the given coordinates is alive in the next generation:
/// an alive cell survives with two or three alive neighbours,
/// and a dead cell comes to life with exactly three.
#[verifier::opaque]
pub open spec fn alive_next(cells: Set<(int, int)>, x: int, y: int) -> bool {
    let n = neighbour_count(cells, x, y);
    if cells.contains((x, y)) {
        n == 2 || n == 3
    } else {
        n == 3
    }
}

/// The alive cells of the next generation.
pub open spec fn life_step(cells: Set<(int, int)>) -> Set<(int, int)> {
    Set::new(|p: (int, int)| alive_next(cells, p.0, p.1))
}

/// No alive cell lies on the outermost rows or columns that an `i32` coordinate can name,
/// so that every neighbour of an alive cell has `i32` coordinates.
pub open spec fn away_from_edge(cells: Set<(int, int)>) -> bool {
    forall|p: (int, int)|
        #[trigger] cells.contains(p) ==> i32::MIN < p.0 < i32::MAX && i32::MIN < p.1 < i32::MAX
}

/// Every alive cell has `i32` coordinates.
pub open spec fn within_i32(cells: Set<(int, int)>) -> bool {
    forall|p: (int, int)| #[trigger] cells.contains(p) ==> is_i32(p.0) && is_i32(p.1)
}

/// A cell that is alive in the next generation is alive now or has an alive neighbour,
/// so it lies within one step of an alive cell.
pub proof fn lemma_next_near_alive(cells: Set<(int, int)>, x: int, y: int)
    requires
        alive_next(cells, x, y),
    ensures
        exists|dx: int, dy: int|
            -1 <= dx <= 1 && -1 <= dy <= 1 && #[trigger] cells.contains((x + dx, y + dy)),
{
    reveal(alive_next);
    if cells.contains((x, y)) {
        assert(cells.contains((x + 0, y + 0)));
    } else if cells.contains((x - 1, y - 1)) {
        assert(cells.contains((x + -1, y + -1)));
    } else if cells.contains((x, y - 1)) {
        assert(cells.contains((x + 0, y + -1)));
    } else if cells.contains((x + 1, y - 1)) {
        assert(cells.contains((x + 1, y + -1)));
    } else if cells.contains((x - 1, y)) {
        assert(cells.contains((x + -1, y + 0)));
    } else if cells.contains((x + 1, y)) {
        assert(cells.contains((x + 1, y + 0)));
    } else if cells.contains((x - 1, y + 1)) {
        assert(cells.contains((x + -1, y + 1)));
    } else if cells.contains((x, y + 1)) {
        assert(cells.contains((x + 0, y + 1)));
    } else {
        assert(cells.contains((x + 1, y + 1)));
    }
}

/// When no alive cell lies on the edge of the `i32` coordinates,
/// every cell of the next generation has `i32` coordinates.
pub proof fn lemma_step_within_i32(cells: Set<(int, int)>)
    requires
        away_from_edge(cells),
    ensures
        within_i32(life_step(cells)),
{
    assert forall|p: (int, int)| #[trigger] life_step(cells).contains(p) implies is_i32(p.0) && is_i32(
        p.1,
    ) by {
        lemma_next_near_alive(cells, p.0, p.1);
        let (dx, dy) = choose|dx: int, dy: int|
            -1 <= dx <= 1 && -1 <= dy <= 1 && #[trigger] cells.contains((p.0 + dx, p.1 + dy));
        assert(cells.contains((p.0 + dx, p.1 + dy)));
    }
}

} // verus!
