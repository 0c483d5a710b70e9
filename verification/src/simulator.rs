//! The [`Simulator`] trait: what every implementation of Conway's game of life provides,
//! and the saving and loading of boards and blueprints that it builds on top.
use vstd::prelude::*;
use crate::area::{Area, AreaView, lemma_index_of, lemma_position_at};
use crate::bits::{CellBits, cell_bits, MAX_BITS};
use crate::cell::{Cell, cell_of};
use crate::data::{SimulationBlueprint, SimulationSave};
use crate::display::BoardDisplay;
use crate::life::{away_from_edge, life_step};
use crate::position::{GlobalPosition, group_position, is_i32};

verus! {

broadcast use group_position;

/// The area that a board takes up: the smallest rectangle that holds the origin and every alive cell.
pub open spec fn is_board_area(cells: Set<(int, int)>, a: AreaView) -> bool {
    &&& a.contains(0, 0)
    &&& forall|p: (int, int)| #[trigger] cells.contains(p) ==> a.contains(p.0, p.1)
    &&& (a.min_x == 0 || exists|p: (int, int)| #[trigger] cells.contains(p) && p.0 == a.min_x)
    &&& (a.max_x == 0 || exists|p: (int, int)| #[trigger] cells.contains(p) && p.0 == a.max_x)
    &&& (a.min_y == 0 || exists|p: (int, int)| #[trigger] cells.contains(p) && p.1 == a.min_y)
    &&& (a.max_y == 0 || exists|p: (int, int)| #[trigger] cells.contains(p) && p.1 == a.max_y)
}

/// The display shows the board the right way round: it has one column per x from the display area's
/// minimum up to (not including) its maximum, one row per y likewise, and column `i`, row `j` shows
/// the cell at `(min_x + i, min_y + j)`.
pub proof fn law_display_shows_cells(cells: Set<(int, int)>, a: AreaView, i: int, j: int)
    requires
        a.ordered(),
        0 <= i < a.max_x - a.min_x,
        0 <= j < a.max_y - a.min_y,
    ensures
        display_grid(cells, a).len() == a.max_x - a.min_x,
        display_grid(cells, a)[i].len() == a.max_y - a.min_y,
        display_grid(cells, a)[i][j] == Cell::Alive <==> cells.contains((a.min_x + i, a.min_y + j)),
        cells.contains((a.min_x, a.min_y)) ==> display_grid(cells, a)[0][0] == Cell::Alive,
{
}

/// A board has one area: two rectangles that both bound the board as [`is_board_area`] says are the same.
pub proof fn lemma_board_area_unique(cells: Set<(int, int)>, a: AreaView, b: AreaView)
    requires
        is_board_area(cells, a),
        is_board_area(cells, b),
    ensures
        a == b,
{
    if a.min_x != 0 {
        let p = choose|p: (int, int)| #[trigger] cells.contains(p) && p.0 == a.min_x;
        assert(b.contains(p.0, p.1));
    }
    if b.min_x != 0 {
        let p = choose|p: (int, int)| #[trigger] cells.contains(p) && p.0 == b.min_x;
        assert(a.contains(p.0, p.1));
    }
    if a.max_x != 0 {
        let p = choose|p: (int, int)| #[trigger] cells.contains(p) && p.0 == a.max_x;
        assert(b.contains(p.0, p.1));
    }
    if b.max_x != 0 {
        let p = choose|p: (int, int)| #[trigger] cells.contains(p) && p.0 == b.max_x;
        assert(a.contains(p.0, p.1));
    }
    if a.min_y != 0 {
        let p = choose|p: (int, int)| #[trigger] cells.contains(p) && p.1 == a.min_y;
        assert(b.contains(p.0, p.1));
    }
    if b.min_y != 0 {
        let p = choose|p: (int, int)| #[trigger] cells.contains(p) && p.1 == b.min_y;
        assert(a.contains(p.0, p.1));
    }
    if a.max_y != 0 {
        let p = choose|p: (int, int)| #[trigger] cells.contains(p) && p.1 == a.max_y;
        assert(b.contains(p.0, p.1));
    }
    if b.max_y != 0 {
        let p = choose|p: (int, int)| #[trigger] cells.contains(p) && p.1 == b.max_y;
        assert(a.contains(p.0, p.1));
    }
}

/// One bit per cell of the area, walked row by row: `true` where the cell is alive.
pub open spec fn area_bits(cells: Set<(int, int)>, a: AreaView) -> Seq<bool> {
    Seq::new(a.cell_count() as nat, |k: int| cells.contains(a.position_at(k)))
}

/// The cells after the bits have been written over the area, walked row by row:
/// a cell of the area whose place in the walk has a bit takes that bit; every other cell keeps its state.
pub open spec fn overlay(cells: Set<(int, int)>, a: AreaView, bits: Seq<bool>) -> Set<(int, int)> {
    Set::new(
        |p: (int, int)|
            if a.contains(p.0, p.1) && a.index_of(p.0, p.1) < bits.len() {
                bits[a.index_of(p.0, p.1)]
            } else {
                cells.contains(p)
            },
    )
}

/// The area that a blueprint of the given sizes covers when loaded with its minimum corner at `load`.
pub open spec fn blueprint_target(load: (int, int), x_size: int, y_size: int) -> AreaView {
    AreaView { min_x: load.0, min_y: load.1, max_x: load.0 + x_size, max_y: load.1 + y_size }
}

/// The cells of the display: column `i`, row `j` is the cell `(min_x + i, min_y + j)`,
/// for the columns and rows from the minimum corner up to, but not including, the maximum corner.
pub open spec fn display_grid(cells: Set<(int, int)>, a: AreaView) -> Seq<Seq<Cell>> {
    Seq::new(
        (a.max_x - a.min_x) as nat,
        |i: int|
            Seq::new(
                (a.max_y - a.min_y) as nat,
                |j: int| cell_of(cells.contains((a.min_x + i, a.min_y + j))),
            ),
    )
}

/// An implementation of [`Simulator`] can simulate Conways game of life.
///
/// Each implementation is guaranteed to correctly simulate Conways game of life, however the performance of any
/// implementation is not guaranteed.
pub trait Simulator: Sized {
    /// The positions of the alive cells.
    spec fn alive_cells(&self) -> Set<(int, int)>;

    /// The generation the simulation is on.
    spec fn current_generation(&self) -> u64;

    /// The area of the board that is displayed.
    spec fn display_area(&self) -> Area;

    /// Creates a new simulator with an empty board, at generation zero.
    fn new() -> (r: Self)
        ensures
            r.alive_cells() == Set::<(int, int)>::empty(),
            r.current_generation() == 0,
            r.display_area()@ == (AreaView { min_x: 0, min_y: 0, max_x: 0, max_y: 0 }),
    ;

    /// Advances the simulation by one tick.
    fn tick(&mut self)
        requires
            away_from_edge(old(self).alive_cells()),
            old(self).current_generation() < u64::MAX,
        ensures
            final(self).alive_cells() == life_step(old(self).alive_cells()),
            final(self).current_generation() == old(self).current_generation() + 1,
            final(self).display_area() == old(self).display_area(),
    ;

    /// The board data for the ui to display, covering the display area.
    fn display_board(&self) -> (r: BoardDisplay)
        ensures
            r.generation_view() == self.current_generation(),
            r.grid() == display_grid(self.alive_cells(), self.display_area()@),
    ;

    /// Sets the display area sent to the ui to the given area.
    fn set_display_area(&mut self, new_area: Area)
        ensures
            final(self).display_area() == new_area,
            final(self).alive_cells() == old(self).alive_cells(),
            final(self).current_generation() == old(self).current_generation(),
    ;

    /// Sets the cell at the given position on the board.
    fn set(&mut self, position: GlobalPosition, cell: Cell)
        ensures
            final(self).alive_cells() == (if cell == Cell::Alive {
                old(self).alive_cells().insert(position@)
            } else {
                old(self).alive_cells().remove(position@)
            }),
            final(self).current_generation() == old(self).current_generation(),
            final(self).display_area() == old(self).display_area(),
    ;

    /// Gets the cell at the given position on the board.
    fn get(&self, position: GlobalPosition) -> (r: Cell)
        ensures
            r == cell_of(self.alive_cells().contains(position@)),
    ;

    /// Gets the current generation of simulation.
    fn get_generation(&self) -> (r: u64)
        ensures
            r == self.current_generation(),
    ;

    /// Sets the current generation of simulation.
    fn set_generation(&mut self, generation: u64)
        ensures
            final(self).current_generation() == generation,
            final(self).alive_cells() == old(self).alive_cells(),
            final(self).display_area() == old(self).display_area(),
    ;

    /// Sets all cells on the board to dead & sets the generation to 0.
    fn reset(&mut self)
        ensures
            final(self).alive_cells() == Set::<(int, int)>::empty(),
            final(self).current_generation() == 0,
            final(self).display_area() == old(self).display_area(),
    ;

    /// Whether the next tick can be computed: no alive cell lies on the outermost rows or columns,
    /// and the generation can still be counted up.
    fn can_tick(&self) -> (r: bool)
        ensures
            r == (away_from_edge(self.alive_cells()) && self.current_generation() < u64::MAX),
    ;

    /// Gets the area taken up by the current board. The area for a board is a rectangle bounding the alive cells.
    fn get_board_area(&self) -> (r: Area)
        ensures
            is_board_area(self.alive_cells(), r@),
    ;

    /// Creates a save of the board in its current state.
    fn save_board(&self) -> (r: SimulationSave)
        requires
            forall|a: AreaView| #[trigger] is_board_area(self.alive_cells(), a) ==> a.cell_count() <= MAX_BITS,
        ensures
            r.generation == self.current_generation(),
            is_board_area(self.alive_cells(), r.board_area@),
            cell_bits(r.board_data) == area_bits(self.alive_cells(), r.board_area@),
    {
        let board_area = self.get_board_area();
        let area = &board_area;
        proof {
            assert(is_board_area(self.alive_cells(), area@));
        }
        let positions = area.iterate_over();
        let ghost cells = self.alive_cells();
        let mut bits = CellBits::new();
        let mut k: usize = 0;
        while k < positions.len()
            invariant
                0 <= k <= positions@.len(),
                positions@.len() == area@.cell_count(),
                area@.cell_count() <= MAX_BITS,
                cells == self.alive_cells(),
                forall|j: int| 0 <= j < positions@.len() ==> #[trigger] positions@[j]@ == area@.position_at(j),
                cell_bits(bits) == area_bits(cells, area@).take(k as int),
            decreases positions@.len() - k,
        {
            let alive = match self.get(positions[k]) {
                Cell::Alive => true,
                Cell::Dead => false,
            };
            bits.push(alive);
            proof {
                assert(area_bits(cells, area@).take(k + 1) == area_bits(cells, area@).take(k as int).push(
                    alive,
                ));
            }
            k = k + 1;
        }
        proof {
            assert(area_bits(cells, area@).take(k as int) == area_bits(cells, area@));
        }
        let board_data = bits;
        SimulationSave::new(self.get_generation(), board_area, board_data)
    }

    /// Disgards the current state of the board & overwrites it with the given save.
    fn load_board(&mut self, board: SimulationSave)
        ensures
            final(self).alive_cells() == overlay(
                Set::<(int, int)>::empty(),
                board.board_area@,
                cell_bits(board.board_data),
            ),
            final(self).current_generation() == board.generation,
            final(self).display_area() == old(self).display_area(),
    {
        let SimulationSave { generation, board_area, board_data } = board;
        self.reset();
        self.set_generation(generation);
        let area = &board_area;
        let bits = &board_data;
        proof {
            use_type_invariant(area);
        }
        let positions = area.iterate_over();
        let ghost old_cells = self.alive_cells();
        let ghost a = area@;
        let ghost data = cell_bits(*bits);
        let len = bits.len();
        let count = positions.len();
        let n = if count <= len {
            count
        } else {
            len
        };
        let mut k: usize = 0;
        while k < n
            invariant
                0 <= k <= n,
                n <= count,
                n <= len,
                n == count || n == len,
                count == positions@.len(),
                len == data.len(),
                data == cell_bits(*bits),
                a == area@,
                a.ordered(),
                positions@.len() == a.cell_count(),
                forall|j: int| 0 <= j < positions@.len() ==> #[trigger] positions@[j]@ == a.position_at(j),
                self.alive_cells() == overlay(old_cells, a, data.take(k as int)),
                self.current_generation() == generation,
                self.display_area() == old(self).display_area(),
            decreases n - k,
        {
            let ghost before = self.alive_cells();
            let cell = if bits.get(k) {
                Cell::Alive
            } else {
                Cell::Dead
            };
            let position = positions[k];
            self.set(position, cell);
            proof {
                lemma_position_at(a, k as int);
                let target = a.position_at(k as int);
                assert(position@ == target);
                assert forall|p: (int, int)|
                    self.alive_cells().contains(p) == overlay(old_cells, a, data.take(k + 1)).contains(
                        p,
                    ) by {
                    if p == target {
                    } else if a.contains(p.0, p.1) {
                        lemma_index_of(a, p.0, p.1);
                        assert(a.index_of(p.0, p.1) != k);
                    }
                }
                assert(self.alive_cells() =~= overlay(old_cells, a, data.take(k + 1)));
            }
            k = k + 1;
        }
        proof {
            assert forall|p: (int, int)|
                overlay(old_cells, a, data.take(k as int)).contains(p) == overlay(old_cells, a, data).contains(
                    p,
                ) by {
                if a.contains(p.0, p.1) {
                    lemma_index_of(a, p.0, p.1);
                }
            }
            assert(overlay(old_cells, a, data.take(k as int)) =~= overlay(old_cells, a, data));
        }

    }

    /// Creates a save of the given area of the board.
    fn save_blueprint(&self, area: Area) -> (r: SimulationBlueprint)
        requires
            is_i32(area@.max_x - area@.min_x),
            is_i32(area@.max_y - area@.min_y),
            area@.cell_count() <= MAX_BITS,
        ensures
            r.x_size == area@.max_x - area@.min_x,
            r.y_size == area@.max_y - area@.min_y,
            cell_bits(r.blueprint_data) == area_bits(self.alive_cells(), area@),
    {
        let area = &area;
        let positions = area.iterate_over();
        let ghost cells = self.alive_cells();
        let mut bits = CellBits::new();
        let mut k: usize = 0;
        while k < positions.len()
            invariant
                0 <= k <= positions@.len(),
                positions@.len() == area@.cell_count(),
                area@.cell_count() <= MAX_BITS,
                cells == self.alive_cells(),
                forall|j: int| 0 <= j < positions@.len() ==> #[trigger] positions@[j]@ == area@.position_at(j),
                cell_bits(bits) == area_bits(cells, area@).take(k as int),
            decreases positions@.len() - k,
        {
            let alive = match self.get(positions[k]) {
                Cell::Alive => true,
                Cell::Dead => false,
            };
            bits.push(alive);
            proof {
                assert(area_bits(cells, area@).take(k + 1) == area_bits(cells, area@).take(k as int).push(
                    alive,
                ));
            }
            k = k + 1;
        }
        proof {
            assert(area_bits(cells, area@).take(k as int) == area_bits(cells, area@));
        }
        let blueprint_data = bits;
        SimulationBlueprint::new(area.x_difference(), area.y_difference(), blueprint_data)
    }

    /// Overwrites an area of the board with the blueprint. The given position is the "top-left" of the blueprint that
    /// will be loaded in.
    fn load_blueprint(&mut self, load_position: GlobalPosition, blueprint: SimulationBlueprint)
        requires
            blueprint.x_size <= i32::MAX,
            blueprint.y_size <= i32::MAX,
            is_i32(load_position@.0 + blueprint.x_size),
            is_i32(load_position@.1 + blueprint.y_size),
        ensures
            final(self).alive_cells() == overlay(
                old(self).alive_cells(),
                blueprint_target(load_position@, blueprint.x_size as int, blueprint.y_size as int),
                cell_bits(blueprint.blueprint_data),
            ),
            final(self).current_generation() == old(self).current_generation(),
            final(self).display_area() == old(self).display_area(),
    {
        let SimulationBlueprint { x_size, y_size, blueprint_data } = blueprint;
        let mut area = Area::new((0i32, 0i32), (x_size as i32, y_size as i32));
        area.translate_x(load_position.get_x());
        area.translate_y(load_position.get_y());
        let area = &area;
        let bits = &blueprint_data;
        let positions = area.iterate_over();
        let ghost old_cells = self.alive_cells();
        let ghost a = area@;
        let ghost data = cell_bits(*bits);
        let len = bits.len();
        let count = positions.len();
        let n = if count <= len {
            count
        } else {
            len
        };
        let mut k: usize = 0;
        while k < n
            invariant
                0 <= k <= n,
                n <= count,
                n <= len,
                n == count || n == len,
                count == positions@.len(),
                len == data.len(),
                data == cell_bits(*bits),
                a == area@,
                a.ordered(),
                positions@.len() == a.cell_count(),
                forall|j: int| 0 <= j < positions@.len() ==> #[trigger] positions@[j]@ == a.position_at(j),
                self.alive_cells() == overlay(old_cells, a, data.take(k as int)),
                self.current_generation() == old(self).current_generation(),
                self.display_area() == old(self).display_area(),
            decreases n - k,
        {
            let ghost before = self.alive_cells();
            let cell = if bits.get(k) {
                Cell::Alive
            } else {
                Cell::Dead
            };
            let position = positions[k];
            self.set(position, cell);
            proof {
                lemma_position_at(a, k as int);
                let target = a.position_at(k as int);
                assert(position@ == target);
                assert forall|p: (int, int)|
                    self.alive_cells().contains(p) == overlay(old_cells, a, data.take(k + 1)).contains(
                        p,
                    ) by {
                    if p == target {
                    } else if a.contains(p.0, p.1) {
                        lemma_index_of(a, p.0, p.1);
                        assert(a.index_of(p.0, p.1) != k);
                    }
                }
                assert(self.alive_cells() =~= overlay(old_cells, a, data.take(k + 1)));
            }
            k = k + 1;
        }
        proof {
            assert forall|p: (int, int)|
                overlay(old_cells, a, data.take(k as int)).contains(p) == overlay(old_cells, a, data).contains(
                    p,
                ) by {
                if a.contains(p.0, p.1) {
                    lemma_index_of(a, p.0, p.1);
                }
            }
            assert(overlay(old_cells, a, data.take(k as int)) =~= overlay(old_cells, a, data));
        }

    }
}

/// Loading a save of a board gives back the board that was saved:
/// writing the bits of the board's area onto an empty board restores every alive cell.
pub proof fn law_save_then_load_board(cells: Set<(int, int)>, a: AreaView)
    requires
        is_board_area(cells, a),
    ensures
        overlay(Set::<(int, int)>::empty(), a, area_bits(cells, a)) == cells,
{
    assert forall|p: (int, int)|
        overlay(Set::<(int, int)>::empty(), a, area_bits(cells, a)).contains(p) == cells.contains(p) by {
        if a.contains(p.0, p.1) {
            lemma_index_of(a, p.0, p.1);
        }
    }
    assert(overlay(Set::<(int, int)>::empty(), a, area_bits(cells, a)) =~= cells);
}

/// Loading a blueprint at the minimum corner of the area it was saved from leaves the board unchanged.
pub proof fn law_save_then_load_blueprint(cells: Set<(int, int)>, a: AreaView)
    requires
        a.ordered(),
    ensures
        overlay(
            cells,
            blueprint_target((a.min_x, a.min_y), a.max_x - a.min_x, a.max_y - a.min_y),
            area_bits(cells, a),
        ) == cells,
{
    let target = blueprint_target((a.min_x, a.min_y), a.max_x - a.min_x, a.max_y - a.min_y);
    assert(target == a);
    assert forall|p: (int, int)| overlay(cells, a, area_bits(cells, a)).contains(p) == cells.contains(p) by {
        if a.contains(p.0, p.1) {
            lemma_index_of(a, p.0, p.1);
        }
    }
    assert(overlay(cells, a, area_bits(cells, a)) =~= cells);
}

} // verus!
