//! A simplistic implementation of [`Simulator`].
//! There is no consideration to performance; Only a Minimum Viable Product.
use vstd::prelude::*;
use vstd::std_specs::iter::IteratorSpec;
use vstd::arithmetic::div_mod::lemma_fundamental_div_mod_converse;
use std::collections::HashSet;
use crate::area::{Area, AreaView, spanned, min_int, max_int};
use crate::cell::{Cell, cell_of};
use crate::display::BoardDisplay;
use crate::life::{alive_at, alive_next, away_from_edge, life_step, neighbour_count, lemma_next_near_alive, lemma_step_within_i32};
use crate::position::{GlobalPosition, group_position, is_i32};
use crate::simulator::{Simulator, display_grid, is_board_area};

verus! {

broadcast use group_position;

/// The number of values that an `i32` can take.
pub open spec fn span() -> int {
    0x1_0000_0000
}

/// The key under which the cell at the given coordinates is stored.
pub open spec fn key_of(x: int, y: int) -> int {
    (x - i32::MIN) * span() + (y - i32::MIN)
}

/// The x coordinate that a key stands for.
pub open spec fn key_x(k: int) -> int {
    k / span() + i32::MIN
}

/// The y coordinate that a key stands for.
pub open spec fn key_y(k: int) -> int {
    k % span() + i32::MIN
}

/// The cells whose keys the set holds.
pub open spec fn cells_of(keys: Set<u64>) -> Set<(int, int)> {
    Set::new(|p: (int, int)| is_i32(p.0) && is_i32(p.1) && keys.contains(key_of(p.0, p.1) as u64))
}

/// Every pair of `i32` coordinates has a key that fits a `u64`, from which the coordinates are read back.
pub proof fn lemma_key(x: int, y: int)
    requires
        is_i32(x),
        is_i32(y),
    ensures
        0 <= key_of(x, y) <= u64::MAX,
        key_x(key_of(x, y)) == x,
        key_y(key_of(x, y)) == y,
{
    lemma_fundamental_div_mod_converse(key_of(x, y), span(), x - i32::MIN, y - i32::MIN);
}

/// Every `u64` is the key of one pair of `i32` coordinates.
pub proof fn lemma_key_decode(k: int)
    requires
        0 <= k <= u64::MAX,
    ensures
        is_i32(key_x(k)),
        is_i32(key_y(k)),
        key_of(key_x(k), key_y(k)) == k,
{
    vstd::arithmetic::div_mod::lemma_fundamental_div_mod(k, span());
    vstd::arithmetic::div_mod::lemma_mod_bound(k, span());
    vstd::arithmetic::div_mod::lemma_div_pos_is_pos(k, span());
    assert(k / span() < span()) by {
        vstd::arithmetic::div_mod::lemma_div_is_ordered(k, u64::MAX as int, span());
        assert(u64::MAX as int / span() == span() - 1);
    }
}

/// The key of the given coordinates.
fn encode(x: i32, y: i32) -> (r: u64)
    ensures
        r == key_of(x as int, y as int),
{
    proof {
        lemma_key(x as int, y as int);
    }
    let xo = (x as i64 - i32::MIN as i64) as u64;
    let yo = (y as i64 - i32::MIN as i64) as u64;
    xo * 0x1_0000_0000 + yo
}

/// The coordinates that a key stands for.
fn decode(k: u64) -> (r: (i32, i32))
    ensures
        r.0 == key_x(k as int),
        r.1 == key_y(k as int),
{
    proof {
        lemma_key_decode(k as int);
    }
    let xo = k / 0x1_0000_0000;
    let yo = k % 0x1_0000_0000;
    ((xo as i64 + i32::MIN as i64) as i32, (yo as i64 + i32::MIN as i64) as i32)
}

/// A cell of the key set is found again from its key, and the set holds exactly the keys of its cells.
pub proof fn lemma_cells_of(keys: Set<u64>, k: u64)
    ensures
        keys.contains(k) <==> cells_of(keys).contains((key_x(k as int), key_y(k as int))),
{
    lemma_key_decode(k as int);
}

/// Represents a board that the cells inhabit.
pub struct Board {
    /// The area of the board that the UI wants to render.
    display_size_buf: Area,
    /// The generation that this simulation is on.
    generation: u64,
    /// The keys of the alive cells (see [`key_of`]).
    board: HashSet<u64>,
}

/// Every cell considered around `(cx, cy)` that is alive in the next generation has its key in `next`.
pub open spec fn covered(next: Set<u64>, s: Set<(int, int)>, cx: int, cy: int) -> bool {
    &&& (alive_next(s, cx - 1, cy - 1) ==> next.contains(key_of(cx - 1, cy - 1) as u64))
    &&& (alive_next(s, cx, cy - 1) ==> next.contains(key_of(cx, cy - 1) as u64))
    &&& (alive_next(s, cx + 1, cy - 1) ==> next.contains(key_of(cx + 1, cy - 1) as u64))
    &&& (alive_next(s, cx - 1, cy) ==> next.contains(key_of(cx - 1, cy) as u64))
    &&& (alive_next(s, cx, cy) ==> next.contains(key_of(cx, cy) as u64))
    &&& (alive_next(s, cx + 1, cy) ==> next.contains(key_of(cx + 1, cy) as u64))
    &&& (alive_next(s, cx - 1, cy + 1) ==> next.contains(key_of(cx - 1, cy + 1) as u64))
    &&& (alive_next(s, cx, cy + 1) ==> next.contains(key_of(cx, cy + 1) as u64))
    &&& (alive_next(s, cx + 1, cy + 1) ==> next.contains(key_of(cx + 1, cy + 1) as u64))
}

/// Every key in `next` is the key of a cell that is alive in the next generation.
pub open spec fn sound(next: Set<u64>, s: Set<(int, int)>) -> bool {
    forall|x: int, y: int|
        is_i32(x) && is_i32(y) && #[trigger] next.contains(key_of(x, y) as u64) ==> alive_next(s, x, y)
}

impl Board {
    /// One when the cell at the given coordinates is alive, zero otherwise;
    /// coordinates outside the `i32` range name no cell.
    fn alive_number(&self, x: i64, y: i64) -> (r: u8)
        ensures
            r == alive_at(cells_of(self.board@), x as int, y as int),
    {
        if x < i32::MIN as i64 || x > i32::MAX as i64 || y < i32::MIN as i64 || y > i32::MAX as i64 {
            return 0;
        }
        if self.board.contains(&encode(x as i32, y as i32)) {
            1
        } else {
            0
        }
    }

    /// Whether the cell at the given coordinates is alive in the next generation.
    fn alive_in_next(&self, x: i32, y: i32) -> (r: bool)
        ensures
            r == alive_next(cells_of(self.board@), x as int, y as int),
    {
        reveal(alive_next);
        let x = x as i64;
        let y = y as i64;
        let count: u8 = self.alive_number(x - 1, y - 1) + self.alive_number(x, y - 1) + self.alive_number(
            x + 1,
            y - 1,
        ) + self.alive_number(x - 1, y) + self.alive_number(x + 1, y) + self.alive_number(x - 1, y + 1)
            + self.alive_number(x, y + 1) + self.alive_number(x + 1, y + 1);
        if self.alive_number(x, y) == 1 {
            count == 2 || count == 3
        } else {
            count == 3
        }
    }

    /// Adds the key of the cell at the given coordinates to `next` when the cell is alive in the next generation.
    fn consider(&self, next: &mut HashSet<u64>, x: i32, y: i32)
        ensures
            old(next)@.subset_of(final(next)@),
            alive_next(cells_of(self.board@), x as int, y as int) ==> final(next)@.contains(
                key_of(x as int, y as int) as u64,
            ),
            sound(old(next)@, cells_of(self.board@)) ==> sound(final(next)@, cells_of(self.board@)),
    {
        if self.alive_in_next(x, y) {
            let ghost before = next@;
            next.insert(encode(x, y));
            proof {
                let s = cells_of(self.board@);
                lemma_key(x as int, y as int);
                if sound(before, s) {
                    assert forall|x2: int, y2: int|
                        is_i32(x2) && is_i32(y2) && #[trigger] next@.contains(key_of(x2, y2) as u64) implies alive_next(
                        s,
                        x2,
                        y2,
                    ) by {
                        lemma_key(x2, y2);
                    }
                }
            }
        }
    }
}

/// Adding keys keeps the cells around `(cx, cy)` covered.
proof fn lemma_covered_grows(before: Set<u64>, after: Set<u64>, s: Set<(int, int)>, cx: int, cy: int)
    requires
        before.subset_of(after),
        covered(before, s, cx, cy),
    ensures
        covered(after, s, cx, cy),
{
}

/// A cell that is alive in the next generation has its key in `next`,
/// once every alive cell has had the cells around it considered.
proof fn lemma_tick_complete(s: Set<(int, int)>, next: Set<u64>, keys: Set<u64>, all: Seq<u64>, x: int, y: int)
    requires
        s == cells_of(keys),
        all.to_set() == keys,
        away_from_edge(s),
        forall|j: int| 0 <= j < all.len() ==> covered(next, s, key_x(#[trigger] all[j] as int), key_y(all[j] as int)),
        alive_next(s, x, y),
    ensures
        next.contains(key_of(x, y) as u64),
{
    lemma_next_near_alive(s, x, y);
    let (dx, dy) = choose|dx: int, dy: int| -1 <= dx <= 1 && -1 <= dy <= 1 && #[trigger] s.contains((x + dx, y + dy));
    let qx = x + dx;
    let qy = y + dy;
    assert(s.contains((qx, qy)));
    let kq = key_of(qx, qy) as u64;
    lemma_key(qx, qy);
    assert(keys.contains(kq));
    assert(all.to_set().contains(kq));
    let j = choose|j: int| 0 <= j < all.len() && all[j] == kq;
    assert(covered(next, s, key_x(all[j] as int), key_y(all[j] as int)));
    assert(key_x(all[j] as int) == qx);
    assert(key_y(all[j] as int) == qy);
    if dx == -1 {
        assert(x == qx + 1);
    } else if dx == 0 {
        assert(x == qx);
    } else {
        assert(x == qx - 1);
    }
    if dy == -1 {
        assert(y == qy + 1);
    } else if dy == 0 {
        assert(y == qy);
    } else {
        assert(y == qy - 1);
    }
}

impl Simulator for Board {
    closed spec fn alive_cells(&self) -> Set<(int, int)> {
        cells_of(self.board@)
    }

    closed spec fn current_generation(&self) -> u64 {
        self.generation
    }

    closed spec fn display_area(&self) -> Area {
        self.display_size_buf
    }

    fn new() -> (r: Self) {
        let r = Self { board: HashSet::new(), display_size_buf: Area::default(), generation: 0 };
        assert(cells_of(r.board@) =~= Set::<(int, int)>::empty());
        r
    }

    fn tick(&mut self) {
        let ghost s = cells_of(self.board@);
        let mut next: HashSet<u64> = HashSet::new();
        let keys = self.board.iter();
        let ghost all = IteratorSpec::remaining(&keys).unref();
        assert(all.to_set() == self.board@);
        for key in it: keys
            invariant
                all.to_set() == self.board@,
                it.seq().unref() == all,
                s == cells_of(self.board@),
                away_from_edge(s),
                sound(next@, s),
                forall|j: int|
                    0 <= j < it.index() ==> covered(next@, s, key_x(#[trigger] all[j] as int), key_y(all[j] as int)),
        {
            let ghost before = next@;
            let ghost j = it.index();
            assert(all[j] == *key);
            let (x, y) = decode(*key);
            proof {
                lemma_cells_of(self.board@, *key);
                assert(all.to_set().contains(*key));
                assert(s.contains((x as int, y as int)));
            }
            self.consider(&mut next, x - 1, y - 1);
            self.consider(&mut next, x, y - 1);
            self.consider(&mut next, x + 1, y - 1);
            self.consider(&mut next, x - 1, y);
            self.consider(&mut next, x, y);
            self.consider(&mut next, x + 1, y);
            self.consider(&mut next, x - 1, y + 1);
            self.consider(&mut next, x, y + 1);
            self.consider(&mut next, x + 1, y + 1);
            proof {
                assert(covered(next@, s, x as int, y as int));
                assert forall|j2: int| 0 <= j2 < j + 1 implies covered(
                    next@,
                    s,
                    key_x(#[trigger] all[j2] as int),
                    key_y(all[j2] as int),
                ) by {
                    if j2 < j {
                        lemma_covered_grows(before, next@, s, key_x(all[j2] as int), key_y(all[j2] as int));
                    }
                }
            }
        }
        proof {
            lemma_step_within_i32(s);
            assert forall|p: (int, int)| cells_of(next@).contains(p) == life_step(s).contains(p) by {
                if life_step(s).contains(p) {
                    lemma_tick_complete(s, next@, self.board@, all, p.0, p.1);
                }
            }
            assert(cells_of(next@) =~= life_step(s));
        }
        self.board = next;
        self.generation = self.generation + 1;
    }

    fn display_board(&self) -> (r: BoardDisplay) {
        proof {
            use_type_invariant(&self.display_size_buf);
        }
        let ghost a = self.display_size_buf@;
        let ghost s = cells_of(self.board@);
        let from = self.display_size_buf.get_min();
        let to = self.display_size_buf.get_max();
        let mut board_build: Vec<Box<[Cell]>> = Vec::new();
        let mut x = from.get_x();
        while x < to.get_x()
            invariant
                a == self.display_size_buf@,
                s == cells_of(self.board@),
                from@ == (a.min_x, a.min_y),
                to@ == (a.max_x, a.max_y),
                a.ordered(),
                a.min_x <= x <= a.max_x,
                board_build@.len() == x - a.min_x,
                forall|i: int|
                    0 <= i < board_build@.len() ==> #[trigger] board_build@[i]@ == display_grid(s, a)[i],
            decreases a.max_x - x,
        {
            let mut y_builder: Vec<Cell> = Vec::new();
            let mut y = from.get_y();
            while y < to.get_y()
                invariant
                    a == self.display_size_buf@,
                    s == cells_of(self.board@),
                    from@ == (a.min_x, a.min_y),
                    to@ == (a.max_x, a.max_y),
                    a.ordered(),
                    a.min_x <= x < a.max_x,
                    a.min_y <= y <= a.max_y,
                    y_builder@.len() == y - a.min_y,
                    forall|j: int|
                        0 <= j < y_builder@.len() ==> #[trigger] y_builder@[j] == cell_of(
                            s.contains((x as int, a.min_y + j)),
                        ),
                decreases a.max_y - y,
            {
                y_builder.push(self.get(GlobalPosition::new(x, y)));
                y = y + 1;
            }
            let column = boxed_column(y_builder);
            proof {
                assert(column@ =~= display_grid(s, a)[x - a.min_x]);
            }
            board_build.push(column);
            x = x + 1;
        }
        proof {
            assert(board_build@.map_values(|column: Box<[Cell]>| column@) =~= display_grid(s, a));
        }
        BoardDisplay::new(self.generation, board_build)
    }

    fn set_display_area(&mut self, new_area: Area) {
        self.display_size_buf = new_area;
    }

    fn set(&mut self, position: GlobalPosition, cell: Cell) {
        let ghost before = self.board@;
        let key = encode(position.get_x(), position.get_y());
        match cell {
            Cell::Alive => {
                self.board.insert(key);
            },
            Cell::Dead => {
                self.board.remove(&key);
            },
        }
        proof {
            let p = position@;
            lemma_key(p.0, p.1);
            assert forall|q: (int, int)| #[trigger] cells_of(self.board@).contains(q) == (if cell == Cell::Alive {
                cells_of(before).insert(p)
            } else {
                cells_of(before).remove(p)
            }).contains(q) by {
                if is_i32(q.0) && is_i32(q.1) {
                    lemma_key(q.0, q.1);
                }
            }
            assert(cells_of(self.board@) =~= (if cell == Cell::Alive {
                cells_of(before).insert(p)
            } else {
                cells_of(before).remove(p)
            }));
        }
    }

    fn get(&self, position: GlobalPosition) -> (r: Cell) {
        if self.board.contains(&encode(position.get_x(), position.get_y())) {
            Cell::Alive
        } else {
            Cell::Dead
        }
    }

    fn get_generation(&self) -> (r: u64) {
        self.generation
    }

    fn set_generation(&mut self, generation: u64) {
        self.generation = generation;
    }

    fn reset(&mut self) {
        self.board = HashSet::new();
        self.generation = 0;
        assert(cells_of(self.board@) =~= Set::<(int, int)>::empty());
    }

    fn can_tick(&self) -> (r: bool) {
        let ghost s = cells_of(self.board@);
        if self.generation == u64::MAX {
            return false;
        }
        let keys = self.board.iter();
        let ghost all = IteratorSpec::remaining(&keys).unref();
        assert(all.to_set() == self.board@);
        for key in it: keys
            invariant
                all.to_set() == self.board@,
                it.seq().unref() == all,
                s == cells_of(self.board@),
                forall|j: int|
                    0 <= j < it.index() ==> i32::MIN < key_x(#[trigger] all[j] as int) < i32::MAX
                        && i32::MIN < key_y(all[j] as int) < i32::MAX,
        {
            let ghost j = it.index();
            assert(all[j] == *key);
            let (x, y) = decode(*key);
            if x == i32::MIN || x == i32::MAX || y == i32::MIN || y == i32::MAX {
                proof {
                    lemma_cells_of(self.board@, *key);
                    assert(all.to_set().contains(*key));
                    assert(s.contains((x as int, y as int)));
                }
                return false;
            }
        }
        proof {
            assert forall|p: (int, int)| #[trigger] s.contains(p) implies i32::MIN < p.0 < i32::MAX && i32::MIN
                < p.1 < i32::MAX by {
                lemma_key(p.0, p.1);
                let k = key_of(p.0, p.1) as u64;
                assert(all.to_set().contains(k));
                let j = choose|j: int| 0 <= j < all.len() && all[j] == k;
                assert(i32::MIN < key_x(all[j] as int) < i32::MAX);
            }
        }
        true
    }

    fn get_board_area(&self) -> (r: Area) {
        let ghost s = cells_of(self.board@);
        let mut min_x: i32 = 0;
        let mut min_y: i32 = 0;
        let mut max_x: i32 = 0;
        let mut max_y: i32 = 0;
        let keys = self.board.iter();
        let ghost all = IteratorSpec::remaining(&keys).unref();
        assert(all.to_set() == self.board@);
        for key in it: keys
            invariant
                all.to_set() == self.board@,
                it.seq().unref() == all,
                s == cells_of(self.board@),
                min_x <= 0 <= max_x,
                min_y <= 0 <= max_y,
                forall|j: int|
                    0 <= j < it.index() ==> min_x <= key_x(#[trigger] all[j] as int) <= max_x && min_y <= key_y(all[j] as int) <= max_y,
                min_x == 0 || exists|j: int| 0 <= j < it.index() && key_x(#[trigger] all[j] as int) == min_x,
                max_x == 0 || exists|j: int| 0 <= j < it.index() && key_x(#[trigger] all[j] as int) == max_x,
                min_y == 0 || exists|j: int| 0 <= j < it.index() && key_y(#[trigger] all[j] as int) == min_y,
                max_y == 0 || exists|j: int| 0 <= j < it.index() && key_y(#[trigger] all[j] as int) == max_y,
        {
            let ghost j = it.index();
            assert(all[j] == *key);
            let (x, y) = decode(*key);
            if x > max_x {
                max_x = x;
            }
            if y > max_y {
                max_y = y;
            }
            if x < min_x {
                min_x = x;
            }
            if y < min_y {
                min_y = y;
            }
        }
        let r = Area::new((max_x, max_y), (min_x, min_y));
        proof {
            let a = r@;
            assert(a == AreaView { min_x: min_x as int, min_y: min_y as int, max_x: max_x as int, max_y: max_y as int });
            assert forall|p: (int, int)| #[trigger] s.contains(p) implies a.contains(p.0, p.1) by {
                lemma_key(p.0, p.1);
                let k = key_of(p.0, p.1) as u64;
                assert(all.to_set().contains(k));
                let j = choose|j: int| 0 <= j < all.len() && all[j] == k;
                assert(min_x <= key_x(all[j] as int) <= max_x);
            }
            if min_x != 0 {
                let j = choose|j: int| 0 <= j < all.len() && key_x(#[trigger] all[j] as int) == min_x;
                lemma_cells_of(self.board@, all[j]);
                assert(s.contains((key_x(all[j] as int), key_y(all[j] as int))));
            }
            if max_x != 0 {
                let j = choose|j: int| 0 <= j < all.len() && key_x(#[trigger] all[j] as int) == max_x;
                lemma_cells_of(self.board@, all[j]);
                assert(s.contains((key_x(all[j] as int), key_y(all[j] as int))));
            }
            if min_y != 0 {
                let j = choose|j: int| 0 <= j < all.len() && key_y(#[trigger] all[j] as int) == min_y;
                lemma_cells_of(self.board@, all[j]);
                assert(s.contains((key_x(all[j] as int), key_y(all[j] as int))));
            }
            if max_y != 0 {
                let j = choose|j: int| 0 <= j < all.len() && key_y(#[trigger] all[j] as int) == max_y;
                lemma_cells_of(self.board@, all[j]);
                assert(s.contains((key_x(all[j] as int), key_y(all[j] as int))));
            }
        }
        r
    }
}

/// Turns a column of cells into a boxed slice with `Vec::into_boxed_slice`.
#[verifier::external_body]
fn boxed_column(column: Vec<Cell>) -> (r: Box<[Cell]>)
    ensures
        r@ == column@,
{
    column.into_boxed_slice()
}

} // verus!
