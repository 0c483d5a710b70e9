//! Rectangular areas of the board.
use vstd::prelude::*;
use vstd::arithmetic::div_mod::lemma_fundamental_div_mod_converse;
use vstd::arithmetic::mul::lemma_mul_is_distributive_add;
use crate::position::{GlobalPosition, IntoPosition, is_i32, group_position};

verus! {

broadcast use group_position;

/// The mathematical bounds of an [`Area`]: the minimum and the maximum corner, both inclusive.
pub struct AreaView {
    pub min_x: int,
    pub min_y: int,
    pub max_x: int,
    pub max_y: int,
}

impl AreaView {
    /// The minimum corner is not past the maximum corner on either axis.
    pub open spec fn ordered(self) -> bool {
        self.min_x <= self.max_x && self.min_y <= self.max_y
    }

    /// True when the given coordinates lie inside the bounds (borders included).
    pub open spec fn contains(self, x: int, y: int) -> bool {
        self.min_x <= x <= self.max_x && self.min_y <= y <= self.max_y
    }

    /// The number of columns covered by the bounds.
    pub open spec fn width(self) -> int {
        self.max_x - self.min_x + 1
    }

    /// The number of rows covered by the bounds.
    pub open spec fn height(self) -> int {
        self.max_y - self.min_y + 1
    }

    /// The number of cells covered by the bounds.
    pub open spec fn cell_count(self) -> int {
        self.width() * self.height()
    }

    /// The `k`-th position when the bounds are walked row by row: x first, then y.
    pub open spec fn position_at(self, k: int) -> (int, int) {
        (self.min_x + k % self.width(), self.min_y + k / self.width())
    }

    /// The place of the given coordinates in the row by row walk of the bounds.
    pub open spec fn index_of(self, x: int, y: int) -> int {
        (y - self.min_y) * self.width() + (x - self.min_x)
    }

    /// The same bounds moved by the given offsets.
    pub open spec fn shifted(self, dx: int, dy: int) -> AreaView {
        AreaView {
            min_x: self.min_x + dx,
            min_y: self.min_y + dy,
            max_x: self.max_x + dx,
            max_y: self.max_y + dy,
        }
    }
}

/// The smaller of two integers.
pub open spec fn min_int(a: int, b: int) -> int {
    if a <= b {
        a
    } else {
        b
    }
}

/// The larger of two integers.
pub open spec fn max_int(a: int, b: int) -> int {
    if a >= b {
        a
    } else {
        b
    }
}

/// The bounds spanned by two corners, in whatever order they are given.
pub open spec fn spanned(p: (int, int), q: (int, int)) -> AreaView {
    AreaView {
        min_x: min_int(p.0, q.0),
        min_y: min_int(p.1, q.1),
        max_x: max_int(p.0, q.0),
        max_y: max_int(p.1, q.1),
    }
}

/// The area spanned by two corners is the smallest one holding both, whatever their order:
/// both corners lie in it, each of its bounds is one of the corners' coordinates, and swapping the
/// corners gives the same area.
pub proof fn law_spanned_corners(p: (int, int), q: (int, int))
    ensures
        spanned(p, q).ordered(),
        spanned(p, q).contains(p.0, p.1),
        spanned(p, q).contains(q.0, q.1),
        spanned(p, q).min_x == p.0 || spanned(p, q).min_x == q.0,
        spanned(p, q).min_y == p.1 || spanned(p, q).min_y == q.1,
        spanned(p, q).max_x == p.0 || spanned(p, q).max_x == q.0,
        spanned(p, q).max_y == p.1 || spanned(p, q).max_y == q.1,
        spanned(p, q) == spanned(q, p),
{
}

/// The position of the `k`-th cell lies in the bounds, and the walk finds it again at place `k`.
pub proof fn lemma_position_at(a: AreaView, k: int)
    requires
        a.ordered(),
        0 <= k < a.cell_count(),
    ensures
        a.contains(a.position_at(k).0, a.position_at(k).1),
        a.index_of(a.position_at(k).0, a.position_at(k).1) == k,
{
    let w = a.width();
    let q = k / w;
    let r = k % w;
    assert(k == w * q + r) by {
        vstd::arithmetic::div_mod::lemma_fundamental_div_mod(k, w);
    }
    assert(0 <= r < w) by {
        vstd::arithmetic::div_mod::lemma_mod_bound(k, w);
    }
    assert(0 <= q) by {
        vstd::arithmetic::div_mod::lemma_div_pos_is_pos(k, w);
    }
    assert(q < a.height()) by {
        if q >= a.height() {
            assert(w * q >= w * a.height()) by (nonlinear_arith)
                requires
                    q >= a.height(),
                    w > 0,
            ;
            assert(w * a.height() == a.cell_count());
        }
    }
    assert(a.index_of(a.min_x + r, a.min_y + q) == q * w + r);
    assert(q * w == w * q) by (nonlinear_arith);
}

/// Every position inside the bounds has a place in the row by row walk, and that place leads back to it.
pub proof fn lemma_index_of(a: AreaView, x: int, y: int)
    requires
        a.ordered(),
        a.contains(x, y),
    ensures
        0 <= a.index_of(x, y) < a.cell_count(),
        a.position_at(a.index_of(x, y)) == (x, y),
{
    let w = a.width();
    let q = y - a.min_y;
    let r = x - a.min_x;
    let k = a.index_of(x, y);
    assert(k == q * w + r);
    lemma_fundamental_div_mod_converse(k, w, q, r);
    assert(0 <= q * w) by (nonlinear_arith)
        requires
            0 <= q,
            0 <= w,
    ;
    assert(q * w + w <= a.height() * w) by (nonlinear_arith)
        requires
            q + 1 <= a.height(),
            0 <= w,
    ;
    vstd::arithmetic::mul::lemma_mul_is_commutative(a.height(), w);
}

/// Contains the data for the two opposite corners of a rectangle.
/// One corner will have the minimum x and minimum y values, the other will have the maximum x and maximum y values.
#[derive(Clone, Copy, PartialEq, Eq, Structural, Hash, Debug)]
pub struct Area {
    /// The min x & the min y position.
    min: GlobalPosition,
    /// The max x & the max y position.
    max: GlobalPosition,
}

impl View for Area {
    type V = AreaView;

    /// An area is viewed as its inclusive bounds.
    closed spec fn view(&self) -> AreaView {
        AreaView { min_x: self.min@.0, min_y: self.min@.1, max_x: self.max@.0, max_y: self.max@.1 }
    }
}

/// Every coordinate of an area's bounds fits in an `i32`.
pub broadcast proof fn lemma_area_in_range(a: Area)
    ensures
        #![trigger a@]
        is_i32(a@.min_x),
        is_i32(a@.min_y),
        is_i32(a@.max_x),
        is_i32(a@.max_y),
{
}

/// Two areas with the same bounds are the same area.
pub broadcast proof fn lemma_area_view_injective(a: Area, b: Area)
    ensures
        #![trigger a@, b@]
        a@ == b@ ==> a == b,
{
    if a@ == b@ {
        assert(a.min@ == b.min@);
        assert(a.max@ == b.max@);
    }
}

pub broadcast group group_area {
    lemma_area_in_range,
    lemma_area_view_injective,
}

impl Area {
    /// The minimum corner of an area never lies past its maximum corner.
    #[verifier::type_invariant]
    pub open spec fn inv(&self) -> bool {
        self@.ordered()
    }

    /// Constructs a new [`Area`] covering from the small x & y to the large x & y.
    /// The positions passed into this method will be sorted into the minimum and maximum corners.
    pub fn new(pos1: impl IntoPosition, pos2: impl IntoPosition) -> (r: Self)
        ensures
            r@ == spanned(pos1.position_view(), pos2.position_view()),
    {
        let pos1 = pos1.into_position();
        let pos2 = pos2.into_position();
        let (x1, y1, x2, y2) = (pos1.get_x(), pos1.get_y(), pos2.get_x(), pos2.get_y());
        let min = GlobalPosition::new(
            if x1 <= x2 { x1 } else { x2 },
            if y1 <= y2 { y1 } else { y2 },
        );
        let max = GlobalPosition::new(
            if x1 >= x2 { x1 } else { x2 },
            if y1 >= y2 { y1 } else { y2 },
        );
        Self { min, max }
    }

    /// Gets the minimum x & minimum y of the area.
    pub fn get_min(&self) -> (r: GlobalPosition)
        ensures
            r@ == (self@.min_x, self@.min_y),
            self@.ordered(),
    {
        proof {
            use_type_invariant(self);
        }
        self.min
    }

    /// Gets the maximum x & biggest y of the area.
    pub fn get_max(&self) -> (r: GlobalPosition)
        ensures
            r@ == (self@.max_x, self@.max_y),
            self@.ordered(),
    {
        proof {
            use_type_invariant(self);
        }
        self.max
    }

    /// Gets the minimum x & minimum y of the area.
    pub fn get_from(&self) -> (r: GlobalPosition)
        ensures
            r@ == (self@.min_x, self@.min_y),
    {
        self.min
    }

    /// Gets the maximum x & biggest y of the area.
    pub fn get_to(&self) -> (r: GlobalPosition)
        ensures
            r@ == (self@.max_x, self@.max_y),
    {
        self.max
    }

    /// A range from the minimum x to the maximum x (inclusive).
    pub fn x_range(&self) -> (r: std::ops::RangeInclusive<i32>)
        ensures
            r@.start == self@.min_x,
            r@.end == self@.max_x,
            !r@.exhausted,
    {
        self.min.get_x()..=self.max.get_x()
    }

    /// A range from the minimum y to the maximum y (inclusive).
    pub fn y_range(&self) -> (r: std::ops::RangeInclusive<i32>)
        ensures
            r@.start == self@.min_y,
            r@.end == self@.max_y,
            !r@.exhausted,
    {
        self.min.get_y()..=self.max.get_y()
    }

    /// Gets size of this area in the x axis.
    pub fn x_difference(&self) -> (r: u32)
        requires
            is_i32(self@.max_x - self@.min_x),
        ensures
            r == self@.max_x - self@.min_x,
    {
        proof {
            use_type_invariant(self);
        }
        (self.max.get_x() - self.min.get_x()) as u32
    }

    /// Gets the size of this area in the y axis.
    pub fn y_difference(&self) -> (r: u32)
        requires
            is_i32(self@.max_y - self@.min_y),
        ensures
            r == self@.max_y - self@.min_y,
    {
        proof {
            use_type_invariant(self);
        }
        (self.max.get_y() - self.min.get_y()) as u32
    }

    /// Returns all the x & y positions within this area as [`GlobalPosition`]s, walking each row
    /// from the minimum x to the maximum x, and the rows from the minimum y to the maximum y.
    ///
    /// When the difference between min x/y & max x/y is 0, the tiles at that axis are still included.
    pub fn iterate_over(&self) -> (r: Vec<GlobalPosition>)
        ensures
            r@.len() == self@.cell_count(),
            forall|k: int| 0 <= k < r@.len() ==> #[trigger] r@[k]@ == self@.position_at(k),
    {
        proof {
            use_type_invariant(self);
        }
        let ghost a = self@;
        let ghost w = a.width();
        let min_x = self.min.get_x() as i64;
        let min_y = self.min.get_y() as i64;
        let max_x = self.max.get_x() as i64;
        let max_y = self.max.get_y() as i64;
        let mut positions: Vec<GlobalPosition> = Vec::new();
        let mut y: i64 = min_y;
        while y <= max_y
            invariant
                a == self@,
                w == a.width(),
                a.ordered(),
                min_x == a.min_x,
                min_y == a.min_y,
                max_x == a.max_x,
                max_y == a.max_y,
                is_i32(min_x as int),
                is_i32(max_x as int),
                is_i32(max_y as int),
                min_y <= y <= max_y + 1,
                positions@.len() == (y - min_y) * w,
                forall|k: int| 0 <= k < positions@.len() ==> #[trigger] positions@[k]@ == a.position_at(k),
            decreases max_y + 1 - y,
        {
            let mut x: i64 = min_x;
            while x <= max_x
                invariant
                    a == self@,
                    w == a.width(),
                    a.ordered(),
                    min_x == a.min_x,
                    min_y == a.min_y,
                    max_x == a.max_x,
                    max_y == a.max_y,
                    is_i32(min_x as int),
                    is_i32(max_x as int),
                    is_i32(max_y as int),
                    min_y <= y <= max_y,
                    min_x <= x <= max_x + 1,
                    positions@.len() == (y - min_y) * w + (x - min_x),
                    forall|k: int| 0 <= k < positions@.len() ==> #[trigger] positions@[k]@ == a.position_at(k),
                decreases max_x + 1 - x,
            {
                let ghost k = positions@.len() as int;
                proof {
                    lemma_fundamental_div_mod_converse(k, w, y - min_y, x - min_x);
                }
                positions.push(GlobalPosition::new(x as i32, y as i32));
                x = x + 1;
            }
            proof {
                lemma_mul_is_distributive_add(w, y - min_y, 1);
                assert((y - min_y) * w + w == (y + 1 - min_y) * w) by (nonlinear_arith);
            }
            y = y + 1;
        }
        proof {
            assert((y - min_y) * w == a.cell_count()) by (nonlinear_arith)
                requires
                    y - min_y == a.height(),
                    w == a.width(),
            ;
        }
        positions
    }

    /// Moves the area in the x axis by the given value.
    pub fn translate_x(&mut self, move_by: i32)
        requires
            is_i32(old(self)@.min_x + move_by),
            is_i32(old(self)@.max_x + move_by),
        ensures
            final(self)@ == old(self)@.shifted(move_by as int, 0),
    {
        proof {
            use_type_invariant(&*self);
        }
        let min = GlobalPosition::new(self.min.get_x() + move_by, self.min.get_y());
        let max = GlobalPosition::new(self.max.get_x() + move_by, self.max.get_y());
        *self = Area { min, max };
    }

    /// Moves the area in the y axis by the given value.
    pub fn translate_y(&mut self, move_by: i32)
        requires
            is_i32(old(self)@.min_y + move_by),
            is_i32(old(self)@.max_y + move_by),
        ensures
            final(self)@ == old(self)@.shifted(0, move_by as int),
    {
        proof {
            use_type_invariant(&*self);
        }
        let min = GlobalPosition::new(self.min.get_x(), self.min.get_y() + move_by);
        let max = GlobalPosition::new(self.max.get_x(), self.max.get_y() + move_by);
        *self = Area { min, max };
    }

    /// Modifies the minimum x & y by the given values, with the first representing x and the latter y.
    /// If x or y value would exceed the maximum value after the change, it will be clamped to the value of maximums values.
    pub fn modify_min(&mut self, min_change: (i32, i32))
        requires
            is_i32(old(self)@.min_x + min_change.0),
            is_i32(old(self)@.min_y + min_change.1),
        ensures
            final(self)@ == (AreaView {
                min_x: min_int(old(self)@.min_x + min_change.0, old(self)@.max_x),
                min_y: min_int(old(self)@.min_y + min_change.1, old(self)@.max_y),
                ..old(self)@
            }),
    {
        proof {
            use_type_invariant(&*self);
        }
        let x = self.min.get_x() + min_change.0;
        let y = self.min.get_y() + min_change.1;
        let max_x = self.max.get_x();
        let max_y = self.max.get_y();
        let min = GlobalPosition::new(if x <= max_x { x } else { max_x }, if y <= max_y { y } else { max_y });
        *self = Area { min, max: self.max };
    }

    /// Modifies the maximum x & y by the given values, with the first representing x and the latter y.
    /// If x or y would decrease bellow the minimum value after the change, it will be clamped to the value of the minimum values.
    pub fn modify_max(&mut self, max_change: (i32, i32))
        requires
            is_i32(old(self)@.max_x + max_change.0),
            is_i32(old(self)@.max_y + max_change.1),
        ensures
            final(self)@ == (AreaView {
                max_x: max_int(old(self)@.max_x + max_change.0, old(self)@.min_x),
                max_y: max_int(old(self)@.max_y + max_change.1, old(self)@.min_y),
                ..old(self)@
            }),
    {
        proof {
            use_type_invariant(&*self);
        }
        let x = self.max.get_x() + max_change.0;
        let y = self.max.get_y() + max_change.1;
        let min_x = self.min.get_x();
        let min_y = self.min.get_y();
        let max = GlobalPosition::new(if x >= min_x { x } else { min_x }, if y >= min_y { y } else { min_y });
        *self = Area { min: self.min, max };
    }

    /// Moves the maximum x by the given value.
    ///
    /// The maximum may not move below the minimum: an area always keeps its corners ordered.
    pub fn modify_x(&mut self, x_change: i32)
        requires
            is_i32(old(self)@.max_x + x_change),
            old(self)@.min_x <= old(self)@.max_x + x_change,
        ensures
            final(self)@ == (AreaView { max_x: old(self)@.max_x + x_change, ..old(self)@ }),
    {
        proof {
            use_type_invariant(&*self);
        }
        let max = GlobalPosition::new(self.max.get_x() + x_change, self.max.get_y());
        *self = Area { min: self.min, max };
    }

    /// Moves the maximum y by the given value.
    ///
    /// The maximum may not move below the minimum: an area always keeps its corners ordered.
    pub fn modify_y(&mut self, y_change: i32)
        requires
            is_i32(old(self)@.max_y + y_change),
            old(self)@.min_y <= old(self)@.max_y + y_change,
        ensures
            final(self)@ == (AreaView { max_y: old(self)@.max_y + y_change, ..old(self)@ }),
    {
        proof {
            use_type_invariant(&*self);
        }
        let max = GlobalPosition::new(self.max.get_x(), self.max.get_y() + y_change);
        *self = Area { min: self.min, max };
    }

    /// Returns true if the given position is a location inside of this area.
    ///
    /// All positions produced via [`Self::iterate_over`] will return true for this method.
    pub fn contains(&self, position: impl IntoPosition) -> (r: bool)
        ensures
            r == self@.contains(position.position_view().0, position.position_view().1),
    {
        let position = position.into_position();
        position.get_x() >= self.min.get_x() && position.get_x() <= self.max.get_x()
            && position.get_y() >= self.min.get_y() && position.get_y() <= self.max.get_y()
    }
}

impl Default for Area {
    /// Constructs a new [`Area`], with zero size.
    fn default() -> (r: Self)
        ensures
            r@ == (AreaView { min_x: 0, min_y: 0, max_x: 0, max_y: 0 }),
    {
        Self::new((0i32, 0i32), (0i32, 0i32))
    }
}

/// Every position that the walk over an area yields lies inside the area,
/// and every position inside the area is yielded at exactly one place of the walk.
pub proof fn law_walk_covers_area(a: AreaView)
    requires
        a.ordered(),
    ensures
        forall|k: int|
            0 <= k < a.cell_count() ==> a.contains(#[trigger] a.position_at(k).0, a.position_at(k).1),
        forall|x: int, y: int|
            #[trigger] a.contains(x, y) ==> 0 <= a.index_of(x, y) < a.cell_count() && a.position_at(
                a.index_of(x, y),
            ) == (x, y),
        forall|j: int, k: int|
            0 <= j < a.cell_count() && 0 <= k < a.cell_count() && j != k ==> #[trigger] a.position_at(j)
                != #[trigger] a.position_at(k),
{
    assert forall|k: int| 0 <= k < a.cell_count() implies a.contains(
        #[trigger] a.position_at(k).0,
        a.position_at(k).1,
    ) by {
        lemma_position_at(a, k);
    }
    assert forall|x: int, y: int| #[trigger] a.contains(x, y) implies 0 <= a.index_of(x, y)
        < a.cell_count() && a.position_at(a.index_of(x, y)) == (x, y) by {
        lemma_index_of(a, x, y);
    }
    assert forall|j: int, k: int|
        0 <= j < a.cell_count() && 0 <= k < a.cell_count() && j != k implies #[trigger] a.position_at(j)
        != #[trigger] a.position_at(k) by {
        lemma_position_at(a, j);
        lemma_position_at(a, k);
    }
}

} // verus!
