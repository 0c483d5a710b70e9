//! The coordinates of a cell on the Conway's game of life board.
use vstd::prelude::*;

verus! {

/// True when the integer fits in an `i32`.
pub open spec fn is_i32(v: int) -> bool {
    i32::MIN <= v <= i32::MAX
}

/// The x & y positions of a [`Cell`](crate::Cell) on the Conway's game of life board.
///
/// To move "right" on the board, the x must be increased.
/// To move "down" on the board, the y must be increased.
/// The opposites also apply.
#[derive(Eq, PartialEq, Structural, Hash, Clone, Copy, Debug)]
pub struct GlobalPosition {
    x: i32,
    y: i32,
}

impl View for GlobalPosition {
    type V = (int, int);

    /// A position is viewed as the pair of its mathematical coordinates.
    closed spec fn view(&self) -> (int, int) {
        (self.x as int, self.y as int)
    }
}

/// Both coordinates of a position fit in an `i32`.
pub broadcast proof fn lemma_position_in_range(p: GlobalPosition)
    ensures
        #![trigger p@]
        is_i32(p@.0),
        is_i32(p@.1),
{
}

/// Two positions with the same coordinates are the same position.
pub broadcast proof fn lemma_position_view_injective(p: GlobalPosition, q: GlobalPosition)
    ensures
        #![trigger p@, q@]
        p@ == q@ ==> p == q,
{
}

pub broadcast group group_position {
    lemma_position_in_range,
    lemma_position_view_injective,
}

impl GlobalPosition {
    /// Creates a new [`GlobalPosition`] at the given x & y coordinates.
    pub fn new(x: i32, y: i32) -> (r: Self)
        ensures
            r@ == (x as int, y as int),
    {
        Self { x, y }
    }

    /// Gets the represented x position.
    pub fn get_x(&self) -> (r: i32)
        ensures
            r as int == self@.0,
    {
        self.x
    }

    /// Gets the represented y position.
    pub fn get_y(&self) -> (r: i32)
        ensures
            r as int == self@.1,
    {
        self.y
    }
}

/// The position moved by the offset.
pub open spec fn moved_by(p: (int, int), offset: (int, int)) -> (int, int) {
    (p.0 + offset.0, p.1 + offset.1)
}

/// The position moved back by the offset.
pub open spec fn moved_back_by(p: (int, int), offset: (int, int)) -> (int, int) {
    (p.0 - offset.0, p.1 - offset.1)
}

/// Both coordinates fit in an `i32`.
pub open spec fn fits(p: (int, int)) -> bool {
    is_i32(p.0) && is_i32(p.1)
}

impl std::ops::Add<GlobalPosition> for GlobalPosition {
    type Output = Self;

    fn add(self, other_position: GlobalPosition) -> (r: Self) {
        GlobalPosition::new(self.x + other_position.x, self.y + other_position.y)
    }
}

impl vstd::std_specs::ops::AddSpecImpl<GlobalPosition> for GlobalPosition {
    open spec fn obeys_add_spec() -> bool {
        true
    }

    open spec fn add_req(self, rhs: GlobalPosition) -> bool {
        fits(moved_by(self@, rhs@))
    }

    open spec fn add_spec(self, rhs: GlobalPosition) -> GlobalPosition {
        GlobalPosition::spec_new(moved_by(self@, rhs@).0 as i32, moved_by(self@, rhs@).1 as i32)
    }
}

impl std::ops::Add<(i32, i32)> for GlobalPosition {
    type Output = Self;

    fn add(self, other_position: (i32, i32)) -> (r: Self) {
        GlobalPosition::new(self.x + other_position.0, self.y + other_position.1)
    }
}

impl vstd::std_specs::ops::AddSpecImpl<(i32, i32)> for GlobalPosition {
    open spec fn obeys_add_spec() -> bool {
        true
    }

    open spec fn add_req(self, rhs: (i32, i32)) -> bool {
        fits(moved_by(self@, (rhs.0 as int, rhs.1 as int)))
    }

    open spec fn add_spec(self, rhs: (i32, i32)) -> GlobalPosition {
        GlobalPosition::spec_new((self@.0 + rhs.0) as i32, (self@.1 + rhs.1) as i32)
    }
}

impl std::ops::Sub<GlobalPosition> for GlobalPosition {
    type Output = Self;

    fn sub(self, other_position: GlobalPosition) -> (r: Self) {
        GlobalPosition::new(self.x - other_position.x, self.y - other_position.y)
    }
}

impl vstd::std_specs::ops::SubSpecImpl<GlobalPosition> for GlobalPosition {
    open spec fn obeys_sub_spec() -> bool {
        true
    }

    open spec fn sub_req(self, rhs: GlobalPosition) -> bool {
        fits(moved_back_by(self@, rhs@))
    }

    open spec fn sub_spec(self, rhs: GlobalPosition) -> GlobalPosition {
        GlobalPosition::spec_new(moved_back_by(self@, rhs@).0 as i32, moved_back_by(self@, rhs@).1 as i32)
    }
}

impl std::ops::Sub<(i32, i32)> for GlobalPosition {
    type Output = Self;

    fn sub(self, other_position: (i32, i32)) -> (r: Self) {
        GlobalPosition::new(self.x - other_position.0, self.y - other_position.1)
    }
}

impl vstd::std_specs::ops::SubSpecImpl<(i32, i32)> for GlobalPosition {
    open spec fn obeys_sub_spec() -> bool {
        true
    }

    open spec fn sub_req(self, rhs: (i32, i32)) -> bool {
        fits(moved_back_by(self@, (rhs.0 as int, rhs.1 as int)))
    }

    open spec fn sub_spec(self, rhs: (i32, i32)) -> GlobalPosition {
        GlobalPosition::spec_new((self@.0 - rhs.0) as i32, (self@.1 - rhs.1) as i32)
    }
}

impl From<(i32, i32)> for GlobalPosition {
    fn from(value: (i32, i32)) -> (r: Self) {
        GlobalPosition { x: value.0, y: value.1 }
    }
}

impl vstd::std_specs::convert::FromSpecImpl<(i32, i32)> for GlobalPosition {
    open spec fn obeys_from_spec() -> bool {
        true
    }

    open spec fn from_spec(v: (i32, i32)) -> GlobalPosition {
        GlobalPosition::spec_new(v.0, v.1)
    }
}

impl GlobalPosition {
    /// The position at the given coordinates, for use in specifications.
    pub closed spec fn spec_new(x: i32, y: i32) -> GlobalPosition {
        GlobalPosition { x, y }
    }

    /// The coordinates of a position made by [`Self::spec_new`].
    pub broadcast proof fn lemma_spec_new(x: i32, y: i32)
        ensures
            #[trigger] Self::spec_new(x, y)@ == (x as int, y as int),
    {
    }
}

/// Values that name a position on the board: a position itself, or an `(x, y)` pair.
pub trait IntoPosition {
    /// The coordinates that the value names.
    spec fn position_view(&self) -> (int, int);

    /// The position that the value names.
    fn into_position(self) -> (r: GlobalPosition)
        ensures
            r@ == self.position_view(),
    ;
}

impl IntoPosition for GlobalPosition {
    open spec fn position_view(&self) -> (int, int) {
        self@
    }

    fn into_position(self) -> (r: GlobalPosition) {
        self
    }
}

impl IntoPosition for (i32, i32) {
    open spec fn position_view(&self) -> (int, int) {
        (self.0 as int, self.1 as int)
    }

    fn into_position(self) -> (r: GlobalPosition) {
        GlobalPosition::new(self.0, self.1)
    }
}

} // verus!
