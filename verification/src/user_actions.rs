//! The history of the edits a user makes to the board, so that they can be undone and redone.
use vstd::prelude::*;
use circular_buffer::CircularBuffer;
use crate::cell::{Cell, inverted};
use crate::communication::UiPacket;
use crate::position::GlobalPosition;

verus! {

/// The number of user actions that can be undone.
pub const UNDO_BUFFER: usize = 32;

/// `circular_buffer::CircularBuffer`, a double-ended queue of fixed capacity `N`.
/// What a buffer of the history holds is named by [`buffered_actions`].
#[verifier::external_type_specification]
#[verifier::external_body]
#[verifier::reject_recursive_types(T)]
pub struct ExCircularBuffer<const N: usize, T>(CircularBuffer<N, T>);

/// The actions that a buffer of the history holds, from the front (the most recent) to the back.
pub uninterp spec fn buffered_actions(buffer: CircularBuffer<32, Action>) -> Seq<Action>;

/// An empty buffer, from `CircularBuffer::new`.
#[verifier::external_body]
fn buffer_new() -> (r: CircularBuffer<32, Action>)
    ensures
        buffered_actions(r) == Seq::<Action>::empty(),
{
    CircularBuffer::new()
}

/// The action at the given index from the front, copied out of `CircularBuffer::get`,
/// which gives `None` past the end.
#[verifier::external_body]
fn buffer_get(buffer: &CircularBuffer<32, Action>, index: usize) -> (r: Option<Action>)
    ensures
        r == (if index < buffered_actions(*buffer).len() {
            Some(buffered_actions(*buffer)[index as int])
        } else {
            None::<Action>
        }),
{
    buffer.get(index).copied()
}

/// `CircularBuffer::push_front`: the action goes to the front; when the buffer is full,
/// the action at the back is dropped.
#[verifier::external_body]
fn buffer_push_front(buffer: &mut CircularBuffer<32, Action>, action: Action)
    ensures
        buffered_actions(*final(buffer)) == pushed_front(buffered_actions(*old(buffer)), action),
{
    buffer.push_front(action);
}

/// `CircularBuffer::truncate_front`: keeps only the back `len` actions, dropping the rest from the front;
/// no effect when `len` is at least the number of actions.
#[verifier::external_body]
fn buffer_truncate_front(buffer: &mut CircularBuffer<32, Action>, len: usize)
    ensures
        buffered_actions(*final(buffer)) == truncated_front(buffered_actions(*old(buffer)), len as int),
{
    buffer.truncate_front(len)
}

/// `CircularBuffer::len`: the number of actions held.
#[verifier::external_body]
fn buffer_len(buffer: &CircularBuffer<32, Action>) -> (r: usize)
    ensures
        r == buffered_actions(*buffer).len(),
{
    buffer.len()
}

/// `CircularBuffer::clear`: drops every action.
#[verifier::external_body]
fn buffer_clear(buffer: &mut CircularBuffer<32, Action>)
    ensures
        buffered_actions(*final(buffer)) == Seq::<Action>::empty(),
{
    buffer.clear()
}

/// `CircularBuffer::is_full`: whether the buffer holds as many actions as it has room for.
#[verifier::external_body]
fn buffer_is_full(buffer: &CircularBuffer<32, Action>) -> (r: bool)
    ensures
        r == (buffered_actions(*buffer).len() == 32),
{
    buffer.is_full()
}

/// The actions after one is put at the front of a buffer of [`UNDO_BUFFER`] places:
/// when all places are taken, the action at the back makes room.
pub open spec fn pushed_front(actions: Seq<Action>, action: Action) -> Seq<Action> {
    if actions.len() >= UNDO_BUFFER {
        seq![action] + actions.take(UNDO_BUFFER - 1)
    } else {
        seq![action] + actions
    }
}

/// The actions after all but the back `len` have been dropped from the front.
pub open spec fn truncated_front(actions: Seq<Action>, len: int) -> Seq<Action> {
    if len >= actions.len() {
        actions
    } else {
        actions.skip(actions.len() - len)
    }
}

/// The possible actions the user can perform to edit the board.
#[derive(Debug, PartialEq, Eq, Structural, Clone, Copy)]
pub enum Action {
    SetAlive { position: GlobalPosition },
    SetDead { position: GlobalPosition },
}

/// The action that sets the cell at the position to the given state.
pub open spec fn action_of(position: GlobalPosition, cell_state: Cell) -> Action {
    match cell_state {
        Cell::Dead => Action::SetDead { position },
        Cell::Alive => Action::SetAlive { position },
    }
}

/// The position of the cell that an action edits.
pub open spec fn action_position(action: Action) -> GlobalPosition {
    match action {
        Action::SetAlive { position } => position,
        Action::SetDead { position } => position,
    }
}

/// The state that an action sets its cell to.
pub open spec fn action_state(action: Action) -> Cell {
    match action {
        Action::SetAlive { .. } => Cell::Alive,
        Action::SetDead { .. } => Cell::Dead,
    }
}

/// The packets that redo an action: set its cell to the state the action set it to.
pub open spec fn redo_packets(action: Action) -> Seq<UiPacket> {
    seq![UiPacket::SetCell { position: action_position(action), cell_state: action_state(action) }]
}

/// The packets that undo an action: set its cell to the other state.
pub open spec fn undo_packets(action: Action) -> Seq<UiPacket> {
    seq![UiPacket::SetCell { position: action_position(action), cell_state: inverted(action_state(action)) }]
}

impl Action {
    /// Returns the correct [`Action`] for setting a [`Cell`] to the given state.
    pub fn set(position: GlobalPosition, cell_state: Cell) -> (r: Self)
        ensures
            r == action_of(position, cell_state),
    {
        match cell_state {
            Cell::Dead => Action::SetDead { position },
            Cell::Alive => Action::SetAlive { position },
        }
    }

    /// The packets that need to be sent to the board to undo an action.
    pub fn undo(&self) -> (r: Vec<UiPacket>)
        ensures
            r@ == undo_packets(*self),
    {
        match self {
            Action::SetAlive { position } => vec![UiPacket::SetCell { position: *position, cell_state: Cell::Dead }],
            Action::SetDead { position } => vec![UiPacket::SetCell { position: *position, cell_state: Cell::Alive }],
        }
    }

    /// The packets that need to be sent to the board to redo an action.
    pub fn redo(&self) -> (r: Vec<UiPacket>)
        ensures
            r@ == redo_packets(*self),
    {
        match self {
            Action::SetAlive { position } => vec![UiPacket::SetCell { position: *position, cell_state: Cell::Alive }],
            Action::SetDead { position } => vec![UiPacket::SetCell { position: *position, cell_state: Cell::Dead }],
        }
    }
}

/// The actions after one is added to a history whose `undo_index` actions at the front were undone:
/// the undone actions are discarded, and the new action goes to the front.
pub open spec fn after_add(actions: Seq<Action>, undo_index: int, action: Action) -> Seq<Action> {
    pushed_front(actions.skip(undo_index), action)
}

/// Whether an action is left to undo: one stands at the undo index.
pub open spec fn undo_available(actions: Seq<Action>, undo_index: int) -> bool {
    0 <= undo_index < actions.len()
}

/// Whether an action is left to redo: one stands just before the undo index.
pub open spec fn redo_available(actions: Seq<Action>, undo_index: int) -> bool {
    undo_index != 0 && 0 <= undo_index - 1 < actions.len()
}

/// The packets that an undo gives: those undoing the action at the undo index, or none.
pub open spec fn undo_output(actions: Seq<Action>, undo_index: int) -> Seq<UiPacket> {
    if undo_available(actions, undo_index) {
        undo_packets(actions[undo_index])
    } else {
        Seq::empty()
    }
}

/// The undo index after an undo.
pub open spec fn index_after_undo(actions: Seq<Action>, undo_index: int) -> int {
    if undo_available(actions, undo_index) {
        undo_index + 1
    } else {
        undo_index
    }
}

/// The packets that a redo gives: those redoing the action just before the undo index, or none.
pub open spec fn redo_output(actions: Seq<Action>, undo_index: int) -> Seq<UiPacket> {
    if redo_available(actions, undo_index) {
        redo_packets(actions[undo_index - 1])
    } else {
        Seq::empty()
    }
}

/// The undo index after a redo.
pub open spec fn index_after_redo(actions: Seq<Action>, undo_index: int) -> int {
    if redo_available(actions, undo_index) {
        undo_index - 1
    } else {
        undo_index
    }
}

/// Stores a buffer of user actions that can be undone or redone.
#[derive(Debug, PartialEq, Eq)]
pub struct History {
    /// A FIFO Queue of interactions the user has made with the board.
    interactions: CircularBuffer<UNDO_BUFFER, Action>,
    /// The index into the interaction queue the user is at.
    undo_index: usize,
}

impl History {
    /// The actions held, the most recent first.
    pub closed spec fn actions(&self) -> Seq<Action> {
        buffered_actions(self.interactions)
    }

    /// How many of the most recent actions have been undone.
    pub closed spec fn undone(&self) -> int {
        self.undo_index as int
    }

    /// At most [`UNDO_BUFFER`] actions are held, and no more can be undone than are held.
    #[verifier::type_invariant]
    closed spec fn inv(&self) -> bool {
        &&& buffered_actions(self.interactions).len() <= UNDO_BUFFER
        &&& self.undo_index <= buffered_actions(self.interactions).len()
    }

    /// Adds an action to the history.
    ///
    /// If an action is added whilst a user is in an "undo", then any actions that have been undone will be discarded.
    /// The current action will be set as the most recent action, with any actions had not being undo remaining in history.
    pub fn add_action(&mut self, action: Action)
        ensures
            final(self).actions() == after_add(old(self).actions(), old(self).undone(), action),
            final(self).undone() == 0,
    {
        proof {
            use_type_invariant(&*self);
        }
        let mut previous = History { interactions: buffer_new(), undo_index: 0 };
        std::mem::swap(self, &mut previous);
        proof {
            use_type_invariant(&previous);
        }
        let ghost before = buffered_actions(previous.interactions);
        let History { mut interactions, undo_index } = previous;
        if undo_index != 0 {
            let len = buffer_len(&interactions);
            buffer_truncate_front(&mut interactions, len - undo_index);
            proof {
                assert(truncated_front(before, len - undo_index) == before.skip(undo_index as int));
            }
        }
        buffer_push_front(&mut interactions, action);
        *self = History { interactions, undo_index: 0 };
    }

    /// Returns a vector of [`UiPacket`]s that need to be sent to undo a previous action.
    /// Subsequent calls of this method will give packets for previous actions.
    ///
    /// If an empty vector is returned, then there are no more actions stored to undo.
    pub fn undo(&mut self) -> (r: Vec<UiPacket>)
        ensures
            r@ == undo_output(old(self).actions(), old(self).undone()),
            final(self).actions() == old(self).actions(),
            final(self).undone() == index_after_undo(old(self).actions(), old(self).undone()),
    {
        proof {
            use_type_invariant(&*self);
        }
        if let Some(action) = buffer_get(&self.interactions, self.undo_index) {
            self.undo_index = self.undo_index + 1;
            return action.undo();
        }
        Vec::new()
    }

    /// Returns a vector of [`UiPacket`]s that need to be sent to redo an undone action.
    /// Subsequent calls to this method will give the packets for previous undo actions.
    ///
    /// If an empty vector is returned, then there are no more actions to redo.
    ///
    /// If [`Self::add_action()`] is called whilst there are actions to redo, then these actions will be discarded.
    pub fn redo(&mut self) -> (r: Vec<UiPacket>)
        ensures
            r@ == redo_output(old(self).actions(), old(self).undone()),
            final(self).actions() == old(self).actions(),
            final(self).undone() == index_after_redo(old(self).actions(), old(self).undone()),
    {
        proof {
            use_type_invariant(&*self);
        }
        if self.undo_index == 0 {
            return Vec::new();
        }
        if let Some(action) = buffer_get(&self.interactions, self.undo_index - 1) {
            self.undo_index = self.undo_index - 1;
            return action.redo();
        }
        Vec::new()
    }

    /// Empties the action queue.
    pub fn clear(&mut self)
        ensures
            final(self).actions() == Seq::<Action>::empty(),
            final(self).undone() == 0,
    {
        let mut previous = History { interactions: buffer_new(), undo_index: 0 };
        std::mem::swap(self, &mut previous);
        let History { mut interactions, .. } = previous;
        buffer_clear(&mut interactions);
        *self = History { interactions, undo_index: 0 };
    }

    /// Returns true if there are actions that can be undone.
    pub fn can_undo(&self) -> (r: bool)
        ensures
            r == undo_available(self.actions(), self.undone()),
    {
        buffer_get(&self.interactions, self.undo_index).is_some()
    }

    /// Returns true if there are actions can that can redone.
    pub fn can_redo(&self) -> (r: bool)
        ensures
            r == redo_available(self.actions(), self.undone()),
    {
        if self.undo_index == 0 {
            return false;
        }
        buffer_get(&self.interactions, self.undo_index - 1).is_some()
    }

    /// Whether the history holds as many actions as it has room for.
    pub fn is_full(&self) -> (r: bool)
        ensures
            r == (self.actions().len() == UNDO_BUFFER),
    {
        buffer_is_full(&self.interactions)
    }

    /// How many of the most recent actions have been undone.
    pub fn undo_index(&self) -> (r: usize)
        ensures
            r == self.undone(),
            r <= self.actions().len() <= UNDO_BUFFER,
    {
        proof {
            use_type_invariant(self);
        }
        self.undo_index
    }
}

impl Default for History {
    /// An empty history, with nothing undone.
    fn default() -> (r: History)
        ensures
            r.actions() == Seq::<Action>::empty(),
            r.undone() == 0,
    {
        History { interactions: buffer_new(), undo_index: 0 }
    }
}

/// An undo followed by a redo gives back the history as it was,
/// and the redo replays the action that the undo reverted.
pub proof fn law_undo_then_redo(actions: Seq<Action>, undo_index: int)
    requires
        undo_available(actions, undo_index),
    ensures
        index_after_redo(actions, index_after_undo(actions, undo_index)) == undo_index,
        undo_output(actions, undo_index) == undo_packets(actions[undo_index]),
        redo_output(actions, index_after_undo(actions, undo_index)) == redo_packets(actions[undo_index]),
{
}

/// A redo followed by an undo gives back the history as it was,
/// and the undo reverts the action that the redo replayed.
pub proof fn law_redo_then_undo(actions: Seq<Action>, undo_index: int)
    requires
        redo_available(actions, undo_index),
    ensures
        index_after_undo(actions, index_after_redo(actions, undo_index)) == undo_index,
        redo_output(actions, undo_index) == redo_packets(actions[undo_index - 1]),
        undo_output(actions, index_after_redo(actions, undo_index)) == undo_packets(actions[undo_index - 1]),
{
}

/// An undo gives packets exactly when there is an action to undo, and a redo exactly when there is one to redo.
pub proof fn law_packets_iff_available(actions: Seq<Action>, undo_index: int)
    ensures
        undo_output(actions, undo_index).len() > 0 <==> undo_available(actions, undo_index),
        redo_output(actions, undo_index).len() > 0 <==> redo_available(actions, undo_index),
{
}

/// After an action is added, nothing is left to redo, and the next undo reverts that action.
pub proof fn law_add_then_undo(actions: Seq<Action>, undo_index: int, action: Action)
    requires
        0 <= undo_index <= actions.len() <= UNDO_BUFFER,
    ensures
        !redo_available(after_add(actions, undo_index, action), 0),
        undo_output(after_add(actions, undo_index, action), 0) == undo_packets(action),
        after_add(actions, undo_index, action).len() <= UNDO_BUFFER,
{
}

/// Adding an action after some were undone discards the undone ones: the new action is followed by
/// the actions that were not undone, so the undo after the new one reaches the last action not undone.
pub proof fn law_add_discards_undone(actions: Seq<Action>, undo_index: int, action: Action)
    requires
        0 < undo_index <= actions.len() <= UNDO_BUFFER,
    ensures
        after_add(actions, undo_index, action) == seq![action] + actions.skip(undo_index),
        undo_index < actions.len() ==> undo_output(after_add(actions, undo_index, action), 1)
            == undo_packets(actions[undo_index]),
{
}

/// Adding an action when nothing is undone keeps every earlier action, most recent first, behind the
/// new one; only when the history already holds [`UNDO_BUFFER`] actions is the oldest one dropped.
/// So the undo after the new action's undo reverts the action that was the most recent before it.
pub proof fn law_add_keeps_recent(actions: Seq<Action>, action: Action)
    requires
        actions.len() <= UNDO_BUFFER,
    ensures
        after_add(actions, 0, action).len() == (if actions.len() == UNDO_BUFFER {
            UNDO_BUFFER as int
        } else {
            actions.len() + 1int
        }),
        after_add(actions, 0, action)[0] == action,
        forall|i: int|
            0 <= i < after_add(actions, 0, action).len() - 1 ==> #[trigger] after_add(actions, 0, action)[i + 1]
                == actions[i],
        actions.len() > 0 ==> undo_output(after_add(actions, 0, action), 1) == undo_packets(actions[0]),
{
    assert(actions.skip(0) == actions);
}

/// Undoing an action sets its cell to the opposite state of redoing it, at the same position.
pub proof fn law_undo_inverts_redo(position: GlobalPosition, cell_state: Cell)
    ensures
        redo_packets(action_of(position, cell_state)) == seq![
            UiPacket::SetCell { position, cell_state },
        ],
        undo_packets(action_of(position, cell_state)) == seq![
            UiPacket::SetCell { position, cell_state: inverted(cell_state) },
        ],
{
}

} // verus!
