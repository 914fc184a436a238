//! Laws of the tracked input state, proved of its model.

use super::event::{InputEvent, Modifiers};
use super::state::InputStateView;
use vstd::prelude::*;

verus! {

impl InputStateView {
    /// The state after each of `events` in turn.
    pub open spec fn after_all(self, events: Seq<InputEvent>) -> InputStateView
        decreases events.len(),
    {
        if events.len() == 0 {
            self
        } else {
            self.after_all(events.drop_last()).after(events.last())
        }
    }
}

/// The modifier snapshot of the last of `events` that carries one, and
/// `start` where none does.
pub open spec fn latest_modifiers(start: Modifiers, events: Seq<InputEvent>) -> Modifiers
    decreases events.len(),
{
    if events.len() == 0 {
        start
    } else {
        match events.last().carried_modifiers() {
            Some(m) => m,
            None => latest_modifiers(start, events.drop_last()),
        }
    }
}

/// The last writer wins: after any events, the modifiers are those of the
/// most recent event that carried any, whatever the events before held.
pub proof fn lemma_modifiers_are_the_latest(state: InputStateView, events: Seq<InputEvent>)
    ensures
        state.after_all(events).modifiers == latest_modifiers(state.modifiers, events),
    decreases events.len(),
{
    if events.len() > 0 {
        lemma_modifiers_are_the_latest(state, events.drop_last());
    }
}

/// Scrolling and the composed shortcuts change nothing but the modifiers.
pub proof fn lemma_axis_and_shortcuts_keep_the_rest(state: InputStateView, event: InputEvent)
    requires
        event is PointerAxis || event is CopyShortcut || event is PasteShortcut,
    ensures
        state.after(event) == state.with_modifiers_of(event),
{
}

/// Pointer motion adds up: two motions in a row move the pointer as one
/// motion by the sum would, as long as every position on the way stays
/// inside the coordinate range.
pub proof fn lemma_pointer_motion_accumulates(
    state: InputStateView,
    dx1: i64,
    dy1: i64,
    dx2: i64,
    dy2: i64,
    modifiers: Modifiers,
)
    requires
        i64::MIN <= state.pointer_x + dx1 <= i64::MAX,
        i64::MIN <= state.pointer_y + dy1 <= i64::MAX,
        i64::MIN <= state.pointer_x + dx1 + dx2 <= i64::MAX,
        i64::MIN <= state.pointer_y + dy1 + dy2 <= i64::MAX,
    ensures
        state.after(InputEvent::PointerMotion { delta_x: dx1, delta_y: dy1, modifiers }).after(
            InputEvent::PointerMotion { delta_x: dx2, delta_y: dy2, modifiers },
        ).pointer_x == state.pointer_x + dx1 + dx2,
        state.after(InputEvent::PointerMotion { delta_x: dx1, delta_y: dy1, modifiers }).after(
            InputEvent::PointerMotion { delta_x: dx2, delta_y: dy2, modifiers },
        ).pointer_y == state.pointer_y + dy1 + dy2,
{
}

} // verus!
