//! Laws of input dispatch.

use crate::compositor::engine::model::{lemma_first_position, window_ids, CompositorView};
use crate::input::event::InputEvent;
use vstd::prelude::*;

verus! {

/// Where the input of a seat goes: to the window at `i` exactly if the seat
/// focuses that window's id, the window is the first with that id, and it
/// is mapped.
pub proof fn lemma_input_target(state: CompositorView, seat_name: Seq<char>, i: int)
    requires
        0 <= i < state.windows.len(),
    ensures
        state.input_target(seat_name) == Some(i) <==> (state.focus_of(seat_name) == Some(
            state.windows[i].id,
        ) && state.window_position(state.windows[i].id) == Some(i) && state.windows[i].is_mapped),
{
    match state.focus_of(seat_name) {
        Some(id) => {
            lemma_first_position(window_ids(state.windows), id);
        },
        None => {},
    }
}

/// An event is queued for a window exactly if that window is the input
/// target of the seat: the seat's current focus, and mapped. Every other
/// window stays as it is.
pub proof fn lemma_dispatch_reaches_the_focus_only(
    state: CompositorView,
    event: InputEvent,
    seat_name: Seq<char>,
    i: int,
)
    requires
        0 <= i < state.windows.len(),
    ensures
        state.with_dispatched(event, seat_name).windows.len() == state.windows.len(),
        state.input_target(seat_name) == Some(i) ==> state.with_dispatched(
            event,
            seat_name,
        ).windows[i] == state.windows[i].with_event(event),
        state.input_target(seat_name) != Some(i) ==> state.with_dispatched(
            event,
            seat_name,
        ).windows[i] == state.windows[i],
        state.with_dispatched(event, seat_name).windows[i].event_queue.len()
            == state.windows[i].event_queue.len() + 1 <==> state.input_target(seat_name) == Some(i),
        state.input_target(seat_name) == Some(i) ==> state.windows[i].is_mapped
            && state.focus_of(seat_name) == Some(state.windows[i].id),
{
    lemma_input_target(state, seat_name, i);
    match state.focus_of(seat_name) {
        Some(id) => {
            lemma_first_position(window_ids(state.windows), id);
        },
        None => {},
    }
}

/// A window that was unmapped takes no input, whichever seat still names
/// it as its focus.
pub proof fn lemma_unmapped_window_takes_no_input(
    state: CompositorView,
    id: u32,
    event: InputEvent,
    seat_name: Seq<char>,
)
    requires
        state.focus_of(seat_name) == Some(id),
    ensures
        state.with_window_unmapped(id).input_target(seat_name) is None,
        state.with_window_unmapped(id).with_dispatched(event, seat_name)
            == state.with_window_unmapped(id),
        state.with_window_unmapped(id).find_window(id) matches Some(w) ==> !w.is_mapped,
{
    let ids = window_ids(state.windows);
    let after = state.with_window_unmapped(id);
    lemma_first_position(ids, id);
    assert(window_ids(after.windows) =~= ids);
}

} // verus!
