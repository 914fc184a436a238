//! The focus of every seat stays a window that is present and mapped, and
//! the focus flag stays on mapped windows.

use super::mapping::{
    lemma_accepts_focus_after_add, lemma_accepts_focus_after_mapping,
    lemma_accepts_focus_after_remove, lemma_accepts_focus_depends_on_mapping, same_ids_and_mapping,
};
use crate::compositor::engine::model::{
    accepted_target, accepts_focus, first_position, lemma_first_position, mapped_ids, seat_names,
    window_ids, CompositorView, Operation,
};
use vstd::prelude::*;

verus! {

/// The focus that a seat ends with when asked to focus something is a
/// window that is present and mapped, whatever the state was before.
pub proof fn lemma_set_focus_heals(state: CompositorView, seat_name: Seq<char>, target: Option<u32>)
    ensures
        state.with_focus(seat_name, target).focus_of(seat_name) matches Some(id)
            ==> accepts_focus(state.with_focus(seat_name, target).windows, id),
        state.seat_position(seat_name) is Some ==> state.with_focus(seat_name, target).focus_of(
            seat_name,
        ) == accepted_target(state.windows, target),
{
    let after = state.with_focus(seat_name, target);
    let names = seat_names(state.seats);
    lemma_first_position(names, seat_name);
    assert(seat_names(after.seats) =~= names);
    assert(same_ids_and_mapping(state.windows, after.windows));
    match after.focus_of(seat_name) {
        Some(id) => {
            lemma_accepts_focus_depends_on_mapping(state.windows, after.windows, id);
        },
        None => {},
    }
}

/// When a seat is next asked to move its focus on, it ends on a window that
/// is present and mapped, or without focus, whatever it named before.
pub proof fn lemma_focus_cycling_heals(state: CompositorView, seat_name: Seq<char>)
    ensures
        state.with_next_focus(seat_name).focus_of(seat_name) matches Some(id) ==> accepts_focus(
            state.with_next_focus(seat_name).windows,
            id,
        ),
{
    if mapped_ids(state.windows).len() == 0 {
        lemma_set_focus_heals(state, seat_name, None);
    } else {
        match state.seat_position(seat_name) {
            Some(s) => {
                lemma_set_focus_heals(
                    state,
                    seat_name,
                    Some(state.cycle_target(state.seats[s].focused_window)),
                );
            },
            None => {},
        }
    }
}

/// Asked to focus anything, a seat ends with a focus that is valid, and
/// the other seats keep theirs.
pub proof fn lemma_set_focus_keeps_focus_valid(
    state: CompositorView,
    seat_name: Seq<char>,
    target: Option<u32>,
)
    requires
        state.focus_is_valid(),
    ensures
        state.with_focus(seat_name, target).focus_is_valid(),
{
    let after = state.with_focus(seat_name, target);
    lemma_first_position(seat_names(state.seats), seat_name);
    assert(same_ids_and_mapping(state.windows, after.windows));
    assert forall|s: int| 0 <= s < after.seats.len() implies match (
    #[trigger] after.seats[s]).focused_window {
        Some(id) => accepts_focus(after.windows, id),
        None => true,
    } by {
        match after.seats[s].focused_window {
            Some(id) => {
                lemma_accepts_focus_depends_on_mapping(state.windows, after.windows, id);
                if state.seat_position(seat_name) == Some(s) {
                } else {
                    assert(after.seats[s] == state.seats[s]);
                }
            },
            None => {},
        }
    }
}

/// A change that touches neither the seats nor any window's id or mapped
/// flag keeps every seat's focus valid.
proof fn lemma_same_mapping_keeps_focus_valid(before: CompositorView, after: CompositorView)
    requires
        before.focus_is_valid(),
        after.seats == before.seats,
        same_ids_and_mapping(before.windows, after.windows),
    ensures
        after.focus_is_valid(),
{
    assert forall|s: int| 0 <= s < after.seats.len() implies match (
    #[trigger] after.seats[s]).focused_window {
        Some(id) => accepts_focus(after.windows, id),
        None => true,
    } by {
        match before.seats[s].focused_window {
            Some(id) => {
                lemma_accepts_focus_depends_on_mapping(before.windows, after.windows, id);
            },
            None => {},
        }
    }
}

/// Whether `operation` keeps every seat's focus valid: every operation
/// does, except removing or unmapping a window that a seat focuses.
pub open spec fn keeps_focus(state: CompositorView, operation: Operation) -> bool {
    match operation {
        Operation::RemoveWindow(id) => !state.is_focused(id),
        Operation::UnmapWindow(id) => !state.is_focused(id),
        _ => true,
    }
}

/// An operation that neither removes nor unmaps a focused window leaves
/// every seat's focus on a window that is present and mapped.
pub proof fn lemma_operation_keeps_focus_valid(state: CompositorView, operation: Operation)
    requires
        state.focus_is_valid(),
        keeps_focus(state, operation),
    ensures
        state.after(operation).focus_is_valid(),
{
    let after = state.after(operation);
    match operation {
        Operation::AddWindow(window) => {
            assert forall|s: int| 0 <= s < after.seats.len() implies match (
            #[trigger] after.seats[s]).focused_window {
                Some(id) => accepts_focus(after.windows, id),
                None => true,
            } by {
                match state.seats[s].focused_window {
                    Some(id) => {
                        lemma_accepts_focus_after_add(state.windows, window, id);
                    },
                    None => {},
                }
            }
        },
        Operation::RemoveWindow(removed) => {
            if state.window_position(removed) is Some {
                assert forall|s: int| 0 <= s < after.seats.len() implies match (
                #[trigger] after.seats[s]).focused_window {
                    Some(id) => accepts_focus(after.windows, id),
                    None => true,
                } by {
                    match state.seats[s].focused_window {
                        Some(id) => {
                            lemma_accepts_focus_after_remove(state.windows, removed, id);
                        },
                        None => {},
                    }
                }
            }
        },
        Operation::MapWindow(mapped) => {
            lemma_first_position(window_ids(state.windows), mapped);
            assert forall|s: int| 0 <= s < after.seats.len() implies match (
            #[trigger] after.seats[s]).focused_window {
                Some(id) => accepts_focus(after.windows, id),
                None => true,
            } by {
                match state.seats[s].focused_window {
                    Some(id) => {
                        lemma_accepts_focus_after_mapping(state.windows, after.windows, id);
                    },
                    None => {},
                }
            }
        },
        Operation::UnmapWindow(unmapped) => {
            lemma_first_position(window_ids(state.windows), unmapped);
            assert forall|s: int| 0 <= s < after.seats.len() implies match (
            #[trigger] after.seats[s]).focused_window {
                Some(id) => accepts_focus(after.windows, id),
                None => true,
            } by {
                match state.seats[s].focused_window {
                    Some(id) => {
                        lemma_accepts_focus_after_mapping(state.windows, after.windows, id);
                    },
                    None => {},
                }
            }
        },
        Operation::SetFocus { seat_name, target } => {
            lemma_set_focus_keeps_focus_valid(state, seat_name, target);
        },
        Operation::FocusNext { seat_name } => {
            if mapped_ids(state.windows).len() == 0 {
                lemma_set_focus_keeps_focus_valid(state, seat_name, None);
            } else {
                match state.seat_position(seat_name) {
                    Some(s) => {
                        lemma_set_focus_keeps_focus_valid(
                            state,
                            seat_name,
                            Some(state.cycle_target(state.seats[s].focused_window)),
                        );
                    },
                    None => {},
                }
            }
        },
        Operation::Dispatch { event, seat_name } => {
            match state.focus_of(seat_name) {
                Some(id) => {
                    lemma_first_position(window_ids(state.windows), id);
                },
                None => {},
            }
            lemma_same_mapping_keeps_focus_valid(state, after);
        },
        Operation::Tile => {
            lemma_same_mapping_keeps_focus_valid(state, after);
        },
        Operation::Resize { id, width, height } => {
            lemma_first_position(window_ids(state.windows), id);
            lemma_same_mapping_keeps_focus_valid(state, after);
        },
        Operation::Move { id, x, y } => {
            lemma_first_position(window_ids(state.windows), id);
            lemma_same_mapping_keeps_focus_valid(state, after);
        },
        Operation::Drain => {
            lemma_same_mapping_keeps_focus_valid(state, after);
        },
        _ => {},
    }
}

/// Whether none of `operations`, carried out in turn from `state`, removes
/// or unmaps a window that a seat focuses at that moment.
pub open spec fn all_keep_focus(state: CompositorView, operations: Seq<Operation>) -> bool
    decreases operations.len(),
{
    if operations.len() == 0 {
        true
    } else {
        all_keep_focus(state, operations.drop_last()) && keeps_focus(
            state.after_all(operations.drop_last()),
            operations.last(),
        )
    }
}

/// In every state that is reached from the start without removing or
/// unmapping a focused window, the focus of every seat is a window that is
/// present and mapped.
pub proof fn lemma_focus_is_valid_in_reachable_states(operations: Seq<Operation>)
    requires
        all_keep_focus(CompositorView::initial(), operations),
    ensures
        CompositorView::initial().after_all(operations).focus_is_valid(),
    decreases operations.len(),
{
    if operations.len() > 0 {
        lemma_focus_is_valid_in_reachable_states(operations.drop_last());
        lemma_operation_keeps_focus_valid(
            CompositorView::initial().after_all(operations.drop_last()),
            operations.last(),
        );
    }
}

/// Whether `operation` keeps the focus flag off unmapped windows: every
/// operation does, except adding a window that holds the flag unmapped, and
/// focusing where two windows share an id.
pub open spec fn keeps_flags(state: CompositorView, operation: Operation) -> bool {
    match operation {
        Operation::AddWindow(window) => window.focused ==> window.is_mapped,
        Operation::SetFocus { .. } => window_ids(state.windows).no_duplicates(),
        Operation::FocusNext { .. } => window_ids(state.windows).no_duplicates(),
        _ => true,
    }
}

/// Where no two windows share an id, the windows that hold the focus flag
/// after a seat was asked for a focus are mapped.
pub proof fn lemma_set_focus_flags_mapped_windows(
    state: CompositorView,
    seat_name: Seq<char>,
    target: Option<u32>,
)
    requires
        state.focused_windows_are_mapped(),
        window_ids(state.windows).no_duplicates(),
    ensures
        state.with_focus(seat_name, target).focused_windows_are_mapped(),
{
    let after = state.with_focus(seat_name, target);
    let ids = window_ids(state.windows);
    if state.seat_position(seat_name) is Some {
        match accepted_target(state.windows, target) {
            Some(id) => {
                lemma_first_position(ids, id);
                let p = first_position(ids, id).unwrap();
                assert forall|i: int| 0 <= i < after.windows.len() && (
                #[trigger] after.windows[i]).focused implies after.windows[i].is_mapped by {
                    assert(ids[i] == id);
                    assert(ids[p] == id);
                    assert(i == p);
                }
            },
            None => {},
        }
    }
}

/// Unmapping a window takes the focus flag from it at once: an operation
/// that keeps the flags as above leaves the focus flag on mapped windows
/// only.
pub proof fn lemma_operation_keeps_focused_windows_mapped(
    state: CompositorView,
    operation: Operation,
)
    requires
        state.focused_windows_are_mapped(),
        keeps_flags(state, operation),
    ensures
        state.after(operation).focused_windows_are_mapped(),
{
    let after = state.after(operation);
    let ids = window_ids(state.windows);
    match operation {
        Operation::AddWindow(window) => {
            assert forall|i: int| 0 <= i < after.windows.len() && (
            #[trigger] after.windows[i]).focused implies after.windows[i].is_mapped by {
                if i < state.windows.len() {
                    assert(after.windows[i] == state.windows[i]);
                }
            }
        },
        Operation::RemoveWindow(id) => {
            lemma_first_position(ids, id);
            match first_position(ids, id) {
                Some(r) => {
                    assert forall|i: int| 0 <= i < after.windows.len() && (
                    #[trigger] after.windows[i]).focused implies after.windows[i].is_mapped by {
                        if i < r {
                            assert(after.windows[i] == state.windows[i]);
                        } else {
                            assert(after.windows[i] == state.windows[i + 1]);
                        }
                    }
                },
                None => {},
            }
        },
        Operation::MapWindow(id) => {
            lemma_first_position(ids, id);
            assert forall|i: int| 0 <= i < after.windows.len() && (
            #[trigger] after.windows[i]).focused implies after.windows[i].is_mapped by {
                assert(state.windows[i].focused ==> state.windows[i].is_mapped);
            }
        },
        Operation::UnmapWindow(id) => {
            lemma_first_position(ids, id);
            assert forall|i: int| 0 <= i < after.windows.len() && (
            #[trigger] after.windows[i]).focused implies after.windows[i].is_mapped by {
                assert(state.windows[i].focused ==> state.windows[i].is_mapped);
            }
        },
        Operation::SetFocus { seat_name, target } => {
            lemma_set_focus_flags_mapped_windows(state, seat_name, target);
        },
        Operation::FocusNext { seat_name } => {
            if mapped_ids(state.windows).len() == 0 {
                lemma_set_focus_flags_mapped_windows(state, seat_name, None);
            } else {
                match state.seat_position(seat_name) {
                    Some(s) => {
                        lemma_set_focus_flags_mapped_windows(
                            state,
                            seat_name,
                            Some(state.cycle_target(state.seats[s].focused_window)),
                        );
                    },
                    None => {},
                }
            }
        },
        Operation::Dispatch { event, seat_name } => {
            match state.focus_of(seat_name) {
                Some(id) => {
                    lemma_first_position(ids, id);
                },
                None => {},
            }
            assert forall|i: int| 0 <= i < after.windows.len() && (
            #[trigger] after.windows[i]).focused implies after.windows[i].is_mapped by {
                assert(state.windows[i].focused ==> state.windows[i].is_mapped);
            }
        },
        Operation::Tile => {
            assert forall|i: int| 0 <= i < after.windows.len() && (
            #[trigger] after.windows[i]).focused implies after.windows[i].is_mapped by {
                assert(state.windows[i].focused ==> state.windows[i].is_mapped);
            }
        },
        Operation::Resize { id, width, height } => {
            lemma_first_position(ids, id);
            assert forall|i: int| 0 <= i < after.windows.len() && (
            #[trigger] after.windows[i]).focused implies after.windows[i].is_mapped by {
                assert(state.windows[i].focused ==> state.windows[i].is_mapped);
            }
        },
        Operation::Move { id, x, y } => {
            lemma_first_position(ids, id);
            assert forall|i: int| 0 <= i < after.windows.len() && (
            #[trigger] after.windows[i]).focused implies after.windows[i].is_mapped by {
                assert(state.windows[i].focused ==> state.windows[i].is_mapped);
            }
        },
        Operation::Drain => {
            assert forall|i: int| 0 <= i < after.windows.len() && (
            #[trigger] after.windows[i]).focused implies after.windows[i].is_mapped by {
                assert(state.windows[i].focused ==> state.windows[i].is_mapped);
            }
        },
        _ => {},
    }
}

/// Whether each of `operations`, carried out in turn from `state`, keeps
/// the flags as above.
pub open spec fn all_keep_flags(state: CompositorView, operations: Seq<Operation>) -> bool
    decreases operations.len(),
{
    if operations.len() == 0 {
        true
    } else {
        all_keep_flags(state, operations.drop_last()) && keeps_flags(
            state.after_all(operations.drop_last()),
            operations.last(),
        )
    }
}

/// In every state that is reached from the start by operations that keep
/// the flags, a window that holds the focus flag is mapped.
pub proof fn lemma_focused_windows_are_mapped_in_reachable_states(operations: Seq<Operation>)
    requires
        all_keep_flags(CompositorView::initial(), operations),
    ensures
        CompositorView::initial().after_all(operations).focused_windows_are_mapped(),
    decreases operations.len(),
{
    if operations.len() > 0 {
        lemma_focused_windows_are_mapped_in_reachable_states(operations.drop_last());
        lemma_operation_keeps_focused_windows_mapped(
            CompositorView::initial().after_all(operations.drop_last()),
            operations.last(),
        );
    }
}

} // verus!
