//! Which windows are found, through any sequence of operations.

use crate::compositor::engine::model::{
    first_position, lemma_first_position, window_ids, CompositorView, Operation,
};
use vstd::multiset::Multiset;
use vstd::prelude::*;

verus! {

/// The ids that are present after `operation`, each as often as a window
/// has it, counted from what was added and removed alone.
pub open spec fn present_after(present: Multiset<u32>, operation: Operation) -> Multiset<u32> {
    match operation {
        Operation::AddWindow(window) => present.insert(window.id),
        Operation::RemoveWindow(id) => present.remove(id),
        _ => present,
    }
}

/// The ids that are present after each of `operations` in turn.
pub open spec fn present_after_all(
    present: Multiset<u32>,
    operations: Seq<Operation>,
) -> Multiset<u32>
    decreases operations.len(),
{
    if operations.len() == 0 {
        present
    } else {
        present_after(present_after_all(present, operations.drop_last()), operations.last())
    }
}

/// The ids of the windows, each as often as a window has it.
pub open spec fn present_ids(state: CompositorView) -> Multiset<u32> {
    window_ids(state.windows).to_multiset()
}

/// A window is found under `id` exactly if `id` is among the windows' ids.
pub proof fn lemma_found_if_present(state: CompositorView, id: u32)
    ensures
        state.find_window(id) is Some <==> present_ids(state).count(id) > 0,
        state.find_window(id) matches Some(w) ==> w.id == id,
{
    let ids = window_ids(state.windows);
    lemma_first_position(ids, id);
    vstd::seq_lib::to_multiset_contains(ids, id);
    match first_position(ids, id) {
        Some(i) => {
            assert(ids[i] == id);
            assert(ids.contains(id));
        },
        None => {
            assert(!ids.contains(id));
        },
    }
}

/// Taking away a value that a multiset does not hold leaves it as it is.
proof fn lemma_remove_absent(m: Multiset<u32>, v: u32)
    requires
        m.count(v) == 0,
    ensures
        m.remove(v) == m,
{
    broadcast use vstd::multiset::group_multiset_axioms;

    assert(m.remove(v) =~= m);
}

/// One operation changes the present ids as adding and removing say.
pub proof fn lemma_present_after(state: CompositorView, operation: Operation)
    ensures
        present_ids(state.after(operation)) == present_after(present_ids(state), operation),
{
    let ids = window_ids(state.windows);
    let after = window_ids(state.after(operation).windows);
    match operation {
        Operation::AddWindow(window) => {
            assert(after =~= ids.push(window.id));
            vstd::seq_lib::to_multiset_build(ids, window.id);
        },
        Operation::RemoveWindow(id) => {
            lemma_first_position(ids, id);
            match first_position(ids, id) {
                Some(i) => {
                    assert(after =~= ids.remove(i));
                    vstd::seq_lib::to_multiset_remove(ids, i);
                },
                None => {
                    vstd::seq_lib::to_multiset_contains(ids, id);
                    assert(!ids.contains(id));
                    lemma_remove_absent(ids.to_multiset(), id);
                },
            }
        },
        Operation::MapWindow(id) => {
            lemma_first_position(ids, id);
            assert(after =~= ids);
        },
        Operation::UnmapWindow(id) => {
            lemma_first_position(ids, id);
            assert(after =~= ids);
        },
        Operation::SetFocus { seat_name, target } => {
            assert(after =~= ids);
        },
        Operation::FocusNext { seat_name } => {
            assert(after =~= ids);
        },
        Operation::Dispatch { event, seat_name } => {
            match state.focus_of(seat_name) {
                Some(id) => {
                    lemma_first_position(ids, id);
                },
                None => {},
            }
            assert(after =~= ids);
        },
        Operation::Tile => {
            assert(after =~= ids);
        },
        Operation::Resize { id, width, height } => {
            lemma_first_position(ids, id);
            assert(after =~= ids);
        },
        Operation::Move { id, x, y } => {
            lemma_first_position(ids, id);
            assert(after =~= ids);
        },
        Operation::Drain => {
            assert(after =~= ids);
        },
        _ => {},
    }
}

/// A sequence of operations changes the present ids as its adding and
/// removing say.
pub proof fn lemma_present_after_all(state: CompositorView, operations: Seq<Operation>)
    ensures
        present_ids(state.after_all(operations)) == present_after_all(
            present_ids(state),
            operations,
        ),
    decreases operations.len(),
{
    if operations.len() > 0 {
        lemma_present_after_all(state, operations.drop_last());
        lemma_present_after(state.after_all(operations.drop_last()), operations.last());
    }
}

/// Through any sequence of operations, a window is found under `id` exactly
/// if `id` is present: it was there or was added, and for each time a window
/// with it was removed there was one more.
pub proof fn lemma_find_window_tracks_adds_and_removes(
    state: CompositorView,
    operations: Seq<Operation>,
    id: u32,
)
    ensures
        state.after_all(operations).find_window(id) is Some <==> present_after_all(
            present_ids(state),
            operations,
        ).count(id) > 0,
{
    lemma_present_after_all(state, operations);
    lemma_found_if_present(state.after_all(operations), id);
}

} // verus!
