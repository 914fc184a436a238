//! Focus cycling wraps around.

use super::focus::lemma_set_focus_heals;
use super::mapping::{lemma_mapped_ids_depend_on_mapping, same_ids_and_mapping};
use crate::compositor::engine::model::{
    accepts_focus, first_position, lemma_first_position, mapped_ids, mapped_ids_among, seat_names,
    window_ids, CompositorView,
};
use crate::compositor::engine::window::WindowView;
use vstd::prelude::*;

verus! {

/// Every id among the mapped ids is the id of a mapped window.
pub proof fn lemma_mapped_id_has_window(windows: Seq<WindowView>, n: int, j: int) -> (p: int)
    requires
        n <= windows.len(),
        0 <= j < mapped_ids_among(windows, n).len(),
    ensures
        0 <= p < n,
        windows[p].is_mapped,
        windows[p].id == mapped_ids_among(windows, n)[j],
    decreases n,
{
    if windows[n - 1].is_mapped && j == mapped_ids_among(windows, n - 1).len() {
        n - 1
    } else {
        lemma_mapped_id_has_window(windows, n - 1, j)
    }
}

/// Where no two windows share an id, no two mapped windows do.
pub proof fn lemma_mapped_ids_distinct(windows: Seq<WindowView>, n: int)
    requires
        window_ids(windows).no_duplicates(),
        n <= windows.len(),
    ensures
        mapped_ids_among(windows, n).no_duplicates(),
    decreases n,
{
    if n > 0 {
        lemma_mapped_ids_distinct(windows, n - 1);
        let before = mapped_ids_among(windows, n - 1);
        if windows[n - 1].is_mapped {
            assert forall|j: int| 0 <= j < before.len() implies before[j] != windows[n - 1].id by {
                let p = lemma_mapped_id_has_window(windows, n - 1, j);
                assert(window_ids(windows)[p] != window_ids(windows)[n - 1]);
            }
        }
    }
}

/// Where no two windows share an id, a seat may focus every mapped id.
pub proof fn lemma_mapped_id_is_accepted(windows: Seq<WindowView>, j: int)
    requires
        window_ids(windows).no_duplicates(),
        0 <= j < mapped_ids(windows).len(),
    ensures
        accepts_focus(windows, mapped_ids(windows)[j]),
{
    let ids = window_ids(windows);
    let id = mapped_ids(windows)[j];
    let p = lemma_mapped_id_has_window(windows, windows.len() as int, j);
    assert(ids[p] == id);
    lemma_first_position(ids, id);
}

/// From a focus on the mapped window of rank `k`, focus cycling moves the
/// seat to the mapped window of the next rank, and to the first one from
/// the last.
pub proof fn lemma_focus_cycle_step(state: CompositorView, seat_name: Seq<char>, k: int)
    requires
        window_ids(state.windows).no_duplicates(),
        state.seat_position(seat_name) is Some,
        0 <= k < mapped_ids(state.windows).len(),
        state.focus_of(seat_name) == Some(mapped_ids(state.windows)[k]),
    ensures
        state.with_next_focus(seat_name).focus_of(seat_name) == Some(
            mapped_ids(state.windows)[(k + 1) % (mapped_ids(state.windows).len() as int)],
        ),
        same_ids_and_mapping(state.windows, state.with_next_focus(seat_name).windows),
        state.with_next_focus(seat_name).seat_position(seat_name) is Some,
{
    let ids = mapped_ids(state.windows);
    let n = ids.len() as int;
    lemma_mapped_ids_distinct(state.windows, state.windows.len() as int);
    lemma_first_position(ids, ids[k]);
    assert(first_position(ids, ids[k]) == Some(k));
    let next = (k + 1) % n;
    lemma_mapped_id_is_accepted(state.windows, next);
    lemma_set_focus_heals(state, seat_name, Some(ids[next]));
    let after = state.with_next_focus(seat_name);
    lemma_first_position(seat_names(state.seats), seat_name);
    assert(seat_names(after.seats) =~= seat_names(state.seats));
}

/// From any focus, focus cycling moves the seat to some mapped window,
/// where there is one and no two windows share an id.
pub proof fn lemma_focus_cycle_lands(state: CompositorView, seat_name: Seq<char>) -> (k: int)
    requires
        window_ids(state.windows).no_duplicates(),
        state.seat_position(seat_name) is Some,
        mapped_ids(state.windows).len() > 0,
    ensures
        0 <= k < mapped_ids(state.windows).len(),
        state.with_next_focus(seat_name).focus_of(seat_name) == Some(
            mapped_ids(state.windows)[k],
        ),
        same_ids_and_mapping(state.windows, state.with_next_focus(seat_name).windows),
        state.with_next_focus(seat_name).seat_position(seat_name) is Some,
{
    let ids = mapped_ids(state.windows);
    let n = ids.len() as int;
    let s = state.seat_position(seat_name).unwrap();
    lemma_first_position(seat_names(state.seats), seat_name);
    let k = match state.seats[s].focused_window {
        Some(id) => match first_position(ids, id) {
            Some(at) => {
                lemma_first_position(ids, id);
                (at + 1) % n
            },
            None => 0,
        },
        None => 0,
    };
    lemma_mapped_id_is_accepted(state.windows, k);
    lemma_set_focus_heals(state, seat_name, Some(ids[k]));
    let after = state.with_next_focus(seat_name);
    assert(seat_names(after.seats) =~= seat_names(state.seats));
    k
}

/// From a focus on the mapped window of rank `k`, cycling `times` times
/// moves the seat to the mapped window of rank `k + times`, counted round
/// the mapped windows.
pub proof fn lemma_focus_cycles_advance(
    state: CompositorView,
    seat_name: Seq<char>,
    k: int,
    times: nat,
)
    requires
        window_ids(state.windows).no_duplicates(),
        state.seat_position(seat_name) is Some,
        0 <= k < mapped_ids(state.windows).len(),
        state.focus_of(seat_name) == Some(mapped_ids(state.windows)[k]),
    ensures
        state.after_focus_cycles(seat_name, times).focus_of(seat_name) == Some(
            mapped_ids(state.windows)[(k + times) % (mapped_ids(state.windows).len() as int)],
        ),
        same_ids_and_mapping(state.windows, state.after_focus_cycles(seat_name, times).windows),
        state.after_focus_cycles(seat_name, times).seat_position(seat_name) is Some,
    decreases times,
{
    let ids = mapped_ids(state.windows);
    let n = ids.len() as int;
    if times == 0 {
        vstd::arithmetic::div_mod::lemma_small_mod(k as nat, n as nat);
    } else {
        let before = state.after_focus_cycles(seat_name, (times - 1) as nat);
        lemma_focus_cycles_advance(state, seat_name, k, (times - 1) as nat);
        lemma_mapped_ids_depend_on_mapping(
            state.windows,
            before.windows,
            state.windows.len() as int,
        );
        assert(window_ids(before.windows) =~= window_ids(state.windows));
        let at = (k + times - 1) % n;
        vstd::arithmetic::div_mod::lemma_mod_bound(k + times - 1, n);
        lemma_focus_cycle_step(before, seat_name, at);
        vstd::arithmetic::div_mod::lemma_add_mod_noop(k + times - 1, 1, n);
        if n == 1 {
            assert((at + 1) % n == (k + times) % n);
        } else {
            vstd::arithmetic::div_mod::lemma_small_mod(1, n as nat);
            assert((at + 1) % n == (k + times) % n);
        }
    }
}

/// Cycling once and then `times` times is cycling `times + 1` times.
pub proof fn lemma_focus_cycles_split(state: CompositorView, seat_name: Seq<char>, times: nat)
    ensures
        state.after_focus_cycles(seat_name, times + 1) == state.with_next_focus(
            seat_name,
        ).after_focus_cycles(seat_name, times),
    decreases times,
{
    if times == 0 {
        assert(state.after_focus_cycles(seat_name, 0) == state);
        assert(state.after_focus_cycles(seat_name, 1) == state.with_next_focus(seat_name));
    } else {
        lemma_focus_cycles_split(state, seat_name, (times - 1) as nat);
        assert(state.after_focus_cycles(seat_name, times + 1) == state.after_focus_cycles(
            seat_name,
            times,
        ).with_next_focus(seat_name));
    }
}

/// Without the seat, focus cycling changes nothing.
pub proof fn lemma_focus_cycles_without_seat(
    state: CompositorView,
    seat_name: Seq<char>,
    times: nat,
)
    requires
        state.seat_position(seat_name) is None,
    ensures
        state.after_focus_cycles(seat_name, times) == state,
    decreases times,
{
    if times > 0 {
        lemma_focus_cycles_without_seat(state, seat_name, (times - 1) as nat);
    }
}

/// Focus cycling wraps around: where no two windows share an id and `n`
/// windows are mapped, the seat's focus after `n + 1` cycles in a row is
/// its focus after the first of them.
pub proof fn lemma_focus_cycling_wraps_around(state: CompositorView, seat_name: Seq<char>)
    requires
        window_ids(state.windows).no_duplicates(),
    ensures
        state.after_focus_cycles(seat_name, mapped_ids(state.windows).len() + 1).focus_of(
            seat_name,
        ) == state.after_focus_cycles(seat_name, 1).focus_of(seat_name),
{
    let ids = mapped_ids(state.windows);
    let n = ids.len();
    if state.seat_position(seat_name) is None {
        lemma_focus_cycles_without_seat(state, seat_name, n + 1);
        lemma_focus_cycles_without_seat(state, seat_name, 1);
    } else if n > 0 {
        let first = state.with_next_focus(seat_name);
        let k = lemma_focus_cycle_lands(state, seat_name);
        lemma_focus_cycles_split(state, seat_name, n);
        lemma_focus_cycles_split(state, seat_name, 0);
        assert(first.after_focus_cycles(seat_name, 0) == first);
        lemma_mapped_ids_depend_on_mapping(
            state.windows,
            first.windows,
            state.windows.len() as int,
        );
        assert(window_ids(first.windows) =~= window_ids(state.windows));
        lemma_focus_cycles_advance(first, seat_name, k, n);
        vstd::arithmetic::div_mod::lemma_mod_add_multiples_vanish(k, n as int);
        vstd::arithmetic::div_mod::lemma_small_mod(k as nat, n);
    }
}

} // verus!
