//! What depends on the windows' ids and mapped flags alone.

use crate::compositor::engine::model::{
    accepts_focus, first_position, lemma_first_position, lemma_first_position_at, mapped_ids_among,
    window_ids,
};
use crate::compositor::engine::window::WindowView;
use vstd::prelude::*;

verus! {

/// Two window sequences with the same ids and the same mapped flags, place
/// by place.
pub open spec fn same_ids_and_mapping(a: Seq<WindowView>, b: Seq<WindowView>) -> bool {
    &&& a.len() == b.len()
    &&& forall|i: int|
        0 <= i < a.len() ==> (#[trigger] a[i]).id == b[i].id && a[i].is_mapped == b[i].is_mapped
}

/// Which windows are mapped, and in which order, depends on the ids and the
/// mapped flags alone.
pub proof fn lemma_mapped_ids_depend_on_mapping(a: Seq<WindowView>, b: Seq<WindowView>, n: int)
    requires
        same_ids_and_mapping(a, b),
        n <= a.len(),
    ensures
        mapped_ids_among(a, n) == mapped_ids_among(b, n),
    decreases n,
{
    if n > 0 {
        lemma_mapped_ids_depend_on_mapping(a, b, n - 1);
        assert(a[n - 1].id == b[n - 1].id);
    }
}

/// Whether a seat may focus a window depends on the ids and the mapped
/// flags alone.
pub proof fn lemma_accepts_focus_depends_on_mapping(
    a: Seq<WindowView>,
    b: Seq<WindowView>,
    id: u32,
)
    requires
        same_ids_and_mapping(a, b),
    ensures
        accepts_focus(a, id) == accepts_focus(b, id),
{
    assert(window_ids(a) =~= window_ids(b));
    lemma_first_position(window_ids(a), id);
}

/// A window that a seat may focus stays one when windows are mapped and
/// when windows with other ids are unmapped.
pub proof fn lemma_accepts_focus_after_mapping(a: Seq<WindowView>, b: Seq<WindowView>, id: u32)
    requires
        accepts_focus(a, id),
        a.len() == b.len(),
        forall|i: int| 0 <= i < a.len() ==> (#[trigger] a[i]).id == b[i].id,
        forall|i: int|
            0 <= i < a.len() && (#[trigger] a[i]).is_mapped && a[i].id == id ==> b[i].is_mapped,
    ensures
        accepts_focus(b, id),
{
    assert(window_ids(a) =~= window_ids(b));
    lemma_first_position(window_ids(a), id);
}

/// A window that a seat may focus stays one when a window is added.
pub proof fn lemma_accepts_focus_after_add(windows: Seq<WindowView>, added: WindowView, id: u32)
    requires
        accepts_focus(windows, id),
    ensures
        accepts_focus(windows.push(added), id),
{
    let ids = window_ids(windows);
    lemma_first_position(ids, id);
    let i = first_position(ids, id).unwrap();
    let grown = window_ids(windows.push(added));
    assert forall|j: int| 0 <= j < i implies grown[j] != id by {
        assert(grown[j] == ids[j]);
    }
    assert(grown[i] == ids[i]);
    lemma_first_position_at(grown, id, i);
}

/// A window that a seat may focus stays one when the first window with
/// another id is removed.
pub proof fn lemma_accepts_focus_after_remove(windows: Seq<WindowView>, removed: u32, id: u32)
    requires
        accepts_focus(windows, id),
        removed != id,
        first_position(window_ids(windows), removed) is Some,
    ensures
        accepts_focus(
            windows.remove(first_position(window_ids(windows), removed).unwrap()),
            id,
        ),
{
    let ids = window_ids(windows);
    lemma_first_position(ids, id);
    lemma_first_position(ids, removed);
    let i = first_position(ids, id).unwrap();
    let r = first_position(ids, removed).unwrap();
    let rest = windows.remove(r);
    let rest_ids = window_ids(rest);
    let at = if r < i {
        i - 1
    } else {
        i
    };
    assert(rest[at] == windows[i]);
    assert forall|j: int| 0 <= j < at implies rest_ids[j] != id by {
        if j < r {
            assert(rest[j] == windows[j]);
            assert(ids[j] != id);
        } else {
            assert(rest[j] == windows[j + 1]);
            assert(ids[j + 1] != id);
        }
    }
    lemma_first_position_at(rest_ids, id, at);
}

} // verus!
