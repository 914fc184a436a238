//! Laws of the tiling layout.

use super::mapping::{lemma_mapped_ids_depend_on_mapping, same_ids_and_mapping};
use crate::compositor::engine::model::{tiled_windows, tiling_area, CompositorView};
use vstd::prelude::*;

verus! {

/// Tiling twice in a row gives what tiling once gives.
pub proof fn lemma_tiling_is_idempotent(state: CompositorView)
    ensures
        state.tiled().tiled() == state.tiled(),
{
    let area = tiling_area(state.outputs);
    let once = tiled_windows(state.windows, area);
    let twice = tiled_windows(once, area);
    assert(same_ids_and_mapping(state.windows, once));
    lemma_mapped_ids_depend_on_mapping(state.windows, once, state.windows.len() as int);
    assert forall|i: int| 0 <= i < once.len() implies twice[i] == once[i] by {
        lemma_mapped_ids_depend_on_mapping(state.windows, once, i);
    }
    assert(twice =~= once);
}

} // verus!
