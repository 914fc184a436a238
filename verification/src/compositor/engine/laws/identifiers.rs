//! Ids are never handed out twice.

use crate::compositor::engine::model::{CompositorView, Operation};
use vstd::prelude::*;

verus! {

/// How many window ids and how many output ids `operations` take.
pub open spec fn ids_taken(operations: Seq<Operation>) -> (nat, nat)
    decreases operations.len(),
{
    if operations.len() == 0 {
        (0, 0)
    } else {
        let (windows, outputs) = ids_taken(operations.drop_last());
        match operations.last() {
            Operation::TakeWindowId => (windows + 1, outputs),
            Operation::TakeOutputId => (windows, outputs + 1),
            _ => (windows, outputs),
        }
    }
}

/// Ids are never handed out twice: whatever else happens, each counter
/// stands at its start plus the number of ids taken from it, so every id
/// taken is greater than all taken before.
pub proof fn lemma_ids_are_never_reused(state: CompositorView, operations: Seq<Operation>)
    requires
        state.next_window_id + ids_taken(operations).0 <= u32::MAX,
        state.next_output_id + ids_taken(operations).1 <= u32::MAX,
    ensures
        state.after_all(operations).next_window_id == state.next_window_id + ids_taken(
            operations,
        ).0,
        state.after_all(operations).next_output_id == state.next_output_id + ids_taken(
            operations,
        ).1,
    decreases operations.len(),
{
    if operations.len() > 0 {
        lemma_ids_are_never_reused(state, operations.drop_last());
    }
}

} // verus!
