//! The data table's verified core: materializing exactly the visible slice
//! of the listing into renderable rows, and keeping a freshly selected row
//! visible. Both are O(visible rows), never a walk over the whole listing.

use vstd::prelude::*;

use crate::nav::{Node, State};
use crate::viewport::{clamped, max_scroll_of, ListViewport, ScrollStrategy};

verus! {

/// The rows the renderer has to draw for the half-open range
/// `[first, last)`: each with its index, a copy of its node, and whether it
/// is the selected row.
pub fn visible_rows(state: &State, first: usize, last: usize) -> (r: Vec<(usize, Node, bool)>)
    requires
        first <= last,
        last <= state@.items.len(),
    ensures
        r@.len() == last - first,
        forall|k: int|
            0 <= k < r@.len() ==> {
                &&& (#[trigger] r@[k]).0 == first + k
                &&& r@[k].1@ == state@.items[first + k]
                &&& r@[k].2 == (state@.selection == Some((first + k) as usize))
            },
{
    let nodes = state.nodes();
    let selected = state.selected();
    let mut rows: Vec<(usize, Node, bool)> = Vec::new();
    let mut i: usize = first;
    while i < last
        invariant
            first <= i <= last,
            last <= nodes@.len(),
            nodes@.len() == state@.items.len(),
            forall|j: int| 0 <= j < nodes@.len() ==> (#[trigger] nodes@[j])@ == state@.items[j],
            selected == state@.selection,
            rows@.len() == i - first,
            forall|k: int|
                0 <= k < rows@.len() ==> {
                    &&& (#[trigger] rows@[k]).0 == first + k
                    &&& rows@[k].1@ == state@.items[first + k]
                    &&& rows@[k].2 == (state@.selection == Some((first + k) as usize))
                },
        decreases last - i,
    {
        let node = nodes[i].clone();
        let is_selected = match selected {
            Some(s) => s == i,
            None => false,
        };
        rows.push((i, node, is_selected));
        i = i + 1;
    }
    rows
}

/// After keyboard navigation the selection subscription mirrors the
/// listing's length into the viewport and scrolls the selected row to the
/// top of the band; without a selection only the length is mirrored.
pub fn follow_selection(state: &State, viewport: &mut ListViewport)
    requires
        old(viewport).wf(),
        state.wf(),
        state@.items.len() * old(viewport)@.row_height <= u64::MAX,
    ensures
        final(viewport).wf(),
        final(viewport)@.row_height == old(viewport)@.row_height,
        final(viewport)@.viewport_height == old(viewport)@.viewport_height,
        final(viewport)@.total_items == state@.items.len(),
        match state@.selection {
            Some(i) => final(viewport)@.scroll_offset == clamped(
                i * old(viewport)@.row_height,
                max_scroll_of(final(viewport)@),
            ),
            None => final(viewport)@.scroll_offset == clamped(
                old(viewport)@.scroll_offset,
                max_scroll_of(final(viewport)@),
            ),
        },
{
    let count = state.nodes().len();
    viewport.set_total_item_count(count);
    match state.selected() {
        Some(i) => {
            viewport.scroll_to_index(i, ScrollStrategy::Top);
        },
        None => {},
    }
}

} // verus!
