//! Which lines of a panel's output are visible.

use vstd::prelude::*;

verus! {

/// The first line shown when `visible` of `total` lines fit and the view is
/// scrolled `scroll_pos` lines up from the bottom (never above the first line).
pub open spec fn spec_first_visible_line(total: usize, visible: usize, scroll_pos: usize) -> int {
    if total > visible && total - visible > scroll_pos {
        total - visible - scroll_pos
    } else {
        0
    }
}

pub fn first_visible_line(total: usize, visible: usize, scroll_pos: usize) -> (first: usize)
    ensures
        first == spec_first_visible_line(total, visible, scroll_pos),
        first <= total,
{
    if total > visible {
        let bottom = total - visible;
        if bottom > scroll_pos {
            bottom - scroll_pos
        } else {
            0
        }
    } else {
        0
    }
}

} // verus!
