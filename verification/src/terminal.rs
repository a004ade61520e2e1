//! The decisions the terminal wrapper makes before it calls into the facade.
use vstd::prelude::*;

verus! {

/// A grid extent the facade accepts: the facade needs at least one column
/// and one row, so a zero is raised to one and anything else kept.
pub fn grid_extent(requested: u16) -> (extent: u16)
    ensures
        extent == if requested == 0 { 1 } else { requested },
        extent >= 1,
{
    if requested == 0 {
        1
    } else {
        requested
    }
}

/// A `usize` position as the facade's `i32`, saturating at `i32::MAX`.
pub open spec fn saturate_i32(n: usize) -> i32 {
    if n <= i32::MAX {
        n as i32
    } else {
        i32::MAX
    }
}

fn position(n: usize) -> (p: i32)
    ensures
        p == saturate_i32(n),
{
    if n <= i32::MAX as usize {
        n as i32
    } else {
        i32::MAX
    }
}

/// The cursor range of a composition as the facade takes it: a byte range
/// into the preview text with each end saturated to `i32`, or `(-1, -1)` for
/// no cursor range. The facade clamps a range past the text itself.
pub fn preedit_cursor(cursor: Option<std::ops::Range<usize>>) -> (ends: (i32, i32))
    ensures
        ends == match cursor {
            Some(r) => (saturate_i32(r.start), saturate_i32(r.end)),
            None => (-1i32, -1i32),
        },
{
    match cursor {
        Some(r) => (position(r.start), position(r.end)),
        None => (-1, -1),
    }
}

} // verus!
