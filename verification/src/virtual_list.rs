//! Row window of the virtualized list: only rows inside the viewport plus an
//! overscan buffer are built; the rest is padding.

use vstd::prelude::*;

verus! {

/// Rows built around the viewport at least, whatever its size.
pub const MIN_OVERSCAN: usize = 5;

pub open spec fn min_nat(a: int, b: int) -> int {
    if a < b { a } else { b }
}

/// The half-open row range `[first, last)` to build for `total` rows, when
/// the first fully visible row is `first_visible`, the viewport shows
/// `visible_rows` rows and `overscan` more are built on either side. Both
/// ends are clamped to `total`, so a stale scroll offset (the list shrank)
/// still gives a valid, possibly empty, range.
pub open spec fn row_window_spec(first_visible: usize, visible_rows: usize, overscan: usize, total: usize) -> (int, int) {
    let start = if first_visible >= overscan { first_visible - overscan } else { 0 };
    (min_nat(start, total as int), min_nat(first_visible + visible_rows + overscan, total as int))
}

pub fn row_window(first_visible: usize, visible_rows: usize, overscan: usize, total: usize) -> (r: (usize, usize))
    requires
        first_visible + visible_rows + overscan <= usize::MAX,
    ensures
        r.0 as int == row_window_spec(first_visible, visible_rows, overscan, total).0,
        r.1 as int == row_window_spec(first_visible, visible_rows, overscan, total).1,
        r.0 <= r.1 <= total,
        r.1 - r.0 <= visible_rows + 2 * overscan,
        // every visible row is built
        first_visible <= total ==> r.0 <= first_visible && min_nat(first_visible + visible_rows, total as int) <= r.1,
{
    let start = first_visible.saturating_sub(overscan);
    let first = if start < total { start } else { total };
    let end = first_visible + visible_rows + overscan;
    let last = if end < total { end } else { total };
    (first, last)
}

/// The overscan for a viewport: the proportional share `scaled`, but never
/// fewer than [`MIN_OVERSCAN`] rows.
pub fn overscan_rows(scaled: usize) -> (r: usize)
    ensures
        r == (if scaled > MIN_OVERSCAN { scaled } else { MIN_OVERSCAN }),
{
    if scaled > MIN_OVERSCAN {
        scaled
    } else {
        MIN_OVERSCAN
    }
}

/// Rows in the padding above and below the built window.
pub fn padding_rows(first: usize, last: usize, total: usize) -> (r: (usize, usize))
    requires
        first <= last <= total,
    ensures
        r.0 == first,
        r.1 == total - last,
        r.0 + (last - first) + r.1 == total,
{
    (first, total - last)
}

} // verus!
