//! Cursor arithmetic: clamping a cursor position against a list length and a
//! signed step.

use vstd::prelude::*;

verus! {

/// The clamping policy: compute `p + d`; saturate to `n - 1` from above and to
/// `0` from below. An empty list (`n == 0`) has no valid cursor, so the result
/// is pinned to `0` rather than running the general formula.
pub open spec fn clamp_add_spec(n: int, p: int, d: int) -> int {
    if n == 0 {
        0
    } else if p + d >= n - 1 {
        n - 1
    } else if p + d <= 0 {
        0
    } else {
        p + d
    }
}

/// Clamp `curr_cp + offset` to the inclusive range `[0, distros_len - 1]`,
/// returning `0` when the list is empty.
pub fn clamp_add(distros_len: usize, curr_cp: usize, offset: isize) -> (r: usize)
    ensures
        r as int == clamp_add_spec(distros_len as int, curr_cp as int, offset as int),
{
    if distros_len == 0 {
        return 0;
    }
    let last: i128 = distros_len as i128 - 1;
    let moved: i128 = curr_cp as i128 + offset as i128;
    if moved >= last {
        distros_len - 1
    } else if moved <= 0 {
        0
    } else {
        moved as usize
    }
}

} // verus!
