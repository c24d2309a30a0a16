//! General properties of the core, stated and proved once so callers can
//! rely on them by name.

use vstd::assert_sets_equal;
use vstd::prelude::*;

use crate::cursor::clamp_add_spec;
use crate::screen::ordinal_spec;
use crate::screen::screen_of_ordinal_spec;
use crate::screen::Screen;

verus! {

/// For any list length `n > 0`, cursor `p` within `[0, n-1]`, and step in
/// `{-1, 0, 1}`, the clamped cursor stays within `[0, n-1]`.
pub proof fn lemma_clamp_in_range(n: int, p: int, d: int)
    requires
        n > 0,
        0 <= p <= n - 1,
        -1 <= d <= 1,
    ensures
        0 <= clamp_add_spec(n, p, d) <= n - 1,
{
}

/// For any non-negative cursor and any step, clamping yields a valid index
/// into a non-empty list, and `0` for an empty one: the dispatcher, which
/// writes every clamped cursor into the selected-distribution field, can
/// never produce an out-of-bounds selection.
pub proof fn lemma_clamp_valid_index(n: int, p: int, d: int)
    requires
        n >= 0,
        p >= 0,
    ensures
        n == 0 ==> clamp_add_spec(n, p, d) == 0,
        n > 0 ==> 0 <= clamp_add_spec(n, p, d) <= n - 1,
{
}

/// Clamping is idempotent at the boundaries: stepping up from the last row
/// stays on the last row, and stepping down from the first stays on the
/// first.
pub proof fn lemma_clamp_boundary_idempotent(n: int)
    requires
        n > 0,
    ensures
        clamp_add_spec(n, n - 1, 1) == n - 1,
        clamp_add_spec(n, 0, -1) == 0,
{
}

/// Converting an ordinal in `0..=3` to a screen and back is the identity.
pub proof fn lemma_ordinal_screen_round_trip(n: int)
    requires
        0 <= n <= 3,
    ensures
        ordinal_spec(screen_of_ordinal_spec(n)) == n,
{
}

/// Converting a screen to its ordinal and back is the identity.
pub proof fn lemma_screen_ordinal_round_trip(s: Screen)
    ensures
        screen_of_ordinal_spec(ordinal_spec(s)) == s,
{
}

/// Inserting a package name into a selection set twice leaves the same set
/// as inserting it once: selection is idempotent.
pub proof fn lemma_package_insert_idempotent(s: Set<Seq<char>>, name: Seq<char>)
    ensures
        s.insert(name).insert(name) == s.insert(name),
{
    assert_sets_equal!(s.insert(name).insert(name) == s.insert(name));
}

} // verus!
