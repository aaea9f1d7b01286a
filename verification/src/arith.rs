//! Guarded coordinate arithmetic.
//!
//! World coordinates and velocities stay within [`crate::COORD_LIMIT`]; a sum
//! that would leave that range is discarded and the left operand kept. The
//! guard is unreachable in play — it exists so that every position and
//! velocity update is total and provably free of overflow.

use vstd::prelude::*;

use crate::constants::COORD_LIMIT;

verus! {

/// `a + b` when the sum stays within the coordinate range, `a` otherwise.
pub open spec fn clip_add(a: int, b: int) -> int {
    if -COORD_LIMIT <= a + b <= COORD_LIMIT {
        a + b
    } else {
        a
    }
}

/// Executable counterpart of [`clip_add`].
pub fn bounded_add(a: i64, b: i64) -> (r: i64)
    requires
        -COORD_LIMIT <= a <= COORD_LIMIT,
        -COORD_LIMIT <= b <= COORD_LIMIT,
    ensures
        r == clip_add(a as int, b as int),
        -COORD_LIMIT <= r <= COORD_LIMIT,
{
    let s: i64 = a + b;
    if -COORD_LIMIT <= s && s <= COORD_LIMIT {
        s
    } else {
        a
    }
}

} // verus!
