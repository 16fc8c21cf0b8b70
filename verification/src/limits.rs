//! The largest values that scores and counts can hold.
//!
//! Nothing in the game overflows and nothing fails for being too large: a
//! score or a count that would pass its largest value stops there.

use vstd::prelude::*;

verus! {

/// The largest score a profile can hold.
pub open spec fn max_points() -> nat {
    u64::MAX as nat
}

/// The largest number of players a room can count.
pub open spec fn max_player_count() -> nat {
    u8::MAX as nat
}

/// The largest value that the totals of a room can hold.
pub open spec fn max_total() -> nat {
    u64::MAX as nat
}

/// `n`, or `max` where `n` is beyond it.
pub open spec fn capped(n: nat, max: nat) -> nat {
    if n > max {
        max
    } else {
        n
    }
}

} // verus!
