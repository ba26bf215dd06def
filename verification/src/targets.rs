//! The seven targets of cricket and the constants of the game.

use vstd::prelude::*;

verus! {

/// The largest number of players in one game.
pub const MAX_PLAYERS: usize = 10;

/// The bullseye, named by its point value.
pub const BULLSEYE: u32 = 25;

/// Hits on a target after which a player has closed it.
pub const CLOSING_HITS: u32 = 3;

/// The targets in the order in which a status lists them.
pub const TARGETS: [u32; 7] = [15, 16, 17, 18, 19, 20, 25];

/// Whether `target` is one of the seven targets.
pub open spec fn is_target(target: u32) -> bool {
    15 <= target <= 20 || target == BULLSEYE
}

/// The points that one counted hit on `target` is worth.
pub open spec fn point_value(target: u32) -> nat {
    target as nat
}

/// Tells whether `target` is one of the seven targets.
pub fn is_valid_target(target: u32) -> (valid: bool)
    ensures
        valid == is_target(target),
{
    let mut i: usize = 0;
    while i < TARGETS.len()
        invariant
            i <= TARGETS.len(),
            forall|k: int| 0 <= k < i ==> TARGETS[k] != target,
        decreases TARGETS.len() - i,
    {
        if TARGETS[i] == target {
            return true;
        }
        i += 1;
    }
    false
}

} // verus!
