//! Mapping from a rate of reverts to an alert level.

use crate::rate::Rate;
use vstd::prelude::*;

verus! {

/// The alert level for `reverts` reverts in `minutes` minutes, from 5 (calm)
/// down to 1 (severe). The breakpoints are 2, 4, 6 and 8 reverts per minute,
/// and a rate on a breakpoint belongs to the calmer side.
pub open spec fn level_of(reverts: nat, minutes: nat) -> nat {
    if reverts <= 2 * minutes {
        5
    } else if reverts <= 4 * minutes {
        4
    } else if reverts <= 6 * minutes {
        3
    } else if reverts <= 8 * minutes {
        2
    } else {
        1
    }
}

/// Maps a rate of reverts per minute to its alert level.
pub fn rpm_to_level(rpm: Rate) -> (level: u8)
    ensures
        level == level_of(rpm.reverts() as nat, rpm.minutes() as nat),
        1 <= level <= 5,
{
    let reverts: u128 = rpm.reverts() as u128;
    let minutes: u128 = rpm.minutes() as u128;
    if reverts <= 2 * minutes {
        5
    } else if reverts <= 4 * minutes {
        4
    } else if reverts <= 6 * minutes {
        3
    } else if reverts <= 8 * minutes {
        2
    } else {
        1
    }
}

/// Every level lies between 1 and 5.
pub proof fn lemma_level_in_range(reverts: nat, minutes: nat)
    ensures
        1 <= level_of(reverts, minutes) <= 5,
{
}

/// The breakpoints are exact: a rate of just 2, 4, 6 or 8 reverts per minute
/// still has the calmer level, and a rate above it, by however little, has
/// the next one down.
pub proof fn lemma_breakpoints_exact(minutes: nat, excess: nat)
    requires
        minutes > 0,
        0 < excess <= 2 * minutes,
    ensures
        level_of(0, minutes) == 5,
        level_of(2 * minutes, minutes) == 5,
        level_of(2 * minutes + excess, minutes) == 4,
        level_of(4 * minutes, minutes) == 4,
        level_of(4 * minutes + excess, minutes) == 3,
        level_of(6 * minutes, minutes) == 3,
        level_of(6 * minutes + excess, minutes) == 2,
        level_of(8 * minutes, minutes) == 2,
        level_of(8 * minutes + excess, minutes) == 1,
{
}

/// More reverts over the same window never give a calmer level.
pub proof fn lemma_level_falls_with_reverts(fewer: nat, more: nat, minutes: nat)
    requires
        fewer <= more,
    ensures
        level_of(more, minutes) <= level_of(fewer, minutes),
{
}

/// The level depends on the rate alone: the same rate told over a window
/// `factor` times as long gives the same level.
pub proof fn lemma_level_of_same_rate(reverts: nat, minutes: nat, factor: nat)
    requires
        factor > 0,
    ensures
        level_of(factor * reverts, factor * minutes) == level_of(reverts, minutes),
{
    lemma_scaled_bound(reverts, minutes, factor, 2);
    lemma_scaled_bound(reverts, minutes, factor, 4);
    lemma_scaled_bound(reverts, minutes, factor, 6);
    lemma_scaled_bound(reverts, minutes, factor, 8);
}

proof fn lemma_scaled_bound(reverts: nat, minutes: nat, factor: nat, k: nat)
    requires
        factor > 0,
    ensures
        (factor * reverts <= k * (factor * minutes)) == (reverts <= k * minutes),
{
    assert((factor * reverts <= k * (factor * minutes)) == (reverts <= k * minutes))
        by (nonlinear_arith)
        requires
            factor > 0,
    ;
}

} // verus!
