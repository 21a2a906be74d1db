//! The clock of the switch: when an owner counts as gone.

use vstd::prelude::*;

verus! {

/// Seconds in a day.
pub const SECONDS_PER_DAY: i64 = 86400;

/// An owner last seen at `last_active` counts as gone at `now` when strictly
/// more than `period` seconds have passed since. Exactly `period` seconds are
/// not enough.
pub open spec fn owner_gone(now: int, last_active: int, period: int) -> bool {
    now - last_active > period
}

/// Decides `owner_gone` for timestamps and periods in seconds. The difference is
/// taken in a wider type, so that no pair of timestamps is out of its range.
pub fn inactivity_elapsed(now: i64, last_active: i64, period: i64) -> (gone: bool)
    ensures
        gone == owner_gone(now as int, last_active as int, period as int),
{
    let elapsed: i128 = now as i128 - last_active as i128;
    elapsed > period as i128
}

/// Reporting activity at `now` keeps the owner present for every moment up to
/// and including `now + period`.
pub proof fn lemma_present_until_deadline(now: int, period: int, later: int)
    requires
        later <= now + period,
    ensures
        !owner_gone(later, now, period),
{
}

/// The first moment at which an owner counts as gone is one second past the
/// period.
pub proof fn lemma_gone_after_deadline(last_active: int, period: int)
    ensures
        !owner_gone(last_active + period, last_active, period),
        owner_gone(last_active + period + 1, last_active, period),
{
}

} // verus!
