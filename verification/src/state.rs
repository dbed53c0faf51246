//! The alert state machine.

use crate::charge::AggregateCharge;
use crate::thresholds::{ThresholdSet, ValidatedThresholds};
use vstd::prelude::*;

verus! {

/// What the monitor currently tells the user about the batteries.
#[derive(Clone, Copy, Debug, PartialEq, Eq, Structural)]
pub enum AlertState {
    Charging,
    Discharging,
    Warning,
    Critical,
    Danger,
    Full,
}

/// The level under which a discharging battery is merely discharging.
pub const DISCHARGING_LEVEL: i32 = 100;

/// The candidate `(state, level)` if its level is set, is at or above the
/// percentage and is no higher than that of `rest`; else `rest`.
///
/// Applied from the least severe candidate to the most severe, it leaves the
/// candidate with the lowest level at or above the percentage, and of two
/// with the same level the more severe.
pub open spec fn tighter(
    state: AlertState,
    level: Option<i32>,
    percentage: int,
    rest: Option<(AlertState, i32)>,
) -> Option<(AlertState, i32)> {
    match level {
        Some(l) => if l >= percentage && (rest matches Some(r) ==> l <= r.1) {
            Some((state, l))
        } else {
            rest
        },
        None => rest,
    }
}

/// The candidate that bounds the percentage most tightly from above, among
/// discharging at 100 and the set warning, critical and danger levels.
pub open spec fn tightest_bound(percentage: int, levels: ThresholdSet) -> Option<
    (AlertState, i32),
> {
    tighter(
        AlertState::Danger,
        levels.danger,
        percentage,
        tighter(
            AlertState::Critical,
            levels.critical,
            percentage,
            tighter(
                AlertState::Warning,
                levels.warning,
                percentage,
                tighter(AlertState::Discharging, Some(DISCHARGING_LEVEL), percentage, None),
            ),
        ),
    )
}

/// The state that a charge calls for under the given levels.
///
/// Not discharging: full at or above a set full level, else charging.
/// Discharging: the state of the tightest upper bound, and danger where the
/// percentage is above every candidate.
pub open spec fn next_state(percentage: int, discharging: bool, levels: ThresholdSet) -> AlertState {
    if !discharging {
        match levels.full {
            Some(full) if percentage >= full => AlertState::Full,
            _ => AlertState::Charging,
        }
    } else {
        match tightest_bound(percentage, levels) {
            Some((state, _)) => state,
            None => AlertState::Danger,
        }
    }
}

/// How severe a discharging state is; the other states rank lowest.
pub open spec fn severity(state: AlertState) -> int {
    match state {
        AlertState::Danger => 3,
        AlertState::Critical => 2,
        AlertState::Warning => 1,
        _ => 0,
    }
}

/// `(state, level)` is one of the candidates for a discharging battery:
/// discharging at 100, or warning, critical or danger at its set level.
pub open spec fn is_candidate(state: AlertState, level: i32, levels: ThresholdSet) -> bool {
    match state {
        AlertState::Discharging => level == DISCHARGING_LEVEL,
        AlertState::Warning => levels.warning == Some(level),
        AlertState::Critical => levels.critical == Some(level),
        AlertState::Danger => levels.danger == Some(level),
        _ => false,
    }
}

/// The tightest bound is a candidate at or above the percentage; no
/// candidate at or above the percentage lies lower, and none at the same
/// level is more severe. There is none exactly when no candidate is at or
/// above the percentage.
pub proof fn lemma_tightest_bound(percentage: int, levels: ThresholdSet)
    ensures
        match tightest_bound(percentage, levels) {
            Some((state, level)) => {
                &&& is_candidate(state, level, levels)
                &&& level >= percentage
                &&& forall|other: AlertState, bound: i32|
                    is_candidate(other, bound, levels) && bound >= percentage ==> level < bound
                        || (level == bound && severity(other) <= severity(state))
            },
            None => forall|other: AlertState, bound: i32|
                is_candidate(other, bound, levels) ==> bound < percentage,
        },
{
}

/// A percentage of at most 100 always has a bound, if only discharging at
/// 100: the fallback to danger is for percentages above 100 and every set
/// level alone.
pub proof fn lemma_fallback_is_above_every_level(percentage: int, levels: ThresholdSet)
    ensures
        percentage <= DISCHARGING_LEVEL ==> tightest_bound(percentage, levels) is Some,
        tightest_bound(percentage, levels) is None ==> {
            &&& percentage > DISCHARGING_LEVEL
            &&& levels.warning matches Some(w) ==> w < percentage
            &&& levels.critical matches Some(c) ==> c < percentage
            &&& levels.danger matches Some(d) ==> d < percentage
        },
{
}

/// A battery that is not discharging and stands exactly at the full level
/// is full.
pub proof fn lemma_full_at_its_level(percentage: int, levels: ThresholdSet)
    requires
        levels.full matches Some(full) && full == percentage,
    ensures
        next_state(percentage, false, levels) == AlertState::Full,
{
}

/// A discharging battery that stands exactly at a set level is in that
/// level's state, not in the next less severe one, unless a more severe
/// level is set to the same percentage.
pub proof fn lemma_state_at_its_level(percentage: int, levels: ThresholdSet)
    ensures
        levels.danger matches Some(d) && d == percentage ==> next_state(percentage, true, levels)
            == AlertState::Danger,
        levels.critical matches Some(c) && c == percentage && levels.danger != Some(c)
            ==> next_state(percentage, true, levels) == AlertState::Critical,
        levels.warning matches Some(w) && w == percentage && levels.danger != Some(w)
            && levels.critical != Some(w) ==> next_state(percentage, true, levels)
            == AlertState::Warning,
{
}

/// Whether a level is at or above a percentage.
fn covers(level: i32, percentage: u128) -> (r: bool)
    ensures
        r == (level >= percentage),
{
    level >= 0 && level as u128 >= percentage
}

/// Whether a percentage is at or above a level.
fn reaches(percentage: u128, level: i32) -> (r: bool)
    ensures
        r == (percentage >= level),
{
    level < 0 || percentage >= level as u128
}

/// One step of the search for the tightest bound.
fn pick(
    state: AlertState,
    level: Option<i32>,
    percentage: u128,
    rest: Option<(AlertState, i32)>,
) -> (r: Option<(AlertState, i32)>)
    ensures
        r == tighter(state, level, percentage as int, rest),
{
    match level {
        Some(l) => {
            let lower = match rest {
                Some(r) => l <= r.1,
                None => true,
            };
            if covers(l, percentage) && lower {
                Some((state, l))
            } else {
                rest
            }
        },
        None => rest,
    }
}

/// Maps the current charge to the alert state it calls for.
///
/// The decision is made afresh from the charge and the thresholds on every
/// call: `current` does not enter into it, so any state can follow any
/// other.
pub fn transition(
    current: AlertState,
    charge: AggregateCharge,
    thresholds: &ValidatedThresholds,
) -> (r: AlertState)
    ensures
        r == next_state(charge.percentage as int, charge.discharging, thresholds@),
{
    let _ = current;
    let levels = thresholds.levels();
    let p = charge.percentage;
    if !charge.discharging {
        match levels.full {
            Some(full) => if reaches(p, full) {
                AlertState::Full
            } else {
                AlertState::Charging
            },
            None => AlertState::Charging,
        }
    } else {
        let bound = pick(
            AlertState::Danger,
            levels.danger,
            p,
            pick(
                AlertState::Critical,
                levels.critical,
                p,
                pick(
                    AlertState::Warning,
                    levels.warning,
                    p,
                    pick(AlertState::Discharging, Some(DISCHARGING_LEVEL), p, None),
                ),
            ),
        );
        match bound {
            Some((state, _)) => state,
            None => AlertState::Danger,
        }
    }
}

} // verus!
