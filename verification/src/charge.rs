//! The charge of all batteries taken together.

use crate::battery::{Battery, BatteryReading, BatteryStatus};
use vstd::prelude::*;

verus! {

/// The overall charge: a whole percentage and whether any battery is
/// discharging.
#[derive(Clone, Copy, Debug, PartialEq, Eq, Structural)]
pub struct AggregateCharge {
    pub percentage: u128,
    pub discharging: bool,
}

/// Why the readings have no overall charge.
#[derive(Clone, Copy, Debug, PartialEq, Eq, Structural)]
pub enum AggregateError {
    /// The batteries' capacities add up to zero.
    DivisionByZero,
}

/// Energy held by all the batteries together.
pub open spec fn total_now(readings: Seq<BatteryReading>) -> nat
    decreases readings.len(),
{
    if readings.len() == 0 {
        0
    } else {
        total_now(readings.drop_last()) + readings.last().energy_now
    }
}

/// Energy that all the batteries together can hold.
pub open spec fn total_full(readings: Seq<BatteryReading>) -> nat
    decreases readings.len(),
{
    if readings.len() == 0 {
        0
    } else {
        total_full(readings.drop_last()) + readings.last().energy_full
    }
}

/// At least one battery reports that it is discharging.
pub open spec fn any_discharging(readings: Seq<BatteryReading>) -> bool {
    exists|i: int| 0 <= i < readings.len() && readings[i].status == BatteryStatus::Discharging
}

/// The held energy as a percentage of the capacity, rounded down.
pub open spec fn percentage_of(now: nat, full: nat) -> nat
    recommends
        full > 0,
{
    (100 * now) / full
}

/// What `aggregate` makes of the readings: nothing where the capacities add
/// up to zero.
pub open spec fn aggregate_of(readings: Seq<BatteryReading>) -> Option<(nat, bool)> {
    if total_full(readings) == 0 {
        None
    } else {
        Some(
            (
                percentage_of(total_now(readings), total_full(readings)),
                any_discharging(readings),
            ),
        )
    }
}

/// Combines the readings of all batteries into one charge.
///
/// The percentage is the summed energy over the summed capacity, rounded
/// down. It is not capped: batteries that hold more than their capacity
/// give more than 100.
pub fn aggregate(batteries: &Vec<Battery>) -> (r: Result<AggregateCharge, AggregateError>)
    ensures
        match r {
            Ok(charge) => aggregate_of(batteries.deep_view()) == Some(
                (charge.percentage as nat, charge.discharging),
            ),
            Err(e) => aggregate_of(batteries.deep_view()) is None && e
                == AggregateError::DivisionByZero,
        },
{
    let ghost readings = batteries.deep_view();
    let mut now: u128 = 0;
    let mut full: u128 = 0;
    let mut discharging = false;
    let mut i: usize = 0;
    while i < batteries.len()
        invariant
            i <= batteries.len(),
            readings == batteries.deep_view(),
            now == total_now(readings.take(i as int)),
            full == total_full(readings.take(i as int)),
            now <= i * 0xffff_ffff,
            full <= i * 0xffff_ffff,
            discharging == any_discharging(readings.take(i as int)),
        decreases batteries.len() - i,
    {
        let battery = &batteries[i];
        proof {
            let next = readings.take(i + 1);
            assert(next.drop_last() =~= readings.take(i as int));
            assert(next.last() == battery@);
            if battery.status == BatteryStatus::Discharging {
                assert(next[i as int].status == BatteryStatus::Discharging);
            } else if any_discharging(next) {
                let k = choose|k: int|
                    0 <= k < next.len() && next[k].status == BatteryStatus::Discharging;
                assert(readings.take(i as int)[k].status == BatteryStatus::Discharging);
            } else if any_discharging(readings.take(i as int)) {
                let k = choose|k: int|
                    0 <= k < i && readings.take(i as int)[k].status == BatteryStatus::Discharging;
                assert(next[k].status == BatteryStatus::Discharging);
            }
        }
        now = now + battery.energy_now as u128;
        full = full + battery.energy_full as u128;
        if battery.status == BatteryStatus::Discharging {
            discharging = true;
        }
        i += 1;
    }
    proof {
        assert(readings.take(batteries.len() as int) =~= readings);
    }
    if full == 0 {
        Err(AggregateError::DivisionByZero)
    } else {
        Ok(AggregateCharge { percentage: 100 * now / full, discharging })
    }
}

/// Taking one reading out lowers each total by what that reading held.
proof fn lemma_totals_without(readings: Seq<BatteryReading>, at: int)
    requires
        0 <= at < readings.len(),
    ensures
        total_now(readings) == total_now(readings.remove(at)) + readings[at].energy_now,
        total_full(readings) == total_full(readings.remove(at)) + readings[at].energy_full,
    decreases readings.len(),
{
    if at == readings.len() - 1 {
        assert(readings.remove(at) =~= readings.drop_last());
    } else {
        lemma_totals_without(readings.drop_last(), at);
        assert(readings.remove(at).drop_last() =~= readings.drop_last().remove(at));
        assert(readings.remove(at).last() == readings.last());
    }
}

/// A discharging reading in one list is in every list with the same
/// readings.
proof fn lemma_discharging_carries_over(a: Seq<BatteryReading>, b: Seq<BatteryReading>)
    requires
        a.to_multiset() == b.to_multiset(),
        any_discharging(a),
    ensures
        any_discharging(b),
{
    let i = choose|i: int| 0 <= i < a.len() && a[i].status == BatteryStatus::Discharging;
    a.to_multiset_ensures();
    b.to_multiset_ensures();
    assert(a.contains(a[i]));
    assert(a.to_multiset().count(a[i]) > 0);
    assert(b.to_multiset().count(a[i]) > 0);
    assert(b.contains(a[i]));
    let j = choose|j: int| 0 <= j < b.len() && b[j] == a[i];
    assert(b[j].status == BatteryStatus::Discharging);
}

/// Aggregation does not depend on the order of the readings: two lists that
/// hold the same readings, each as often as the other, have the same totals,
/// the same discharging flag and the same aggregate.
pub proof fn lemma_aggregate_ignores_order(a: Seq<BatteryReading>, b: Seq<BatteryReading>)
    requires
        a.to_multiset() == b.to_multiset(),
    ensures
        total_now(a) == total_now(b),
        total_full(a) == total_full(b),
        any_discharging(a) == any_discharging(b),
        aggregate_of(a) == aggregate_of(b),
    decreases a.len(),
{
    a.to_multiset_ensures();
    b.to_multiset_ensures();
    if any_discharging(a) {
        lemma_discharging_carries_over(a, b);
    }
    if any_discharging(b) {
        lemma_discharging_carries_over(b, a);
    }
    if a.len() > 0 {
        let last = a.last();
        assert(a.contains(last));
        assert(a.to_multiset().count(last) > 0);
        assert(b.to_multiset().count(last) > 0);
        assert(b.contains(last));
        let at = choose|at: int| 0 <= at < b.len() && b[at] == last;
        assert(a.drop_last() =~= a.remove(a.len() - 1));
        assert(a.drop_last().to_multiset() =~= b.remove(at).to_multiset());
        lemma_aggregate_ignores_order(a.drop_last(), b.remove(at));
        lemma_totals_without(b, at);
    } else {
        assert(b.len() == 0);
    }
}

} // verus!
