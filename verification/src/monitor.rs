//! One poll cycle after another: read, aggregate, decide, tell.

use crate::battery::{Battery, BatteryReading};
use crate::charge::{aggregate, aggregate_of, AggregateError};
use crate::notify::{notice_for, notify_cmd, Notice, NoticeModel};
use crate::settings::{Configuration, Settings};
use crate::state::{next_state, transition, AlertState};
use crate::text::{append, chars_of, joined, string_of};
use crate::thresholds::{validate, ConfigError, ValidatedThresholds};
use vstd::prelude::*;

verus! {

/// What the monitor does between two cycles.
#[derive(Clone, Copy, Debug, PartialEq, Eq, Structural)]
pub enum Pause {
    /// Stop: one cycle was all that was asked for.
    Stop,
    /// Sleep for that many seconds.
    Sleep { seconds: u64 },
    /// Wait until something wakes the monitor up.
    Signal,
}

/// The pause that the settings call for: none in a single run, a wait for
/// a wake-up where the interval is zero, else a sleep of the interval.
pub open spec fn pause_of(settings: Configuration) -> Pause {
    if settings.run_once {
        Pause::Stop
    } else if settings.sleep_interval == 0 {
        Pause::Signal
    } else {
        Pause::Sleep { seconds: settings.sleep_interval as u64 }
    }
}

/// What one cycle makes of the readings: the state they call for, and the
/// notice of it where it differs from the state held before. Readings
/// without any capacity are an error.
pub open spec fn cycle_of(
    state: AlertState,
    settings: Configuration,
    readings: Seq<BatteryReading>,
) -> Result<(AlertState, NoticeModel), AggregateError> {
    match aggregate_of(readings) {
        None => Err(AggregateError::DivisionByZero),
        Some((percentage, discharging)) => {
            let next = next_state(percentage as int, discharging, settings.levels());
            if next == state {
                Ok((next, NoticeModel::Nothing))
            } else {
                Ok((next, notice_for(settings, next, percentage)))
            }
        },
    }
}

/// A second cycle on the same readings keeps the state and tells nothing:
/// a notice is given only of a state that differs from the one held.
pub proof fn lemma_repeated_cycle_is_silent(
    state: AlertState,
    settings: Configuration,
    readings: Seq<BatteryReading>,
)
    ensures
        match cycle_of(state, settings, readings) {
            Ok((next, _)) => cycle_of(next, settings, readings) matches Ok(again) && again == (
                next,
                NoticeModel::Nothing,
            ),
            Err(_) => true,
        },
{
}

/// The state that one cycle leaves does not depend on the state held
/// before it, and a notice is given exactly of a state that differs from
/// the one held.
pub proof fn lemma_cycle_forgets_the_past(
    first: AlertState,
    second: AlertState,
    settings: Configuration,
    readings: Seq<BatteryReading>,
)
    ensures
        match (cycle_of(first, settings, readings), cycle_of(second, settings, readings)) {
            (Ok((a, told)), Ok((b, _))) => a == b && (a == first ==> told == NoticeModel::Nothing),
            (Err(e), Err(f)) => e == f,
            _ => false,
        },
{
}

/// The monitor: validated settings and the alert state held between
/// cycles.
pub struct Monitor {
    settings: Settings,
    thresholds: ValidatedThresholds,
    state: AlertState,
}

impl Monitor {
    #[verifier::type_invariant]
    spec fn consistent(self) -> bool {
        &&& self.thresholds@ == self.settings@.levels()
        &&& self.settings@.fault() is None
    }

    /// The settings that the monitor runs with.
    pub closed spec fn configuration(self) -> Configuration {
        self.settings@
    }

    /// The alert state that the monitor holds.
    pub closed spec fn held(self) -> AlertState {
        self.state
    }

    /// A monitor with the given settings, if they pass every check. It
    /// starts out as discharging.
    pub fn new(settings: Settings) -> (r: Result<Monitor, ConfigError>)
        ensures
            match r {
                Ok(monitor) => {
                    &&& settings@.fault() is None
                    &&& monitor.configuration() == settings@
                    &&& monitor.held() == AlertState::Discharging
                },
                Err(e) => settings@.fault() == Some(e),
            },
    {
        match validate(
            settings.warning,
            settings.critical,
            settings.danger,
            settings.full,
            settings.sleep_interval,
        ) {
            Ok(thresholds) => Ok(Monitor { settings, thresholds, state: AlertState::Discharging }),
            Err(e) => Err(e),
        }
    }

    /// The alert state held.
    pub fn state(&self) -> (r: AlertState)
        ensures
            r == self.held(),
    {
        self.state
    }

    /// The settings in force.
    pub fn settings(&self) -> (r: &Settings)
        ensures
            r@ == self.configuration(),
            r@.fault() is None,
    {
        proof {
            use_type_invariant(self);
        }
        &self.settings
    }

    /// Runs one cycle on fresh readings: moves to the state they call for
    /// and hands back the notice of it, which is nothing where the state
    /// stays the same. On an error the monitor is as it was.
    pub fn cycle(&mut self, batteries: &Vec<Battery>) -> (r: Result<Notice, AggregateError>)
        ensures
            final(self).configuration() == old(self).configuration(),
            match (r, cycle_of(old(self).held(), old(self).configuration(), batteries.deep_view())) {
                (Ok(notice), Ok((state, told))) => final(self).held() == state && notice@ == told,
                (Err(e), Err(f)) => e == f && final(self).held() == old(self).held(),
                _ => false,
            },
    {
        proof {
            use_type_invariant(&*self);
        }
        let charge = match aggregate(batteries) {
            Ok(charge) => charge,
            Err(e) => {
                return Err(e);
            },
        };
        let next = transition(self.state, charge, &self.thresholds);
        if next == self.state {
            Ok(Notice::Nothing)
        } else {
            let notice = notify_cmd(&self.settings, next, charge.percentage);
            self.state = next;
            Ok(notice)
        }
    }

    /// What to do before the next cycle.
    pub fn pause(&self) -> (r: Pause)
        ensures
            r == pause_of(self.configuration()),
    {
        proof {
            use_type_invariant(self);
        }
        if self.settings.run_once {
            Pause::Stop
        } else if self.settings.sleep_interval == 0 {
            Pause::Signal
        } else {
            Pause::Sleep { seconds: self.settings.sleep_interval as u64 }
        }
    }
}

/// The names of the batteries, separated by a comma and a blank.
pub fn battery_names(batteries: &Vec<Battery>) -> (r: String)
    ensures
        r@ == joined(
            batteries.deep_view().map_values(|b: BatteryReading| b.identifier),
            ", "@,
        ),
{
    let ghost names = batteries.deep_view().map_values(|b: BatteryReading| b.identifier);
    let separator = chars_of(", ");
    let mut line: Vec<char> = Vec::new();
    let mut i: usize = 0;
    while i < batteries.len()
        invariant
            i <= batteries.len(),
            separator@ == ", "@,
            names == batteries.deep_view().map_values(|b: BatteryReading| b.identifier),
            line@ == joined(names.take(i as int), ", "@),
        decreases batteries.len() - i,
    {
        let name = chars_of(batteries[i].name.as_str());
        proof {
            assert(names.take(i + 1).drop_last() =~= names.take(i as int));
            assert(names.take(i + 1).last() == name@);
            if i == 0 {
                assert(names.take(1)[0] == name@);
            }
        }
        if i > 0 {
            append(&mut line, &separator);
        }
        append(&mut line, &name);
        i += 1;
    }
    proof {
        assert(names.take(batteries.len() as int) =~= names);
    }
    string_of(&line)
}

} // verus!
