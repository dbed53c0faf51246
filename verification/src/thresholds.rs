//! Alert thresholds and their validation.

use crate::number::{push_signed_decimal, signed_decimal};
use crate::text::{push_text, string_of};
use vstd::prelude::*;

verus! {

/// Highest percentage a threshold may be set to.
pub const MAX_LEVEL: i32 = 100;

/// Upper bound quoted for the poll interval, in seconds.
pub const MAX_INTERVAL: i32 = 2_147_483;

/// The configurable thresholds, from the most severe to the least.
#[derive(Clone, Copy, Debug, PartialEq, Eq, Structural)]
pub enum Level {
    Danger,
    Critical,
    Warning,
    Full,
}

/// A setting that has an admissible range.
#[derive(Clone, Copy, Debug, PartialEq, Eq, Structural)]
pub enum Ranged {
    Warning,
    Critical,
    Danger,
    Full,
    Interval,
}

/// Why a configuration was rejected.
#[derive(Clone, Copy, Debug, PartialEq, Eq, Structural)]
pub enum ConfigError {
    /// A value lies outside `0..=max`.
    OutOfRange { setting: Ranged, max: i32 },
    /// Warning and critical are both set and warning is not above critical.
    OrderingViolation,
    /// Walking the set thresholds from danger to full, `offender` is lower
    /// than `reference`, the threshold set just before it.
    NotMonotonic { offender: Level, reference: Level },
}

impl Level {
    /// The word for the level in messages.
    pub open spec fn label(self) -> Seq<char> {
        match self {
            Level::Danger => "danger"@,
            Level::Critical => "critical"@,
            Level::Warning => "warning"@,
            Level::Full => "full"@,
        }
    }

    /// The word for the level in messages.
    pub fn name(self) -> (r: &'static str)
        ensures
            r@ == self.label(),
    {
        match self {
            Level::Danger => "danger",
            Level::Critical => "critical",
            Level::Warning => "warning",
            Level::Full => "full",
        }
    }
}

impl Ranged {
    /// The option letter under which messages speak of the setting.
    pub open spec fn letter(self) -> Seq<char> {
        match self {
            Ranged::Warning => "w"@,
            Ranged::Critical => "c"@,
            Ranged::Danger => "d"@,
            Ranged::Full => "f"@,
            Ranged::Interval => "m"@,
        }
    }

    /// The option letter under which messages speak of the setting.
    pub fn option(self) -> (r: &'static str)
        ensures
            r@ == self.letter(),
    {
        match self {
            Ranged::Warning => "w",
            Ranged::Critical => "c",
            Ranged::Danger => "d",
            Ranged::Full => "f",
            Ranged::Interval => "m",
        }
    }
}

impl ConfigError {
    /// The error in words.
    pub open spec fn text(self) -> Seq<char> {
        match self {
            ConfigError::OutOfRange { setting, max } => "Option -"@ + setting.letter()
                + " must be between 0 and "@ + signed_decimal(max as int),
            ConfigError::OrderingViolation => "Warning level must be greater than critical"@,
            ConfigError::NotMonotonic { offender, reference } => offender.label()
                + " must be greater than "@ + reference.label(),
        }
    }

    /// The error in words.
    pub fn message(&self) -> (r: String)
        ensures
            r@ == self.text(),
    {
        let mut line: Vec<char> = Vec::new();
        match *self {
            ConfigError::OutOfRange { setting, max } => {
                push_text(&mut line, "Option -");
                push_text(&mut line, setting.option());
                push_text(&mut line, " must be between 0 and ");
                push_signed_decimal(&mut line, max);
            },
            ConfigError::OrderingViolation => {
                push_text(&mut line, "Warning level must be greater than critical");
            },
            ConfigError::NotMonotonic { offender, reference } => {
                push_text(&mut line, offender.name());
                push_text(&mut line, " must be greater than ");
                push_text(&mut line, reference.name());
            },
        }
        assert(line@ =~= self.text());
        string_of(&line)
    }
}

/// Four optional percentage levels, as configured and not yet checked.
#[derive(Clone, Copy, Debug, PartialEq, Eq, Structural)]
pub struct ThresholdSet {
    pub warning: Option<i32>,
    pub critical: Option<i32>,
    pub danger: Option<i32>,
    pub full: Option<i32>,
}

/// An unset level is always in range; a set one must be a percentage.
pub open spec fn in_range(level: Option<i32>) -> bool {
    level matches Some(v) ==> 0 <= v <= MAX_LEVEL
}

/// The one-element list of a set level, or the empty list.
pub open spec fn listed(level: Level, value: Option<i32>) -> Seq<(Level, i32)> {
    match value {
        Some(v) => seq![(level, v)],
        None => Seq::empty(),
    }
}

/// The first place, at or after `from`, where a level is lower than the one
/// before it: the lower one and the one before it.
pub open spec fn first_descent(levels: Seq<(Level, i32)>, from: int) -> Option<(Level, Level)>
    decreases levels.len() - from,
{
    if from < 0 || from + 1 >= levels.len() {
        None
    } else if levels[from + 1].1 < levels[from].1 {
        Some((levels[from + 1].0, levels[from].0))
    } else {
        first_descent(levels, from + 1)
    }
}

/// No level is lower than one listed before it.
pub open spec fn non_decreasing(levels: Seq<(Level, i32)>) -> bool {
    forall|i: int, j: int| 0 <= i < j < levels.len() ==> levels[i].1 <= levels[j].1
}

impl ThresholdSet {
    /// The set levels in severity order: danger, critical, warning, full.
    pub open spec fn configured(self) -> Seq<(Level, i32)> {
        listed(Level::Danger, self.danger) + listed(Level::Critical, self.critical) + listed(
            Level::Warning,
            self.warning,
        ) + listed(Level::Full, self.full)
    }

    /// Warning and critical are not both set, or warning is above critical.
    pub open spec fn warning_above_critical(self) -> bool {
        match (self.warning, self.critical) {
            (Some(w), Some(c)) => w > c,
            _ => true,
        }
    }

    /// The first check that fails for these levels and this poll interval,
    /// in the order in which the checks are made; `None` when all pass.
    pub open spec fn fault(self, poll_interval: int) -> Option<ConfigError> {
        if !in_range(self.warning) {
            Some(ConfigError::OutOfRange { setting: Ranged::Warning, max: MAX_LEVEL })
        } else if !in_range(self.critical) {
            Some(ConfigError::OutOfRange { setting: Ranged::Critical, max: MAX_LEVEL })
        } else if !in_range(self.danger) {
            Some(ConfigError::OutOfRange { setting: Ranged::Danger, max: MAX_LEVEL })
        } else if !in_range(self.full) {
            Some(ConfigError::OutOfRange { setting: Ranged::Full, max: MAX_LEVEL })
        } else if poll_interval < 0 {
            Some(ConfigError::OutOfRange { setting: Ranged::Interval, max: MAX_INTERVAL })
        } else if !self.warning_above_critical() {
            Some(ConfigError::OrderingViolation)
        } else {
            match first_descent(self.configured(), 0) {
                Some((offender, reference)) => Some(
                    ConfigError::NotMonotonic { offender, reference },
                ),
                None => None,
            }
        }
    }

    /// Every set level is a percentage, warning is above critical, and the
    /// set levels do not decrease from danger to full.
    pub open spec fn valid(self) -> bool {
        &&& in_range(self.warning)
        &&& in_range(self.critical)
        &&& in_range(self.danger)
        &&& in_range(self.full)
        &&& self.warning_above_critical()
        &&& non_decreasing(self.configured())
    }
}

/// Thresholds that have passed `validate`.
#[derive(Clone, Copy, Debug, PartialEq, Eq)]
pub struct ValidatedThresholds {
    levels: ThresholdSet,
}

impl View for ValidatedThresholds {
    type V = ThresholdSet;

    closed spec fn view(&self) -> ThresholdSet {
        self.levels
    }
}

impl ValidatedThresholds {
    #[verifier::type_invariant]
    spec fn checked(self) -> bool {
        self.levels.valid()
    }

    /// The levels that were validated.
    pub fn levels(&self) -> (r: ThresholdSet)
        ensures
            r == self@,
            r.valid(),
    {
        proof {
            use_type_invariant(self);
        }
        self.levels
    }
}

/// `first_descent` finds nothing from `from` on exactly when no level from
/// there on is lower than its predecessor.
pub proof fn lemma_first_descent_none(levels: Seq<(Level, i32)>, from: int)
    requires
        0 <= from,
    ensures
        first_descent(levels, from) is None <==> forall|k: int|
            from <= k && k + 1 < levels.len() ==> levels[k].1 <= #[trigger] levels[k + 1].1,
    decreases levels.len() - from,
{
    if from + 1 < levels.len() {
        lemma_first_descent_none(levels, from + 1);
        if first_descent(levels, from) is None {
            assert forall|k: int| from <= k && k + 1 < levels.len() implies levels[k].1
                <= #[trigger] levels[k + 1].1 by {
                if k > from {
                    assert(from + 1 <= k);
                }
            }
        } else if levels[from + 1].1 >= levels[from].1 {
            assert(first_descent(levels, from + 1) is Some);
        } else {
            assert(!(levels[from].1 <= levels[from + 1].1));
        }
    }
}

/// Steps that never go down make a list that never goes down.
pub proof fn lemma_steps_give_order(levels: Seq<(Level, i32)>, i: int, j: int)
    requires
        forall|k: int| 0 <= k && k + 1 < levels.len() ==> levels[k].1 <= #[trigger] levels[k + 1].1,
        0 <= i <= j < levels.len(),
    ensures
        levels[i].1 <= levels[j].1,
    decreases j - i,
{
    if i < j {
        lemma_steps_give_order(levels, i, j - 1);
        assert(levels[j - 1].1 <= levels[(j - 1) + 1].1);
    }
}

/// The scan passes exactly on the lists that never go down.
pub proof fn lemma_scan_is_order(levels: Seq<(Level, i32)>)
    ensures
        first_descent(levels, 0) is None <==> non_decreasing(levels),
{
    lemma_first_descent_none(levels, 0);
    if first_descent(levels, 0) is None {
        assert forall|i: int, j: int| 0 <= i < j < levels.len() implies levels[i].1
            <= levels[j].1 by {
            lemma_steps_give_order(levels, i, j);
        }
    } else {
        if non_decreasing(levels) {
            assert forall|k: int| 0 <= k && k + 1 < levels.len() implies levels[k].1
                <= #[trigger] levels[k + 1].1 by {}
        }
    }
}

/// Two levels are not both set, or the first is below the second: strictly
/// where `strict`, else at most equal.
pub open spec fn in_order(lower: Option<i32>, upper: Option<i32>, strict: bool) -> bool {
    match (lower, upper) {
        (Some(l), Some(u)) => if strict {
            l < u
        } else {
            l <= u
        },
        _ => true,
    }
}

/// A configuration passes every check exactly when the interval is not
/// negative, every set level is a percentage, warning is above critical, and
/// the set levels do not decrease from danger to full.
pub proof fn lemma_fault_free_is_valid(set: ThresholdSet, poll_interval: int)
    ensures
        set.fault(poll_interval) is None <==> set.valid() && poll_interval >= 0,
{
    lemma_scan_is_order(set.configured());
}

/// Validity is a matter of pairs: a configuration is valid exactly when
/// every set level is a percentage and any two set levels are in order,
/// warning strictly above critical. A level that is unset takes no part, so
/// which other levels are unset never changes how a pair fares.
pub proof fn lemma_valid_is_pairwise(set: ThresholdSet)
    ensures
        set.valid() <==> {
            &&& in_range(set.warning)
            &&& in_range(set.critical)
            &&& in_range(set.danger)
            &&& in_range(set.full)
            &&& in_order(set.danger, set.critical, false)
            &&& in_order(set.danger, set.warning, false)
            &&& in_order(set.danger, set.full, false)
            &&& in_order(set.critical, set.warning, true)
            &&& in_order(set.critical, set.full, false)
            &&& in_order(set.warning, set.full, false)
        },
{
    let levels = set.configured();
    let d = listed(Level::Danger, set.danger);
    let c = listed(Level::Critical, set.critical);
    let w = listed(Level::Warning, set.warning);
    let f = listed(Level::Full, set.full);
    let at_c = d.len() as int;
    let at_w = at_c + c.len();
    let at_f = at_w + w.len();
    assert(levels.len() == at_f + f.len());
    if set.danger is Some {
        assert(levels[0] == (Level::Danger, set.danger->0));
    }
    if set.critical is Some {
        assert(levels[at_c] == (Level::Critical, set.critical->0));
    }
    if set.warning is Some {
        assert(levels[at_w] == (Level::Warning, set.warning->0));
    }
    if set.full is Some {
        assert(levels[at_f] == (Level::Full, set.full->0));
    }
}

/// Unsetting levels of a valid configuration leaves a valid configuration.
pub proof fn lemma_unset_keeps_valid(
    set: ThresholdSet,
    keep_warning: bool,
    keep_critical: bool,
    keep_danger: bool,
    keep_full: bool,
)
    requires
        set.valid(),
    ensures
        (ThresholdSet {
            warning: if keep_warning {
                set.warning
            } else {
                None
            },
            critical: if keep_critical {
                set.critical
            } else {
                None
            },
            danger: if keep_danger {
                set.danger
            } else {
                None
            },
            full: if keep_full {
                set.full
            } else {
                None
            },
        }).valid(),
{
    let kept = ThresholdSet {
        warning: if keep_warning {
            set.warning
        } else {
            None
        },
        critical: if keep_critical {
            set.critical
        } else {
            None
        },
        danger: if keep_danger {
            set.danger
        } else {
            None
        },
        full: if keep_full {
            set.full
        } else {
            None
        },
    };
    lemma_valid_is_pairwise(set);
    lemma_valid_is_pairwise(kept);
}

/// With danger, critical and warning all set to percentages, danger and
/// critical apart, and a poll interval that is not negative, validation
/// succeeds exactly when danger < critical < warning and the walk from
/// danger to full never goes down.
pub proof fn lemma_three_levels(set: ThresholdSet, poll_interval: int)
    requires
        set.danger is Some,
        set.critical is Some,
        set.warning is Some,
        in_range(set.danger),
        in_range(set.critical),
        in_range(set.warning),
        in_range(set.full),
        poll_interval >= 0,
        set.danger != set.critical,
    ensures
        set.fault(poll_interval) is None <==> set.danger->0 < set.critical->0
            < set.warning->0 && non_decreasing(set.configured()),
{
    lemma_fault_free_is_valid(set, poll_interval);
    lemma_valid_is_pairwise(set);
}

/// Checks the configured levels and the poll interval.
///
/// The checks are made in a fixed order and the first failure is reported:
/// the range of warning, critical, danger and full; the sign of the poll
/// interval; warning above critical; then the walk from danger to full.
pub fn validate(
    warning: Option<i32>,
    critical: Option<i32>,
    danger: Option<i32>,
    full: Option<i32>,
    poll_interval: i32,
) -> (r: Result<ValidatedThresholds, ConfigError>)
    ensures
        match r {
            Ok(t) => {
                &&& t@ == (ThresholdSet { warning, critical, danger, full })
                &&& t@.fault(poll_interval as int) is None
                &&& t@.valid()
            },
            Err(e) => (ThresholdSet { warning, critical, danger, full }).fault(
                poll_interval as int,
            ) == Some(e),
        },
{
    let set = ThresholdSet { warning, critical, danger, full };
    if !level_in_range(warning) {
        return Err(ConfigError::OutOfRange { setting: Ranged::Warning, max: MAX_LEVEL });
    }
    if !level_in_range(critical) {
        return Err(ConfigError::OutOfRange { setting: Ranged::Critical, max: MAX_LEVEL });
    }
    if !level_in_range(danger) {
        return Err(ConfigError::OutOfRange { setting: Ranged::Danger, max: MAX_LEVEL });
    }
    if !level_in_range(full) {
        return Err(ConfigError::OutOfRange { setting: Ranged::Full, max: MAX_LEVEL });
    }
    if poll_interval < 0 {
        return Err(ConfigError::OutOfRange { setting: Ranged::Interval, max: MAX_INTERVAL });
    }
    if let (Some(w), Some(c)) = (warning, critical) {
        if w <= c {
            return Err(ConfigError::OrderingViolation);
        }
    }
    match first_lower(&configured_levels(&set)) {
        Some((offender, reference)) => Err(ConfigError::NotMonotonic { offender, reference }),
        None => {
            proof {
                lemma_scan_is_order(set.configured());
            }
            Ok(ValidatedThresholds { levels: set })
        },
    }
}

/// Whether a level is unset or a percentage.
fn level_in_range(level: Option<i32>) -> (r: bool)
    ensures
        r == in_range(level),
{
    match level {
        Some(v) => 0 <= v && v <= MAX_LEVEL,
        None => true,
    }
}

/// Walks the levels once and reports the first that is lower than the one
/// before it.
fn first_lower(levels: &Vec<(Level, i32)>) -> (r: Option<(Level, Level)>)
    ensures
        r == first_descent(levels@, 0),
{
    let mut i: usize = 1;
    while i < levels.len()
        invariant
            1 <= i,
            first_descent(levels@, 0) == first_descent(levels@, i - 1),
        decreases levels.len() - i,
    {
        if levels[i].1 < levels[i - 1].1 {
            return Some((levels[i].0, levels[i - 1].0));
        }
        i += 1;
    }
    None
}

/// The set levels in severity order.
fn configured_levels(set: &ThresholdSet) -> (r: Vec<(Level, i32)>)
    ensures
        r@ == set.configured(),
{
    let mut levels: Vec<(Level, i32)> = Vec::new();
    if let Some(v) = set.danger {
        levels.push((Level::Danger, v));
    }
    if let Some(v) = set.critical {
        levels.push((Level::Critical, v));
    }
    if let Some(v) = set.warning {
        levels.push((Level::Warning, v));
    }
    if let Some(v) = set.full {
        levels.push((Level::Full, v));
    }
    levels
}

} // verus!
