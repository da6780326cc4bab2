//! Periods of the day and the classification of changes between them.

use vstd::prelude::*;

verus! {

/// The time-based or static state used for color temperature and gamma
/// interpolation. `Sunset` and `Sunrise` are the periods during which the sun
/// sets or rises.
#[derive(Debug, Clone, Copy, PartialEq, Eq, Structural)]
pub enum Period {
    Day,
    Night,
    Sunset,
    Sunrise,
    Static,
}

/// Period category for presentation.
#[derive(Debug, Clone, Copy, PartialEq, Eq, Structural)]
pub enum PeriodType {
    /// Day or Night.
    Stable,
    /// Sunset or Sunrise.
    Transitioning,
    /// Static mode, with no time-based changes.
    Static,
}

impl PeriodType {
    /// The lowercase name the category is shown and serialised with.
    pub fn as_str(&self) -> (s: &'static str)
        ensures
            s@ == match *self {
                PeriodType::Stable => "stable"@,
                PeriodType::Transitioning => "transitioning"@,
                PeriodType::Static => "static"@,
            },
    {
        match self {
            PeriodType::Stable => "stable",
            PeriodType::Transitioning => "transitioning",
            PeriodType::Static => "static",
        }
    }
}

impl Period {
    /// The name a period is shown with: `Day`, `Night`, `Sunset`, `Sunrise`
    /// or `Static`.
    pub fn as_str(&self) -> (s: &'static str)
        ensures
            s@ == match *self {
                Period::Day => "Day"@,
                Period::Night => "Night"@,
                Period::Sunset => "Sunset"@,
                Period::Sunrise => "Sunrise"@,
                Period::Static => "Static"@,
            },
    {
        match self {
            Period::Day => "Day",
            Period::Night => "Night",
            Period::Sunset => "Sunset",
            Period::Sunrise => "Sunrise",
            Period::Static => "Static",
        }
    }
}

/// The successor of a period in the daily cycle; `Static` stays `Static`.
pub open spec fn spec_next_period(p: Period) -> Period {
    match p {
        Period::Day => Period::Sunset,
        Period::Sunset => Period::Night,
        Period::Night => Period::Sunrise,
        Period::Sunrise => Period::Day,
        Period::Static => Period::Static,
    }
}

pub open spec fn spec_is_transitioning(p: Period) -> bool {
    p == Period::Sunset || p == Period::Sunrise
}

pub open spec fn spec_is_stable(p: Period) -> bool {
    p == Period::Day || p == Period::Night
}

pub open spec fn spec_display_name(p: Period) -> Seq<char> {
    match p {
        Period::Day => "Day"@,
        Period::Night => "Night"@,
        Period::Sunset => "Sunset"@,
        Period::Sunrise => "Sunrise"@,
        Period::Static => "Static"@,
    }
}

pub open spec fn spec_symbol(p: Period) -> Seq<char> {
    match p {
        Period::Day => "󰖨 "@,
        Period::Night => " "@,
        Period::Sunset => "󰖛 "@,
        Period::Sunrise => "󰖜 "@,
        Period::Static => "󰋙 "@,
    }
}

impl Period {
    /// True for Day and Night.
    pub fn is_stable(&self) -> (b: bool)
        ensures
            b == spec_is_stable(*self),
    {
        matches!(self, Period::Day | Period::Night)
    }

    /// True for Sunset and Sunrise.
    pub fn is_transitioning(&self) -> (b: bool)
        ensures
            b == spec_is_transitioning(*self),
    {
        matches!(self, Period::Sunset | Period::Sunrise)
    }

    /// True for every period that changes with the time of day.
    pub fn is_time_based(&self) -> (b: bool)
        ensures
            b == (*self != Period::Static),
    {
        matches!(self, Period::Day | Period::Night | Period::Sunset | Period::Sunrise)
    }

    /// True for Static only.
    pub fn is_static(&self) -> (b: bool)
        ensures
            b == (*self == Period::Static),
    {
        matches!(self, Period::Static)
    }

    /// The presentation category of the period.
    pub fn period_type(&self) -> (t: PeriodType)
        ensures
            t == (if spec_is_stable(*self) {
                PeriodType::Stable
            } else if spec_is_transitioning(*self) {
                PeriodType::Transitioning
            } else {
                PeriodType::Static
            }),
    {
        match self {
            Period::Day | Period::Night => PeriodType::Stable,
            Period::Sunset | Period::Sunrise => PeriodType::Transitioning,
            Period::Static => PeriodType::Static,
        }
    }

    /// The display name, without icon.
    pub fn display_name(&self) -> (s: &'static str)
        ensures
            s@ == spec_display_name(*self),
    {
        proof {
            reveal_strlit("Day");
            reveal_strlit("Night");
            reveal_strlit("Sunset");
            reveal_strlit("Sunrise");
            reveal_strlit("Static");
        }
        match self {
            Period::Day => "Day",
            Period::Night => "Night",
            Period::Sunset => "Sunset",
            Period::Sunrise => "Sunrise",
            Period::Static => "Static",
        }
    }

    /// The icon of the period, followed by a space.
    pub fn symbol(&self) -> (s: &'static str)
        ensures
            s@ == spec_symbol(*self),
    {
        match self {
            Period::Day => "󰖨 ",
            Period::Night => " ",
            Period::Sunset => "󰖛 ",
            Period::Sunrise => "󰖜 ",
            Period::Static => "󰋙 ",
        }
    }

    /// The next period in the daily cycle.
    pub fn next_period(&self) -> (p: Period)
        ensures
            p == spec_next_period(*self),
    {
        match self {
            Period::Day => Period::Sunset,
            Period::Sunset => Period::Night,
            Period::Night => Period::Sunrise,
            Period::Sunrise => Period::Day,
            Period::Static => Period::Static,
        }
    }
}


/// The lower-case name used in running text.
pub open spec fn spec_lower_name(p: Period) -> Seq<char> {
    match p {
        Period::Day => "day"@,
        Period::Night => "night"@,
        Period::Sunset => "sunset"@,
        Period::Sunrise => "sunrise"@,
        Period::Static => "static"@,
    }
}

/// The lower-case name of a period, as used in running text.
pub fn lower_name(p: Period) -> (s: &'static str)
    ensures
        s@ == spec_lower_name(p),
{
    match p {
        Period::Day => "day",
        Period::Night => "night",
        Period::Sunset => "sunset",
        Period::Sunrise => "sunrise",
        Period::Static => "static",
    }
}

/// The kind of change between two consecutive periods.
#[derive(Debug, Clone, Copy, PartialEq, Eq, Structural)]
pub enum StateChange {
    /// No change occurred.
    Unchanged,
    /// A transitioning period started from a stable one (or static mode was
    /// entered or left).
    TransitionStarted,
    /// A transitioning period completed and a stable period begins.
    TransitionCompleted { from: Period },
    /// Progress within an ongoing transitioning period.
    TransitionProgress,
    /// A direct jump that bypasses the Day, Sunset, Night, Sunrise order.
    StableJump { from: Period, to: Period },
}

/// The change between `current` and `new`.
pub open spec fn spec_state_change(current: Period, new: Period) -> StateChange {
    if current == new {
        if spec_is_transitioning(current) {
            StateChange::TransitionProgress
        } else {
            StateChange::Unchanged
        }
    } else if new == Period::Static || current == Period::Static {
        StateChange::TransitionStarted
    } else if (current == Period::Day && new == Period::Sunset) || (current == Period::Night
        && new == Period::Sunrise) {
        StateChange::TransitionStarted
    } else if (current == Period::Sunset && new == Period::Night) || (current == Period::Sunrise
        && new == Period::Day) {
        StateChange::TransitionCompleted { from: current }
    } else {
        StateChange::StableJump { from: current, to: new }
    }
}

/// Classify the change between two periods.
pub fn detect_state_change(current_period: &Period, new_period: &Period) -> (c: StateChange)
    ensures
        c == spec_state_change(*current_period, *new_period),
{
    match (current_period, new_period) {
        (Period::Static, Period::Static) => StateChange::Unchanged,
        (Period::Day, Period::Day) | (Period::Night, Period::Night) => StateChange::Unchanged,
        (Period::Sunset, Period::Sunset) | (Period::Sunrise, Period::Sunrise) => {
            StateChange::TransitionProgress
        },
        (_, Period::Static) => StateChange::TransitionStarted,
        (Period::Static, _) => StateChange::TransitionStarted,
        (Period::Day, Period::Sunset) | (Period::Night, Period::Sunrise) => {
            StateChange::TransitionStarted
        },
        (Period::Sunset, Period::Night) => StateChange::TransitionCompleted { from: Period::Sunset },
        (Period::Sunrise, Period::Day) => StateChange::TransitionCompleted { from: Period::Sunrise },
        _ => StateChange::StableJump { from: *current_period, to: *new_period },
    }
}

/// Classify the change between the two periods; the lines that announce it
/// come from `state_change_messages`.
pub fn should_update_state(current_period: &Period, new_period: &Period) -> (c: StateChange)
    ensures
        c == spec_state_change(*current_period, *new_period),
{
    detect_state_change(current_period, new_period)
}

/// How a log line is set off in the output.
#[derive(Debug, Clone, Copy, PartialEq, Eq, Structural)]
pub enum LineStyle {
    /// A new block: an empty pipe line, then `┣ text`.
    Block,
    /// A line within a block: `┣ text`.
    Decorated,
}

/// "Commencing <Name> <symbol>"
pub open spec fn spec_commencing(p: Period) -> Seq<char> {
    "Commencing "@ + spec_display_name(p) + " "@ + spec_symbol(p)
}

/// "Entering <name> mode <symbol>"
pub open spec fn spec_entering(p: Period) -> Seq<char> {
    "Entering "@ + spec_lower_name(p) + " mode "@ + spec_symbol(p)
}

/// "Completed <name> <symbol>"
pub open spec fn spec_completed(p: Period) -> Seq<char> {
    "Completed "@ + spec_lower_name(p) + " "@ + spec_symbol(p)
}

fn commencing(p: Period) -> (s: String)
    ensures
        s@ == spec_commencing(p),
{
    let mut s = String::from_str("Commencing ");
    s.append(p.display_name());
    s.append(" ");
    s.append(p.symbol());
    s
}

fn entering(p: Period) -> (s: String)
    ensures
        s@ == spec_entering(p),
{
    let mut s = String::from_str("Entering ");
    s.append(lower_name(p));
    s.append(" mode ");
    s.append(p.symbol());
    s
}

fn completed(p: Period) -> (s: String)
    ensures
        s@ == spec_completed(p),
{
    let mut s = String::from_str("Completed ");
    s.append(lower_name(p));
    s.append(" ");
    s.append(p.symbol());
    s
}

/// The lines that announce a change into `new_period`, each with its style.
pub open spec fn spec_state_change_messages(change: StateChange, new_period: Period) -> Seq<(LineStyle, Seq<char>)> {
    match change {
        StateChange::Unchanged => seq![],
        StateChange::TransitionProgress => seq![],
        StateChange::TransitionStarted => seq![(LineStyle::Block, spec_commencing(new_period))],
        StateChange::TransitionCompleted { from } => seq![
            (LineStyle::Decorated, "Transition 100% complete"@),
            (LineStyle::Block, spec_completed(from)),
            (LineStyle::Block, spec_entering(new_period)),
        ],
        StateChange::StableJump { from, to } => if spec_is_stable(to) {
            seq![(LineStyle::Block, spec_entering(to))]
        } else {
            seq![]
        },
    }
}

/// The lines logged for a change into `new_period`. A completed transition
/// always leads into Day or Night.
pub fn state_change_messages(change: &StateChange, new_period: &Period) -> (v: Vec<(LineStyle, String)>)
    requires
        change matches StateChange::TransitionCompleted { .. } ==> spec_is_stable(*new_period),
    ensures
        v@.len() == spec_state_change_messages(*change, *new_period).len(),
        forall|i: int| 0 <= i < v@.len() ==> (#[trigger] v@[i]).0 == spec_state_change_messages(*change, *new_period)[i].0
            && v@[i].1@ == spec_state_change_messages(*change, *new_period)[i].1,
{
    let mut v: Vec<(LineStyle, String)> = Vec::new();
    match change {
        StateChange::Unchanged | StateChange::TransitionProgress => {},
        StateChange::TransitionStarted => {
            v.push((LineStyle::Block, commencing(*new_period)));
        },
        StateChange::TransitionCompleted { from } => {
            v.push((LineStyle::Decorated, String::from_str("Transition 100% complete")));
            v.push((LineStyle::Block, completed(*from)));
            v.push((LineStyle::Block, entering(*new_period)));
        },
        StateChange::StableJump { from: _, to } => {
            if to.is_stable() {
                v.push((LineStyle::Block, entering(*to)));
            }
        },
    }
    v
}

/// The line that announces `state` when it is entered directly.
pub open spec fn spec_state_announcement(state: Period) -> Seq<char> {
    if spec_is_transitioning(state) {
        spec_commencing(state)
    } else {
        spec_entering(state)
    }
}

/// The block line that announces `state`: "Entering <name> mode <symbol>" for
/// Day, Night and Static, "Commencing <Name> <symbol>" for Sunset and Sunrise.
pub fn log_state_announcement(state: Period) -> (s: String)
    ensures
        s@ == spec_state_announcement(state),
{
    match state {
        Period::Day | Period::Night | Period::Static => entering(state),
        Period::Sunset | Period::Sunrise => commencing(state),
    }
}

/// Stepping four times through the cycle returns to the start.
pub proof fn lemma_cycle_returns(p: Period)
    ensures
        spec_next_period(spec_next_period(spec_next_period(spec_next_period(p)))) == p,
{
}

/// A period compared with itself is no change, or progress while
/// transitioning.
pub proof fn lemma_same_period_is_no_change(p: Period)
    ensures
        spec_state_change(p, p) == (if spec_is_transitioning(p) {
            StateChange::TransitionProgress
        } else {
            StateChange::Unchanged
        }),
{
}

/// Advancing a time-based period to its successor is never a jump: it starts
/// a transition (from Day or Night) or completes one (from Sunset or Sunrise).
pub proof fn lemma_next_period_is_natural(p: Period)
    requires
        p != Period::Static,
    ensures
        spec_is_stable(p) ==> spec_state_change(p, spec_next_period(p)) == StateChange::TransitionStarted,
        spec_is_transitioning(p) ==> spec_state_change(p, spec_next_period(p))
            == (StateChange::TransitionCompleted { from: p }),
{
}

/// A change is reported exactly when the periods differ or a transition
/// advances.
pub proof fn lemma_no_change_iff_same_stable(a: Period, b: Period)
    ensures
        (spec_state_change(a, b) == StateChange::Unchanged) <==> (a == b && !spec_is_transitioning(a)),
{
}

} // verus!
