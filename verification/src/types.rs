//! The vocabulary of the pipeline: intents, actions, observations, outcomes.

use vstd::prelude::*;
use core::cmp::Ordering;
use vstd::std_specs::cmp::PartialOrdSpecImpl;
use crate::strmap::{clone_numbers, StrMap};
use crate::text::clone_texts;

verus! {

/// What an intervention is meant to do.
#[derive(Clone, Copy, Debug, PartialEq, Eq, Structural, Hash)]
pub enum Intent {
    DetectPattern,
    SuggestShortcut,
    AutomateAction,
    MoodIntervention,
}

/// The archetypes of behaviour that mining can report.
#[derive(Clone, Copy, Debug, PartialEq, Eq, Structural, Hash)]
pub enum PatternType {
    WorkflowSequence,
    DebuggingLoop,
    ContextSwitching,
    TimingVariance,
    RepetitiveGesture,
    AttentionFragmentation,
}

/// The kinds of intervention.
#[derive(Clone, Copy, Debug, PartialEq, Eq, Structural, Hash)]
pub enum ActionType {
    AutomationMacro,
    MicroNudge,
    ScheduleChange,
    SandboxPatch,
    PreemptiveDebugAssistant,
    FocusMode,
    ZenMode,
    SystemHygiene,
}

/// How sure the proposer of an action is. Ordered: Low < Medium < High.
#[derive(Clone, Copy, Debug, PartialEq, Eq, Structural, Hash)]
pub enum Confidence {
    Low,
    Medium,
    High,
}

/// How much harm an action can do. Ordered: NoRisk < Low < High.
#[derive(Clone, Copy, Debug, PartialEq, Eq, Structural, Hash)]
pub enum RiskCategory {
    NoRisk,
    Low,
    High,
}

/// The moods that behaviour can point to.
#[derive(Clone, Copy, Debug, PartialEq, Eq, Structural, Hash)]
pub enum EmotionalState {
    Calm,
    Focused,
    Stressed,
    Fatigued,
    CreativeFlow,
    Fragmented,
}

/// The kinds of user.
#[derive(Clone, Copy, Debug, PartialEq, Eq, Structural, Hash)]
pub enum UserProfile {
    Developer,
    Accountant,
    Designer,
    Manager,
    Student,
    Other,
}

impl Confidence {
    /// The place of a level in the order: 0 for Low, 1 for Medium, 2 for High.
    pub open spec fn rank(self) -> int {
        match self {
            Confidence::Low => 0,
            Confidence::Medium => 1,
            Confidence::High => 2,
        }
    }

    /// The place of a level in the order.
    pub fn level(&self) -> (r: u8)
        ensures
            r == self.rank(),
    {
        match self {
            Confidence::Low => 0,
            Confidence::Medium => 1,
            Confidence::High => 2,
        }
    }
}

impl RiskCategory {
    /// The place of a category in the order: 0 for NoRisk, 1 for Low, 2 for High.
    pub open spec fn rank(self) -> int {
        match self {
            RiskCategory::NoRisk => 0,
            RiskCategory::Low => 1,
            RiskCategory::High => 2,
        }
    }

    /// The place of a category in the order.
    pub fn level(&self) -> (r: u8)
        ensures
            r == self.rank(),
    {
        match self {
            RiskCategory::NoRisk => 0,
            RiskCategory::Low => 1,
            RiskCategory::High => 2,
        }
    }
}

/// How two places in an order compare.
pub open spec fn order_of(a: int, b: int) -> Ordering {
    if a < b {
        Ordering::Less
    } else if a > b {
        Ordering::Greater
    } else {
        Ordering::Equal
    }
}

impl PartialOrd for Confidence {
    fn partial_cmp(&self, other: &Self) -> (r: Option<Ordering>) {
        let a = self.level();
        let b = other.level();
        if a < b {
            Some(Ordering::Less)
        } else if a > b {
            Some(Ordering::Greater)
        } else {
            Some(Ordering::Equal)
        }
    }
}

impl PartialOrdSpecImpl for Confidence {
    open spec fn obeys_partial_cmp_spec() -> bool {
        true
    }

    open spec fn partial_cmp_spec(&self, other: &Self) -> Option<Ordering> {
        Some(order_of(self.rank(), other.rank()))
    }
}

impl PartialOrd for RiskCategory {
    fn partial_cmp(&self, other: &Self) -> (r: Option<Ordering>) {
        let a = self.level();
        let b = other.level();
        if a < b {
            Some(Ordering::Less)
        } else if a > b {
            Some(Ordering::Greater)
        } else {
            Some(Ordering::Equal)
        }
    }
}

impl PartialOrdSpecImpl for RiskCategory {
    open spec fn obeys_partial_cmp_spec() -> bool {
        true
    }

    open spec fn partial_cmp_spec(&self, other: &Self) -> Option<Ordering> {
        Some(order_of(self.rank(), other.rank()))
    }
}

/// An intervention that can be proposed, tested and carried out.
#[derive(Debug)]
pub struct Action {
    pub action_type: ActionType,
    pub description: String,
    pub confidence: Confidence,
    pub risk: RiskCategory,
}

impl Clone for Action {
    fn clone(&self) -> (r: Self)
        ensures
            r == *self,
    {
        Action {
            action_type: self.action_type,
            description: self.description.clone(),
            confidence: self.confidence,
            risk: self.risk,
        }
    }
}

/// One captured unit of behaviour, with the action proposed for it.
///
/// `metrics` and `expected_outcome` hold fixed-point numbers under their
/// names; a name that is missing counts as zero.
#[derive(Debug)]
pub struct Observation {
    pub id: String,
    pub profile: UserProfile,
    pub observation: Vec<String>,
    pub metrics: StrMap<i64>,
    pub intent: Intent,
    pub action: Action,
    pub expected_outcome: StrMap<i64>,
    pub source: String,
    pub timestamp: i64,
}

/// What an observation holds.
pub struct ObservationView {
    pub id: Seq<char>,
    pub profile: UserProfile,
    pub observation: Seq<Seq<char>>,
    pub metrics: Map<Seq<char>, i64>,
    pub intent: Intent,
    pub action: Action,
    pub expected_outcome: Map<Seq<char>, i64>,
    pub source: Seq<char>,
    pub timestamp: i64,
}

impl View for Observation {
    type V = ObservationView;

    open spec fn view(&self) -> ObservationView {
        ObservationView {
            id: self.id@,
            profile: self.profile,
            observation: crate::strmap::views_of(self.observation@),
            metrics: self.metrics@,
            intent: self.intent,
            action: self.action,
            expected_outcome: self.expected_outcome@,
            source: self.source@,
            timestamp: self.timestamp,
        }
    }
}

impl Clone for Observation {
    fn clone(&self) -> (r: Self)
        ensures
            r@ == self@,
    {
        Observation {
            id: self.id.clone(),
            profile: self.profile,
            observation: clone_texts(&self.observation),
            metrics: clone_numbers(&self.metrics),
            intent: self.intent,
            action: self.action.clone(),
            expected_outcome: clone_numbers(&self.expected_outcome),
            source: self.source.clone(),
            timestamp: self.timestamp,
        }
    }
}

/// The value held under `name`, or zero where there is none.
pub open spec fn value_or_zero(values: Map<Seq<char>, i64>, name: Seq<char>) -> int {
    if values.contains_key(name) {
        values[name] as int
    } else {
        0
    }
}

/// The value that `values` holds under `name`, or zero where there is none.
pub fn lookup_or_zero(values: &StrMap<i64>, name: &str) -> (r: i64)
    ensures
        r == value_or_zero(values@, name@),
{
    match values.get(name) {
        Some(v) => *v,
        None => 0,
    }
}

/// How a user answered a suggestion. Minutes and rates are fixed-point.
#[derive(Debug)]
pub struct Outcome {
    pub observation_id: String,
    pub accepted: bool,
    pub ignored: bool,
    pub modified: bool,
    pub time_saved_minutes: Option<i64>,
    pub error_rate_change: Option<i64>,
    pub timestamp: i64,
}

impl Clone for Outcome {
    fn clone(&self) -> (r: Self)
        ensures
            r == *self,
    {
        Outcome {
            observation_id: self.observation_id.clone(),
            accepted: self.accepted,
            ignored: self.ignored,
            modified: self.modified,
            time_saved_minutes: self.time_saved_minutes,
            error_rate_change: self.error_rate_change,
            timestamp: self.timestamp,
        }
    }
}

/// The figures of a daily report, each a fixed-point number.
#[derive(Clone, Copy, Debug)]
pub struct CognitiveMetrics {
    pub cognitive_clarity_index: i64,
    pub emotional_resilience_score: i64,
    pub habit_evolution_rate: i64,
    pub focus_stability_pct: i64,
    pub time_saved_minutes: i64,
}

} // verus!
