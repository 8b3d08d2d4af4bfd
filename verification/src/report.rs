//! The daily report: which patterns showed, what is suggested, and what the
//! day's figures are.

use vstd::prelude::*;
use crate::clock::{now_timestamp, utc_date, utc_date_of};
use crate::fixed::{div_floor, product, saturate, saturated, times, to_count, whole_count};
use crate::local_stack::{focus_stability, FeatureStore};
use crate::strmap::views_of;
use crate::text::{fixed, fixed_text, join, join2, joined};
use crate::types::{
    lookup_or_zero, value_or_zero, Action, CognitiveMetrics, Confidence, Observation,
    ObservationView, PatternType, RiskCategory,
};

verus! {

/// The resilience that every report states (0.7).
pub const RESILIENCE: i64 = 700_000;

/// The rate of habit change that every report states (0.1).
pub const HABIT_RATE: i64 = 100_000;

/// The share of the focus stability that counts as clarity (0.8).
pub const CLARITY_SHARE: i64 = 800_000;

/// A pattern that showed. The impact is fixed-point.
#[derive(Clone, Debug)]
pub struct PatternInsight {
    pub pattern_type: PatternType,
    pub description: String,
    pub frequency: usize,
    pub impact_score: i64,
}

/// What an insight holds.
pub struct PatternInsightView {
    pub pattern_type: PatternType,
    pub description: Seq<char>,
    pub frequency: usize,
    pub impact_score: i64,
}

impl View for PatternInsight {
    type V = PatternInsightView;

    open spec fn view(&self) -> PatternInsightView {
        PatternInsightView {
            pattern_type: self.pattern_type,
            description: self.description@,
            frequency: self.frequency,
            impact_score: self.impact_score,
        }
    }
}

/// An action that is suggested.
#[derive(Clone, Debug)]
pub struct ActionSuggestion {
    pub action: Action,
    pub expected_benefit: String,
    pub confidence: Confidence,
}

/// What a suggestion holds.
pub struct ActionSuggestionView {
    pub action: Action,
    pub expected_benefit: Seq<char>,
    pub confidence: Confidence,
}

impl View for ActionSuggestion {
    type V = ActionSuggestionView;

    open spec fn view(&self) -> ActionSuggestionView {
        ActionSuggestionView {
            action: self.action,
            expected_benefit: self.expected_benefit@,
            confidence: self.confidence,
        }
    }
}

/// The report of a day. Minutes and percentages are fixed-point.
#[derive(Clone, Debug)]
pub struct DailyReport {
    pub date: String,
    pub metrics: CognitiveMetrics,
    pub patterns_detected: Vec<PatternInsight>,
    pub suggestions: Vec<ActionSuggestion>,
    pub time_saved_minutes: i64,
    pub focus_stability_pct: i64,
}

/// Whether an observation shows a pattern: it has three steps or more.
pub open spec fn shows_pattern(obs: ObservationView) -> bool {
    obs.observation.len() >= 3
}

/// Whether the action of an observation is suggested: its confidence is at
/// least medium and its risk at most low.
pub open spec fn is_suggested(obs: ObservationView) -> bool {
    obs.action.confidence.rank() >= Confidence::Medium.rank() && obs.action.risk.rank()
        <= RiskCategory::Low.rank()
}

/// The insight on an observation.
pub open spec fn insight_on(obs: ObservationView) -> PatternInsightView {
    PatternInsightView {
        pattern_type: PatternType::WorkflowSequence,
        description: "Repeated sequence: "@ + joined(obs.observation, " → "@),
        frequency: if obs.metrics.contains_key("repeat_count"@) {
            whole_count(obs.metrics["repeat_count"@] as int) as usize
        } else {
            1
        },
        impact_score: value_or_zero(obs.metrics, "time_to_first_code_min"@) as i64,
    }
}

/// The suggestion made of an observation.
pub open spec fn suggestion_of(obs: ObservationView) -> ActionSuggestionView {
    ActionSuggestionView {
        action: obs.action,
        expected_benefit: "Expected to save "@ + fixed_text(
            value_or_zero(obs.expected_outcome, "time_saved_min"@),
        ) + " minutes"@,
        confidence: obs.action.confidence,
    }
}

/// The insights on the first `n` observations.
pub open spec fn insights_upto(observations: Seq<Observation>, n: int) -> Seq<PatternInsightView>
    decreases n,
{
    if n <= 0 {
        Seq::empty()
    } else if shows_pattern(observations[n - 1]@) {
        insights_upto(observations, n - 1).push(insight_on(observations[n - 1]@))
    } else {
        insights_upto(observations, n - 1)
    }
}

/// The suggestions made of the first `n` observations.
pub open spec fn suggestions_upto(observations: Seq<Observation>, n: int) -> Seq<
    ActionSuggestionView,
>
    decreases n,
{
    if n <= 0 {
        Seq::empty()
    } else if is_suggested(observations[n - 1]@) {
        suggestions_upto(observations, n - 1).push(suggestion_of(observations[n - 1]@))
    } else {
        suggestions_upto(observations, n - 1)
    }
}

/// The minutes that the suggestions among the first `n` observations are
/// expected to save together.
pub open spec fn savings_upto(observations: Seq<Observation>, n: int) -> int
    decreases n,
{
    if n <= 0 {
        0
    } else {
        savings_upto(observations, n - 1) + if is_suggested(observations[n - 1]@) {
            value_or_zero(observations[n - 1]@.expected_outcome, "time_saved_min"@)
        } else {
            0
        }
    }
}

/// The ids of the observations.
pub open spec fn ids_of(observations: Seq<Observation>) -> Seq<Seq<char>> {
    Seq::new(observations.len(), |i: int| observations[i].id@)
}

/// The figures of a day with the stability and the savings given.
pub open spec fn figures_for(stability: i64, time_saved: i64) -> CognitiveMetrics {
    CognitiveMetrics {
        cognitive_clarity_index: product(stability as int / 100, CLARITY_SHARE as int) as i64,
        emotional_resilience_score: RESILIENCE,
        habit_evolution_rate: HABIT_RATE,
        focus_stability_pct: stability,
        time_saved_minutes: time_saved,
    }
}

/// What each insight in `list` holds.
pub open spec fn insight_views(list: Seq<PatternInsight>) -> Seq<PatternInsightView> {
    Seq::new(list.len(), |i: int| list[i]@)
}

/// What each suggestion in `list` holds.
pub open spec fn suggestion_views(list: Seq<ActionSuggestion>) -> Seq<ActionSuggestionView> {
    Seq::new(list.len(), |i: int| list[i]@)
}

/// Writes the daily report from what the feature store holds.
pub struct ReportGenerator {
    feature_store: FeatureStore,
}

impl ReportGenerator {
    /// The feature store.
    pub closed spec fn store(&self) -> FeatureStore {
        self.feature_store
    }

    /// A generator that reads from `feature_store`.
    pub fn new(feature_store: FeatureStore) -> (r: Self)
        ensures
            r.store() == feature_store,
    {
        ReportGenerator { feature_store }
    }

    /// The report on `observations` as if the clock read `now`.
    pub fn generate_daily_report_at(&self, observations: &[Observation], now: i64) -> (r: DailyReport)
        ensures
            r.date@ == utc_date(now as int),
            insight_views(r.patterns_detected@) == insights_upto(
                observations@,
                observations@.len() as int,
            ),
            suggestion_views(r.suggestions@) == suggestions_upto(
                observations@,
                observations@.len() as int,
            ),
            r.time_saved_minutes == saturated(
                savings_upto(observations@, observations@.len() as int),
            ),
            r.focus_stability_pct == focus_stability(self.store().metrics(), ids_of(observations@)),
            r.metrics == figures_for(r.focus_stability_pct, r.time_saved_minutes),
    {
        let mut time_saved: i128 = 0;
        let mut patterns: Vec<PatternInsight> = Vec::new();
        let mut suggestions: Vec<ActionSuggestion> = Vec::new();
        let mut obs_ids: Vec<String> = Vec::new();
        let mut i: usize = 0;
        assert(insight_views(patterns@) =~= Seq::<PatternInsightView>::empty());
        assert(suggestion_views(suggestions@) =~= Seq::<ActionSuggestionView>::empty());
        assert(views_of(obs_ids@) =~= ids_of(observations@).subrange(0, 0));
        while i < observations.len()
            invariant
                i <= observations.len(),
                insight_views(patterns@) == insights_upto(observations@, i as int),
                suggestion_views(suggestions@) == suggestions_upto(observations@, i as int),
                time_saved == savings_upto(observations@, i as int),
                -(i as int) * 0x8000_0000_0000_0000 <= time_saved <= (i as int)
                    * 0x7fff_ffff_ffff_ffff,
                views_of(obs_ids@) == ids_of(observations@).subrange(0, i as int),
            decreases observations.len() - i,
        {
            let obs = &observations[i];
            if obs.observation.len() >= 3 {
                let insight = PatternInsight {
                    pattern_type: PatternType::WorkflowSequence,
                    description: join2(
                        "Repeated sequence: ",
                        join(&obs.observation, " → ").as_str(),
                    ),
                    frequency: match obs.metrics.get("repeat_count") {
                        Some(value) => to_count(*value),
                        None => 1,
                    },
                    impact_score: lookup_or_zero(&obs.metrics, "time_to_first_code_min"),
                };
                let ghost before = insight_views(patterns@);
                patterns.push(insight);
                assert(insight_views(patterns@) =~= before.push(insight@));
            }
            if obs.action.confidence.level() >= Confidence::Medium.level() && obs.action.risk.level()
                <= RiskCategory::Low.level() {
                let saved = lookup_or_zero(&obs.expected_outcome, "time_saved_min");
                time_saved = time_saved + (saved as i128);
                let a = join2("Expected to save ", fixed(saved).as_str());
                let suggestion = ActionSuggestion {
                    action: obs.action.clone(),
                    expected_benefit: join2(a.as_str(), " minutes"),
                    confidence: obs.action.confidence,
                };
                let ghost before = suggestion_views(suggestions@);
                suggestions.push(suggestion);
                assert(suggestion_views(suggestions@) =~= before.push(suggestion@));
            }
            let ghost ids_before = views_of(obs_ids@);
            obs_ids.push(obs.id.clone());
            assert(views_of(obs_ids@) =~= ids_before.push(obs.id@));
            assert(ids_of(observations@).subrange(0, i + 1) =~= ids_of(observations@).subrange(
                0,
                i as int,
            ).push(ids_of(observations@)[i as int]));
            i += 1;
        }
        assert(ids_of(observations@).subrange(0, observations@.len() as int) =~= ids_of(
            observations@,
        ));
        let focus_stability = self.feature_store.compute_focus_stability(obs_ids.as_slice());
        let total_saved = saturate(time_saved);
        let hundredth = div_floor(focus_stability as i128, 100);
        proof {
            crate::fixed::lemma_quotient_bounds(
                focus_stability as int,
                100,
                -92_233_720_368_547_759,
                92_233_720_368_547_759,
            );
            crate::fixed::lemma_product_shrinks(hundredth as int, CLARITY_SHARE as int);
        }
        let metrics = CognitiveMetrics {
            cognitive_clarity_index: times(hundredth as i64, CLARITY_SHARE) as i64,
            emotional_resilience_score: RESILIENCE,
            habit_evolution_rate: HABIT_RATE,
            focus_stability_pct: focus_stability,
            time_saved_minutes: total_saved,
        };
        DailyReport {
            date: utc_date_of(now),
            metrics,
            patterns_detected: patterns,
            suggestions,
            time_saved_minutes: total_saved,
            focus_stability_pct: focus_stability,
        }
    }

    /// The report on `observations`, dated by the clock: an insight for each
    /// sequence of three steps or more, a suggestion for each action of at
    /// least medium confidence and at most low risk, the minutes that the
    /// suggestions are expected to save, and the focus stability of the
    /// observations.
    pub fn generate_daily_report(&self, observations: &[Observation]) -> (r: DailyReport)
        ensures
            exists|now: i64| r.date@ == #[trigger] utc_date(now as int),
            insight_views(r.patterns_detected@) == insights_upto(
                observations@,
                observations@.len() as int,
            ),
            suggestion_views(r.suggestions@) == suggestions_upto(
                observations@,
                observations@.len() as int,
            ),
            r.time_saved_minutes == saturated(
                savings_upto(observations@, observations@.len() as int),
            ),
            r.focus_stability_pct == focus_stability(self.store().metrics(), ids_of(observations@)),
            r.metrics == figures_for(r.focus_stability_pct, r.time_saved_minutes),
    {
        let now = now_timestamp();
        self.generate_daily_report_at(observations, now)
    }
}

} // verus!
