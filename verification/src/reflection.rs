//! Reflection: the system as critic of its own recommendations.

use vstd::prelude::*;
use crate::fixed::{clamp_unit, unit};
use crate::models::{initial_weights, RecommendationRanker};
use crate::strmap::{views_of, StrMap};
use crate::text::{clone_texts, fixed, fixed_text, join2};
use crate::types::{Action, Confidence, Observation, ObservationView, Outcome, RiskCategory};

verus! {

/// The score that every critique starts from (0.5).
pub const NEUTRAL_SCORE: i64 = 500_000;

/// Above this score confidence is raised (0.7).
pub const RAISE_ABOVE: i64 = 700_000;

/// Below this score confidence is lowered (0.4).
pub const LOWER_BELOW: i64 = 400_000;

/// More minutes saved than this count as significant (10).
pub const SIGNIFICANT_MINUTES: i64 = 10_000_000;

/// Fewer minutes saved than this count as minimal (2).
pub const MINIMAL_MINUTES: i64 = 2_000_000;

/// A critique of a recommendation. Score and adjustment are fixed-point.
#[derive(Debug)]
pub struct SelfCritique {
    pub recommendation_id: String,
    pub critique_score: i64,
    pub strengths: Vec<String>,
    pub weaknesses: Vec<String>,
    pub alternative_approaches: Vec<String>,
    pub confidence_adjustment: i64,
}

/// What a critique holds.
pub struct SelfCritiqueView {
    pub recommendation_id: Seq<char>,
    pub critique_score: i64,
    pub strengths: Seq<Seq<char>>,
    pub weaknesses: Seq<Seq<char>>,
    pub alternative_approaches: Seq<Seq<char>>,
    pub confidence_adjustment: i64,
}

impl View for SelfCritique {
    type V = SelfCritiqueView;

    open spec fn view(&self) -> SelfCritiqueView {
        SelfCritiqueView {
            recommendation_id: self.recommendation_id@,
            critique_score: self.critique_score,
            strengths: views_of(self.strengths@),
            weaknesses: views_of(self.weaknesses@),
            alternative_approaches: views_of(self.alternative_approaches@),
            confidence_adjustment: self.confidence_adjustment,
        }
    }
}

impl Clone for SelfCritique {
    fn clone(&self) -> (r: Self)
        ensures
            r@ == self@,
    {
        SelfCritique {
            recommendation_id: self.recommendation_id.clone(),
            critique_score: self.critique_score,
            strengths: clone_texts(&self.strengths),
            weaknesses: clone_texts(&self.weaknesses),
            alternative_approaches: clone_texts(&self.alternative_approaches),
            confidence_adjustment: self.confidence_adjustment,
        }
    }
}

/// Whether the minutes expected to be saved are known and significant.
pub open spec fn saves_much(obs: ObservationView) -> bool {
    obs.expected_outcome.contains_key("time_saved_min"@) && obs.expected_outcome["time_saved_min"@]
        > SIGNIFICANT_MINUTES
}

/// Whether the minutes expected to be saved are known and minimal.
pub open spec fn saves_little(obs: ObservationView) -> bool {
    obs.expected_outcome.contains_key("time_saved_min"@) && obs.expected_outcome["time_saved_min"@]
        < MINIMAL_MINUTES
}

/// The score before it is limited: 0.5, plus 0.2 for high and minus 0.2 for
/// low confidence, plus 0.1 for no and minus 0.3 for high risk, plus 0.1 for
/// significant and minus 0.1 for minimal savings.
pub open spec fn raw_score(obs: ObservationView) -> int {
    NEUTRAL_SCORE + (match obs.action.confidence {
        Confidence::High => 200_000int,
        Confidence::Low => -200_000int,
        Confidence::Medium => 0int,
    }) + (match obs.action.risk {
        RiskCategory::NoRisk => 100_000int,
        RiskCategory::High => -300_000int,
        RiskCategory::Low => 0int,
    }) + (if saves_much(obs) {
        100_000int
    } else if saves_little(obs) {
        -100_000int
    } else {
        0int
    })
}

/// The strengths that a critique names, in the order in which they are found.
pub open spec fn strengths_of(obs: ObservationView) -> Seq<Seq<char>> {
    let a = if obs.action.confidence == Confidence::High {
        seq!["High confidence action"@]
    } else {
        Seq::<Seq<char>>::empty()
    };
    let b = if obs.action.risk == RiskCategory::NoRisk {
        a.push("No risk - safe to execute"@)
    } else {
        a
    };
    if saves_much(obs) {
        b.push(
            "Significant time savings: "@ + fixed_text(
                obs.expected_outcome["time_saved_min"@] as int,
            ) + " min"@,
        )
    } else {
        b
    }
}

/// The weaknesses that a critique names, in the order in which they are
/// found.
pub open spec fn weaknesses_of(obs: ObservationView) -> Seq<Seq<char>> {
    let a = if obs.action.confidence == Confidence::Low {
        seq!["Low confidence - may need more data"@]
    } else {
        Seq::<Seq<char>>::empty()
    };
    let b = if obs.action.risk == RiskCategory::High {
        a.push("High risk - requires careful consideration"@)
    } else {
        a
    };
    if !saves_much(obs) && saves_little(obs) {
        b.push("Minimal time savings expected"@)
    } else {
        b
    }
}

/// The other ways that a critique points to.
pub open spec fn alternatives_of(obs: ObservationView) -> Seq<Seq<char>> {
    let a = if obs.action.risk == RiskCategory::High {
        seq!["Consider manual approval first"@]
    } else {
        Seq::<Seq<char>>::empty()
    };
    if obs.observation.len() > 5 {
        a.push("Consider breaking into smaller steps"@)
    } else {
        a
    }
}

/// By how much a score changes confidence: up by 0.1 above 0.7, down by 0.2
/// below 0.4.
pub open spec fn adjustment_for(score: int) -> int {
    if score > RAISE_ABOVE {
        100_000
    } else if score < LOWER_BELOW {
        -200_000
    } else {
        0
    }
}

/// The critique of an observation.
pub open spec fn critique_of(obs: ObservationView) -> SelfCritiqueView {
    SelfCritiqueView {
        recommendation_id: obs.id,
        critique_score: unit(raw_score(obs)) as i64,
        strengths: strengths_of(obs),
        weaknesses: weaknesses_of(obs),
        alternative_approaches: alternatives_of(obs),
        confidence_adjustment: adjustment_for(unit(raw_score(obs))) as i64,
    }
}

/// A critique after the outcome is known: acceptance raises the score by 0.1
/// and is noted as a strength; being ignored, without acceptance, lowers it by
/// 0.1 and is noted as a weakness.
pub open spec fn after_outcome(critique: SelfCritiqueView, outcome: Outcome) -> SelfCritiqueView {
    if outcome.accepted {
        SelfCritiqueView {
            critique_score: unit(critique.critique_score + 100_000) as i64,
            strengths: critique.strengths.push("User accepted recommendation"@),
            ..critique
        }
    } else if outcome.ignored {
        SelfCritiqueView {
            critique_score: unit(critique.critique_score - 100_000) as i64,
            weaknesses: critique.weaknesses.push("User ignored recommendation"@),
            ..critique
        }
    } else {
        SelfCritiqueView { critique_score: unit(critique.critique_score as int) as i64, ..critique }
    }
}

/// What each critique holds, by recommendation.
pub open spec fn critique_views(critiques: Map<Seq<char>, SelfCritique>) -> Map<
    Seq<char>,
    SelfCritiqueView,
> {
    Map::new(|id: Seq<char>| critiques.contains_key(id), |id: Seq<char>| critiques[id]@)
}

/// Keeps the critiques.
pub struct ReflectiveReasoningLoop {
    ranker: RecommendationRanker,
    critiques: StrMap<SelfCritique>,
}

impl View for ReflectiveReasoningLoop {
    type V = Map<Seq<char>, SelfCritiqueView>;

    closed spec fn view(&self) -> Map<Seq<char>, SelfCritiqueView> {
        critique_views(self.critiques@)
    }
}

impl ReflectiveReasoningLoop {
    /// The number of critiques.
    pub closed spec fn critique_total(&self) -> nat {
        self.critiques.keys().len()
    }

    /// The ranker that the loop holds.
    pub closed spec fn ranker(&self) -> RecommendationRanker {
        self.ranker
    }

    /// A loop without critiques, with a ranker that has the initial weights.
    pub fn new() -> (r: Self)
        ensures
            r.ranker().weights() == initial_weights(),
            r@ == Map::<Seq<char>, SelfCritiqueView>::empty(),
            r.critique_total() == 0,
    {
        let r = ReflectiveReasoningLoop {
            ranker: RecommendationRanker::new(),
            critiques: StrMap::new(),
        };
        assert(r@ =~= Map::<Seq<char>, SelfCritiqueView>::empty());
        r
    }

    /// How many critiques there are.
    pub fn critique_count(&self) -> (n: usize)
        ensures
            n == self.critique_total(),
    {
        self.critiques.len()
    }

    /// The critique of the recommendation `observation_id`.
    pub fn get_critique(&self, observation_id: &str) -> (r: Option<&SelfCritique>)
        ensures
            match r {
                Some(critique) => self@.contains_key(observation_id@) && critique@
                    == self@[observation_id@],
                None => !self@.contains_key(observation_id@),
            },
    {
        self.critiques.get(observation_id)
    }

    /// Weighs what speaks for and against the recommendation of
    /// `observation`, and keeps the critique under the id of the observation.
    pub fn critique_recommendation(&mut self, observation: &Observation) -> (r: SelfCritique)
        ensures
            r@ == critique_of(observation@),
            final(self)@ == old(self)@.insert(observation.id@, r@),
            final(self).ranker() == old(self).ranker(),
    {
        let mut strengths: Vec<String> = Vec::new();
        let mut weaknesses: Vec<String> = Vec::new();
        let mut alternative_approaches: Vec<String> = Vec::new();
        let mut score: i64 = NEUTRAL_SCORE;
        match observation.action.confidence {
            Confidence::High => {
                strengths.push("High confidence action".to_string());
                score = score + 200_000;
            },
            Confidence::Low => {
                weaknesses.push("Low confidence - may need more data".to_string());
                score = score - 200_000;
            },
            _ => {},
        }
        match observation.action.risk {
            RiskCategory::NoRisk => {
                strengths.push("No risk - safe to execute".to_string());
                score = score + 100_000;
            },
            RiskCategory::High => {
                weaknesses.push("High risk - requires careful consideration".to_string());
                alternative_approaches.push("Consider manual approval first".to_string());
                score = score - 300_000;
            },
            _ => {},
        }
        match observation.expected_outcome.get("time_saved_min") {
            Some(time_saved) => {
                if *time_saved > SIGNIFICANT_MINUTES {
                    let a = join2("Significant time savings: ", fixed(*time_saved).as_str());
                    strengths.push(join2(a.as_str(), " min"));
                    score = score + 100_000;
                } else if *time_saved < MINIMAL_MINUTES {
                    weaknesses.push("Minimal time savings expected".to_string());
                    score = score - 100_000;
                }
            },
            None => {},
        }
        if observation.observation.len() > 5 {
            alternative_approaches.push("Consider breaking into smaller steps".to_string());
        }
        let critique_score = clamp_unit(score as i128);
        let confidence_adjustment: i64 = if critique_score > RAISE_ABOVE {
            100_000
        } else if critique_score < LOWER_BELOW {
            -200_000
        } else {
            0
        };
        let critique = SelfCritique {
            recommendation_id: observation.id.clone(),
            critique_score,
            strengths,
            weaknesses,
            alternative_approaches,
            confidence_adjustment,
        };
        assert(critique@.strengths =~= strengths_of(observation@));
        assert(critique@.weaknesses =~= weaknesses_of(observation@));
        assert(critique@.alternative_approaches =~= alternatives_of(observation@));
        let stored = critique.clone();
        self.critiques.insert(observation.id.clone(), stored);
        assert(self@ =~= old(self)@.insert(observation.id@, critique@));
        critique
    }

    /// The action of `observation` as its critique leaves it: with medium
    /// confidence where the score is below 0.4, unchanged otherwise. Nothing
    /// where there is no critique.
    pub fn get_adjusted_recommendation(&self, observation: &Observation) -> (r: Option<Action>)
        ensures
            match r {
                Some(action) => self@.contains_key(observation.id@) && action == if self@[observation.id@].critique_score
                    < LOWER_BELOW {
                    Action { confidence: Confidence::Medium, ..observation.action }
                } else {
                    observation.action
                },
                None => !self@.contains_key(observation.id@),
            },
    {
        match self.critiques.get(observation.id.as_str()) {
            Some(critique) => {
                if critique.critique_score < LOWER_BELOW {
                    let mut adjusted_action = observation.action.clone();
                    adjusted_action.confidence = Confidence::Medium;
                    Some(adjusted_action)
                } else {
                    Some(observation.action.clone())
                }
            },
            None => None,
        }
    }

    /// Brings the critique of `observation_id` up to date with the outcome.
    /// Nothing happens where there is no critique.
    pub fn reflect_on_outcome(&mut self, observation_id: &str, outcome: &Outcome)
        ensures
            final(self)@ == if old(self)@.contains_key(observation_id@) {
                old(self)@.insert(
                    observation_id@,
                    after_outcome(old(self)@[observation_id@], *outcome),
                )
            } else {
                old(self)@
            },
            final(self).ranker() == old(self).ranker(),
    {
        match self.critiques.position(observation_id) {
            Some(at) => {
                let mut critique = self.critiques.value_at(at).clone();
                let ghost before = critique@;
                let mut score: i128 = critique.critique_score as i128;
                if outcome.accepted {
                    score = score + 100_000;
                    critique.strengths.push("User accepted recommendation".to_string());
                    assert(views_of(critique.strengths@) =~= before.strengths.push(
                        "User accepted recommendation"@,
                    ));
                } else if outcome.ignored {
                    score = score - 100_000;
                    critique.weaknesses.push("User ignored recommendation".to_string());
                    assert(views_of(critique.weaknesses@) =~= before.weaknesses.push(
                        "User ignored recommendation"@,
                    ));
                }
                critique.critique_score = clamp_unit(score);
                self.critiques.replace_at(at, critique);
                assert(self@ =~= old(self)@.insert(observation_id@, critique@));
            },
            None => {},
        }
    }
}

impl Default for ReflectiveReasoningLoop {
    fn default() -> (r: Self)
        ensures
            r.ranker().weights() == initial_weights(),
            r@ == Map::<Seq<char>, SelfCritiqueView>::empty(),
            r.critique_total() == 0,
    {
        ReflectiveReasoningLoop::new()
    }
}

} // verus!
