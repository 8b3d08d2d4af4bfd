//! Scoring: how much an observation looks like a pattern, and which proposed
//! action is worth the most.

use vstd::prelude::*;
use crate::fixed::{
    clamp_unit, div_floor, lemma_product_shrinks, product, saturate, saturated, times, unit, SCALE,
};
use crate::strmap::StrMap;
use crate::text::contains_token;
use crate::types::{
    lookup_or_zero, value_or_zero, Confidence, Observation, ObservationView, PatternType,
    RiskCategory,
};

verus! {

/// The share of the pattern score in a composite score (0.4).
pub const SCORE_SHARE: i64 = 400_000;

/// The share of the expected saving in a composite score (0.6).
pub const SAVING_SHARE: i64 = 600_000;

/// The factor by which training raises the weight of repetition (1.1).
pub const TRAINING_FACTOR: i64 = 1_100_000;

/// A metric counts as high above five.
pub const FIVE: i64 = 5_000_000;

/// Fragmentation counts as high above fifty percent.
pub const FIFTY: i64 = 50_000_000;

/// The names of the metrics that carry a weight, in the order of their
/// weights.
pub open spec fn feature_names() -> Seq<Seq<char>> {
    seq![
        "repeat_count"@,
        "time_to_first_code_min"@,
        "context_switch_count"@,
        "focus_fragmentation_pct"@,
    ]
}

/// The weights that a new detector starts with: 0.3, 0.2, 0.25, 0.25.
pub open spec fn initial_weights() -> Seq<i64> {
    seq![300_000i64, 200_000i64, 250_000i64, 250_000i64]
}

/// The sum, over the first `n` weighted metrics, of metric times weight.
pub open spec fn weighted_sum(weights: Seq<i64>, metrics: Map<Seq<char>, i64>, n: int) -> int
    decreases n,
{
    if n <= 0 {
        0
    } else {
        weighted_sum(weights, metrics, n - 1) + product(
            value_or_zero(metrics, feature_names()[n - 1]),
            weights[n - 1] as int,
        )
    }
}

/// The pattern score of `metrics`: a hundredth of the weighted sum, limited to
/// the interval from zero to one.
pub open spec fn confidence_score(weights: Seq<i64>, metrics: Map<Seq<char>, i64>) -> int {
    unit(weighted_sum(weights, metrics, 4) / 100)
}

/// The pattern that an observation shows.
pub open spec fn detected_pattern(obs: ObservationView) -> PatternType {
    if value_or_zero(obs.metrics, "repeat_count"@) > FIVE && obs.observation.len() >= 3 {
        PatternType::WorkflowSequence
    } else if obs.observation.contains("copy_error"@) {
        PatternType::DebuggingLoop
    } else if value_or_zero(obs.metrics, "context_switch_count"@) > FIVE || value_or_zero(
        obs.metrics,
        "focus_fragmentation_pct"@,
    ) > FIFTY {
        PatternType::ContextSwitching
    } else {
        PatternType::TimingVariance
    }
}

/// Whether an observation makes training raise the weight of repetition.
pub open spec fn reinforces(obs: ObservationView) -> bool {
    value_or_zero(obs.metrics, "repeat_count"@) > FIVE
}

/// The weight of repetition after training on the first `n` observations:
/// each one that reinforces multiplies it by 1.1, up to the largest number
/// that can be held.
pub open spec fn trained_weight(weight: int, observations: Seq<Observation>, n: int) -> int
    decreases n,
{
    if n <= 0 {
        weight
    } else {
        let earlier = trained_weight(weight, observations, n - 1);
        if reinforces(observations[n - 1]@) {
            saturated(product(earlier, TRAINING_FACTOR as int))
        } else {
            earlier
        }
    }
}

/// Training never lowers a weight that is not negative: every reinforcement
/// raises it, and nothing brings it back down.
pub proof fn lemma_training_only_inflates(weight: int, observations: Seq<Observation>, n: int)
    requires
        0 <= weight <= i64::MAX,
    ensures
        weight <= trained_weight(weight, observations, n) <= i64::MAX,
    decreases n,
{
    if n > 0 {
        lemma_training_only_inflates(weight, observations, n - 1);
        let earlier = trained_weight(weight, observations, n - 1);
        assert(earlier * TRAINING_FACTOR >= earlier * SCALE) by (nonlinear_arith)
            requires
                earlier >= 0,
        ;
        crate::fixed::lemma_quotient_bounds(
            earlier * TRAINING_FACTOR,
            SCALE as int,
            earlier,
            earlier * TRAINING_FACTOR,
        );
    }
}

/// What confidence multiplies a composite score by: 1.0, 0.7 or 0.4.
pub open spec fn confidence_multiplier(confidence: Confidence) -> int {
    match confidence {
        Confidence::High => 1_000_000,
        Confidence::Medium => 700_000,
        Confidence::Low => 400_000,
    }
}

/// What risk multiplies a composite score by: 1.0, 0.8 or 0.3.
pub open spec fn risk_multiplier(risk: RiskCategory) -> int {
    match risk {
        RiskCategory::NoRisk => 1_000_000,
        RiskCategory::Low => 800_000,
        RiskCategory::High => 300_000,
    }
}

/// The composite score: 0.4 of the pattern score and 0.6 of a hundredth of
/// the minutes expected to be saved, times the multipliers of confidence and
/// risk.
pub open spec fn composite_score(
    score: int,
    time_saved: int,
    confidence: Confidence,
    risk: RiskCategory,
) -> int {
    let base = product(score, SCORE_SHARE as int) + product(time_saved / 100, SAVING_SHARE as int);
    product(product(base, confidence_multiplier(confidence)), risk_multiplier(risk))
}

/// The composite score of an observation under the weights given.
pub open spec fn observation_score(weights: Seq<i64>, obs: ObservationView) -> int {
    composite_score(
        confidence_score(weights, obs.metrics),
        value_or_zero(obs.expected_outcome, "time_saved_min"@),
        obs.action.confidence,
        obs.action.risk,
    )
}

/// Whether item `a` stands before item `b` in a ranking: the higher score
/// first, and of two equal scores the one that came first.
pub open spec fn ranks_before(scores: Seq<i64>, a: int, b: int) -> bool {
    scores[a] > scores[b] || (scores[a] == scores[b] && a < b)
}

/// Whether `order` lists every position of `scores` once, best first.
pub open spec fn is_ranking(order: Seq<usize>, scores: Seq<i64>) -> bool {
    &&& order.len() == scores.len()
    &&& forall|i: int| 0 <= i < order.len() ==> 0 <= #[trigger] order[i] < scores.len()
    &&& forall|i: int, j: int|
        0 <= i < j < order.len() ==> ranks_before(scores, #[trigger] order[i] as int, #[trigger] order[j] as int)
}

/// Every position of the scores stands somewhere in a ranking of them.
pub proof fn lemma_ranking_holds_all(order: Seq<usize>, scores: Seq<i64>, position: int)
    requires
        is_ranking(order, scores),
        0 <= position < scores.len(),
    ensures
        exists|p: int| 0 <= p < order.len() && #[trigger] order[p] == position,
{
    let n = scores.len() as int;
    let places = Seq::new(order.len(), |i: int| order[i] as int);
    assert forall|i: int, j: int| 0 <= i < places.len() && 0 <= j < places.len() && i != j implies places[i]
        != places[j] by {
        if i < j {
            assert(ranks_before(scores, order[i] as int, order[j] as int));
        } else {
            assert(ranks_before(scores, order[j] as int, order[i] as int));
        }
    }
    places.unique_seq_to_set();
    vstd::seq_lib::seq_to_set_is_finite(places);
    vstd::set_lib::lemma_int_range(0, n);
    assert forall|v: int| places.to_set().contains(v) implies vstd::set_lib::set_int_range(
        0,
        n,
    ).contains(v) by {
        let i = choose|i: int| 0 <= i < places.len() && places[i] == v;
        assert(0 <= order[i] < scores.len());
    }
    vstd::set_lib::lemma_subset_equality(places.to_set(), vstd::set_lib::set_int_range(0, n));
    assert(vstd::set_lib::set_int_range(0, n).contains(position));
    assert(places.to_set().contains(position));
    let p = choose|p: int| 0 <= p < places.len() && places[p] == position;
    assert(order[p] == position);
}

/// Two rankings of the same scores agree at every place.
proof fn lemma_rankings_agree_at(a: Seq<usize>, b: Seq<usize>, scores: Seq<i64>, p: int)
    requires
        is_ranking(a, scores),
        is_ranking(b, scores),
        0 <= p < scores.len(),
    ensures
        a[p] == b[p],
    decreases p,
{
    assert forall|q: int| 0 <= q < p implies a[q] == b[q] by {
        lemma_rankings_agree_at(a, b, scores, q);
    }
    if a[p] != b[p] {
        lemma_ranking_holds_all(b, scores, a[p] as int);
        let q = choose|q: int| 0 <= q < b.len() && #[trigger] b[q] == a[p] as int;
        lemma_ranking_holds_all(a, scores, b[p] as int);
        let r = choose|r: int| 0 <= r < a.len() && #[trigger] a[r] == b[p] as int;
        if q < p {
            assert(a[q] == b[q]);
            assert(ranks_before(scores, a[q] as int, a[p] as int));
        } else if r < p {
            assert(a[r] == b[r]);
            assert(ranks_before(scores, b[r] as int, b[p] as int));
        } else {
            assert(ranks_before(scores, b[p] as int, b[q] as int));
            assert(ranks_before(scores, a[p] as int, a[r] as int));
        }
    }
}

/// Scores have one ranking and no other: the order of a ranking is decided by
/// the scores alone.
pub proof fn lemma_ranking_is_unique(a: Seq<usize>, b: Seq<usize>, scores: Seq<i64>)
    requires
        is_ranking(a, scores),
        is_ranking(b, scores),
    ensures
        a == b,
{
    assert forall|p: int| 0 <= p < a.len() implies a[p] == b[p] by {
        lemma_rankings_agree_at(a, b, scores, p);
    }
    assert(a =~= b);
}

/// The positions of `scores`, best first; equal scores keep their order.
pub fn ranking_of(scores: &Vec<i64>) -> (order: Vec<usize>)
    ensures
        is_ranking(order@, scores@),
{
    let mut order: Vec<usize> = Vec::new();
    let mut k: usize = 0;
    while k < scores.len()
        invariant
            k <= scores.len(),
            order@.len() == k,
            forall|i: int| 0 <= i < order@.len() ==> 0 <= #[trigger] order@[i] < k,
            forall|i: int, j: int|
                0 <= i < j < order@.len() ==> ranks_before(
                    scores@,
                    #[trigger] order@[i] as int,
                    #[trigger] order@[j] as int,
                ),
        decreases scores.len() - k,
    {
        let mut p: usize = order.len();
        loop
            invariant
                p <= order@.len(),
                order@.len() == k,
                k < scores.len(),
                forall|i: int| 0 <= i < order@.len() ==> 0 <= #[trigger] order@[i] < k,
                forall|j: int| p <= j < order@.len() ==> scores@[#[trigger] order@[j] as int] < scores@[k as int],
            ensures
                p <= order@.len(),
                p > 0 ==> scores@[order@[p - 1] as int] >= scores@[k as int],
                forall|j: int| p <= j < order@.len() ==> scores@[#[trigger] order@[j] as int] < scores@[k as int],
            decreases p,
        {
            if p == 0 {
                break;
            }
            if scores[order[p - 1]] >= scores[k] {
                break;
            }
            p -= 1;
        }
        let ghost before = order@;
        order.insert(p, k);
        proof {
            assert forall|i: int, j: int| 0 <= i < j < order@.len() implies ranks_before(
                scores@,
                #[trigger] order@[i] as int,
                #[trigger] order@[j] as int,
            ) by {
                if j < p {
                    assert(order@[i] == before[i] && order@[j] == before[j]);
                } else if j == p {
                    assert(order@[i] == before[i]);
                    if i < p - 1 {
                        assert(ranks_before(scores@, before[i] as int, before[p - 1] as int));
                    }
                } else if i < p {
                    assert(order@[i] == before[i] && order@[j] == before[j - 1]);
                } else if i == p {
                    assert(order@[j] == before[j - 1]);
                } else {
                    assert(order@[i] == before[i - 1] && order@[j] == before[j - 1]);
                }
            }
            assert forall|i: int| 0 <= i < order@.len() implies 0 <= #[trigger] order@[i] < k
                + 1 by {
                if i < p {
                    assert(order@[i] == before[i]);
                } else if i > p {
                    assert(order@[i] == before[i - 1]);
                }
            }
        }
        k += 1;
    }
    order
}

/// Tells patterns apart by weighted metrics.
pub struct PatternDetector {
    weights: StrMap<i64>,
}

impl PatternDetector {
    /// The weights, in the order of `feature_names`.
    pub closed spec fn weights(&self) -> Seq<i64> {
        self.weights.values()
    }

    /// There is one weight for each of the four names, in their order.
    #[verifier::type_invariant]
    pub closed spec fn wf(self) -> bool {
        &&& self.weights.wf()
        &&& self.weights.keys() == feature_names()
    }

    /// A detector with the initial weights.
    pub fn new() -> (r: Self)
        ensures
            r.weights() == initial_weights(),
    {
        let mut weights: StrMap<i64> = StrMap::new();
        proof {
            reveal_strlit("repeat_count");
            reveal_strlit("time_to_first_code_min");
            reveal_strlit("context_switch_count");
            reveal_strlit("focus_fragmentation_pct");
            assert("repeat_count"@.len() == 12);
            assert("time_to_first_code_min"@.len() == 22);
            assert("context_switch_count"@.len() == 20);
            assert("focus_fragmentation_pct"@.len() == 23);
        }
        weights.insert("repeat_count".to_string(), 300_000);
        assert(weights.keys() =~= seq!["repeat_count"@]);
        proof {
            weights.lemma_absent("time_to_first_code_min"@);
        }
        weights.insert("time_to_first_code_min".to_string(), 200_000);
        assert(weights.keys() =~= seq!["repeat_count"@, "time_to_first_code_min"@]);
        proof {
            weights.lemma_absent("context_switch_count"@);
        }
        weights.insert("context_switch_count".to_string(), 250_000);
        assert(weights.keys() =~= seq![
            "repeat_count"@,
            "time_to_first_code_min"@,
            "context_switch_count"@,
        ]);
        proof {
            weights.lemma_absent("focus_fragmentation_pct"@);
        }
        weights.insert("focus_fragmentation_pct".to_string(), 250_000);
        assert(weights.keys() =~= feature_names());
        assert(weights.values() =~= initial_weights());
        PatternDetector { weights }
    }

    /// How many weights there are.
    pub fn weight_count(&self) -> (n: usize)
        ensures
            n == 4,
            n == self.weights().len(),
    {
        proof {
            use_type_invariant(self);
        }
        self.weights.len()
    }

    /// The weight of the metric called `name`.
    pub fn weight(&self, name: &str) -> (r: Option<i64>)
        ensures
            match r {
                Some(w) => feature_names().contains(name@) && w == self.weights()[feature_names().index_of(
                    name@,
                )],
                None => !feature_names().contains(name@),
            },
    {
        proof {
            use_type_invariant(self);
        }
        match self.weights.position(name) {
            Some(i) => Some(*self.weights.value_at(i)),
            None => None,
        }
    }

    fn trained(self, observations: &[Observation]) -> (r: Self)
        ensures
            r.weights() == self.weights().update(
                0,
                trained_weight(self.weights()[0] as int, observations@, observations@.len() as int) as i64,
            ),
    {
        proof {
            use_type_invariant(&self);
        }
        let ghost start = self.weights();
        let PatternDetector { weights } = self;
        let mut weights = weights;
        let mut i: usize = 0;
        assert(weights.values() =~= start.update(0, start[0]));
        while i < observations.len()
            invariant
                i <= observations.len(),
                weights.wf(),
                weights.keys() == feature_names(),
                start.len() == 4,
                weights.values() == start.update(
                    0,
                    trained_weight(start[0] as int, observations@, i as int) as i64,
                ),
                trained_weight(start[0] as int, observations@, i as int) == trained_weight(
                    start[0] as int,
                    observations@,
                    i as int,
                ) as i64,
            decreases observations.len() - i,
        {
            if lookup_or_zero(&observations[i].metrics, "repeat_count") > FIVE {
                let current = *weights.value_at(0);
                let raised = saturate(times(current, TRAINING_FACTOR));
                weights.replace_at(0, raised);
                assert(weights.values() =~= start.update(0, raised));
            }
            i += 1;
        }
        PatternDetector { weights }
    }

    /// Raises the weight of repetition by a tenth for every observation whose
    /// `repeat_count` exceeds five. Nothing brings the weights back down:
    /// repeated training only ever inflates this one.
    pub fn train(&mut self, observations: &[Observation])
        ensures
            final(self).weights() == old(self).weights().update(
                0,
                trained_weight(
                    old(self).weights()[0] as int,
                    observations@,
                    observations@.len() as int,
                ) as i64,
            ),
    {
        let mut taken = PatternDetector::new();
        core::mem::swap(self, &mut taken);
        *self = taken.trained(observations);
    }

    /// The pattern that `observation` shows.
    pub fn detect_pattern(&self, observation: &Observation) -> (r: PatternType)
        ensures
            r == detected_pattern(observation@),
    {
        let repeat_count = lookup_or_zero(&observation.metrics, "repeat_count");
        let context_switches = lookup_or_zero(&observation.metrics, "context_switch_count");
        let fragmentation = lookup_or_zero(&observation.metrics, "focus_fragmentation_pct");
        if repeat_count > FIVE && observation.observation.len() >= 3 {
            PatternType::WorkflowSequence
        } else if contains_token(&observation.observation, "copy_error") {
            PatternType::DebuggingLoop
        } else if context_switches > FIVE || fragmentation > FIFTY {
            PatternType::ContextSwitching
        } else {
            PatternType::TimingVariance
        }
    }

    /// The pattern score of `observation`, from zero to one.
    pub fn score_confidence(&self, observation: &Observation) -> (r: i64)
        ensures
            r == confidence_score(self.weights(), observation@.metrics),
            0 <= r <= SCALE,
    {
        proof {
            use_type_invariant(self);
        }
        let mut sum: i128 = 0;
        let mut i: usize = 0;
        while i < 4
            invariant
                i <= 4,
                self.weights.wf(),
                self.weights.keys() == feature_names(),
                sum == weighted_sum(self.weights(), observation@.metrics, i as int),
                -(i as int) * 0x800_0000_0000_0000_0000_0000_0000 <= sum <= (i as int)
                    * 0x800_0000_0000_0000_0000_0000_0000,
            decreases 4 - i,
        {
            let name = self.weights.key_at(i);
            let weight = *self.weights.value_at(i);
            let value = lookup_or_zero(&observation.metrics, name.as_str());
            sum = sum + times(value, weight);
            i += 1;
        }
        clamp_unit(div_floor(sum, 100))
    }
}

impl Default for PatternDetector {
    fn default() -> (r: Self)
        ensures
            r.weights() == initial_weights(),
    {
        PatternDetector::new()
    }
}

/// What confidence multiplies a composite score by.
pub fn multiplier_of_confidence(confidence: Confidence) -> (r: i64)
    ensures
        r == confidence_multiplier(confidence),
{
    match confidence {
        Confidence::High => 1_000_000,
        Confidence::Medium => 700_000,
        Confidence::Low => 400_000,
    }
}

/// What risk multiplies a composite score by.
pub fn multiplier_of_risk(risk: RiskCategory) -> (r: i64)
    ensures
        r == risk_multiplier(risk),
{
    match risk {
        RiskCategory::NoRisk => 1_000_000,
        RiskCategory::Low => 800_000,
        RiskCategory::High => 300_000,
    }
}

/// The composite score of a pattern score and an expected saving under the
/// multipliers of `confidence` and `risk`.
pub fn composite(score: i64, time_saved: i64, confidence: Confidence, risk: RiskCategory) -> (r: i64)
    requires
        0 <= score <= SCALE,
    ensures
        r == composite_score(score as int, time_saved as int, confidence, risk),
{
    let hundredth = div_floor(time_saved as i128, 100);
    proof {
        crate::fixed::lemma_quotient_bounds(
            time_saved as int,
            100,
            -92_233_720_368_547_759,
            92_233_720_368_547_759,
        );
        lemma_product_shrinks(score as int, SCORE_SHARE as int);
        lemma_product_shrinks(hundredth as int, SAVING_SHARE as int);
    }
    let hundredth: i64 = hundredth as i64;
    let base: i128 = times(score, SCORE_SHARE) + times(hundredth, SAVING_SHARE);
    let base: i64 = base as i64;
    proof {
        lemma_product_shrinks(base as int, confidence_multiplier(confidence));
    }
    let with_confidence: i64 = times(base, multiplier_of_confidence(confidence)) as i64;
    proof {
        lemma_product_shrinks(with_confidence as int, risk_multiplier(risk));
    }
    times(with_confidence, multiplier_of_risk(risk)) as i64
}

/// The composite score of each observation under the weights given.
pub open spec fn scores_of(weights: Seq<i64>, observations: Seq<Observation>) -> Seq<i64> {
    Seq::new(observations.len(), |i: int| observation_score(weights, observations[i]@) as i64)
}

/// Whether `ranked` holds the observations in the order given, each with its
/// score.
pub open spec fn ranked_by(
    ranked: Seq<(Observation, i64)>,
    observations: Seq<Observation>,
    scores: Seq<i64>,
    order: Seq<usize>,
) -> bool {
    &&& ranked.len() == order.len()
    &&& forall|i: int|
        0 <= i < ranked.len() ==> {
            &&& (#[trigger] ranked[i]).0@ == observations[order[i] as int]@
            &&& ranked[i].1 == scores[order[i] as int]
        }
}

/// Orders proposals by what they are expected to be worth.
pub struct RecommendationRanker {
    pattern_detector: PatternDetector,
}

impl RecommendationRanker {
    /// The weights of the detector that scores patterns.
    pub closed spec fn weights(&self) -> Seq<i64> {
        self.pattern_detector.weights()
    }

    /// A ranker whose detector has the initial weights.
    pub fn new() -> (r: Self)
        ensures
            r.weights() == initial_weights(),
    {
        RecommendationRanker { pattern_detector: PatternDetector::new() }
    }

    /// The composite score of `observation`.
    pub fn score(&self, observation: &Observation) -> (r: i64)
        ensures
            r == observation_score(self.weights(), observation@),
    {
        let pattern_score = self.pattern_detector.score_confidence(observation);
        let time_saved = lookup_or_zero(&observation.expected_outcome, "time_saved_min");
        composite(
            pattern_score,
            time_saved,
            observation.action.confidence,
            observation.action.risk,
        )
    }

    /// The observations with their composite scores, highest score first;
    /// observations with the same score stay in the order in which they came.
    pub fn rank_actions(&self, observations: &[Observation]) -> (ranked: Vec<(Observation, i64)>)
        ensures
            ranked@.len() == observations@.len(),
            exists|order: Seq<usize>|
                {
                    &&& is_ranking(order, scores_of(self.weights(), observations@))
                    &&& #[trigger] ranked_by(
                        ranked@,
                        observations@,
                        scores_of(self.weights(), observations@),
                        order,
                    )
                },
    {
        let mut scores: Vec<i64> = Vec::new();
        let mut i: usize = 0;
        while i < observations.len()
            invariant
                i <= observations.len(),
                scores@.len() == i,
                forall|j: int|
                    0 <= j < i ==> #[trigger] scores@[j] == observation_score(
                        self.weights(),
                        observations@[j]@,
                    ),
            decreases observations.len() - i,
        {
            scores.push(self.score(&observations[i]));
            i += 1;
        }
        assert(scores@ =~= scores_of(self.weights(), observations@));
        let order = ranking_of(&scores);
        let mut ranked: Vec<(Observation, i64)> = Vec::new();
        let mut k: usize = 0;
        while k < order.len()
            invariant
                k <= order.len(),
                ranked@.len() == k,
                is_ranking(order@, scores@),
                scores@.len() == observations@.len(),
                forall|j: int|
                    0 <= j < k ==> {
                        &&& (#[trigger] ranked@[j]).0@ == observations@[order@[j] as int]@
                        &&& ranked@[j].1 == scores@[order@[j] as int]
                    },
            decreases order.len() - k,
        {
            let at = order[k];
            ranked.push((observations[at].clone(), scores[at]));
            k += 1;
        }
        assert(ranked_by(ranked@, observations@, scores_of(self.weights(), observations@), order@));
        ranked
    }

    /// Trains the detector on `observations`.
    pub fn train(&mut self, observations: &[Observation])
        ensures
            final(self).weights() == old(self).weights().update(
                0,
                trained_weight(
                    old(self).weights()[0] as int,
                    observations@,
                    observations@.len() as int,
                ) as i64,
            ),
    {
        self.pattern_detector.train(observations);
    }
}

impl Default for RecommendationRanker {
    fn default() -> (r: Self)
        ensures
            r.weights() == initial_weights(),
    {
        RecommendationRanker::new()
    }
}

} // verus!
