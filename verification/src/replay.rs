//! Replay: a dry run weighed against what users made of earlier suggestions,
//! and the decision whether it may go ahead.

use vstd::prelude::*;
use crate::fixed::{clamp_unit, unit, SCALE};
use crate::sandbox::{passes_sandbox, SandboxRunner};
use crate::strmap::{placed_keys, placed_values, views_of, StrMap};
use crate::types::{Action, Confidence, Observation, ObservationView, Outcome, RiskCategory};

verus! {

/// The quality score before any outcome is known (0.5).
pub const BASE_QUALITY: i64 = 500_000;

/// What each accepted outcome adds to the quality score (0.1).
pub const ACCEPTED_BONUS: i64 = 100_000;

/// What each ignored outcome takes from the quality score (0.05).
pub const IGNORED_PENALTY: i64 = 50_000;

/// The quality score that must be exceeded for an action to go ahead (0.6).
pub const QUALITY_GATE: i64 = 600_000;

/// What a replay found.
#[derive(Debug)]
pub struct ReplayResult {
    pub observation_id: String,
    pub action_safe: bool,
    pub quality_score: i64,
    pub errors: Vec<String>,
    pub warnings: Vec<String>,
}

/// What a replay's result holds.
pub struct ReplayResultView {
    pub observation_id: Seq<char>,
    pub action_safe: bool,
    pub quality_score: i64,
    pub errors: Seq<Seq<char>>,
    pub warnings: Seq<Seq<char>>,
}

impl View for ReplayResult {
    type V = ReplayResultView;

    open spec fn view(&self) -> ReplayResultView {
        ReplayResultView {
            observation_id: self.observation_id@,
            action_safe: self.action_safe,
            quality_score: self.quality_score,
            errors: views_of(self.errors@),
            warnings: views_of(self.warnings@),
        }
    }
}

/// How many of the first `n` outcomes were accepted.
pub open spec fn accepted_count(outcomes: Seq<Outcome>, n: int) -> int
    decreases n,
{
    if n <= 0 {
        0
    } else {
        accepted_count(outcomes, n - 1) + if outcomes[n - 1].accepted {
            1int
        } else {
            0int
        }
    }
}

/// How many of the first `n` outcomes were ignored.
pub open spec fn ignored_count(outcomes: Seq<Outcome>, n: int) -> int
    decreases n,
{
    if n <= 0 {
        0
    } else {
        ignored_count(outcomes, n - 1) + if outcomes[n - 1].ignored {
            1int
        } else {
            0int
        }
    }
}

/// The quality score that a history of outcomes gives: 0.5, plus 0.1 for each
/// accepted and minus 0.05 for each ignored outcome, limited to the interval
/// from zero to one. Every outcome counts, whatever observation it was for.
pub open spec fn quality_of(outcomes: Seq<Outcome>) -> int {
    unit(
        BASE_QUALITY + ACCEPTED_BONUS * accepted_count(outcomes, outcomes.len() as int)
            - IGNORED_PENALTY * ignored_count(outcomes, outcomes.len() as int),
    )
}

/// Whether replay calls an action safe: its dry run passes and its risk is no
/// more than low.
pub open spec fn replay_safe(action: Action) -> bool {
    passes_sandbox(action) && action.risk.rank() <= RiskCategory::Low.rank()
}

/// The errors of a replay: one where the dry run failed.
pub open spec fn replay_errors(action: Action) -> Seq<Seq<char>> {
    if passes_sandbox(action) {
        Seq::empty()
    } else {
        seq!["Sandbox test failed"@]
    }
}

/// The warnings of a replay: one for risk above low, then one for confidence
/// below medium.
pub open spec fn replay_warnings(action: Action) -> Seq<Seq<char>> {
    let risky = if action.risk.rank() > RiskCategory::Low.rank() {
        seq!["High risk action detected"@]
    } else {
        Seq::<Seq<char>>::empty()
    };
    if action.confidence.rank() < Confidence::Medium.rank() {
        risky.push("Low confidence action"@)
    } else {
        risky
    }
}

/// The result of replaying `obs` against a history of outcomes.
pub open spec fn replay_outcome(outcomes: Seq<Outcome>, obs: ObservationView) -> ReplayResultView {
    ReplayResultView {
        observation_id: obs.id,
        action_safe: replay_safe(obs.action),
        quality_score: quality_of(outcomes) as i64,
        errors: replay_errors(obs.action),
        warnings: replay_warnings(obs.action),
    }
}

/// Whether a result lets its action go ahead: it is safe, its quality exceeds
/// 0.6, and
/// it carries no error.
pub open spec fn passes_gate(result: ReplayResultView) -> bool {
    result.action_safe && result.quality_score > QUALITY_GATE && result.errors.len() == 0
}

/// Replays proposals against the outcomes of earlier suggestions.
pub struct ReplaySimulator {
    sandbox_runner: SandboxRunner,
    historical_outcomes: StrMap<Outcome>,
}

impl View for ReplaySimulator {
    type V = Map<Seq<char>, Outcome>;

    closed spec fn view(&self) -> Map<Seq<char>, Outcome> {
        self.historical_outcomes@
    }
}

impl ReplaySimulator {
    /// The outcomes held, in the order in which their observations were first
    /// added.
    pub closed spec fn outcomes(&self) -> Seq<Outcome> {
        self.historical_outcomes.values()
    }

    /// The observations that have an outcome, in the order in which they were
    /// first added.
    pub closed spec fn observation_ids(&self) -> Seq<Seq<char>> {
        self.historical_outcomes.keys()
    }

    /// A simulator without any outcome.
    pub fn new() -> (r: Self)
        ensures
            r.outcomes() == Seq::<Outcome>::empty(),
            r.observation_ids() == Seq::<Seq<char>>::empty(),
            r@ == Map::<Seq<char>, Outcome>::empty(),
    {
        ReplaySimulator { sandbox_runner: SandboxRunner::default(), historical_outcomes: StrMap::new() }
    }

    /// How many observations have an outcome.
    pub fn outcome_count(&self) -> (n: usize)
        ensures
            n == self.outcomes().len(),
    {
        self.historical_outcomes.len()
    }

    /// The quality score that the outcomes held give.
    pub fn quality_score(&self) -> (r: i64)
        ensures
            r == quality_of(self.outcomes()),
            0 <= r <= SCALE,
    {
        let mut accepted: usize = 0;
        let mut ignored: usize = 0;
        let mut i: usize = 0;
        let n = self.historical_outcomes.len();
        while i < n
            invariant
                i <= n,
                n == self.outcomes().len(),
                accepted == accepted_count(self.outcomes(), i as int),
                ignored == ignored_count(self.outcomes(), i as int),
                accepted <= i,
                ignored <= i,
            decreases n - i,
        {
            let outcome = self.historical_outcomes.value_at(i);
            if outcome.accepted {
                accepted += 1;
            }
            if outcome.ignored {
                ignored += 1;
            }
            i += 1;
        }
        let bonus: i128 = 100_000 * (accepted as i128);
        let penalty: i128 = 50_000 * (ignored as i128);
        clamp_unit(500_000 + bonus - penalty)
    }

    /// Tries the action of `observation` in the sandbox and weighs it against
    /// the outcomes held. Nothing is changed.
    pub fn replay_action(&mut self, observation: &Observation) -> (r: ReplayResult)
        ensures
            r@ == replay_outcome(old(self).outcomes(), observation@),
            final(self).outcomes() == old(self).outcomes(),
            final(self).observation_ids() == old(self).observation_ids(),
            final(self)@ == old(self)@,
    {
        self.replay(observation)
    }

    /// Tries the action of `observation` in the sandbox and weighs it against
    /// the outcomes held.
    pub fn replay(&self, observation: &Observation) -> (r: ReplayResult)
        ensures
            r@ == replay_outcome(self.outcomes(), observation@),
    {
        let sandbox_result = self.sandbox_runner.test_automation(&observation.action);
        let quality_score = self.quality_score();
        let mut errors: Vec<String> = Vec::new();
        let mut warnings: Vec<String> = Vec::new();
        if !sandbox_result.success {
            errors.push("Sandbox test failed".to_string());
        }
        if observation.action.risk.level() > RiskCategory::Low.level() {
            warnings.push("High risk action detected".to_string());
        }
        if observation.action.confidence.level() < Confidence::Medium.level() {
            warnings.push("Low confidence action".to_string());
        }
        let r = ReplayResult {
            observation_id: observation.id.clone(),
            action_safe: sandbox_result.success && observation.action.risk.level()
                <= RiskCategory::Low.level(),
            quality_score,
            errors,
            warnings,
        };
        assert(r@.errors =~= replay_errors(observation.action));
        assert(r@.warnings =~= replay_warnings(observation.action));
        r
    }

    /// Puts `outcome` under `observation_id`, in place of the outcome that was
    /// there, if any.
    pub fn add_outcome(&mut self, observation_id: String, outcome: Outcome)
        ensures
            final(self)@ == old(self)@.insert(observation_id@, outcome),
            final(self).observation_ids() == placed_keys(old(self).observation_ids(), observation_id@),
            final(self).outcomes() == placed_values(
                old(self).observation_ids(),
                old(self).outcomes(),
                observation_id@,
                outcome,
            ),
    {
        self.historical_outcomes.insert(observation_id, outcome);
    }

    /// Replays each observation, in order. Nothing is changed.
    pub fn batch_replay(&mut self, observations: &[Observation]) -> (r: Vec<ReplayResult>)
        ensures
            r@.len() == observations@.len(),
            forall|i: int|
                0 <= i < r@.len() ==> (#[trigger] r@[i])@ == replay_outcome(
                    old(self).outcomes(),
                    observations@[i]@,
                ),
            final(self).outcomes() == old(self).outcomes(),
            final(self).observation_ids() == old(self).observation_ids(),
            final(self)@ == old(self)@,
    {
        let mut r: Vec<ReplayResult> = Vec::new();
        let mut i: usize = 0;
        while i < observations.len()
            invariant
                i <= observations.len(),
                r@.len() == i,
                forall|j: int|
                    0 <= j < i ==> (#[trigger] r@[j])@ == replay_outcome(
                        self.outcomes(),
                        observations@[j]@,
                    ),
            decreases observations.len() - i,
        {
            r.push(self.replay(&observations[i]));
            i += 1;
        }
        r
    }

    /// Whether `result` lets its action go ahead. The threshold is strict: a
    /// quality of
    /// exactly 0.6 does not pass.
    pub fn gate_action(&self, result: &ReplayResult) -> (r: bool)
        ensures
            r == passes_gate(result@),
            r <==> result.action_safe && result.quality_score > QUALITY_GATE && result.errors@.len()
                == 0,
            result.quality_score == QUALITY_GATE ==> !r,
    {
        result.action_safe && result.quality_score > QUALITY_GATE && result.errors.len() == 0
    }
}

impl Default for ReplaySimulator {
    fn default() -> (r: Self)
        ensures
            r.outcomes() == Seq::<Outcome>::empty(),
            r.observation_ids() == Seq::<Seq<char>>::empty(),
            r@ == Map::<Seq<char>, Outcome>::empty(),
    {
        ReplaySimulator::new()
    }
}

} // verus!
