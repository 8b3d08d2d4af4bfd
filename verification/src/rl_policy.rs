//! The policy: for each kind of situation, a running estimate of what the
//! action taken there is worth, moved towards each reward as it comes in.
//!
//! The estimate is a moving average of immediate rewards. There is no term
//! for what follows a state, and the discount factor is held but never read.

use vstd::prelude::*;
use crate::clock::random_below;
use crate::fixed::{div_floor, product, scale_by, times, SCALE};
use crate::strmap::{placed_keys, placed_values, StrMap};
use crate::text::join2;
use crate::types::{Action, Intent, Observation, Outcome, UserProfile};

verus! {

/// The reward for an accepted suggestion (10).
pub const ACCEPTED_REWARD: i64 = 10_000_000;

/// The penalty for an ignored suggestion (2).
pub const IGNORED_PENALTY: i64 = 2_000_000;

/// The reward per minute saved (0.5).
pub const MINUTE_REWARD: i64 = 500_000;

/// The reward for a falling error rate (5).
pub const ERROR_REDUCTION_REWARD: i64 = 5_000_000;

/// The learning rate of a new policy (0.1).
pub const LEARNING_RATE: i64 = 100_000;

/// The discount factor of a new policy (0.9).
pub const DISCOUNT_FACTOR: i64 = 900_000;

/// The exploration rate of a new policy (0.1).
pub const EPSILON: i64 = 100_000;

/// What is known of one kind of situation: the action last taken there, what
/// it is estimated to be worth, and how often the estimate was updated.
#[derive(Debug)]
pub struct PolicyAction {
    pub action: Action,
    pub q_value: i64,
    pub visit_count: usize,
}

impl Clone for PolicyAction {
    fn clone(&self) -> (r: Self)
        ensures
            r == *self,
    {
        PolicyAction {
            action: self.action.clone(),
            q_value: self.q_value,
            visit_count: self.visit_count,
        }
    }
}

/// Figures on a policy.
#[derive(Clone, Copy, Debug)]
pub struct PolicyStatistics {
    pub total_states: usize,
    pub avg_q_value: i64,
    pub learning_rate: i64,
    pub epsilon: i64,
}

/// The name of an intent.
pub open spec fn intent_text(intent: Intent) -> Seq<char> {
    match intent {
        Intent::DetectPattern => "DetectPattern"@,
        Intent::SuggestShortcut => "SuggestShortcut"@,
        Intent::AutomateAction => "AutomateAction"@,
        Intent::MoodIntervention => "MoodIntervention"@,
    }
}

/// The name of a kind of user.
pub open spec fn profile_text(profile: UserProfile) -> Seq<char> {
    match profile {
        UserProfile::Developer => "Developer"@,
        UserProfile::Accountant => "Accountant"@,
        UserProfile::Designer => "Designer"@,
        UserProfile::Manager => "Manager"@,
        UserProfile::Student => "Student"@,
        UserProfile::Other => "Other"@,
    }
}

/// The key of the situation that an observation belongs to: its intent and
/// its kind of user, and nothing else. Observations that share both share
/// one entry of the policy.
pub open spec fn state_key(intent: Intent, profile: UserProfile) -> Seq<char> {
    intent_text(intent) + "_"@ + profile_text(profile)
}

/// The reward that an outcome earns: 10 if it was accepted, minus 2 if it was
/// ignored, plus half of the minutes saved, plus 5 if the error rate fell.
pub open spec fn reward_of(outcome: Outcome) -> int {
    (if outcome.accepted {
        ACCEPTED_REWARD as int
    } else {
        0
    }) - (if outcome.ignored {
        IGNORED_PENALTY as int
    } else {
        0
    }) + (match outcome.time_saved_minutes {
        Some(minutes) => product(minutes as int, MINUTE_REWARD as int),
        None => 0,
    }) + (match outcome.error_rate_change {
        Some(change) => if change < 0 {
            ERROR_REDUCTION_REWARD as int
        } else {
            0
        },
        None => 0,
    })
}

/// The estimate after one update: the old one, moved towards the reward by
/// the share `rate` of the distance.
pub open spec fn updated_value(old_value: int, reward: int, rate: int) -> int {
    old_value + product(reward - old_value, rate)
}

/// One more visit, up to the largest count that can be held.
pub open spec fn one_more(count: usize) -> usize {
    if count < usize::MAX {
        (count + 1) as usize
    } else {
        count
    }
}

/// The entry of a situation after an update.
pub open spec fn updated_entry(
    before: Option<PolicyAction>,
    action: Action,
    outcome: Outcome,
    rate: int,
) -> PolicyAction {
    match before {
        Some(entry) => PolicyAction {
            action,
            q_value: updated_value(entry.q_value as int, reward_of(outcome), rate) as i64,
            visit_count: one_more(entry.visit_count),
        },
        None => PolicyAction {
            action,
            q_value: updated_value(0, reward_of(outcome), rate) as i64,
            visit_count: 1,
        },
    }
}

/// The action chosen when the draw is `roll` out of a million: the proposed
/// one where the draw falls below the exploration rate, else the one known
/// for the situation, and the proposed one where none is known.
pub open spec fn selected_action(
    table: Map<Seq<char>, PolicyAction>,
    epsilon: int,
    key: Seq<char>,
    proposed: Action,
    roll: int,
) -> Action {
    if roll < epsilon {
        proposed
    } else if table.contains_key(key) {
        table[key].action
    } else {
        proposed
    }
}

/// The sum of the first `n` estimates.
pub open spec fn value_sum(entries: Seq<PolicyAction>, n: int) -> int
    decreases n,
{
    if n <= 0 {
        0
    } else {
        value_sum(entries, n - 1) + entries[n - 1].q_value
    }
}

/// The mean of the estimates, rounded down; zero where there are none.
pub open spec fn mean_value(entries: Seq<PolicyAction>) -> int {
    if entries.len() > 0 {
        value_sum(entries, entries.len() as int) / (entries.len() as int)
    } else {
        0
    }
}

/// A reward is never far from zero: it fits in an `i64`.
pub proof fn lemma_reward_bounds(outcome: Outcome)
    ensures
        -0x4000_0000_0000_0000 - 2_000_000 <= reward_of(outcome) <= 0x4000_0000_0000_0000 + 15_000_000,
{
    match outcome.time_saved_minutes {
        Some(minutes) => {
            let p = (minutes as int) * (MINUTE_REWARD as int);
            assert(-0x8000_0000_0000_0000 * 500_000 <= p <= 0x8000_0000_0000_0000 * 500_000)
                by (nonlinear_arith)
                requires
                    -0x8000_0000_0000_0000 <= minutes as int <= 0x8000_0000_0000_0000,
                    p == (minutes as int) * 500_000,
            ;
            crate::fixed::lemma_quotient_bounds(
                p,
                SCALE as int,
                -0x4000_0000_0000_0000,
                0x4000_0000_0000_0000,
            );
        },
        None => {},
    }
}

/// An update moves the estimate towards the reward and never past it.
pub proof fn lemma_update_moves_towards_reward(old_value: int, reward: int, rate: int)
    requires
        0 <= rate <= SCALE,
    ensures
        old_value <= reward ==> old_value <= updated_value(old_value, reward, rate) <= reward,
        old_value >= reward ==> reward <= updated_value(old_value, reward, rate) <= old_value,
{
    crate::fixed::lemma_product_shrinks(reward - old_value, rate);
}

/// The name of an intent.
pub fn intent_name(intent: Intent) -> (r: &'static str)
    ensures
        r@ == intent_text(intent),
{
    match intent {
        Intent::DetectPattern => "DetectPattern",
        Intent::SuggestShortcut => "SuggestShortcut",
        Intent::AutomateAction => "AutomateAction",
        Intent::MoodIntervention => "MoodIntervention",
    }
}

/// The name of a kind of user.
pub fn profile_name(profile: UserProfile) -> (r: &'static str)
    ensures
        r@ == profile_text(profile),
{
    match profile {
        UserProfile::Developer => "Developer",
        UserProfile::Accountant => "Accountant",
        UserProfile::Designer => "Designer",
        UserProfile::Manager => "Manager",
        UserProfile::Student => "Student",
        UserProfile::Other => "Other",
    }
}

/// The reward that `outcome` earns.
pub fn compute_reward(outcome: &Outcome) -> (r: i64)
    ensures
        r == reward_of(*outcome),
{
    proof {
        lemma_reward_bounds(*outcome);
    }
    let mut reward: i128 = 0;
    if outcome.accepted {
        reward = reward + 10_000_000;
    }
    if outcome.ignored {
        reward = reward - 2_000_000;
    }
    match outcome.time_saved_minutes {
        Some(minutes) => {
            reward = reward + times(minutes, MINUTE_REWARD);
        },
        None => {},
    }
    match outcome.error_rate_change {
        Some(change) => {
            if change < 0 {
                reward = reward + 5_000_000;
            }
        },
        None => {},
    }
    reward as i64
}

/// The estimate `old_value` after an update with `reward`.
pub fn update_value(old_value: i64, reward: i64, rate: i64) -> (r: i64)
    requires
        0 <= rate <= SCALE,
    ensures
        r == updated_value(old_value as int, reward as int, rate as int),
{
    proof {
        lemma_update_moves_towards_reward(old_value as int, reward as int, rate as int);
    }
    let distance: i128 = (reward as i128) - (old_value as i128);
    let step = scale_by(distance, rate);
    ((old_value as i128) + step) as i64
}

/// A table of estimates, one for each kind of situation seen.
pub struct RLPolicy {
    q_table: StrMap<PolicyAction>,
    learning_rate: i64,
    discount_factor: i64,
    epsilon: i64,
}

impl View for RLPolicy {
    type V = Map<Seq<char>, PolicyAction>;

    closed spec fn view(&self) -> Map<Seq<char>, PolicyAction> {
        self.q_table@
    }
}

impl RLPolicy {
    /// The entries, in the order in which their situations were first seen.
    pub closed spec fn entries(&self) -> Seq<PolicyAction> {
        self.q_table.values()
    }

    /// The keys of the situations seen, in the order in which they were first
    /// seen.
    pub closed spec fn states(&self) -> Seq<Seq<char>> {
        self.q_table.keys()
    }

    /// The share of the distance to the reward that one update covers.
    pub closed spec fn rate(&self) -> i64 {
        self.learning_rate
    }

    /// How often, out of a million draws, the proposed action is kept without
    /// looking at the table.
    pub closed spec fn exploration(&self) -> i64 {
        self.epsilon
    }

    /// Both rates are shares: they lie between zero and one.
    #[verifier::type_invariant]
    pub open spec fn wf(self) -> bool {
        &&& 0 <= self.rate() <= SCALE
        &&& 0 <= self.exploration() <= SCALE
    }

    /// A policy that has seen nothing, with a learning rate of 0.1 and an
    /// exploration rate of 0.1.
    pub fn new() -> (r: Self)
        ensures
            r@ == Map::<Seq<char>, PolicyAction>::empty(),
            r.states() == Seq::<Seq<char>>::empty(),
            r.entries() == Seq::<PolicyAction>::empty(),
            r.rate() == LEARNING_RATE,
            r.exploration() == EPSILON,
    {
        RLPolicy {
            q_table: StrMap::new(),
            learning_rate: LEARNING_RATE,
            discount_factor: DISCOUNT_FACTOR,
            epsilon: EPSILON,
        }
    }

    /// The key of the situation that `observation` belongs to.
    pub fn get_state_key(&self, observation: &Observation) -> (r: String)
        ensures
            r@ == state_key(observation.intent, observation.profile),
    {
        let head = join2(intent_name(observation.intent), "_");
        join2(head.as_str(), profile_name(observation.profile))
    }

    fn updated(self, observation: &Observation, outcome: &Outcome) -> (r: Self)
        ensures
            r.rate() == self.rate(),
            r.exploration() == self.exploration(),
            ({
                let key = state_key(observation.intent, observation.profile);
                let before = if self@.contains_key(key) {
                    Some(self@[key])
                } else {
                    None
                };
                &&& r@ == self@.insert(
                    key,
                    updated_entry(before, observation.action, *outcome, self.rate() as int),
                )
                &&& r.states() == placed_keys(self.states(), key)
                &&& r.entries() == placed_values(
                    self.states(),
                    self.entries(),
                    key,
                    updated_entry(before, observation.action, *outcome, self.rate() as int),
                )
            }),
    {
        proof {
            use_type_invariant(&self);
        }
        let state_key = self.get_state_key(observation);
        let reward = compute_reward(outcome);
        let (current, visits): (i64, usize) = match self.q_table.get(state_key.as_str()) {
            Some(entry) => (
                entry.q_value,
                if entry.visit_count < usize::MAX {
                    entry.visit_count + 1
                } else {
                    entry.visit_count
                },
            ),
            None => (0, 1),
        };
        let new_q = update_value(current, reward, self.learning_rate);
        let policy_action = PolicyAction {
            action: observation.action.clone(),
            q_value: new_q,
            visit_count: visits,
        };
        let RLPolicy { q_table, learning_rate, discount_factor, epsilon } = self;
        let mut q_table = q_table;
        q_table.insert(state_key, policy_action);
        RLPolicy { q_table, learning_rate, discount_factor, epsilon }
    }

    /// Moves the estimate of the situation of `observation` towards the
    /// reward that `outcome` earns, counts the visit, and notes the action of
    /// `observation` as the one known for the situation.
    pub fn update_from_outcome(&mut self, observation: &Observation, outcome: &Outcome)
        ensures
            final(self).rate() == old(self).rate(),
            final(self).exploration() == old(self).exploration(),
            ({
                let key = state_key(observation.intent, observation.profile);
                let before = if old(self)@.contains_key(key) {
                    Some(old(self)@[key])
                } else {
                    None
                };
                &&& final(self)@ == old(self)@.insert(
                    key,
                    updated_entry(before, observation.action, *outcome, old(self).rate() as int),
                )
                &&& final(self).states() == placed_keys(old(self).states(), key)
                &&& final(self).entries() == placed_values(
                    old(self).states(),
                    old(self).entries(),
                    key,
                    updated_entry(before, observation.action, *outcome, old(self).rate() as int),
                )
            }),
    {
        let mut taken = RLPolicy::new();
        core::mem::swap(self, &mut taken);
        *self = taken.updated(observation, outcome);
    }

    /// The action chosen for `observation` when the draw is `roll` out of a
    /// million.
    pub fn select_action_with(&self, observation: &Observation, roll: u64) -> (r: Action)
        ensures
            r == selected_action(
                self@,
                self.exploration() as int,
                state_key(observation.intent, observation.profile),
                observation.action,
                roll as int,
            ),
    {
        proof {
            use_type_invariant(self);
        }
        let state_key = self.get_state_key(observation);
        if roll < self.epsilon as u64 {
            observation.action.clone()
        } else {
            match self.q_table.get(state_key.as_str()) {
                Some(entry) => entry.action.clone(),
                None => observation.action.clone(),
            }
        }
    }

    /// Draws a number below a million and chooses by it: with the
    /// probability of the exploration rate the proposed action is kept,
    /// otherwise the action known for the situation is taken, or the proposed
    /// one where none is known.
    pub fn select_action(&self, observation: &Observation) -> (r: Action)
        ensures
            exists|roll: int|
                0 <= roll < SCALE && r == #[trigger] selected_action(
                    self@,
                    self.exploration() as int,
                    state_key(observation.intent, observation.profile),
                    observation.action,
                    roll,
                ),
            r == observation.action || (self@.contains_key(
                state_key(observation.intent, observation.profile),
            ) && r == self@[state_key(observation.intent, observation.profile)].action),
    {
        let roll = random_below(1_000_000);
        self.select_action_with(observation, roll)
    }

    /// The entry of the situation under `key`.
    pub fn get_entry(&self, key: &str) -> (r: Option<&PolicyAction>)
        ensures
            match r {
                Some(entry) => self@.contains_key(key@) && *entry == self@[key@],
                None => !self@.contains_key(key@),
            },
    {
        self.q_table.get(key)
    }

    /// The number of situations seen, the mean of their estimates, and the
    /// two rates.
    pub fn get_statistics(&self) -> (r: PolicyStatistics)
        ensures
            r.total_states == self.entries().len(),
            r.total_states == self.states().len(),
            r.total_states == self@.dom().len(),
            r.avg_q_value == mean_value(self.entries()),
            r.learning_rate == self.rate(),
            r.epsilon == self.exploration(),
    {
        proof {
            use_type_invariant(&self.q_table);
            self.q_table.lemma_len();
        }
        let total_states = self.q_table.len();
        let mut sum: i128 = 0;
        let mut i: usize = 0;
        while i < total_states
            invariant
                i <= total_states,
                total_states == self.entries().len(),
                sum == value_sum(self.entries(), i as int),
                -(i as int) * 0x8000_0000_0000_0000 <= sum <= (i as int) * 0x7fff_ffff_ffff_ffff,
            decreases total_states - i,
        {
            sum = sum + (self.q_table.value_at(i).q_value as i128);
            i += 1;
        }
        let avg_q_value: i64 = if total_states > 0 {
            proof {
                crate::fixed::lemma_quotient_bounds(
                    sum as int,
                    total_states as int,
                    -0x8000_0000_0000_0000,
                    0x7fff_ffff_ffff_ffff,
                );
            }
            div_floor(sum, total_states as i128) as i64
        } else {
            0
        };
        PolicyStatistics {
            total_states,
            avg_q_value,
            learning_rate: self.learning_rate,
            epsilon: self.epsilon,
        }
    }
}

impl Default for RLPolicy {
    fn default() -> (r: Self)
        ensures
            r@ == Map::<Seq<char>, PolicyAction>::empty(),
            r.states() == Seq::<Seq<char>>::empty(),
            r.entries() == Seq::<PolicyAction>::empty(),
            r.rate() == LEARNING_RATE,
            r.exploration() == EPSILON,
    {
        RLPolicy::new()
    }
}

} // verus!
