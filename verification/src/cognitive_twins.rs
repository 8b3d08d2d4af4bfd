//! Cognitive twins: for each user a model of their behaviour and a coach that
//! suits their profile.

use vstd::prelude::*;
use crate::clock::now_timestamp;
use crate::strmap::{clone_numbers, listed, placed_keys, value_views, view_map, StrMap};
use crate::text::join2;
use crate::types::{Observation, UserProfile};
use crate::wisdom::{initial_template, insight_text, WisdomEngine};

verus! {

/// How many profiles have a coach of their own.
pub const COACH_COUNT: usize = 3;

/// The twin of a user. The model holds fixed-point numbers.
#[derive(Debug)]
pub struct CognitiveTwin {
    pub user_id: String,
    pub persona: UserProfile,
    pub wisdom_engine: WisdomEngine,
    pub behavioral_model: StrMap<i64>,
    pub created_at: i64,
}

/// What a twin holds.
pub struct CognitiveTwinView {
    pub user_id: Seq<char>,
    pub persona: UserProfile,
    pub template: Seq<char>,
    pub behavioral_model: Map<Seq<char>, i64>,
    pub created_at: i64,
}

impl View for CognitiveTwin {
    type V = CognitiveTwinView;

    open spec fn view(&self) -> CognitiveTwinView {
        CognitiveTwinView {
            user_id: self.user_id@,
            persona: self.persona,
            template: self.wisdom_engine.template(),
            behavioral_model: self.behavioral_model@,
            created_at: self.created_at,
        }
    }
}

impl Clone for CognitiveTwin {
    fn clone(&self) -> (r: Self)
        ensures
            r@ == self@,
    {
        CognitiveTwin {
            user_id: self.user_id.clone(),
            persona: self.persona,
            wisdom_engine: self.wisdom_engine.clone(),
            behavioral_model: clone_numbers(&self.behavioral_model),
            created_at: self.created_at,
        }
    }
}

/// The coach of a profile, for those that have one.
pub open spec fn coach_text(persona: UserProfile) -> Option<Seq<char>> {
    match persona {
        UserProfile::Developer => Some(
            "Developer Coach: Focuses on code quality, debugging efficiency, and technical workflow optimization."@,
        ),
        UserProfile::Manager => Some(
            "Manager Coach: Emphasizes team coordination, decision-making clarity, and strategic focus."@,
        ),
        UserProfile::Designer => Some(
            "Creative Coach: Supports creative flow, design iteration, and visual workflow optimization."@,
        ),
        _ => None,
    }
}

/// The coach that speaks to a profile: its own, or the general one.
pub open spec fn coach_or_general(persona: UserProfile) -> Seq<char> {
    match coach_text(persona) {
        Some(coach) => coach,
        None => "General coach"@,
    }
}

/// The twin made at `now`: its engine is new and its model is empty.
pub open spec fn new_twin(user_id: Seq<char>, persona: UserProfile, now: i64) -> CognitiveTwinView {
    CognitiveTwinView {
        user_id,
        persona,
        template: initial_template(),
        behavioral_model: Map::empty(),
        created_at: now,
    }
}

/// A model after the first `n` of the metrics given were written into it.
pub open spec fn merged(
    model: Map<Seq<char>, i64>,
    names: Seq<Seq<char>>,
    values: Seq<i64>,
    n: int,
) -> Map<Seq<char>, i64>
    decreases n,
{
    if n <= 0 {
        model
    } else {
        merged(model, names, values, n - 1).insert(names[n - 1], values[n - 1])
    }
}

/// The insight that the coach of a profile gives on an observation.
pub open spec fn persona_insight(persona: UserProfile, observation: Observation) -> Seq<char> {
    "["@ + coach_or_general(persona) + "] "@ + insight_text(observation@)
}

/// What each twin holds, by user.
pub open spec fn twin_views(twins: Map<Seq<char>, CognitiveTwin>) -> Map<
    Seq<char>,
    CognitiveTwinView,
> {
    view_map(twins)
}

/// The coach of a profile, for those that have one.
pub fn coach_for(persona: UserProfile) -> (r: Option<&'static str>)
    ensures
        match r {
            Some(coach) => coach_text(persona) == Some(coach@),
            None => coach_text(persona) is None,
        },
{
    match persona {
        UserProfile::Developer => Some(
            "Developer Coach: Focuses on code quality, debugging efficiency, and technical workflow optimization.",
        ),
        UserProfile::Manager => Some(
            "Manager Coach: Emphasizes team coordination, decision-making clarity, and strategic focus.",
        ),
        UserProfile::Designer => Some(
            "Creative Coach: Supports creative flow, design iteration, and visual workflow optimization.",
        ),
        _ => None,
    }
}

/// Keeps the twins.
pub struct CognitiveTwinManager {
    twins: StrMap<CognitiveTwin>,
}

impl View for CognitiveTwinManager {
    type V = Map<Seq<char>, CognitiveTwinView>;

    closed spec fn view(&self) -> Map<Seq<char>, CognitiveTwinView> {
        twin_views(self.twins@)
    }
}

impl CognitiveTwinManager {
    /// The users who have a twin, in the order in which they were first given
    /// one.
    pub closed spec fn twin_ids(&self) -> Seq<Seq<char>> {
        self.twins.keys()
    }

    /// The twins in the order in which their users were first given one.
    pub open spec fn twin_list(&self) -> Seq<CognitiveTwinView> {
        listed(self@, self.twin_ids())
    }

    /// A manager without twins.
    pub fn new() -> (r: Self)
        ensures
            r@ == Map::<Seq<char>, CognitiveTwinView>::empty(),
            r.twin_ids() == Seq::<Seq<char>>::empty(),
    {
        let r = CognitiveTwinManager { twins: StrMap::new() };
        assert(r@ =~= Map::<Seq<char>, CognitiveTwinView>::empty());
        r
    }

    /// How many twins there are.
    pub fn twin_count(&self) -> (n: usize)
        ensures
            n == self.twin_ids().len(),
    {
        self.twins.len()
    }

    /// How many profiles have a coach of their own.
    pub fn coach_count(&self) -> (n: usize)
        ensures
            n == COACH_COUNT,
    {
        COACH_COUNT
    }

    /// Makes a twin as if the clock read `now`. A user who has one gets a new
    /// one in its place.
    pub fn create_twin_at(&mut self, user_id: String, persona: UserProfile, now: i64) -> (r:
        CognitiveTwin)
        ensures
            r@ == new_twin(user_id@, persona, now),
            final(self)@ == old(self)@.insert(user_id@, r@),
            final(self).twin_ids() == placed_keys(old(self).twin_ids(), user_id@),
    {
        let twin = CognitiveTwin {
            user_id: user_id.clone(),
            persona,
            wisdom_engine: WisdomEngine::new(),
            behavioral_model: StrMap::new(),
            created_at: now,
        };
        let stored = twin.clone();
        self.twins.insert(user_id, stored);
        assert(self@ =~= old(self)@.insert(user_id@, twin@));
        twin
    }

    /// Makes a twin for `user_id` with a new engine and an empty model,
    /// stamped with the time the clock reads.
    pub fn create_twin(&mut self, user_id: String, persona: UserProfile) -> (r: CognitiveTwin)
        ensures
            exists|now: i64| r@ == #[trigger] new_twin(user_id@, persona, now),
            final(self)@ == old(self)@.insert(user_id@, r@),
            final(self).twin_ids() == placed_keys(old(self).twin_ids(), user_id@),
    {
        let now = now_timestamp();
        self.create_twin_at(user_id, persona, now)
    }

    /// The twin of `user_id`.
    pub fn get_twin(&self, user_id: &str) -> (r: Option<&CognitiveTwin>)
        ensures
            match r {
                Some(twin) => self@.contains_key(user_id@) && twin@ == self@[user_id@],
                None => !self@.contains_key(user_id@),
            },
    {
        self.twins.get(user_id)
    }

    /// Writes the metrics of `observation` into the model of the twin of
    /// `user_id`, each under its name. Nothing happens where there is no twin.
    pub fn update_behavioral_model(&mut self, user_id: &str, observation: &Observation)
        ensures
            final(self).twin_ids() == old(self).twin_ids(),
            final(self)@ == if old(self)@.contains_key(user_id@) {
                old(self)@.insert(
                    user_id@,
                    CognitiveTwinView {
                        behavioral_model: merged(
                            old(self)@[user_id@].behavioral_model,
                            observation.metrics.keys(),
                            observation.metrics.values(),
                            observation.metrics.keys().len() as int,
                        ),
                        ..old(self)@[user_id@]
                    },
                )
            } else {
                old(self)@
            },
    {
        match self.twins.position(user_id) {
            Some(at) => {
                let mut twin = self.twins.value_at(at).clone();
                let ghost start = twin.behavioral_model@;
                let n = observation.metrics.len();
                let mut i: usize = 0;
                while i < n
                    invariant
                        i <= n,
                        n == observation.metrics.keys().len(),
                        n == observation.metrics.values().len(),
                        twin.user_id@ == old(self)@[user_id@].user_id,
                        twin.persona == old(self)@[user_id@].persona,
                        twin.wisdom_engine.template() == old(self)@[user_id@].template,
                        twin.created_at == old(self)@[user_id@].created_at,
                        twin.behavioral_model@ == merged(
                            start,
                            observation.metrics.keys(),
                            observation.metrics.values(),
                            i as int,
                        ),
                    decreases n - i,
                {
                    let name = observation.metrics.key_at(i).clone();
                    let value = *observation.metrics.value_at(i);
                    twin.behavioral_model.insert(name, value);
                    i += 1;
                }
                self.twins.replace_at(at, twin);
                assert(self@ =~= old(self)@.insert(user_id@, twin@));
            },
            None => {},
        }
    }

    /// The insight that the coach of the twin of `user_id` gives on
    /// `observation`: the coach in square brackets, then the insight.
    pub fn get_persona_insight(&self, user_id: &str, observation: &Observation) -> (r: Option<String>)
        ensures
            match r {
                Some(text) => self@.contains_key(user_id@) && text@ == persona_insight(
                    self@[user_id@].persona,
                    *observation,
                ),
                None => !self@.contains_key(user_id@),
            },
    {
        match self.twins.get(user_id) {
            Some(twin) => {
                let coach_desc = match coach_for(twin.persona) {
                    Some(coach) => coach,
                    None => "General coach",
                };
                let insight = twin.wisdom_engine.generate_insight(observation, coach_desc);
                let a = join2("[", coach_desc);
                let b = join2(a.as_str(), "] ");
                Some(join2(b.as_str(), insight.as_str()))
            },
            None => None,
        }
    }

    /// The twins, in the order in which their users were first given one.
    pub fn list_twins(&self) -> (r: Vec<&CognitiveTwin>)
        ensures
            r@.len() == self.twin_list().len(),
            forall|i: int| 0 <= i < r@.len() ==> (#[trigger] r@[i])@ == self.twin_list()[i],
    {
        let mut r: Vec<&CognitiveTwin> = Vec::new();
        let mut i: usize = 0;
        let n = self.twins.len();
        proof {
            use_type_invariant(&self.twins);
            self.twins.lemma_listed_views();
        }
        while i < n
            invariant
                i <= n,
                n == self.twin_list().len(),
                n == self.twins.values().len(),
                self.twin_list() == value_views(self.twins.values()),
                r@.len() == i,
                forall|j: int| 0 <= j < i ==> (#[trigger] r@[j])@ == self.twin_list()[j],
            decreases n - i,
        {
            r.push(self.twins.value_at(i));
            i += 1;
        }
        r
    }
}

impl Default for CognitiveTwinManager {
    fn default() -> (r: Self)
        ensures
            r@ == Map::<Seq<char>, CognitiveTwinView>::empty(),
            r.twin_ids() == Seq::<Seq<char>>::empty(),
    {
        CognitiveTwinManager::new()
    }
}

} // verus!
