//! The developer interface: keys, hooks on observations, and interventions
//! that developers bring along.

use vstd::prelude::*;
use crate::clock::now_timestamp;
use crate::listing::kept;
use crate::strmap::{listed, placed_keys, StrMap};
use crate::text::{decimal, decimal_text, join2, same_text};
use crate::types::Action;

verus! {

/// What a key allows.
#[derive(Clone, Copy, Debug, PartialEq, Eq, Structural, Hash)]
pub enum APIPermission {
    ReadObservations,
    WriteInterventions,
    ReadMetrics,
    WriteHooks,
}

/// When a hook is called.
#[derive(Clone, Copy, Debug, PartialEq, Eq, Structural, Hash)]
pub enum HookType {
    OnPatternDetected,
    OnActionExecuted,
    OnOutcomeRecorded,
}

/// A key of a developer.
#[derive(Debug)]
pub struct APIKey {
    pub key: String,
    pub developer_id: String,
    pub permissions: Vec<APIPermission>,
    pub created_at: i64,
    pub expires_at: Option<i64>,
}

/// What a key holds.
pub struct APIKeyView {
    pub key: Seq<char>,
    pub developer_id: Seq<char>,
    pub permissions: Seq<APIPermission>,
    pub created_at: i64,
    pub expires_at: Option<i64>,
}

impl View for APIKey {
    type V = APIKeyView;

    open spec fn view(&self) -> APIKeyView {
        APIKeyView {
            key: self.key@,
            developer_id: self.developer_id@,
            permissions: self.permissions@,
            created_at: self.created_at,
            expires_at: self.expires_at,
        }
    }
}

impl Clone for APIKey {
    fn clone(&self) -> (r: Self)
        ensures
            r@ == self@,
    {
        let mut permissions: Vec<APIPermission> = Vec::new();
        let mut i: usize = 0;
        while i < self.permissions.len()
            invariant
                i <= self.permissions.len(),
                permissions@ == self.permissions@.subrange(0, i as int),
            decreases self.permissions.len() - i,
        {
            permissions.push(self.permissions[i]);
            i += 1;
        }
        assert(self.permissions@.subrange(0, self.permissions@.len() as int) == self.permissions@);
        APIKey {
            key: self.key.clone(),
            developer_id: self.developer_id.clone(),
            permissions,
            created_at: self.created_at,
            expires_at: self.expires_at,
        }
    }
}

/// A hook that a developer registered.
#[derive(Clone, Debug)]
pub struct ObservationHook {
    pub id: String,
    pub developer_id: String,
    pub hook_type: HookType,
    pub callback_url: Option<String>,
    pub filter: StrMap<String>,
    pub active: bool,
}

/// An intervention that a developer brings along. Conditions are fixed-point.
#[derive(Clone, Debug)]
pub struct CustomIntervention {
    pub id: String,
    pub developer_id: String,
    pub intervention_type: String,
    pub action: Action,
    pub conditions: StrMap<i64>,
}

/// The key issued at `now`: it is made of the time, and never expires.
pub open spec fn issued_key(
    developer_id: Seq<char>,
    permissions: Seq<APIPermission>,
    now: i64,
) -> APIKeyView {
    APIKeyView {
        key: "athenos_"@ + decimal_text(now as int),
        developer_id,
        permissions,
        created_at: now,
        expires_at: None,
    }
}

/// What each key holds, by its text.
pub open spec fn key_views(keys: Map<Seq<char>, APIKey>) -> Map<Seq<char>, APIKeyView> {
    Map::new(|k: Seq<char>| keys.contains_key(k), |k: Seq<char>| keys[k]@)
}

/// Whether a hook belongs to `developer_id` and is active.
pub open spec fn hook_of(developer_id: Seq<char>) -> spec_fn(ObservationHook) -> bool {
    |hook: ObservationHook| hook.developer_id@ == developer_id && hook.active
}

/// Keeps what developers registered.
pub struct DeveloperAPIManager {
    api_keys: StrMap<APIKey>,
    hooks: StrMap<ObservationHook>,
    interventions: StrMap<CustomIntervention>,
}

impl DeveloperAPIManager {
    /// The keys by their text.
    pub closed spec fn keys(&self) -> Map<Seq<char>, APIKeyView> {
        key_views(self.api_keys@)
    }

    /// The hooks by id.
    pub closed spec fn hooks(&self) -> Map<Seq<char>, ObservationHook> {
        self.hooks@
    }

    /// The ids of the hooks, in the order in which they were first
    /// registered.
    pub closed spec fn hook_ids(&self) -> Seq<Seq<char>> {
        self.hooks.keys()
    }

    /// The hooks in the order in which their ids were first registered.
    pub open spec fn hook_list(&self) -> Seq<ObservationHook> {
        listed(self.hooks(), self.hook_ids())
    }

    /// The interventions by id.
    pub closed spec fn interventions(&self) -> Map<Seq<char>, CustomIntervention> {
        self.interventions@
    }

    /// A manager with nothing registered.
    pub fn new() -> (r: Self)
        ensures
            r.keys() == Map::<Seq<char>, APIKeyView>::empty(),
            r.hooks() == Map::<Seq<char>, ObservationHook>::empty(),
            r.hook_ids() == Seq::<Seq<char>>::empty(),
            r.interventions() == Map::<Seq<char>, CustomIntervention>::empty(),
    {
        let r = DeveloperAPIManager {
            api_keys: StrMap::new(),
            hooks: StrMap::new(),
            interventions: StrMap::new(),
        };
        assert(r.keys() =~= Map::<Seq<char>, APIKeyView>::empty());
        r
    }

    /// How many keys were issued.
    pub fn key_count(&self) -> (n: usize)
        ensures
            n == self.keys().dom().len(),
    {
        proof {
            use_type_invariant(&self.api_keys);
            self.api_keys.lemma_len();
            assert(self.keys().dom() =~= self.api_keys@.dom());
        }
        self.api_keys.len()
    }

    /// How many hooks are registered.
    pub fn hook_count(&self) -> (n: usize)
        ensures
            n == self.hook_ids().len(),
    {
        self.hooks.len()
    }

    /// How many interventions are registered.
    pub fn intervention_count(&self) -> (n: usize)
        ensures
            n == self.interventions().dom().len(),
    {
        proof {
            use_type_invariant(&self.interventions);
            self.interventions.lemma_len();
        }
        self.interventions.len()
    }

    /// Issues a key as if the clock read `now`. A key issued in the same
    /// second takes the place of the one before.
    pub fn register_api_key_at(&mut self, developer_id: String, permissions: Vec<APIPermission>, now: i64) -> (r:
        APIKey)
        ensures
            r@ == issued_key(developer_id@, permissions@, now),
            final(self).keys() == old(self).keys().insert(r@.key, r@),
            final(self).hooks() == old(self).hooks(),
            final(self).hook_ids() == old(self).hook_ids(),
            final(self).interventions() == old(self).interventions(),
    {
        let api_key = APIKey {
            key: join2("athenos_", decimal(now).as_str()),
            developer_id: developer_id.clone(),
            permissions,
            created_at: now,
            expires_at: None,
        };
        let stored = api_key.clone();
        self.api_keys.insert(api_key.key.clone(), stored);
        assert(self.keys() =~= old(self).keys().insert(api_key@.key, api_key@));
        api_key
    }

    /// Issues a key to `developer_id` with the permissions given. Its text is
    /// made of the time the clock reads, and it never expires.
    pub fn register_api_key(&mut self, developer_id: String, permissions: Vec<APIPermission>) -> (r:
        APIKey)
        ensures
            exists|now: i64| r@ == #[trigger] issued_key(developer_id@, permissions@, now),
            final(self).keys() == old(self).keys().insert(r@.key, r@),
            final(self).hooks() == old(self).hooks(),
            final(self).interventions() == old(self).interventions(),
    {
        let now = now_timestamp();
        self.register_api_key_at(developer_id, permissions, now)
    }

    /// Registers `hook` under its id, in place of the hook that was there, if
    /// any.
    pub fn register_hook(&mut self, hook: ObservationHook)
        ensures
            final(self).hooks() == old(self).hooks().insert(hook.id@, hook),
            final(self).hook_ids() == placed_keys(old(self).hook_ids(), hook.id@),
            final(self).keys() == old(self).keys(),
            final(self).interventions() == old(self).interventions(),
    {
        self.hooks.insert(hook.id.clone(), hook);
    }

    /// Registers `intervention` under its id, in place of the one that was
    /// there, if any.
    pub fn register_intervention(&mut self, intervention: CustomIntervention)
        ensures
            final(self).interventions() == old(self).interventions().insert(
                intervention.id@,
                intervention,
            ),
            final(self).keys() == old(self).keys(),
            final(self).hooks() == old(self).hooks(),
            final(self).hook_ids() == old(self).hook_ids(),
    {
        self.interventions.insert(intervention.id.clone(), intervention);
    }

    /// The key with the text `key`, if it was issued.
    pub fn validate_api_key(&self, key: &str) -> (r: Option<&APIKey>)
        ensures
            match r {
                Some(found) => self.keys().contains_key(key@) && found@ == self.keys()[key@],
                None => !self.keys().contains_key(key@),
            },
    {
        self.api_keys.get(key)
    }

    /// The active hooks of `developer_id`, in the order in which their ids
    /// were first registered.
    pub fn get_developer_hooks(&self, developer_id: &str) -> (r: Vec<&ObservationHook>)
        ensures
            r@.len() == kept(self.hook_list(), hook_of(developer_id@), self.hook_list().len() as int).len(),
            forall|i: int|
                0 <= i < r@.len() ==> *(#[trigger] r@[i]) == kept(
                    self.hook_list(),
                    hook_of(developer_id@),
                    self.hook_list().len() as int,
                )[i],
    {
        let mut r: Vec<&ObservationHook> = Vec::new();
        let mut i: usize = 0;
        let n = self.hooks.len();
        proof {
            use_type_invariant(&self.hooks);
            self.hooks.lemma_listed();
        }
        while i < n
            invariant
                i <= n,
                n == self.hook_list().len(),
                self.hook_list() == self.hooks.values(),
                r@.len() == kept(self.hook_list(), hook_of(developer_id@), i as int).len(),
                forall|j: int|
                    0 <= j < r@.len() ==> *(#[trigger] r@[j]) == kept(
                        self.hook_list(),
                        hook_of(developer_id@),
                        i as int,
                    )[j],
            decreases n - i,
        {
            let hook = self.hooks.value_at(i);
            if same_text(hook.developer_id.as_str(), developer_id) && hook.active {
                r.push(hook);
            }
            i += 1;
        }
        r
    }
}

impl Default for DeveloperAPIManager {
    fn default() -> (r: Self)
        ensures
            r.keys() == Map::<Seq<char>, APIKeyView>::empty(),
            r.hooks() == Map::<Seq<char>, ObservationHook>::empty(),
            r.hook_ids() == Seq::<Seq<char>>::empty(),
            r.interventions() == Map::<Seq<char>, CustomIntervention>::empty(),
    {
        DeveloperAPIManager::new()
    }
}

} // verus!
