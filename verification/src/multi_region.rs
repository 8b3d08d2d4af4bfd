//! Regions: which one serves a user, by assignment or by latency.

use vstd::prelude::*;
use crate::strmap::{listed, placed_keys, StrMap};

verus! {

/// A region that can serve users.
#[derive(Debug)]
pub struct Region {
    pub id: String,
    pub name: String,
    pub endpoint: String,
    pub latency_ms: u64,
    pub active: bool,
}

impl Clone for Region {
    fn clone(&self) -> (r: Self)
        ensures
            r == *self,
    {
        Region {
            id: self.id.clone(),
            name: self.name.clone(),
            endpoint: self.endpoint.clone(),
            latency_ms: self.latency_ms,
            active: self.active,
        }
    }
}

/// Where the best of the first `n` regions stands: the active one with the
/// lowest latency, and of several such the one that was added first. `None`
/// where none of them is active.
pub open spec fn best_upto(regions: Seq<Region>, n: int) -> Option<int>
    decreases n,
{
    if n <= 0 {
        None
    } else {
        let earlier = best_upto(regions, n - 1);
        if !regions[n - 1].active {
            earlier
        } else {
            match earlier {
                Some(at) => if regions[n - 1].latency_ms < regions[at].latency_ms {
                    Some(n - 1)
                } else {
                    earlier
                },
                None => Some(n - 1),
            }
        }
    }
}

/// The active ones of the first `n` regions, in their order.
pub open spec fn active_upto(regions: Seq<Region>, n: int) -> Seq<Region>
    decreases n,
{
    if n <= 0 {
        Seq::empty()
    } else if regions[n - 1].active {
        active_upto(regions, n - 1).push(regions[n - 1])
    } else {
        active_upto(regions, n - 1)
    }
}

/// The best region is one of those looked at, is active, and no active region
/// has a lower latency.
pub proof fn lemma_best_is_lowest(regions: Seq<Region>, n: int)
    requires
        0 <= n <= regions.len(),
    ensures
        match best_upto(regions, n) {
            Some(at) => 0 <= at < n && regions[at].active && forall|i: int|
                0 <= i < n && regions[i].active ==> regions[at].latency_ms
                    <= #[trigger] regions[i].latency_ms,
            None => forall|i: int| 0 <= i < n ==> !(#[trigger] regions[i]).active,
        },
    decreases n,
{
    if n > 0 {
        lemma_best_is_lowest(regions, n - 1);
    }
}

/// Sends each user to a region.
pub struct MultiRegionOrchestrator {
    regions: StrMap<Region>,
    user_regions: StrMap<String>,
}

impl MultiRegionOrchestrator {
    /// The regions by id.
    pub closed spec fn regions(&self) -> Map<Seq<char>, Region> {
        self.regions@
    }

    /// The ids of the regions, in the order in which they were first added.
    pub closed spec fn region_ids(&self) -> Seq<Seq<char>> {
        self.regions.keys()
    }

    /// The regions in the order in which their ids were first added.
    pub open spec fn region_list(&self) -> Seq<Region> {
        listed(self.regions(), self.region_ids())
    }

    /// The id of the region that each user is assigned to.
    pub closed spec fn assignments(&self) -> Map<Seq<char>, String> {
        self.user_regions@
    }

    /// The region that serves `user_id`: the one assigned, if the user has an
    /// assignment and, in that case, only if that region is known; else the
    /// best of all regions.
    pub open spec fn choice_for(&self, user_id: Seq<char>) -> Option<Region> {
        if self.assignments().contains_key(user_id) {
            if self.regions().contains_key(self.assignments()[user_id]@) {
                Some(self.regions()[self.assignments()[user_id]@])
            } else {
                None
            }
        } else {
            match best_upto(self.region_list(), self.region_list().len() as int) {
                Some(at) => Some(self.region_list()[at]),
                None => None,
            }
        }
    }

    /// An orchestrator without regions or assignments.
    pub fn new() -> (r: Self)
        ensures
            r.regions() == Map::<Seq<char>, Region>::empty(),
            r.region_ids() == Seq::<Seq<char>>::empty(),
            r.assignments() == Map::<Seq<char>, String>::empty(),
    {
        MultiRegionOrchestrator { regions: StrMap::new(), user_regions: StrMap::new() }
    }

    /// How many regions are known.
    pub fn region_count(&self) -> (n: usize)
        ensures
            n == self.region_ids().len(),
    {
        self.regions.len()
    }

    /// Adds `region` under its id, in place of the region that was there, if
    /// any.
    pub fn add_region(&mut self, region: Region)
        ensures
            final(self).regions() == old(self).regions().insert(region.id@, region),
            final(self).region_ids() == placed_keys(old(self).region_ids(), region.id@),
            final(self).assignments() == old(self).assignments(),
    {
        self.regions.insert(region.id.clone(), region);
    }

    /// The region that serves `user_id`.
    pub fn select_best_region(&self, user_id: &str) -> (r: Option<&Region>)
        ensures
            match r {
                Some(region) => self.choice_for(user_id@) == Some(*region),
                None => self.choice_for(user_id@) is None,
            },
    {
        match self.user_regions.get(user_id) {
            Some(region_id) => {
                return self.regions.get(region_id.as_str());
            },
            None => {},
        }
        let mut best: Option<usize> = None;
        let mut i: usize = 0;
        let n = self.regions.len();
        proof {
            use_type_invariant(&self.regions);
            self.regions.lemma_listed();
        }
        while i < n
            invariant
                i <= n,
                n == self.region_list().len(),
                self.region_list() == self.regions.values(),
                match best {
                    Some(at) => best_upto(self.region_list(), i as int) == Some(at as int) && at < i,
                    None => best_upto(self.region_list(), i as int) is None,
                },
            decreases n - i,
        {
            let region = self.regions.value_at(i);
            if region.active {
                match best {
                    Some(at) => {
                        if region.latency_ms < self.regions.value_at(at).latency_ms {
                            best = Some(i);
                        }
                    },
                    None => {
                        best = Some(i);
                    },
                }
            }
            i += 1;
        }
        match best {
            Some(at) => Some(self.regions.value_at(at)),
            None => None,
        }
    }

    /// Assigns `user_id` to the region called `region_id`, known or not.
    pub fn assign_user_to_region(&mut self, user_id: String, region_id: String)
        ensures
            final(self).assignments() == old(self).assignments().insert(user_id@, region_id),
            final(self).regions() == old(self).regions(),
            final(self).region_ids() == old(self).region_ids(),
    {
        self.user_regions.insert(user_id, region_id);
    }

    /// The region that `user_id` is assigned to, if it is known.
    pub fn get_user_region(&self, user_id: &str) -> (r: Option<&Region>)
        ensures
            match r {
                Some(region) => self.assignments().contains_key(user_id@) && self.regions().contains_key(
                    self.assignments()[user_id@]@,
                ) && *region == self.regions()[self.assignments()[user_id@]@],
                None => !self.assignments().contains_key(user_id@) || !self.regions().contains_key(
                    self.assignments()[user_id@]@,
                ),
            },
    {
        match self.user_regions.get(user_id) {
            Some(region_id) => self.regions.get(region_id.as_str()),
            None => None,
        }
    }

    /// The active regions, in the order in which their ids were first added.
    pub fn get_active_regions(&self) -> (r: Vec<&Region>)
        ensures
            r@.len() == active_upto(self.region_list(), self.region_list().len() as int).len(),
            forall|i: int|
                0 <= i < r@.len() ==> *(#[trigger] r@[i]) == active_upto(
                    self.region_list(),
                    self.region_list().len() as int,
                )[i],
    {
        let mut r: Vec<&Region> = Vec::new();
        let mut i: usize = 0;
        let n = self.regions.len();
        proof {
            use_type_invariant(&self.regions);
            self.regions.lemma_listed();
        }
        while i < n
            invariant
                i <= n,
                n == self.region_list().len(),
                self.region_list() == self.regions.values(),
                r@.len() == active_upto(self.region_list(), i as int).len(),
                forall|j: int|
                    0 <= j < r@.len() ==> *(#[trigger] r@[j]) == active_upto(
                        self.region_list(),
                        i as int,
                    )[j],
            decreases n - i,
        {
            let region = self.regions.value_at(i);
            if region.active {
                r.push(region);
            }
            i += 1;
        }
        r
    }
}

impl Default for MultiRegionOrchestrator {
    fn default() -> (r: Self)
        ensures
            r.regions() == Map::<Seq<char>, Region>::empty(),
            r.region_ids() == Seq::<Seq<char>>::empty(),
            r.assignments() == Map::<Seq<char>, String>::empty(),
    {
        MultiRegionOrchestrator::new()
    }
}

} // verus!
