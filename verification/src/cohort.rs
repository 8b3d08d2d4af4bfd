//! The cohort: who takes part, and what they made of the interventions.

use vstd::prelude::*;
use crate::clock::now_timestamp;
use crate::fixed::{
    add_capped, capped_sum, div_floor, ratio, saturate, saturated, unit, unit_ratio,
};
use crate::strmap::{listed, placed_keys, value_views, view_map, StrMap};
use crate::text::{join2, padded, padded_text};
use crate::types::UserProfile;

verus! {

/// One who takes part. Minutes are fixed-point.
#[derive(Debug)]
pub struct CohortMember {
    pub user_id: String,
    pub profile: UserProfile,
    pub joined_at: i64,
    pub observations_count: usize,
    pub interventions_accepted: usize,
    pub interventions_rejected: usize,
    pub total_time_saved_min: i64,
}

/// What is known of one who takes part.
pub struct CohortMemberView {
    pub user_id: Seq<char>,
    pub profile: UserProfile,
    pub joined_at: i64,
    pub observations_count: usize,
    pub interventions_accepted: usize,
    pub interventions_rejected: usize,
    pub total_time_saved_min: i64,
}

impl View for CohortMember {
    type V = CohortMemberView;

    open spec fn view(&self) -> CohortMemberView {
        CohortMemberView {
            user_id: self.user_id@,
            profile: self.profile,
            joined_at: self.joined_at,
            observations_count: self.observations_count,
            interventions_accepted: self.interventions_accepted,
            interventions_rejected: self.interventions_rejected,
            total_time_saved_min: self.total_time_saved_min,
        }
    }
}

impl Clone for CohortMember {
    fn clone(&self) -> (r: Self)
        ensures
            r == *self,
    {
        CohortMember {
            user_id: self.user_id.clone(),
            profile: self.profile,
            joined_at: self.joined_at,
            observations_count: self.observations_count,
            interventions_accepted: self.interventions_accepted,
            interventions_rejected: self.interventions_rejected,
            total_time_saved_min: self.total_time_saved_min,
        }
    }
}

/// Figures on the cohort. Rates and minutes are fixed-point.
#[derive(Clone, Copy, Debug)]
pub struct CohortStatistics {
    pub total_members: usize,
    pub target_size: usize,
    pub total_observations: usize,
    pub total_interventions: usize,
    pub acceptance_rate: i64,
    pub total_time_saved_min: i64,
    pub avg_time_saved_per_user: i64,
}

/// One who joined at `now` and has done nothing yet.
pub open spec fn new_member(user_id: Seq<char>, profile: UserProfile, now: i64) -> CohortMemberView {
    CohortMemberView {
        user_id,
        profile,
        joined_at: now,
        observations_count: 0,
        interventions_accepted: 0,
        interventions_rejected: 0,
        total_time_saved_min: 0,
    }
}

/// A member after an intervention: an accepted one counts and adds its
/// minutes, a rejected one only counts. Counts and minutes stop at the largest
/// number that can be held.
pub open spec fn after_intervention(
    member: CohortMemberView,
    accepted: bool,
    time_saved_min: i64,
) -> CohortMemberView {
    if accepted {
        CohortMemberView {
            interventions_accepted: capped_sum(member.interventions_accepted as int, 1) as usize,
            total_time_saved_min: saturated(member.total_time_saved_min + time_saved_min) as i64,
            ..member
        }
    } else {
        CohortMemberView {
            interventions_rejected: capped_sum(member.interventions_rejected as int, 1) as usize,
            ..member
        }
    }
}

/// A member after one more observation.
pub open spec fn after_observation(member: CohortMemberView) -> CohortMemberView {
    CohortMemberView {
        observations_count: capped_sum(member.observations_count as int, 1) as usize,
        ..member
    }
}

/// The observations of the first `n` members together, up to the largest
/// count that can be held.
pub open spec fn observations_upto(members: Seq<CohortMemberView>, n: int) -> int
    decreases n,
{
    if n <= 0 {
        0
    } else {
        capped_sum(observations_upto(members, n - 1), members[n - 1].observations_count as int)
    }
}

/// The accepted interventions of the first `n` members together, up to the
/// largest count that can be held.
pub open spec fn accepted_upto(members: Seq<CohortMemberView>, n: int) -> int
    decreases n,
{
    if n <= 0 {
        0
    } else {
        capped_sum(accepted_upto(members, n - 1), members[n - 1].interventions_accepted as int)
    }
}

/// The rejected interventions of the first `n` members together, up to the
/// largest count that can be held.
pub open spec fn rejected_upto(members: Seq<CohortMemberView>, n: int) -> int
    decreases n,
{
    if n <= 0 {
        0
    } else {
        capped_sum(rejected_upto(members, n - 1), members[n - 1].interventions_rejected as int)
    }
}

/// The minutes that the first `n` members saved together.
pub open spec fn minutes_upto(members: Seq<CohortMemberView>, n: int) -> int
    decreases n,
{
    if n <= 0 {
        0
    } else {
        minutes_upto(members, n - 1) + members[n - 1].total_time_saved_min
    }
}

/// The figures on a list of members.
pub open spec fn statistics_of(members: Seq<CohortMemberView>, target_size: usize) -> CohortStatistics {
    let n = members.len() as int;
    let accepted = accepted_upto(members, n);
    let rejected = rejected_upto(members, n);
    CohortStatistics {
        total_members: members.len() as usize,
        target_size,
        total_observations: observations_upto(members, n) as usize,
        total_interventions: capped_sum(accepted, rejected) as usize,
        acceptance_rate: unit(ratio(accepted, capped_sum(accepted, rejected))) as i64,
        total_time_saved_min: saturated(minutes_upto(members, n)) as i64,
        avg_time_saved_per_user: if n > 0 {
            minutes_upto(members, n) / n
        } else {
            0
        } as i64,
    }
}

/// What each member holds, by id.
pub open spec fn member_views(members: Map<Seq<char>, CohortMember>) -> Map<
    Seq<char>,
    CohortMemberView,
> {
    view_map(members)
}

/// The name given to the simulated member with the number `n`.
pub open spec fn simulated_name(n: int) -> Seq<char> {
    "user_"@ + padded_text(n)
}

/// Keeps the members of the cohort and the size it is to reach.
pub struct CohortManager {
    members: StrMap<CohortMember>,
    target_size: usize,
}

impl View for CohortManager {
    type V = Map<Seq<char>, CohortMemberView>;

    closed spec fn view(&self) -> Map<Seq<char>, CohortMemberView> {
        member_views(self.members@)
    }
}

impl CohortManager {
    /// The ids of the members, in the order in which they were first added.
    pub closed spec fn member_ids(&self) -> Seq<Seq<char>> {
        self.members.keys()
    }

    /// The members in the order in which their ids were first added.
    pub open spec fn member_list(&self) -> Seq<CohortMemberView> {
        listed(self@, self.member_ids())
    }

    /// The size that the cohort is to reach.
    pub closed spec fn target(&self) -> usize {
        self.target_size
    }

    /// A cohort without members that is to reach `target_size`.
    pub fn new(target_size: usize) -> (r: Self)
        ensures
            r@ == Map::<Seq<char>, CohortMemberView>::empty(),
            r.member_ids() == Seq::<Seq<char>>::empty(),
            r.target() == target_size,
    {
        let r = CohortManager { members: StrMap::new(), target_size };
        assert(r@ =~= Map::<Seq<char>, CohortMemberView>::empty());
        r
    }

    /// The size that the cohort is to reach.
    pub fn target_size(&self) -> (r: usize)
        ensures
            r == self.target(),
    {
        self.target_size
    }

    /// How many members there are.
    pub fn member_count(&self) -> (n: usize)
        ensures
            n == self.member_ids().len(),
    {
        self.members.len()
    }

    /// The member under `user_id`.
    pub fn get_member(&self, user_id: &str) -> (r: Option<&CohortMember>)
        ensures
            match r {
                Some(member) => self@.contains_key(user_id@) && member@ == self@[user_id@],
                None => !self@.contains_key(user_id@),
            },
    {
        self.members.get(user_id)
    }

    /// Whether there is a member under `user_id`.
    pub fn contains_member(&self, user_id: &str) -> (r: bool)
        ensures
            r == self@.contains_key(user_id@),
    {
        self.members.contains_key(user_id)
    }

    /// Adds a member as if the clock read `now`. One who is added again
    /// starts afresh.
    pub fn add_member_at(&mut self, user_id: String, profile: UserProfile, now: i64)
        ensures
            final(self)@ == old(self)@.insert(user_id@, new_member(user_id@, profile, now)),
            final(self).member_ids() == placed_keys(old(self).member_ids(), user_id@),
            final(self).target() == old(self).target(),
    {
        let member = CohortMember {
            user_id: user_id.clone(),
            profile,
            joined_at: now,
            observations_count: 0,
            interventions_accepted: 0,
            interventions_rejected: 0,
            total_time_saved_min: 0,
        };
        self.members.insert(user_id, member);
        assert(self@ =~= old(self)@.insert(user_id@, member@));
    }

    /// Adds a member who joins at the time the clock reads and has done
    /// nothing yet.
    pub fn add_member(&mut self, user_id: String, profile: UserProfile)
        ensures
            exists|now: i64|
                final(self)@ == old(self)@.insert(
                    user_id@,
                    #[trigger] new_member(user_id@, profile, now),
                ),
            final(self).member_ids() == placed_keys(old(self).member_ids(), user_id@),
            final(self).target() == old(self).target(),
    {
        let now = now_timestamp();
        self.add_member_at(user_id, profile, now);
    }

    /// Notes what the member `user_id` made of an intervention. Nothing
    /// happens where there is no such member.
    pub fn record_intervention(&mut self, user_id: &str, accepted: bool, time_saved_min: i64)
        ensures
            final(self).target() == old(self).target(),
            final(self).member_ids() == old(self).member_ids(),
            final(self)@ == if old(self)@.contains_key(user_id@) {
                old(self)@.insert(
                    user_id@,
                    after_intervention(old(self)@[user_id@], accepted, time_saved_min),
                )
            } else {
                old(self)@
            },
    {
        match self.members.position(user_id) {
            Some(at) => {
                let mut member = self.members.value_at(at).clone();
                if accepted {
                    member.interventions_accepted = add_capped(member.interventions_accepted, 1);
                    member.total_time_saved_min = saturate(
                        (member.total_time_saved_min as i128) + (time_saved_min as i128),
                    );
                } else {
                    member.interventions_rejected = add_capped(member.interventions_rejected, 1);
                }
                self.members.replace_at(at, member);
                assert(self@ =~= old(self)@.insert(user_id@, member@));
            },
            None => {},
        }
    }

    /// Counts one more observation for the member `user_id`. Nothing happens
    /// where there is no such member.
    pub fn record_observation(&mut self, user_id: &str)
        ensures
            final(self).target() == old(self).target(),
            final(self).member_ids() == old(self).member_ids(),
            final(self)@ == if old(self)@.contains_key(user_id@) {
                old(self)@.insert(user_id@, after_observation(old(self)@[user_id@]))
            } else {
                old(self)@
            },
    {
        match self.members.position(user_id) {
            Some(at) => {
                let mut member = self.members.value_at(at).clone();
                member.observations_count = add_capped(member.observations_count, 1);
                self.members.replace_at(at, member);
                assert(self@ =~= old(self)@.insert(user_id@, member@));
            },
            None => {},
        }
    }

    /// The figures on the cohort: how many members, observations and
    /// interventions there are, which share of the interventions was accepted,
    /// and how many minutes were saved in all and per member.
    pub fn get_statistics(&self) -> (r: CohortStatistics)
        ensures
            r == statistics_of(self.member_list(), self.target()),
            r.total_members == self.member_ids().len(),
    {
        proof {
            use_type_invariant(&self.members);
            self.members.lemma_listed_views();
        }
        let n = self.members.len();
        let mut observations: usize = 0;
        let mut accepted: usize = 0;
        let mut rejected: usize = 0;
        let mut minutes: i128 = 0;
        let mut i: usize = 0;
        while i < n
            invariant
                i <= n,
                n == self.member_list().len(),
                n == self.members.values().len(),
                self.member_list() == value_views(self.members.values()),
                observations == observations_upto(self.member_list(), i as int),
                accepted == accepted_upto(self.member_list(), i as int),
                rejected == rejected_upto(self.member_list(), i as int),
                minutes == minutes_upto(self.member_list(), i as int),
                -(i as int) * 0x8000_0000_0000_0000 <= minutes <= (i as int) * 0x7fff_ffff_ffff_ffff,
            decreases n - i,
        {
            let member = self.members.value_at(i);
            observations = add_capped(observations, member.observations_count);
            accepted = add_capped(accepted, member.interventions_accepted);
            rejected = add_capped(rejected, member.interventions_rejected);
            minutes = minutes + (member.total_time_saved_min as i128);
            i += 1;
        }
        let interventions = add_capped(accepted, rejected);
        let average: i64 = if n > 0 {
            proof {
                crate::fixed::lemma_quotient_bounds(
                    minutes as int,
                    n as int,
                    -0x8000_0000_0000_0000,
                    0x7fff_ffff_ffff_ffff,
                );
            }
            div_floor(minutes, n as i128) as i64
        } else {
            0
        };
        CohortStatistics {
            total_members: n,
            target_size: self.target_size,
            total_observations: observations,
            total_interventions: interventions,
            acceptance_rate: unit_ratio(accepted as u64, interventions as u64),
            total_time_saved_min: saturate(minutes),
            avg_time_saved_per_user: average,
        }
    }

    /// Fills the cohort up to its target as if the clock read `now`.
    pub fn simulate_expansion_at(&mut self, profiles: &[UserProfile], now: i64)
        requires
            profiles@.len() > 0 || old(self).member_ids().len() >= old(self).target(),
        ensures
            final(self).target() == old(self).target(),
            (final(self)@, final(self).member_ids()) == expanded(
                old(self)@,
                old(self).member_ids(),
                old(self).target() as int,
                profiles@,
                now,
                old(self).member_ids().len() as int,
            ),
    {
        let mut user_id: usize = self.members.len();
        while self.members.len() < self.target_size && user_id < usize::MAX
            invariant
                profiles@.len() > 0 || self.member_ids().len() >= self.target(),
                self.target() == old(self).target(),
                expanded(
                    self@,
                    self.member_ids(),
                    self.target() as int,
                    profiles@,
                    now,
                    user_id as int,
                ) == expanded(
                    old(self)@,
                    old(self).member_ids(),
                    old(self).target() as int,
                    profiles@,
                    now,
                    old(self).member_ids().len() as int,
                ),
            decreases usize::MAX - user_id,
        {
            let profile = profiles[user_id % profiles.len()];
            let name = join2("user_", padded(user_id).as_str());
            self.add_member_at(name, profile, now);
            user_id += 1;
        }
    }

    /// Fills the cohort up to its target with simulated members: they are
    /// numbered on from the number of members, named `user_` and the number
    /// with at least three digits, and take the profiles given in turn. A
    /// name that is taken starts afresh and adds no member. Where members are
    /// missing, there must be a profile to give them.
    pub fn simulate_expansion(&mut self, profiles: &[UserProfile])
        requires
            profiles@.len() > 0 || old(self).member_ids().len() >= old(self).target(),
        ensures
            final(self).target() == old(self).target(),
            exists|now: i64|
                (final(self)@, final(self).member_ids()) == #[trigger] expanded(
                    old(self)@,
                    old(self).member_ids(),
                    old(self).target() as int,
                    profiles@,
                    now,
                    old(self).member_ids().len() as int,
                ),
    {
        let now = now_timestamp();
        self.simulate_expansion_at(profiles, now);
    }
}

/// The members and their ids after the cohort was filled up at `now`,
/// numbering on from `number`: as long as there are fewer members than the
/// target, the next simulated member is added under its name.
pub open spec fn expanded(
    members: Map<Seq<char>, CohortMemberView>,
    ids: Seq<Seq<char>>,
    target: int,
    profiles: Seq<UserProfile>,
    now: i64,
    number: int,
) -> (Map<Seq<char>, CohortMemberView>, Seq<Seq<char>>)
    decreases usize::MAX - number,
{
    if ids.len() >= target || number >= usize::MAX || number < 0 {
        (members, ids)
    } else {
        let name = simulated_name(number);
        expanded(
            members.insert(name, new_member(name, profiles[number % (profiles.len() as int)], now)),
            placed_keys(ids, name),
            target,
            profiles,
            now,
            number + 1,
        )
    }
}

} // verus!
