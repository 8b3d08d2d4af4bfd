//! The console of an enterprise: teams, policies, and what the report says.

use vstd::prelude::*;
use crate::analytics::AnalyticsAggregator;
use crate::fixed::{divide, quotient, SCALE};
use crate::strmap::{listed, placed_keys, StrMap};

verus! {

/// The productivity that every team is credited with (0.75).
pub const TEAM_PRODUCTIVITY: i64 = 750_000;

/// The compliance that every team is credited with (0.95).
pub const TEAM_COMPLIANCE: i64 = 950_000;

/// A member of a team.
#[derive(Debug)]
pub struct TeamMember {
    pub user_id: String,
    pub name: String,
    pub role: String,
    pub joined_at: i64,
}

impl Clone for TeamMember {
    fn clone(&self) -> (r: Self)
        ensures
            r == *self,
    {
        TeamMember {
            user_id: self.user_id.clone(),
            name: self.name.clone(),
            role: self.role.clone(),
            joined_at: self.joined_at,
        }
    }
}

/// A policy and its rules.
#[derive(Debug)]
pub struct CompliancePolicy {
    pub id: String,
    pub name: String,
    pub description: String,
    pub enabled: bool,
    pub rules: Vec<String>,
}

/// What a policy holds.
pub struct CompliancePolicyView {
    pub id: Seq<char>,
    pub name: Seq<char>,
    pub description: Seq<char>,
    pub enabled: bool,
    pub rules: Seq<Seq<char>>,
}

impl View for CompliancePolicy {
    type V = CompliancePolicyView;

    open spec fn view(&self) -> CompliancePolicyView {
        CompliancePolicyView {
            id: self.id@,
            name: self.name@,
            description: self.description@,
            enabled: self.enabled,
            rules: crate::strmap::views_of(self.rules@),
        }
    }
}

impl Clone for CompliancePolicy {
    fn clone(&self) -> (r: Self)
        ensures
            r@ == self@,
    {
        CompliancePolicy {
            id: self.id.clone(),
            name: self.name.clone(),
            description: self.description.clone(),
            enabled: self.enabled,
            rules: crate::text::clone_texts(&self.rules),
        }
    }
}

/// Figures on a team, fixed-point where they are shares.
#[derive(Clone, Debug)]
pub struct TeamInsights {
    pub team_id: String,
    pub total_members: usize,
    pub avg_productivity: i64,
    pub compliance_score: i64,
}

/// Figures on the policies. The score is fixed-point.
#[derive(Clone, Copy, Debug, PartialEq, Eq, Structural)]
pub struct ComplianceReport {
    pub total_policies: usize,
    pub enabled_policies: usize,
    pub compliance_score: i64,
}

/// How many of the first `n` switches are on.
pub open spec fn enabled_upto(switches: Seq<bool>, n: int) -> int
    decreases n,
{
    if n <= 0 {
        0
    } else {
        enabled_upto(switches, n - 1) + if switches[n - 1] {
            1int
        } else {
            0int
        }
    }
}

/// The report on `total` policies and a list of switches: the score is the
/// number of switches that are on, by the number of policies, and one where
/// there is no policy.
pub open spec fn report_of(total: int, switches: Seq<bool>) -> ComplianceReport {
    let enabled = enabled_upto(switches, switches.len() as int);
    ComplianceReport {
        total_policies: total as usize,
        enabled_policies: enabled as usize,
        compliance_score: if total > 0 {
            quotient(enabled, total)
        } else {
            SCALE as int
        } as i64,
    }
}

/// What each policy holds, by id.
pub open spec fn policy_views(policies: Map<Seq<char>, CompliancePolicy>) -> Map<
    Seq<char>,
    CompliancePolicyView,
> {
    Map::new(|id: Seq<char>| policies.contains_key(id), |id: Seq<char>| policies[id]@)
}

/// The members of the team `team_id`; none where the team is unknown.
pub open spec fn members_in(teams: Map<Seq<char>, Vec<TeamMember>>, team_id: Seq<char>) -> Seq<
    TeamMember,
> {
    if teams.contains_key(team_id) {
        teams[team_id]@
    } else {
        Seq::empty()
    }
}

/// Keeps teams and policies.
pub struct EnterpriseAdminConsole {
    teams: StrMap<Vec<TeamMember>>,
    compliance_policies: StrMap<CompliancePolicy>,
    analytics: AnalyticsAggregator,
    policy_controls: StrMap<bool>,
}

impl EnterpriseAdminConsole {
    /// The members of the team `team_id`, in the order in which they were
    /// added.
    pub closed spec fn team(&self, team_id: Seq<char>) -> Seq<TeamMember> {
        members_in(self.teams@, team_id)
    }

    /// The number of teams.
    pub closed spec fn team_total(&self) -> nat {
        self.teams.keys().len()
    }

    /// The policies by id.
    pub closed spec fn policies(&self) -> Map<Seq<char>, CompliancePolicyView> {
        policy_views(self.compliance_policies@)
    }

    /// The number of policies.
    pub closed spec fn policy_total(&self) -> nat {
        self.compliance_policies.keys().len()
    }

    /// For each id, whether its policy is switched on.
    pub closed spec fn controls(&self) -> Map<Seq<char>, bool> {
        self.policy_controls@
    }

    /// The ids that have a switch, in the order in which they were first set.
    pub closed spec fn control_ids(&self) -> Seq<Seq<char>> {
        self.policy_controls.keys()
    }

    /// The switches in the order in which their ids were first set.
    pub open spec fn switches(&self) -> Seq<bool> {
        listed(self.controls(), self.control_ids())
    }

    /// The aggregator of metrics that the console holds.
    pub closed spec fn analytics(&self) -> AnalyticsAggregator {
        self.analytics
    }

    /// A console without teams or policies, with an aggregator in which
    /// nothing was recorded.
    pub fn new() -> (r: Self)
        ensures
            r.analytics().is_blank(),
            forall|team_id: Seq<char>| r.team(team_id) == Seq::<TeamMember>::empty(),
            r.team_total() == 0,
            r.policies() == Map::<Seq<char>, CompliancePolicyView>::empty(),
            r.policy_total() == 0,
            r.controls() == Map::<Seq<char>, bool>::empty(),
            r.control_ids() == Seq::<Seq<char>>::empty(),
    {
        let r = EnterpriseAdminConsole {
            teams: StrMap::new(),
            compliance_policies: StrMap::new(),
            analytics: AnalyticsAggregator::new(),
            policy_controls: StrMap::new(),
        };
        assert(r.policies() =~= Map::<Seq<char>, CompliancePolicyView>::empty());
        r
    }

    /// How many teams there are.
    pub fn team_count(&self) -> (n: usize)
        ensures
            n == self.team_total(),
    {
        self.teams.len()
    }

    /// How many policies there are.
    pub fn policy_count(&self) -> (n: usize)
        ensures
            n == self.policy_total(),
    {
        self.compliance_policies.len()
    }

    /// The members of the team `team_id`, if the team is known.
    pub fn get_team(&self, team_id: &str) -> (r: Option<&Vec<TeamMember>>)
        ensures
            match r {
                Some(members) => members@ == self.team(team_id@),
                None => self.team(team_id@) == Seq::<TeamMember>::empty(),
            },
    {
        self.teams.get(team_id)
    }

    /// The policy under `policy_id`.
    pub fn get_policy(&self, policy_id: &str) -> (r: Option<&CompliancePolicy>)
        ensures
            match r {
                Some(policy) => self.policies().contains_key(policy_id@) && policy@
                    == self.policies()[policy_id@],
                None => !self.policies().contains_key(policy_id@),
            },
    {
        self.compliance_policies.get(policy_id)
    }

    /// Adds `member` to the team `team_id`, which comes into being with its
    /// first member.
    pub fn add_team_member(&mut self, team_id: String, member: TeamMember)
        ensures
            final(self).team(team_id@) == old(self).team(team_id@).push(member),
            forall|other: Seq<char>|
                other != team_id@ ==> #[trigger] final(self).team(other) == old(self).team(other),
            final(self).policies() == old(self).policies(),
            final(self).policy_total() == old(self).policy_total(),
            final(self).controls() == old(self).controls(),
            final(self).control_ids() == old(self).control_ids(),
            final(self).analytics() == old(self).analytics(),
    {
        match self.teams.position(team_id.as_str()) {
            Some(at) => {
                let mut members = self.teams.replace_at(at, Vec::new());
                members.push(member);
                self.teams.replace_at(at, members);
            },
            None => {
                let mut members: Vec<TeamMember> = Vec::new();
                members.push(member);
                assert(members@ =~= Seq::<TeamMember>::empty().push(member));
                self.teams.insert(team_id, members);
            },
        }
    }

    /// The figures on the team `team_id`: the number of its members, and the
    /// productivity and compliance that every team is credited with.
    pub fn get_team_insights(&self, team_id: &str) -> (r: TeamInsights)
        ensures
            r.team_id@ == team_id@,
            r.total_members == self.team(team_id@).len(),
            r.avg_productivity == TEAM_PRODUCTIVITY,
            r.compliance_score == TEAM_COMPLIANCE,
    {
        let members = match self.teams.get(team_id) {
            Some(list) => list.len(),
            None => 0,
        };
        TeamInsights {
            team_id: team_id.to_string(),
            total_members: members,
            avg_productivity: TEAM_PRODUCTIVITY,
            compliance_score: TEAM_COMPLIANCE,
        }
    }

    /// Adds `policy` under its id, in place of the policy that was there, if
    /// any, and sets its switch as the policy says.
    pub fn add_compliance_policy(&mut self, policy: CompliancePolicy)
        ensures
            final(self).policies() == old(self).policies().insert(policy.id@, policy@),
            final(self).controls() == old(self).controls().insert(policy.id@, policy.enabled),
            final(self).control_ids() == placed_keys(old(self).control_ids(), policy.id@),
            final(self).analytics() == old(self).analytics(),
            final(self).policy_total() == if old(self).policies().contains_key(policy.id@) {
                old(self).policy_total()
            } else {
                old(self).policy_total() + 1
            },
            forall|team_id: Seq<char>| #[trigger] final(self).team(team_id) == old(self).team(team_id),
    {
        let policy_id = policy.id.clone();
        let enabled = policy.enabled;
        assert(self.policies().contains_key(policy.id@) == self.compliance_policies@.contains_key(
            policy.id@,
        ));
        self.compliance_policies.insert(policy_id.clone(), policy);
        assert(self.policies() =~= old(self).policies().insert(policy.id@, policy@));
        self.policy_controls.insert(policy_id, enabled);
    }

    /// Sets the switch of `policy_id`, and where there is such a policy,
    /// switches it likewise.
    pub fn set_policy_control(&mut self, policy_id: &str, enabled: bool)
        ensures
            final(self).controls() == old(self).controls().insert(policy_id@, enabled),
            final(self).control_ids() == placed_keys(old(self).control_ids(), policy_id@),
            final(self).analytics() == old(self).analytics(),
            final(self).policies() == if old(self).policies().contains_key(policy_id@) {
                old(self).policies().insert(
                    policy_id@,
                    CompliancePolicyView { enabled, ..old(self).policies()[policy_id@] },
                )
            } else {
                old(self).policies()
            },
            final(self).policy_total() == old(self).policy_total(),
            forall|team_id: Seq<char>| #[trigger] final(self).team(team_id) == old(self).team(team_id),
    {
        self.policy_controls.insert(policy_id.to_string(), enabled);
        match self.compliance_policies.position(policy_id) {
            Some(at) => {
                let mut policy = self.compliance_policies.value_at(at).clone();
                policy.enabled = enabled;
                self.compliance_policies.replace_at(at, policy);
                assert(self.policies() =~= old(self).policies().insert(policy_id@, policy@));
            },
            None => {
                assert(self.policies() =~= old(self).policies());
            },
        }
    }

    /// The report: how many policies there are, how many switches are on, and
    /// the one by the other.
    pub fn get_compliance_report(&self) -> (r: ComplianceReport)
        ensures
            r == report_of(self.policy_total() as int, self.switches()),
    {
        proof {
            use_type_invariant(&self.policy_controls);
            self.policy_controls.lemma_listed();
        }
        let total_policies = self.compliance_policies.len();
        let n = self.policy_controls.len();
        let mut enabled: usize = 0;
        let mut i: usize = 0;
        while i < n
            invariant
                i <= n,
                n == self.switches().len(),
                self.switches() == self.policy_controls.values(),
                enabled == enabled_upto(self.switches(), i as int),
                enabled <= i,
            decreases n - i,
        {
            if *self.policy_controls.value_at(i) {
                enabled += 1;
            }
            i += 1;
        }
        ComplianceReport {
            total_policies,
            enabled_policies: enabled,
            compliance_score: if total_policies > 0 {
                divide(enabled as i128, total_policies as i128)
            } else {
                SCALE
            },
        }
    }
}

impl Default for EnterpriseAdminConsole {
    fn default() -> (r: Self)
        ensures
            r.analytics().is_blank(),
            forall|team_id: Seq<char>| r.team(team_id) == Seq::<TeamMember>::empty(),
            r.team_total() == 0,
            r.policies() == Map::<Seq<char>, CompliancePolicyView>::empty(),
            r.policy_total() == 0,
            r.controls() == Map::<Seq<char>, bool>::empty(),
            r.control_ids() == Seq::<Seq<char>>::empty(),
    {
        EnterpriseAdminConsole::new()
    }
}

} // verus!
