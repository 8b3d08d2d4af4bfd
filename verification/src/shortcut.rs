//! Shortcuts: proposals to automate what is repeated, and their approval.

use vstd::prelude::*;
use crate::clock::now_timestamp;
use crate::listing::kept;
use crate::models::{initial_weights, RecommendationRanker};
use crate::pattern_miner::{CausalRelationshipView, PatternMiner};
use crate::strmap::{listed, placed_keys, value_views, view_map, views_of, StrMap};
use crate::text::{clone_texts, join, join2, joined};
use crate::types::{lookup_or_zero, value_or_zero, Confidence, Observation, ObservationView, RiskCategory};

verus! {

/// A sequence must have been repeated this often to become a shortcut (5).
pub const ENOUGH_REPETITION: i64 = 5_000_000;

/// A sequence must have this many steps to become a shortcut.
pub const ENOUGH_STEPS: usize = 3;

/// What became of a proposal.
#[derive(Clone, Copy, Debug, PartialEq, Eq, Structural, Hash)]
pub enum ApprovalStatus {
    Pending,
    Approved,
    Rejected,
    Modified,
}

/// A proposal to automate a sequence. Minutes are fixed-point.
#[derive(Debug)]
pub struct ShortcutProposal {
    pub id: String,
    pub description: String,
    pub sequence: Vec<String>,
    pub expected_time_saved_min: i64,
    pub confidence: Confidence,
    pub risk: RiskCategory,
    pub requires_approval: bool,
    pub created_at: i64,
}

/// What a proposal holds.
pub struct ShortcutProposalView {
    pub id: Seq<char>,
    pub description: Seq<char>,
    pub sequence: Seq<Seq<char>>,
    pub expected_time_saved_min: i64,
    pub confidence: Confidence,
    pub risk: RiskCategory,
    pub requires_approval: bool,
    pub created_at: i64,
}

impl View for ShortcutProposal {
    type V = ShortcutProposalView;

    open spec fn view(&self) -> ShortcutProposalView {
        ShortcutProposalView {
            id: self.id@,
            description: self.description@,
            sequence: views_of(self.sequence@),
            expected_time_saved_min: self.expected_time_saved_min,
            confidence: self.confidence,
            risk: self.risk,
            requires_approval: self.requires_approval,
            created_at: self.created_at,
        }
    }
}

impl Clone for ShortcutProposal {
    fn clone(&self) -> (r: Self)
        ensures
            r@ == self@,
    {
        ShortcutProposal {
            id: self.id.clone(),
            description: self.description.clone(),
            sequence: clone_texts(&self.sequence),
            expected_time_saved_min: self.expected_time_saved_min,
            confidence: self.confidence,
            risk: self.risk,
            requires_approval: self.requires_approval,
            created_at: self.created_at,
        }
    }
}

/// Whether an observation earns a shortcut: it has three steps or more and
/// was repeated five times or more.
pub open spec fn earns_shortcut(obs: ObservationView) -> bool {
    obs.observation.len() >= ENOUGH_STEPS && value_or_zero(obs.metrics, "repeat_count"@)
        >= ENOUGH_REPETITION
}

/// The proposal made at `now` for an observation. It needs approval unless
/// the action carries no risk and high confidence.
pub open spec fn proposal_for(obs: ObservationView, now: i64) -> ShortcutProposalView {
    ShortcutProposalView {
        id: "shortcut_"@ + obs.id,
        description: "Automate sequence: "@ + joined(obs.observation, " → "@),
        sequence: obs.observation,
        expected_time_saved_min: value_or_zero(obs.expected_outcome, "time_saved_min"@) as i64,
        confidence: obs.action.confidence,
        risk: obs.action.risk,
        requires_approval: obs.action.risk != RiskCategory::NoRisk || obs.action.confidence.rank()
            < Confidence::High.rank(),
        created_at: now,
    }
}

/// What `generate_shortcut` does at `now`: an observation that earns a
/// shortcut has its proposal kept under its id, in place of the one that was
/// there, and the proposal waits for approval; any other changes nothing.
pub open spec fn generation(
    proposals: Map<Seq<char>, ShortcutProposalView>,
    ids: Seq<Seq<char>>,
    approvals: Map<Seq<char>, ApprovalStatus>,
    obs: ObservationView,
    now: i64,
    proposals_after: Map<Seq<char>, ShortcutProposalView>,
    ids_after: Seq<Seq<char>>,
    approvals_after: Map<Seq<char>, ApprovalStatus>,
    result: Option<ShortcutProposal>,
) -> bool {
    let proposal = proposal_for(obs, now);
    if earns_shortcut(obs) {
        &&& result matches Some(made) && made@ == proposal
        &&& proposals_after == proposals.insert(proposal.id, proposal)
        &&& ids_after == placed_keys(ids, proposal.id)
        &&& approvals_after == approvals.insert(proposal.id, ApprovalStatus::Pending)
    } else {
        &&& result is None
        &&& proposals_after == proposals
        &&& ids_after == ids
        &&& approvals_after == approvals
    }
}

/// What each proposal holds, by id.
pub open spec fn proposal_views(proposals: Map<Seq<char>, ShortcutProposal>) -> Map<
    Seq<char>,
    ShortcutProposalView,
> {
    view_map(proposals)
}

/// What each proposal that was found holds.
pub open spec fn found_proposals(found: Seq<&ShortcutProposal>) -> Seq<ShortcutProposalView> {
    Seq::new(found.len(), |i: int| found[i]@)
}

/// Whether a proposal waits for approval that it needs.
pub open spec fn waits(approvals: Map<Seq<char>, ApprovalStatus>) -> spec_fn(ShortcutProposalView) -> bool {
    |p: ShortcutProposalView|
        approvals.contains_key(p.id) && approvals[p.id] == ApprovalStatus::Pending
            && p.requires_approval
}

/// Whether a proposal has the status `wanted` and, where `only_if_needed`
/// holds, needs approval.
pub open spec fn chosen(
    approvals: Map<Seq<char>, ApprovalStatus>,
    wanted: ApprovalStatus,
    only_if_needed: bool,
) -> spec_fn(ShortcutProposalView) -> bool {
    |p: ShortcutProposalView|
        approvals.contains_key(p.id) && approvals[p.id] == wanted && (!only_if_needed
            || p.requires_approval)
}

/// Whether a proposal is approved.
pub open spec fn approved(approvals: Map<Seq<char>, ApprovalStatus>) -> spec_fn(ShortcutProposalView) -> bool {
    |p: ShortcutProposalView| approvals.contains_key(p.id) && approvals[p.id] == ApprovalStatus::Approved
}

/// Makes proposals and follows their approval.
pub struct ShortcutGenerator {
    ranker: RecommendationRanker,
    pattern_miner: PatternMiner,
    proposals: StrMap<ShortcutProposal>,
    approvals: StrMap<ApprovalStatus>,
}

impl ShortcutGenerator {
    /// The proposals by id.
    pub closed spec fn proposals(&self) -> Map<Seq<char>, ShortcutProposalView> {
        proposal_views(self.proposals@)
    }

    /// The ids of the proposals, in the order in which they were first used.
    pub closed spec fn proposal_ids(&self) -> Seq<Seq<char>> {
        self.proposals.keys()
    }

    /// The proposals in the order in which their ids were first used.
    pub open spec fn proposal_list(&self) -> Seq<ShortcutProposalView> {
        listed(self.proposals(), self.proposal_ids())
    }

    /// What became of each proposal, by id.
    pub closed spec fn approvals(&self) -> Map<Seq<char>, ApprovalStatus> {
        self.approvals@
    }

    /// The ranker that the generator holds.
    pub closed spec fn ranker(&self) -> RecommendationRanker {
        self.ranker
    }

    /// The miner that the generator holds.
    pub closed spec fn miner(&self) -> PatternMiner {
        self.pattern_miner
    }

    /// A generator without proposals, with a ranker that has the initial
    /// weights and a miner that has seen nothing.
    pub fn new() -> (r: Self)
        ensures
            r.ranker().weights() == initial_weights(),
            r.miner().history() == Seq::<Seq<Seq<char>>>::empty(),
            forall|cause: Seq<char>|
                r.miner().relations_of(cause) == Seq::<CausalRelationshipView>::empty(),
            r.miner().size() == 0,
            r.proposals() == Map::<Seq<char>, ShortcutProposalView>::empty(),
            r.proposal_ids() == Seq::<Seq<char>>::empty(),
            r.approvals() == Map::<Seq<char>, ApprovalStatus>::empty(),
    {
        let r = ShortcutGenerator {
            ranker: RecommendationRanker::new(),
            pattern_miner: PatternMiner::new(),
            proposals: StrMap::new(),
            approvals: StrMap::new(),
        };
        assert(r.proposals() =~= Map::<Seq<char>, ShortcutProposalView>::empty());
        r
    }

    /// How many proposals there are.
    pub fn proposal_count(&self) -> (n: usize)
        ensures
            n == self.proposal_ids().len(),
    {
        self.proposals.len()
    }

    /// What became of the proposal `shortcut_id`.
    pub fn get_approval(&self, shortcut_id: &str) -> (r: Option<ApprovalStatus>)
        ensures
            match r {
                Some(status) => self.approvals().contains_key(shortcut_id@) && status
                    == self.approvals()[shortcut_id@],
                None => !self.approvals().contains_key(shortcut_id@),
            },
    {
        match self.approvals.get(shortcut_id) {
            Some(status) => Some(*status),
            None => None,
        }
    }

    /// Makes a proposal as if the clock read `now`.
    pub fn generate_shortcut_at(&mut self, observation: &Observation, now: i64) -> (r: Option<
        ShortcutProposal,
    >)
        ensures
            generation(
                old(self).proposals(),
                old(self).proposal_ids(),
                old(self).approvals(),
                observation@,
                now,
                final(self).proposals(),
                final(self).proposal_ids(),
                final(self).approvals(),
                r,
            ),
            final(self).ranker() == old(self).ranker(),
            final(self).miner() == old(self).miner(),
    {
        if observation.observation.len() < ENOUGH_STEPS {
            return None;
        }
        let repeat_count = lookup_or_zero(&observation.metrics, "repeat_count");
        if repeat_count < ENOUGH_REPETITION {
            return None;
        }
        let expected_saved = lookup_or_zero(&observation.expected_outcome, "time_saved_min");
        let proposal = ShortcutProposal {
            id: join2("shortcut_", observation.id.as_str()),
            description: join2("Automate sequence: ", join(&observation.observation, " → ").as_str()),
            sequence: clone_texts(&observation.observation),
            expected_time_saved_min: expected_saved,
            confidence: observation.action.confidence,
            risk: observation.action.risk,
            requires_approval: observation.action.risk.level() != RiskCategory::NoRisk.level()
                || observation.action.confidence.level() < Confidence::High.level(),
            created_at: now,
        };
        let stored = proposal.clone();
        self.proposals.insert(proposal.id.clone(), stored);
        assert(self.proposals() =~= old(self).proposals().insert(proposal@.id, proposal@));
        self.approvals.insert(proposal.id.clone(), ApprovalStatus::Pending);
        Some(proposal)
    }

    /// Makes a proposal for the sequence of `observation`, where it has three
    /// steps or more and was repeated five times or more. The proposal is kept
    /// under its id and waits for approval.
    pub fn generate_shortcut(&mut self, observation: &Observation) -> (r: Option<ShortcutProposal>)
        ensures
            exists|now: i64|
                generation(
                    old(self).proposals(),
                    old(self).proposal_ids(),
                    old(self).approvals(),
                    observation@,
                    now,
                    final(self).proposals(),
                    final(self).proposal_ids(),
                    final(self).approvals(),
                    r,
                ),
            final(self).ranker() == old(self).ranker(),
            final(self).miner() == old(self).miner(),
    {
        let now = now_timestamp();
        self.generate_shortcut_at(observation, now)
    }

    fn decide(&mut self, shortcut_id: &str, status: ApprovalStatus) -> (r: Result<(), String>)
        ensures
            final(self).proposals() == old(self).proposals(),
            final(self).proposal_ids() == old(self).proposal_ids(),
            final(self).ranker() == old(self).ranker(),
            final(self).miner() == old(self).miner(),
            match r {
                Ok(_) => old(self).approvals().contains_key(shortcut_id@) && final(self).approvals()
                    == old(self).approvals().insert(shortcut_id@, status),
                Err(e) => !old(self).approvals().contains_key(shortcut_id@) && e@
                    == "Shortcut not found"@ && final(self).approvals() == old(self).approvals(),
            },
    {
        match self.approvals.position(shortcut_id) {
            Some(at) => {
                self.approvals.replace_at(at, status);
                Ok(())
            },
            None => Err("Shortcut not found".to_string()),
        }
    }

    /// Approves the proposal `shortcut_id`; fails where there is none.
    pub fn approve_shortcut(&mut self, shortcut_id: &str) -> (r: Result<(), String>)
        ensures
            final(self).proposals() == old(self).proposals(),
            final(self).proposal_ids() == old(self).proposal_ids(),
            final(self).ranker() == old(self).ranker(),
            final(self).miner() == old(self).miner(),
            match r {
                Ok(_) => old(self).approvals().contains_key(shortcut_id@) && final(self).approvals()
                    == old(self).approvals().insert(shortcut_id@, ApprovalStatus::Approved),
                Err(e) => !old(self).approvals().contains_key(shortcut_id@) && e@
                    == "Shortcut not found"@ && final(self).approvals() == old(self).approvals(),
            },
    {
        self.decide(shortcut_id, ApprovalStatus::Approved)
    }

    /// Rejects the proposal `shortcut_id`; fails where there is none.
    pub fn reject_shortcut(&mut self, shortcut_id: &str) -> (r: Result<(), String>)
        ensures
            final(self).proposals() == old(self).proposals(),
            final(self).proposal_ids() == old(self).proposal_ids(),
            final(self).ranker() == old(self).ranker(),
            final(self).miner() == old(self).miner(),
            match r {
                Ok(_) => old(self).approvals().contains_key(shortcut_id@) && final(self).approvals()
                    == old(self).approvals().insert(shortcut_id@, ApprovalStatus::Rejected),
                Err(e) => !old(self).approvals().contains_key(shortcut_id@) && e@
                    == "Shortcut not found"@ && final(self).approvals() == old(self).approvals(),
            },
    {
        self.decide(shortcut_id, ApprovalStatus::Rejected)
    }

    fn select(&self, wanted: ApprovalStatus, only_if_needed: bool) -> (r: Vec<&ShortcutProposal>)
        ensures
            found_proposals(r@) == kept(
                self.proposal_list(),
                chosen(self.approvals(), wanted, only_if_needed),
                self.proposal_list().len() as int,
            ),
    {
        let ghost keep = chosen(self.approvals(), wanted, only_if_needed);
        let mut r: Vec<&ShortcutProposal> = Vec::new();
        let mut i: usize = 0;
        let n = self.proposals.len();
        proof {
            use_type_invariant(&self.proposals);
            self.proposals.lemma_listed_views();
        }
        assert(found_proposals(r@) =~= Seq::<ShortcutProposalView>::empty());
        while i < n
            invariant
                i <= n,
                n == self.proposal_list().len(),
                n == self.proposals.values().len(),
                self.proposal_list() == value_views(self.proposals.values()),
                keep == chosen(self.approvals(), wanted, only_if_needed),
                found_proposals(r@) == kept(self.proposal_list(), keep, i as int),
            decreases n - i,
        {
            let proposal = self.proposals.value_at(i);
            assert(self.proposal_list()[i as int] == proposal@);
            let status = self.approvals.get(proposal.id.as_str());
            let matches = match status {
                Some(found) => *found == wanted,
                None => false,
            };
            if matches && (!only_if_needed || proposal.requires_approval) {
                let ghost before = found_proposals(r@);
                r.push(proposal);
                assert(found_proposals(r@) =~= before.push(proposal@));
            }
            i += 1;
        }
        r
    }

    /// The proposals that need approval and wait for it, in the order in
    /// which their ids were first used.
    pub fn get_pending_proposals(&self) -> (r: Vec<&ShortcutProposal>)
        ensures
            found_proposals(r@) == kept(
                self.proposal_list(),
                waits(self.approvals()),
                self.proposal_list().len() as int,
            ),
    {
        let r = self.select(ApprovalStatus::Pending, true);
        proof {
            lemma_same_filter(
                self.proposal_list(),
                chosen(self.approvals(), ApprovalStatus::Pending, true),
                waits(self.approvals()),
                self.proposal_list().len() as int,
            );
        }
        r
    }

    /// The proposals that are approved, in the order in which their ids were
    /// first used.
    pub fn get_approved_shortcuts(&self) -> (r: Vec<&ShortcutProposal>)
        ensures
            found_proposals(r@) == kept(
                self.proposal_list(),
                approved(self.approvals()),
                self.proposal_list().len() as int,
            ),
    {
        let r = self.select(ApprovalStatus::Approved, false);
        proof {
            lemma_same_filter(
                self.proposal_list(),
                chosen(self.approvals(), ApprovalStatus::Approved, false),
                approved(self.approvals()),
                self.proposal_list().len() as int,
            );
        }
        r
    }
}

/// Two tests that agree on every item keep the same items.
pub proof fn lemma_same_filter<T>(items: Seq<T>, a: spec_fn(T) -> bool, b: spec_fn(T) -> bool, n: int)
    requires
        n <= items.len(),
        forall|i: int| 0 <= i < items.len() ==> a(#[trigger] items[i]) == b(items[i]),
    ensures
        kept(items, a, n) == kept(items, b, n),
    decreases n,
{
    if n > 0 {
        lemma_same_filter(items, a, b, n - 1);
    }
}

impl Default for ShortcutGenerator {
    fn default() -> (r: Self)
        ensures
            r.ranker().weights() == initial_weights(),
            r.miner().history() == Seq::<Seq<Seq<char>>>::empty(),
            forall|cause: Seq<char>|
                r.miner().relations_of(cause) == Seq::<CausalRelationshipView>::empty(),
            r.miner().size() == 0,
            r.proposals() == Map::<Seq<char>, ShortcutProposalView>::empty(),
            r.proposal_ids() == Seq::<Seq<char>>::empty(),
            r.approvals() == Map::<Seq<char>, ApprovalStatus>::empty(),
    {
        ShortcutGenerator::new()
    }
}

} // verus!
