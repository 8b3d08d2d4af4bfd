//! Getting ready for launch: the narrative, the onboarding playbook, and the
//! support desk.

use vstd::prelude::*;
use crate::clock::now_timestamp;
use crate::strmap::StrMap;
use crate::text::{decimal, decimal_text, join2};

verus! {

/// What is told about the product, and to whom.
#[derive(Clone, Debug)]
pub struct MarketingNarrative {
    pub tagline: String,
    pub value_proposition: String,
    pub key_features: Vec<String>,
    pub target_audience: Vec<String>,
}

/// One step of onboarding.
#[derive(Clone, Debug)]
pub struct OnboardingStep {
    pub step_number: usize,
    pub title: String,
    pub description: String,
    pub required: bool,
}

/// The steps of onboarding and how long they take together.
#[derive(Clone, Debug)]
pub struct OnboardingPlaybook {
    pub steps: Vec<OnboardingStep>,
    pub estimated_duration_min: usize,
}

/// What a request for support is about.
#[derive(Clone, Copy, Debug, PartialEq, Eq, Structural, Hash)]
pub enum SupportCategory {
    Technical,
    Billing,
    FeatureRequest,
    BugReport,
    General,
}

/// How far a request for support has come.
#[derive(Clone, Copy, Debug, PartialEq, Eq, Structural, Hash)]
pub enum TicketStatus {
    Open,
    InProgress,
    Resolved,
    Closed,
}

/// A request for support.
#[derive(Debug)]
pub struct SupportTicket {
    pub id: String,
    pub user_id: String,
    pub category: SupportCategory,
    pub description: String,
    pub status: TicketStatus,
    pub created_at: i64,
}

/// What a ticket holds.
pub struct SupportTicketView {
    pub id: Seq<char>,
    pub user_id: Seq<char>,
    pub category: SupportCategory,
    pub description: Seq<char>,
    pub status: TicketStatus,
    pub created_at: i64,
}

impl View for SupportTicket {
    type V = SupportTicketView;

    open spec fn view(&self) -> SupportTicketView {
        SupportTicketView {
            id: self.id@,
            user_id: self.user_id@,
            category: self.category,
            description: self.description@,
            status: self.status,
            created_at: self.created_at,
        }
    }
}

impl Clone for SupportTicket {
    fn clone(&self) -> (r: Self)
        ensures
            r == *self,
    {
        SupportTicket {
            id: self.id.clone(),
            user_id: self.user_id.clone(),
            category: self.category,
            description: self.description.clone(),
            status: self.status,
            created_at: self.created_at,
        }
    }
}

/// What is ready for launch.
#[derive(Clone, Copy, Debug, PartialEq, Eq, Structural)]
pub struct LaunchReadiness {
    pub marketing_narrative_ready: bool,
    pub onboarding_playbook_ready: bool,
    pub support_ops_ready: bool,
    pub overall_ready: bool,
}

/// The ticket opened at `now`: its id is made of the time.
pub open spec fn opened_ticket(
    user_id: Seq<char>,
    category: SupportCategory,
    description: Seq<char>,
    now: i64,
) -> SupportTicketView {
    SupportTicketView {
        id: "ticket_"@ + decimal_text(now as int),
        user_id,
        category,
        description,
        status: TicketStatus::Open,
        created_at: now,
    }
}

/// What each ticket holds, by id.
pub open spec fn ticket_views(tickets: Map<Seq<char>, SupportTicket>) -> Map<
    Seq<char>,
    SupportTicketView,
> {
    Map::new(|id: Seq<char>| tickets.contains_key(id), |id: Seq<char>| tickets[id]@)
}

/// Keeps what a launch needs.
pub struct PublicLaunchManager {
    marketing_narrative: Option<MarketingNarrative>,
    onboarding_playbook: Option<OnboardingPlaybook>,
    support_tickets: StrMap<SupportTicket>,
}

impl PublicLaunchManager {
    /// The narrative, once it is set.
    pub closed spec fn narrative(&self) -> Option<MarketingNarrative> {
        self.marketing_narrative
    }

    /// The playbook, once it is set.
    pub closed spec fn playbook(&self) -> Option<OnboardingPlaybook> {
        self.onboarding_playbook
    }

    /// The tickets, by id.
    pub closed spec fn tickets(&self) -> Map<Seq<char>, SupportTicketView> {
        ticket_views(self.support_tickets@)
    }

    /// A manager with nothing set and no ticket.
    pub fn new() -> (r: Self)
        ensures
            r.narrative() is None,
            r.playbook() is None,
            r.tickets() == Map::<Seq<char>, SupportTicketView>::empty(),
    {
        let r = PublicLaunchManager {
            marketing_narrative: None,
            onboarding_playbook: None,
            support_tickets: StrMap::new(),
        };
        assert(r.tickets() =~= Map::<Seq<char>, SupportTicketView>::empty());
        r
    }

    /// Sets the narrative.
    pub fn set_marketing_narrative(&mut self, narrative: MarketingNarrative)
        ensures
            final(self).narrative() == Some(narrative),
            final(self).playbook() == old(self).playbook(),
            final(self).tickets() == old(self).tickets(),
    {
        self.marketing_narrative = Some(narrative);
    }

    /// Sets the playbook.
    pub fn set_onboarding_playbook(&mut self, playbook: OnboardingPlaybook)
        ensures
            final(self).playbook() == Some(playbook),
            final(self).narrative() == old(self).narrative(),
            final(self).tickets() == old(self).tickets(),
    {
        self.onboarding_playbook = Some(playbook);
    }

    /// Opens a ticket as if the clock read `now`. A ticket opened in the same
    /// second takes the place of the one before.
    pub fn create_support_ticket_at(
        &mut self,
        user_id: String,
        category: SupportCategory,
        description: String,
        now: i64,
    ) -> (r: SupportTicket)
        ensures
            r@ == opened_ticket(user_id@, category, description@, now),
            final(self).tickets() == old(self).tickets().insert(r@.id, r@),
            final(self).narrative() == old(self).narrative(),
            final(self).playbook() == old(self).playbook(),
    {
        let stamp = decimal(now);
        let ticket = SupportTicket {
            id: join2("ticket_", stamp.as_str()),
            user_id,
            category,
            description,
            status: TicketStatus::Open,
            created_at: now,
        };
        self.support_tickets.insert(ticket.id.clone(), ticket.clone());
        assert(self.tickets() =~= old(self).tickets().insert(ticket@.id, ticket@));
        ticket
    }

    /// Opens a ticket at the time the clock reads and keeps it under its id.
    pub fn create_support_ticket(
        &mut self,
        user_id: String,
        category: SupportCategory,
        description: String,
    ) -> (r: SupportTicket)
        ensures
            exists|now: i64| r@ == #[trigger] opened_ticket(user_id@, category, description@, now),
            final(self).tickets() == old(self).tickets().insert(r@.id, r@),
            final(self).narrative() == old(self).narrative(),
            final(self).playbook() == old(self).playbook(),
    {
        let now = now_timestamp();
        self.create_support_ticket_at(user_id, category, description, now)
    }

    /// The narrative, once it is set.
    pub fn marketing_narrative(&self) -> (r: &Option<MarketingNarrative>)
        ensures
            *r == self.narrative(),
    {
        &self.marketing_narrative
    }

    /// The playbook, once it is set.
    pub fn onboarding_playbook(&self) -> (r: &Option<OnboardingPlaybook>)
        ensures
            *r == self.playbook(),
    {
        &self.onboarding_playbook
    }

    /// The ticket under `id`.
    pub fn get_ticket(&self, id: &str) -> (r: Option<&SupportTicket>)
        ensures
            match r {
                Some(ticket) => self.tickets().contains_key(id@) && ticket@ == self.tickets()[id@],
                None => !self.tickets().contains_key(id@),
            },
    {
        self.support_tickets.get(id)
    }

    /// How many tickets are kept.
    pub fn ticket_count(&self) -> (n: usize)
        ensures
            n == self.tickets().dom().len(),
    {
        proof {
            use_type_invariant(&self.support_tickets);
            self.support_tickets.lemma_len();
            assert(self.tickets().dom() =~= self.support_tickets@.dom());
        }
        self.support_tickets.len()
    }

    /// What is ready: the launch as a whole is ready once the narrative and
    /// the playbook are set. Support always counts as ready.
    pub fn get_readiness_checklist(&self) -> (r: LaunchReadiness)
        ensures
            r.marketing_narrative_ready == (self.narrative() is Some),
            r.onboarding_playbook_ready == (self.playbook() is Some),
            r.support_ops_ready,
            r.overall_ready == (self.narrative() is Some && self.playbook() is Some),
    {
        LaunchReadiness {
            marketing_narrative_ready: self.marketing_narrative.is_some(),
            onboarding_playbook_ready: self.onboarding_playbook.is_some(),
            support_ops_ready: true,
            overall_ready: self.marketing_narrative.is_some() && self.onboarding_playbook.is_some(),
        }
    }
}

impl Default for PublicLaunchManager {
    fn default() -> (r: Self)
        ensures
            r.narrative() is None,
            r.playbook() is None,
            r.tickets() == Map::<Seq<char>, SupportTicketView>::empty(),
    {
        PublicLaunchManager::new()
    }
}

} // verus!
