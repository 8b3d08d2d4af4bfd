//! Consent asked for one capability at a time, and the timeline that shows
//! the user what was done with it.

use vstd::prelude::*;
use crate::clock::now_timestamp;
use crate::listing::{pushed_within, recent, recent_refs};
use crate::privacy::{granted, revoked, ConsentLedger, LedgerView};
use crate::strmap::views_of;
use crate::text::{clone_option, debug_of, debug_text, join2, option_text, same_text};

verus! {

/// How many entries the timeline keeps.
pub const TIMELINE_LIMIT: usize = 1000;

/// How many entries `get_timeline` returns where no limit is given.
pub const DEFAULT_TIMELINE_LIMIT: usize = 100;

/// A request for consent to one capability, and what became of it.
#[derive(Debug)]
pub struct MicroConsent {
    pub capability: String,
    pub description: String,
    pub requested_at: i64,
    pub granted_at: Option<i64>,
    pub revoked_at: Option<i64>,
}

/// What a request holds.
pub struct MicroConsentView {
    pub capability: Seq<char>,
    pub description: Seq<char>,
    pub requested_at: i64,
    pub granted_at: Option<i64>,
    pub revoked_at: Option<i64>,
}

impl View for MicroConsent {
    type V = MicroConsentView;

    open spec fn view(&self) -> MicroConsentView {
        MicroConsentView {
            capability: self.capability@,
            description: self.description@,
            requested_at: self.requested_at,
            granted_at: self.granted_at,
            revoked_at: self.revoked_at,
        }
    }
}

impl Clone for MicroConsent {
    fn clone(&self) -> (r: Self)
        ensures
            r == *self,
    {
        MicroConsent {
            capability: self.capability.clone(),
            description: self.description.clone(),
            requested_at: self.requested_at,
            granted_at: self.granted_at,
            revoked_at: self.revoked_at,
        }
    }
}

/// One line of the timeline: what happened, when, and which data it touched.
#[derive(Debug)]
pub struct TimelineEntry {
    pub timestamp: i64,
    pub event_type: String,
    pub description: String,
    pub data_accessed: Vec<String>,
    pub action_taken: Option<String>,
}

/// What a line of the timeline holds.
pub struct TimelineEntryView {
    pub timestamp: i64,
    pub event_type: Seq<char>,
    pub description: Seq<char>,
    pub data_accessed: Seq<Seq<char>>,
    pub action_taken: Option<Seq<char>>,
}

impl View for TimelineEntry {
    type V = TimelineEntryView;

    open spec fn view(&self) -> TimelineEntryView {
        TimelineEntryView {
            timestamp: self.timestamp,
            event_type: self.event_type@,
            description: self.description@,
            data_accessed: views_of(self.data_accessed@),
            action_taken: option_text(self.action_taken),
        }
    }
}

/// What each request in `consents` holds.
pub open spec fn consent_views(consents: Seq<MicroConsent>) -> Seq<MicroConsentView> {
    Seq::new(consents.len(), |i: int| consents[i]@)
}

/// What each line in `timeline` holds.
pub open spec fn timeline_views(timeline: Seq<TimelineEntry>) -> Seq<TimelineEntryView> {
    Seq::new(timeline.len(), |i: int| timeline[i]@)
}

/// What a manager holds.
pub struct ConsentState {
    pub ledger: LedgerView,
    pub consents: Seq<MicroConsentView>,
    pub timeline: Seq<TimelineEntryView>,
}

/// The line stamped `now` that holds what is given.
pub open spec fn entry_of(
    event_type: Seq<char>,
    description: Seq<char>,
    data_accessed: Seq<Seq<char>>,
    action_taken: Option<Seq<char>>,
    now: i64,
) -> TimelineEntryView {
    TimelineEntryView { timestamp: now, event_type, description, data_accessed, action_taken }
}

/// The line that notes an event about one capability.
pub open spec fn capability_entry(
    event_type: Seq<char>,
    description: Seq<char>,
    capability: Seq<char>,
    now: i64,
) -> TimelineEntryView {
    TimelineEntryView {
        timestamp: now,
        event_type,
        description,
        data_accessed: seq![capability],
        action_taken: None,
    }
}

/// The first place at or behind `from` whose request is for `capability` and,
/// where `open_only` holds, has not been granted; the length of the list where
/// there is none.
pub open spec fn first_request(
    consents: Seq<MicroConsentView>,
    capability: Seq<char>,
    open_only: bool,
    from: int,
) -> int
    decreases consents.len() - from,
{
    if from < 0 || from >= consents.len() {
        consents.len() as int
    } else if consents[from].capability == capability && (!open_only
        || consents[from].granted_at is None) {
        from
    } else {
        first_request(consents, capability, open_only, from + 1)
    }
}

/// Whether one of the first `n` requests for `capability` is granted and not
/// revoked.
pub open spec fn consent_stands(
    consents: Seq<MicroConsentView>,
    capability: Seq<char>,
    n: int,
) -> bool
    decreases n,
{
    if n <= 0 {
        false
    } else {
        consent_stands(consents, capability, n - 1) || (consents[n - 1].capability == capability
            && consents[n - 1].granted_at is Some && consents[n - 1].revoked_at is None)
    }
}

/// The state after consent to `capability` was asked for at `now`.
pub open spec fn after_request(
    pre: ConsentState,
    capability: Seq<char>,
    description: Seq<char>,
    now: i64,
) -> ConsentState {
    ConsentState {
        ledger: pre.ledger,
        consents: pre.consents.push(
            MicroConsentView {
                capability,
                description,
                requested_at: now,
                granted_at: None,
                revoked_at: None,
            },
        ),
        timeline: pushed_within(
            pre.timeline,
            TIMELINE_LIMIT as int,
            capability_entry(
                "consent_requested"@,
                "Requested consent for: "@ + description,
                capability,
                now,
            ),
        ),
    }
}

/// What `grant_consent` does at `now`: the oldest request for `capability`
/// that has not been granted is granted, the ledger opts in, and the timeline
/// notes it. Where there is no such request, nothing changes and the call
/// fails.
pub open spec fn grant_step(
    pre: ConsentState,
    capability: Seq<char>,
    now: i64,
    post: ConsentState,
    result: Result<(), String>,
) -> bool {
    let at = first_request(pre.consents, capability, true, 0);
    if at < pre.consents.len() {
        &&& result is Ok
        &&& post == ConsentState {
            ledger: granted(pre.ledger, capability),
            consents: pre.consents.update(
                at,
                MicroConsentView { granted_at: Some(now), ..pre.consents[at] },
            ),
            timeline: pushed_within(
                pre.timeline,
                TIMELINE_LIMIT as int,
                capability_entry(
                    "consent_granted"@,
                    "Granted consent for: "@ + capability,
                    capability,
                    now,
                ),
            ),
        }
    } else {
        &&& result matches Err(e) && e@ == "Consent not found or already granted"@
        &&& post == pre
    }
}

/// What `revoke_consent` does at `now`: the oldest request for `capability` is
/// marked as revoked, the ledger opts out and notes the revocation, and the
/// timeline notes it. Where there is no request, nothing changes and the call
/// fails.
pub open spec fn revoke_step(
    pre: ConsentState,
    capability: Seq<char>,
    reason: Option<String>,
    now: i64,
    post: ConsentState,
    result: Result<(), String>,
) -> bool {
    let at = first_request(pre.consents, capability, false, 0);
    if at < pre.consents.len() {
        &&& result is Ok
        &&& exists|name: String|
            name@ == capability && post.ledger == #[trigger] revoked(pre.ledger, name, reason, now)
        &&& post.consents == pre.consents.update(
            at,
            MicroConsentView { revoked_at: Some(now), ..pre.consents[at] },
        )
        &&& post.timeline == pushed_within(
            pre.timeline,
            TIMELINE_LIMIT as int,
            capability_entry(
                "consent_revoked"@,
                "Revoked consent for: "@ + capability + " - reason: "@ + debug_text(
                    option_text(reason),
                ),
                capability,
                now,
            ),
        )
    } else {
        &&& result matches Err(e) && e@ == "Consent not found"@
        &&& post == pre
    }
}

/// Asks for consent capability by capability and keeps the timeline.
pub struct MicroConsentManager {
    consent_ledger: ConsentLedger,
    micro_consents: Vec<MicroConsent>,
    timeline: Vec<TimelineEntry>,
}

impl View for MicroConsentManager {
    type V = ConsentState;

    closed spec fn view(&self) -> ConsentState {
        ConsentState {
            ledger: self.consent_ledger@,
            consents: consent_views(self.micro_consents@),
            timeline: timeline_views(self.timeline@),
        }
    }
}

impl MicroConsentManager {
    /// A manager without requests, with an empty timeline and a ledger made
    /// at `now`.
    pub fn new_at(now: i64) -> (r: Self)
        ensures
            r@.ledger == crate::privacy::fresh_ledger(now),
            r@.consents == Seq::<MicroConsentView>::empty(),
            r@.timeline == Seq::<TimelineEntryView>::empty(),
    {
        let r = MicroConsentManager {
            consent_ledger: ConsentLedger::new_at(now),
            micro_consents: Vec::new(),
            timeline: Vec::new(),
        };
        assert(r@.consents =~= Seq::<MicroConsentView>::empty());
        assert(r@.timeline =~= Seq::<TimelineEntryView>::empty());
        r
    }

    /// A manager without requests, with an empty timeline and a ledger made
    /// at the time the clock reads.
    pub fn new() -> (r: Self)
        ensures
            r@.consents == Seq::<MicroConsentView>::empty(),
            r@.timeline == Seq::<TimelineEntryView>::empty(),
            exists|now: i64| r@.ledger == crate::privacy::fresh_ledger(now),
    {
        MicroConsentManager::new_at(now_timestamp())
    }

    /// The ledger.
    pub fn ledger(&self) -> (r: &ConsentLedger)
        ensures
            r@ == self@.ledger,
    {
        &self.consent_ledger
    }

    /// How many requests were made.
    pub fn consent_count(&self) -> (n: usize)
        ensures
            n == self@.consents.len(),
    {
        self.micro_consents.len()
    }

    /// How many lines the timeline holds.
    pub fn timeline_len(&self) -> (n: usize)
        ensures
            n == self@.timeline.len(),
    {
        self.timeline.len()
    }

    /// Adds a line to the timeline as if the clock read `now`. The timeline
    /// keeps its newest thousand lines.
    pub fn add_timeline_entry_at(
        &mut self,
        event_type: String,
        description: String,
        data_accessed: Vec<String>,
        action_taken: Option<String>,
        now: i64,
    )
        ensures
            final(self)@.ledger == old(self)@.ledger,
            final(self)@.consents == old(self)@.consents,
            final(self)@.timeline == pushed_within(
                old(self)@.timeline,
                TIMELINE_LIMIT as int,
                entry_of(
                    event_type@,
                    description@,
                    views_of(data_accessed@),
                    option_text(action_taken),
                    now,
                ),
            ),
    {
        let entry = TimelineEntry {
            timestamp: now,
            event_type,
            description,
            data_accessed,
            action_taken,
        };
        let ghost before = timeline_views(self.timeline@);
        self.timeline.push(entry);
        assert(timeline_views(self.timeline@) =~= before.push(entry@));
        if self.timeline.len() > TIMELINE_LIMIT {
            self.timeline.remove(0);
            assert(timeline_views(self.timeline@) =~= before.push(entry@).drop_first());
        }
    }

    /// Adds a line to the timeline, stamped with the time the clock reads.
    pub fn add_timeline_entry(
        &mut self,
        event_type: String,
        description: String,
        data_accessed: Vec<String>,
        action_taken: Option<String>,
    )
        ensures
            final(self)@.ledger == old(self)@.ledger,
            final(self)@.consents == old(self)@.consents,
            exists|now: i64|
                final(self)@.timeline == pushed_within(
                    old(self)@.timeline,
                    TIMELINE_LIMIT as int,
                    #[trigger] entry_of(
                        event_type@,
                        description@,
                        views_of(data_accessed@),
                        option_text(action_taken),
                        now,
                    ),
                ),
    {
        let now = now_timestamp();
        self.add_timeline_entry_at(event_type, description, data_accessed, action_taken, now);
    }

    fn note(&mut self, event_type: &str, description: String, capability: &str, now: i64)
        ensures
            final(self)@.ledger == old(self)@.ledger,
            final(self)@.consents == old(self)@.consents,
            final(self)@.timeline == pushed_within(
                old(self)@.timeline,
                TIMELINE_LIMIT as int,
                capability_entry(event_type@, description@, capability@, now),
            ),
    {
        let mut data: Vec<String> = Vec::new();
        data.push(capability.to_string());
        assert(views_of(data@) =~= seq![capability@]);
        self.add_timeline_entry_at(event_type.to_string(), description, data, None, now);
    }

    /// Asks for consent to `capability` as if the clock read `now`.
    pub fn request_consent_at(&mut self, capability: String, description: String, now: i64) -> (r:
        MicroConsent)
        ensures
            final(self)@ == after_request(old(self)@, capability@, description@, now),
            r@ == final(self)@.consents.last(),
    {
        let consent = MicroConsent {
            capability: capability.clone(),
            description: description.clone(),
            requested_at: now,
            granted_at: None,
            revoked_at: None,
        };
        let ghost before = consent_views(self.micro_consents@);
        self.micro_consents.push(consent.clone());
        assert(consent_views(self.micro_consents@) =~= before.push(consent@));
        let text = join2("Requested consent for: ", description.as_str());
        self.note("consent_requested", text, capability.as_str(), now);
        consent
    }

    /// Notes a request for consent to `capability`, which is neither granted
    /// nor revoked yet, and a line in the timeline that says so.
    pub fn request_consent(&mut self, capability: String, description: String) -> (r: MicroConsent)
        ensures
            exists|now: i64|
                final(self)@ == #[trigger] after_request(
                    old(self)@,
                    capability@,
                    description@,
                    now,
                ),
            r@ == final(self)@.consents.last(),
    {
        let now = now_timestamp();
        self.request_consent_at(capability, description, now)
    }

    fn find_request(&self, capability: &str, open_only: bool) -> (at: usize)
        ensures
            at == first_request(self@.consents, capability@, open_only, 0),
            at <= self@.consents.len(),
    {
        let mut i: usize = 0;
        while i < self.micro_consents.len()
            invariant
                i <= self.micro_consents.len(),
                first_request(self@.consents, capability@, open_only, 0) == first_request(
                    self@.consents,
                    capability@,
                    open_only,
                    i as int,
                ),
            decreases self.micro_consents.len() - i,
        {
            let consent = &self.micro_consents[i];
            assert(self@.consents[i as int] == consent@);
            if same_text(consent.capability.as_str(), capability) && (!open_only
                || consent.granted_at.is_none()) {
                return i;
            }
            i += 1;
        }
        i
    }

    /// Grants the oldest request for `capability` that has not been granted,
    /// as if the clock read `now`.
    pub fn grant_consent_at(&mut self, capability: &str, now: i64) -> (r: Result<(), String>)
        ensures
            grant_step(old(self)@, capability@, now, final(self)@, r),
    {
        let at = self.find_request(capability, true);
        if at < self.micro_consents.len() {
            let found = &self.micro_consents[at];
            let updated = MicroConsent {
                capability: found.capability.clone(),
                description: found.description.clone(),
                requested_at: found.requested_at,
                granted_at: Some(now),
                revoked_at: found.revoked_at,
            };
            let ghost before = consent_views(self.micro_consents@);
            self.micro_consents.set(at, updated);
            assert(consent_views(self.micro_consents@) =~= before.update(at as int, updated@));
            self.consent_ledger.grant(capability);
            let text = join2("Granted consent for: ", capability);
            self.note("consent_granted", text, capability, now);
            Ok(())
        } else {
            Err("Consent not found or already granted".to_string())
        }
    }

    /// Grants the oldest request for `capability` that has not been granted:
    /// it is stamped with the time the clock reads, the ledger opts in, and the
    /// timeline notes it. Fails where there is no such request.
    pub fn grant_consent(&mut self, capability: &str) -> (r: Result<(), String>)
        ensures
            exists|now: i64| grant_step(old(self)@, capability@, now, final(self)@, r),
    {
        let now = now_timestamp();
        self.grant_consent_at(capability, now)
    }

    /// Revokes the oldest request for `capability` as if the clock read
    /// `now`.
    pub fn revoke_consent_at(&mut self, capability: &str, reason: Option<String>, now: i64) -> (r:
        Result<(), String>)
        ensures
            revoke_step(old(self)@, capability@, reason, now, final(self)@, r),
    {
        let at = self.find_request(capability, false);
        if at < self.micro_consents.len() {
            let found = &self.micro_consents[at];
            let updated = MicroConsent {
                capability: found.capability.clone(),
                description: found.description.clone(),
                requested_at: found.requested_at,
                granted_at: found.granted_at,
                revoked_at: Some(now),
            };
            let ghost before = consent_views(self.micro_consents@);
            self.micro_consents.set(at, updated);
            assert(consent_views(self.micro_consents@) =~= before.update(at as int, updated@));
            let name = capability.to_string();
            let detail = debug_of(&reason);
            let head = join2("Revoked consent for: ", capability);
            let middle = join2(head.as_str(), " - reason: ");
            let text = join2(middle.as_str(), detail.as_str());
            let ghost ledger_before = self.consent_ledger@;
            self.consent_ledger.revoke_consent_at(name, clone_option(&reason), now);
            assert(self.consent_ledger@ == revoked(ledger_before, name, reason, now));
            self.note("consent_revoked", text, capability, now);
            assert(ledger_before == old(self)@.ledger);
            assert(name@ == capability@ && self@.ledger == revoked(
                old(self)@.ledger,
                name,
                reason,
                now,
            ));
            Ok(())
        } else {
            Err("Consent not found".to_string())
        }
    }

    /// Revokes the oldest request for `capability`: it is stamped with the
    /// time the clock reads, the ledger opts out and notes the revocation with
    /// its reason, and the timeline notes it. Fails where there is no request.
    pub fn revoke_consent(&mut self, capability: &str, reason: Option<String>) -> (r: Result<
        (),
        String,
    >)
        ensures
            exists|now: i64| revoke_step(old(self)@, capability@, reason, now, final(self)@, r),
    {
        let now = now_timestamp();
        self.revoke_consent_at(capability, reason, now)
    }

    /// The newest `limit` lines of the timeline, oldest first; the newest
    /// hundred where no limit is given.
    pub fn get_timeline(&self, limit: Option<usize>) -> (r: Vec<&TimelineEntry>)
        ensures
            ({
                let n = match limit {
                    Some(n) => n as int,
                    None => DEFAULT_TIMELINE_LIMIT as int,
                };
                &&& r@.len() == recent(self@.timeline, n).len()
                &&& forall|i: int| 0 <= i < r@.len() ==> (#[trigger] r@[i])@ == recent(self@.timeline, n)[i]
            }),
    {
        let n = match limit {
            Some(n) => n,
            None => DEFAULT_TIMELINE_LIMIT,
        };
        recent_refs(&self.timeline, n)
    }

    /// Whether a request for `capability` is granted and not revoked.
    pub fn has_consent(&self, capability: &str) -> (r: bool)
        ensures
            r == consent_stands(self@.consents, capability@, self@.consents.len() as int),
    {
        let mut i: usize = 0;
        while i < self.micro_consents.len()
            invariant
                i <= self.micro_consents.len(),
                !consent_stands(self@.consents, capability@, i as int),
            decreases self.micro_consents.len() - i,
        {
            let consent = &self.micro_consents[i];
            assert(self@.consents[i as int] == consent@);
            if same_text(consent.capability.as_str(), capability) && consent.granted_at.is_some()
                && consent.revoked_at.is_none() {
                proof {
                    lemma_consent_stands_from(self@.consents, capability@, i + 1, self@.consents.len() as int);
                }
                return true;
            }
            i += 1;
        }
        false
    }
}

/// Consent that stands among the first `a` requests stands among the first
/// `b`, for `b` no smaller.
pub proof fn lemma_consent_stands_from(
    consents: Seq<MicroConsentView>,
    capability: Seq<char>,
    a: int,
    b: int,
)
    requires
        a <= b,
        consent_stands(consents, capability, a),
    ensures
        consent_stands(consents, capability, b),
    decreases b - a,
{
    if a < b {
        lemma_consent_stands_from(consents, capability, a, b - 1);
    }
}

impl Default for MicroConsentManager {
    fn default() -> (r: Self)
        ensures
            r@.consents == Seq::<MicroConsentView>::empty(),
            r@.timeline == Seq::<TimelineEntryView>::empty(),
            exists|now: i64| r@.ledger == crate::privacy::fresh_ledger(now),
    {
        MicroConsentManager::new()
    }
}

} // verus!
