//! The calendar: moving flexible events out of the hours kept for focus.

use vstd::prelude::*;
use core::cmp::Ordering;
use vstd::std_specs::cmp::PartialOrdSpecImpl;
use crate::clock::{now_timestamp, utc_hour, utc_hour_of};
use crate::fixed::{saturate, saturated};
use crate::strmap::{listed, placed_keys, StrMap};
use crate::types::order_of;

verus! {

/// The first focus window begins at nine.
pub const FIRST_FOCUS_START: u8 = 9;

/// The first focus window ends at eleven.
pub const FIRST_FOCUS_END: u8 = 11;

/// The second focus window begins at two in the afternoon.
pub const SECOND_FOCUS_START: u8 = 14;

/// The second focus window ends at four in the afternoon.
pub const SECOND_FOCUS_END: u8 = 16;

/// How far ahead of now a moved event is put: one hour, in seconds.
pub const LEAD_SECONDS: i64 = 3600;

/// How much an event matters. Ordered: Low < Medium < High < Critical.
#[derive(Clone, Copy, Debug, PartialEq, Eq, Structural, Hash)]
pub enum EventPriority {
    Low,
    Medium,
    High,
    Critical,
}

impl EventPriority {
    /// The place of a priority in the order, from 0 for Low to 3 for
    /// Critical.
    pub open spec fn rank(self) -> int {
        match self {
            EventPriority::Low => 0,
            EventPriority::Medium => 1,
            EventPriority::High => 2,
            EventPriority::Critical => 3,
        }
    }

    /// The place of a priority in the order.
    pub fn level(&self) -> (r: u8)
        ensures
            r == self.rank(),
    {
        match self {
            EventPriority::Low => 0,
            EventPriority::Medium => 1,
            EventPriority::High => 2,
            EventPriority::Critical => 3,
        }
    }
}

impl PartialOrd for EventPriority {
    fn partial_cmp(&self, other: &Self) -> (r: Option<Ordering>) {
        let a = self.level();
        let b = other.level();
        if a < b {
            Some(Ordering::Less)
        } else if a > b {
            Some(Ordering::Greater)
        } else {
            Some(Ordering::Equal)
        }
    }
}

impl PartialOrdSpecImpl for EventPriority {
    open spec fn obeys_partial_cmp_spec() -> bool {
        true
    }

    open spec fn partial_cmp_spec(&self, other: &Self) -> Option<Ordering> {
        Some(order_of(self.rank(), other.rank()))
    }
}

/// An event of the calendar. Times are seconds since 1970.
#[derive(Debug)]
pub struct CalendarEvent {
    pub id: String,
    pub title: String,
    pub start_time: i64,
    pub end_time: i64,
    pub priority: EventPriority,
    pub is_flexible: bool,
}

impl Clone for CalendarEvent {
    fn clone(&self) -> (r: Self)
        ensures
            r == *self,
    {
        CalendarEvent {
            id: self.id.clone(),
            title: self.title.clone(),
            start_time: self.start_time,
            end_time: self.end_time,
            priority: self.priority,
            is_flexible: self.is_flexible,
        }
    }
}

/// A proposal to move an event.
#[derive(Debug)]
pub struct ScheduleSuggestion {
    pub event_id: String,
    pub suggested_start: i64,
    pub suggested_end: i64,
    pub reason: String,
    pub expected_benefit: String,
    pub requires_approval: bool,
}

/// What a proposal holds.
pub struct ScheduleSuggestionView {
    pub event_id: Seq<char>,
    pub suggested_start: i64,
    pub suggested_end: i64,
    pub reason: Seq<char>,
    pub expected_benefit: Seq<char>,
    pub requires_approval: bool,
}

impl View for ScheduleSuggestion {
    type V = ScheduleSuggestionView;

    open spec fn view(&self) -> ScheduleSuggestionView {
        ScheduleSuggestionView {
            event_id: self.event_id@,
            suggested_start: self.suggested_start,
            suggested_end: self.suggested_end,
            reason: self.reason@,
            expected_benefit: self.expected_benefit@,
            requires_approval: self.requires_approval,
        }
    }
}

/// Whether an event that starts in the hour `start_hour` and ends in the hour
/// `end_hour` touches a window from `from` to `to`: it starts within the
/// window, or ends within it.
pub open spec fn touches_window(start_hour: int, end_hour: int, from: int, to: int) -> bool {
    (from <= start_hour < to) || (from < end_hour <= to)
}

/// Whether an event with these hours touches one of the two focus windows.
pub open spec fn touches_focus(start_hour: int, end_hour: int) -> bool {
    touches_window(start_hour, end_hour, FIRST_FOCUS_START as int, FIRST_FOCUS_END as int)
        || touches_window(start_hour, end_hour, SECOND_FOCUS_START as int, SECOND_FOCUS_END as int)
}

/// Whether `event` is to be moved: it is flexible and touches a focus window.
pub open spec fn to_be_moved(event: CalendarEvent) -> bool {
    event.is_flexible && touches_focus(
        utc_hour(event.start_time as int),
        utc_hour(event.end_time as int),
    )
}

/// Where a moved event begins: an hour from `now`.
pub open spec fn moved_start(now: i64) -> int {
    saturated(now + LEAD_SECONDS)
}

/// Where a moved event ends: as long after its new start as it lasted.
pub open spec fn moved_end(event: CalendarEvent, now: i64) -> int {
    saturated(moved_start(now) + saturated(event.end_time - event.start_time))
}

/// The proposal that `analyze_schedule` makes for `event` at `now`.
pub open spec fn analysis_suggestion(event: CalendarEvent, now: i64) -> ScheduleSuggestionView {
    ScheduleSuggestionView {
        event_id: event.id@,
        suggested_start: moved_start(now) as i64,
        suggested_end: moved_end(event, now) as i64,
        reason: "Move to preserve focus hours (9:00-11:00)"@,
        expected_benefit: "Preserve 2 hours of peak focus time"@,
        requires_approval: event.priority.rank() >= EventPriority::Medium.rank(),
    }
}

/// The proposal that `anticipatory_schedule` makes for `event` at `now`.
pub open spec fn anticipatory_suggestion(event: CalendarEvent, now: i64) -> ScheduleSuggestionView {
    ScheduleSuggestionView {
        event_id: event.id@,
        suggested_start: moved_start(now) as i64,
        suggested_end: moved_end(event, now) as i64,
        reason: "Schedule outside focus hours to maximize productivity"@,
        expected_benefit: "Preserve cognitive peak performance window"@,
        requires_approval: event.priority.rank() >= EventPriority::Medium.rank(),
    }
}

/// The proposals for the first `n` events, in their order: one for each event
/// that is to be moved.
pub open spec fn suggestions_upto(events: Seq<CalendarEvent>, now: i64, n: int) -> Seq<
    ScheduleSuggestionView,
>
    decreases n,
{
    if n <= 0 {
        Seq::empty()
    } else if to_be_moved(events[n - 1]) {
        suggestions_upto(events, now, n - 1).push(analysis_suggestion(events[n - 1], now))
    } else {
        suggestions_upto(events, now, n - 1)
    }
}

/// What each proposal in `list` holds.
pub open spec fn suggestion_views(list: Seq<ScheduleSuggestion>) -> Seq<ScheduleSuggestionView> {
    Seq::new(list.len(), |i: int| list[i]@)
}

/// Whether an event with these hours touches one of the two focus windows.
pub fn conflicts_with_hours(start_hour: u32, end_hour: u32) -> (r: bool)
    ensures
        r == touches_focus(start_hour as int, end_hour as int),
{
    (start_hour >= 9 && start_hour < 11) || (end_hour > 9 && end_hour <= 11) || (start_hour >= 14
        && start_hour < 16) || (end_hour > 14 && end_hour <= 16)
}

/// Where `event` goes when it is moved at `now`: it begins an hour from now
/// and lasts as long as before. Sums that an `i64` cannot hold stop at its
/// ends.
pub fn find_optimal_slot_at(event: &CalendarEvent, now: i64) -> (r: (i64, i64))
    ensures
        r.0 == moved_start(now),
        r.1 == moved_end(*event, now),
{
    let duration = saturate((event.end_time as i128) - (event.start_time as i128));
    let start = saturate((now as i128) + (LEAD_SECONDS as i128));
    (start, saturate((start as i128) + (duration as i128)))
}

/// Proposes new times for events that get in the way of focus.
pub struct CalendarNegotiationAgent {
    events: StrMap<CalendarEvent>,
    optimal_focus_hours: Vec<(u8, u8)>,
}

impl CalendarNegotiationAgent {
    /// The events by id.
    pub closed spec fn events(&self) -> Map<Seq<char>, CalendarEvent> {
        self.events@
    }

    /// The ids of the events, in the order in which they were first added.
    pub closed spec fn event_ids(&self) -> Seq<Seq<char>> {
        self.events.keys()
    }

    /// The events in the order in which their ids were first added.
    pub open spec fn event_list(&self) -> Seq<CalendarEvent> {
        listed(self.events(), self.event_ids())
    }

    /// The windows kept for focus, as hours of the day.
    pub closed spec fn focus_hours(&self) -> Seq<(u8, u8)> {
        self.optimal_focus_hours@
    }

    /// The focus windows are from nine to eleven and from two to four.
    #[verifier::type_invariant]
    pub open spec fn wf(self) -> bool {
        self.focus_hours() == seq![
            (FIRST_FOCUS_START, FIRST_FOCUS_END),
            (SECOND_FOCUS_START, SECOND_FOCUS_END),
        ]
    }

    /// An agent without events.
    pub fn new() -> (r: Self)
        ensures
            r.events() == Map::<Seq<char>, CalendarEvent>::empty(),
            r.event_ids() == Seq::<Seq<char>>::empty(),
    {
        let mut hours: Vec<(u8, u8)> = Vec::new();
        hours.push((FIRST_FOCUS_START, FIRST_FOCUS_END));
        hours.push((SECOND_FOCUS_START, SECOND_FOCUS_END));
        assert(hours@ =~= seq![
            (FIRST_FOCUS_START, FIRST_FOCUS_END),
            (SECOND_FOCUS_START, SECOND_FOCUS_END),
        ]);
        CalendarNegotiationAgent { events: StrMap::new(), optimal_focus_hours: hours }
    }

    /// How many events are held.
    pub fn event_count(&self) -> (n: usize)
        ensures
            n == self.event_ids().len(),
    {
        self.events.len()
    }

    /// How many focus windows there are.
    pub fn focus_window_count(&self) -> (n: usize)
        ensures
            n == 2,
    {
        proof {
            use_type_invariant(self);
        }
        self.optimal_focus_hours.len()
    }

    fn with_event(self, event: CalendarEvent) -> (r: Self)
        ensures
            r.events() == self.events().insert(event.id@, event),
            r.event_ids() == placed_keys(self.event_ids(), event.id@),
    {
        proof {
            use_type_invariant(&self);
        }
        let CalendarNegotiationAgent { events, optimal_focus_hours } = self;
        let mut events = events;
        events.insert(event.id.clone(), event);
        CalendarNegotiationAgent { events, optimal_focus_hours }
    }

    /// Adds `event` under its id, in place of the event that was there, if
    /// any.
    pub fn add_event(&mut self, event: CalendarEvent)
        ensures
            final(self).events() == old(self).events().insert(event.id@, event),
            final(self).event_ids() == placed_keys(old(self).event_ids(), event.id@),
    {
        let mut taken = CalendarNegotiationAgent::new();
        core::mem::swap(self, &mut taken);
        *self = taken.with_event(event);
    }

    /// Whether `event` starts or ends within a focus window, by the hours of
    /// the day of its times in UTC.
    pub fn conflicts_with_focus_hours(&self, event: &CalendarEvent) -> (r: bool)
        ensures
            r == touches_focus(utc_hour(event.start_time as int), utc_hour(event.end_time as int)),
    {
        conflicts_with_hours(utc_hour_of(event.start_time), utc_hour_of(event.end_time))
    }

    /// The proposals for the events held, as if the clock read `now`.
    pub fn analyze_schedule_at(&self, date: i64, now: i64) -> (r: Vec<ScheduleSuggestion>)
        ensures
            suggestion_views(r@) == suggestions_upto(
                self.event_list(),
                now,
                self.event_list().len() as int,
            ),
    {
        let mut suggestions: Vec<ScheduleSuggestion> = Vec::new();
        let mut i: usize = 0;
        let n = self.events.len();
        proof {
            use_type_invariant(&self.events);
            self.events.lemma_listed();
        }
        assert(suggestion_views(suggestions@) =~= Seq::<ScheduleSuggestionView>::empty());
        while i < n
            invariant
                i <= n,
                n == self.event_list().len(),
                self.event_list() == self.events.values(),
                suggestion_views(suggestions@) == suggestions_upto(self.event_list(), now, i as int),
            decreases n - i,
        {
            let event = self.events.value_at(i);
            if self.conflicts_with_focus_hours(event) && event.is_flexible {
                let (optimal_start, optimal_end) = find_optimal_slot_at(event, now);
                let suggestion = ScheduleSuggestion {
                    event_id: event.id.clone(),
                    suggested_start: optimal_start,
                    suggested_end: optimal_end,
                    reason: "Move to preserve focus hours (9:00-11:00)".to_string(),
                    expected_benefit: "Preserve 2 hours of peak focus time".to_string(),
                    requires_approval: event.priority.level() >= EventPriority::Medium.level(),
                };
                let ghost before = suggestion_views(suggestions@);
                suggestions.push(suggestion);
                assert(suggestion_views(suggestions@) =~= before.push(suggestion@));
            }
            i += 1;
        }
        suggestions
    }

    /// One proposal for each event held that is flexible and touches a focus
    /// window, in the order of the events: the event is put an hour from the
    /// time the clock reads. The date given plays no part.
    pub fn analyze_schedule(&self, date: i64) -> (r: Vec<ScheduleSuggestion>)
        ensures
            exists|now: i64|
                suggestion_views(r@) == #[trigger] suggestions_upto(
                    self.event_list(),
                    now,
                    self.event_list().len() as int,
                ),
    {
        let now = now_timestamp();
        self.analyze_schedule_at(date, now)
    }

    /// The proposal for an event that is about to be added, as if the clock
    /// read `now`.
    pub fn anticipatory_schedule_at(&self, new_event: &CalendarEvent, now: i64) -> (r: Option<
        ScheduleSuggestion,
    >)
        ensures
            match r {
                Some(suggestion) => to_be_moved(*new_event) && suggestion@ == anticipatory_suggestion(
                    *new_event,
                    now,
                ),
                None => !to_be_moved(*new_event),
            },
    {
        if self.conflicts_with_focus_hours(new_event) && new_event.is_flexible {
            let (optimal_start, optimal_end) = find_optimal_slot_at(new_event, now);
            Some(
                ScheduleSuggestion {
                    event_id: new_event.id.clone(),
                    suggested_start: optimal_start,
                    suggested_end: optimal_end,
                    reason: "Schedule outside focus hours to maximize productivity".to_string(),
                    expected_benefit: "Preserve cognitive peak performance window".to_string(),
                    requires_approval: new_event.priority.level() >= EventPriority::Medium.level(),
                },
            )
        } else {
            None
        }
    }

    /// A proposal for an event that is about to be added, where the event is
    /// flexible and touches a focus window: it is put an hour from the time
    /// the clock reads.
    pub fn anticipatory_schedule(&self, new_event: &CalendarEvent) -> (r: Option<ScheduleSuggestion>)
        ensures
            match r {
                Some(suggestion) => to_be_moved(*new_event) && exists|now: i64|
                    suggestion@ == #[trigger] anticipatory_suggestion(*new_event, now),
                None => !to_be_moved(*new_event),
            },
    {
        let now = now_timestamp();
        self.anticipatory_schedule_at(new_event, now)
    }
}

impl Default for CalendarNegotiationAgent {
    fn default() -> (r: Self)
        ensures
            r.events() == Map::<Seq<char>, CalendarEvent>::empty(),
            r.event_ids() == Seq::<Seq<char>>::empty(),
    {
        CalendarNegotiationAgent::new()
    }
}

} // verus!
