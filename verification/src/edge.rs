//! The observer at the edge: a bounded log of what the operating system
//! reported.

use vstd::prelude::*;
use crate::listing::{recent, start_of_recent};
use crate::strmap::{clone_text_map, StrMap};
use crate::text::{clone_option, option_text};

verus! {

/// The kinds of event that are captured.
#[derive(Clone, Copy, Debug, PartialEq, Eq, Structural, Hash)]
pub enum OSEventType {
    AppLaunch,
    AppSwitch,
    AppClose,
    WindowFocus,
    WindowUnfocus,
    KeyPress,
    MouseClick,
    SystemSleep,
    SystemWake,
}

/// One event, with what came along with it.
#[derive(Debug)]
pub struct OSEvent {
    pub event_type: OSEventType,
    pub app_name: String,
    pub window_title: Option<String>,
    pub timestamp: i64,
    pub metadata: StrMap<String>,
}

/// What an event holds.
pub struct OSEventView {
    pub event_type: OSEventType,
    pub app_name: Seq<char>,
    pub window_title: Option<Seq<char>>,
    pub timestamp: i64,
    pub metadata: Map<Seq<char>, String>,
}

impl View for OSEvent {
    type V = OSEventView;

    open spec fn view(&self) -> OSEventView {
        OSEventView {
            event_type: self.event_type,
            app_name: self.app_name@,
            window_title: option_text(self.window_title),
            timestamp: self.timestamp,
            metadata: self.metadata@,
        }
    }
}

impl Clone for OSEvent {
    fn clone(&self) -> (r: Self)
        ensures
            r@ == self@,
    {
        OSEvent {
            event_type: self.event_type,
            app_name: self.app_name.clone(),
            window_title: clone_option(&self.window_title),
            timestamp: self.timestamp,
            metadata: clone_text_map(&self.metadata),
        }
    }
}

/// What each event in `events` holds.
pub open spec fn event_views(events: Seq<OSEvent>) -> Seq<OSEventView> {
    Seq::new(events.len(), |i: int| events[i]@)
}

/// Whether an event of this kind puts an application in front of the user.
pub open spec fn brings_app_forward(kind: OSEventType) -> bool {
    kind == OSEventType::AppLaunch || kind == OSEventType::AppSwitch || kind
        == OSEventType::WindowFocus
}

/// The applications that `events` put in front of the user, in order.
pub open spec fn app_sequence(events: Seq<OSEventView>) -> Seq<Seq<char>>
    decreases events.len(),
{
    if events.len() == 0 {
        Seq::empty()
    } else {
        let before = app_sequence(events.drop_last());
        if brings_app_forward(events.last().event_type) {
            before.push(events.last().app_name)
        } else {
            before
        }
    }
}

/// Whether an event of this kind puts an application in front of the user.
pub fn is_app_event(kind: OSEventType) -> (r: bool)
    ensures
        r == brings_app_forward(kind),
{
    match kind {
        OSEventType::AppLaunch | OSEventType::AppSwitch | OSEventType::WindowFocus => true,
        _ => false,
    }
}

/// The applications that `events` put in front of the user, in order.
pub fn project_apps(events: &[OSEvent]) -> (apps: Vec<String>)
    ensures
        crate::strmap::views_of(apps@) == app_sequence(event_views(events@)),
{
    let mut apps: Vec<String> = Vec::new();
    let mut i: usize = 0;
    assert(event_views(events@).subrange(0, 0) =~= Seq::<OSEventView>::empty());
    assert(crate::strmap::views_of(apps@) =~= Seq::<Seq<char>>::empty());
    while i < events.len()
        invariant
            i <= events.len(),
            crate::strmap::views_of(apps@) == app_sequence(
                event_views(events@).subrange(0, i as int),
            ),
        decreases events.len() - i,
    {
        let ghost before = crate::strmap::views_of(apps@);
        proof {
            let upto = event_views(events@).subrange(0, i + 1);
            assert(upto.drop_last() =~= event_views(events@).subrange(0, i as int));
            assert(upto.last() == events@[i as int]@);
        }
        if is_app_event(events[i].event_type) {
            apps.push(events[i].app_name.clone());
            assert(crate::strmap::views_of(apps@) =~= before.push(events@[i as int].app_name@));
        }
        i += 1;
    }
    assert(event_views(events@).subrange(0, events@.len() as int) =~= event_views(events@));
    apps
}

/// The log after `event` arrived: the event is appended, and where that
/// exceeds `max_events` the oldest one leaves.
pub open spec fn after_record(log: Seq<OSEventView>, max_events: int, event: OSEventView) -> Seq<
    OSEventView,
> {
    if log.len() + 1 > max_events {
        log.push(event).drop_first()
    } else {
        log.push(event)
    }
}

/// Keeps the newest events, at most `max_events` of them.
pub struct EdgeObserver {
    events: Vec<OSEvent>,
    max_events: usize,
}

impl View for EdgeObserver {
    type V = Seq<OSEventView>;

    closed spec fn view(&self) -> Seq<OSEventView> {
        event_views(self.events@)
    }
}

impl EdgeObserver {
    /// How many events are kept at most.
    pub closed spec fn capacity(&self) -> usize {
        self.max_events
    }

    /// The log never holds more than its capacity.
    #[verifier::type_invariant]
    pub open spec fn wf(self) -> bool {
        self@.len() <= self.capacity()
    }

    /// An empty log that keeps at most `max_events` events.
    pub fn new(max_events: usize) -> (r: Self)
        ensures
            r@ == Seq::<OSEventView>::empty(),
            r.capacity() == max_events,
    {
        let r = EdgeObserver { events: Vec::new(), max_events };
        assert(r@ =~= Seq::<OSEventView>::empty());
        r
    }

    fn with_event(self, event: OSEvent) -> (r: Self)
        ensures
            r@ == after_record(self@, self.capacity() as int, event@),
            r.capacity() == self.capacity(),
    {
        proof {
            use_type_invariant(&self);
        }
        let ghost before = self@;
        let EdgeObserver { events, max_events } = self;
        let mut events = events;
        events.push(event);
        assert(event_views(events@) =~= before.push(event@));
        if events.len() > max_events {
            events.remove(0);
            assert(event_views(events@) =~= before.push(event@).drop_first());
        }
        EdgeObserver { events, max_events }
    }

    /// Appends `event`; where the log then exceeds its capacity, the oldest
    /// event leaves.
    pub fn record_event(&mut self, event: OSEvent)
        ensures
            final(self)@ == after_record(old(self)@, old(self).capacity() as int, event@),
            final(self).capacity() == old(self).capacity(),
    {
        let mut taken = EdgeObserver::new(0);
        core::mem::swap(self, &mut taken);
        *self = taken.with_event(event);
    }

    /// How many events the log holds.
    pub fn len(&self) -> (n: usize)
        ensures
            n == self@.len(),
            n <= self.capacity(),
    {
        proof {
            use_type_invariant(self);
        }
        self.events.len()
    }

    /// Copies of the newest `limit` events, oldest first.
    pub fn get_recent_events(&self, limit: usize) -> (r: Vec<OSEvent>)
        ensures
            event_views(r@) == recent(self@, limit as int),
    {
        let start = start_of_recent(self.events.len(), limit);
        let mut r: Vec<OSEvent> = Vec::new();
        let mut i: usize = start;
        while i < self.events.len()
            invariant
                start <= i <= self.events.len(),
                start == crate::listing::recent_start(self@.len() as int, limit as int),
                event_views(r@) == self@.subrange(start as int, i as int),
            decreases self.events.len() - i,
        {
            let ghost before = event_views(r@);
            r.push(self.events[i].clone());
            assert(event_views(r@) =~= before.push(self.events@[i as int]@));
            assert(self@.subrange(start as int, i + 1) =~= self@.subrange(
                start as int,
                i as int,
            ).push(self@[i as int]));
            i += 1;
        }
        r
    }

    /// The applications that the newest `n` events put in front of the user.
    pub fn get_app_sequence(&self, n: usize) -> (apps: Vec<String>)
        ensures
            crate::strmap::views_of(apps@) == app_sequence(recent(self@, n as int)),
    {
        let events = self.get_recent_events(n);
        project_apps(events.as_slice())
    }

    /// Forgets every event.
    pub fn clear(&mut self)
        ensures
            final(self)@ == Seq::<OSEventView>::empty(),
            final(self).capacity() == old(self).capacity(),
    {
        let mut taken = EdgeObserver::new(0);
        core::mem::swap(self, &mut taken);
        *self = EdgeObserver::new(taken.max_events);
    }
}

impl Default for EdgeObserver {
    fn default() -> (r: Self)
        ensures
            r@ == Seq::<OSEventView>::empty(),
            r.capacity() == 1000,
    {
        EdgeObserver::new(1000)
    }
}

} // verus!
