//! The stream of victories: small wins, noted when they happen and summed up
//! by the day.

use vstd::prelude::*;
use crate::clock::{now_timestamp, utc_date, utc_date_of};
use crate::fixed::{saturate, saturated, truncate, whole_part};
use crate::listing::{recent, recent_refs};
use crate::strmap::StrMap;
use crate::text::{decimal, decimal_text, join2};
use crate::types::{Observation, Outcome};

verus! {

/// More minutes saved than this are a victory (5).
pub const VICTORY_MINUTES: i64 = 5_000_000;

/// What a victory is measured in.
#[derive(Clone, Copy, Debug, PartialEq, Eq, Structural, Hash)]
pub enum VictoryMetric {
    TimeSaved,
    FocusIncrease,
    PatternOptimized,
    ErrorReduced,
    HabitFormed,
}

/// What a victory is about.
#[derive(Clone, Copy, Debug, PartialEq, Eq, Structural, Hash)]
pub enum VictoryCategory {
    Productivity,
    Focus,
    Automation,
    Learning,
    Wellbeing,
}

/// A small win. The value is fixed-point.
#[derive(Debug)]
pub struct Victory {
    pub id: String,
    pub title: String,
    pub description: String,
    pub metric: VictoryMetric,
    pub value: i64,
    pub timestamp: i64,
    pub category: VictoryCategory,
}

/// What a victory holds.
pub struct VictoryView {
    pub id: Seq<char>,
    pub title: Seq<char>,
    pub description: Seq<char>,
    pub metric: VictoryMetric,
    pub value: i64,
    pub timestamp: i64,
    pub category: VictoryCategory,
}

impl View for Victory {
    type V = VictoryView;

    open spec fn view(&self) -> VictoryView {
        VictoryView {
            id: self.id@,
            title: self.title@,
            description: self.description@,
            metric: self.metric,
            value: self.value,
            timestamp: self.timestamp,
            category: self.category,
        }
    }
}

impl Clone for Victory {
    fn clone(&self) -> (r: Self)
        ensures
            r == *self,
    {
        Victory {
            id: self.id.clone(),
            title: self.title.clone(),
            description: self.description.clone(),
            metric: self.metric,
            value: self.value,
            timestamp: self.timestamp,
            category: self.category,
        }
    }
}

/// The victories of a day in figures. Minutes are fixed-point.
#[derive(Clone, Debug)]
pub struct VictorySummary {
    pub date: String,
    pub total_victories: usize,
    pub total_time_saved_min: i64,
    pub categories: Vec<VictoryCategory>,
}

/// The victory noted at `now`.
pub open spec fn victory_at(
    title: Seq<char>,
    description: Seq<char>,
    metric: VictoryMetric,
    value: i64,
    category: VictoryCategory,
    now: i64,
) -> VictoryView {
    VictoryView {
        id: "victory_"@ + decimal_text(now as int),
        title,
        description,
        metric,
        value,
        timestamp: now,
        category,
    }
}

/// The victory that an outcome earns, if it saved more than five minutes.
pub open spec fn victory_of(outcome: Outcome, observation: Observation, now: i64) -> Option<
    VictoryView,
> {
    match outcome.time_saved_minutes {
        Some(minutes) => if minutes > VICTORY_MINUTES {
            Some(
                victory_at(
                    "Saved "@ + decimal_text(whole_part(minutes as int)) + " minutes!"@,
                    "Optimized workflow: "@ + observation.action.description@,
                    VictoryMetric::TimeSaved,
                    minutes,
                    crate::victory::VictoryCategory::Productivity,
                    now,
                ),
            )
        } else {
            None
        },
        None => None,
    }
}

/// What each victory in `list` holds.
pub open spec fn victory_views(list: Seq<Victory>) -> Seq<VictoryView> {
    Seq::new(list.len(), |i: int| list[i]@)
}

/// The victories noted under `date`; none where the day is unknown.
pub open spec fn victories_on(days: Map<Seq<char>, Vec<Victory>>, date: Seq<char>) -> Seq<
    VictoryView,
> {
    if days.contains_key(date) {
        victory_views(days[date]@)
    } else {
        Seq::empty()
    }
}

/// The minutes saved by the first `n` victories: the values of those that are
/// measured in time saved.
pub open spec fn minutes_upto(list: Seq<VictoryView>, n: int) -> int
    decreases n,
{
    if n <= 0 {
        0
    } else {
        minutes_upto(list, n - 1) + if list[n - 1].metric == VictoryMetric::TimeSaved {
            list[n - 1].value as int
        } else {
            0
        }
    }
}

/// The categories of the victories, in their order.
pub open spec fn categories_of(list: Seq<VictoryView>) -> Seq<VictoryCategory> {
    Seq::new(list.len(), |i: int| list[i].category)
}

/// Keeps the victories, all together and by the day.
pub struct VictoryStream {
    victories: Vec<Victory>,
    daily_victories: StrMap<Vec<Victory>>,
}

impl View for VictoryStream {
    type V = Seq<VictoryView>;

    closed spec fn view(&self) -> Seq<VictoryView> {
        victory_views(self.victories@)
    }
}

impl VictoryStream {
    /// The victories noted under `date`, oldest first.
    pub closed spec fn on(&self, date: Seq<char>) -> Seq<VictoryView> {
        victories_on(self.daily_victories@, date)
    }

    /// A stream without victories.
    pub fn new() -> (r: Self)
        ensures
            r@ == Seq::<VictoryView>::empty(),
            forall|date: Seq<char>| r.on(date) == Seq::<VictoryView>::empty(),
    {
        let r = VictoryStream { victories: Vec::new(), daily_victories: StrMap::new() };
        assert(r@ =~= Seq::<VictoryView>::empty());
        r
    }

    /// How many victories were noted.
    pub fn victory_count(&self) -> (n: usize)
        ensures
            n == self@.len(),
    {
        self.victories.len()
    }

    /// Notes a victory as if the clock read `now`.
    pub fn record_victory_at(
        &mut self,
        title: String,
        description: String,
        metric: VictoryMetric,
        value: i64,
        category: VictoryCategory,
        now: i64,
    )
        ensures
            final(self)@ == old(self)@.push(
                victory_at(title@, description@, metric, value, category, now),
            ),
            final(self).on(utc_date(now as int)) == old(self).on(utc_date(now as int)).push(
                victory_at(title@, description@, metric, value, category, now),
            ),
            forall|date: Seq<char>|
                date != utc_date(now as int) ==> #[trigger] final(self).on(date) == old(self).on(date),
    {
        let victory = Victory {
            id: join2("victory_", decimal(now).as_str()),
            title,
            description,
            metric,
            value,
            timestamp: now,
            category,
        };
        let date = utc_date_of(now);
        let ghost before = self@;
        self.victories.push(victory.clone());
        assert(self@ =~= before.push(victory@));
        match self.daily_victories.position(date.as_str()) {
            Some(at) => {
                let mut day = self.daily_victories.replace_at(at, Vec::new());
                let ghost day_before = victory_views(day@);
                day.push(victory);
                assert(victory_views(day@) =~= day_before.push(victory@));
                self.daily_victories.replace_at(at, day);
            },
            None => {
                let mut day: Vec<Victory> = Vec::new();
                day.push(victory);
                assert(victory_views(day@) =~= Seq::<VictoryView>::empty().push(victory@));
                self.daily_victories.insert(date, day);
            },
        }
    }

    /// Notes a victory with an id made of the time the clock reads, among all
    /// victories and among those of the day.
    pub fn record_victory(
        &mut self,
        title: String,
        description: String,
        metric: VictoryMetric,
        value: i64,
        category: VictoryCategory,
    )
        ensures
            exists|now: i64|
                {
                    &&& final(self)@ == old(self)@.push(
                        #[trigger] victory_at(title@, description@, metric, value, category, now),
                    )
                    &&& final(self).on(utc_date(now as int)) == old(self).on(
                        utc_date(now as int),
                    ).push(victory_at(title@, description@, metric, value, category, now))
                },
    {
        let now = now_timestamp();
        self.record_victory_at(title, description, metric, value, category, now);
    }

    /// Notes the victory that `outcome` earns, as if the clock read `now`.
    pub fn record_from_outcome_at(&mut self, outcome: &Outcome, observation: &Observation, now: i64)
        ensures
            final(self)@ == match victory_of(*outcome, *observation, now) {
                Some(victory) => old(self)@.push(victory),
                None => old(self)@,
            },
            final(self).on(utc_date(now as int)) == match victory_of(*outcome, *observation, now) {
                Some(victory) => old(self).on(utc_date(now as int)).push(victory),
                None => old(self).on(utc_date(now as int)),
            },
    {
        match outcome.time_saved_minutes {
            Some(time_saved) => {
                if time_saved > VICTORY_MINUTES {
                    let a = join2("Saved ", decimal(truncate(time_saved)).as_str());
                    self.record_victory_at(
                        join2(a.as_str(), " minutes!"),
                        join2("Optimized workflow: ", observation.action.description.as_str()),
                        VictoryMetric::TimeSaved,
                        time_saved,
                        VictoryCategory::Productivity,
                        now,
                    );
                }
            },
            None => {},
        }
    }

    /// Notes a victory where `outcome` saved more than five minutes, named by
    /// the whole minutes saved and the action of `observation`.
    pub fn record_from_outcome(&mut self, outcome: &Outcome, observation: &Observation)
        ensures
            exists|now: i64|
                final(self)@ == match #[trigger] victory_of(*outcome, *observation, now) {
                    Some(victory) => old(self)@.push(victory),
                    None => old(self)@,
                },
    {
        let now = now_timestamp();
        self.record_from_outcome_at(outcome, observation, now);
    }

    fn day_refs(&self, date: &str) -> (r: Vec<&Victory>)
        ensures
            r@.len() == self.on(date@).len(),
            forall|i: int| 0 <= i < r@.len() ==> (#[trigger] r@[i])@ == self.on(date@)[i],
    {
        let mut r: Vec<&Victory> = Vec::new();
        match self.daily_victories.get(date) {
            Some(day) => {
                let mut i: usize = 0;
                while i < day.len()
                    invariant
                        i <= day.len(),
                        r@.len() == i,
                        forall|j: int| 0 <= j < i ==> *(#[trigger] r@[j]) == day@[j],
                    decreases day.len() - i,
                {
                    r.push(&day[i]);
                    i += 1;
                }
            },
            None => {},
        }
        r
    }

    /// The victories of the day of `now`, oldest first.
    pub fn get_today_victories_at(&self, now: i64) -> (r: Vec<&Victory>)
        ensures
            r@.len() == self.on(utc_date(now as int)).len(),
            forall|i: int|
                0 <= i < r@.len() ==> (#[trigger] r@[i])@ == self.on(utc_date(now as int))[i],
    {
        let today = utc_date_of(now);
        self.day_refs(today.as_str())
    }

    /// The victories of the day that the clock reads, oldest first.
    pub fn get_today_victories(&self) -> (r: Vec<&Victory>)
        ensures
            exists|now: i64|
                {
                    &&& r@.len() == self.on(#[trigger] utc_date(now as int)).len()
                    &&& forall|i: int|
                        0 <= i < r@.len() ==> (#[trigger] r@[i])@ == self.on(utc_date(now as int))[i]
                },
    {
        let now = now_timestamp();
        self.get_today_victories_at(now)
    }

    /// The victories of `date` in figures: how many there were, how many
    /// minutes those measured in time saved, and the category of each.
    pub fn get_daily_summary(&self, date: &str) -> (r: VictorySummary)
        ensures
            r.date@ == date@,
            r.total_victories == self.on(date@).len(),
            r.total_time_saved_min == saturated(
                minutes_upto(self.on(date@), self.on(date@).len() as int),
            ),
            r.categories@ == categories_of(self.on(date@)),
    {
        let day = self.day_refs(date);
        let ghost list = self.on(date@);
        let mut minutes: i128 = 0;
        let mut categories: Vec<VictoryCategory> = Vec::new();
        let mut i: usize = 0;
        while i < day.len()
            invariant
                i <= day.len(),
                list == self.on(date@),
                day@.len() == list.len(),
                forall|j: int| 0 <= j < day@.len() ==> (#[trigger] day@[j])@ == list[j],
                minutes == minutes_upto(list, i as int),
                -(i as int) * 0x8000_0000_0000_0000 <= minutes <= (i as int) * 0x7fff_ffff_ffff_ffff,
                categories@ == categories_of(list).subrange(0, i as int),
            decreases day.len() - i,
        {
            let victory = day[i];
            assert(victory@ == list[i as int]);
            if victory.metric == VictoryMetric::TimeSaved {
                minutes = minutes + (victory.value as i128);
            }
            categories.push(victory.category);
            assert(categories@ =~= categories_of(list).subrange(0, i + 1));
            i += 1;
        }
        assert(categories_of(list).subrange(0, list.len() as int) =~= categories_of(list));
        VictorySummary {
            date: date.to_string(),
            total_victories: day.len(),
            total_time_saved_min: saturate(minutes),
            categories,
        }
    }

    /// The newest `limit` victories, oldest first.
    pub fn get_recent_victories(&self, limit: usize) -> (r: Vec<&Victory>)
        ensures
            r@.len() == recent(self@, limit as int).len(),
            forall|i: int| 0 <= i < r@.len() ==> (#[trigger] r@[i])@ == recent(self@, limit as int)[i],
    {
        recent_refs(&self.victories, limit)
    }
}

impl Default for VictoryStream {
    fn default() -> (r: Self)
        ensures
            r@ == Seq::<VictoryView>::empty(),
            forall|date: Seq<char>| r.on(date) == Seq::<VictoryView>::empty(),
    {
        VictoryStream::new()
    }
}

} // verus!
