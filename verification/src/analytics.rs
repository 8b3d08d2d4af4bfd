//! Analytics: metrics as they come in, sorted onto a dashboard.

use vstd::prelude::*;
use crate::clock::now_timestamp;
use crate::cohort::CohortStatistics;
use crate::listing::{kept, recent, recent_refs};

verus! {

/// What a metric is about.
#[derive(Clone, Copy, Debug, PartialEq, Eq, Structural, Hash)]
pub enum MetricCategory {
    Operations,
    Safety,
    Product,
    UserEngagement,
}

/// One measurement. The value is fixed-point.
#[derive(Debug)]
pub struct AnalyticsMetric {
    pub name: String,
    pub value: i64,
    pub timestamp: i64,
    pub category: MetricCategory,
}

impl Clone for AnalyticsMetric {
    fn clone(&self) -> (r: Self)
        ensures
            r == *self,
    {
        AnalyticsMetric {
            name: self.name.clone(),
            value: self.value,
            timestamp: self.timestamp,
            category: self.category,
        }
    }
}

/// The metrics by category, and the latest figures on the cohort.
#[derive(Debug)]
pub struct AnalyticsDashboard {
    pub ops_metrics: Vec<AnalyticsMetric>,
    pub safety_metrics: Vec<AnalyticsMetric>,
    pub product_metrics: Vec<AnalyticsMetric>,
    pub cohort_stats: Option<CohortStatistics>,
}

/// The metric measured at `now`.
pub open spec fn metric_at(name: String, value: i64, category: MetricCategory, now: i64) -> AnalyticsMetric {
    AnalyticsMetric { name, value, timestamp: now, category }
}

/// A list of metrics with `metric` behind it, if it is of the category `of`.
pub open spec fn sorted_in(
    list: Seq<AnalyticsMetric>,
    metric: AnalyticsMetric,
    of: MetricCategory,
) -> Seq<AnalyticsMetric> {
    if metric.category == of {
        list.push(metric)
    } else {
        list
    }
}

/// Collects metrics.
pub struct AnalyticsAggregator {
    metrics: Vec<AnalyticsMetric>,
    dashboard: AnalyticsDashboard,
}

impl View for AnalyticsAggregator {
    type V = Seq<AnalyticsMetric>;

    closed spec fn view(&self) -> Seq<AnalyticsMetric> {
        self.metrics@
    }
}

impl AnalyticsAggregator {
    /// The dashboard.
    pub closed spec fn board(&self) -> AnalyticsDashboard {
        self.dashboard
    }

    /// Whether nothing was recorded: no metric, an empty dashboard and no
    /// statistics of a cohort.
    pub open spec fn is_blank(&self) -> bool {
        &&& self@ == Seq::<AnalyticsMetric>::empty()
        &&& self.board().ops_metrics@ == Seq::<AnalyticsMetric>::empty()
        &&& self.board().safety_metrics@ == Seq::<AnalyticsMetric>::empty()
        &&& self.board().product_metrics@ == Seq::<AnalyticsMetric>::empty()
        &&& self.board().cohort_stats is None
    }

    /// An aggregator without metrics.
    pub fn new() -> (r: Self)
        ensures
            r@ == Seq::<AnalyticsMetric>::empty(),
            r.board().ops_metrics@ == Seq::<AnalyticsMetric>::empty(),
            r.board().safety_metrics@ == Seq::<AnalyticsMetric>::empty(),
            r.board().product_metrics@ == Seq::<AnalyticsMetric>::empty(),
            r.board().cohort_stats is None,
    {
        AnalyticsAggregator {
            metrics: Vec::new(),
            dashboard: AnalyticsDashboard {
                ops_metrics: Vec::new(),
                safety_metrics: Vec::new(),
                product_metrics: Vec::new(),
                cohort_stats: None,
            },
        }
    }

    /// How many metrics were recorded.
    pub fn metric_count(&self) -> (n: usize)
        ensures
            n == self@.len(),
    {
        self.metrics.len()
    }

    /// Records a metric as if the clock read `now`.
    pub fn record_metric_at(&mut self, name: String, value: i64, category: MetricCategory, now: i64)
        ensures
            final(self)@ == old(self)@.push(metric_at(name, value, category, now)),
            final(self).board().ops_metrics@ == sorted_in(
                old(self).board().ops_metrics@,
                metric_at(name, value, category, now),
                MetricCategory::Operations,
            ),
            final(self).board().safety_metrics@ == sorted_in(
                old(self).board().safety_metrics@,
                metric_at(name, value, category, now),
                MetricCategory::Safety,
            ),
            final(self).board().product_metrics@ == sorted_in(
                old(self).board().product_metrics@,
                metric_at(name, value, category, now),
                MetricCategory::Product,
            ),
            final(self).board().cohort_stats == old(self).board().cohort_stats,
    {
        let metric = AnalyticsMetric { name: name.clone(), value, timestamp: now, category };
        self.metrics.push(metric.clone());
        match category {
            MetricCategory::Operations => self.dashboard.ops_metrics.push(metric),
            MetricCategory::Safety => self.dashboard.safety_metrics.push(metric),
            MetricCategory::Product => self.dashboard.product_metrics.push(metric),
            _ => {},
        }
    }

    /// Records a metric, stamped with the time the clock reads, and puts it
    /// on the dashboard under its category. Engagement has no place there.
    pub fn record_metric(&mut self, name: String, value: i64, category: MetricCategory)
        ensures
            exists|now: i64|
                {
                    &&& final(self)@ == old(self)@.push(#[trigger] metric_at(name, value, category, now))
                    &&& final(self).board().ops_metrics@ == sorted_in(
                        old(self).board().ops_metrics@,
                        metric_at(name, value, category, now),
                        MetricCategory::Operations,
                    )
                    &&& final(self).board().safety_metrics@ == sorted_in(
                        old(self).board().safety_metrics@,
                        metric_at(name, value, category, now),
                        MetricCategory::Safety,
                    )
                    &&& final(self).board().product_metrics@ == sorted_in(
                        old(self).board().product_metrics@,
                        metric_at(name, value, category, now),
                        MetricCategory::Product,
                    )
                },
            final(self).board().cohort_stats == old(self).board().cohort_stats,
    {
        let now = now_timestamp();
        self.record_metric_at(name, value, category, now);
    }

    /// Puts the figures on the cohort on the dashboard.
    pub fn update_cohort_stats(&mut self, stats: CohortStatistics)
        ensures
            final(self).board().cohort_stats == Some(stats),
            final(self)@ == old(self)@,
            final(self).board().ops_metrics == old(self).board().ops_metrics,
            final(self).board().safety_metrics == old(self).board().safety_metrics,
            final(self).board().product_metrics == old(self).board().product_metrics,
    {
        self.dashboard.cohort_stats = Some(stats);
    }

    /// The dashboard.
    pub fn get_dashboard(&self) -> (r: &AnalyticsDashboard)
        ensures
            *r == self.board(),
    {
        &self.dashboard
    }

    /// The metrics of `category`, oldest first.
    pub fn get_metrics_by_category(&self, category: MetricCategory) -> (r: Vec<&AnalyticsMetric>)
        ensures
            r@.len() == kept(
                self@,
                |m: AnalyticsMetric| m.category == category,
                self@.len() as int,
            ).len(),
            forall|i: int|
                0 <= i < r@.len() ==> *(#[trigger] r@[i]) == kept(
                    self@,
                    |m: AnalyticsMetric| m.category == category,
                    self@.len() as int,
                )[i],
    {
        let ghost keep = |m: AnalyticsMetric| m.category == category;
        let mut r: Vec<&AnalyticsMetric> = Vec::new();
        let mut i: usize = 0;
        while i < self.metrics.len()
            invariant
                i <= self.metrics.len(),
                keep == (|m: AnalyticsMetric| m.category == category),
                r@.len() == kept(self@, keep, i as int).len(),
                forall|j: int| 0 <= j < r@.len() ==> *(#[trigger] r@[j]) == kept(self@, keep, i as int)[j],
            decreases self.metrics.len() - i,
        {
            if self.metrics[i].category == category {
                r.push(&self.metrics[i]);
            }
            i += 1;
        }
        r
    }

    /// The newest `limit` metrics, oldest first.
    pub fn get_recent_metrics(&self, limit: usize) -> (r: Vec<&AnalyticsMetric>)
        ensures
            r@.len() == recent(self@, limit as int).len(),
            forall|i: int| 0 <= i < r@.len() ==> *(#[trigger] r@[i]) == recent(self@, limit as int)[i],
    {
        recent_refs(&self.metrics, limit)
    }
}

impl Default for AnalyticsAggregator {
    fn default() -> (r: Self)
        ensures
            r@ == Seq::<AnalyticsMetric>::empty(),
            r.board().ops_metrics@ == Seq::<AnalyticsMetric>::empty(),
            r.board().safety_metrics@ == Seq::<AnalyticsMetric>::empty(),
            r.board().product_metrics@ == Seq::<AnalyticsMetric>::empty(),
            r.board().cohort_stats is None,
    {
        AnalyticsAggregator::new()
    }
}

} // verus!
