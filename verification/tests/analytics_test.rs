use athenos::analytics::{AnalyticsAggregator, MetricCategory};
use athenos::cohort::CohortManager;
use athenos::types::UserProfile;

#[test]
fn test_analytics_aggregator_creation() {
    let aggregator = AnalyticsAggregator::new();
    assert_eq!(aggregator.metric_count(), 0);
}

#[test]
fn test_record_metric() {
    let mut aggregator = AnalyticsAggregator::new();
    aggregator.record_metric("time_saved".to_string(), 11_000_000, MetricCategory::Product);

    assert_eq!(aggregator.metric_count(), 1);
    assert_eq!(aggregator.get_dashboard().product_metrics.len(), 1);
}

#[test]
fn test_get_metrics_by_category() {
    let mut aggregator = AnalyticsAggregator::new();
    aggregator.record_metric("ops_metric".to_string(), 1_000_000, MetricCategory::Operations);
    aggregator.record_metric("safety_metric".to_string(), 2_000_000, MetricCategory::Safety);

    let ops_metrics = aggregator.get_metrics_by_category(MetricCategory::Operations);
    assert_eq!(ops_metrics.len(), 1);
}

#[test]
fn test_metrics_are_sorted_onto_the_dashboard() {
    let mut aggregator = AnalyticsAggregator::default();
    aggregator.record_metric_at("a".to_string(), 1, MetricCategory::Operations, 10);
    aggregator.record_metric_at("b".to_string(), 2, MetricCategory::UserEngagement, 11);
    aggregator.record_metric_at("c".to_string(), 3, MetricCategory::Safety, 12);
    aggregator.record_metric_at("d".to_string(), 4, MetricCategory::Product, 13);
    aggregator.record_metric_at("e".to_string(), 5, MetricCategory::Operations, 14);
    assert_eq!(aggregator.metric_count(), 5);
    let board = aggregator.get_dashboard();
    let names = |list: &Vec<athenos::analytics::AnalyticsMetric>| -> Vec<String> {
        list.iter().map(|m| m.name.clone()).collect()
    };
    assert_eq!(names(&board.ops_metrics), vec!["a", "e"]);
    assert_eq!(names(&board.safety_metrics), vec!["c"]);
    assert_eq!(names(&board.product_metrics), vec!["d"]);
    assert!(board.cohort_stats.is_none());
    assert_eq!(board.ops_metrics[1].value, 5);
    assert_eq!(board.ops_metrics[1].timestamp, 14);
    let engagement = aggregator.get_metrics_by_category(MetricCategory::UserEngagement);
    assert_eq!(engagement.len(), 1);
    assert_eq!(engagement[0].name, "b");
    let recent = aggregator.get_recent_metrics(2);
    assert_eq!(recent.len(), 2);
    assert_eq!(recent[0].name, "d");
    assert_eq!(recent[1].name, "e");
    assert_eq!(aggregator.get_recent_metrics(99).len(), 5);
    assert!(aggregator.get_recent_metrics(0).is_empty());
}

#[test]
fn test_dashboard_carries_cohort_figures() {
    let mut cohort = CohortManager::new(10);
    cohort.add_member_at("u".to_string(), UserProfile::Student, 1);
    let mut aggregator = AnalyticsAggregator::new();
    aggregator.update_cohort_stats(cohort.get_statistics());
    let stats = aggregator.get_dashboard().cohort_stats.unwrap();
    assert_eq!(stats.total_members, 1);
    assert_eq!(stats.target_size, 10);
    assert_eq!(aggregator.metric_count(), 0);
}
