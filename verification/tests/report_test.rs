use athenos::local_stack::{FeatureStore, TemporalMetrics};
use athenos::report::ReportGenerator;
use athenos::strmap::StrMap;
use athenos::types::{
    Action, ActionType, Confidence, Intent, Observation, PatternType, RiskCategory, UserProfile,
};

fn observation(
    id: &str,
    steps: &[&str],
    metrics: &[(&str, i64)],
    saved: Option<i64>,
    confidence: Confidence,
    risk: RiskCategory,
) -> Observation {
    let mut map = StrMap::new();
    for (name, value) in metrics {
        map.insert(name.to_string(), *value);
    }
    let mut expected = StrMap::new();
    if let Some(value) = saved {
        expected.insert("time_saved_min".to_string(), value);
    }
    Observation {
        id: id.to_string(),
        profile: UserProfile::Developer,
        observation: steps.iter().map(|s| s.to_string()).collect(),
        metrics: map,
        intent: Intent::SuggestShortcut,
        action: Action {
            action_type: ActionType::AutomationMacro,
            description: format!("Action of {}", id),
            confidence,
            risk,
        },
        expected_outcome: expected,
        source: "test".to_string(),
        timestamp: 1234567890,
    }
}

#[test]
fn test_report_generation() {
    let feature_store = FeatureStore::new();
    let generator = ReportGenerator::new(feature_store);

    let mut metrics = StrMap::new();
    metrics.insert("repeat_count".to_string(), 8_000_000);
    metrics.insert("time_to_first_code_min".to_string(), 12_000_000);
    let mut expected = StrMap::new();
    expected.insert("time_saved_min".to_string(), 11_000_000);

    let observations = vec![Observation {
        id: "test_001".to_string(),
        profile: UserProfile::Developer,
        observation: vec!["Teams".to_string(), "Gmail".to_string(), "IDE".to_string()],
        metrics,
        intent: Intent::SuggestShortcut,
        action: Action {
            action_type: ActionType::AutomationMacro,
            description: "Test macro".to_string(),
            confidence: Confidence::High,
            risk: RiskCategory::NoRisk,
        },
        expected_outcome: expected,
        source: "test".to_string(),
        timestamp: 1234567890,
    }];

    let report = generator.generate_daily_report(&observations);
    assert_eq!(report.suggestions.len(), 1);
    assert_eq!(report.time_saved_minutes, 11_000_000);
    assert!(!report.patterns_detected.is_empty());
}

#[test]
fn test_report_is_dated_in_utc() {
    let generator = ReportGenerator::new(FeatureStore::new());
    assert_eq!(generator.generate_daily_report_at(&[], 0).date, "1970-01-01");
    assert_eq!(generator.generate_daily_report_at(&[], -1).date, "1969-12-31");
    assert_eq!(generator.generate_daily_report_at(&[], 86_399).date, "1970-01-01");
    assert_eq!(generator.generate_daily_report_at(&[], 86_400).date, "1970-01-02");
    assert_eq!(generator.generate_daily_report_at(&[], 1_700_000_000).date, "2023-11-14");
    assert_eq!(generator.generate_daily_report_at(&[], 951_782_400).date, "2000-02-29");
    assert_eq!(generator.generate_daily_report_at(&[], i64::MAX).date, "");
    let today = chrono::Utc::now().format("%Y-%m-%d").to_string();
    let dated = generator.generate_daily_report(&[]).date;
    assert!(dated >= today);
    assert_eq!(dated.len(), 10);
}

#[test]
fn test_report_contents() {
    let mut store = FeatureStore::new();
    store.store_metrics(
        "long".to_string(),
        TemporalMetrics {
            time_to_first_action_min: 0,
            focus_duration_min: 30_000_000,
            context_switch_count: 0,
            repeat_count: 0,
            session_duration_min: 40_000_000,
        },
    );
    let generator = ReportGenerator::new(store);
    let observations = vec![
        observation(
            "long",
            &["Teams", "Gmail", "IDE"],
            &[("repeat_count", 8_700_000), ("time_to_first_code_min", 12_000_000)],
            Some(11_500_000),
            Confidence::Medium,
            RiskCategory::Low,
        ),
        observation("short", &["A", "B"], &[], Some(100_000_000), Confidence::Low, RiskCategory::NoRisk),
        observation("risky", &["A", "B", "C", "D"], &[], Some(50_000_000), Confidence::High, RiskCategory::High),
        observation("plain", &[], &[], None, Confidence::High, RiskCategory::NoRisk),
        observation("loss", &[], &[], Some(-1_250_000), Confidence::High, RiskCategory::NoRisk),
    ];
    let report = generator.generate_daily_report_at(&observations, 0);
    assert_eq!(report.patterns_detected.len(), 2);
    let first = &report.patterns_detected[0];
    assert_eq!(first.pattern_type, PatternType::WorkflowSequence);
    assert_eq!(first.description, "Repeated sequence: Teams → Gmail → IDE");
    assert_eq!(first.frequency, 8);
    assert_eq!(first.impact_score, 12_000_000);
    let second = &report.patterns_detected[1];
    assert_eq!(second.description, "Repeated sequence: A → B → C → D");
    assert_eq!(second.frequency, 1);
    assert_eq!(second.impact_score, 0);
    assert_eq!(report.suggestions.len(), 3);
    assert_eq!(report.suggestions[0].action.description, "Action of long");
    assert_eq!(report.suggestions[0].expected_benefit, "Expected to save 11.5 minutes");
    assert_eq!(report.suggestions[0].confidence, Confidence::Medium);
    assert_eq!(report.suggestions[1].expected_benefit, "Expected to save 0 minutes");
    assert_eq!(report.suggestions[2].expected_benefit, "Expected to save -1.25 minutes");
    assert_eq!(report.time_saved_minutes, 10_250_000);
    assert_eq!(report.focus_stability_pct, 75_000_000);
    assert_eq!(report.metrics.focus_stability_pct, 75_000_000);
    assert_eq!(report.metrics.time_saved_minutes, 10_250_000);
    // 75 / 100 * 0.8
    assert_eq!(report.metrics.cognitive_clarity_index, 600_000);
    assert_eq!(report.metrics.emotional_resilience_score, 700_000);
    assert_eq!(report.metrics.habit_evolution_rate, 100_000);
    let empty = generator.generate_daily_report_at(&[], 0);
    assert!(empty.patterns_detected.is_empty() && empty.suggestions.is_empty());
    assert_eq!(empty.time_saved_minutes, 0);
    assert_eq!(empty.focus_stability_pct, 0);
    assert_eq!(empty.metrics.cognitive_clarity_index, 0);
}
