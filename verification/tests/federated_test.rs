use athenos::federated::{confidence_of, AnonymizedPatternTemplate, FederatedLearningCoordinator};
use athenos::fixed::{blend, to_count, truncate};
use athenos::privacy::ConsentLedger;
use athenos::strmap::StrMap;
use athenos::types::{
    Action, ActionType, Confidence, Intent, Observation, PatternType, RiskCategory, UserProfile,
};

fn observation(steps: usize, metrics: &[(&str, i64)], saved: Option<i64>, confidence: Confidence) -> Observation {
    let mut map = StrMap::new();
    for (name, value) in metrics {
        map.insert(name.to_string(), *value);
    }
    let mut expected = StrMap::new();
    if let Some(value) = saved {
        expected.insert("time_saved_min".to_string(), value);
    }
    Observation {
        id: "test".to_string(),
        profile: UserProfile::Developer,
        observation: (0..steps).map(|i| format!("App{}", i)).collect(),
        metrics: map,
        intent: Intent::SuggestShortcut,
        action: Action {
            action_type: ActionType::AutomationMacro,
            description: "Test".to_string(),
            confidence,
            risk: RiskCategory::NoRisk,
        },
        expected_outcome: expected,
        source: "test".to_string(),
        timestamp: 1234567890,
    }
}

fn consenting() -> FederatedLearningCoordinator {
    let mut consent = ConsentLedger::new_at(0);
    consent.opt_in_cloud_sync = true;
    FederatedLearningCoordinator::new(consent)
}

fn template(length: usize, frequency: usize, minutes: i64) -> AnonymizedPatternTemplate {
    AnonymizedPatternTemplate {
        pattern_type: PatternType::WorkflowSequence,
        sequence_length: length,
        frequency,
        avg_time_saved_min: minutes,
        confidence_score: 900_000,
    }
}

#[test]
fn test_federated_coordinator_creation() {
    let consent = ConsentLedger::new();
    let coordinator = FederatedLearningCoordinator::new(consent);
    assert_eq!(coordinator.local_count(), 0);
}

#[test]
fn test_anonymize_pattern_with_consent() {
    let mut consent = ConsentLedger::new();
    consent.opt_in_cloud_sync = true;
    let coordinator = FederatedLearningCoordinator::new(consent);

    let mut metrics = StrMap::new();
    metrics.insert("repeat_count".to_string(), 8_000_000);
    let mut expected = StrMap::new();
    expected.insert("time_saved_min".to_string(), 11_000_000);

    let observation = Observation {
        id: "test".to_string(),
        profile: UserProfile::Developer,
        observation: vec!["Teams".to_string(), "Gmail".to_string()],
        metrics,
        intent: Intent::SuggestShortcut,
        action: Action {
            action_type: ActionType::AutomationMacro,
            description: "Test".to_string(),
            confidence: Confidence::High,
            risk: RiskCategory::NoRisk,
        },
        expected_outcome: expected,
        source: "test".to_string(),
        timestamp: 1234567890,
    };

    let template = coordinator.anonymize_pattern(&observation);
    assert!(template.is_some());
    let template = template.unwrap();
    assert_eq!(template.sequence_length, 2);
    assert_eq!(template.avg_time_saved_min, 11_000_000);
}

#[test]
fn test_anonymize_pattern_without_consent() {
    let consent = ConsentLedger::new();
    let coordinator = FederatedLearningCoordinator::new(consent);

    let observation = Observation {
        id: "test".to_string(),
        profile: UserProfile::Developer,
        observation: vec!["App1".to_string()],
        metrics: StrMap::new(),
        intent: Intent::DetectPattern,
        action: Action {
            action_type: ActionType::AutomationMacro,
            description: "Test".to_string(),
            confidence: Confidence::High,
            risk: RiskCategory::NoRisk,
        },
        expected_outcome: StrMap::new(),
        source: "test".to_string(),
        timestamp: 1234567890,
    };

    let template = coordinator.anonymize_pattern(&observation);
    assert!(template.is_none());
}

#[test]
fn test_template_fields() {
    let coordinator = consenting();
    let full = coordinator
        .anonymize_pattern(&observation(4, &[("repeat_count", 8_900_000)], Some(11_500_000), Confidence::Medium))
        .unwrap();
    assert_eq!(
        full,
        AnonymizedPatternTemplate {
            pattern_type: PatternType::WorkflowSequence,
            sequence_length: 4,
            frequency: 8,
            avg_time_saved_min: 11_500_000,
            confidence_score: 600_000,
        }
    );
    let bare = coordinator.anonymize_pattern(&observation(0, &[], None, Confidence::Low)).unwrap();
    assert_eq!(bare.frequency, 1);
    assert_eq!(bare.avg_time_saved_min, 0);
    assert_eq!(bare.confidence_score, 300_000);
    assert_eq!(bare.sequence_length, 0);
    let negative = coordinator
        .anonymize_pattern(&observation(1, &[("repeat_count", -5_000_000)], None, Confidence::High))
        .unwrap();
    assert_eq!(negative.frequency, 0);
    assert_eq!(confidence_of(Confidence::High), 900_000);
    assert_eq!(to_count(999_999), 0);
    assert_eq!(to_count(1_000_000), 1);
    assert_eq!(to_count(i64::MIN), 0);
    assert_eq!(to_count(i64::MAX), 9_223_372_036_854);
    assert_eq!(truncate(11_900_000), 11);
    assert_eq!(truncate(-11_900_000), -11);
    assert_eq!(truncate(-999_999), 0);
}

#[test]
fn test_sharing_needs_consent() {
    let observations = vec![
        observation(3, &[("repeat_count", 2_000_000)], Some(1_000_000), Confidence::High),
        observation(5, &[], None, Confidence::Low),
    ];
    let mut without = FederatedLearningCoordinator::new(ConsentLedger::new_at(0));
    assert!(without.prepare_for_sharing(&observations).is_empty());
    let mut with = consenting();
    let shared = with.prepare_for_sharing(&observations);
    assert_eq!(shared.len(), 2);
    assert_eq!(shared[0].sequence_length, 3);
    assert_eq!(shared[0].frequency, 2);
    assert_eq!(shared[1].sequence_length, 5);
    assert_eq!(shared[1].frequency, 1);
    assert_eq!(with.local_count(), 0);
    assert!(with.get_aggregated_templates().is_empty());
}

#[test]
fn test_templates_merge_by_pattern_and_length() {
    let mut coordinator = consenting();
    coordinator.aggregate_templates(vec![template(3, 2, 10_000_000), template(4, 1, 7_000_000)]);
    assert_eq!(coordinator.get_aggregated_templates().len(), 2);
    coordinator.aggregate_templates(vec![template(3, 6, 20_000_000), template(5, 0, 1)]);
    let merged = coordinator.get_aggregated_templates();
    assert_eq!(merged.len(), 3);
    assert_eq!(merged[0].sequence_length, 3);
    assert_eq!(merged[0].frequency, 8);
    // (10 * 2 + 20 * 6) / 8 = 17.5
    assert_eq!(merged[0].avg_time_saved_min, 17_500_000);
    assert_eq!(merged[1], template(4, 1, 7_000_000));
    assert_eq!(merged[2], template(5, 0, 1));
    let mut other = template(4, 3, -1_000_000);
    other.pattern_type = PatternType::DebuggingLoop;
    other.confidence_score = 300_000;
    coordinator.aggregate_templates(vec![other, template(4, 1, 9_000_000), other]);
    let merged = coordinator.get_aggregated_templates();
    assert_eq!(merged.len(), 4);
    assert_eq!(merged[1].frequency, 2);
    assert_eq!(merged[1].avg_time_saved_min, 8_000_000);
    assert_eq!(merged[3].pattern_type, PatternType::DebuggingLoop);
    assert_eq!(merged[3].frequency, 6);
    assert_eq!(merged[3].avg_time_saved_min, -1_000_000);
    assert_eq!(merged[3].confidence_score, 300_000);
    coordinator.aggregate_templates(vec![]);
    assert_eq!(coordinator.get_aggregated_templates().len(), 4);
}

#[test]
fn test_weighted_mean() {
    assert_eq!(blend(10, 0, 20, 0), 10);
    assert_eq!(blend(10, 1, 20, 0), 10);
    assert_eq!(blend(10, 0, 20, 1), 20);
    assert_eq!(blend(10, 1, 20, 1), 15);
    assert_eq!(blend(10, 3, 20, 1), 12);
    assert_eq!(blend(20, 1, 10, 3), 12);
    assert_eq!(blend(0, 2, -1, 1), -1);
    assert_eq!(blend(-10, 1, -20, 1), -15);
    assert_eq!(blend(i64::MIN, 1, i64::MAX, 1), -1);
    assert_eq!(blend(i64::MAX, usize::MAX, i64::MIN, usize::MAX), -1);
    assert_eq!(blend(i64::MIN, usize::MAX, i64::MAX, usize::MAX), -1);
    assert_eq!(blend(i64::MIN, 0, i64::MAX, usize::MAX), i64::MAX);
    assert_eq!(blend(i64::MAX, 0, i64::MIN, usize::MAX), i64::MIN);
    assert_eq!(blend(5, usize::MAX, 5, usize::MAX), 5);
}
