use athenos::strmap::StrMap;
use athenos::types::{
    lookup_or_zero, Action, ActionType, Confidence, Intent, Observation, Outcome, RiskCategory,
    UserProfile,
};

#[test]
fn test_observation_creation() {
    let mut metrics = StrMap::new();
    metrics.insert("repeat_count".to_string(), 8_000_000);

    let observation = Observation {
        id: "test_001".to_string(),
        profile: UserProfile::Developer,
        observation: vec!["Teams".to_string(), "Gmail".to_string()],
        metrics,
        intent: Intent::SuggestShortcut,
        action: Action {
            action_type: ActionType::AutomationMacro,
            description: "Test macro".to_string(),
            confidence: Confidence::High,
            risk: RiskCategory::NoRisk,
        },
        expected_outcome: StrMap::new(),
        source: "test".to_string(),
        timestamp: 1234567890,
    };

    assert_eq!(observation.id, "test_001");
    assert_eq!(observation.profile, UserProfile::Developer);
}

#[test]
fn test_confidence_ordering() {
    assert!(Confidence::High > Confidence::Medium);
    assert!(Confidence::Medium > Confidence::Low);
}

#[test]
fn test_risk_category_ordering() {
    assert!(RiskCategory::High > RiskCategory::Low);
    assert!(RiskCategory::Low > RiskCategory::NoRisk);
}

#[test]
fn test_levels_follow_the_order() {
    assert_eq!(Confidence::Low.level(), 0);
    assert_eq!(Confidence::Medium.level(), 1);
    assert_eq!(Confidence::High.level(), 2);
    assert_eq!(RiskCategory::NoRisk.level(), 0);
    assert_eq!(RiskCategory::Low.level(), 1);
    assert_eq!(RiskCategory::High.level(), 2);
    assert!(Confidence::Low < Confidence::High);
    assert!(!(Confidence::High < Confidence::High));
    assert!(Confidence::High >= Confidence::High);
    assert!(RiskCategory::NoRisk <= RiskCategory::NoRisk);
}

#[test]
fn test_missing_metric_counts_as_zero() {
    let mut metrics = StrMap::new();
    metrics.insert("repeat_count".to_string(), 8_000_000);
    assert_eq!(lookup_or_zero(&metrics, "repeat_count"), 8_000_000);
    assert_eq!(lookup_or_zero(&metrics, "time_saved_min"), 0);
}

#[test]
fn test_clones_hold_the_same() {
    let mut metrics = StrMap::new();
    metrics.insert("repeat_count".to_string(), 8_000_000);
    metrics.insert("context_switch_count".to_string(), 2_500_000);
    let observation = Observation {
        id: "obs".to_string(),
        profile: UserProfile::Manager,
        observation: vec!["A".to_string(), "B".to_string()],
        metrics,
        intent: Intent::DetectPattern,
        action: Action {
            action_type: ActionType::FocusMode,
            description: "Focus".to_string(),
            confidence: Confidence::Medium,
            risk: RiskCategory::Low,
        },
        expected_outcome: StrMap::new(),
        source: "unit".to_string(),
        timestamp: 7,
    };
    let copy = observation.clone();
    assert_eq!(copy.id, "obs");
    assert_eq!(copy.observation, vec!["A".to_string(), "B".to_string()]);
    assert_eq!(lookup_or_zero(&copy.metrics, "repeat_count"), 8_000_000);
    assert_eq!(lookup_or_zero(&copy.metrics, "context_switch_count"), 2_500_000);
    assert_eq!(copy.metrics.len(), 2);
    assert_eq!(copy.action.description, "Focus");
    assert_eq!(copy.action.confidence, Confidence::Medium);
    assert_eq!(copy.timestamp, 7);

    let outcome = Outcome {
        observation_id: "obs".to_string(),
        accepted: true,
        ignored: false,
        modified: true,
        time_saved_minutes: Some(11_000_000),
        error_rate_change: None,
        timestamp: 9,
    };
    let again = outcome.clone();
    assert_eq!(again.observation_id, "obs");
    assert!(again.accepted && !again.ignored && again.modified);
    assert_eq!(again.time_saved_minutes, Some(11_000_000));
    assert_eq!(again.error_rate_change, None);
}
