use athenos::reflection::ReflectiveReasoningLoop;
use athenos::strmap::StrMap;
use athenos::types::{
    Action, ActionType, Confidence, Intent, Observation, Outcome, RiskCategory, UserProfile,
};

fn observation(id: &str, steps: usize, saved: Option<i64>, confidence: Confidence, risk: RiskCategory) -> Observation {
    let mut expected = StrMap::new();
    if let Some(value) = saved {
        expected.insert("time_saved_min".to_string(), value);
    }
    Observation {
        id: id.to_string(),
        profile: UserProfile::Developer,
        observation: (0..steps).map(|i| format!("App{}", i)).collect(),
        metrics: StrMap::new(),
        intent: Intent::SuggestShortcut,
        action: Action {
            action_type: ActionType::AutomationMacro,
            description: "Test".to_string(),
            confidence,
            risk,
        },
        expected_outcome: expected,
        source: "test".to_string(),
        timestamp: 1234567890,
    }
}

fn outcome(accepted: bool, ignored: bool) -> Outcome {
    Outcome {
        observation_id: "x".to_string(),
        accepted,
        ignored,
        modified: false,
        time_saved_minutes: None,
        error_rate_change: None,
        timestamp: 1,
    }
}

#[test]
fn test_reflective_loop_creation() {
    let loop_ref = ReflectiveReasoningLoop::new();
    assert_eq!(loop_ref.critique_count(), 0);
}

#[test]
fn test_critique_recommendation() {
    let mut loop_ref = ReflectiveReasoningLoop::new();
    let observation = Observation {
        id: "test_001".to_string(),
        profile: UserProfile::Developer,
        observation: vec!["Teams".to_string(), "Gmail".to_string()],
        metrics: StrMap::new(),
        intent: Intent::SuggestShortcut,
        action: Action {
            action_type: ActionType::AutomationMacro,
            description: "Test macro".to_string(),
            confidence: Confidence::High,
            risk: RiskCategory::NoRisk,
        },
        expected_outcome: StrMap::new(),
        source: "test".to_string(),
        timestamp: 1234567890,
    };

    let critique = loop_ref.critique_recommendation(&observation);
    assert!(critique.critique_score > 0);
    assert!(!critique.strengths.is_empty());
}

#[test]
fn test_reflect_on_outcome() {
    let mut loop_ref = ReflectiveReasoningLoop::new();
    let mut metrics = StrMap::new();
    metrics.insert("repeat_count".to_string(), 8_000_000);
    let mut expected = StrMap::new();
    expected.insert("time_saved_min".to_string(), 11_000_000);

    let observation = Observation {
        id: "test_002".to_string(),
        profile: UserProfile::Developer,
        observation: vec!["App1".to_string()],
        metrics,
        intent: Intent::SuggestShortcut,
        action: Action {
            action_type: ActionType::AutomationMacro,
            description: "Test".to_string(),
            confidence: Confidence::High,
            risk: RiskCategory::NoRisk,
        },
        expected_outcome: expected,
        source: "test".to_string(),
        timestamp: 1234567890,
    };

    loop_ref.critique_recommendation(&observation);
    let initial_score = loop_ref.get_critique("test_002").unwrap().critique_score;

    let outcome = Outcome {
        observation_id: "test_002".to_string(),
        accepted: true,
        ignored: false,
        modified: false,
        time_saved_minutes: Some(11_000_000),
        error_rate_change: None,
        timestamp: 1234567890,
    };

    loop_ref.reflect_on_outcome("test_002", &outcome);
    let updated_score = loop_ref.get_critique("test_002").unwrap().critique_score;
    assert!(updated_score >= initial_score);
}

#[test]
fn test_critique_weighs_both_sides() {
    let mut reflection = ReflectiveReasoningLoop::default();
    let best = reflection.critique_recommendation(&observation(
        "best",
        2,
        Some(11_500_000),
        Confidence::High,
        RiskCategory::NoRisk,
    ));
    assert_eq!(best.recommendation_id, "best");
    assert_eq!(best.critique_score, 900_000);
    assert_eq!(
        best.strengths,
        vec![
            "High confidence action".to_string(),
            "No risk - safe to execute".to_string(),
            "Significant time savings: 11.5 min".to_string(),
        ]
    );
    assert!(best.weaknesses.is_empty());
    assert!(best.alternative_approaches.is_empty());
    assert_eq!(best.confidence_adjustment, 100_000);

    let worst = reflection.critique_recommendation(&observation(
        "worst",
        6,
        Some(1_999_999),
        Confidence::Low,
        RiskCategory::High,
    ));
    // 0.5 - 0.2 - 0.3 - 0.1 is below zero
    assert_eq!(worst.critique_score, 0);
    assert!(worst.strengths.is_empty());
    assert_eq!(
        worst.weaknesses,
        vec![
            "Low confidence - may need more data".to_string(),
            "High risk - requires careful consideration".to_string(),
            "Minimal time savings expected".to_string(),
        ]
    );
    assert_eq!(
        worst.alternative_approaches,
        vec![
            "Consider manual approval first".to_string(),
            "Consider breaking into smaller steps".to_string(),
        ]
    );
    assert_eq!(worst.confidence_adjustment, -200_000);

    let middling = reflection.critique_recommendation(&observation(
        "mid",
        5,
        Some(10_000_000),
        Confidence::Medium,
        RiskCategory::Low,
    ));
    assert_eq!(middling.critique_score, 500_000);
    assert!(middling.strengths.is_empty() && middling.weaknesses.is_empty());
    assert!(middling.alternative_approaches.is_empty());
    assert_eq!(middling.confidence_adjustment, 0);

    let at_raise = reflection.critique_recommendation(&observation(
        "raise",
        1,
        Some(2_000_000),
        Confidence::High,
        RiskCategory::Low,
    ));
    assert_eq!(at_raise.critique_score, 700_000);
    assert_eq!(at_raise.confidence_adjustment, 0);
    let at_lower = reflection.critique_recommendation(&observation(
        "lower",
        1,
        None,
        Confidence::Low,
        RiskCategory::NoRisk,
    ));
    assert_eq!(at_lower.critique_score, 400_000);
    assert_eq!(at_lower.confidence_adjustment, 0);
    let whole = reflection.critique_recommendation(&observation(
        "whole",
        1,
        Some(12_000_000),
        Confidence::Medium,
        RiskCategory::Low,
    ));
    assert_eq!(whole.strengths, vec!["Significant time savings: 12 min".to_string()]);
    assert_eq!(reflection.critique_count(), 6);
}

#[test]
fn test_adjusted_recommendation() {
    let mut reflection = ReflectiveReasoningLoop::new();
    let good = observation("good", 1, None, Confidence::High, RiskCategory::NoRisk);
    let poor = observation("poor", 1, None, Confidence::Low, RiskCategory::High);
    let edge = observation("edge", 1, None, Confidence::Low, RiskCategory::NoRisk);
    assert!(reflection.get_adjusted_recommendation(&good).is_none());
    reflection.critique_recommendation(&good);
    reflection.critique_recommendation(&poor);
    reflection.critique_recommendation(&edge);
    let kept = reflection.get_adjusted_recommendation(&good).unwrap();
    assert_eq!(kept.confidence, Confidence::High);
    assert_eq!(kept.risk, RiskCategory::NoRisk);
    let lowered = reflection.get_adjusted_recommendation(&poor).unwrap();
    assert_eq!(lowered.confidence, Confidence::Medium);
    assert_eq!(lowered.risk, RiskCategory::High);
    assert_eq!(lowered.description, "Test");
    // a score of exactly 0.4 leaves the action as it is
    let at_edge = reflection.get_adjusted_recommendation(&edge).unwrap();
    assert_eq!(at_edge.confidence, Confidence::Low);
}

#[test]
fn test_outcomes_move_the_score() {
    let mut reflection = ReflectiveReasoningLoop::new();
    reflection.critique_recommendation(&observation("a", 1, None, Confidence::Medium, RiskCategory::Low));
    reflection.reflect_on_outcome("missing", &outcome(true, false));
    reflection.reflect_on_outcome("a", &outcome(false, false));
    assert_eq!(reflection.get_critique("a").unwrap().critique_score, 500_000);
    reflection.reflect_on_outcome("a", &outcome(true, true));
    let critique = reflection.get_critique("a").unwrap();
    assert_eq!(critique.critique_score, 600_000);
    assert_eq!(critique.strengths, vec!["User accepted recommendation".to_string()]);
    assert!(critique.weaknesses.is_empty());
    reflection.reflect_on_outcome("a", &outcome(false, true));
    reflection.reflect_on_outcome("a", &outcome(false, true));
    let critique = reflection.get_critique("a").unwrap();
    assert_eq!(critique.critique_score, 400_000);
    assert_eq!(critique.weaknesses.len(), 2);
    assert_eq!(critique.weaknesses[0], "User ignored recommendation");
    assert_eq!(critique.confidence_adjustment, 0);
    for _ in 0..10 {
        reflection.reflect_on_outcome("a", &outcome(true, false));
    }
    assert_eq!(reflection.get_critique("a").unwrap().critique_score, 1_000_000);
    for _ in 0..12 {
        reflection.reflect_on_outcome("a", &outcome(false, true));
    }
    assert_eq!(reflection.get_critique("a").unwrap().critique_score, 0);
    assert_eq!(reflection.critique_count(), 1);
}
