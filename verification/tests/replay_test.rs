use athenos::replay::{ReplayResult, ReplaySimulator};
use athenos::strmap::StrMap;
use athenos::types::{
    Action, ActionType, Confidence, Intent, Observation, Outcome, RiskCategory, UserProfile,
};

fn observation(kind: ActionType, confidence: Confidence, risk: RiskCategory) -> Observation {
    Observation {
        id: "test_001".to_string(),
        profile: UserProfile::Developer,
        observation: vec!["Teams".to_string(), "Gmail".to_string()],
        metrics: StrMap::new(),
        intent: Intent::SuggestShortcut,
        action: Action {
            action_type: kind,
            description: "Safe macro".to_string(),
            confidence,
            risk,
        },
        expected_outcome: StrMap::new(),
        source: "test".to_string(),
        timestamp: 1234567890,
    }
}

fn outcome(id: &str, accepted: bool, ignored: bool) -> Outcome {
    Outcome {
        observation_id: id.to_string(),
        accepted,
        ignored,
        modified: false,
        time_saved_minutes: None,
        error_rate_change: None,
        timestamp: 1,
    }
}

fn result(action_safe: bool, quality_score: i64, errors: Vec<String>) -> ReplayResult {
    ReplayResult {
        observation_id: "test".to_string(),
        action_safe,
        quality_score,
        errors,
        warnings: Vec::new(),
    }
}

#[test]
fn test_replay_simulator_creation() {
    let simulator = ReplaySimulator::new();
    assert_eq!(simulator.outcome_count(), 0);
}

#[test]
fn test_replay_action_safe() {
    let mut simulator = ReplaySimulator::new();
    let observation = Observation {
        id: "test_001".to_string(),
        profile: UserProfile::Developer,
        observation: vec!["Teams".to_string(), "Gmail".to_string()],
        metrics: StrMap::new(),
        intent: Intent::SuggestShortcut,
        action: Action {
            action_type: ActionType::AutomationMacro,
            description: "Safe macro".to_string(),
            confidence: Confidence::High,
            risk: RiskCategory::NoRisk,
        },
        expected_outcome: StrMap::new(),
        source: "test".to_string(),
        timestamp: 1234567890,
    };

    let result = simulator.replay_action(&observation);
    assert!(result.action_safe);
    assert!(result.errors.is_empty());
}

#[test]
fn test_gate_action() {
    let simulator = ReplaySimulator::new();
    let result = ReplayResult {
        observation_id: "test".to_string(),
        action_safe: true,
        quality_score: 800_000,
        errors: Vec::new(),
        warnings: Vec::new(),
    };

    assert!(simulator.gate_action(&result));

    let bad_result = ReplayResult {
        observation_id: "test".to_string(),
        action_safe: false,
        quality_score: 300_000,
        errors: vec!["Error".to_string()],
        warnings: Vec::new(),
    };

    assert!(!simulator.gate_action(&bad_result));
}

#[test]
fn test_gate_threshold_is_strict() {
    let simulator = ReplaySimulator::new();
    assert!(!simulator.gate_action(&result(true, 600_000, Vec::new())));
    assert!(simulator.gate_action(&result(true, 600_001, Vec::new())));
    assert!(!simulator.gate_action(&result(true, 599_999, Vec::new())));
    assert!(!simulator.gate_action(&result(false, 900_000, Vec::new())));
    assert!(!simulator.gate_action(&result(true, 900_000, vec!["Sandbox test failed".to_string()])));
    assert!(simulator.gate_action(&result(true, 1_000_000, Vec::new())));
}

#[test]
fn test_quality_follows_all_outcomes() {
    let mut simulator = ReplaySimulator::default();
    assert_eq!(simulator.quality_score(), 500_000);
    simulator.add_outcome("a".to_string(), outcome("a", true, false));
    assert_eq!(simulator.quality_score(), 600_000);
    let obs = observation(ActionType::AutomationMacro, Confidence::High, RiskCategory::NoRisk);
    let at_threshold = simulator.replay_action(&obs);
    assert_eq!(at_threshold.quality_score, 600_000);
    assert!(at_threshold.action_safe);
    assert!(!simulator.gate_action(&at_threshold));
    simulator.add_outcome("b".to_string(), outcome("b", false, true));
    assert_eq!(simulator.quality_score(), 550_000);
    simulator.add_outcome("c".to_string(), outcome("c", false, false));
    assert_eq!(simulator.quality_score(), 550_000);
    simulator.add_outcome("d".to_string(), outcome("d", true, true));
    assert_eq!(simulator.quality_score(), 600_000);
    simulator.add_outcome("e".to_string(), outcome("e", true, false));
    let passing = simulator.replay_action(&obs);
    assert_eq!(passing.quality_score, 700_000);
    assert!(simulator.gate_action(&passing));
    assert_eq!(simulator.outcome_count(), 5);
    // A later outcome for the same observation takes the place of the earlier.
    simulator.add_outcome("e".to_string(), outcome("e", false, true));
    assert_eq!(simulator.outcome_count(), 5);
    assert_eq!(simulator.quality_score(), 550_000);
}

#[test]
fn test_quality_is_clamped() {
    let mut high = ReplaySimulator::new();
    for i in 0..8 {
        high.add_outcome(format!("o{}", i), outcome("o", true, false));
    }
    assert_eq!(high.quality_score(), 1_000_000);
    let mut low = ReplaySimulator::new();
    for i in 0..11 {
        low.add_outcome(format!("o{}", i), outcome("o", false, true));
    }
    assert_eq!(low.quality_score(), 0);
    low.add_outcome("good".to_string(), outcome("good", true, false));
    assert_eq!(low.quality_score(), 50_000);
}

#[test]
fn test_warnings_and_errors() {
    let mut simulator = ReplaySimulator::new();
    let risky = simulator.replay_action(&observation(
        ActionType::AutomationMacro,
        Confidence::Low,
        RiskCategory::High,
    ));
    assert_eq!(risky.observation_id, "test_001");
    assert!(!risky.action_safe);
    assert_eq!(risky.errors, vec!["Sandbox test failed".to_string()]);
    assert_eq!(
        risky.warnings,
        vec!["High risk action detected".to_string(), "Low confidence action".to_string()]
    );
    assert!(!simulator.gate_action(&risky));
    let nudge = simulator.replay(&observation(
        ActionType::MicroNudge,
        Confidence::Medium,
        RiskCategory::High,
    ));
    assert!(!nudge.action_safe);
    assert!(nudge.errors.is_empty());
    assert_eq!(nudge.warnings, vec!["High risk action detected".to_string()]);
    let timid = simulator.replay(&observation(
        ActionType::AutomationMacro,
        Confidence::Low,
        RiskCategory::Low,
    ));
    assert!(timid.action_safe);
    assert!(timid.errors.is_empty());
    assert_eq!(timid.warnings, vec!["Low confidence action".to_string()]);
    assert_eq!(timid.quality_score, 500_000);
}

#[test]
fn test_batch_replay_keeps_order() {
    let mut simulator = ReplaySimulator::new();
    simulator.add_outcome("a".to_string(), outcome("a", true, false));
    simulator.add_outcome("b".to_string(), outcome("b", true, false));
    let inputs = vec![
        observation(ActionType::AutomationMacro, Confidence::High, RiskCategory::NoRisk),
        observation(ActionType::AutomationMacro, Confidence::High, RiskCategory::High),
        observation(ActionType::FocusMode, Confidence::Low, RiskCategory::Low),
    ];
    let results = simulator.batch_replay(&inputs);
    assert_eq!(results.len(), 3);
    let gates: Vec<bool> = results.iter().map(|r| simulator.gate_action(r)).collect();
    assert_eq!(gates, vec![true, false, true]);
    assert!(results.iter().all(|r| r.quality_score == 700_000));
    assert!(simulator.batch_replay(&[]).is_empty());
}
