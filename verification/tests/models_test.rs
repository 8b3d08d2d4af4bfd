use athenos::models::{
    composite, multiplier_of_confidence, multiplier_of_risk, ranking_of, PatternDetector,
    RecommendationRanker,
};
use athenos::strmap::StrMap;
use athenos::types::{
    Action, ActionType, Confidence, Intent, Observation, PatternType, RiskCategory, UserProfile,
};

fn map_of(pairs: &[(&str, i64)]) -> StrMap<i64> {
    let mut map = StrMap::new();
    for (name, value) in pairs {
        map.insert(name.to_string(), *value);
    }
    map
}

fn observation(
    id: &str,
    steps: &[&str],
    metrics: &[(&str, i64)],
    expected: &[(&str, i64)],
    confidence: Confidence,
    risk: RiskCategory,
) -> Observation {
    Observation {
        id: id.to_string(),
        profile: UserProfile::Developer,
        observation: steps.iter().map(|s| s.to_string()).collect(),
        metrics: map_of(metrics),
        intent: Intent::DetectPattern,
        action: Action {
            action_type: ActionType::AutomationMacro,
            description: "Test".to_string(),
            confidence,
            risk,
        },
        expected_outcome: map_of(expected),
        source: "test".to_string(),
        timestamp: 1234567890,
    }
}

#[test]
fn test_pattern_detector_creation() {
    let detector = PatternDetector::new();
    assert_eq!(detector.weight_count(), 4);
}

#[test]
fn test_pattern_detection_workflow_sequence() {
    let detector = PatternDetector::new();
    let mut metrics = StrMap::new();
    metrics.insert("repeat_count".to_string(), 8_000_000);

    let observation = Observation {
        id: "test".to_string(),
        profile: UserProfile::Developer,
        observation: vec!["Teams".to_string(), "Gmail".to_string(), "IDE".to_string()],
        metrics,
        intent: Intent::DetectPattern,
        action: Action {
            action_type: ActionType::AutomationMacro,
            description: "Test".to_string(),
            confidence: Confidence::High,
            risk: RiskCategory::NoRisk,
        },
        expected_outcome: StrMap::new(),
        source: "test".to_string(),
        timestamp: 1234567890,
    };

    let pattern = detector.detect_pattern(&observation);
    assert_eq!(pattern, PatternType::WorkflowSequence);
}

#[test]
fn test_pattern_detection_debugging_loop() {
    let detector = PatternDetector::new();
    let observation = Observation {
        id: "test".to_string(),
        profile: UserProfile::Developer,
        observation: vec!["copy_error".to_string(), "paste_chatgpt".to_string()],
        metrics: StrMap::new(),
        intent: Intent::DetectPattern,
        action: Action {
            action_type: ActionType::AutomationMacro,
            description: "Test".to_string(),
            confidence: Confidence::High,
            risk: RiskCategory::NoRisk,
        },
        expected_outcome: StrMap::new(),
        source: "test".to_string(),
        timestamp: 1234567890,
    };

    let pattern = detector.detect_pattern(&observation);
    assert_eq!(pattern, PatternType::DebuggingLoop);
}

#[test]
fn test_recommendation_ranking() {
    let ranker = RecommendationRanker::new();
    let mut metrics1 = StrMap::new();
    metrics1.insert("repeat_count".to_string(), 8_000_000);
    let mut expected1 = StrMap::new();
    expected1.insert("time_saved_min".to_string(), 20_000_000);

    let mut metrics2 = StrMap::new();
    metrics2.insert("repeat_count".to_string(), 3_000_000);
    let mut expected2 = StrMap::new();
    expected2.insert("time_saved_min".to_string(), 5_000_000);

    let obs1 = Observation {
        id: "obs1".to_string(),
        profile: UserProfile::Developer,
        observation: vec!["Teams".to_string(), "Gmail".to_string()],
        metrics: metrics1,
        intent: Intent::SuggestShortcut,
        action: Action {
            action_type: ActionType::AutomationMacro,
            description: "High value".to_string(),
            confidence: Confidence::High,
            risk: RiskCategory::NoRisk,
        },
        expected_outcome: expected1,
        source: "test".to_string(),
        timestamp: 1234567890,
    };

    let obs2 = Observation {
        id: "obs2".to_string(),
        profile: UserProfile::Developer,
        observation: vec!["App1".to_string()],
        metrics: metrics2,
        intent: Intent::SuggestShortcut,
        action: Action {
            action_type: ActionType::AutomationMacro,
            description: "Low value".to_string(),
            confidence: Confidence::Medium,
            risk: RiskCategory::Low,
        },
        expected_outcome: expected2,
        source: "test".to_string(),
        timestamp: 1234567890,
    };

    let ranked = ranker.rank_actions(&[obs1.clone(), obs2.clone()]);
    assert_eq!(ranked.len(), 2);
    assert!(ranked[0].1 >= ranked[1].1);
    assert_eq!(ranked[0].0.id, "obs1");
    // 0.4 * (8 * 0.3 / 100) + 0.6 * (20 / 100) = 0.1296
    assert_eq!(ranked[0].1, 129_600);
    // (0.4 * (3 * 0.3 / 100) + 0.6 * (5 / 100)) * 0.7 * 0.8 = 0.018816
    assert_eq!(ranked[1].1, 18_816);
}

#[test]
fn test_training_updates_weights() {
    let mut detector = PatternDetector::new();
    let initial_weight = detector.weight("repeat_count").unwrap();

    let mut metrics = StrMap::new();
    metrics.insert("repeat_count".to_string(), 10_000_000);
    let observation = Observation {
        id: "test".to_string(),
        profile: UserProfile::Developer,
        observation: vec!["App1".to_string(), "App2".to_string()],
        metrics,
        intent: Intent::DetectPattern,
        action: Action {
            action_type: ActionType::AutomationMacro,
            description: "Test".to_string(),
            confidence: Confidence::High,
            risk: RiskCategory::NoRisk,
        },
        expected_outcome: StrMap::new(),
        source: "test".to_string(),
        timestamp: 1234567890,
    };

    detector.train(&[observation]);
    let new_weight = detector.weight("repeat_count").unwrap();
    assert!(new_weight > initial_weight);
    assert_eq!(initial_weight, 300_000);
    assert_eq!(new_weight, 330_000);
}

#[test]
fn test_initial_weights() {
    let detector = PatternDetector::default();
    assert_eq!(detector.weight("repeat_count"), Some(300_000));
    assert_eq!(detector.weight("time_to_first_code_min"), Some(200_000));
    assert_eq!(detector.weight("context_switch_count"), Some(250_000));
    assert_eq!(detector.weight("focus_fragmentation_pct"), Some(250_000));
    assert_eq!(detector.weight("session_duration"), None);
}

#[test]
fn test_training_only_inflates_repetition() {
    let mut detector = PatternDetector::new();
    let reinforcing = observation(
        "a",
        &["x"],
        &[("repeat_count", 5_000_001)],
        &[],
        Confidence::High,
        RiskCategory::NoRisk,
    );
    let at_threshold = observation(
        "b",
        &["x"],
        &[("repeat_count", 5_000_000)],
        &[],
        Confidence::High,
        RiskCategory::NoRisk,
    );
    let without = observation("c", &["x"], &[], &[], Confidence::High, RiskCategory::NoRisk);
    detector.train(&[at_threshold.clone(), without.clone()]);
    assert_eq!(detector.weight("repeat_count"), Some(300_000));
    detector.train(&[reinforcing.clone(), at_threshold, reinforcing.clone(), without]);
    assert_eq!(detector.weight("repeat_count"), Some(363_000));
    detector.train(&[reinforcing]);
    assert_eq!(detector.weight("repeat_count"), Some(399_300));
    assert_eq!(detector.weight("time_to_first_code_min"), Some(200_000));
    assert_eq!(detector.weight("context_switch_count"), Some(250_000));
    assert_eq!(detector.weight("focus_fragmentation_pct"), Some(250_000));
    let mut ranker = RecommendationRanker::default();
    let many: Vec<Observation> = (0..400)
        .map(|i| {
            observation(
                &format!("o{}", i),
                &["x"],
                &[("repeat_count", 9_000_000)],
                &[],
                Confidence::High,
                RiskCategory::NoRisk,
            )
        })
        .collect();
    ranker.train(&many);
    let high = observation(
        "h",
        &["x"],
        &[("repeat_count", 1_000_000)],
        &[],
        Confidence::High,
        RiskCategory::NoRisk,
    );
    assert_eq!(ranker.score(&high), 400_000);
}

#[test]
fn test_score_is_the_clamped_weighted_sum() {
    let detector = PatternDetector::new();
    let all = observation(
        "a",
        &[],
        &[
            ("repeat_count", 8_000_000),
            ("time_to_first_code_min", 12_000_000),
            ("context_switch_count", 4_000_000),
            ("focus_fragmentation_pct", 40_000_000),
            ("not_weighted", 1_000_000_000),
        ],
        &[],
        Confidence::High,
        RiskCategory::NoRisk,
    );
    // (8*0.3 + 12*0.2 + 4*0.25 + 40*0.25) / 100 = 0.158
    assert_eq!(detector.score_confidence(&all), 158_000);
    let none = observation("n", &[], &[], &[], Confidence::High, RiskCategory::NoRisk);
    assert_eq!(detector.score_confidence(&none), 0);
    let huge = observation(
        "h",
        &[],
        &[("repeat_count", i64::MAX)],
        &[],
        Confidence::High,
        RiskCategory::NoRisk,
    );
    assert_eq!(detector.score_confidence(&huge), 1_000_000);
    let negative = observation(
        "m",
        &[],
        &[("repeat_count", i64::MIN), ("focus_fragmentation_pct", i64::MIN)],
        &[],
        Confidence::High,
        RiskCategory::NoRisk,
    );
    assert_eq!(detector.score_confidence(&negative), 0);
}

#[test]
fn test_detection_falls_through_in_order() {
    let detector = PatternDetector::new();
    let repeated_but_short = observation(
        "a",
        &["copy_error", "x"],
        &[("repeat_count", 9_000_000)],
        &[],
        Confidence::High,
        RiskCategory::NoRisk,
    );
    assert_eq!(detector.detect_pattern(&repeated_but_short), PatternType::DebuggingLoop);
    let switching = observation(
        "b",
        &["x"],
        &[("context_switch_count", 6_000_000)],
        &[],
        Confidence::High,
        RiskCategory::NoRisk,
    );
    assert_eq!(detector.detect_pattern(&switching), PatternType::ContextSwitching);
    let fragmented = observation(
        "c",
        &["x"],
        &[("focus_fragmentation_pct", 50_000_001)],
        &[],
        Confidence::High,
        RiskCategory::NoRisk,
    );
    assert_eq!(detector.detect_pattern(&fragmented), PatternType::ContextSwitching);
    let calm = observation(
        "d",
        &["x", "y", "z"],
        &[
            ("repeat_count", 5_000_000),
            ("context_switch_count", 5_000_000),
            ("focus_fragmentation_pct", 50_000_000),
        ],
        &[],
        Confidence::High,
        RiskCategory::NoRisk,
    );
    assert_eq!(detector.detect_pattern(&calm), PatternType::TimingVariance);
}

#[test]
fn test_multipliers_and_composite() {
    assert_eq!(multiplier_of_confidence(Confidence::High), 1_000_000);
    assert_eq!(multiplier_of_confidence(Confidence::Medium), 700_000);
    assert_eq!(multiplier_of_confidence(Confidence::Low), 400_000);
    assert_eq!(multiplier_of_risk(RiskCategory::NoRisk), 1_000_000);
    assert_eq!(multiplier_of_risk(RiskCategory::Low), 800_000);
    assert_eq!(multiplier_of_risk(RiskCategory::High), 300_000);
    // 0.4 * 0.5 + 0.6 * 0.11 = 0.266
    assert_eq!(composite(500_000, 11_000_000, Confidence::High, RiskCategory::NoRisk), 266_000);
    assert_eq!(composite(500_000, 11_000_000, Confidence::Low, RiskCategory::High), 31_920);
    assert_eq!(composite(0, 0, Confidence::High, RiskCategory::NoRisk), 0);
    assert_eq!(composite(0, -100_000_000, Confidence::High, RiskCategory::NoRisk), -600_000);
    let extreme = composite(1_000_000, i64::MAX, Confidence::High, RiskCategory::NoRisk);
    assert_eq!(extreme, 400_000 + 55_340_232_221_128_654);
}

#[test]
fn test_ranking_is_descending_and_stable() {
    assert_eq!(ranking_of(&vec![]), Vec::<usize>::new());
    assert_eq!(ranking_of(&vec![5]), vec![0]);
    assert_eq!(ranking_of(&vec![1, 3, 2]), vec![1, 2, 0]);
    assert_eq!(ranking_of(&vec![2, 2, 2]), vec![0, 1, 2]);
    assert_eq!(ranking_of(&vec![1, 5, 1, 5, 3]), vec![1, 3, 4, 0, 2]);
    assert_eq!(ranking_of(&vec![-1, i64::MIN, i64::MAX, 0]), vec![2, 3, 0, 1]);

    let ranker = RecommendationRanker::new();
    let make = |id: &str, saved: i64| {
        observation(
            id,
            &["x"],
            &[],
            &[("time_saved_min", saved)],
            Confidence::High,
            RiskCategory::NoRisk,
        )
    };
    let input = vec![
        make("low", 1_000_000),
        make("tie_a", 7_000_000),
        make("top", 50_000_000),
        make("tie_b", 7_000_000),
    ];
    let ranked = ranker.rank_actions(&input);
    let ids: Vec<&str> = ranked.iter().map(|r| r.0.id.as_str()).collect();
    assert_eq!(ids, vec!["top", "tie_a", "tie_b", "low"]);
    let scores: Vec<i64> = ranked.iter().map(|r| r.1).collect();
    assert_eq!(scores, vec![300_000, 42_000, 42_000, 6_000]);
    assert!(ranker.rank_actions(&[]).is_empty());
}
