use athenos::auto_action::{ActionState, AutoActionSynthesizer};
use athenos::edge::{EdgeObserver, OSEvent, OSEventType};
use athenos::models::{PatternDetector, RecommendationRanker};
use athenos::pattern_miner::PatternMiner;
use athenos::privacy::ConsentLedger;
use athenos::replay::ReplaySimulator;
use athenos::rl_policy::RLPolicy;
use athenos::strmap::StrMap;
use athenos::types::{
    Action, ActionType, Confidence, Intent, Observation, Outcome, PatternType, RiskCategory,
    UserProfile,
};

fn scenario(confidence: Confidence, risk: RiskCategory) -> Observation {
    let mut metrics = StrMap::new();
    metrics.insert("repeat_count".to_string(), 8_000_000);
    let mut expected_outcome = StrMap::new();
    expected_outcome.insert("time_saved_min".to_string(), 11_000_000);
    Observation {
        id: "seed_001".to_string(),
        profile: UserProfile::Developer,
        observation: vec!["Teams".to_string(), "Gmail".to_string(), "IDE".to_string()],
        metrics,
        intent: Intent::AutomateAction,
        action: Action {
            action_type: ActionType::AutomationMacro,
            description: "Open the morning apps".to_string(),
            confidence,
            risk,
        },
        expected_outcome,
        source: "test".to_string(),
        timestamp: 1234567890,
    }
}

#[test]
fn test_phase_a_integration() {
    let consent_ledger = ConsentLedger::new();
    assert!(!consent_ledger.can_sync_to_cloud());

    let mut observer = EdgeObserver::new(10);
    observer.record_event(OSEvent {
        event_type: OSEventType::AppLaunch,
        app_name: "Teams".to_string(),
        window_title: None,
        timestamp: 1234567890,
        metadata: StrMap::new(),
    });

    let sequence = observer.get_app_sequence(10);
    assert_eq!(sequence, vec!["Teams"]);
}

#[test]
fn test_safe_action_runs_and_rolls_back() {
    let observation = scenario(Confidence::High, RiskCategory::NoRisk);
    let mut synthesizer = AutoActionSynthesizer::new();
    let executed = synthesizer.synthesize_and_execute(&observation).unwrap();
    assert!(executed.rollback_diff.is_some());
    assert_eq!(executed.state, ActionState::Completed);
    assert_eq!(executed.id, "action_seed_001");
    assert_eq!(synthesizer.rollback_last(), Ok(()));
    let record = synthesizer.get_action("action_seed_001").unwrap();
    assert_eq!(record.state, ActionState::RolledBack);
    assert!(record.rolled_back_at.is_some());
    assert_eq!(synthesizer.stack_len(), 0);
}

#[test]
fn test_risky_action_is_refused_and_leaves_no_record() {
    let observation = scenario(Confidence::Low, RiskCategory::High);
    let mut synthesizer = AutoActionSynthesizer::new();
    let result = synthesizer.synthesize_and_execute(&observation);
    assert_eq!(result.err(), Some("Action not safe for auto-execution".to_string()));
    assert_eq!(synthesizer.record_count(), 0);
    assert_eq!(synthesizer.stack_len(), 0);
    assert!(synthesizer.get_action("action_seed_001").is_none());
    assert!(synthesizer.get_execution_history().is_empty());
}

#[test]
fn test_observation_flows_through_the_pipeline() {
    let observation = scenario(Confidence::High, RiskCategory::NoRisk);

    let mut observer = EdgeObserver::new(100);
    for (i, app) in ["Teams", "Gmail", "IDE"].iter().enumerate() {
        observer.record_event(OSEvent {
            event_type: OSEventType::AppSwitch,
            app_name: app.to_string(),
            window_title: Some(format!("{} window", app)),
            timestamp: i as i64,
            metadata: StrMap::new(),
        });
    }
    let mut miner = PatternMiner::new();
    let tags = miner.mine_patterns(&observer.get_recent_events(100));
    assert!(tags.is_empty());
    assert_eq!(miner.compute_causal_strength("Teams", "Gmail"), 1_000_000);

    let detector = PatternDetector::new();
    assert_eq!(detector.detect_pattern(&observation), PatternType::WorkflowSequence);
    // 8 * 0.3 / 100
    assert_eq!(detector.score_confidence(&observation), 24_000);
    let ranker = RecommendationRanker::new();
    // 0.4 * 0.024 + 0.6 * 0.11
    assert_eq!(ranker.rank_actions(&[observation.clone()])[0].1, 75_600);

    let mut simulator = ReplaySimulator::new();
    let first = simulator.replay_action(&observation);
    assert!(!simulator.gate_action(&first));
    let accepted = Outcome {
        observation_id: "seed_001".to_string(),
        accepted: true,
        ignored: false,
        modified: false,
        time_saved_minutes: Some(11_000_000),
        error_rate_change: Some(-50_000),
        timestamp: 1234567899,
    };
    simulator.add_outcome("earlier_1".to_string(), accepted.clone());
    simulator.add_outcome("earlier_2".to_string(), accepted.clone());
    let second = simulator.replay_action(&observation);
    assert!(simulator.gate_action(&second));

    let mut synthesizer = AutoActionSynthesizer::new();
    assert!(synthesizer.synthesize_and_execute(&observation).is_ok());

    let mut policy = RLPolicy::new();
    policy.update_from_outcome(&observation, &accepted);
    // reward 10 + 5.5 + 5 = 20.5
    assert_eq!(policy.get_entry("AutomateAction_Developer").unwrap().q_value, 2_050_000);
    let proposal = scenario(Confidence::Low, RiskCategory::High);
    let chosen = policy.select_action_with(&proposal, 500_000);
    assert_eq!(chosen.confidence, Confidence::High);
    assert_eq!(chosen.risk, RiskCategory::NoRisk);
}
