use athenos::rl_policy::{compute_reward, intent_name, profile_name, update_value, RLPolicy};
use athenos::strmap::StrMap;
use athenos::types::{
    Action, ActionType, Confidence, Intent, Observation, Outcome, RiskCategory, UserProfile,
};

fn observation(intent: Intent, profile: UserProfile, description: &str) -> Observation {
    Observation {
        id: "test_001".to_string(),
        profile,
        observation: vec!["Teams".to_string()],
        metrics: StrMap::new(),
        intent,
        action: Action {
            action_type: ActionType::AutomationMacro,
            description: description.to_string(),
            confidence: Confidence::High,
            risk: RiskCategory::NoRisk,
        },
        expected_outcome: StrMap::new(),
        source: "test".to_string(),
        timestamp: 1234567890,
    }
}

fn outcome(
    accepted: bool,
    ignored: bool,
    time_saved_minutes: Option<i64>,
    error_rate_change: Option<i64>,
) -> Outcome {
    Outcome {
        observation_id: "test_001".to_string(),
        accepted,
        ignored,
        modified: false,
        time_saved_minutes,
        error_rate_change,
        timestamp: 1234567890,
    }
}

#[test]
fn test_rl_policy_creation() {
    let policy = RLPolicy::new();
    assert_eq!(policy.get_statistics().total_states, 0);
}

#[test]
fn test_update_from_outcome() {
    let mut policy = RLPolicy::new();
    let observation = Observation {
        id: "test_001".to_string(),
        profile: UserProfile::Developer,
        observation: vec!["Teams".to_string()],
        metrics: StrMap::new(),
        intent: Intent::SuggestShortcut,
        action: Action {
            action_type: ActionType::AutomationMacro,
            description: "Test".to_string(),
            confidence: Confidence::High,
            risk: RiskCategory::NoRisk,
        },
        expected_outcome: StrMap::new(),
        source: "test".to_string(),
        timestamp: 1234567890,
    };

    let outcome = Outcome {
        observation_id: "test_001".to_string(),
        accepted: true,
        ignored: false,
        modified: false,
        time_saved_minutes: Some(11_000_000),
        error_rate_change: None,
        timestamp: 1234567890,
    };

    policy.update_from_outcome(&observation, &outcome);
    assert_eq!(policy.get_statistics().total_states, 1);
    // reward 10 + 0.5 * 11 = 15.5, a tenth of which is 1.55
    assert_eq!(policy.get_entry("SuggestShortcut_Developer").unwrap().q_value, 1_550_000);
}

#[test]
fn test_select_action() {
    let policy = RLPolicy::new();
    let observation = Observation {
        id: "test_002".to_string(),
        profile: UserProfile::Developer,
        observation: vec!["App1".to_string()],
        metrics: StrMap::new(),
        intent: Intent::SuggestShortcut,
        action: Action {
            action_type: ActionType::AutomationMacro,
            description: "Test".to_string(),
            confidence: Confidence::High,
            risk: RiskCategory::NoRisk,
        },
        expected_outcome: StrMap::new(),
        source: "test".to_string(),
        timestamp: 1234567890,
    };

    let selected = policy.select_action(&observation);
    assert_eq!(selected.action_type, ActionType::AutomationMacro);
}

#[test]
fn test_two_updates_move_a_tenth_each() {
    let mut policy = RLPolicy::new();
    let obs = observation(Intent::AutomateAction, UserProfile::Designer, "Test");
    let accepted = outcome(true, false, None, None);
    assert_eq!(compute_reward(&accepted), 10_000_000);
    policy.update_from_outcome(&obs, &accepted);
    let entry = policy.get_entry("AutomateAction_Designer").unwrap();
    assert_eq!(entry.q_value, 1_000_000);
    assert_eq!(entry.visit_count, 1);
    policy.update_from_outcome(&obs, &accepted);
    let entry = policy.get_entry("AutomateAction_Designer").unwrap();
    assert_eq!(entry.q_value, 1_900_000);
    assert_eq!(entry.visit_count, 2);
    assert_eq!(update_value(0, 10_000_000, 100_000), 1_000_000);
    assert_eq!(update_value(1_000_000, 10_000_000, 100_000), 1_900_000);
    assert_eq!(update_value(1_900_000, 10_000_000, 100_000), 2_710_000);
    assert_eq!(update_value(5, 5, 100_000), 5);
    assert_eq!(update_value(10, 0, 100_000), 9);
    assert_eq!(update_value(i64::MIN, i64::MAX, 1_000_000), i64::MAX);
    assert_eq!(update_value(i64::MAX, i64::MIN, 0), i64::MAX);
}

#[test]
fn test_reward_formula() {
    assert_eq!(compute_reward(&outcome(false, false, None, None)), 0);
    assert_eq!(compute_reward(&outcome(true, false, None, None)), 10_000_000);
    assert_eq!(compute_reward(&outcome(false, true, None, None)), -2_000_000);
    assert_eq!(compute_reward(&outcome(true, true, None, None)), 8_000_000);
    assert_eq!(compute_reward(&outcome(false, false, Some(11_000_000), None)), 5_500_000);
    assert_eq!(compute_reward(&outcome(false, false, Some(-3), None)), -2);
    assert_eq!(compute_reward(&outcome(false, false, None, Some(-1))), 5_000_000);
    assert_eq!(compute_reward(&outcome(false, false, None, Some(0))), 0);
    assert_eq!(compute_reward(&outcome(false, false, None, Some(50_000))), 0);
    assert_eq!(
        compute_reward(&outcome(true, false, Some(11_000_000), Some(-100_000))),
        20_500_000
    );
    assert_eq!(
        compute_reward(&outcome(true, false, Some(i64::MAX), Some(-1))),
        15_000_000 + 4_611_686_018_427_387_903
    );
}

#[test]
fn test_state_key_is_intent_and_profile() {
    let policy = RLPolicy::new();
    assert_eq!(
        policy.get_state_key(&observation(Intent::DetectPattern, UserProfile::Other, "x")),
        "DetectPattern_Other"
    );
    assert_eq!(
        policy.get_state_key(&observation(Intent::MoodIntervention, UserProfile::Accountant, "x")),
        "MoodIntervention_Accountant"
    );
    assert_eq!(intent_name(Intent::SuggestShortcut), "SuggestShortcut");
    assert_eq!(intent_name(Intent::AutomateAction), "AutomateAction");
    assert_eq!(profile_name(UserProfile::Manager), "Manager");
    assert_eq!(profile_name(UserProfile::Student), "Student");
    assert_eq!(profile_name(UserProfile::Designer), "Designer");
    assert_eq!(profile_name(UserProfile::Developer), "Developer");
}

#[test]
fn test_observations_of_one_situation_share_an_entry() {
    let mut policy = RLPolicy::new();
    let first = observation(Intent::SuggestShortcut, UserProfile::Developer, "First");
    let mut second = observation(Intent::SuggestShortcut, UserProfile::Developer, "Second");
    second.id = "other".to_string();
    policy.update_from_outcome(&first, &outcome(true, false, None, None));
    policy.update_from_outcome(&second, &outcome(false, true, None, None));
    let stats = policy.get_statistics();
    assert_eq!(stats.total_states, 1);
    let entry = policy.get_entry("SuggestShortcut_Developer").unwrap();
    assert_eq!(entry.action.description, "Second");
    assert_eq!(entry.visit_count, 2);
    // 1.0 + 0.1 * (-2 - 1.0) = 0.7
    assert_eq!(entry.q_value, 700_000);
    assert!(policy.get_entry("SuggestShortcut_Manager").is_none());
}

#[test]
fn test_selection_by_draw() {
    let mut policy = RLPolicy::new();
    let known = observation(Intent::SuggestShortcut, UserProfile::Developer, "Known");
    policy.update_from_outcome(&known, &outcome(true, false, None, None));
    let proposed = observation(Intent::SuggestShortcut, UserProfile::Developer, "Proposed");
    assert_eq!(policy.select_action_with(&proposed, 0).description, "Proposed");
    assert_eq!(policy.select_action_with(&proposed, 99_999).description, "Proposed");
    assert_eq!(policy.select_action_with(&proposed, 100_000).description, "Known");
    assert_eq!(policy.select_action_with(&proposed, 999_999).description, "Known");
    let unseen = observation(Intent::DetectPattern, UserProfile::Developer, "Unseen");
    assert_eq!(policy.select_action_with(&unseen, 0).description, "Unseen");
    assert_eq!(policy.select_action_with(&unseen, 500_000).description, "Unseen");
    for _ in 0..200 {
        let chosen = policy.select_action(&proposed).description;
        assert!(chosen == "Proposed" || chosen == "Known");
        assert_eq!(policy.select_action(&unseen).description, "Unseen");
    }
}

#[test]
fn test_statistics() {
    let mut policy = RLPolicy::default();
    let stats = policy.get_statistics();
    assert_eq!(stats.total_states, 0);
    assert_eq!(stats.avg_q_value, 0);
    assert_eq!(stats.learning_rate, 100_000);
    assert_eq!(stats.epsilon, 100_000);
    policy.update_from_outcome(
        &observation(Intent::SuggestShortcut, UserProfile::Developer, "a"),
        &outcome(true, false, None, None),
    );
    policy.update_from_outcome(
        &observation(Intent::DetectPattern, UserProfile::Developer, "b"),
        &outcome(false, true, None, None),
    );
    policy.update_from_outcome(
        &observation(Intent::DetectPattern, UserProfile::Student, "c"),
        &outcome(false, true, None, None),
    );
    let stats = policy.get_statistics();
    assert_eq!(stats.total_states, 3);
    // (1.0 - 0.2 - 0.2) / 3 = 0.2
    assert_eq!(stats.avg_q_value, 200_000);
    policy.update_from_outcome(
        &observation(Intent::DetectPattern, UserProfile::Manager, "d"),
        &outcome(false, true, Some(-2), None),
    );
    // (1.0 - 0.2 - 0.2 - 0.2000001) / 4 rounds down
    assert_eq!(policy.get_statistics().avg_q_value, 99_999);
}
