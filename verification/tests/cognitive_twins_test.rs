use athenos::cognitive_twins::{coach_for, CognitiveTwinManager};
use athenos::strmap::StrMap;
use athenos::types::{
    Action, ActionType, Confidence, Intent, Observation, RiskCategory, UserProfile,
};

fn observation(metrics: &[(&str, i64)]) -> Observation {
    let mut map = StrMap::new();
    for (name, value) in metrics {
        map.insert(name.to_string(), *value);
    }
    Observation {
        id: "test".to_string(),
        profile: UserProfile::Developer,
        observation: vec!["IDE".to_string()],
        metrics: map,
        intent: Intent::DetectPattern,
        action: Action {
            action_type: ActionType::AutomationMacro,
            description: "Test".to_string(),
            confidence: Confidence::High,
            risk: RiskCategory::NoRisk,
        },
        expected_outcome: StrMap::new(),
        source: "test".to_string(),
        timestamp: 1234567890,
    }
}

#[test]
fn test_cognitive_twin_manager_creation() {
    let manager = CognitiveTwinManager::new();
    assert_eq!(manager.twin_count(), 0);
    assert_eq!(manager.coach_count(), 3);
}

#[test]
fn test_create_twin() {
    let mut manager = CognitiveTwinManager::new();
    let twin = manager.create_twin("user_001".to_string(), UserProfile::Developer);

    assert_eq!(twin.user_id, "user_001");
    assert_eq!(twin.persona, UserProfile::Developer);
    assert!(manager.get_twin("user_001").is_some());
}

#[test]
fn test_get_persona_insight() {
    let mut manager = CognitiveTwinManager::new();
    manager.create_twin("user_001".to_string(), UserProfile::Developer);

    let observation = Observation {
        id: "test".to_string(),
        profile: UserProfile::Developer,
        observation: vec!["IDE".to_string()],
        metrics: StrMap::new(),
        intent: Intent::DetectPattern,
        action: Action {
            action_type: ActionType::AutomationMacro,
            description: "Test".to_string(),
            confidence: Confidence::High,
            risk: RiskCategory::NoRisk,
        },
        expected_outcome: StrMap::new(),
        source: "test".to_string(),
        timestamp: 1234567890,
    };

    let insight = manager.get_persona_insight("user_001", &observation);
    assert!(insight.is_some());
    let insight = insight.unwrap();
    assert!(insight.contains("Developer Coach"));
}

#[test]
fn test_coaches_by_profile() {
    assert!(coach_for(UserProfile::Developer).unwrap().starts_with("Developer Coach: "));
    assert!(coach_for(UserProfile::Manager).unwrap().starts_with("Manager Coach: "));
    assert!(coach_for(UserProfile::Designer).unwrap().starts_with("Creative Coach: "));
    assert_eq!(coach_for(UserProfile::Accountant), None);
    assert_eq!(coach_for(UserProfile::Student), None);
    assert_eq!(coach_for(UserProfile::Other), None);
    let mut manager = CognitiveTwinManager::default();
    manager.create_twin_at("s".to_string(), UserProfile::Student, 5);
    manager.create_twin_at("m".to_string(), UserProfile::Manager, 6);
    let general = manager.get_persona_insight("s", &observation(&[])).unwrap();
    assert!(general.starts_with("[General coach] I've noticed you frequently follow the pattern: IDE. This behavioral pattern pattern"));
    let manager_insight = manager.get_persona_insight("m", &observation(&[])).unwrap();
    assert!(manager_insight.starts_with("[Manager Coach: Emphasizes team coordination, decision-making clarity, and strategic focus.] I've noticed"));
    assert!(manager.get_persona_insight("nobody", &observation(&[])).is_none());
}

#[test]
fn test_twin_model_follows_the_metrics() {
    let mut manager = CognitiveTwinManager::new();
    let twin = manager.create_twin_at("u".to_string(), UserProfile::Designer, 42);
    assert_eq!(twin.created_at, 42);
    assert!(twin.behavioral_model.is_empty());
    assert!(twin.wisdom_engine.prompt_template().starts_with("You are Athenos AI"));
    manager.update_behavioral_model("u", &observation(&[("repeat_count", 8), ("focus", 3)]));
    manager.update_behavioral_model("nobody", &observation(&[("repeat_count", 8)]));
    manager.update_behavioral_model("u", &observation(&[("focus", 4), ("switches", -1)]));
    let stored = manager.get_twin("u").unwrap();
    assert_eq!(stored.behavioral_model.len(), 3);
    assert_eq!(stored.behavioral_model.get("repeat_count"), Some(&8));
    assert_eq!(stored.behavioral_model.get("focus"), Some(&4));
    assert_eq!(stored.behavioral_model.get("switches"), Some(&-1));
    assert_eq!(stored.created_at, 42);
    assert_eq!(stored.persona, UserProfile::Designer);
    assert!(manager.get_twin("nobody").is_none());
    manager.create_twin_at("v".to_string(), UserProfile::Other, 43);
    manager.create_twin_at("u".to_string(), UserProfile::Other, 44);
    let listed: Vec<(&str, i64)> =
        manager.list_twins().iter().map(|t| (t.user_id.as_str(), t.created_at)).collect();
    assert_eq!(listed, vec![("u", 44), ("v", 43)]);
    assert!(manager.get_twin("u").unwrap().behavioral_model.is_empty());
    assert_eq!(manager.twin_count(), 2);
}
