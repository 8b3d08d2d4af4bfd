use athenos::api::{
    APIPermission, CustomIntervention, DeveloperAPIManager, HookType, ObservationHook,
};
use athenos::strmap::StrMap;
use athenos::types::{Action, ActionType, Confidence, RiskCategory};

fn hook(id: &str, developer: &str, active: bool) -> ObservationHook {
    ObservationHook {
        id: id.to_string(),
        developer_id: developer.to_string(),
        hook_type: HookType::OnActionExecuted,
        callback_url: None,
        filter: StrMap::new(),
        active,
    }
}

#[test]
fn test_api_manager_creation() {
    let manager = DeveloperAPIManager::new();
    assert_eq!(manager.key_count(), 0);
}

#[test]
fn test_register_api_key() {
    let mut manager = DeveloperAPIManager::new();
    let api_key = manager.register_api_key(
        "dev_001".to_string(),
        vec![APIPermission::ReadObservations, APIPermission::WriteHooks],
    );

    assert_eq!(manager.key_count(), 1);
    assert!(manager.validate_api_key(&api_key.key).is_some());
}

#[test]
fn test_register_hook() {
    let mut manager = DeveloperAPIManager::new();
    let hook = ObservationHook {
        id: "hook_001".to_string(),
        developer_id: "dev_001".to_string(),
        hook_type: HookType::OnPatternDetected,
        callback_url: Some("https://example.com/webhook".to_string()),
        filter: StrMap::new(),
        active: true,
    };

    manager.register_hook(hook);
    assert_eq!(manager.hook_count(), 1);
    assert_eq!(manager.get_developer_hooks("dev_001").len(), 1);
}

#[test]
fn test_key_is_made_of_the_time() {
    let mut manager = DeveloperAPIManager::default();
    let key = manager.register_api_key_at(
        "dev_001".to_string(),
        vec![APIPermission::ReadMetrics, APIPermission::WriteInterventions],
        1_700_000_000,
    );
    assert_eq!(key.key, "athenos_1700000000");
    assert_eq!(key.developer_id, "dev_001");
    assert_eq!(key.permissions, vec![APIPermission::ReadMetrics, APIPermission::WriteInterventions]);
    assert_eq!(key.created_at, 1_700_000_000);
    assert_eq!(key.expires_at, None);
    let found = manager.validate_api_key("athenos_1700000000").unwrap();
    assert_eq!(found.developer_id, "dev_001");
    assert_eq!(found.permissions.len(), 2);
    assert!(manager.validate_api_key("athenos_1700000001").is_none());
    manager.register_api_key_at("dev_002".to_string(), vec![], 1_700_000_000);
    assert_eq!(manager.key_count(), 1);
    assert_eq!(manager.validate_api_key("athenos_1700000000").unwrap().developer_id, "dev_002");
}

#[test]
fn test_only_active_hooks_of_the_developer() {
    let mut manager = DeveloperAPIManager::new();
    manager.register_hook(hook("h1", "dev_a", true));
    manager.register_hook(hook("h2", "dev_b", true));
    manager.register_hook(hook("h3", "dev_a", false));
    manager.register_hook(hook("h4", "dev_a", true));
    let ids: Vec<&str> = manager.get_developer_hooks("dev_a").iter().map(|h| h.id.as_str()).collect();
    assert_eq!(ids, vec!["h1", "h4"]);
    assert!(manager.get_developer_hooks("dev_c").is_empty());
    manager.register_hook(hook("h1", "dev_a", false));
    assert_eq!(manager.hook_count(), 4);
    let ids: Vec<&str> = manager.get_developer_hooks("dev_a").iter().map(|h| h.id.as_str()).collect();
    assert_eq!(ids, vec!["h4"]);
}

#[test]
fn test_register_intervention() {
    let mut manager = DeveloperAPIManager::new();
    let mut conditions = StrMap::new();
    conditions.insert("repeat_count".to_string(), 5_000_000);
    let intervention = CustomIntervention {
        id: "int_1".to_string(),
        developer_id: "dev_a".to_string(),
        intervention_type: "nudge".to_string(),
        action: Action {
            action_type: ActionType::MicroNudge,
            description: "Stretch".to_string(),
            confidence: Confidence::Medium,
            risk: RiskCategory::NoRisk,
        },
        conditions,
    };
    manager.register_intervention(intervention.clone());
    manager.register_intervention(intervention);
    assert_eq!(manager.intervention_count(), 1);
    assert_eq!(manager.hook_count(), 0);
}
