use athenos::multi_region::{MultiRegionOrchestrator, Region};

fn region(id: &str, latency_ms: u64, active: bool) -> Region {
    Region {
        id: id.to_string(),
        name: id.to_uppercase(),
        endpoint: format!("https://{}.athenos.ai", id),
        latency_ms,
        active,
    }
}

#[test]
fn test_orchestrator_creation() {
    let orchestrator = MultiRegionOrchestrator::new();
    assert_eq!(orchestrator.region_count(), 0);
}

#[test]
fn test_add_region_and_select() {
    let mut orchestrator = MultiRegionOrchestrator::new();

    orchestrator.add_region(Region {
        id: "us-east".to_string(),
        name: "US East".to_string(),
        endpoint: "https://us-east.athenos.ai".to_string(),
        latency_ms: 50,
        active: true,
    });

    orchestrator.add_region(Region {
        id: "eu-west".to_string(),
        name: "EU West".to_string(),
        endpoint: "https://eu-west.athenos.ai".to_string(),
        latency_ms: 100,
        active: true,
    });

    let best = orchestrator.select_best_region("user_001");
    assert!(best.is_some());
    assert_eq!(best.unwrap().id, "us-east");
}

#[test]
fn test_assign_user_to_region() {
    let mut orchestrator = MultiRegionOrchestrator::new();
    orchestrator.add_region(Region {
        id: "us-east".to_string(),
        name: "US East".to_string(),
        endpoint: "https://us-east.athenos.ai".to_string(),
        latency_ms: 50,
        active: true,
    });

    orchestrator.assign_user_to_region("user_001".to_string(), "us-east".to_string());
    let region = orchestrator.get_user_region("user_001");
    assert!(region.is_some());
    assert_eq!(region.unwrap().id, "us-east");
}

#[test]
fn test_best_region_is_the_first_lowest_active() {
    let mut orchestrator = MultiRegionOrchestrator::default();
    assert!(orchestrator.select_best_region("anyone").is_none());
    orchestrator.add_region(region("asleep", 1, false));
    assert!(orchestrator.select_best_region("anyone").is_none());
    orchestrator.add_region(region("slow", 300, true));
    orchestrator.add_region(region("fast-a", 20, true));
    orchestrator.add_region(region("fast-b", 20, true));
    orchestrator.add_region(region("mid", 100, true));
    assert_eq!(orchestrator.select_best_region("anyone").unwrap().id, "fast-a");
    let active: Vec<&str> =
        orchestrator.get_active_regions().iter().map(|r| r.id.as_str()).collect();
    assert_eq!(active, vec!["slow", "fast-a", "fast-b", "mid"]);
    orchestrator.add_region(region("fast-a", 20, false));
    assert_eq!(orchestrator.region_count(), 5);
    assert_eq!(orchestrator.select_best_region("anyone").unwrap().id, "fast-b");
    assert_eq!(orchestrator.get_active_regions().len(), 3);
}

#[test]
fn test_assignment_wins_over_latency() {
    let mut orchestrator = MultiRegionOrchestrator::new();
    orchestrator.add_region(region("near", 5, true));
    orchestrator.add_region(region("far", 500, false));
    orchestrator.assign_user_to_region("alice".to_string(), "far".to_string());
    assert_eq!(orchestrator.select_best_region("alice").unwrap().id, "far");
    assert_eq!(orchestrator.get_user_region("alice").unwrap().latency_ms, 500);
    assert_eq!(orchestrator.select_best_region("bob").unwrap().id, "near");
    assert!(orchestrator.get_user_region("bob").is_none());
    orchestrator.assign_user_to_region("carol".to_string(), "nowhere".to_string());
    assert!(orchestrator.select_best_region("carol").is_none());
    assert!(orchestrator.get_user_region("carol").is_none());
    orchestrator.assign_user_to_region("alice".to_string(), "near".to_string());
    assert_eq!(orchestrator.get_user_region("alice").unwrap().id, "near");
    let copy = orchestrator.get_user_region("alice").unwrap().clone();
    assert_eq!(copy.endpoint, "https://near.athenos.ai");
}
