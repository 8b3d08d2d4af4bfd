use athenos::cohort::CohortManager;
use athenos::types::UserProfile;

#[test]
fn test_cohort_manager_creation() {
    let manager = CohortManager::new(200);
    assert_eq!(manager.target_size(), 200);
    assert_eq!(manager.member_count(), 0);
}

#[test]
fn test_add_member() {
    let mut manager = CohortManager::new(200);
    manager.add_member("user_001".to_string(), UserProfile::Developer);

    assert_eq!(manager.member_count(), 1);
    assert!(manager.contains_member("user_001"));
}

#[test]
fn test_record_intervention() {
    let mut manager = CohortManager::new(200);
    manager.add_member("user_001".to_string(), UserProfile::Developer);

    manager.record_intervention("user_001", true, 11_000_000);
    manager.record_intervention("user_001", false, 0);

    let member = manager.get_member("user_001").unwrap();
    assert_eq!(member.interventions_accepted, 1);
    assert_eq!(member.interventions_rejected, 1);
    assert_eq!(member.total_time_saved_min, 11_000_000);
}

#[test]
fn test_simulate_expansion() {
    let mut manager = CohortManager::new(200);
    let profiles = vec![UserProfile::Developer, UserProfile::Accountant, UserProfile::Designer];

    manager.simulate_expansion(&profiles);

    assert_eq!(manager.member_count(), 200);
    let stats = manager.get_statistics();
    assert_eq!(stats.total_members, 200);
    assert_eq!(stats.target_size, 200);
}

#[test]
fn test_cohort_statistics() {
    let mut manager = CohortManager::new(200);
    manager.add_member("user_001".to_string(), UserProfile::Developer);
    manager.add_member("user_002".to_string(), UserProfile::Accountant);

    manager.record_intervention("user_001", true, 11_000_000);
    manager.record_intervention("user_001", true, 5_000_000);
    manager.record_intervention("user_002", false, 0);

    let stats = manager.get_statistics();
    assert_eq!(stats.total_members, 2);
    assert_eq!(stats.total_interventions, 3);
    assert_eq!(stats.acceptance_rate, 666_666);
    assert_eq!(stats.total_time_saved_min, 16_000_000);
}

#[test]
fn test_empty_cohort_statistics() {
    let manager = CohortManager::new(7);
    let stats = manager.get_statistics();
    assert_eq!(stats.total_members, 0);
    assert_eq!(stats.target_size, 7);
    assert_eq!(stats.total_observations, 0);
    assert_eq!(stats.total_interventions, 0);
    assert_eq!(stats.acceptance_rate, 0);
    assert_eq!(stats.total_time_saved_min, 0);
    assert_eq!(stats.avg_time_saved_per_user, 0);
}

#[test]
fn test_members_and_their_counts() {
    let mut manager = CohortManager::new(5);
    manager.add_member_at("a".to_string(), UserProfile::Manager, 100);
    let member = manager.get_member("a").unwrap();
    assert_eq!(member.user_id, "a");
    assert_eq!(member.profile, UserProfile::Manager);
    assert_eq!(member.joined_at, 100);
    assert_eq!(member.observations_count, 0);
    manager.record_observation("a");
    manager.record_observation("a");
    manager.record_observation("nobody");
    manager.record_intervention("nobody", true, 1);
    manager.record_intervention("a", true, -3_000_000);
    manager.record_intervention("a", false, 99_000_000);
    manager.add_member_at("b".to_string(), UserProfile::Other, 101);
    manager.record_intervention("b", true, 10_000_001);
    let a = manager.get_member("a").unwrap();
    assert_eq!(a.observations_count, 2);
    assert_eq!(a.interventions_accepted, 1);
    assert_eq!(a.interventions_rejected, 1);
    assert_eq!(a.total_time_saved_min, -3_000_000);
    assert!(manager.get_member("nobody").is_none());
    let stats = manager.get_statistics();
    assert_eq!(stats.total_observations, 2);
    assert_eq!(stats.total_interventions, 3);
    assert_eq!(stats.acceptance_rate, 666_666);
    assert_eq!(stats.total_time_saved_min, 7_000_001);
    assert_eq!(stats.avg_time_saved_per_user, 3_500_000);
    // adding a member again starts them afresh
    manager.add_member_at("a".to_string(), UserProfile::Student, 102);
    assert_eq!(manager.member_count(), 2);
    let a = manager.get_member("a").unwrap().clone();
    assert_eq!(a.profile, UserProfile::Student);
    assert_eq!(a.observations_count, 0);
    assert_eq!(a.joined_at, 102);
}

#[test]
fn test_minutes_stop_at_the_ends() {
    let mut manager = CohortManager::new(5);
    manager.add_member_at("a".to_string(), UserProfile::Manager, 1);
    manager.record_intervention("a", true, i64::MAX);
    manager.record_intervention("a", true, i64::MAX);
    assert_eq!(manager.get_member("a").unwrap().total_time_saved_min, i64::MAX);
    manager.add_member_at("b".to_string(), UserProfile::Manager, 1);
    manager.record_intervention("b", true, i64::MAX);
    let stats = manager.get_statistics();
    assert_eq!(stats.total_time_saved_min, i64::MAX);
    assert_eq!(stats.avg_time_saved_per_user, i64::MAX);
    assert_eq!(stats.acceptance_rate, 1_000_000);
}

#[test]
fn test_simulated_members_are_numbered_on() {
    let mut manager = CohortManager::new(4);
    manager.add_member_at("early".to_string(), UserProfile::Other, 5);
    manager.simulate_expansion_at(
        &[UserProfile::Developer, UserProfile::Accountant, UserProfile::Designer],
        9,
    );
    assert_eq!(manager.member_count(), 4);
    assert!(manager.contains_member("early"));
    assert!(!manager.contains_member("user_000"));
    assert_eq!(manager.get_member("user_001").unwrap().profile, UserProfile::Accountant);
    assert_eq!(manager.get_member("user_002").unwrap().profile, UserProfile::Designer);
    assert_eq!(manager.get_member("user_003").unwrap().profile, UserProfile::Developer);
    assert_eq!(manager.get_member("user_003").unwrap().joined_at, 9);
    assert!(!manager.contains_member("user_004"));
    manager.simulate_expansion_at(&[UserProfile::Student], 10);
    assert_eq!(manager.member_count(), 4);
    assert_eq!(manager.get_member("user_001").unwrap().joined_at, 9);
    // a cohort that is full needs no profile
    manager.simulate_expansion_at(&[], 11);
    assert_eq!(manager.member_count(), 4);
}

#[test]
fn test_simulation_passes_over_taken_names() {
    let mut manager = CohortManager::new(3);
    manager.add_member_at("user_001".to_string(), UserProfile::Other, 5);
    manager.record_observation("user_001");
    manager.simulate_expansion_at(&[UserProfile::Student], 9);
    assert_eq!(manager.member_count(), 3);
    // the taken name was given out again, and its member started afresh
    assert_eq!(manager.get_member("user_001").unwrap().observations_count, 0);
    assert_eq!(manager.get_member("user_001").unwrap().profile, UserProfile::Student);
    assert!(manager.contains_member("user_002"));
    assert!(manager.contains_member("user_003"));
    assert!(!manager.contains_member("user_004"));
    let mut large = CohortManager::new(1001);
    large.simulate_expansion_at(&[UserProfile::Student], 0);
    assert!(large.contains_member("user_000"));
    assert!(large.contains_member("user_099"));
    assert!(large.contains_member("user_1000"));
    assert!(!large.contains_member("user_1001"));
}
