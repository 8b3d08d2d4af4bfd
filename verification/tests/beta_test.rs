use athenos::beta::{feedback_type_name, BetaOnboardingManager, FeedbackType};
use athenos::types::UserProfile;

#[test]
fn test_beta_onboarding_manager_creation() {
    let manager = BetaOnboardingManager::new();
    assert_eq!(manager.feedback_count(), 0);
}

#[test]
fn test_onboard_user() {
    let mut manager = BetaOnboardingManager::new();
    manager.onboard_user("beta_001".to_string(), UserProfile::Developer);

    let stats = manager.get_cohort_stats();
    assert_eq!(stats.total_members, 1);
}

#[test]
fn test_simulate_beta_onboarding() {
    let mut manager = BetaOnboardingManager::new();
    manager.simulate_beta_onboarding();

    let stats = manager.get_cohort_stats();
    assert_eq!(stats.total_members, 500);
}

#[test]
fn test_collect_feedback() {
    let mut manager = BetaOnboardingManager::new();
    manager.collect_feedback(
        "beta_001".to_string(),
        FeedbackType::PositiveFeedback,
        "Great product!".to_string(),
        Some(9),
    );

    assert_eq!(manager.feedback_count(), 1);
    let summary = manager.get_feedback_summary();
    assert_eq!(summary.total_feedback, 1);
    assert_eq!(summary.avg_rating, 9_000_000);
}

#[test]
fn test_onboarding_is_noted() {
    let mut manager = BetaOnboardingManager::default();
    assert!(!manager.is_onboarded("beta_001"));
    manager.onboard_user_at("beta_001".to_string(), UserProfile::Designer, 3);
    assert!(manager.is_onboarded("beta_001"));
    assert!(!manager.is_onboarded("beta_002"));
    assert_eq!(manager.get_cohort_stats().target_size, 500);
    manager.simulate_beta_onboarding();
    assert!(!manager.is_onboarded("user_001"));
    assert_eq!(manager.get_feedback_summary().total_beta_users, 500);
}

#[test]
fn test_feedback_summary_counts_by_kind() {
    let mut manager = BetaOnboardingManager::new();
    let empty = manager.get_feedback_summary();
    assert_eq!(empty.total_feedback, 0);
    assert_eq!(empty.avg_rating, 0);
    assert!(empty.feedback_by_type.is_empty());
    manager.collect_feedback_at("a".to_string(), FeedbackType::BugReport, "x".to_string(), Some(2), 1);
    manager.collect_feedback_at("b".to_string(), FeedbackType::General, "y".to_string(), None, 2);
    manager.collect_feedback_at("c".to_string(), FeedbackType::BugReport, "z".to_string(), Some(10), 3);
    manager.collect_feedback_at(
        "d".to_string(),
        FeedbackType::UsabilityIssue,
        "w".to_string(),
        Some(255),
        4,
    );
    let summary = manager.get_feedback_summary();
    assert_eq!(summary.total_feedback, 4);
    // the unrated piece counts in the divisor: (2 + 10 + 255) / 4
    assert_eq!(summary.avg_rating, 66_750_000);
    assert_eq!(summary.feedback_by_type.len(), 3);
    assert_eq!(summary.feedback_by_type.get("BugReport"), Some(&2));
    assert_eq!(summary.feedback_by_type.get("General"), Some(&1));
    assert_eq!(summary.feedback_by_type.get("UsabilityIssue"), Some(&1));
    assert_eq!(summary.feedback_by_type.get("FeatureRequest"), None);
    assert_eq!(summary.feedback_by_type.get("PositiveFeedback"), None);
    assert_eq!(summary.total_beta_users, 0);
    assert_eq!(feedback_type_name(FeedbackType::FeatureRequest), "FeatureRequest");
    assert_eq!(feedback_type_name(FeedbackType::PositiveFeedback), "PositiveFeedback");
}
