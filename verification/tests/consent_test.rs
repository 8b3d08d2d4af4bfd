use athenos::consent::MicroConsentManager;

#[test]
fn test_micro_consent_manager_creation() {
    let manager = MicroConsentManager::new();
    assert_eq!(manager.consent_count(), 0);
}

#[test]
fn test_request_and_grant_consent() {
    let mut manager = MicroConsentManager::new();
    let consent = manager.request_consent(
        "cloud_sync".to_string(),
        "Sync data to cloud for federated learning".to_string(),
    );

    assert_eq!(consent.capability, "cloud_sync");
    assert!(consent.granted_at.is_none());

    manager.grant_consent("cloud_sync").unwrap();
    assert!(manager.has_consent("cloud_sync"));
}

#[test]
fn test_revoke_consent() {
    let mut manager = MicroConsentManager::new();
    manager.request_consent("cloud_sync".to_string(), "Test".to_string());
    manager.grant_consent("cloud_sync").unwrap();

    assert!(manager.has_consent("cloud_sync"));

    manager.revoke_consent("cloud_sync", Some("Privacy concern".to_string())).unwrap();
    assert!(!manager.has_consent("cloud_sync"));
}

#[test]
fn test_timeline_entries() {
    let mut manager = MicroConsentManager::new();
    manager.request_consent("behavioral_logging".to_string(), "Test".to_string());

    manager.add_timeline_entry(
        "observation".to_string(),
        "Observed app sequence".to_string(),
        vec!["Teams".to_string(), "Gmail".to_string()],
        Some("Pattern detected".to_string()),
    );

    let timeline = manager.get_timeline(Some(10));
    assert!(timeline.len() >= 2);
}

#[test]
fn test_consent_lifecycle_is_noted() {
    let mut manager = MicroConsentManager::new_at(1);
    assert_eq!(manager.grant_consent_at("cloud_sync", 2), Err("Consent not found or already granted".to_string()));
    assert_eq!(manager.revoke_consent_at("cloud_sync", None, 2), Err("Consent not found".to_string()));
    assert_eq!(manager.timeline_len(), 0);
    let consent = manager.request_consent_at("cloud_sync".to_string(), "Sync".to_string(), 3);
    assert_eq!(consent.description, "Sync");
    assert_eq!(consent.requested_at, 3);
    assert_eq!(consent.revoked_at, None);
    assert!(!manager.has_consent("cloud_sync"));
    assert!(!manager.ledger().can_sync_to_cloud());
    assert_eq!(manager.grant_consent_at("cloud_sync", 4), Ok(()));
    assert!(manager.has_consent("cloud_sync"));
    assert!(manager.ledger().can_sync_to_cloud());
    assert_eq!(
        manager.grant_consent_at("cloud_sync", 5),
        Err("Consent not found or already granted".to_string())
    );
    assert_eq!(
        manager.revoke_consent_at("cloud_sync", Some("Privacy \"concern\"".to_string()), 6),
        Ok(())
    );
    assert!(!manager.has_consent("cloud_sync"));
    assert!(!manager.ledger().can_sync_to_cloud());
    assert_eq!(manager.ledger().revocation_history.len(), 1);
    assert_eq!(manager.ledger().revocation_history[0].revoked_at, 6);
    assert_eq!(manager.ledger().consent_timestamp, 1);
    assert_eq!(manager.revoke_consent_at("cloud_sync", None, 7), Ok(()));
    assert_eq!(manager.consent_count(), 1);

    let timeline = manager.get_timeline(None);
    assert_eq!(timeline.len(), 4);
    assert_eq!(timeline[0].event_type, "consent_requested");
    assert_eq!(timeline[0].description, "Requested consent for: Sync");
    assert_eq!(timeline[0].data_accessed, vec!["cloud_sync".to_string()]);
    assert_eq!(timeline[0].action_taken, None);
    assert_eq!(timeline[0].timestamp, 3);
    assert_eq!(timeline[1].event_type, "consent_granted");
    assert_eq!(timeline[1].description, "Granted consent for: cloud_sync");
    assert_eq!(timeline[2].event_type, "consent_revoked");
    assert_eq!(
        timeline[2].description,
        "Revoked consent for: cloud_sync - reason: Some(\"Privacy \\\"concern\\\"\")"
    );
    assert_eq!(timeline[3].description, "Revoked consent for: cloud_sync - reason: None");
    assert_eq!(timeline[3].timestamp, 7);
}

#[test]
fn test_second_request_can_be_granted_again() {
    let mut manager = MicroConsentManager::default();
    manager.request_consent_at("automation".to_string(), "First".to_string(), 1);
    manager.grant_consent_at("automation", 2).unwrap();
    manager.revoke_consent_at("automation", None, 3).unwrap();
    assert!(!manager.has_consent("automation"));
    manager.request_consent_at("automation".to_string(), "Second".to_string(), 4);
    manager.grant_consent_at("automation", 5).unwrap();
    assert!(manager.has_consent("automation"));
    assert!(manager.ledger().opt_in_automation);
    // Revoking marks the oldest request again, so the second one still stands.
    manager.revoke_consent_at("automation", None, 6).unwrap();
    assert!(manager.has_consent("automation"));
    assert!(!manager.ledger().opt_in_automation);
    assert!(!manager.has_consent("emotion_detection"));
    manager.request_consent_at("unknown_capability".to_string(), "Third".to_string(), 7);
    manager.grant_consent_at("unknown_capability", 8).unwrap();
    assert!(manager.has_consent("unknown_capability"));
}

#[test]
fn test_timeline_keeps_the_newest_thousand() {
    let mut manager = MicroConsentManager::new_at(0);
    for i in 0..1005 {
        manager.add_timeline_entry_at(
            "observation".to_string(),
            format!("entry {}", i),
            Vec::new(),
            None,
            i,
        );
    }
    assert_eq!(manager.timeline_len(), 1000);
    let all = manager.get_timeline(Some(5000));
    assert_eq!(all.len(), 1000);
    assert_eq!(all[0].description, "entry 5");
    assert_eq!(all[999].description, "entry 1004");
    let standard = manager.get_timeline(None);
    assert_eq!(standard.len(), 100);
    assert_eq!(standard[0].description, "entry 905");
    let three = manager.get_timeline(Some(3));
    assert_eq!(three.len(), 3);
    assert_eq!(three[0].timestamp, 1002);
    assert!(manager.get_timeline(Some(0)).is_empty());
}
