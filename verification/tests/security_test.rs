use athenos::security::{TPMKeyStorage, ThreatLevel, ThreatMonitor};

#[test]
fn test_tpm_key_storage_creation() {
    let storage = TPMKeyStorage::new();
    assert!(storage.is_ok());
}

#[test]
fn test_store_and_retrieve_key() {
    let mut storage = TPMKeyStorage::new().unwrap();
    let key_data = b"test_key_data";

    let handle = storage.store_key(key_data);
    assert!(handle.is_ok());

    let retrieved = storage.retrieve_key(&handle.unwrap());
    assert!(retrieved.is_ok());
}

#[test]
fn test_threat_monitor_creation() {
    let monitor = ThreatMonitor::new();
    assert_eq!(monitor.threat_count(), 0);
    assert!(monitor.is_monitoring());
}

#[test]
fn test_detect_and_resolve_threat() {
    let mut monitor = ThreatMonitor::new();
    monitor.detect_threat(
        "unauthorized_access".to_string(),
        ThreatLevel::High,
        "Test threat".to_string(),
    );

    assert_eq!(monitor.get_active_threats().len(), 1);

    let threat_id = monitor.get_active_threats()[0].id.clone();
    monitor.resolve_threat(&threat_id).unwrap();
    assert_eq!(monitor.get_active_threats().len(), 0);
}

#[test]
fn test_threat_level_ordering() {
    assert!(ThreatLevel::Low < ThreatLevel::Medium);
    assert!(ThreatLevel::Medium < ThreatLevel::High);
    assert!(ThreatLevel::High < ThreatLevel::Critical);
    assert!(ThreatLevel::High >= ThreatLevel::High);
    assert_eq!(ThreatLevel::Low.level(), 0);
    assert_eq!(ThreatLevel::Critical.level(), 3);
}

#[test]
fn test_key_handles() {
    let mut storage = TPMKeyStorage::new().unwrap();
    assert_eq!(storage.retrieve_key("tpm_handle_stub"), Ok(vec![0u8; 32]));
    assert_eq!(storage.retrieve_key("tpm_handle"), Err("Invalid key handle".to_string()));
    assert_eq!(storage.retrieve_key(""), Err("Invalid key handle".to_string()));
    assert_eq!(storage.store_key_at(b"key", 1_700_000_000), Ok("tpm_1700000000".to_string()));
    assert_eq!(storage.retrieve_key("tpm_1700000000"), Ok(vec![0u8; 32]));
    assert_eq!(storage.retrieve_key("tpm_handle_stub"), Err("Invalid key handle".to_string()));
    assert_eq!(storage.store_key_at(b"", -3), Ok("tpm_-3".to_string()));
    assert_eq!(storage.retrieve_key("tpm_1700000000"), Err("Invalid key handle".to_string()));
    assert_eq!(storage.retrieve_key("tpm_-3").unwrap().len(), 32);
}

#[test]
fn test_threats_are_kept_in_order() {
    let mut monitor = ThreatMonitor::default();
    monitor.detect_threat_at("scan".to_string(), ThreatLevel::Low, "Port scan".to_string(), 10);
    monitor.detect_threat_at("leak".to_string(), ThreatLevel::Critical, "Data leak".to_string(), 11);
    monitor.detect_threat_at("scan".to_string(), ThreatLevel::Low, "Again".to_string(), 10);
    assert_eq!(monitor.threat_count(), 3);
    {
        let active = monitor.get_active_threats();
        assert_eq!(active.len(), 3);
        assert_eq!(active[0].id, "threat_10");
        assert_eq!(active[0].threat_type, "scan");
        assert_eq!(active[0].level, ThreatLevel::Low);
        assert_eq!(active[0].description, "Port scan");
        assert_eq!(active[0].detected_at, 10);
        assert!(!active[0].resolved);
        assert_eq!(active[1].id, "threat_11");
        assert_eq!(active[2].description, "Again");
    }
    assert_eq!(monitor.resolve_threat("threat_12"), Err("Threat not found".to_string()));
    assert_eq!(monitor.resolve_threat("threat_10"), Ok(()));
    {
        let active = monitor.get_active_threats();
        assert_eq!(active.len(), 2);
        assert_eq!(active[0].id, "threat_11");
        assert_eq!(active[1].description, "Again");
    }
    // the oldest threat with the id is found again, so the second stays open
    assert_eq!(monitor.resolve_threat("threat_10"), Ok(()));
    assert_eq!(monitor.get_active_threats().len(), 2);
    assert_eq!(monitor.threat_count(), 3);
}

#[test]
fn test_monitoring_activity() {
    let mut monitor = ThreatMonitor::new();
    monitor.monitor_activity_at("user opened a file", 1);
    monitor.monitor_activity_at("Unauthorized with a capital", 2);
    monitor.monitor_activity_at("", 3);
    assert_eq!(monitor.threat_count(), 0);
    monitor.monitor_activity_at("unauthorized login from abroad", 4);
    monitor.monitor_activity_at("possible data breach", 5);
    monitor.monitor_activity("breach of an unauthorized kind");
    assert_eq!(monitor.threat_count(), 3);
    let active = monitor.get_active_threats();
    assert_eq!(active[0].id, "threat_4");
    assert_eq!(active[0].threat_type, "suspicious_activity");
    assert_eq!(active[0].level, ThreatLevel::Medium);
    assert_eq!(
        active[0].description,
        "Suspicious activity detected: unauthorized login from abroad"
    );
    assert_eq!(active[1].description, "Suspicious activity detected: possible data breach");
    assert_eq!(active[2].threat_type, "suspicious_activity");
}
