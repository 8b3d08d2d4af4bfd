use athenos::local_stack::{FeatureStore, TemporalMetrics};

fn metrics(focus: i64, session: i64) -> TemporalMetrics {
    TemporalMetrics {
        time_to_first_action_min: 1_000_000,
        focus_duration_min: focus,
        context_switch_count: 2,
        repeat_count: 1,
        session_duration_min: session,
    }
}

#[test]
fn test_feature_store_creation() {
    let store = FeatureStore::new();
    assert_eq!(store.metrics_count(), 0);
    assert_eq!(store.embedding_count(), 0);
}

#[test]
fn test_store_and_retrieve_metrics() {
    let mut store = FeatureStore::new();
    let metrics = TemporalMetrics {
        time_to_first_action_min: 12_000_000,
        focus_duration_min: 45_000_000,
        context_switch_count: 8,
        repeat_count: 5,
        session_duration_min: 120_000_000,
    };

    store.store_metrics("obs_001".to_string(), metrics.clone());
    let retrieved = store.get_metrics("obs_001").unwrap();

    assert_eq!(retrieved.time_to_first_action_min, 12_000_000);
    assert_eq!(retrieved.focus_duration_min, 45_000_000);
}

#[test]
fn test_focus_stability_computation() {
    let mut store = FeatureStore::new();

    store.store_metrics(
        "obs_001".to_string(),
        TemporalMetrics {
            time_to_first_action_min: 5_000_000,
            focus_duration_min: 60_000_000,
            context_switch_count: 2,
            repeat_count: 1,
            session_duration_min: 90_000_000,
        },
    );

    store.store_metrics(
        "obs_002".to_string(),
        TemporalMetrics {
            time_to_first_action_min: 3_000_000,
            focus_duration_min: 45_000_000,
            context_switch_count: 1,
            repeat_count: 1,
            session_duration_min: 60_000_000,
        },
    );

    let stability = store.compute_focus_stability(&["obs_001".to_string(), "obs_002".to_string()]);
    // (60 + 45) / (90 + 60) * 100 = 70.0
    assert!((stability - 70_000_000).abs() < 100_000);
    assert_eq!(stability, 70_000_000);
}

#[test]
fn test_focus_stability_edges() {
    let mut store = FeatureStore::default();
    assert_eq!(store.compute_focus_stability(&[]), 0);
    assert_eq!(store.compute_focus_stability(&["missing".to_string()]), 0);
    store.store_metrics("idle".to_string(), metrics(10_000_000, 0));
    assert_eq!(store.compute_focus_stability(&["idle".to_string()]), 0);
    store.store_metrics("third".to_string(), metrics(1_000_000, 3_000_000));
    assert_eq!(store.compute_focus_stability(&["third".to_string()]), 33_333_333);
    assert_eq!(
        store.compute_focus_stability(&["third".to_string(), "missing".to_string(), "third".to_string()]),
        33_333_333
    );
    assert_eq!(
        store.compute_focus_stability(&["idle".to_string(), "third".to_string()]),
        366_666_666
    );
    store.store_metrics("negative".to_string(), metrics(-1_000_000, 4_000_000));
    assert_eq!(store.compute_focus_stability(&["negative".to_string()]), -25_000_000);
    store.store_metrics("backwards".to_string(), metrics(5, -5));
    assert_eq!(store.compute_focus_stability(&["backwards".to_string()]), 0);
    store.store_metrics("huge".to_string(), metrics(i64::MAX, 1));
    assert_eq!(store.compute_focus_stability(&["huge".to_string()]), i64::MAX);
    assert_eq!(
        store.compute_focus_stability(&["huge".to_string(), "huge".to_string()]),
        i64::MAX
    );
    store.store_metrics("third".to_string(), metrics(3_000_000, 3_000_000));
    assert_eq!(store.metrics_count(), 5);
    assert_eq!(store.compute_focus_stability(&["third".to_string()]), 100_000_000);
}

#[test]
fn test_embeddings() {
    let mut store = FeatureStore::new();
    store.store_embedding("obs".to_string(), vec![1, -2, 3]);
    assert_eq!(store.get_embedding("obs"), Some(&vec![1, -2, 3]));
    assert_eq!(store.get_embedding("other"), None);
    store.store_embedding("obs".to_string(), vec![]);
    assert_eq!(store.get_embedding("obs"), Some(&vec![]));
    assert_eq!(store.embedding_count(), 1);
    assert_eq!(store.metrics_count(), 0);
    assert!(store.get_metrics("obs").is_none());
}
