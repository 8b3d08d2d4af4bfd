use athenos::emotion::{adjust_for, is_above, EmotionEstimator, MoodAdaptiveFocusMode};
use athenos::emotional_copilot::{EmotionalCoPilot, MessageType};
use athenos::strmap::StrMap;
use athenos::types::EmotionalState;

fn metrics_of(pairs: &[(&str, i64)]) -> StrMap<i64> {
    let mut map = StrMap::new();
    for (name, value) in pairs {
        map.insert(name.to_string(), *value);
    }
    map
}

#[test]
fn test_emotion_estimator_creation() {
    let estimator = EmotionEstimator::new();
    assert_eq!(estimator.weight_count(), 4);
}

#[test]
fn test_estimate_stressed_emotion() {
    let estimator = EmotionEstimator::new();
    let mut metrics = StrMap::new();
    metrics.insert("typing_speed_decrease_pct".to_string(), 40_000_000);
    metrics.insert("error_rate".to_string(), 200_000);
    metrics.insert("context_switch_count".to_string(), 15_000_000);

    let estimate = estimator.estimate_emotion(&metrics);
    assert_eq!(estimate.emotional_state, EmotionalState::Stressed);
    assert!(!estimate.signals.is_empty());
}

#[test]
fn test_mood_adaptive_focus_mode() {
    let mut focus_mode = MoodAdaptiveFocusMode::new();
    let mut metrics = StrMap::new();
    metrics.insert("typing_speed_decrease_pct".to_string(), 40_000_000);
    metrics.insert("error_rate".to_string(), 200_000);

    // Slow typing and a high error rate add up to 0.55: above what counts as
    // fatigue, and not above the 0.6 that counts as stress.
    let adjustments = focus_mode.update_focus_mode(&metrics);
    assert!(adjustments.reduce_notifications);
    assert!(!adjustments.enable_zen_mode);
    assert!(adjustments.suggest_break);
}

#[test]
fn test_emotional_copilot_creation() {
    let copilot = EmotionalCoPilot::new();
    assert_eq!(copilot.message_count(), 0);
}

#[test]
fn test_stress_mitigation() {
    let mut copilot = EmotionalCoPilot::new();
    let mut metrics = StrMap::new();
    metrics.insert("typing_speed_decrease_pct".to_string(), 40_000_000);
    metrics.insert("error_rate".to_string(), 200_000);

    // A score of 0.55 is fatigue, so no help is offered yet; with frequent
    // context switching on top it is stress.
    let intervention = copilot.mitigate_stress(&metrics);
    assert!(intervention.is_none());
    metrics.insert("context_switch_count".to_string(), 15_000_000);
    let intervention = copilot.mitigate_stress(&metrics);
    assert!(intervention.is_some());
    let intervention = intervention.unwrap();
    assert!(intervention.breathing_exercise.is_some());
}

#[test]
fn test_motivational_message_generation() {
    let mut copilot = EmotionalCoPilot::new();
    let message = copilot.generate_motivational_message(EmotionalState::Focused, "coding");

    assert_eq!(message.message_type, MessageType::FocusReminder);
    assert_eq!(message.emotional_state, EmotionalState::Focused);
    assert!(!message.message.is_empty());
}

#[test]
fn test_mood_thresholds_are_strict() {
    let estimator = EmotionEstimator::default();
    let at = |pairs: &[(&str, i64)]| estimator.estimate_emotion_at(&metrics_of(pairs), 77);
    let calm = at(&[]);
    assert_eq!(calm.emotional_state, EmotionalState::Calm);
    assert_eq!(calm.confidence, 0);
    assert!(calm.signals.is_empty());
    assert_eq!(calm.timestamp, 77);
    let at_thresholds = at(&[
        ("typing_speed_decrease_pct", 30_000_000),
        ("error_rate", 150_000),
        ("context_switch_count", 10_000_000),
        ("session_duration_min", 120_000_000),
        ("focus_duration_min", 60_000_000),
    ]);
    assert_eq!(at_thresholds.emotional_state, EmotionalState::Calm);
    assert_eq!(at_thresholds.confidence, 0);
    let focused = at(&[("focus_duration_min", 60_000_001)]);
    assert_eq!(focused.emotional_state, EmotionalState::Focused);
    // 0.3 alone is not above 0.3
    let slow = at(&[("typing_speed_decrease_pct", 31_000_000), ("focus_duration_min", 90_000_000)]);
    assert_eq!(slow.emotional_state, EmotionalState::Focused);
    assert_eq!(slow.confidence, 300_000);
    assert_eq!(slow.signals, vec!["Slow typing detected".to_string()]);
    let fatigued = at(&[("error_rate", 150_001), ("context_switch_count", 11_000_000)]);
    assert_eq!(fatigued.emotional_state, EmotionalState::Fatigued);
    assert_eq!(fatigued.confidence, 450_000);
    assert_eq!(
        fatigued.signals,
        vec!["High error rate".to_string(), "Frequent context switching".to_string()]
    );
    let stressed = at(&[
        ("session_duration_min", 121_000_000),
        ("error_rate", 900_000),
        ("context_switch_count", 11_000_000),
    ]);
    assert_eq!(stressed.emotional_state, EmotionalState::Stressed);
    assert_eq!(stressed.confidence, 700_000);
    assert_eq!(
        stressed.signals,
        vec![
            "High error rate".to_string(),
            "Frequent context switching".to_string(),
            "Long session detected".to_string()
        ]
    );
    let all = at(&[
        ("typing_speed_decrease_pct", 99_000_000),
        ("error_rate", 900_000),
        ("context_switch_count", 11_000_000),
        ("session_duration_min", 121_000_000),
    ]);
    assert_eq!(all.confidence, 1_000_000);
    assert_eq!(all.signals.len(), 4);
    assert!(is_above(&metrics_of(&[("x", 2)]), "x", 1));
    assert!(!is_above(&metrics_of(&[("x", 1)]), "x", 1));
    assert!(!is_above(&metrics_of(&[]), "x", -1));
}

#[test]
fn test_adjustments_by_mood() {
    let stressed = adjust_for(EmotionalState::Stressed);
    assert!(stressed.reduce_notifications && stressed.dim_screen && stressed.enable_zen_mode);
    assert!(stressed.suggest_break && stressed.breathing_guidance);
    let fatigued = adjust_for(EmotionalState::Fatigued);
    assert!(fatigued.reduce_notifications && fatigued.suggest_break);
    assert!(!fatigued.dim_screen && !fatigued.enable_zen_mode && !fatigued.breathing_guidance);
    let focused = adjust_for(EmotionalState::Focused);
    assert!(focused.reduce_notifications);
    assert!(!focused.dim_screen && !focused.enable_zen_mode && !focused.suggest_break);
    for mood in [EmotionalState::Calm, EmotionalState::CreativeFlow, EmotionalState::Fragmented] {
        let none = adjust_for(mood);
        assert!(!none.reduce_notifications && !none.dim_screen && !none.enable_zen_mode);
        assert!(!none.suggest_break && !none.breathing_guidance);
    }
    let mut mode = MoodAdaptiveFocusMode::default();
    assert_eq!(mode.current_adjustments(), None);
    let made = mode.update_focus_mode(&metrics_of(&[("focus_duration_min", 61_000_000)]));
    assert_eq!(made, focused);
    assert_eq!(mode.current_adjustments(), Some(focused));
}

#[test]
fn test_messages_by_mood() {
    let mut copilot = EmotionalCoPilot::default();
    let cases = [
        (
            EmotionalState::Stressed,
            MessageType::StressMitigation,
            "You're doing great work. Remember to take breaks and breathe. Your well-being matters.",
        ),
        (
            EmotionalState::Fatigued,
            MessageType::Encouragement,
            "You've been working hard. Consider a short break to recharge. Your productivity will thank you.",
        ),
        (
            EmotionalState::Focused,
            MessageType::FocusReminder,
            "Excellent focus! You're in the flow. Keep this momentum going.",
        ),
        (
            EmotionalState::CreativeFlow,
            MessageType::AchievementCelebration,
            "You're in a creative flow state. This is when magic happens. Trust your process.",
        ),
        (EmotionalState::Calm, MessageType::Encouragement, "Keep going. Every step forward counts."),
        (
            EmotionalState::Fragmented,
            MessageType::Encouragement,
            "Keep going. Every step forward counts.",
        ),
    ];
    for (i, (mood, purpose, words)) in cases.iter().enumerate() {
        let message = copilot.generate_motivational_message_at(*mood, "context", 100 + i as i64);
        assert_eq!(message.id, format!("msg_{}", 100 + i));
        assert_eq!(message.message, *words);
        assert_eq!(message.message_type, *purpose);
        assert_eq!(message.emotional_state, *mood);
        assert_eq!(message.created_at, 100 + i as i64);
    }
    assert_eq!(copilot.message_count(), 6);
    let recent = copilot.get_recent_messages(2);
    assert_eq!(recent.len(), 2);
    assert_eq!(recent[0].id, "msg_104");
    assert_eq!(recent[1].id, "msg_105");
    assert_eq!(copilot.get_recent_messages(10).len(), 6);
}

#[test]
fn test_help_is_offered_only_under_stress() {
    let mut copilot = EmotionalCoPilot::new();
    assert!(copilot.mitigate_stress(&metrics_of(&[])).is_none());
    assert_eq!(copilot.intervention_count(), 0);
    let stressed = metrics_of(&[
        ("typing_speed_decrease_pct", 40_000_000),
        ("error_rate", 200_000),
        ("session_duration_min", 200_000_000),
    ]);
    let help = copilot.mitigate_stress(&stressed).unwrap();
    assert_eq!(help.intervention_type, "breathing_exercise");
    assert_eq!(help.description, "Take a moment to reset. Try this breathing exercise:");
    assert_eq!(
        help.breathing_exercise,
        Some("Inhale for 4 counts, hold for 4, exhale for 4. Repeat 3 times.".to_string())
    );
    assert_eq!(
        help.break_suggestion,
        Some("Consider a 5-minute break after this one.".to_string())
    );
    copilot.mitigate_stress(&stressed);
    assert_eq!(copilot.intervention_count(), 2);
    assert_eq!(copilot.message_count(), 0);
}
