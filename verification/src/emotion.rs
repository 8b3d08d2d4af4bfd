//! Mood: what behaviour says about it, and what the focus mode makes of it.

use vstd::prelude::*;
use crate::clock::now_timestamp;
use crate::strmap::{views_of, StrMap};
use crate::types::{lookup_or_zero, value_or_zero, EmotionalState};

verus! {

/// Typing that slowed by more than this many percent is a sign of stress (30).
pub const SLOW_TYPING_PCT: i64 = 30_000_000;

/// An error rate above this is a sign of stress (0.15).
pub const HIGH_ERROR_RATE: i64 = 150_000;

/// More context switches than this are a sign of stress (10).
pub const MANY_SWITCHES: i64 = 10_000_000;

/// A session of more minutes than this is a sign of stress (120).
pub const LONG_SESSION_MIN: i64 = 120_000_000;

/// Focus of more minutes than this shows a focused mind (60).
pub const LONG_FOCUS_MIN: i64 = 60_000_000;

/// Above this score the mood is stressed (0.6).
pub const STRESSED_ABOVE: i64 = 600_000;

/// Above this score the mood is fatigued (0.3).
pub const FATIGUED_ABOVE: i64 = 300_000;

/// An estimate of the mood. The confidence is fixed-point, from zero to one.
#[derive(Clone, Debug)]
pub struct EmotionEstimate {
    pub emotional_state: EmotionalState,
    pub confidence: i64,
    pub signals: Vec<String>,
    pub timestamp: i64,
}

/// Whether the metric `name` is there and exceeds `threshold`.
pub open spec fn exceeds(metrics: Map<Seq<char>, i64>, name: Seq<char>, threshold: int) -> bool {
    metrics.contains_key(name) && metrics[name] > threshold
}

/// The stress score: 0.3 for slow typing, 0.25 for a high error rate, 0.2 for
/// many context switches, 0.25 for a long session.
pub open spec fn stress_score(metrics: Map<Seq<char>, i64>) -> int {
    (if exceeds(metrics, "typing_speed_decrease_pct"@, SLOW_TYPING_PCT as int) {
        300_000int
    } else {
        0int
    }) + (if exceeds(metrics, "error_rate"@, HIGH_ERROR_RATE as int) {
        250_000int
    } else {
        0int
    }) + (if exceeds(metrics, "context_switch_count"@, MANY_SWITCHES as int) {
        200_000int
    } else {
        0int
    }) + (if exceeds(metrics, "session_duration_min"@, LONG_SESSION_MIN as int) {
        250_000int
    } else {
        0int
    })
}

/// The signs of stress that the metrics show, in the order in which they are
/// looked for.
pub open spec fn stress_signals(metrics: Map<Seq<char>, i64>) -> Seq<Seq<char>> {
    let a = if exceeds(metrics, "typing_speed_decrease_pct"@, SLOW_TYPING_PCT as int) {
        seq!["Slow typing detected"@]
    } else {
        Seq::<Seq<char>>::empty()
    };
    let b = if exceeds(metrics, "error_rate"@, HIGH_ERROR_RATE as int) {
        a.push("High error rate"@)
    } else {
        a
    };
    let c = if exceeds(metrics, "context_switch_count"@, MANY_SWITCHES as int) {
        b.push("Frequent context switching"@)
    } else {
        b
    };
    if exceeds(metrics, "session_duration_min"@, LONG_SESSION_MIN as int) {
        c.push("Long session detected"@)
    } else {
        c
    }
}

/// The mood that the metrics point to.
pub open spec fn mood_of(metrics: Map<Seq<char>, i64>) -> EmotionalState {
    if stress_score(metrics) > STRESSED_ABOVE {
        EmotionalState::Stressed
    } else if stress_score(metrics) > FATIGUED_ABOVE {
        EmotionalState::Fatigued
    } else if value_or_zero(metrics, "focus_duration_min"@) > LONG_FOCUS_MIN {
        EmotionalState::Focused
    } else {
        EmotionalState::Calm
    }
}

/// Whether the metric `name` is there and exceeds `threshold`.
pub fn is_above(metrics: &StrMap<i64>, name: &str, threshold: i64) -> (r: bool)
    ensures
        r == exceeds(metrics@, name@, threshold as int),
{
    match metrics.get(name) {
        Some(value) => *value > threshold,
        None => false,
    }
}

/// The weight that each signal of stress starts with, by name.
pub open spec fn initial_signal_weights() -> Map<Seq<char>, i64> {
    Map::<Seq<char>, i64>::empty().insert("typing_speed_decrease"@, 300_000i64).insert(
        "error_rate_increase"@,
        250_000i64,
    ).insert("context_switch_frequency"@, 200_000i64).insert("session_duration"@, 250_000i64)
}

/// Estimates the mood from metrics of behaviour.
pub struct EmotionEstimator {
    signal_weights: StrMap<i64>,
}

impl EmotionEstimator {
    /// The weight of each signal, by name.
    pub closed spec fn weights(&self) -> Map<Seq<char>, i64> {
        self.signal_weights@
    }

    /// The weights in the order of their names.
    pub closed spec fn weight_list(&self) -> Seq<i64> {
        self.signal_weights.values()
    }

    /// An estimator with the four weights 0.3, 0.25, 0.2 and 0.25, each under
    /// the name of its signal.
    pub fn new() -> (r: Self)
        ensures
            r.weights() == initial_signal_weights(),
            r.weight_list() == seq![300_000i64, 250_000i64, 200_000i64, 250_000i64],
    {
        let mut signal_weights: StrMap<i64> = StrMap::new();
        proof {
            reveal_strlit("typing_speed_decrease");
            reveal_strlit("error_rate_increase");
            reveal_strlit("context_switch_frequency");
            reveal_strlit("session_duration");
            assert("typing_speed_decrease"@.len() == 21);
            assert("error_rate_increase"@.len() == 19);
            assert("context_switch_frequency"@.len() == 24);
            assert("session_duration"@.len() == 16);
        }
        signal_weights.insert("typing_speed_decrease".to_string(), 300_000);
        assert(signal_weights.keys() =~= seq!["typing_speed_decrease"@]);
        proof {
            signal_weights.lemma_absent("error_rate_increase"@);
        }
        signal_weights.insert("error_rate_increase".to_string(), 250_000);
        assert(signal_weights.keys() =~= seq!["typing_speed_decrease"@, "error_rate_increase"@]);
        proof {
            signal_weights.lemma_absent("context_switch_frequency"@);
        }
        signal_weights.insert("context_switch_frequency".to_string(), 200_000);
        assert(signal_weights.keys() =~= seq![
            "typing_speed_decrease"@,
            "error_rate_increase"@,
            "context_switch_frequency"@,
        ]);
        proof {
            signal_weights.lemma_absent("session_duration"@);
        }
        signal_weights.insert("session_duration".to_string(), 250_000);
        assert(signal_weights.values() =~= seq![300_000i64, 250_000i64, 200_000i64, 250_000i64]);
        EmotionEstimator { signal_weights }
    }

    /// How many signals carry a weight.
    pub fn weight_count(&self) -> (n: usize)
        ensures
            n == self.weight_list().len(),
    {
        self.signal_weights.len()
    }

    /// The mood that `metrics` point to, as if the clock read `now`.
    pub fn estimate_emotion_at(&self, metrics: &StrMap<i64>, now: i64) -> (r: EmotionEstimate)
        ensures
            r.emotional_state == mood_of(metrics@),
            r.confidence == stress_score(metrics@),
            views_of(r.signals@) == stress_signals(metrics@),
            r.timestamp == now,
    {
        let mut signals: Vec<String> = Vec::new();
        let mut stress: i64 = 0;
        if is_above(metrics, "typing_speed_decrease_pct", SLOW_TYPING_PCT) {
            signals.push("Slow typing detected".to_string());
            stress = stress + 300_000;
        }
        if is_above(metrics, "error_rate", HIGH_ERROR_RATE) {
            signals.push("High error rate".to_string());
            stress = stress + 250_000;
        }
        if is_above(metrics, "context_switch_count", MANY_SWITCHES) {
            signals.push("Frequent context switching".to_string());
            stress = stress + 200_000;
        }
        if is_above(metrics, "session_duration_min", LONG_SESSION_MIN) {
            signals.push("Long session detected".to_string());
            stress = stress + 250_000;
        }
        let emotional_state = if stress > STRESSED_ABOVE {
            EmotionalState::Stressed
        } else if stress > FATIGUED_ABOVE {
            EmotionalState::Fatigued
        } else if lookup_or_zero(metrics, "focus_duration_min") > LONG_FOCUS_MIN {
            EmotionalState::Focused
        } else {
            EmotionalState::Calm
        };
        assert(views_of(signals@) =~= stress_signals(metrics@));
        EmotionEstimate { emotional_state, confidence: stress, signals, timestamp: now }
    }

    /// The mood that `metrics` point to: the signs of stress found, the mood
    /// that their score gives, and the score as confidence. The estimate is
    /// stamped with the time the clock reads.
    pub fn estimate_emotion(&self, metrics: &StrMap<i64>) -> (r: EmotionEstimate)
        ensures
            r.emotional_state == mood_of(metrics@),
            r.confidence == stress_score(metrics@),
            views_of(r.signals@) == stress_signals(metrics@),
    {
        let now = now_timestamp();
        self.estimate_emotion_at(metrics, now)
    }
}

impl Default for EmotionEstimator {
    fn default() -> (r: Self)
        ensures
            r.weights() == initial_signal_weights(),
            r.weight_list() == seq![300_000i64, 250_000i64, 200_000i64, 250_000i64],
    {
        EmotionEstimator::new()
    }
}

/// What the focus mode changes.
#[derive(Clone, Copy, Debug, PartialEq, Eq, Structural)]
pub struct FocusModeAdjustments {
    pub reduce_notifications: bool,
    pub dim_screen: bool,
    pub enable_zen_mode: bool,
    pub suggest_break: bool,
    pub breathing_guidance: bool,
}

/// What the focus mode changes for a mood.
pub open spec fn adjustments_for(mood: EmotionalState) -> FocusModeAdjustments {
    match mood {
        EmotionalState::Stressed => FocusModeAdjustments {
            reduce_notifications: true,
            dim_screen: true,
            enable_zen_mode: true,
            suggest_break: true,
            breathing_guidance: true,
        },
        EmotionalState::Fatigued => FocusModeAdjustments {
            reduce_notifications: true,
            dim_screen: false,
            enable_zen_mode: false,
            suggest_break: true,
            breathing_guidance: false,
        },
        EmotionalState::Focused => FocusModeAdjustments {
            reduce_notifications: true,
            dim_screen: false,
            enable_zen_mode: false,
            suggest_break: false,
            breathing_guidance: false,
        },
        _ => FocusModeAdjustments {
            reduce_notifications: false,
            dim_screen: false,
            enable_zen_mode: false,
            suggest_break: false,
            breathing_guidance: false,
        },
    }
}

/// What the focus mode changes for a mood.
pub fn adjust_for(mood: EmotionalState) -> (r: FocusModeAdjustments)
    ensures
        r == adjustments_for(mood),
{
    match mood {
        EmotionalState::Stressed => FocusModeAdjustments {
            reduce_notifications: true,
            dim_screen: true,
            enable_zen_mode: true,
            suggest_break: true,
            breathing_guidance: true,
        },
        EmotionalState::Fatigued => FocusModeAdjustments {
            reduce_notifications: true,
            dim_screen: false,
            enable_zen_mode: false,
            suggest_break: true,
            breathing_guidance: false,
        },
        EmotionalState::Focused => FocusModeAdjustments {
            reduce_notifications: true,
            dim_screen: false,
            enable_zen_mode: false,
            suggest_break: false,
            breathing_guidance: false,
        },
        _ => FocusModeAdjustments {
            reduce_notifications: false,
            dim_screen: false,
            enable_zen_mode: false,
            suggest_break: false,
            breathing_guidance: false,
        },
    }
}

/// A focus mode that follows the mood.
pub struct MoodAdaptiveFocusMode {
    emotion_estimator: EmotionEstimator,
    current_adjustments: Option<FocusModeAdjustments>,
}

impl MoodAdaptiveFocusMode {
    /// The adjustments made last.
    pub closed spec fn current(&self) -> Option<FocusModeAdjustments> {
        self.current_adjustments
    }

    /// A focus mode that has adjusted nothing yet.
    pub fn new() -> (r: Self)
        ensures
            r.current() is None,
    {
        MoodAdaptiveFocusMode { emotion_estimator: EmotionEstimator::new(), current_adjustments: None }
    }

    /// The adjustments made last.
    pub fn current_adjustments(&self) -> (r: Option<FocusModeAdjustments>)
        ensures
            r == self.current(),
    {
        self.current_adjustments
    }

    /// Adjusts the focus mode to the mood that `metrics` point to.
    pub fn update_focus_mode(&mut self, metrics: &StrMap<i64>) -> (r: FocusModeAdjustments)
        ensures
            r == adjustments_for(mood_of(metrics@)),
            final(self).current() == Some(r),
    {
        let emotion = self.emotion_estimator.estimate_emotion(metrics);
        let adjustments = adjust_for(emotion.emotional_state);
        self.current_adjustments = Some(adjustments);
        adjustments
    }
}

impl Default for MoodAdaptiveFocusMode {
    fn default() -> (r: Self)
        ensures
            r.current() is None,
    {
        MoodAdaptiveFocusMode::new()
    }
}

} // verus!
