//! The co-pilot: a word at the right moment, and help when stress shows.

use vstd::prelude::*;
use crate::clock::now_timestamp;
use crate::emotion::{initial_signal_weights, mood_of, EmotionEstimator};
use crate::listing::{recent, recent_refs};
use crate::strmap::StrMap;
use crate::text::{clone_option, decimal, decimal_text, join2, option_text};
use crate::types::EmotionalState;

verus! {

/// What a message is meant to do.
#[derive(Clone, Copy, Debug, PartialEq, Eq, Structural, Hash)]
pub enum MessageType {
    StressMitigation,
    Encouragement,
    AchievementCelebration,
    FocusReminder,
}

/// A message to the user.
#[derive(Debug)]
pub struct MotivationalMessage {
    pub id: String,
    pub message: String,
    pub message_type: MessageType,
    pub emotional_state: EmotionalState,
    pub created_at: i64,
}

/// What a message holds.
pub struct MotivationalMessageView {
    pub id: Seq<char>,
    pub message: Seq<char>,
    pub message_type: MessageType,
    pub emotional_state: EmotionalState,
    pub created_at: i64,
}

impl View for MotivationalMessage {
    type V = MotivationalMessageView;

    open spec fn view(&self) -> MotivationalMessageView {
        MotivationalMessageView {
            id: self.id@,
            message: self.message@,
            message_type: self.message_type,
            emotional_state: self.emotional_state,
            created_at: self.created_at,
        }
    }
}

impl Clone for MotivationalMessage {
    fn clone(&self) -> (r: Self)
        ensures
            r == *self,
    {
        MotivationalMessage {
            id: self.id.clone(),
            message: self.message.clone(),
            message_type: self.message_type,
            emotional_state: self.emotional_state,
            created_at: self.created_at,
        }
    }
}

/// Help offered when stress shows.
#[derive(Debug)]
pub struct StressIntervention {
    pub intervention_type: String,
    pub description: String,
    pub breathing_exercise: Option<String>,
    pub break_suggestion: Option<String>,
}

/// What an offer of help holds.
pub struct StressInterventionView {
    pub intervention_type: Seq<char>,
    pub description: Seq<char>,
    pub breathing_exercise: Option<Seq<char>>,
    pub break_suggestion: Option<Seq<char>>,
}

impl View for StressIntervention {
    type V = StressInterventionView;

    open spec fn view(&self) -> StressInterventionView {
        StressInterventionView {
            intervention_type: self.intervention_type@,
            description: self.description@,
            breathing_exercise: option_text(self.breathing_exercise),
            break_suggestion: option_text(self.break_suggestion),
        }
    }
}

impl Clone for StressIntervention {
    fn clone(&self) -> (r: Self)
        ensures
            r == *self,
    {
        StressIntervention {
            intervention_type: self.intervention_type.clone(),
            description: self.description.clone(),
            breathing_exercise: clone_option(&self.breathing_exercise),
            break_suggestion: clone_option(&self.break_suggestion),
        }
    }
}

/// The help that is offered.
pub open spec fn breathing_intervention() -> StressInterventionView {
    StressInterventionView {
        intervention_type: "breathing_exercise"@,
        description: "Take a moment to reset. Try this breathing exercise:"@,
        breathing_exercise: Some("Inhale for 4 counts, hold for 4, exhale for 4. Repeat 3 times."@),
        break_suggestion: Some("Consider a 5-minute break after this one."@),
    }
}

/// The words for a mood.
pub open spec fn words_for(mood: EmotionalState) -> Seq<char> {
    match mood {
        EmotionalState::Stressed => "You're doing great work. Remember to take breaks and breathe. Your well-being matters."@,
        EmotionalState::Fatigued => "You've been working hard. Consider a short break to recharge. Your productivity will thank you."@,
        EmotionalState::Focused => "Excellent focus! You're in the flow. Keep this momentum going."@,
        EmotionalState::CreativeFlow => "You're in a creative flow state. This is when magic happens. Trust your process."@,
        _ => "Keep going. Every step forward counts."@,
    }
}

/// What the words for a mood are meant to do.
pub open spec fn purpose_for(mood: EmotionalState) -> MessageType {
    match mood {
        EmotionalState::Stressed => MessageType::StressMitigation,
        EmotionalState::Fatigued => MessageType::Encouragement,
        EmotionalState::Focused => MessageType::FocusReminder,
        EmotionalState::CreativeFlow => MessageType::AchievementCelebration,
        _ => MessageType::Encouragement,
    }
}

/// The message for a mood, made at `now`.
pub open spec fn message_for(mood: EmotionalState, now: i64) -> MotivationalMessageView {
    MotivationalMessageView {
        id: "msg_"@ + decimal_text(now as int),
        message: words_for(mood),
        message_type: purpose_for(mood),
        emotional_state: mood,
        created_at: now,
    }
}

/// What each message in `list` holds.
pub open spec fn message_views(list: Seq<MotivationalMessage>) -> Seq<MotivationalMessageView> {
    Seq::new(list.len(), |i: int| list[i]@)
}

/// What each offer of help in `list` holds.
pub open spec fn intervention_views(list: Seq<StressIntervention>) -> Seq<StressInterventionView> {
    Seq::new(list.len(), |i: int| list[i]@)
}

/// Speaks to the user according to the mood.
pub struct EmotionalCoPilot {
    emotion_estimator: EmotionEstimator,
    messages: Vec<MotivationalMessage>,
    stress_interventions: Vec<StressIntervention>,
}

impl EmotionalCoPilot {
    /// The messages made, oldest first.
    pub closed spec fn messages(&self) -> Seq<MotivationalMessageView> {
        message_views(self.messages@)
    }

    /// The help offered, oldest first.
    pub closed spec fn interventions(&self) -> Seq<StressInterventionView> {
        intervention_views(self.stress_interventions@)
    }

    /// The estimator that reads the mood.
    pub closed spec fn estimator(&self) -> EmotionEstimator {
        self.emotion_estimator
    }

    /// A co-pilot that has said nothing yet, with an estimator that holds the
    /// four weights 0.3, 0.25, 0.2 and 0.25 under the names of their signals.
    pub fn new() -> (r: Self)
        ensures
            r.messages() == Seq::<MotivationalMessageView>::empty(),
            r.interventions() == Seq::<StressInterventionView>::empty(),
            r.estimator().weights() == initial_signal_weights(),
            r.estimator().weight_list() == seq![300_000i64, 250_000i64, 200_000i64, 250_000i64],
    {
        let r = EmotionalCoPilot {
            emotion_estimator: EmotionEstimator::new(),
            messages: Vec::new(),
            stress_interventions: Vec::new(),
        };
        assert(r.messages() =~= Seq::<MotivationalMessageView>::empty());
        assert(r.interventions() =~= Seq::<StressInterventionView>::empty());
        r
    }

    /// How many messages were made.
    pub fn message_count(&self) -> (n: usize)
        ensures
            n == self.messages().len(),
    {
        self.messages.len()
    }

    /// How often help was offered.
    pub fn intervention_count(&self) -> (n: usize)
        ensures
            n == self.interventions().len(),
    {
        self.stress_interventions.len()
    }

    /// Offers a breathing exercise and a break where `metrics` point to
    /// stress, and notes the offer.
    pub fn mitigate_stress(&mut self, metrics: &StrMap<i64>) -> (r: Option<StressIntervention>)
        ensures
            final(self).messages() == old(self).messages(),
            final(self).estimator() == old(self).estimator(),
            match r {
                Some(intervention) => mood_of(metrics@) == EmotionalState::Stressed && intervention@
                    == breathing_intervention() && final(self).interventions() == old(self).interventions().push(breathing_intervention()),
                None => mood_of(metrics@) != EmotionalState::Stressed && final(self).interventions()
                    == old(self).interventions(),
            },
    {
        let emotion = self.emotion_estimator.estimate_emotion(metrics);
        if emotion.emotional_state == EmotionalState::Stressed {
            let intervention = StressIntervention {
                intervention_type: "breathing_exercise".to_string(),
                description: "Take a moment to reset. Try this breathing exercise:".to_string(),
                breathing_exercise: Some(
                    "Inhale for 4 counts, hold for 4, exhale for 4. Repeat 3 times.".to_string(),
                ),
                break_suggestion: Some("Consider a 5-minute break after this one.".to_string()),
            };
            let ghost before = self.interventions();
            self.stress_interventions.push(intervention.clone());
            assert(self.interventions() =~= before.push(intervention@));
            Some(intervention)
        } else {
            None
        }
    }

    /// Makes the message for a mood as if the clock read `now`.
    pub fn generate_motivational_message_at(
        &mut self,
        emotional_state: EmotionalState,
        context: &str,
        now: i64,
    ) -> (r: MotivationalMessage)
        ensures
            r@ == message_for(emotional_state, now),
            final(self).messages() == old(self).messages().push(r@),
            final(self).interventions() == old(self).interventions(),
            final(self).estimator() == old(self).estimator(),
    {
        let (message, message_type) = match emotional_state {
            EmotionalState::Stressed => (
                "You're doing great work. Remember to take breaks and breathe. Your well-being matters.".to_string(),
                MessageType::StressMitigation,
            ),
            EmotionalState::Fatigued => (
                "You've been working hard. Consider a short break to recharge. Your productivity will thank you.".to_string(),
                MessageType::Encouragement,
            ),
            EmotionalState::Focused => (
                "Excellent focus! You're in the flow. Keep this momentum going.".to_string(),
                MessageType::FocusReminder,
            ),
            EmotionalState::CreativeFlow => (
                "You're in a creative flow state. This is when magic happens. Trust your process.".to_string(),
                MessageType::AchievementCelebration,
            ),
            _ => ("Keep going. Every step forward counts.".to_string(), MessageType::Encouragement),
        };
        let motivational_msg = MotivationalMessage {
            id: join2("msg_", decimal(now).as_str()),
            message,
            message_type,
            emotional_state,
            created_at: now,
        };
        let ghost before = self.messages();
        self.messages.push(motivational_msg.clone());
        assert(self.messages() =~= before.push(motivational_msg@));
        motivational_msg
    }

    /// Makes the message for a mood, with an id made of the time the clock
    /// reads, and keeps it. The context plays no part.
    pub fn generate_motivational_message(&mut self, emotional_state: EmotionalState, context: &str) -> (r:
        MotivationalMessage)
        ensures
            exists|now: i64| r@ == #[trigger] message_for(emotional_state, now),
            final(self).messages() == old(self).messages().push(r@),
            final(self).interventions() == old(self).interventions(),
            final(self).estimator() == old(self).estimator(),
    {
        let now = now_timestamp();
        self.generate_motivational_message_at(emotional_state, context, now)
    }

    /// The newest `limit` messages, oldest first.
    pub fn get_recent_messages(&self, limit: usize) -> (r: Vec<&MotivationalMessage>)
        ensures
            r@.len() == recent(self.messages(), limit as int).len(),
            forall|i: int|
                0 <= i < r@.len() ==> (#[trigger] r@[i])@ == recent(self.messages(), limit as int)[i],
    {
        recent_refs(&self.messages, limit)
    }
}

impl Default for EmotionalCoPilot {
    fn default() -> (r: Self)
        ensures
            r.messages() == Seq::<MotivationalMessageView>::empty(),
            r.interventions() == Seq::<StressInterventionView>::empty(),
            r.estimator().weights() == initial_signal_weights(),
            r.estimator().weight_list() == seq![300_000i64, 250_000i64, 200_000i64, 250_000i64],
    {
        EmotionalCoPilot::new()
    }
}

} // verus!
