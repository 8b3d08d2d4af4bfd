//! The wisdom engine: insight in words, from a template.

use vstd::prelude::*;
use crate::text::{contains_token, decimal_count, decimal_text, join, join2, joined};
use crate::types::{Observation, ObservationView};

verus! {

/// From more than this many examples on, fine-tuning leaves a trace in the
/// template.
pub const FINE_TUNE_THRESHOLD: usize = 10;

/// The template that a new engine starts with.
pub open spec fn initial_template() -> Seq<char> {
    "You are Athenos AI, a cognitive mentor that helps humans transcend their habitual patterns.\n\nPhilosophy: Humans run on cognitive loops. You reveal, reflect, and help transcend them through calm, sovereign guidance.\n\nTone: Calm, insightful, supportive. Speak like a wise mentor, not a cold machine.\n\nContext: {context}\n\nObservation: {observation}\n\nProvide insight in 2-3 sentences that:\n1. Reflects the pattern observed\n2. Explains why it matters cognitively\n3. Offers a gentle path forward\n\nInsight:"@
}

/// The name of the pattern that a sequence of steps shows.
pub open spec fn pattern_name(steps: Seq<Seq<char>>) -> Seq<char> {
    if steps.len() >= 3 {
        "workflow sequence"@
    } else if steps.contains("error"@) {
        "debugging loop"@
    } else {
        "behavioral pattern"@
    }
}

/// The insight on an observation.
pub open spec fn insight_text(obs: ObservationView) -> Seq<char> {
    "I've noticed you frequently follow the pattern: "@ + joined(obs.observation, " → "@)
        + ". This "@ + pattern_name(obs.observation)
        + " pattern suggests your mind is operating on autopilot. Consider pausing to reflect: could this workflow be streamlined? The suggested action ("@
        + obs.action.description@
        + ") aligns with your cognitive rhythm and may help you transcend this habitual loop."@
}

/// The template after fine-tuning on `count` examples.
pub open spec fn tuned_template(template: Seq<char>, count: int) -> Seq<char> {
    if count > FINE_TUNE_THRESHOLD {
        template + "\n\nFine-tuned on "@ + decimal_text(count) + " examples."@
    } else {
        template
    }
}

/// Writes insight on what was observed.
#[derive(Debug)]
pub struct WisdomEngine {
    prompt_template: String,
}

impl WisdomEngine {
    /// The template.
    pub closed spec fn template(&self) -> Seq<char> {
        self.prompt_template@
    }

    /// An engine with the initial template.
    pub fn new() -> (r: Self)
        ensures
            r.template() == initial_template(),
    {
        WisdomEngine {
            prompt_template: "You are Athenos AI, a cognitive mentor that helps humans transcend their habitual patterns.\n\nPhilosophy: Humans run on cognitive loops. You reveal, reflect, and help transcend them through calm, sovereign guidance.\n\nTone: Calm, insightful, supportive. Speak like a wise mentor, not a cold machine.\n\nContext: {context}\n\nObservation: {observation}\n\nProvide insight in 2-3 sentences that:\n1. Reflects the pattern observed\n2. Explains why it matters cognitively\n3. Offers a gentle path forward\n\nInsight:".to_string(),
        }
    }

    /// The template.
    pub fn prompt_template(&self) -> (r: &String)
        ensures
            r@ == self.template(),
    {
        &self.prompt_template
    }

    /// The name of the pattern that `observation` shows.
    pub fn detect_pattern_type(&self, observation: &Observation) -> (r: &'static str)
        ensures
            r@ == pattern_name(observation@.observation),
    {
        if observation.observation.len() >= 3 {
            "workflow sequence"
        } else if contains_token(&observation.observation, "error") {
            "debugging loop"
        } else {
            "behavioral pattern"
        }
    }

    /// The insight on `observation`: it names the steps, the pattern they
    /// show, and the action proposed. The context plays no part.
    pub fn generate_insight(&self, observation: &Observation, context: &str) -> (r: String)
        ensures
            r@ == insight_text(observation@),
    {
        let observation_desc = join(&observation.observation, " → ");
        let pattern = self.detect_pattern_type(observation);
        let a = join2(
            "I've noticed you frequently follow the pattern: ",
            observation_desc.as_str(),
        );
        let b = join2(a.as_str(), ". This ");
        let c = join2(b.as_str(), pattern);
        let d = join2(
            c.as_str(),
            " pattern suggests your mind is operating on autopilot. Consider pausing to reflect: could this workflow be streamlined? The suggested action (",
        );
        let e = join2(d.as_str(), observation.action.description.as_str());
        join2(
            e.as_str(),
            ") aligns with your cognitive rhythm and may help you transcend this habitual loop.",
        )
    }

    /// Notes in the template on how many examples the engine was tuned, where
    /// there are more than ten. It never fails.
    pub fn fine_tune(&mut self, observations: &[Observation]) -> (r: Result<(), String>)
        ensures
            r is Ok,
            final(self).template() == tuned_template(old(self).template(), observations@.len() as int),
    {
        if observations.len() > FINE_TUNE_THRESHOLD {
            let a = join2(self.prompt_template.as_str(), "\n\nFine-tuned on ");
            let b = join2(a.as_str(), decimal_count(observations.len()).as_str());
            self.prompt_template = join2(b.as_str(), " examples.");
        }
        Ok(())
    }
}

impl Clone for WisdomEngine {
    fn clone(&self) -> (r: Self)
        ensures
            r.template() == self.template(),
    {
        WisdomEngine { prompt_template: self.prompt_template.clone() }
    }
}

impl Default for WisdomEngine {
    fn default() -> (r: Self)
        ensures
            r.template() == initial_template(),
    {
        WisdomEngine::new()
    }
}

} // verus!
