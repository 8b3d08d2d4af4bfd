//! Federated learning: patterns stripped of everything personal, shared only
//! with consent, and merged with what others shared.

use vstd::prelude::*;
use crate::fixed::{add_capped, blend, blended, capped_sum, to_count, whole_count};
use crate::privacy::{ConsentLedger, LedgerView};
use crate::types::{Confidence, Observation, ObservationView, PatternType};

verus! {

/// A pattern without anything that points to a user. Minutes and confidence
/// are fixed-point.
#[derive(Clone, Copy, Debug, PartialEq, Eq, Structural)]
pub struct AnonymizedPatternTemplate {
    pub pattern_type: PatternType,
    pub sequence_length: usize,
    pub frequency: usize,
    pub avg_time_saved_min: i64,
    pub confidence_score: i64,
}

/// The confidence of a template: 0.9, 0.6 or 0.3.
pub open spec fn template_confidence(confidence: Confidence) -> i64 {
    match confidence {
        Confidence::High => 900_000,
        Confidence::Medium => 600_000,
        Confidence::Low => 300_000,
    }
}

/// The template of an observation: how long its sequence is, how often it was
/// repeated (once where that is not known), and how many minutes it is
/// expected to save.
pub open spec fn template_of(obs: ObservationView) -> AnonymizedPatternTemplate {
    AnonymizedPatternTemplate {
        pattern_type: PatternType::WorkflowSequence,
        sequence_length: obs.observation.len() as usize,
        frequency: if obs.metrics.contains_key("repeat_count"@) {
            whole_count(obs.metrics["repeat_count"@] as int) as usize
        } else {
            1
        },
        avg_time_saved_min: crate::types::value_or_zero(obs.expected_outcome, "time_saved_min"@) as i64,
        confidence_score: template_confidence(obs.action.confidence),
    }
}

/// The templates of the first `n` observations.
pub open spec fn templates_upto(observations: Seq<Observation>, n: int) -> Seq<
    AnonymizedPatternTemplate,
> {
    Seq::new(
        if n <= 0 {
            0
        } else {
            n as nat
        },
        |i: int| template_of(observations[i]@),
    )
}

/// Whether two templates are of the same pattern and the same length.
pub open spec fn alike(a: AnonymizedPatternTemplate, b: AnonymizedPatternTemplate) -> bool {
    a.pattern_type == b.pattern_type && a.sequence_length == b.sequence_length
}

/// The first place at or behind `from` whose template is like `template`; the
/// length of the list where there is none.
pub open spec fn first_alike(
    list: Seq<AnonymizedPatternTemplate>,
    template: AnonymizedPatternTemplate,
    from: int,
) -> int
    decreases list.len() - from,
{
    if from < 0 || from >= list.len() {
        list.len() as int
    } else if alike(list[from], template) {
        from
    } else {
        first_alike(list, template, from + 1)
    }
}

/// A template with another one merged into it: the frequencies add up, and
/// the minutes are the mean of both, each weighted by its frequency.
pub open spec fn merged_with(
    existing: AnonymizedPatternTemplate,
    incoming: AnonymizedPatternTemplate,
) -> AnonymizedPatternTemplate {
    AnonymizedPatternTemplate {
        frequency: capped_sum(existing.frequency as int, incoming.frequency as int) as usize,
        avg_time_saved_min: blended(
            existing.avg_time_saved_min as int,
            existing.frequency as int,
            incoming.avg_time_saved_min as int,
            incoming.frequency as int,
        ) as i64,
        ..existing
    }
}

/// A list after `template` was taken in: it is merged into the first template
/// that is like it, or put behind the others.
pub open spec fn absorbed(
    list: Seq<AnonymizedPatternTemplate>,
    template: AnonymizedPatternTemplate,
) -> Seq<AnonymizedPatternTemplate> {
    let at = first_alike(list, template, 0);
    if at < list.len() {
        list.update(at, merged_with(list[at], template))
    } else {
        list.push(template)
    }
}

/// A list after the first `n` of the templates given were taken in, one after
/// the other.
pub open spec fn aggregated(
    list: Seq<AnonymizedPatternTemplate>,
    incoming: Seq<AnonymizedPatternTemplate>,
    n: int,
) -> Seq<AnonymizedPatternTemplate>
    decreases n,
{
    if n <= 0 {
        list
    } else {
        absorbed(aggregated(list, incoming, n - 1), incoming[n - 1])
    }
}

/// The confidence of a template.
pub fn confidence_of(confidence: Confidence) -> (r: i64)
    ensures
        r == template_confidence(confidence),
{
    match confidence {
        Confidence::High => 900_000,
        Confidence::Medium => 600_000,
        Confidence::Low => 300_000,
    }
}

/// Shares patterns where the user has consented.
pub struct FederatedLearningCoordinator {
    consent_ledger: ConsentLedger,
    local_templates: Vec<AnonymizedPatternTemplate>,
    aggregated_templates: Vec<AnonymizedPatternTemplate>,
}

impl FederatedLearningCoordinator {
    /// What the user has consented to.
    pub closed spec fn consent(&self) -> LedgerView {
        self.consent_ledger@
    }

    /// The templates kept locally.
    pub closed spec fn local(&self) -> Seq<AnonymizedPatternTemplate> {
        self.local_templates@
    }

    /// The merged templates.
    pub closed spec fn merged(&self) -> Seq<AnonymizedPatternTemplate> {
        self.aggregated_templates@
    }

    /// A coordinator that goes by `consent_ledger` and holds no templates.
    pub fn new(consent_ledger: ConsentLedger) -> (r: Self)
        ensures
            r.consent() == consent_ledger@,
            r.local() == Seq::<AnonymizedPatternTemplate>::empty(),
            r.merged() == Seq::<AnonymizedPatternTemplate>::empty(),
    {
        FederatedLearningCoordinator {
            consent_ledger,
            local_templates: Vec::new(),
            aggregated_templates: Vec::new(),
        }
    }

    /// How many templates are kept locally.
    pub fn local_count(&self) -> (n: usize)
        ensures
            n == self.local().len(),
    {
        self.local_templates.len()
    }

    /// The template of `observation`, where the user has opted into
    /// synchronising with the cloud; nothing otherwise.
    pub fn anonymize_pattern(&self, observation: &Observation) -> (r: Option<
        AnonymizedPatternTemplate,
    >)
        ensures
            r == if self.consent().opt_in_cloud_sync {
                Some(template_of(observation@))
            } else {
                None
            },
    {
        if !self.consent_ledger.opt_in_cloud_sync {
            return None;
        }
        let time_saved = crate::types::lookup_or_zero(&observation.expected_outcome, "time_saved_min");
        let frequency = match observation.metrics.get("repeat_count") {
            Some(value) => to_count(*value),
            None => 1,
        };
        Some(
            AnonymizedPatternTemplate {
                pattern_type: PatternType::WorkflowSequence,
                sequence_length: observation.observation.len(),
                frequency,
                avg_time_saved_min: time_saved,
                confidence_score: confidence_of(observation.action.confidence),
            },
        )
    }

    /// The templates of `observations`, in their order, where the user has
    /// opted into synchronising with the cloud; none otherwise. Nothing is
    /// kept.
    pub fn prepare_for_sharing(&mut self, observations: &[Observation]) -> (r: Vec<
        AnonymizedPatternTemplate,
    >)
        ensures
            r@ == if old(self).consent().opt_in_cloud_sync {
                templates_upto(observations@, observations@.len() as int)
            } else {
                Seq::empty()
            },
            final(self).consent() == old(self).consent(),
            final(self).local() == old(self).local(),
            final(self).merged() == old(self).merged(),
    {
        let mut r: Vec<AnonymizedPatternTemplate> = Vec::new();
        if !self.consent_ledger.opt_in_cloud_sync {
            return r;
        }
        let mut i: usize = 0;
        assert(r@ =~= templates_upto(observations@, 0));
        while i < observations.len()
            invariant
                i <= observations.len(),
                self.consent().opt_in_cloud_sync,
                r@ == templates_upto(observations@, i as int),
            decreases observations.len() - i,
        {
            match self.anonymize_pattern(&observations[i]) {
                Some(template) => {
                    r.push(template);
                },
                None => {},
            }
            assert(r@ =~= templates_upto(observations@, i + 1));
            i += 1;
        }
        r
    }

    fn absorb(&mut self, template: AnonymizedPatternTemplate)
        ensures
            final(self).merged() == absorbed(old(self).merged(), template),
            final(self).consent() == old(self).consent(),
            final(self).local() == old(self).local(),
    {
        let mut i: usize = 0;
        while i < self.aggregated_templates.len()
            invariant
                i <= self.aggregated_templates.len(),
                self.aggregated_templates == old(self).aggregated_templates,
                self.local_templates == old(self).local_templates,
                self.consent_ledger == old(self).consent_ledger,
                first_alike(self.merged(), template, 0) == first_alike(
                    self.merged(),
                    template,
                    i as int,
                ),
            decreases self.aggregated_templates.len() - i,
        {
            let existing = self.aggregated_templates[i];
            if existing.pattern_type == template.pattern_type && existing.sequence_length
                == template.sequence_length {
                let updated = AnonymizedPatternTemplate {
                    pattern_type: existing.pattern_type,
                    sequence_length: existing.sequence_length,
                    frequency: add_capped(existing.frequency, template.frequency),
                    avg_time_saved_min: blend(
                        existing.avg_time_saved_min,
                        existing.frequency,
                        template.avg_time_saved_min,
                        template.frequency,
                    ),
                    confidence_score: existing.confidence_score,
                };
                self.aggregated_templates.set(i, updated);
                return;
            }
            i += 1;
        }
        self.aggregated_templates.push(template);
    }

    /// Takes in `templates`, one after the other: each is merged into the
    /// first merged template of the same pattern and length, or put behind
    /// the others.
    pub fn aggregate_templates(&mut self, templates: Vec<AnonymizedPatternTemplate>)
        ensures
            final(self).merged() == aggregated(old(self).merged(), templates@, templates@.len() as int),
            final(self).consent() == old(self).consent(),
            final(self).local() == old(self).local(),
    {
        let mut i: usize = 0;
        while i < templates.len()
            invariant
                i <= templates.len(),
                self.merged() == aggregated(old(self).merged(), templates@, i as int),
                self.consent() == old(self).consent(),
                self.local() == old(self).local(),
            decreases templates.len() - i,
        {
            self.absorb(templates[i]);
            i += 1;
        }
    }

    /// The merged templates.
    pub fn get_aggregated_templates(&self) -> (r: &[AnonymizedPatternTemplate])
        ensures
            r@ == self.merged(),
    {
        self.aggregated_templates.as_slice()
    }
}

} // verus!
