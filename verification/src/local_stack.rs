//! The local store of features: measurements and embeddings by observation.

use vstd::prelude::*;
use crate::fixed::{div_floor, saturate, saturated, SCALE};
use crate::strmap::StrMap;

verus! {

/// The measurements of one observation. Minutes are fixed-point.
#[derive(Clone, Copy, Debug, PartialEq, Eq, Structural)]
pub struct TemporalMetrics {
    pub time_to_first_action_min: i64,
    pub focus_duration_min: i64,
    pub context_switch_count: usize,
    pub repeat_count: usize,
    pub session_duration_min: i64,
}

/// The minutes of focus of those of the first `n` observations that have
/// measurements.
pub open spec fn focus_upto(
    metrics: Map<Seq<char>, TemporalMetrics>,
    ids: Seq<Seq<char>>,
    n: int,
) -> int
    decreases n,
{
    if n <= 0 {
        0
    } else {
        focus_upto(metrics, ids, n - 1) + if metrics.contains_key(ids[n - 1]) {
            metrics[ids[n - 1]].focus_duration_min as int
        } else {
            0
        }
    }
}

/// The minutes in session of those of the first `n` observations that have
/// measurements.
pub open spec fn session_upto(
    metrics: Map<Seq<char>, TemporalMetrics>,
    ids: Seq<Seq<char>>,
    n: int,
) -> int
    decreases n,
{
    if n <= 0 {
        0
    } else {
        session_upto(metrics, ids, n - 1) + if metrics.contains_key(ids[n - 1]) {
            metrics[ids[n - 1]].session_duration_min as int
        } else {
            0
        }
    }
}

/// The share of the time in session that was spent in focus, in percent:
/// zero where no time was spent in session. Totals stop at what an `i64`
/// holds.
pub open spec fn focus_stability(metrics: Map<Seq<char>, TemporalMetrics>, ids: Seq<Seq<char>>) -> int {
    let focus = saturated(focus_upto(metrics, ids, ids.len() as int));
    let session = saturated(session_upto(metrics, ids, ids.len() as int));
    if session > 0 {
        saturated((focus * 100 * SCALE) / session)
    } else {
        0
    }
}

/// Keeps measurements and embeddings by observation.
pub struct FeatureStore {
    metrics: StrMap<TemporalMetrics>,
    embeddings: StrMap<Vec<i64>>,
}

impl FeatureStore {
    /// The measurements by observation.
    pub closed spec fn metrics(&self) -> Map<Seq<char>, TemporalMetrics> {
        self.metrics@
    }

    /// The embeddings by observation.
    pub closed spec fn embeddings(&self) -> Map<Seq<char>, Vec<i64>> {
        self.embeddings@
    }

    /// An empty store.
    pub fn new() -> (r: Self)
        ensures
            r.metrics() == Map::<Seq<char>, TemporalMetrics>::empty(),
            r.embeddings() == Map::<Seq<char>, Vec<i64>>::empty(),
    {
        FeatureStore { metrics: StrMap::new(), embeddings: StrMap::new() }
    }

    /// How many observations have measurements.
    pub fn metrics_count(&self) -> (n: usize)
        ensures
            n == self.metrics().dom().len(),
    {
        proof {
            use_type_invariant(&self.metrics);
            self.metrics.lemma_len();
        }
        self.metrics.len()
    }

    /// How many observations have an embedding.
    pub fn embedding_count(&self) -> (n: usize)
        ensures
            n == self.embeddings().dom().len(),
    {
        proof {
            use_type_invariant(&self.embeddings);
            self.embeddings.lemma_len();
        }
        self.embeddings.len()
    }

    /// Keeps `metrics` under `observation_id`, in place of what was there.
    pub fn store_metrics(&mut self, observation_id: String, metrics: TemporalMetrics)
        ensures
            final(self).metrics() == old(self).metrics().insert(observation_id@, metrics),
            final(self).embeddings() == old(self).embeddings(),
    {
        self.metrics.insert(observation_id, metrics);
    }

    /// The measurements of `observation_id`.
    pub fn get_metrics(&self, observation_id: &str) -> (r: Option<&TemporalMetrics>)
        ensures
            match r {
                Some(metrics) => self.metrics().contains_key(observation_id@) && *metrics
                    == self.metrics()[observation_id@],
                None => !self.metrics().contains_key(observation_id@),
            },
    {
        self.metrics.get(observation_id)
    }

    /// Keeps `embedding` under `observation_id`, in place of what was there.
    pub fn store_embedding(&mut self, observation_id: String, embedding: Vec<i64>)
        ensures
            final(self).embeddings() == old(self).embeddings().insert(observation_id@, embedding),
            final(self).metrics() == old(self).metrics(),
    {
        self.embeddings.insert(observation_id, embedding);
    }

    /// The embedding of `observation_id`.
    pub fn get_embedding(&self, observation_id: &str) -> (r: Option<&Vec<i64>>)
        ensures
            match r {
                Some(embedding) => self.embeddings().contains_key(observation_id@) && *embedding
                    == self.embeddings()[observation_id@],
                None => !self.embeddings().contains_key(observation_id@),
            },
    {
        self.embeddings.get(observation_id)
    }

    /// The share of the time in session that the observations given spent in
    /// focus, in percent. Observations without measurements count for
    /// nothing.
    pub fn compute_focus_stability(&self, observation_ids: &[String]) -> (r: i64)
        ensures
            r == focus_stability(self.metrics(), crate::strmap::views_of(observation_ids@)),
    {
        let ghost ids = crate::strmap::views_of(observation_ids@);
        let n = observation_ids.len();
        let mut focus: i128 = 0;
        let mut session: i128 = 0;
        let mut i: usize = 0;
        while i < n
            invariant
                i <= n,
                n == observation_ids@.len(),
                ids == crate::strmap::views_of(observation_ids@),
                focus == focus_upto(self.metrics(), ids, i as int),
                session == session_upto(self.metrics(), ids, i as int),
                -(i as int) * 0x8000_0000_0000_0000 <= focus <= (i as int) * 0x7fff_ffff_ffff_ffff,
                -(i as int) * 0x8000_0000_0000_0000 <= session <= (i as int) * 0x7fff_ffff_ffff_ffff,
            decreases n - i,
        {
            match self.metrics.get(observation_ids[i].as_str()) {
                Some(found) => {
                    focus = focus + (found.focus_duration_min as i128);
                    session = session + (found.session_duration_min as i128);
                },
                None => {},
            }
            i += 1;
        }
        let focus_total = saturate(focus);
        let session_total = saturate(session);
        if session_total > 0 {
            let scaled: i128 = (focus_total as i128) * 100_000_000;
            saturate(div_floor(scaled, session_total as i128))
        } else {
            0
        }
    }
}

impl Default for FeatureStore {
    fn default() -> (r: Self)
        ensures
            r.metrics() == Map::<Seq<char>, TemporalMetrics>::empty(),
            r.embeddings() == Map::<Seq<char>, Vec<i64>>::empty(),
    {
        FeatureStore::new()
    }
}

} // verus!
