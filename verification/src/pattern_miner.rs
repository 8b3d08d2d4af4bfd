//! Mining: the history of application sequences, and how strongly one
//! application is followed by another.

use vstd::prelude::*;
use crate::edge::{app_sequence, event_views, project_apps, OSEvent};
use crate::fixed::{ratio, unit, unit_ratio};
use crate::strmap::{views_of, StrMap};
use crate::types::PatternType;

verus! {

/// A relationship is stored only where its strength exceeds this (0.3).
pub const STRENGTH_THRESHOLD: i64 = 300_000;

/// The confidence given to every stored relationship (0.7): there is no
/// statistical model behind it.
pub const HEURISTIC_CONFIDENCE: i64 = 700_000;

/// A sequence enters the history only with at least this many applications.
pub const MIN_SEQUENCE_LEN: usize = 3;

/// That `cause` was followed by `effect`, and how often relative to all that
/// followed `cause`. Strength and confidence are fixed-point, from zero to one.
#[derive(Debug)]
pub struct CausalRelationship {
    pub cause: String,
    pub effect: String,
    pub strength: i64,
    pub confidence: i64,
}

/// What a relationship holds.
pub struct CausalRelationshipView {
    pub cause: Seq<char>,
    pub effect: Seq<char>,
    pub strength: i64,
    pub confidence: i64,
}

impl View for CausalRelationship {
    type V = CausalRelationshipView;

    open spec fn view(&self) -> CausalRelationshipView {
        CausalRelationshipView {
            cause: self.cause@,
            effect: self.effect@,
            strength: self.strength,
            confidence: self.confidence,
        }
    }
}

impl Clone for CausalRelationship {
    fn clone(&self) -> (r: Self)
        ensures
            r == *self,
    {
        CausalRelationship {
            cause: self.cause.clone(),
            effect: self.effect.clone(),
            strength: self.strength,
            confidence: self.confidence,
        }
    }
}

/// What each relationship in `list` holds.
pub open spec fn relationship_views(list: Seq<CausalRelationship>) -> Seq<CausalRelationshipView> {
    Seq::new(list.len(), |i: int| list[i]@)
}

/// How many of the first `n` places of `seq` hold `cause`.
pub open spec fn cause_count_upto(seq: Seq<Seq<char>>, cause: Seq<char>, n: int) -> int
    decreases n,
{
    if n <= 0 {
        0
    } else {
        cause_count_upto(seq, cause, n - 1) + if seq[n - 1] == cause {
            1int
        } else {
            0int
        }
    }
}

/// How many of the first `n` places of `seq` hold `cause` with `effect` right
/// behind it.
pub open spec fn pair_count_upto(
    seq: Seq<Seq<char>>,
    cause: Seq<char>,
    effect: Seq<char>,
    n: int,
) -> int
    decreases n,
{
    if n <= 0 {
        0
    } else {
        pair_count_upto(seq, cause, effect, n - 1) + if seq[n - 1] == cause && seq[n] == effect {
            1int
        } else {
            0int
        }
    }
}

/// How often `cause` stands in `seq` with something behind it.
pub open spec fn cause_count_in(seq: Seq<Seq<char>>, cause: Seq<char>) -> int {
    cause_count_upto(seq, cause, seq.len() - 1)
}

/// How often `cause` stands in `seq` with `effect` right behind it.
pub open spec fn pair_count_in(seq: Seq<Seq<char>>, cause: Seq<char>, effect: Seq<char>) -> int {
    pair_count_upto(seq, cause, effect, seq.len() - 1)
}

/// How often `cause` stands with something behind it in the first `m`
/// sequences of `history`.
pub open spec fn cause_total(history: Seq<Seq<Seq<char>>>, cause: Seq<char>, m: int) -> int
    decreases m,
{
    if m <= 0 {
        0
    } else {
        cause_total(history, cause, m - 1) + cause_count_in(history[m - 1], cause)
    }
}

/// How often `cause` stands with `effect` right behind it in the first `m`
/// sequences of `history`.
pub open spec fn pair_total(
    history: Seq<Seq<Seq<char>>>,
    cause: Seq<char>,
    effect: Seq<char>,
    m: int,
) -> int
    decreases m,
{
    if m <= 0 {
        0
    } else {
        pair_total(history, cause, effect, m - 1) + pair_count_in(history[m - 1], cause, effect)
    }
}

/// How many applications the first `m` sequences of `history` hold together.
pub open spec fn token_total(history: Seq<Seq<Seq<char>>>, m: int) -> int
    decreases m,
{
    if m <= 0 {
        0
    } else {
        token_total(history, m - 1) + history[m - 1].len()
    }
}

/// The share of the occurrences of `cause` that `effect` follows, over all of
/// `history`: a plain frequency, zero where `cause` never occurs.
pub open spec fn causal_strength(
    history: Seq<Seq<Seq<char>>>,
    cause: Seq<char>,
    effect: Seq<char>,
) -> int {
    unit(
        ratio(
            pair_total(history, cause, effect, history.len() as int),
            cause_total(history, cause, history.len() as int),
        ),
    )
}

/// The relationship that is stored for `cause` and `effect` given `history`.
pub open spec fn relationship_for(
    history: Seq<Seq<Seq<char>>>,
    cause: Seq<char>,
    effect: Seq<char>,
) -> CausalRelationshipView {
    CausalRelationshipView {
        cause,
        effect,
        strength: causal_strength(history, cause, effect) as i64,
        confidence: HEURISTIC_CONFIDENCE,
    }
}

/// The relationships stored under `cause` once the first `n` adjacent pairs of
/// `seq` have been looked at: each pair that starts with `cause` and is strong
/// enough adds one, behind those that were there.
pub open spec fn stored_after(
    before: Seq<CausalRelationshipView>,
    history: Seq<Seq<Seq<char>>>,
    seq: Seq<Seq<char>>,
    cause: Seq<char>,
    n: int,
) -> Seq<CausalRelationshipView>
    decreases n,
{
    if n <= 0 {
        before
    } else {
        let earlier = stored_after(before, history, seq, cause, n - 1);
        if seq[n - 1] == cause && causal_strength(history, cause, seq[n]) > STRENGTH_THRESHOLD {
            earlier.push(relationship_for(history, cause, seq[n]))
        } else {
            earlier
        }
    }
}

/// The tags that a history earns: a workflow once there are more than five
/// sequences, context switching once their mean length exceeds five. An empty
/// history earns none.
pub open spec fn pattern_tags(history: Seq<Seq<Seq<char>>>) -> Seq<PatternType> {
    let workflow = if history.len() > 5 {
        seq![PatternType::WorkflowSequence]
    } else {
        Seq::<PatternType>::empty()
    };
    if token_total(history, history.len() as int) > 5 * history.len() {
        workflow.push(PatternType::ContextSwitching)
    } else {
        workflow
    }
}

/// What each sequence in `sequences` holds.
pub open spec fn history_of(sequences: Seq<Vec<String>>) -> Seq<Seq<Seq<char>>> {
    Seq::new(sequences.len(), |i: int| views_of(sequences[i]@))
}

/// Counts never exceed the number of places looked at.
pub proof fn lemma_counts_in_sequence(
    seq: Seq<Seq<char>>,
    cause: Seq<char>,
    effect: Seq<char>,
    n: int,
)
    ensures
        0 <= pair_count_upto(seq, cause, effect, n) <= cause_count_upto(seq, cause, n),
        cause_count_upto(seq, cause, n) <= if n <= 0 {
            0
        } else {
            n
        },
    decreases n,
{
    if n > 0 {
        lemma_counts_in_sequence(seq, cause, effect, n - 1);
    }
}

/// Over a history, pairs never outnumber causes, and causes never outnumber
/// the applications held.
pub proof fn lemma_counts_in_history(
    history: Seq<Seq<Seq<char>>>,
    cause: Seq<char>,
    effect: Seq<char>,
    m: int,
)
    requires
        m <= history.len(),
    ensures
        0 <= pair_total(history, cause, effect, m) <= cause_total(history, cause, m),
        cause_total(history, cause, m) <= token_total(history, m),
    decreases m,
{
    if m > 0 {
        lemma_counts_in_history(history, cause, effect, m - 1);
        lemma_counts_in_sequence(history[m - 1], cause, effect, history[m - 1].len() - 1);
    }
}

/// The applications held grow with the number of sequences counted.
pub proof fn lemma_token_total_grows(history: Seq<Seq<Seq<char>>>, a: int, b: int)
    requires
        a <= b,
    ensures
        token_total(history, a) <= token_total(history, b),
        0 <= token_total(history, a),
    decreases b - a,
{
    if a < b {
        lemma_token_total_grows(history, a, b - 1);
    } else {
        lemma_token_total_nonnegative(history, a);
    }
}

/// No history holds fewer than zero applications.
pub proof fn lemma_token_total_nonnegative(history: Seq<Seq<Seq<char>>>, m: int)
    ensures
        0 <= token_total(history, m),
    decreases m,
{
    if m > 0 {
        lemma_token_total_nonnegative(history, m - 1);
    }
}

/// A strength is a share: it lies between zero and one, and limiting it
/// changes nothing.
pub proof fn lemma_strength_is_share(
    history: Seq<Seq<Seq<char>>>,
    cause: Seq<char>,
    effect: Seq<char>,
)
    ensures
        0 <= causal_strength(history, cause, effect) <= crate::fixed::SCALE,
        causal_strength(history, cause, effect) == ratio(
            pair_total(history, cause, effect, history.len() as int),
            cause_total(history, cause, history.len() as int),
        ),
{
    lemma_counts_in_history(history, cause, effect, history.len() as int);
    crate::fixed::lemma_ratio_of_part(
        pair_total(history, cause, effect, history.len() as int),
        cause_total(history, cause, history.len() as int),
    );
}

/// Where a cause stands only once in the whole history, its strength towards
/// any effect is zero or one: there is no smoothing.
pub proof fn lemma_single_observation(
    history: Seq<Seq<Seq<char>>>,
    cause: Seq<char>,
    effect: Seq<char>,
)
    requires
        cause_total(history, cause, history.len() as int) == 1,
    ensures
        causal_strength(history, cause, effect) == 0 || causal_strength(history, cause, effect)
            == crate::fixed::SCALE,
{
    lemma_counts_in_history(history, cause, effect, history.len() as int);
    lemma_strength_is_share(history, cause, effect);
}

/// Counting over a history with one more sequence behind it leaves what was
/// counted before in place.
pub proof fn lemma_totals_of_prefix(
    history: Seq<Seq<Seq<char>>>,
    longer: Seq<Seq<Seq<char>>>,
    cause: Seq<char>,
    effect: Seq<char>,
    m: int,
)
    requires
        m <= history.len() <= longer.len(),
        forall|i: int| 0 <= i < history.len() ==> history[i] == longer[i],
    ensures
        cause_total(history, cause, m) == cause_total(longer, cause, m),
        pair_total(history, cause, effect, m) == pair_total(longer, cause, effect, m),
        token_total(history, m) == token_total(longer, m),
    decreases m,
{
    if m > 0 {
        lemma_totals_of_prefix(history, longer, cause, effect, m - 1);
    }
}

/// The strength of `cause` before `effect` over the sequences given.
pub fn strength_in(sequences: &Vec<Vec<String>>, cause: &str, effect: &str) -> (r: i64)
    requires
        token_total(history_of(sequences@), sequences@.len() as int) <= usize::MAX,
    ensures
        r == causal_strength(history_of(sequences@), cause@, effect@),
        0 <= r <= crate::fixed::SCALE,
{
    let cause_text = cause.to_string();
    let effect_text = effect.to_string();
    let ghost history = history_of(sequences@);
    let mut pairs: usize = 0;
    let mut causes: usize = 0;
    let mut m: usize = 0;
    while m < sequences.len()
        invariant
            m <= sequences.len(),
            history == history_of(sequences@),
            cause_text@ == cause@,
            effect_text@ == effect@,
            token_total(history, sequences@.len() as int) <= usize::MAX,
            causes == cause_total(history, cause@, m as int),
            pairs == pair_total(history, cause@, effect@, m as int),
        decreases sequences.len() - m,
    {
        let seq = &sequences[m];
        let ghost tokens = history[m as int];
        assert(tokens == views_of(seq@));
        let ghost causes_before = causes;
        let ghost pairs_before = pairs;
        proof {
            lemma_counts_in_history(history, cause@, effect@, m as int);
            lemma_token_total_grows(history, m + 1, sequences@.len() as int);
        }
        if seq.len() > 0 {
            let mut i: usize = 0;
            while i < seq.len() - 1
                invariant
                    i <= seq.len() - 1,
                    seq.len() > 0,
                    tokens == views_of(seq@),
                    cause_text@ == cause@,
                    effect_text@ == effect@,
                    causes == causes_before + cause_count_upto(tokens, cause@, i as int),
                    pairs == pairs_before + pair_count_upto(tokens, cause@, effect@, i as int),
                    pairs_before <= causes_before,
                    causes_before + seq.len() <= usize::MAX,
                decreases seq.len() - 1 - i,
            {
                proof {
                    lemma_counts_in_sequence(tokens, cause@, effect@, i as int);
                }
                if seq[i] == cause_text {
                    causes += 1;
                    if i + 1 < seq.len() && seq[i + 1] == effect_text {
                        pairs += 1;
                    }
                }
                i += 1;
            }
        }
        m += 1;
    }
    proof {
        lemma_strength_is_share(history, cause@, effect@);
    }
    unit_ratio(pairs as u64, causes as u64)
}

/// The tags that the sequences given earn, with `tokens` the number of
/// applications they hold together.
fn tags_for(count: usize, tokens: usize) -> (tags: Vec<PatternType>)
    ensures
        tags@ == {
            let workflow = if count > 5 {
                seq![PatternType::WorkflowSequence]
            } else {
                Seq::<PatternType>::empty()
            };
            if tokens > 5 * count {
                workflow.push(PatternType::ContextSwitching)
            } else {
                workflow
            }
        },
{
    let mut tags: Vec<PatternType> = Vec::new();
    if count > 5 {
        tags.push(PatternType::WorkflowSequence);
    }
    let wide_tokens: u128 = tokens as u128;
    let wide_count: u128 = count as u128;
    if wide_tokens > 5 * wide_count {
        tags.push(PatternType::ContextSwitching);
    }
    tags
}

/// The relationships that `graph` holds under `cause`; none where it has no
/// entry.
pub open spec fn relations_in(
    graph: Map<Seq<char>, Vec<CausalRelationship>>,
    cause: Seq<char>,
) -> Seq<CausalRelationshipView> {
    if graph.contains_key(cause) {
        relationship_views(graph[cause]@)
    } else {
        Seq::empty()
    }
}

/// Keeps the history of sequences and, for each cause, the relationships that
/// mining stored.
pub struct PatternMiner {
    event_sequences: Vec<Vec<String>>,
    causal_graph: StrMap<Vec<CausalRelationship>>,
    tokens: usize,
}

impl PatternMiner {
    /// The sequences mined so far, oldest first.
    pub closed spec fn history(&self) -> Seq<Seq<Seq<char>>> {
        history_of(self.event_sequences@)
    }

    /// The relationships stored under `cause`, oldest first.
    pub closed spec fn relations_of(&self, cause: Seq<char>) -> Seq<CausalRelationshipView> {
        relations_in(self.causal_graph@, cause)
    }

    /// How many applications the history holds.
    pub closed spec fn size(&self) -> usize {
        self.tokens
    }

    /// The miner knows how many applications its history holds.
    #[verifier::type_invariant]
    pub open spec fn wf(self) -> bool {
        self.size() == token_total(self.history(), self.history().len() as int)
    }

    /// A miner with no history and no relationships.
    pub fn new() -> (r: Self)
        ensures
            r.history() == Seq::<Seq<Seq<char>>>::empty(),
            forall|cause: Seq<char>| r.relations_of(cause) == Seq::<CausalRelationshipView>::empty(),
            r.size() == 0,
    {
        let r = PatternMiner { event_sequences: Vec::new(), causal_graph: StrMap::new(), tokens: 0 };
        assert(r.history() =~= Seq::<Seq<Seq<char>>>::empty());
        r
    }

    /// How many applications the history holds.
    pub fn history_size(&self) -> (n: usize)
        ensures
            n == self.size(),
            n == token_total(self.history(), self.history().len() as int),
    {
        proof {
            use_type_invariant(self);
        }
        self.tokens
    }

    /// How many sequences the history holds.
    pub fn history_len(&self) -> (n: usize)
        ensures
            n == self.history().len(),
    {
        self.event_sequences.len()
    }

    /// The strength of `cause` before `effect` over the whole history.
    pub fn compute_causal_strength(&self, cause: &str, effect: &str) -> (r: i64)
        ensures
            r == causal_strength(self.history(), cause@, effect@),
            0 <= r <= crate::fixed::SCALE,
    {
        proof {
            use_type_invariant(self);
        }
        strength_in(&self.event_sequences, cause, effect)
    }

    /// The tags that the history earns.
    pub fn detect_pattern_types(&self) -> (tags: Vec<PatternType>)
        ensures
            tags@ == pattern_tags(self.history()),
    {
        proof {
            use_type_invariant(self);
        }
        tags_for(self.event_sequences.len(), self.tokens)
    }

    fn mined(self, events: &[OSEvent]) -> (r: (Self, Vec<PatternType>))
        requires
            self.size() + events@.len() <= usize::MAX,
        ensures
            ({
                let seq = app_sequence(event_views(events@));
                let kept = seq.len() >= MIN_SEQUENCE_LEN;
                &&& r.0.history() == if kept {
                    self.history().push(seq)
                } else {
                    self.history()
                }
                &&& forall|cause: Seq<char>|
                    #[trigger] r.0.relations_of(cause) == if kept {
                        stored_after(
                            self.relations_of(cause),
                            r.0.history(),
                            seq,
                            cause,
                            seq.len() - 1,
                        )
                    } else {
                        self.relations_of(cause)
                    }
                &&& r.1@ == if kept {
                    pattern_tags(r.0.history())
                } else {
                    Seq::empty()
                }
            }),
    {
        proof {
            use_type_invariant(&self);
        }
        let ghost before = self;
        let sequence = project_apps(events);
        let ghost seq = views_of(sequence@);
        let PatternMiner { event_sequences, causal_graph, tokens } = self;
        let mut event_sequences = event_sequences;
        let mut causal_graph = causal_graph;
        let mut tokens = tokens;
        if sequence.len() >= 3 {
            proof {
                lemma_app_sequence_len(event_views(events@));
            }
            let ghost old_history = history_of(event_sequences@);
            tokens = tokens + sequence.len();
            event_sequences.push(crate::text::clone_texts(&sequence));
            let ghost history = history_of(event_sequences@);
            proof {
                assert(history =~= old_history.push(seq));
                lemma_totals_of_prefix(old_history, history, seq[0], seq[0], old_history.len() as int);
            }
            let mut i: usize = 0;
            while i < sequence.len() - 1
                invariant
                    i <= sequence.len() - 1,
                    sequence.len() >= 3,
                    seq == views_of(sequence@),
                    history == history_of(event_sequences@),
                    token_total(history, history.len() as int) <= usize::MAX,
                    forall|cause: Seq<char>|
                        #[trigger] relations_in(causal_graph@, cause) == stored_after(
                            before.relations_of(cause),
                            history,
                            seq,
                            cause,
                            i as int,
                        ),
                decreases sequence.len() - 1 - i,
            {
                let cause = sequence[i].clone();
                let effect = sequence[i + 1].clone();
                let strength = strength_in(&event_sequences, cause.as_str(), effect.as_str());
                let ghost graph_before = causal_graph@;
                if strength > STRENGTH_THRESHOLD {
                    let relationship = CausalRelationship {
                        cause: cause.clone(),
                        effect,
                        strength,
                        confidence: HEURISTIC_CONFIDENCE,
                    };
                    assert(relationship@ == relationship_for(history, seq[i as int], seq[i + 1]));
                    match causal_graph.position(cause.as_str()) {
                        Some(at) => {
                            let mut list = causal_graph.replace_at(at, Vec::new());
                            let ghost list_before = relationship_views(list@);
                            list.push(relationship);
                            assert(relationship_views(list@) =~= list_before.push(relationship@));
                            causal_graph.replace_at(at, list);
                        },
                        None => {
                            let mut list: Vec<CausalRelationship> = Vec::new();
                            list.push(relationship);
                            assert(relationship_views(list@) =~= Seq::<
                                CausalRelationshipView,
                            >::empty().push(relationship@));
                            causal_graph.insert(cause, list);
                        },
                    }
                }
                proof {
                    assert forall|c: Seq<char>| #[trigger]
                        relations_in(causal_graph@, c) == stored_after(
                            before.relations_of(c),
                            history,
                            seq,
                            c,
                            i + 1,
                        ) by {
                        assert(relations_in(graph_before, c) == stored_after(
                            before.relations_of(c),
                            history,
                            seq,
                            c,
                            i as int,
                        ));
                    }
                }
                i += 1;
            }
        }
        let tags = if sequence.len() >= 3 {
            tags_for(event_sequences.len(), tokens)
        } else {
            Vec::new()
        };
        (PatternMiner { event_sequences, causal_graph, tokens }, tags)
    }

    /// Takes the applications that `events` put in front of the user, in
    /// order. A sequence of fewer than three is dropped: nothing changes, and
    /// no tag is returned. Any other joins the history, and each of its
    /// adjacent pairs whose strength over the whole history exceeds 0.3 is
    /// stored behind the relationships of its cause; the tags that the history
    /// then earns are returned.
    ///
    /// The history must not come to hold more applications than a `usize`
    /// counts.
    pub fn mine_patterns(&mut self, events: &[OSEvent]) -> (tags: Vec<PatternType>)
        requires
            old(self).size() + events@.len() <= usize::MAX,
        ensures
            ({
                let seq = app_sequence(event_views(events@));
                let kept = seq.len() >= MIN_SEQUENCE_LEN;
                &&& final(self).history() == if kept {
                    old(self).history().push(seq)
                } else {
                    old(self).history()
                }
                &&& forall|cause: Seq<char>|
                    #[trigger] final(self).relations_of(cause) == if kept {
                        stored_after(
                            old(self).relations_of(cause),
                            final(self).history(),
                            seq,
                            cause,
                            seq.len() - 1,
                        )
                    } else {
                        old(self).relations_of(cause)
                    }
                &&& tags@ == if kept {
                    pattern_tags(final(self).history())
                } else {
                    Seq::empty()
                }
            }),
    {
        let mut taken = PatternMiner::new();
        core::mem::swap(self, &mut taken);
        let (miner, tags) = taken.mined(events);
        *self = miner;
        tags
    }

    /// The relationships stored under `app`, oldest first.
    pub fn get_causal_relationships(&self, app: &str) -> (r: Vec<&CausalRelationship>)
        ensures
            r@.len() == self.relations_of(app@).len(),
            forall|i: int| 0 <= i < r@.len() ==> (#[trigger] r@[i])@ == self.relations_of(app@)[i],
    {
        let mut r: Vec<&CausalRelationship> = Vec::new();
        match self.causal_graph.get(app) {
            Some(list) => {
                let mut i: usize = 0;
                while i < list.len()
                    invariant
                        i <= list.len(),
                        r@.len() == i,
                        forall|j: int| 0 <= j < i ==> *(#[trigger] r@[j]) == list@[j],
                    decreases list.len() - i,
                {
                    r.push(&list[i]);
                    i += 1;
                }
            },
            None => {},
        }
        r
    }
}

/// No more applications come out of a list of events than it has events.
pub proof fn lemma_app_sequence_len(events: Seq<crate::edge::OSEventView>)
    ensures
        app_sequence(events).len() <= events.len(),
    decreases events.len(),
{
    if events.len() > 0 {
        lemma_app_sequence_len(events.drop_last());
    }
}

/// What the first `m` sequences count where every sequence of `history` is
/// the pair of `a` and `b`, but for the one at `j`, which is the pair of `a`
/// and `c`.
proof fn lemma_totals_of_pairs(
    history: Seq<Seq<Seq<char>>>,
    a: Seq<char>,
    b: Seq<char>,
    c: Seq<char>,
    j: int,
    m: int,
)
    requires
        b != c,
        0 <= j < history.len(),
        0 <= m <= history.len(),
        history[j] == seq![a, c],
        forall|i: int| 0 <= i < history.len() && i != j ==> #[trigger] history[i] == seq![a, b],
    ensures
        cause_total(history, a, m) == m,
        pair_total(history, a, c, m) == if j < m {
            1int
        } else {
            0int
        },
        pair_total(history, a, b, m) == if j < m {
            m - 1
        } else {
            m
        },
    decreases m,
{
    if m > 0 {
        lemma_totals_of_pairs(history, a, b, c, j, m - 1);
        let s = history[m - 1];
        assert(s.len() == 2);
        assert(s[0] == a);
        assert(cause_count_upto(s, a, 0) == 0);
        assert(cause_count_upto(s, a, 1) == 1);
        assert(pair_count_upto(s, a, b, 0) == 0);
        assert(pair_count_upto(s, a, c, 0) == 0);
        if m - 1 == j {
            assert(s[1] == c);
            assert(pair_count_upto(s, a, c, 1) == 1);
            assert(pair_count_upto(s, a, b, 1) == 0);
        } else {
            assert(s[1] == b);
            assert(pair_count_upto(s, a, b, 1) == 1);
            assert(pair_count_upto(s, a, c, 1) == 0);
        }
    }
}

/// Where `a` is followed by `b` in all sequences of the history but one, and
/// by another application `c` in that one, the strength from `a` to `b` is
/// k/(k+1) and the strength from `a` to `c` is 1/(k+1), with k the number of
/// sequences that lead to `b`.
pub proof fn lemma_strength_of_shared_cause(
    history: Seq<Seq<Seq<char>>>,
    a: Seq<char>,
    b: Seq<char>,
    c: Seq<char>,
    j: int,
)
    requires
        b != c,
        0 <= j < history.len(),
        history[j] == seq![a, c],
        forall|i: int| 0 <= i < history.len() && i != j ==> #[trigger] history[i] == seq![a, b],
    ensures
        ({
            let k = history.len() - 1;
            &&& pair_total(history, a, b, history.len() as int) == k
            &&& pair_total(history, a, c, history.len() as int) == 1
            &&& cause_total(history, a, history.len() as int) == k + 1
            &&& causal_strength(history, a, b) == (k * crate::fixed::SCALE) / (k + 1)
            &&& causal_strength(history, a, c) == (1 * crate::fixed::SCALE) / (k + 1)
        }),
{
    lemma_totals_of_pairs(history, a, b, c, j, history.len() as int);
    lemma_strength_is_share(history, a, b);
    lemma_strength_is_share(history, a, c);
}

impl Default for PatternMiner {
    fn default() -> (r: Self)
        ensures
            r.history() == Seq::<Seq<Seq<char>>>::empty(),
            forall|cause: Seq<char>| r.relations_of(cause) == Seq::<CausalRelationshipView>::empty(),
            r.size() == 0,
    {
        PatternMiner::new()
    }
}

} // verus!
