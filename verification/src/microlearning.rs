//! Nudges: short lessons offered where the same mistake keeps coming back.

use vstd::prelude::*;
use crate::clock::now_timestamp;
use crate::strmap::{listed, placed_keys, value_views, view_map, StrMap};
use crate::text::{decimal, decimal_count, decimal_text, fill_placeholders, filled, join2};

verus! {

/// From this many occurrences on, a mistake earns a nudge.
pub const NUDGE_THRESHOLD: usize = 3;

/// A mistake that was seen, how often, and in what context last.
#[derive(Debug)]
pub struct ErrorPattern {
    pub error_type: String,
    pub frequency: usize,
    pub context: String,
    pub detected_at: i64,
}

/// What a seen mistake holds.
pub struct ErrorPatternView {
    pub error_type: Seq<char>,
    pub frequency: usize,
    pub context: Seq<char>,
    pub detected_at: i64,
}

impl View for ErrorPattern {
    type V = ErrorPatternView;

    open spec fn view(&self) -> ErrorPatternView {
        ErrorPatternView {
            error_type: self.error_type@,
            frequency: self.frequency,
            context: self.context@,
            detected_at: self.detected_at,
        }
    }
}

/// A short lesson.
#[derive(Clone, Debug)]
pub struct MicrolearningNudge {
    pub id: String,
    pub title: String,
    pub content: String,
    pub tip: String,
    pub apply_action: Option<String>,
    pub error_pattern: Option<String>,
    pub created_at: i64,
}

/// What a lesson holds.
pub struct MicrolearningNudgeView {
    pub id: Seq<char>,
    pub title: Seq<char>,
    pub content: Seq<char>,
    pub tip: Seq<char>,
    pub apply_action: Option<Seq<char>>,
    pub error_pattern: Option<Seq<char>>,
    pub created_at: i64,
}

impl View for MicrolearningNudge {
    type V = MicrolearningNudgeView;

    open spec fn view(&self) -> MicrolearningNudgeView {
        MicrolearningNudgeView {
            id: self.id@,
            title: self.title@,
            content: self.content@,
            tip: self.tip@,
            apply_action: crate::text::option_text(self.apply_action),
            error_pattern: crate::text::option_text(self.error_pattern),
            created_at: self.created_at,
        }
    }
}

/// The template for a mistake that was repeated.
pub open spec fn repeated_error_template() -> Seq<char> {
    "You've repeated this error {} times. Try: {}"@
}

/// One more occurrence, up to the largest count that can be held.
pub open spec fn one_more(count: usize) -> usize {
    if count < usize::MAX {
        (count + 1) as usize
    } else {
        count
    }
}

/// What is known of the mistake `error_type`, if anything.
pub open spec fn known(
    patterns: Map<Seq<char>, ErrorPatternView>,
    error_type: Seq<char>,
) -> Option<ErrorPatternView> {
    if patterns.contains_key(error_type) {
        Some(patterns[error_type])
    } else {
        None
    }
}

/// What is known of a mistake after it was seen once more at `now`.
pub open spec fn seen_again(
    before: Option<ErrorPatternView>,
    error_type: Seq<char>,
    context: Seq<char>,
    now: i64,
) -> ErrorPatternView {
    ErrorPatternView {
        error_type,
        frequency: match before {
            Some(pattern) => one_more(pattern.frequency),
            None => 1,
        },
        context,
        detected_at: now,
    }
}

/// The lesson for a mistake seen `frequency` times, made at `now`. Every
/// placeholder of the template is filled with the count.
pub open spec fn repeated_error_nudge(
    error_type: Seq<char>,
    frequency: usize,
    tip: Seq<char>,
    now: i64,
) -> MicrolearningNudgeView {
    MicrolearningNudgeView {
        id: "nudge_"@ + decimal_text(now as int),
        title: "Improve your workflow: "@ + error_type,
        content: filled(
            repeated_error_template(),
            "{}"@,
            decimal_text(frequency as int) + " times"@,
        ),
        tip,
        apply_action: Some("Apply tip: "@ + tip),
        error_pattern: Some(error_type),
        created_at: now,
    }
}

/// The lesson for a pattern that wastes effort, made at `now`.
pub open spec fn inefficiency_nudge(
    pattern_desc: Seq<char>,
    suggestion: Seq<char>,
    now: i64,
) -> MicrolearningNudgeView {
    MicrolearningNudgeView {
        id: "nudge_"@ + decimal_text(now as int),
        title: "Optimization opportunity"@,
        content: "Pattern detected: "@ + pattern_desc + ". Suggestion: "@ + suggestion,
        tip: suggestion,
        apply_action: Some("Apply: "@ + suggestion),
        error_pattern: None,
        created_at: now,
    }
}

/// The lessons for the first `n` mistakes, in their order: one for each that
/// was seen three times or more.
pub open spec fn nudges_upto(patterns: Seq<ErrorPatternView>, now: i64, n: int) -> Seq<
    MicrolearningNudgeView,
>
    decreases n,
{
    if n <= 0 {
        Seq::empty()
    } else if patterns[n - 1].frequency >= NUDGE_THRESHOLD {
        nudges_upto(patterns, now, n - 1).push(
            repeated_error_nudge(
                patterns[n - 1].error_type,
                patterns[n - 1].frequency,
                "Review best practices"@,
                now,
            ),
        )
    } else {
        nudges_upto(patterns, now, n - 1)
    }
}

/// What each lesson in `list` holds.
pub open spec fn nudge_views(list: Seq<MicrolearningNudge>) -> Seq<MicrolearningNudgeView> {
    Seq::new(list.len(), |i: int| list[i]@)
}

/// What each seen mistake holds, by kind.
pub open spec fn pattern_views(patterns: Map<Seq<char>, ErrorPattern>) -> Map<
    Seq<char>,
    ErrorPatternView,
> {
    view_map(patterns)
}

/// Counts mistakes by kind and turns the frequent ones into lessons.
pub struct MicrolearningNudgeGenerator {
    error_patterns: StrMap<ErrorPattern>,
    nudge_templates: StrMap<String>,
}

impl MicrolearningNudgeGenerator {
    /// What is known of each kind of mistake.
    pub closed spec fn patterns(&self) -> Map<Seq<char>, ErrorPatternView> {
        pattern_views(self.error_patterns@)
    }

    /// The kinds of mistake, in the order in which they were first seen.
    pub closed spec fn pattern_ids(&self) -> Seq<Seq<char>> {
        self.error_patterns.keys()
    }

    /// The mistakes in the order in which their kinds were first seen.
    pub open spec fn pattern_list(&self) -> Seq<ErrorPatternView> {
        listed(self.patterns(), self.pattern_ids())
    }

    /// The templates by name.
    pub closed spec fn templates(&self) -> Map<Seq<char>, String> {
        self.nudge_templates@
    }

    /// Each mistake stands under its own kind, and the template for repeated
    /// mistakes is there.
    #[verifier::type_invariant]
    pub open spec fn wf(self) -> bool {
        &&& self.templates().contains_key("repeated_error"@)
        &&& self.templates()["repeated_error"@]@ == repeated_error_template()
        &&& forall|k: Seq<char>| #[trigger]
            self.patterns().contains_key(k) ==> self.patterns()[k].error_type == k
        &&& self.keys_match()
    }

    /// The mistakes are listed in the order of their kinds.
    pub closed spec fn keys_match(&self) -> bool {
        forall|i: int|
            0 <= i < self.error_patterns.values().len() ==> (#[trigger] self.error_patterns.values()[i]).error_type@
                == self.error_patterns.keys()[i]
    }

    /// A generator that has seen no mistake.
    pub fn new() -> (r: Self)
        ensures
            r.patterns() == Map::<Seq<char>, ErrorPatternView>::empty(),
            r.pattern_ids() == Seq::<Seq<char>>::empty(),
    {
        let mut nudge_templates: StrMap<String> = StrMap::new();
        nudge_templates.insert(
            "repeated_error".to_string(),
            "You've repeated this error {} times. Try: {}".to_string(),
        );
        proof {
            reveal_strlit("repeated_error");
            reveal_strlit("inefficient_pattern");
            reveal_strlit("misuse_detected");
            assert("repeated_error"@.len() == 14);
            assert("inefficient_pattern"@.len() == 19);
            assert("misuse_detected"@.len() == 15);
        }
        nudge_templates.insert(
            "inefficient_pattern".to_string(),
            "This pattern could be optimized. Consider: {}".to_string(),
        );
        nudge_templates.insert(
            "misuse_detected".to_string(),
            "There's a better way to do this. Tip: {}".to_string(),
        );
        let r = MicrolearningNudgeGenerator { error_patterns: StrMap::new(), nudge_templates };
        assert(r.patterns() =~= Map::<Seq<char>, ErrorPatternView>::empty());
        r
    }

    /// How many kinds of mistake were seen.
    pub fn pattern_count(&self) -> (n: usize)
        ensures
            n == self.pattern_ids().len(),
    {
        self.error_patterns.len()
    }

    /// What is known of the mistake `error_type`.
    pub fn get_pattern(&self, error_type: &str) -> (r: Option<&ErrorPattern>)
        ensures
            match r {
                Some(pattern) => self.patterns().contains_key(error_type@) && pattern@
                    == self.patterns()[error_type@],
                None => !self.patterns().contains_key(error_type@),
            },
    {
        self.error_patterns.get(error_type)
    }

    fn with_error(self, error_type: String, context: String, now: i64) -> (r: Self)
        ensures
            r.pattern_ids() == placed_keys(self.pattern_ids(), error_type@),
            r.patterns() == self.patterns().insert(
                error_type@,
                seen_again(
                    known(self.patterns(), error_type@),
                    error_type@,
                    context@,
                    now,
                ),
            ),
    {
        proof {
            use_type_invariant(&self);
        }
        let ghost before = self.patterns();
        let MicrolearningNudgeGenerator { error_patterns, nudge_templates } = self;
        let mut error_patterns = error_patterns;
        let frequency: usize = match error_patterns.get(error_type.as_str()) {
            Some(pattern) => if pattern.frequency < usize::MAX {
                pattern.frequency + 1
            } else {
                pattern.frequency
            },
            None => 1,
        };
        let pattern = ErrorPattern {
            error_type: error_type.clone(),
            frequency,
            context,
            detected_at: now,
        };
        let ghost keys_before = error_patterns.keys();
        let ghost values_before = error_patterns.values();
        proof {
            use_type_invariant(&error_patterns);
            error_patterns.lemma_entries();
        }
        error_patterns.insert(error_type, pattern);
        proof {
            assert(pattern_views(error_patterns@) =~= before.insert(error_type@, pattern@));
            assert forall|i: int| 0 <= i < error_patterns.values().len() implies (
            #[trigger] error_patterns.values()[i]).error_type@ == error_patterns.keys()[i] by {
                if i < values_before.len() && error_patterns.values()[i] == values_before[i] {
                    assert(values_before[i].error_type@ == keys_before[i]);
                }
            }
        }
        MicrolearningNudgeGenerator { error_patterns, nudge_templates }
    }

    /// Counts one more occurrence of the mistake `error_type` as if the clock
    /// read `now`.
    pub fn detect_error_pattern_at(&mut self, error_type: String, context: String, now: i64)
        ensures
            final(self).pattern_ids() == placed_keys(old(self).pattern_ids(), error_type@),
            final(self).patterns() == old(self).patterns().insert(
                error_type@,
                seen_again(
                    known(old(self).patterns(), error_type@),
                    error_type@,
                    context@,
                    now,
                ),
            ),
    {
        let mut taken = MicrolearningNudgeGenerator::new();
        core::mem::swap(self, &mut taken);
        *self = taken.with_error(error_type, context, now);
    }

    /// Counts one more occurrence of the mistake `error_type`, and notes its
    /// context and the time the clock reads.
    pub fn detect_error_pattern(&mut self, error_type: String, context: String)
        ensures
            final(self).pattern_ids() == placed_keys(old(self).pattern_ids(), error_type@),
            exists|now: i64|
                final(self).patterns() == old(self).patterns().insert(
                    error_type@,
                    #[trigger] seen_again(
                        known(old(self).patterns(), error_type@),
                        error_type@,
                        context@,
                        now,
                    ),
                ),
    {
        let now = now_timestamp();
        self.detect_error_pattern_at(error_type, context, now);
    }

    fn nudge_for(&self, error_type: &str, frequency: usize, tip: &str, now: i64) -> (r:
        MicrolearningNudge)
        ensures
            r@ == repeated_error_nudge(error_type@, frequency, tip@, now),
    {
        proof {
            use_type_invariant(self);
        }
        let count = join2(decimal_count(frequency).as_str(), " times");
        let content = match self.nudge_templates.get("repeated_error") {
            Some(template) => fill_placeholders(template.as_str(), "{}", count.as_str()),
            None => fill_placeholders("Try this: {}", "{}", count.as_str()),
        };
        MicrolearningNudge {
            id: join2("nudge_", decimal(now).as_str()),
            title: join2("Improve your workflow: ", error_type),
            content,
            tip: tip.to_string(),
            apply_action: Some(join2("Apply tip: ", tip)),
            error_pattern: Some(error_type.to_string()),
            created_at: now,
        }
    }

    /// The lesson for the mistake `error_type`, as if the clock read `now`.
    pub fn generate_nudge_at(&self, error_type: &str, tip: &str, now: i64) -> (r: Option<
        MicrolearningNudge,
    >)
        ensures
            match r {
                Some(nudge) => self.patterns().contains_key(error_type@)
                    && self.patterns()[error_type@].frequency >= NUDGE_THRESHOLD && nudge@
                    == repeated_error_nudge(
                    error_type@,
                    self.patterns()[error_type@].frequency,
                    tip@,
                    now,
                ),
                None => !self.patterns().contains_key(error_type@)
                    || self.patterns()[error_type@].frequency < NUDGE_THRESHOLD,
            },
    {
        match self.error_patterns.get(error_type) {
            Some(pattern) => {
                if pattern.frequency >= NUDGE_THRESHOLD {
                    Some(self.nudge_for(error_type, pattern.frequency, tip, now))
                } else {
                    None
                }
            },
            None => None,
        }
    }

    /// A lesson for the mistake `error_type`, once it was seen three times:
    /// it names the count and carries the tip. It is stamped with the time
    /// the clock reads.
    pub fn generate_nudge(&self, error_type: &str, tip: &str) -> (r: Option<MicrolearningNudge>)
        ensures
            match r {
                Some(nudge) => self.patterns().contains_key(error_type@)
                    && self.patterns()[error_type@].frequency >= NUDGE_THRESHOLD && exists|now: i64|
                    nudge@ == #[trigger] repeated_error_nudge(
                        error_type@,
                        self.patterns()[error_type@].frequency,
                        tip@,
                        now,
                    ),
                None => !self.patterns().contains_key(error_type@)
                    || self.patterns()[error_type@].frequency < NUDGE_THRESHOLD,
            },
    {
        let now = now_timestamp();
        self.generate_nudge_at(error_type, tip, now)
    }

    /// The lesson for a pattern that wastes effort, as if the clock read
    /// `now`.
    pub fn generate_inefficiency_nudge_at(&self, pattern_desc: &str, suggestion: &str, now: i64) -> (r:
        MicrolearningNudge)
        ensures
            r@ == inefficiency_nudge(pattern_desc@, suggestion@, now),
    {
        let head = join2("Pattern detected: ", pattern_desc);
        let middle = join2(head.as_str(), ". Suggestion: ");
        MicrolearningNudge {
            id: join2("nudge_", decimal(now).as_str()),
            title: "Optimization opportunity".to_string(),
            content: join2(middle.as_str(), suggestion),
            tip: suggestion.to_string(),
            apply_action: Some(join2("Apply: ", suggestion)),
            error_pattern: None,
            created_at: now,
        }
    }

    /// A lesson for a pattern that wastes effort, stamped with the time the
    /// clock reads.
    pub fn generate_inefficiency_nudge(&self, pattern_desc: &str, suggestion: &str) -> (r:
        MicrolearningNudge)
        ensures
            exists|now: i64| r@ == #[trigger] inefficiency_nudge(pattern_desc@, suggestion@, now),
    {
        let now = now_timestamp();
        self.generate_inefficiency_nudge_at(pattern_desc, suggestion, now)
    }

    /// The lessons for all mistakes seen three times or more, as if the clock
    /// read `now`.
    pub fn get_active_nudges_at(&self, now: i64) -> (r: Vec<MicrolearningNudge>)
        ensures
            nudge_views(r@) == nudges_upto(self.pattern_list(), now, self.pattern_list().len() as int),
    {
        let mut nudges: Vec<MicrolearningNudge> = Vec::new();
        let mut i: usize = 0;
        let n = self.error_patterns.len();
        proof {
            use_type_invariant(&self.error_patterns);
            self.error_patterns.lemma_listed_views();
        }
        assert(nudge_views(nudges@) =~= Seq::<MicrolearningNudgeView>::empty());
        while i < n
            invariant
                i <= n,
                n == self.pattern_list().len(),
                n == self.error_patterns.values().len(),
                self.pattern_list() == value_views(self.error_patterns.values()),
                nudge_views(nudges@) == nudges_upto(self.pattern_list(), now, i as int),
            decreases n - i,
        {
            let pattern = self.error_patterns.value_at(i);
            if pattern.frequency >= NUDGE_THRESHOLD {
                let nudge = self.nudge_for(
                    pattern.error_type.as_str(),
                    pattern.frequency,
                    "Review best practices",
                    now,
                );
                let ghost before = nudge_views(nudges@);
                nudges.push(nudge);
                assert(nudge_views(nudges@) =~= before.push(nudge@));
            }
            i += 1;
        }
        nudges
    }

    /// One lesson for each mistake seen three times or more, in the order in
    /// which the mistakes were first seen, each with the tip to review best
    /// practices.
    pub fn get_active_nudges(&self) -> (r: Vec<MicrolearningNudge>)
        ensures
            exists|now: i64|
                nudge_views(r@) == #[trigger] nudges_upto(
                    self.pattern_list(),
                    now,
                    self.pattern_list().len() as int,
                ),
    {
        let now = now_timestamp();
        self.get_active_nudges_at(now)
    }
}

impl Default for MicrolearningNudgeGenerator {
    fn default() -> (r: Self)
        ensures
            r.patterns() == Map::<Seq<char>, ErrorPatternView>::empty(),
            r.pattern_ids() == Seq::<Seq<char>>::empty(),
    {
        MicrolearningNudgeGenerator::new()
    }
}

} // verus!
