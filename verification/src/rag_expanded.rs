//! The wider index: documents, the workflows of industries, and what each
//! user prefers.

use vstd::prelude::*;
use crate::rag::{found_views, is_search_result, DocumentChunkView, RAGIndex};
use crate::strmap::{views_of, StrMap};
use crate::text::{contains, contains_text, join, join2, joined, lowercase, lowercase_text};

verus! {

/// How an industry goes about a task.
#[derive(Debug)]
pub struct IndustryWorkflow {
    pub industry: String,
    pub workflow_name: String,
    pub steps: Vec<String>,
    pub best_practices: Vec<String>,
    pub common_pitfalls: Vec<String>,
}

/// What a workflow holds.
pub struct IndustryWorkflowView {
    pub industry: Seq<char>,
    pub workflow_name: Seq<char>,
    pub steps: Seq<Seq<char>>,
    pub best_practices: Seq<Seq<char>>,
    pub common_pitfalls: Seq<Seq<char>>,
}

impl View for IndustryWorkflow {
    type V = IndustryWorkflowView;

    open spec fn view(&self) -> IndustryWorkflowView {
        IndustryWorkflowView {
            industry: self.industry@,
            workflow_name: self.workflow_name@,
            steps: views_of(self.steps@),
            best_practices: views_of(self.best_practices@),
            common_pitfalls: views_of(self.common_pitfalls@),
        }
    }
}

impl Clone for IndustryWorkflow {
    fn clone(&self) -> (r: Self)
        ensures
            r@ == self@,
    {
        IndustryWorkflow {
            industry: self.industry.clone(),
            workflow_name: self.workflow_name.clone(),
            steps: crate::text::clone_texts(&self.steps),
            best_practices: crate::text::clone_texts(&self.best_practices),
            common_pitfalls: crate::text::clone_texts(&self.common_pitfalls),
        }
    }
}

/// What each workflow in `list` holds.
pub open spec fn workflow_views(list: Seq<IndustryWorkflow>) -> Seq<IndustryWorkflowView> {
    Seq::new(list.len(), |i: int| list[i]@)
}

/// The workflows of `industry`; none where the industry is unknown.
pub open spec fn workflows_in(
    all: Map<Seq<char>, Vec<IndustryWorkflow>>,
    industry: Seq<char>,
) -> Seq<IndustryWorkflowView> {
    if all.contains_key(industry) {
        workflow_views(all[industry]@)
    } else {
        Seq::empty()
    }
}

/// The industries that `user_id` prefers; none where nothing is known.
pub open spec fn preferences_in(all: Map<Seq<char>, Vec<String>>, user_id: Seq<char>) -> Seq<
    Seq<char>,
> {
    if all.contains_key(user_id) {
        views_of(all[user_id]@)
    } else {
        Seq::empty()
    }
}

/// The line that presents a workflow.
pub open spec fn workflow_line(workflow: IndustryWorkflowView) -> Seq<char> {
    "Industry workflow: "@ + workflow.workflow_name + " - "@ + joined(workflow.steps, " → "@)
}

/// The lines for those of the first `n` workflows whose name, in lower case,
/// stands in the query, in lower case.
pub open spec fn matching_lines(
    workflows: Seq<IndustryWorkflowView>,
    query_lower: Seq<char>,
    n: int,
) -> Seq<Seq<char>>
    decreases n,
{
    if n <= 0 {
        Seq::empty()
    } else if contains_text(query_lower, lowercase_text(workflows[n - 1].workflow_name)) {
        matching_lines(workflows, query_lower, n - 1).push(workflow_line(workflows[n - 1]))
    } else {
        matching_lines(workflows, query_lower, n - 1)
    }
}

/// The lines for the first `n` industries, each with its matching workflows.
pub open spec fn industry_lines(
    all: Map<Seq<char>, Vec<IndustryWorkflow>>,
    industries: Seq<Seq<char>>,
    query_lower: Seq<char>,
    n: int,
) -> Seq<Seq<char>>
    decreases n,
{
    if n <= 0 {
        Seq::empty()
    } else {
        let workflows = workflows_in(all, industries[n - 1]);
        industry_lines(all, industries, query_lower, n - 1) + matching_lines(
            workflows,
            query_lower,
            workflows.len() as int,
        )
    }
}

/// The texts of the chunks given.
pub open spec fn contents_of(chunks: Seq<DocumentChunkView>) -> Seq<Seq<char>> {
    Seq::new(chunks.len(), |i: int| chunks[i].content)
}

/// The first `limit` of `items`; all of them where there are fewer.
pub open spec fn first_of<T>(items: Seq<T>, limit: int) -> Seq<T> {
    if limit >= items.len() {
        items
    } else if limit <= 0 {
        Seq::empty()
    } else {
        items.subrange(0, limit)
    }
}

/// An index of documents with workflows and preferences beside it.
pub struct ExpandedRAGIndex {
    base_index: RAGIndex,
    industry_workflows: StrMap<Vec<IndustryWorkflow>>,
    user_preferences: StrMap<Vec<String>>,
}

impl ExpandedRAGIndex {
    /// The chunks of the documents.
    pub closed spec fn chunks(&self) -> Seq<DocumentChunkView> {
        self.base_index@
    }

    /// The workflows by industry.
    pub closed spec fn workflows(&self) -> Map<Seq<char>, Vec<IndustryWorkflow>> {
        self.industry_workflows@
    }

    /// The number of industries that have a workflow.
    pub closed spec fn industry_total(&self) -> nat {
        self.industry_workflows.keys().len()
    }

    /// The industries that each user prefers.
    pub closed spec fn preferences(&self) -> Map<Seq<char>, Vec<String>> {
        self.user_preferences@
    }

    /// An index without documents, workflows or preferences.
    pub fn new() -> (r: Self)
        ensures
            r.chunks() == Seq::<DocumentChunkView>::empty(),
            r.workflows() == Map::<Seq<char>, Vec<IndustryWorkflow>>::empty(),
            r.industry_total() == 0,
            r.preferences() == Map::<Seq<char>, Vec<String>>::empty(),
    {
        ExpandedRAGIndex {
            base_index: RAGIndex::new(),
            industry_workflows: StrMap::new(),
            user_preferences: StrMap::new(),
        }
    }

    /// How many industries have a workflow.
    pub fn industry_count(&self) -> (n: usize)
        ensures
            n == self.industry_total(),
    {
        self.industry_workflows.len()
    }

    /// The index of the documents.
    pub fn base_index(&self) -> (r: &RAGIndex)
        ensures
            r@ == self.chunks(),
    {
        &self.base_index
    }

    /// Cuts `content` into chunks and adds them to the documents.
    pub fn load_documentation(&mut self, source: &str, content: &str)
        ensures
            final(self).chunks() == crate::rag::loaded(
                old(self).chunks(),
                source@,
                vstd::utf8::encode_utf8(content@),
                crate::rag::piece_count(vstd::utf8::encode_utf8(content@).len() as int),
            ),
            final(self).workflows() == old(self).workflows(),
            final(self).industry_total() == old(self).industry_total(),
            final(self).preferences() == old(self).preferences(),
    {
        self.base_index.load_documentation(source, content);
    }

    /// Adds `workflow` behind the workflows of its industry.
    pub fn add_industry_workflow(&mut self, workflow: IndustryWorkflow)
        ensures
            workflows_in(final(self).workflows(), workflow.industry@) == workflows_in(
                old(self).workflows(),
                workflow.industry@,
            ).push(workflow@),
            forall|other: Seq<char>|
                other != workflow.industry@ ==> #[trigger] workflows_in(
                    final(self).workflows(),
                    other,
                ) == workflows_in(old(self).workflows(), other),
            final(self).industry_total() == if old(self).workflows().contains_key(workflow.industry@) {
                old(self).industry_total()
            } else {
                old(self).industry_total() + 1
            },
            final(self).chunks() == old(self).chunks(),
            final(self).preferences() == old(self).preferences(),
    {
        match self.industry_workflows.position(workflow.industry.as_str()) {
            Some(at) => {
                let mut list = self.industry_workflows.replace_at(at, Vec::new());
                let ghost before = workflow_views(list@);
                list.push(workflow);
                assert(workflow_views(list@) =~= before.push(workflow@));
                self.industry_workflows.replace_at(at, list);
            },
            None => {
                let mut list: Vec<IndustryWorkflow> = Vec::new();
                let industry = workflow.industry.clone();
                list.push(workflow);
                assert(workflow_views(list@) =~= Seq::<IndustryWorkflowView>::empty().push(
                    workflow@,
                ));
                self.industry_workflows.insert(industry, list);
            },
        }
    }

    /// The lines for the workflows of `industry` whose name stands in the
    /// query.
    fn lines_for(&self, industry: &str, query_lower: &str) -> (r: Vec<String>)
        ensures
            views_of(r@) == matching_lines(
                workflows_in(self.workflows(), industry@),
                query_lower@,
                workflows_in(self.workflows(), industry@).len() as int,
            ),
    {
        let mut r: Vec<String> = Vec::new();
        assert(views_of(r@) =~= Seq::<Seq<char>>::empty());
        match self.industry_workflows.get(industry) {
            Some(list) => {
                let ghost all = workflow_views(list@);
                let mut i: usize = 0;
                while i < list.len()
                    invariant
                        i <= list.len(),
                        all == workflow_views(list@),
                        views_of(r@) == matching_lines(all, query_lower@, i as int),
                    decreases list.len() - i,
                {
                    let workflow = &list[i];
                    assert(all[i as int] == workflow@);
                    let name = lowercase(workflow.workflow_name.as_str());
                    if contains(query_lower, name.as_str()) {
                        let a = join2("Industry workflow: ", workflow.workflow_name.as_str());
                        let b = join2(a.as_str(), " - ");
                        let line = join2(b.as_str(), join(&workflow.steps, " → ").as_str());
                        let ghost before = views_of(r@);
                        r.push(line);
                        assert(views_of(r@) =~= before.push(workflow_line(workflow@)));
                    }
                    i += 1;
                }
            },
            None => {},
        }
        r
    }

    /// What a search gives to `user_id`: the texts of the chunks found, then a
    /// line for each workflow of the industries that the user prefers whose
    /// name stands in the query, and of all that no more than `limit`.
    pub fn personalized_search(&self, user_id: &str, query: &str, limit: usize) -> (r: Vec<String>)
        ensures
            exists|found: Seq<DocumentChunkView>|
                {
                    &&& #[trigger] is_search_result(self.chunks(), query@, limit as int, found)
                    &&& views_of(r@) == first_of(
                        contents_of(found) + industry_lines(
                            self.workflows(),
                            preferences_in(self.preferences(), user_id@),
                            lowercase_text(query@),
                            preferences_in(self.preferences(), user_id@).len() as int,
                        ),
                        limit as int,
                    )
                },
    {
        let found = self.base_index.search(query, limit);
        let ghost base = found_views(found@);
        let mut results: Vec<String> = Vec::new();
        let mut i: usize = 0;
        assert(views_of(results@) =~= contents_of(base).subrange(0, 0));
        while i < found.len()
            invariant
                i <= found.len(),
                base == found_views(found@),
                views_of(results@) == contents_of(base).subrange(0, i as int),
            decreases found.len() - i,
        {
            let ghost before = views_of(results@);
            results.push(found[i].content.clone());
            assert(views_of(results@) =~= before.push(base[i as int].content));
            assert(contents_of(base).subrange(0, i + 1) =~= contents_of(base).subrange(
                0,
                i as int,
            ).push(contents_of(base)[i as int]));
            i += 1;
        }
        assert(contents_of(base).subrange(0, found@.len() as int) =~= contents_of(base));
        let query_lower = lowercase(query);
        let ghost industries = preferences_in(self.preferences(), user_id@);
        match self.user_preferences.get(user_id) {
            Some(preferred) => {
                let mut p: usize = 0;
                assert(industry_lines(self.workflows(), industries, query_lower@, 0)
                    =~= Seq::<Seq<char>>::empty());
                assert(views_of(results@) =~= contents_of(base) + industry_lines(
                    self.workflows(),
                    industries,
                    query_lower@,
                    0,
                ));
                while p < preferred.len()
                    invariant
                        p <= preferred.len(),
                        industries == views_of(preferred@),
                        views_of(results@) == contents_of(base) + industry_lines(
                            self.workflows(),
                            industries,
                            query_lower@,
                            p as int,
                        ),
                    decreases preferred.len() - p,
                {
                    let lines = self.lines_for(preferred[p].as_str(), query_lower.as_str());
                    let ghost before = views_of(results@);
                    let mut l: usize = 0;
                    while l < lines.len()
                        invariant
                            l <= lines.len(),
                            views_of(results@) == before + views_of(lines@).subrange(0, l as int),
                        decreases lines.len() - l,
                    {
                        let ghost sofar = views_of(results@);
                        results.push(lines[l].clone());
                        assert(views_of(results@) =~= sofar.push(views_of(lines@)[l as int]));
                        assert(views_of(lines@).subrange(0, l + 1) =~= views_of(lines@).subrange(
                            0,
                            l as int,
                        ).push(views_of(lines@)[l as int]));
                        l += 1;
                    }
                    assert(views_of(lines@).subrange(0, lines@.len() as int) =~= views_of(lines@));
                    assert(before + views_of(lines@) =~= contents_of(base) + industry_lines(
                        self.workflows(),
                        industries,
                        query_lower@,
                        p + 1,
                    ));
                    p += 1;
                }
            },
            None => {
                assert(industry_lines(self.workflows(), industries, query_lower@, 0)
                    =~= Seq::<Seq<char>>::empty());
                assert(views_of(results@) =~= contents_of(base) + industry_lines(
                    self.workflows(),
                    industries,
                    query_lower@,
                    0,
                ));
            },
        }
        let ghost all = views_of(results@);
        assert(all == contents_of(base) + industry_lines(
            self.workflows(),
            industries,
            query_lower@,
            industries.len() as int,
        ));
        if results.len() > limit {
            results.truncate(limit);
            assert(views_of(results@) =~= first_of(all, limit as int));
        } else {
            assert(views_of(results@) =~= first_of(all, limit as int));
        }
        assert(is_search_result(self.chunks(), query@, limit as int, base));
        results
    }

    /// Notes the industries that `user_id` prefers, in place of those noted
    /// before.
    pub fn set_user_preferences(&mut self, user_id: String, industries: Vec<String>)
        ensures
            final(self).preferences() == old(self).preferences().insert(user_id@, industries),
            final(self).workflows() == old(self).workflows(),
            final(self).industry_total() == old(self).industry_total(),
            final(self).chunks() == old(self).chunks(),
    {
        self.user_preferences.insert(user_id, industries);
    }

    /// The workflows of `industry`, in the order in which they were added.
    pub fn get_industry_workflows(&self, industry: &str) -> (r: Vec<&IndustryWorkflow>)
        ensures
            r@.len() == workflows_in(self.workflows(), industry@).len(),
            forall|i: int|
                0 <= i < r@.len() ==> (#[trigger] r@[i])@ == workflows_in(
                    self.workflows(),
                    industry@,
                )[i],
    {
        let mut r: Vec<&IndustryWorkflow> = Vec::new();
        match self.industry_workflows.get(industry) {
            Some(list) => {
                let mut i: usize = 0;
                while i < list.len()
                    invariant
                        i <= list.len(),
                        r@.len() == i,
                        forall|j: int| 0 <= j < i ==> *(#[trigger] r@[j]) == list@[j],
                    decreases list.len() - i,
                {
                    r.push(&list[i]);
                    i += 1;
                }
            },
            None => {},
        }
        r
    }
}

impl Default for ExpandedRAGIndex {
    fn default() -> (r: Self)
        ensures
            r.chunks() == Seq::<DocumentChunkView>::empty(),
            r.workflows() == Map::<Seq<char>, Vec<IndustryWorkflow>>::empty(),
            r.industry_total() == 0,
            r.preferences() == Map::<Seq<char>, Vec<String>>::empty(),
    {
        ExpandedRAGIndex::new()
    }
}

} // verus!
