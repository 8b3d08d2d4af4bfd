//! The loop that keeps knowledge growing: research is taken in, and further
//! intake is scheduled.

use vstd::prelude::*;
use crate::rag::{found_views, is_search_result, loaded, piece_count, DocumentChunkView};
use crate::rag_expanded::{contents_of, ExpandedRAGIndex, IndustryWorkflow};
use crate::strmap::{views_of, StrMap};
use crate::text::{decimal, decimal_text, join2};

verus! {

/// A piece of research.
#[derive(Clone, Debug)]
pub struct ResearchDocument {
    pub id: String,
    pub title: String,
    pub content: String,
    pub source: String,
    pub published_at: i64,
    pub tags: Vec<String>,
}

/// Figures on what was taken in and what is scheduled.
#[derive(Clone, Copy, Debug, PartialEq, Eq, Structural)]
pub struct KnowledgeStatistics {
    pub total_documents: usize,
    pub scheduled_ingestions: usize,
}

/// Those of the first `n` times that lie after `now`, in their order.
pub open spec fn still_due(schedule: Seq<i64>, now: i64, n: int) -> Seq<i64>
    decreases n,
{
    if n <= 0 {
        Seq::empty()
    } else if schedule[n - 1] > now {
        still_due(schedule, now, n - 1).push(schedule[n - 1])
    } else {
        still_due(schedule, now, n - 1)
    }
}

/// The notes on those of the first `n` times that do not lie after `now`, in
/// their order.
pub open spec fn processed_notes(schedule: Seq<i64>, now: i64, n: int) -> Seq<Seq<char>>
    decreases n,
{
    if n <= 0 {
        Seq::empty()
    } else if schedule[n - 1] <= now {
        processed_notes(schedule, now, n - 1).push(
            "Processing scheduled ingestion at "@ + decimal_text(schedule[n - 1] as int),
        )
    } else {
        processed_notes(schedule, now, n - 1)
    }
}

/// Takes research in and keeps the schedule.
pub struct KnowledgeExpansionLoop {
    rag_index: ExpandedRAGIndex,
    ingested_documents: StrMap<ResearchDocument>,
    ingestion_schedule: Vec<i64>,
}

impl KnowledgeExpansionLoop {
    /// The index that the loop fills.
    pub closed spec fn index(&self) -> ExpandedRAGIndex {
        self.rag_index
    }

    /// The chunks of what was taken in.
    pub open spec fn chunks(&self) -> Seq<DocumentChunkView> {
        self.index().chunks()
    }

    /// The documents by id.
    pub closed spec fn documents(&self) -> Map<Seq<char>, ResearchDocument> {
        self.ingested_documents@
    }

    /// The number of documents.
    pub closed spec fn document_total(&self) -> nat {
        self.ingested_documents.keys().len()
    }

    /// The times at which intake is scheduled, in the order in which they
    /// were given.
    pub closed spec fn schedule(&self) -> Seq<i64> {
        self.ingestion_schedule@
    }

    /// A loop that has taken in nothing and has nothing scheduled. Its index
    /// holds no document, no workflow and no preference.
    pub fn new() -> (r: Self)
        ensures
            r.chunks() == Seq::<DocumentChunkView>::empty(),
            r.index().workflows() == Map::<Seq<char>, Vec<IndustryWorkflow>>::empty(),
            r.index().industry_total() == 0,
            r.index().preferences() == Map::<Seq<char>, Vec<String>>::empty(),
            r.documents() == Map::<Seq<char>, ResearchDocument>::empty(),
            r.document_total() == 0,
            r.schedule() == Seq::<i64>::empty(),
    {
        KnowledgeExpansionLoop {
            rag_index: ExpandedRAGIndex::new(),
            ingested_documents: StrMap::new(),
            ingestion_schedule: Vec::new(),
        }
    }

    /// Cuts the content of `document` into chunks under its source, and keeps
    /// the document under its id, in place of the one that was there, if any.
    pub fn ingest_research(&mut self, document: ResearchDocument)
        ensures
            final(self).chunks() == loaded(
                old(self).chunks(),
                document.source@,
                vstd::utf8::encode_utf8(document.content@),
                piece_count(vstd::utf8::encode_utf8(document.content@).len() as int),
            ),
            final(self).documents() == old(self).documents().insert(document.id@, document),
            final(self).document_total() == if old(self).documents().contains_key(document.id@) {
                old(self).document_total()
            } else {
                old(self).document_total() + 1
            },
            final(self).schedule() == old(self).schedule(),
            final(self).index().workflows() == old(self).index().workflows(),
            final(self).index().industry_total() == old(self).index().industry_total(),
            final(self).index().preferences() == old(self).index().preferences(),
    {
        self.rag_index.load_documentation(document.source.as_str(), document.content.as_str());
        self.ingested_documents.insert(document.id.clone(), document);
    }

    /// Schedules intake at `timestamp`.
    pub fn schedule_ingestion(&mut self, timestamp: i64)
        ensures
            final(self).schedule() == old(self).schedule().push(timestamp),
            final(self).index() == old(self).index(),
            final(self).chunks() == old(self).chunks(),
            final(self).documents() == old(self).documents(),
            final(self).document_total() == old(self).document_total(),
    {
        self.ingestion_schedule.push(timestamp);
    }

    /// Takes off the schedule every time that does not lie after
    /// `current_time`, and returns a note on each, in the order of the
    /// schedule.
    pub fn process_scheduled(&mut self, current_time: i64) -> (r: Vec<String>)
        ensures
            views_of(r@) == processed_notes(
                old(self).schedule(),
                current_time,
                old(self).schedule().len() as int,
            ),
            final(self).schedule() == still_due(
                old(self).schedule(),
                current_time,
                old(self).schedule().len() as int,
            ),
            final(self).index() == old(self).index(),
            final(self).chunks() == old(self).chunks(),
            final(self).documents() == old(self).documents(),
            final(self).document_total() == old(self).document_total(),
    {
        let mut processed: Vec<String> = Vec::new();
        let mut kept: Vec<i64> = Vec::new();
        let mut i: usize = 0;
        assert(views_of(processed@) =~= Seq::<Seq<char>>::empty());
        while i < self.ingestion_schedule.len()
            invariant
                i <= self.ingestion_schedule.len(),
                self.ingestion_schedule == old(self).ingestion_schedule,
                self.rag_index == old(self).rag_index,
                self.ingested_documents == old(self).ingested_documents,
                views_of(processed@) == processed_notes(self.schedule(), current_time, i as int),
                kept@ == still_due(self.schedule(), current_time, i as int),
            decreases self.ingestion_schedule.len() - i,
        {
            let scheduled_time = self.ingestion_schedule[i];
            if scheduled_time <= current_time {
                let ghost before = views_of(processed@);
                let note = join2(
                    "Processing scheduled ingestion at ",
                    decimal(scheduled_time).as_str(),
                );
                processed.push(note);
                assert(views_of(processed@) =~= before.push(note@));
            } else {
                kept.push(scheduled_time);
            }
            i += 1;
        }
        self.ingestion_schedule = kept;
        processed
    }

    /// The texts of the chunks that a search for `query` finds, at most
    /// `limit` of them.
    pub fn search_knowledge(&self, query: &str, limit: usize) -> (r: Vec<String>)
        ensures
            exists|found: Seq<DocumentChunkView>|
                {
                    &&& #[trigger] is_search_result(self.chunks(), query@, limit as int, found)
                    &&& views_of(r@) == contents_of(found)
                },
    {
        let found = self.rag_index.base_index().search(query, limit);
        let ghost base = found_views(found@);
        let mut r: Vec<String> = Vec::new();
        let mut i: usize = 0;
        assert(views_of(r@) =~= contents_of(base).subrange(0, 0));
        while i < found.len()
            invariant
                i <= found.len(),
                base == found_views(found@),
                views_of(r@) == contents_of(base).subrange(0, i as int),
            decreases found.len() - i,
        {
            let ghost before = views_of(r@);
            r.push(found[i].content.clone());
            assert(views_of(r@) =~= before.push(base[i as int].content));
            assert(contents_of(base).subrange(0, i + 1) =~= contents_of(base).subrange(
                0,
                i as int,
            ).push(contents_of(base)[i as int]));
            i += 1;
        }
        assert(contents_of(base).subrange(0, found@.len() as int) =~= contents_of(base));
        assert(is_search_result(self.chunks(), query@, limit as int, base));
        r
    }

    /// How many documents were taken in and how many intakes are scheduled.
    pub fn get_statistics(&self) -> (r: KnowledgeStatistics)
        ensures
            r.total_documents == self.document_total(),
            r.scheduled_ingestions == self.schedule().len(),
    {
        KnowledgeStatistics {
            total_documents: self.ingested_documents.len(),
            scheduled_ingestions: self.ingestion_schedule.len(),
        }
    }
}

impl Default for KnowledgeExpansionLoop {
    fn default() -> (r: Self)
        ensures
            r.chunks() == Seq::<DocumentChunkView>::empty(),
            r.index().workflows() == Map::<Seq<char>, Vec<IndustryWorkflow>>::empty(),
            r.index().industry_total() == 0,
            r.index().preferences() == Map::<Seq<char>, Vec<String>>::empty(),
            r.documents() == Map::<Seq<char>, ResearchDocument>::empty(),
            r.document_total() == 0,
            r.schedule() == Seq::<i64>::empty(),
    {
        KnowledgeExpansionLoop::new()
    }
}

} // verus!
