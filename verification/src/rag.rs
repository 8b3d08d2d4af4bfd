//! The index of documents: chunks of text, found again by their source or by
//! the words they share with a query.

use vstd::prelude::*;
use crate::models::{is_ranking, ranking_of};
use crate::strmap::{clone_text_map, views_of, StrMap};
use crate::text::{
    contains, contains_text, decimal_count, decimal_text, join2, lossy, lossy_text, lowercase,
    lowercase_text, words, words_of,
};

verus! {

/// The bytes of one chunk of a document.
pub const CHUNK_BYTES: usize = 500;

/// The numbers of an embedding.
pub const EMBEDDING_SIZE: usize = 128;

/// A piece of a document. The embedding holds fixed-point numbers.
#[derive(Debug)]
pub struct DocumentChunk {
    pub id: String,
    pub content: String,
    pub source: String,
    pub embedding: Vec<i64>,
    pub metadata: StrMap<String>,
}

/// What a chunk holds.
pub struct DocumentChunkView {
    pub id: Seq<char>,
    pub content: Seq<char>,
    pub source: Seq<char>,
    pub embedding: Seq<i64>,
    pub metadata: Map<Seq<char>, String>,
}

impl View for DocumentChunk {
    type V = DocumentChunkView;

    open spec fn view(&self) -> DocumentChunkView {
        DocumentChunkView {
            id: self.id@,
            content: self.content@,
            source: self.source@,
            embedding: self.embedding@,
            metadata: self.metadata@,
        }
    }
}

impl Clone for DocumentChunk {
    fn clone(&self) -> (r: Self)
        ensures
            r@ == self@,
    {
        let mut embedding: Vec<i64> = Vec::new();
        let mut i: usize = 0;
        while i < self.embedding.len()
            invariant
                i <= self.embedding.len(),
                embedding@ == self.embedding@.subrange(0, i as int),
            decreases self.embedding.len() - i,
        {
            embedding.push(self.embedding[i]);
            i += 1;
        }
        assert(self.embedding@.subrange(0, self.embedding@.len() as int) == self.embedding@);
        DocumentChunk {
            id: self.id.clone(),
            content: self.content.clone(),
            source: self.source.clone(),
            embedding,
            metadata: clone_text_map(&self.metadata),
        }
    }
}

/// What each chunk in `chunks` holds.
pub open spec fn chunk_views(chunks: Seq<DocumentChunk>) -> Seq<DocumentChunkView> {
    Seq::new(chunks.len(), |i: int| chunks[i]@)
}

/// The places among the first `n` chunks whose chunk comes from `source`, in
/// rising order.
pub open spec fn places_of(chunks: Seq<DocumentChunkView>, source: Seq<char>, n: int) -> Seq<usize>
    decreases n,
{
    if n <= 0 {
        Seq::empty()
    } else if chunks[n - 1].source == source {
        places_of(chunks, source, n - 1).push((n - 1) as usize)
    } else {
        places_of(chunks, source, n - 1)
    }
}

/// How many of the first `n` words stand somewhere in `query`.
pub open spec fn words_found(list: Seq<Seq<char>>, query: Seq<char>, n: int) -> int
    decreases n,
{
    if n <= 0 {
        0
    } else {
        words_found(list, query, n - 1) + if contains_text(query, list[n - 1]) {
            1int
        } else {
            0int
        }
    }
}

/// How well a text matches a query: the number of words of the text, in lower
/// case, that stand somewhere in the query, in lower case.
pub open spec fn match_score(content: Seq<char>, query: Seq<char>) -> int {
    let list = words_of(lowercase_text(content));
    words_found(list, lowercase_text(query), list.len() as int)
}

/// A score as a number that can be ranked.
pub open spec fn rankable(score: int) -> i64 {
    if score > i64::MAX {
        i64::MAX
    } else {
        score as i64
    }
}

/// The score of each chunk for a query.
pub open spec fn scores_for(chunks: Seq<DocumentChunkView>, query: Seq<char>) -> Seq<i64> {
    Seq::new(chunks.len(), |i: int| rankable(match_score(chunks[i].content, query)))
}

/// How many of the first `n` scores are above zero.
pub open spec fn positive_upto(scores: Seq<i64>, n: int) -> int
    decreases n,
{
    if n <= 0 {
        0
    } else {
        positive_upto(scores, n - 1) + if scores[n - 1] > 0 {
            1int
        } else {
            0int
        }
    }
}

/// What each chunk that was found holds.
pub open spec fn found_views(found: Seq<&DocumentChunk>) -> Seq<DocumentChunkView> {
    Seq::new(found.len(), |i: int| found[i]@)
}

/// Whether `result` holds the chunks at the first places of `order`.
pub open spec fn picks_by(
    chunks: Seq<DocumentChunkView>,
    order: Seq<usize>,
    result: Seq<DocumentChunkView>,
) -> bool {
    forall|i: int| 0 <= i < result.len() ==> #[trigger] result[i] == chunks[order[i] as int]
}

/// Whether `result` is what a search for `query` among `chunks` gives: the
/// chunks that share a word with the query, the best match first, chunks that
/// match equally well in the order in which they were added, and no more than
/// `limit` of them.
pub open spec fn is_search_result(
    chunks: Seq<DocumentChunkView>,
    query: Seq<char>,
    limit: int,
    result: Seq<DocumentChunkView>,
) -> bool {
    let scores = scores_for(chunks, query);
    let positive = positive_upto(scores, chunks.len() as int);
    &&& result.len() == if limit <= positive {
        limit
    } else {
        positive
    }
    &&& exists|order: Seq<usize>| is_ranking(order, scores) && #[trigger] picks_by(chunks, order, result)
}

/// The chunk made of the piece with the number `number` of a document.
pub open spec fn loaded_chunk(source: Seq<char>, number: int, piece: Seq<u8>) -> DocumentChunkView {
    DocumentChunkView {
        id: source + "_"@ + decimal_text(number),
        content: lossy_text(piece),
        source,
        embedding: Seq::new(EMBEDDING_SIZE as nat, |i: int| 0i64),
        metadata: Map::empty(),
    }
}

/// The chunks after the first `count` pieces of a document were loaded behind
/// `before`: each piece has five hundred bytes, but for the last.
pub open spec fn loaded(
    before: Seq<DocumentChunkView>,
    source: Seq<char>,
    bytes: Seq<u8>,
    count: int,
) -> Seq<DocumentChunkView>
    decreases count,
{
    if count <= 0 {
        before
    } else {
        let start = (count - 1) * CHUNK_BYTES;
        let end = if start + CHUNK_BYTES < bytes.len() {
            start + CHUNK_BYTES
        } else {
            bytes.len() as int
        };
        loaded(before, source, bytes, count - 1).push(
            loaded_chunk(source, count - 1, bytes.subrange(start, end)),
        )
    }
}

/// How many pieces of five hundred bytes a document of `len` bytes has.
pub open spec fn piece_count(len: int) -> int {
    (len + CHUNK_BYTES - 1) / (CHUNK_BYTES as int)
}

/// The places listed under `source`; none where the source is unknown.
pub open spec fn places_in(index: Map<Seq<char>, Vec<usize>>, source: Seq<char>) -> Seq<usize> {
    if index.contains_key(source) {
        index[source]@
    } else {
        Seq::empty()
    }
}

/// How many of `list` stand somewhere in `query`.
pub fn count_found(list: &Vec<String>, query: &str) -> (r: usize)
    ensures
        r == words_found(views_of(list@), query@, list@.len() as int),
{
    let mut found: usize = 0;
    let mut i: usize = 0;
    while i < list.len()
        invariant
            i <= list.len(),
            found == words_found(views_of(list@), query@, i as int),
            found <= i,
        decreases list.len() - i,
    {
        if contains(query, list[i].as_str()) {
            found += 1;
        }
        i += 1;
    }
    found
}

/// How well `content` matches a query given in lower case.
pub fn score_against(content: &str, query_lower: &str) -> (r: usize)
    ensures
        r == words_found(
            words_of(lowercase_text(content@)),
            query_lower@,
            words_of(lowercase_text(content@)).len() as int,
        ),
{
    let lowered = lowercase(content);
    let list = words(lowered.as_str());
    count_found(&list, query_lower)
}

/// Chunks of documents, with the places of each source's chunks.
pub struct RAGIndex {
    chunks: Vec<DocumentChunk>,
    source_index: StrMap<Vec<usize>>,
}

impl View for RAGIndex {
    type V = Seq<DocumentChunkView>;

    closed spec fn view(&self) -> Seq<DocumentChunkView> {
        chunk_views(self.chunks@)
    }
}

impl RAGIndex {
    /// The places listed under `source`.
    pub closed spec fn listed(&self, source: Seq<char>) -> Seq<usize> {
        places_in(self.source_index@, source)
    }

    /// Under each source stand the places of its chunks, and no others.
    #[verifier::type_invariant]
    pub open spec fn wf(self) -> bool {
        forall|source: Seq<char>| #[trigger]
            self.listed(source) == places_of(self@, source, self@.len() as int)
    }

    /// An index without chunks, in which no source has a place.
    pub fn new() -> (r: Self)
        ensures
            r@ == Seq::<DocumentChunkView>::empty(),
            forall|source: Seq<char>| r.listed(source) == Seq::<usize>::empty(),
    {
        let r = RAGIndex { chunks: Vec::new(), source_index: StrMap::new() };
        assert(r@ =~= Seq::<DocumentChunkView>::empty());
        r
    }

    /// How many chunks there are.
    pub fn chunk_count(&self) -> (n: usize)
        ensures
            n == self@.len(),
    {
        self.chunks.len()
    }

    fn with_chunk(self, chunk: DocumentChunk) -> (r: Self)
        ensures
            r@ == self@.push(chunk@),
    {
        proof {
            use_type_invariant(&self);
        }
        let ghost before = self@;
        let ghost me = self;
        let RAGIndex { chunks, source_index } = self;
        let mut chunks = chunks;
        let mut source_index = source_index;
        let idx = chunks.len();
        chunks.push(chunk.clone());
        assert(chunk_views(chunks@) =~= before.push(chunk@));
        match source_index.position(chunk.source.as_str()) {
            Some(at) => {
                let mut places = source_index.replace_at(at, Vec::new());
                places.push(idx);
                source_index.replace_at(at, places);
            },
            None => {
                let mut places: Vec<usize> = Vec::new();
                places.push(idx);
                assert(places@ =~= Seq::<usize>::empty().push(idx));
                source_index.insert(chunk.source.clone(), places);
            },
        }
        proof {
            let after = chunk_views(chunks@);
            assert forall|source: Seq<char>| #[trigger]
                places_in(source_index@, source) == places_of(
                    after,
                    source,
                    after.len() as int,
                ) by {
                assert(me.listed(source) == places_of(before, source, before.len() as int));
                lemma_places_of_prefix(before, after, source, before.len() as int);
            }
        }
        RAGIndex { chunks, source_index }
    }

    /// Adds `chunk` behind the others and lists its place under its source.
    pub fn index_chunk(&mut self, chunk: DocumentChunk)
        ensures
            final(self)@ == old(self)@.push(chunk@),
    {
        let mut taken = RAGIndex::new();
        core::mem::swap(self, &mut taken);
        *self = taken.with_chunk(chunk);
    }

    /// The chunks that share a word with `query`, the best match first and at
    /// most `limit` of them. Chunks that match equally well stay in the order
    /// in which they were added.
    pub fn search(&self, query: &str, limit: usize) -> (r: Vec<&DocumentChunk>)
        ensures
            is_search_result(self@, query@, limit as int, found_views(r@)),
            r@.len() == found_views(r@).len(),
    {
        let query_lower = lowercase(query);
        let mut scores: Vec<i64> = Vec::new();
        let mut positive: usize = 0;
        let mut i: usize = 0;
        while i < self.chunks.len()
            invariant
                i <= self.chunks.len(),
                query_lower@ == lowercase_text(query@),
                scores@.len() == i,
                forall|j: int| 0 <= j < i ==> #[trigger] scores@[j] == scores_for(self@, query@)[j],
                positive == positive_upto(scores_for(self@, query@), i as int),
                positive <= i,
            decreases self.chunks.len() - i,
        {
            assert(self@[i as int] == self.chunks@[i as int]@);
            let found = score_against(self.chunks[i].content.as_str(), query_lower.as_str());
            let score: i64 = if found as u64 > i64::MAX as u64 {
                i64::MAX
            } else {
                found as i64
            };
            scores.push(score);
            if score > 0 {
                positive += 1;
            }
            i += 1;
        }
        assert(scores@ =~= scores_for(self@, query@));
        let order = ranking_of(&scores);
        let wanted = if limit <= positive {
            limit
        } else {
            positive
        };
        let mut r: Vec<&DocumentChunk> = Vec::new();
        let mut k: usize = 0;
        while k < wanted
            invariant
                k <= wanted,
                wanted <= self.chunks.len(),
                is_ranking(order@, scores@),
                scores@.len() == self.chunks.len(),
                r@.len() == k,
                forall|j: int| 0 <= j < k ==> (#[trigger] r@[j])@ == self@[order@[j] as int],
            decreases wanted - k,
        {
            let at = order[k];
            assert(self@[at as int] == self.chunks@[at as int]@);
            r.push(&self.chunks[at]);
            k += 1;
        }
        proof {
            let result = found_views(r@);
            assert forall|i: int| 0 <= i < result.len() implies #[trigger] result[i] == self@[order@[i] as int] by {
                assert(result[i] == r@[i]@);
            }
            assert(picks_by(self@, order@, result));
        }
        r
    }

    /// The chunks that come from `source`, in the order in which they were
    /// added.
    pub fn get_by_source(&self, source: &str) -> (r: Vec<&DocumentChunk>)
        ensures
            r@.len() == places_of(self@, source@, self@.len() as int).len(),
            forall|i: int|
                0 <= i < r@.len() ==> (#[trigger] r@[i])@ == self@[places_of(
                    self@,
                    source@,
                    self@.len() as int,
                )[i] as int],
            forall|i: int| 0 <= i < r@.len() ==> (#[trigger] r@[i])@.source == source@,
    {
        let total = self.chunks.len();
        proof {
            use_type_invariant(self);
            assert(self@.len() == total);
            lemma_places_are_places(self@, source@, self@.len() as int);
        }
        let mut r: Vec<&DocumentChunk> = Vec::new();
        match self.source_index.get(source) {
            Some(places) => {
                assert(places@ == self.listed(source@));
                let mut i: usize = 0;
                while i < places.len()
                    invariant
                        i <= places.len(),
                        places@ == places_of(self@, source@, self@.len() as int),
                        forall|j: int|
                            0 <= j < places@.len() ==> (#[trigger] places@[j]) < self@.len()
                                && self@[places@[j] as int].source == source@,
                        self@.len() == self.chunks@.len(),
                        r@.len() == i,
                        forall|j: int| 0 <= j < i ==> (#[trigger] r@[j])@ == self@[places@[j] as int],
                    decreases places.len() - i,
                {
                    let at = places[i];
                    assert(self@[at as int] == self.chunks@[at as int]@);
                    r.push(&self.chunks[at]);
                    i += 1;
                }
            },
            None => {
                assert(self.listed(source@) =~= Seq::<usize>::empty());
            },
        }
        r
    }

    /// Cuts `content` into pieces of five hundred bytes and adds each as a
    /// chunk of `source`. Where a piece ends within a character, what is cut
    /// through is replaced.
    pub fn load_documentation(&mut self, source: &str, content: &str)
        ensures
            final(self)@ == loaded(
                old(self)@,
                source@,
                vstd::utf8::encode_utf8(content@),
                piece_count(vstd::utf8::encode_utf8(content@).len() as int),
            ),
    {
        let bytes = content.as_bytes();
        let ghost all = vstd::utf8::encode_utf8(content@);
        let mut start: usize = 0;
        let mut number: usize = 0;
        while start < bytes.len()
            invariant
                bytes@ == all,
                start <= bytes.len(),
                start == if number * CHUNK_BYTES < all.len() {
                    number * CHUNK_BYTES
                } else {
                    all.len() as int
                },
                number == 0 || (number - 1) * CHUNK_BYTES < all.len(),
                self@ == loaded(old(self)@, source@, all, number as int),
            decreases bytes.len() - start,
        {
            let end: usize = if bytes.len() - start > CHUNK_BYTES {
                start + CHUNK_BYTES
            } else {
                bytes.len()
            };
            let piece = vstd::slice::slice_subrange(bytes, start, end);
            let head = join2(source, "_");
            let mut embedding: Vec<i64> = Vec::new();
            let mut e: usize = 0;
            while e < EMBEDDING_SIZE
                invariant
                    e <= EMBEDDING_SIZE,
                    embedding@ == Seq::new(e as nat, |i: int| 0i64),
                decreases EMBEDDING_SIZE - e,
            {
                embedding.push(0);
                assert(embedding@ =~= Seq::new((e + 1) as nat, |i: int| 0i64));
                e += 1;
            }
            let chunk = DocumentChunk {
                id: join2(head.as_str(), decimal_count(number).as_str()),
                content: lossy(piece),
                source: source.to_string(),
                embedding,
                metadata: StrMap::new(),
            };
            self.index_chunk(chunk);
            assert((number + 1) * CHUNK_BYTES == number * CHUNK_BYTES + CHUNK_BYTES) by (nonlinear_arith);
            assert(number < usize::MAX) by {
                assert(number * CHUNK_BYTES >= number) by (nonlinear_arith)
                    requires
                        number >= 0,
                ;
            }
            start = end;
            number += 1;
        }
        proof {
            if number > 0 {
                lemma_piece_count(all.len() as int, number - 1);
            }
            lemma_piece_count(all.len() as int, number as int);
        }
    }
}

/// A document of `len` bytes has a piece with the number `number` exactly
/// where that piece begins within the document.
pub proof fn lemma_piece_count(len: int, number: int)
    requires
        len >= 0,
        number >= 0,
    ensures
        number * CHUNK_BYTES < len <==> number < piece_count(len),
{
    let x = len + CHUNK_BYTES - 1;
    vstd::arithmetic::div_mod::lemma_fundamental_div_mod(x, CHUNK_BYTES as int);
    let q = x / (CHUNK_BYTES as int);
    let r = x % (CHUNK_BYTES as int);
    if number < q {
        assert(number * CHUNK_BYTES <= (q - 1) * CHUNK_BYTES) by (nonlinear_arith)
            requires
                number <= q - 1,
        ;
    } else {
        assert(number * CHUNK_BYTES >= q * CHUNK_BYTES) by (nonlinear_arith)
            requires
                number >= q,
        ;
    }
}

/// The places of a source among chunks are places of chunks of that source.
pub proof fn lemma_places_are_places(chunks: Seq<DocumentChunkView>, source: Seq<char>, n: int)
    requires
        0 <= n <= chunks.len(),
        n <= usize::MAX,
    ensures
        forall|j: int|
            0 <= j < places_of(chunks, source, n).len() ==> (#[trigger] places_of(
                chunks,
                source,
                n,
            )[j]) < n && chunks[places_of(chunks, source, n)[j] as int].source == source,
    decreases n,
{
    if n > 0 {
        lemma_places_are_places(chunks, source, n - 1);
        let earlier = places_of(chunks, source, n - 1);
        let now = places_of(chunks, source, n);
        assert forall|j: int| 0 <= j < now.len() implies (#[trigger] now[j]) < n && chunks[now[j] as int].source
            == source by {
            if j < earlier.len() {
                assert(now[j] == earlier[j]);
            }
        }
    }
}

/// The places among the first chunks stay what they are when chunks are added
/// behind.
pub proof fn lemma_places_of_prefix(
    shorter: Seq<DocumentChunkView>,
    longer: Seq<DocumentChunkView>,
    source: Seq<char>,
    n: int,
)
    requires
        n <= shorter.len() <= longer.len(),
        forall|i: int| 0 <= i < shorter.len() ==> shorter[i] == longer[i],
    ensures
        places_of(shorter, source, n) == places_of(longer, source, n),
    decreases n,
{
    if n > 0 {
        lemma_places_of_prefix(shorter, longer, source, n - 1);
    }
}

impl Default for RAGIndex {
    fn default() -> (r: Self)
        ensures
            r@ == Seq::<DocumentChunkView>::empty(),
            forall|source: Seq<char>| r.listed(source) == Seq::<usize>::empty(),
    {
        RAGIndex::new()
    }
}

} // verus!
