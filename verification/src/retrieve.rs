//! Retrieval orchestration: embed the query text, then run the similarity
//! query and rank its candidates.
//!
//! The steps that leave the process (the embedding call, the store scan) are
//! the caller's; this state machine fixes every decision between them. When a
//! context text is given it replaces the question for the embedding step
//! only: the question itself stays available for answer composition. A
//! failed embedding step is terminal — the machine never offers a store
//! query after it, so no similarity query is performed.

use vstd::prelude::*;
use crate::embedding::{EmbedError, EmbeddingRequest, single_request};
use crate::ranker::{rank_matches, spec_above, spec_ranked, SimilarityMatch};

verus! {

/// Where a retrieval stands.
#[derive(Clone, Copy, Debug, PartialEq, Eq, Structural)]
pub enum RetrievalState {
    /// The query text still has to be embedded.
    NeedEmbedding,
    /// The query vector is here; the store can be scanned.
    ReadyToQuery,
    /// The embedding step failed; the retrieval is over.
    Failed,
    /// The ranked matches have been handed out.
    Done,
}

/// One retrieval run: from query text to ranked similarity matches.
pub struct Retrieval {
    query: String,
    embed_text: String,
    threshold: i64,
    state: RetrievalState,
    vector: Vec<u32>,
    error: Option<EmbedError>,
}

impl Retrieval {
    /// The question as asked, used for answer composition.
    pub closed spec fn query(&self) -> Seq<char> {
        self.query@
    }

    /// The text the embedding step runs on: the context when one was given,
    /// else the question.
    pub closed spec fn embed_text(&self) -> Seq<char> {
        self.embed_text@
    }

    /// The relevance threshold, on the millionths score scale.
    pub closed spec fn threshold(&self) -> int {
        self.threshold as int
    }

    pub closed spec fn state(&self) -> RetrievalState {
        self.state
    }

    /// The query vector, once the embedding step has delivered it.
    pub closed spec fn vector(&self) -> Seq<u32> {
        self.vector@
    }

    /// The embedding failure, once one has happened.
    pub closed spec fn error(&self) -> Option<EmbedError> {
        self.error
    }

    /// Whether the machine offers a similarity query in its present state.
    pub open spec fn offers_query(&self) -> bool {
        self.state() == RetrievalState::ReadyToQuery
    }

    /// Starts a retrieval for `query`, embedding `context` in its place when
    /// one is given.
    pub fn new(query: String, context: Option<String>, threshold: i64) -> (r: Retrieval)
        ensures
            r.query() == query@,
            r.embed_text() == match context {
                Some(c) => c@,
                None => query@,
            },
            r.threshold() == threshold,
            r.state() == RetrievalState::NeedEmbedding,
    {
        let embed_text = match context {
            Some(c) => c,
            None => query.clone(),
        };
        Retrieval {
            query,
            embed_text,
            threshold,
            state: RetrievalState::NeedEmbedding,
            vector: Vec::new(),
            error: None,
        }
    }

    /// The one embedding request of the query path: the embedding text as a
    /// single input.
    pub fn embedding_request(&self) -> (r: EmbeddingRequest)
        requires
            self.state() == RetrievalState::NeedEmbedding,
        ensures
            r.inputs.deep_view() =~= seq![self.embed_text()],
            r.wait_for_model == true,
    {
        single_request(self.embed_text.clone())
    }

    /// Records that the embedding step failed. The retrieval is over: the
    /// failure is kept to be surfaced, and no store query will be offered.
    pub fn embedding_failed(&mut self, e: EmbedError)
        requires
            old(self).state() == RetrievalState::NeedEmbedding,
        ensures
            final(self).state() == RetrievalState::Failed,
            final(self).error() == Some(e),
            !final(self).offers_query(),
            final(self).query() == old(self).query(),
            final(self).threshold() == old(self).threshold(),
    {
        self.state = RetrievalState::Failed;
        self.error = Some(e);
    }

    /// Takes the query vector the embedding step delivered; the store can
    /// now be scanned.
    pub fn embedding_ready(&mut self, vector: Vec<u32>)
        requires
            old(self).state() == RetrievalState::NeedEmbedding,
        ensures
            final(self).state() == RetrievalState::ReadyToQuery,
            final(self).vector() == vector@,
            final(self).query() == old(self).query(),
            final(self).threshold() == old(self).threshold(),
    {
        self.state = RetrievalState::ReadyToQuery;
        self.vector = vector;
    }

    /// The vector the store is to be scanned with.
    pub fn query_vector(&self) -> (r: &Vec<u32>)
        requires
            self.offers_query(),
        ensures
            r@ == self.vector(),
    {
        &self.vector
    }

    /// Whether the retrieval is ready for its similarity query. A failed
    /// retrieval never is.
    pub fn can_query(&self) -> (r: bool)
        ensures
            r == self.offers_query(),
    {
        match self.state {
            RetrievalState::ReadyToQuery => true,
            _ => false,
        }
    }

    /// The failure to surface, when the retrieval has failed.
    pub fn take_error(&self) -> (r: Option<EmbedError>)
        ensures
            r == self.error(),
    {
        self.error
    }

    /// Finishes the retrieval with the candidates the store scan produced:
    /// exactly those at or above the threshold come out, ranked. An empty
    /// result is a valid outcome, not an error.
    pub fn complete(&mut self, candidates: Vec<SimilarityMatch>) -> (r: Vec<SimilarityMatch>)
        requires
            old(self).offers_query(),
        ensures
            final(self).state() == RetrievalState::Done,
            final(self).query() == old(self).query(),
            spec_ranked(r@),
            forall|i: int| 0 <= i < r@.len() ==> (#[trigger] r@[i]).score >= old(self).threshold(),
            r@.to_multiset() == spec_above(candidates@, old(self).threshold()).to_multiset(),
    {
        self.state = RetrievalState::Done;
        rank_matches(candidates, self.threshold)
    }
}

/// Failure propagation: a retrieval whose embedding step failed performs no
/// similarity query — in the failed state the machine offers none, and only
/// `ReadyToQuery` ever does.
pub proof fn lemma_failed_retrieval_offers_no_query(r: Retrieval)
    requires
        r.state() == RetrievalState::Failed,
    ensures
        !r.offers_query(),
{
}

} // verus!
