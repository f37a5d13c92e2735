//! Embedding Client: turns many texts into embedding vectors through a remote
//! service while respecting its per-request batch limit.
//!
//! The component is a state machine. `EmbedBatch::new` fixes a chunk plan:
//! when the input count exceeds the chunk threshold the texts are split into
//! fixed-size chunks in order, otherwise everything goes out as one request.
//! The caller repeatedly takes `next_request`, performs the network call, and
//! hands the outcome back through `push_response`; `finish` yields the vectors
//! for all texts, aligned with the input order. A response of the wrong shape
//! aborts the whole batch: no partial result survives.
//!
//! Vector components are carried as opaque 32-bit words (the bit patterns of
//! the service's numeric components); the client never reads into them.

use vstd::prelude::*;
use vstd::arithmetic::div_mod::lemma_fundamental_div_mod_converse_div;

verus! {

/// One request to the embedding service: the texts of a single chunk and the
/// flag asking the service to wait until the model is ready.
pub struct EmbeddingRequest {
    pub inputs: Vec<String>,
    pub wait_for_model: bool,
}

/// Why an embedding operation failed. Failures are never recovered locally:
/// each aborts the whole operation.
#[derive(Clone, Copy, Debug, PartialEq, Eq, Structural)]
pub enum EmbedError {
    /// The network call itself failed before any response arrived.
    Transport,
    /// The service answered with a non-success status code.
    ServiceStatus(u16),
    /// The service answered with a body that does not parse into vectors.
    MalformedResponse,
    /// The response parsed, but did not hold one vector per input text.
    ShapeMismatch,
}

/// Classification of an HTTP status code, used by the observability hooks
/// around the embedding and generation calls.
#[derive(Clone, Copy, Debug, PartialEq, Eq, Structural)]
pub enum StatusClass {
    Success,
    ServerError,
    Other,
}

/// Sorts an HTTP status code into the classes the pipeline reports on:
/// 2xx success, 5xx server error, anything else.
pub fn classify_status(code: u16) -> (r: StatusClass)
    ensures
        r == StatusClass::Success <==> 200 <= code < 300,
        r == StatusClass::ServerError <==> 500 <= code < 600,
{
    if 200 <= code && code < 300 {
        StatusClass::Success
    } else if 500 <= code && code < 600 {
        StatusClass::ServerError
    } else {
        StatusClass::Other
    }
}

/// Decides what one service response means: vectors come out only of a
/// success status whose body parsed; a non-success status is a service
/// error whatever the body held, and an unparseable body on success is a
/// malformed response.
pub fn response_outcome(status: u16, body: Option<Vec<Vec<u32>>>) -> (r: Result<
    Vec<Vec<u32>>,
    EmbedError,
>)
    ensures
        r is Ok <==> (200 <= status < 300 && body is Some),
        200 <= status < 300 && body is Some ==> r == Ok::<Vec<Vec<u32>>, EmbedError>(body->0),
        !(200 <= status < 300) ==> r == Err::<Vec<Vec<u32>>, EmbedError>(
            EmbedError::ServiceStatus(status),
        ),
        200 <= status < 300 && body is None ==> r == Err::<Vec<Vec<u32>>, EmbedError>(
            EmbedError::MalformedResponse,
        ),
{
    if !(200 <= status && status < 300) {
        Err(EmbedError::ServiceStatus(status))
    } else {
        match body {
            Some(vectors) => Ok(vectors),
            None => Err(EmbedError::MalformedResponse),
        }
    }
}

/// The sum of a sequence of chunk lengths.
pub open spec fn spec_sum(s: Seq<usize>) -> int
    decreases s.len(),
{
    if s.len() == 0 {
        0
    } else {
        spec_sum(s.drop_last()) + s.last()
    }
}

proof fn lemma_sum_push(s: Seq<usize>, x: usize)
    ensures
        spec_sum(s.push(x)) == spec_sum(s) + x,
{
    assert(s.push(x).drop_last() =~= s);
}

proof fn lemma_sum_nonneg(s: Seq<usize>)
    ensures
        spec_sum(s) >= 0,
    decreases s.len(),
{
    if s.len() > 0 {
        lemma_sum_nonneg(s.drop_last());
    }
}

proof fn lemma_sum_take_step(s: Seq<usize>, k: int)
    requires
        0 <= k < s.len(),
    ensures
        spec_sum(s.take(k + 1)) == spec_sum(s.take(k)) + s[k],
{
    assert(s.take(k + 1).drop_last() =~= s.take(k));
    assert(s.take(k + 1).last() == s[k]);
}

proof fn lemma_sum_take_bound(s: Seq<usize>, k: int)
    requires
        0 <= k <= s.len(),
    ensures
        spec_sum(s.take(k)) <= spec_sum(s),
    decreases s.len() - k,
{
    if k == s.len() {
        assert(s.take(k) =~= s);
    } else {
        lemma_sum_take_step(s, k);
        lemma_sum_take_bound(s, k + 1);
    }
}

/// How many requests a batch of `n` texts takes: one per chunk of
/// `chunk_size` texts when `n` exceeds the threshold, one in all.
pub open spec fn spec_total_requests(n: int, threshold: int, chunk_size: int) -> int
    recommends
        chunk_size >= 1,
{
    if n > threshold {
        (n + chunk_size - 1) / chunk_size
    } else {
        1
    }
}

/// Fixes the chunk plan for `n` texts: above the threshold, full chunks of
/// `chunk_size` in order with the remainder last; otherwise one chunk with
/// everything. The plan's lengths sum to `n`, and its length is exactly the
/// request count of `spec_total_requests`.
pub fn plan_chunks(n: usize, threshold: usize, chunk_size: usize) -> (plan: Vec<usize>)
    requires
        chunk_size >= 1,
    ensures
        spec_sum(plan@) == n,
        plan@.len() == spec_total_requests(n as int, threshold as int, chunk_size as int),
        n > threshold ==> forall|i: int| 0 <= i < plan@.len() - 1 ==> plan@[i] == chunk_size,
        n > threshold ==> forall|i: int|
            0 <= i < plan@.len() ==> 1 <= #[trigger] plan@[i] <= chunk_size,
        n <= threshold ==> plan@ =~= seq![n],
{
    let mut plan: Vec<usize> = Vec::new();
    if n > threshold {
        let mut remaining: usize = n;
        while remaining > chunk_size
            invariant
                chunk_size >= 1,
                1 <= remaining <= n,
                spec_sum(plan@) == n - remaining,
                n - remaining == plan@.len() * chunk_size,
                forall|i: int| 0 <= i < plan@.len() ==> plan@[i] == chunk_size,
            decreases remaining,
        {
            proof {
                lemma_sum_push(plan@, chunk_size);
                assert((plan@.len() + 1) * chunk_size == plan@.len() * chunk_size + chunk_size)
                    by (nonlinear_arith);
            }
            plan.push(chunk_size);
            remaining = remaining - chunk_size;
        }
        proof {
            lemma_sum_push(plan@, remaining);
        }
        plan.push(remaining);
        proof {
            let c = chunk_size as int;
            let k = plan@.len() as int;
            assert((k - 1) * c == n - remaining);
            assert(k * c == (k - 1) * c + c) by (nonlinear_arith);
            let r = n + c - 1 - k * c;
            assert(0 <= r < c);
            lemma_fundamental_div_mod_converse_div(n + c - 1, c, k, r);
        }
    } else {
        plan.push(n);
        proof {
            lemma_sum_push(Seq::<usize>::empty(), n);
        }
    }
    plan
}

/// The batching state machine for `embed_many`: texts go out chunk by chunk,
/// vectors come back and accumulate in input order.
pub struct EmbedBatch {
    texts: Vec<String>,
    plan: Vec<usize>,
    next_chunk: usize,
    cursor: usize,
    vectors: Vec<Vec<u32>>,
    aborted: bool,
}

impl EmbedBatch {
    /// The texts of the batch, in their original order.
    pub closed spec fn texts(&self) -> Seq<Seq<char>> {
        self.texts.deep_view()
    }

    /// The vectors accumulated so far, one per answered text, in text order.
    pub closed spec fn vectors(&self) -> Seq<Seq<u32>> {
        self.vectors.deep_view()
    }

    /// How many requests have been answered.
    pub closed spec fn requests_made(&self) -> int {
        self.next_chunk as int
    }

    /// How many requests the whole batch takes.
    pub closed spec fn total_requests(&self) -> int {
        self.plan@.len() as int
    }

    /// How many texts have been answered so far.
    pub closed spec fn answered(&self) -> int {
        self.cursor as int
    }

    /// The length of the chunk that request number `k` carries.
    pub closed spec fn chunk_len(&self, k: int) -> int {
        self.plan@[k] as int
    }

    /// Whether a mis-shaped response has aborted the batch.
    pub closed spec fn aborted(&self) -> bool {
        self.aborted
    }

    /// Whether every request has been answered and the batch can be finished.
    pub open spec fn done(&self) -> bool {
        self.requests_made() == self.total_requests() && !self.aborted()
    }

    /// Internal consistency of the machine.
    pub closed spec fn wf(&self) -> bool {
        &&& spec_sum(self.plan@) == self.texts@.len()
        &&& self.next_chunk <= self.plan@.len()
        &&& !self.aborted ==> self.cursor == spec_sum(self.plan@.take(self.next_chunk as int))
        &&& !self.aborted ==> self.vectors@.len() == self.cursor
    }

    /// Starts a batch over `texts` with the given chunking rule.
    pub fn new(texts: Vec<String>, threshold: usize, chunk_size: usize) -> (r: EmbedBatch)
        requires
            chunk_size >= 1,
        ensures
            r.wf(),
            r.texts() == texts.deep_view(),
            r.vectors() == Seq::<Seq<u32>>::empty(),
            r.requests_made() == 0,
            !r.aborted(),
            r.total_requests() == spec_total_requests(
                texts@.len() as int,
                threshold as int,
                chunk_size as int,
            ),
    {
        let plan = plan_chunks(texts.len(), threshold, chunk_size);
        let r = EmbedBatch {
            texts,
            plan,
            next_chunk: 0,
            cursor: 0,
            vectors: Vec::new(),
            aborted: false,
        };
        proof {
            assert(r.plan@.take(0) =~= Seq::<usize>::empty());
            assert(r.vectors.deep_view() =~= Seq::<Seq<u32>>::empty());
        }
        r
    }

    /// The next request to send, or nothing when the batch is done or
    /// aborted. The request carries exactly the texts of the next chunk,
    /// in input order, and always asks the service to wait for the model.
    pub fn next_request(&self) -> (r: Option<EmbeddingRequest>)
        requires
            self.wf(),
        ensures
            r is Some <==> (!self.done() && !self.aborted()),
            r is Some ==> {
                let req = r->0;
                &&& req.wait_for_model == true
                &&& req.inputs.deep_view() =~= self.texts().subrange(
                    self.answered(),
                    self.answered() + self.chunk_len(self.requests_made()),
                )
            },
    {
        if self.aborted || self.next_chunk >= self.plan.len() {
            return None;
        }
        let len = self.plan[self.next_chunk];
        let n = self.texts.len();
        proof {
            lemma_sum_take_step(self.plan@, self.next_chunk as int);
            lemma_sum_take_bound(self.plan@, self.next_chunk as int + 1);
            lemma_sum_nonneg(self.plan@.take(self.next_chunk as int));
        }
        let mut inputs: Vec<String> = Vec::new();
        let mut j: usize = 0;
        while j < len
            invariant
                j <= len,
                self.cursor + len <= n,
                n == self.texts@.len(),
                inputs@.len() == j,
                forall|t: int| 0 <= t < j ==> #[trigger] inputs@[t]@ == self.texts@[
                    self.cursor + t
                ]@,
            decreases len - j,
        {
            inputs.push(self.texts[self.cursor + j].clone());
            j = j + 1;
        }
        proof {
            assert(inputs.deep_view() =~= self.texts.deep_view().subrange(
                self.cursor as int,
                self.cursor + len,
            ));
        }
        Some(EmbeddingRequest { inputs, wait_for_model: true })
    }

    /// Takes the vectors of one chunk's response. When the response holds
    /// exactly one vector per text of the chunk, they are appended to the
    /// accumulator in order; anything else is a shape mismatch that aborts
    /// the batch and discards everything accumulated so far.
    pub fn push_response(&mut self, response: Vec<Vec<u32>>) -> (r: Result<(), EmbedError>)
        requires
            old(self).wf(),
            !old(self).aborted(),
            !old(self).done(),
        ensures
            final(self).wf(),
            final(self).texts() == old(self).texts(),
            final(self).total_requests() == old(self).total_requests(),
            response@.len() == old(self).chunk_len(old(self).requests_made()) ==> {
                &&& r is Ok
                &&& !final(self).aborted()
                &&& final(self).vectors() =~= old(self).vectors() + response.deep_view()
                &&& final(self).requests_made() == old(self).requests_made() + 1
                &&& final(self).answered() == old(self).answered() + response@.len()
                &&& forall|j: int|
                    0 <= j < response@.len() ==> final(self).vectors()[old(self).answered() + j]
                        == response.deep_view()[j]
            },
            response@.len() != old(self).chunk_len(old(self).requests_made()) ==> {
                &&& r == Err::<(), EmbedError>(EmbedError::ShapeMismatch)
                &&& final(self).aborted()
                &&& final(self).vectors() == Seq::<Seq<u32>>::empty()
            },
    {
        let expected = self.plan[self.next_chunk];
        if response.len() != expected {
            self.aborted = true;
            self.vectors = Vec::new();
            proof {
                assert(self.vectors.deep_view() =~= Seq::<Seq<u32>>::empty());
            }
            return Err(EmbedError::ShapeMismatch);
        }
        let n = self.texts.len();
        let chunks = self.plan.len();
        proof {
            lemma_sum_take_step(self.plan@, self.next_chunk as int);
            lemma_sum_take_bound(self.plan@, self.next_chunk as int + 1);
            lemma_sum_nonneg(self.plan@.take(self.next_chunk as int));
            assert(self.cursor + expected <= n);
            assert(self.next_chunk < chunks);
        }
        let mut response = response;
        self.vectors.append(&mut response);
        self.cursor = self.cursor + expected;
        self.next_chunk = self.next_chunk + 1;
        Ok(())
    }

    /// Whether every chunk has been answered, so that `finish` may be
    /// called.
    pub fn is_done(&self) -> (r: bool)
        ensures
            r == self.done(),
    {
        !self.aborted && self.next_chunk == self.plan.len()
    }

    /// Hands out the vectors of the whole batch once every chunk has been
    /// answered: one vector per input text, in input order.
    pub fn finish(self) -> (r: Vec<Vec<u32>>)
        requires
            self.wf(),
            self.done(),
        ensures
            r.deep_view() == self.vectors(),
            r.deep_view().len() == self.texts().len(),
    {
        proof {
            assert(self.plan@.take(self.plan@.len() as int) =~= self.plan@);
        }
        self.vectors
    }
}

/// The request that embeds a single text, as the query path does.
pub fn single_request(text: String) -> (r: EmbeddingRequest)
    ensures
        r.inputs.deep_view() =~= seq![text@],
        r.wait_for_model == true,
{
    let mut inputs: Vec<String> = Vec::new();
    inputs.push(text);
    EmbeddingRequest { inputs, wait_for_model: true }
}

/// Extracts the single vector a one-text request must come back with; any
/// other number of vectors is a shape mismatch.
pub fn single_vector(output: Vec<Vec<u32>>) -> (r: Result<Vec<u32>, EmbedError>)
    ensures
        r is Ok <==> output@.len() == 1,
        output@.len() == 1 ==> r is Ok && (r->Ok_0)@ == output.deep_view()[0],
        output@.len() != 1 ==> r == Err::<Vec<u32>, EmbedError>(EmbedError::ShapeMismatch),
{
    let mut output = output;
    if output.len() == 1 {
        let v = output.pop().unwrap();
        Ok(v)
    } else {
        Err(EmbedError::ShapeMismatch)
    }
}

} // verus!
