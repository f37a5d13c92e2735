use ragu::embedding::{
    classify_status, response_outcome, single_request, single_vector, EmbedBatch, EmbedError,
    StatusClass,
};

/// Drives a batch against a mock service that tags every vector with the
/// running input index, and returns (vectors, request count, request sizes).
fn run_with_index_mock(
    texts: Vec<String>,
    threshold: usize,
    chunk_size: usize,
) -> (Vec<Vec<u32>>, usize, Vec<usize>) {
    let mut batch = EmbedBatch::new(texts, threshold, chunk_size);
    let mut requests = 0usize;
    let mut sizes = Vec::new();
    let mut next_tag = 0u32;
    while let Some(req) = batch.next_request() {
        requests += 1;
        sizes.push(req.inputs.len());
        assert!(req.wait_for_model);
        let mut vectors = Vec::new();
        for _ in 0..req.inputs.len() {
            vectors.push(vec![next_tag]);
            next_tag += 1;
        }
        batch.push_response(vectors).unwrap();
    }
    (batch.finish(), requests, sizes)
}

fn texts_of(n: usize) -> Vec<String> {
    (0..n).map(|i| format!("t{}", i)).collect()
}

#[test]
fn embed_many_preserves_length_and_order() {
    let (vectors, _, _) = run_with_index_mock(texts_of(7), 4, 2);
    assert_eq!(vectors.len(), 7);
    for (i, v) in vectors.iter().enumerate() {
        assert_eq!(v, &vec![i as u32]);
    }
}

#[test]
fn chunking_below_threshold_is_one_request() {
    let (vectors, requests, sizes) = run_with_index_mock(texts_of(3), 4, 2);
    assert_eq!(vectors.len(), 3);
    assert_eq!(requests, 1);
    assert_eq!(sizes, vec![3]);
}

#[test]
fn chunking_at_threshold_is_one_request() {
    let (vectors, requests, sizes) = run_with_index_mock(texts_of(4), 4, 2);
    assert_eq!(vectors.len(), 4);
    assert_eq!(requests, 1);
    assert_eq!(sizes, vec![4]);
}

#[test]
fn chunking_above_threshold_makes_ceil_many_requests() {
    // n = 5, chunk_size = 2: ceil(5 / 2) = 3 requests of sizes 2, 2, 1.
    let (vectors, requests, sizes) = run_with_index_mock(texts_of(5), 4, 2);
    assert_eq!(vectors.len(), 5);
    assert_eq!(requests, 3);
    assert_eq!(sizes, vec![2, 2, 1]);
}

#[test]
fn chunking_exact_multiple_above_threshold() {
    let (vectors, requests, sizes) = run_with_index_mock(texts_of(6), 4, 2);
    assert_eq!(vectors.len(), 6);
    assert_eq!(requests, 3);
    assert_eq!(sizes, vec![2, 2, 2]);
}

#[test]
fn empty_batch_still_sends_one_request() {
    let (vectors, requests, sizes) = run_with_index_mock(texts_of(0), 4, 2);
    assert_eq!(vectors.len(), 0);
    assert_eq!(requests, 1);
    assert_eq!(sizes, vec![0]);
}

#[test]
fn mis_shaped_response_aborts_the_batch() {
    let mut batch = EmbedBatch::new(texts_of(5), 4, 2);
    let req = batch.next_request().unwrap();
    assert_eq!(req.inputs.len(), 2);
    // One vector for two texts: a shape mismatch.
    let r = batch.push_response(vec![vec![9]]);
    assert_eq!(r, Err(EmbedError::ShapeMismatch));
    // The batch is over: no further request comes out.
    assert!(batch.next_request().is_none());
}

#[test]
fn classify_status_ranges() {
    assert_eq!(classify_status(200), StatusClass::Success);
    assert_eq!(classify_status(299), StatusClass::Success);
    assert_eq!(classify_status(199), StatusClass::Other);
    assert_eq!(classify_status(300), StatusClass::Other);
    assert_eq!(classify_status(404), StatusClass::Other);
    assert_eq!(classify_status(500), StatusClass::ServerError);
    assert_eq!(classify_status(599), StatusClass::ServerError);
    assert_eq!(classify_status(600), StatusClass::Other);
}

#[test]
fn response_outcome_distinguishes_failures() {
    assert_eq!(
        response_outcome(503, Some(vec![vec![1]])),
        Err(EmbedError::ServiceStatus(503))
    );
    assert_eq!(
        response_outcome(404, None),
        Err(EmbedError::ServiceStatus(404))
    );
    assert_eq!(response_outcome(200, None), Err(EmbedError::MalformedResponse));
    assert_eq!(response_outcome(200, Some(vec![vec![1, 2]])), Ok(vec![vec![1, 2]]));
}

#[test]
fn single_request_carries_the_one_text() {
    let req = single_request(String::from("a question"));
    assert_eq!(req.inputs, vec![String::from("a question")]);
    assert!(req.wait_for_model);
}

#[test]
fn single_vector_demands_exactly_one() {
    assert_eq!(single_vector(vec![vec![1, 2, 3]]), Ok(vec![1, 2, 3]));
    assert_eq!(single_vector(vec![]), Err(EmbedError::ShapeMismatch));
    assert_eq!(
        single_vector(vec![vec![1], vec![2]]),
        Err(EmbedError::ShapeMismatch)
    );
}
