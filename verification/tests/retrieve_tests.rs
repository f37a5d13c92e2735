use ragu::embedding::EmbedError;
use ragu::ranker::{SimilarityMatch, SCORE_SCALE};
use ragu::retrieve::Retrieval;
use ragu::store::{prepare_insert, StoredRecord};

fn bits(v: &[f32]) -> Vec<u32> {
    v.iter().map(|x| x.to_bits()).collect()
}

fn floats(v: &[u32]) -> Vec<f32> {
    v.iter().map(|x| f32::from_bits(*x)).collect()
}

/// Cosine similarity on the millionths score scale, as the store reports it.
fn cosine_score(a: &[f32], b: &[f32]) -> i64 {
    let dot: f64 = a.iter().zip(b).map(|(x, y)| (*x as f64) * (*y as f64)).sum();
    let na: f64 = a.iter().map(|x| (*x as f64) * (*x as f64)).sum::<f64>().sqrt();
    let nb: f64 = b.iter().map(|x| (*x as f64) * (*x as f64)).sum::<f64>().sqrt();
    ((dot / (na * nb)) * (SCORE_SCALE as f64)).round() as i64
}

/// Scans stored records as the vector store would: one scored candidate per
/// record, identified by its position.
fn scan(records: &[StoredRecord], query: &[u32]) -> Vec<SimilarityMatch> {
    let q = floats(query);
    records
        .iter()
        .enumerate()
        .map(|(i, r)| SimilarityMatch {
            id: i as i64,
            data: r.data.clone(),
            score: cosine_score(&floats(&r.embedding), &q),
        })
        .collect()
}

#[test]
fn failed_embedding_blocks_the_similarity_query() {
    let mut retrieval = Retrieval::new(String::from("who is alice"), None, 400_000);
    let req = retrieval.embedding_request();
    assert_eq!(req.inputs, vec![String::from("who is alice")]);
    // The mock service answers with a non-success status.
    retrieval.embedding_failed(EmbedError::ServiceStatus(503));
    assert!(!retrieval.can_query());
    assert_eq!(retrieval.take_error(), Some(EmbedError::ServiceStatus(503)));
}

#[test]
fn context_replaces_question_for_embedding_only() {
    let retrieval = Retrieval::new(
        String::from("the question"),
        Some(String::from("the context")),
        0,
    );
    let req = retrieval.embedding_request();
    assert_eq!(req.inputs, vec![String::from("the context")]);
}

#[test]
fn round_trip_finds_the_inserted_record_with_full_score() {
    let texts = vec![String::from("Alice, 30"), String::from("Bob, 25")];
    let vectors = vec![bits(&[0.6, 0.8]), bits(&[-0.8, 0.6])];
    let records = prepare_insert(texts, vectors, 2).unwrap();

    let mut retrieval = Retrieval::new(String::from("alice"), None, SCORE_SCALE - 1);
    retrieval.embedding_ready(bits(&[0.6, 0.8]));
    assert!(retrieval.can_query());
    let candidates = scan(&records, retrieval.query_vector());
    let ranked = retrieval.complete(candidates);
    assert_eq!(ranked.len(), 1);
    assert_eq!(ranked[0].data, "Alice, 30");
    assert!((ranked[0].score - SCORE_SCALE).abs() <= 1);
}

#[test]
fn scenario_two_records_one_crosses_the_threshold() {
    // Ingest "Alice, 30" and "Bob, 25" with mock embeddings [1, 0] and
    // [0, 1]; query embedding [0.9, 0.1] with threshold 0.5.
    let texts = vec![String::from("Alice, 30"), String::from("Bob, 25")];
    let vectors = vec![bits(&[1.0, 0.0]), bits(&[0.0, 1.0])];
    let records = prepare_insert(texts, vectors, 2).unwrap();

    let mut retrieval = Retrieval::new(String::from("who is about thirty"), None, 500_000);
    retrieval.embedding_ready(bits(&[0.9, 0.1]));
    let candidates = scan(&records, retrieval.query_vector());
    let ranked = retrieval.complete(candidates);

    // Only the Alice record crosses: cos = 0.9 / sqrt(0.82) ~ 0.9939,
    // while Bob scores 0.1 / sqrt(0.82) ~ 0.1104.
    assert_eq!(ranked.len(), 1);
    assert_eq!(ranked[0].data, "Alice, 30");
    let expected = ((0.9f64 / 0.82f64.sqrt()) * 1_000_000.0).round() as i64;
    assert!((ranked[0].score - expected).abs() <= 1);
}

#[test]
fn empty_result_is_a_valid_outcome() {
    let mut retrieval = Retrieval::new(String::from("nothing"), None, 900_000);
    retrieval.embedding_ready(bits(&[1.0, 0.0]));
    let ranked = retrieval.complete(vec![]);
    assert!(ranked.is_empty());
}
