use ragu::store::{prepare_insert, StoreError};

#[test]
fn prepare_insert_pairs_in_order() {
    let texts = vec![String::from("Alice, 30"), String::from("Bob, 25")];
    let vectors = vec![vec![1u32, 0], vec![0u32, 1]];
    let recs = prepare_insert(texts, vectors, 2).unwrap();
    assert_eq!(recs.len(), 2);
    assert_eq!(recs[0].data, "Alice, 30");
    assert_eq!(recs[0].embedding, vec![1, 0]);
    assert_eq!(recs[1].data, "Bob, 25");
    assert_eq!(recs[1].embedding, vec![0, 1]);
}

#[test]
fn prepare_insert_rejects_different_lengths() {
    let texts = vec![String::from("a")];
    let vectors: Vec<Vec<u32>> = vec![];
    assert_eq!(
        prepare_insert(texts, vectors, 2).unwrap_err(),
        StoreError::LengthMismatch
    );
}

#[test]
fn prepare_insert_rejects_wrong_dimensionality() {
    let texts = vec![String::from("a"), String::from("b")];
    let vectors = vec![vec![1u32, 2], vec![3u32]];
    assert_eq!(
        prepare_insert(texts, vectors, 2).unwrap_err(),
        StoreError::DimensionMismatch
    );
}

#[test]
fn prepare_insert_of_empty_batch_is_ok() {
    let recs = prepare_insert(vec![], vec![], 2).unwrap();
    assert!(recs.is_empty());
}
