//! Vector Store Adapter, the decisions of it: pairing texts with their
//! vectors for a bulk insert and checking the shapes the store demands.
//!
//! The store itself (a relational table with a vector column) is an outside
//! collaborator; the caller runs the one transaction that writes a prepared
//! batch, so that no partial batch is ever visible.

use vstd::prelude::*;

verus! {

/// Why a bulk insert is rejected before it reaches the store.
#[derive(Clone, Copy, Debug, PartialEq, Eq, Structural)]
pub enum StoreError {
    /// The text and vector sequences have different lengths.
    LengthMismatch,
    /// Some vector's dimensionality differs from the store's column.
    DimensionMismatch,
}

/// One persisted pair: the normalized text and its embedding vector,
/// components carried as opaque 32-bit words.
#[derive(Debug)]
pub struct StoredRecord {
    pub data: String,
    pub embedding: Vec<u32>,
}

/// Pairs texts with their vectors into the records of one bulk insert.
/// Succeeds exactly when both sequences have the same length and every
/// vector has the store's dimensionality `dim`; the records keep the input
/// order, one per pair.
pub fn prepare_insert(texts: Vec<String>, vectors: Vec<Vec<u32>>, dim: usize) -> (r: Result<
    Vec<StoredRecord>,
    StoreError,
>)
    ensures
        r is Ok <==> (texts@.len() == vectors@.len() && (forall|i: int|
            0 <= i < vectors@.len() ==> (#[trigger] vectors@[i])@.len() == dim)),
        texts@.len() != vectors@.len() ==> r == Err::<Vec<StoredRecord>, StoreError>(
            StoreError::LengthMismatch,
        ),
        texts@.len() == vectors@.len() && !(forall|i: int|
            0 <= i < vectors@.len() ==> (#[trigger] vectors@[i])@.len() == dim) ==> r == Err::<
            Vec<StoredRecord>,
            StoreError,
        >(StoreError::DimensionMismatch),
        r is Ok ==> {
            let recs = r->Ok_0;
            &&& recs@.len() == texts@.len()
            &&& forall|i: int|
                0 <= i < recs@.len() ==> (#[trigger] recs@[i]).data@ == texts@[i]@
                    && recs@[i].embedding@ == vectors@[i]@
        },
{
    if texts.len() != vectors.len() {
        return Err(StoreError::LengthMismatch);
    }
    let n = vectors.len();
    let mut i: usize = 0;
    while i < n
        invariant
            n == vectors@.len(),
            texts@.len() == vectors@.len(),
            i <= n,
            forall|t: int| 0 <= t < i ==> (#[trigger] vectors@[t])@.len() == dim,
        decreases n - i,
    {
        if vectors[i].len() != dim {
            return Err(StoreError::DimensionMismatch);
        }
        i = i + 1;
    }
    let mut texts = texts;
    let mut vectors = vectors;
    let mut recs: Vec<StoredRecord> = Vec::new();
    let ghost all_texts = texts@;
    let ghost all_vectors = vectors@;
    let mut k: usize = 0;
    while k < n
        invariant
            n == all_vectors.len(),
            n == all_texts.len(),
            k <= n,
            texts@ =~= all_texts.skip(k as int),
            vectors@ =~= all_vectors.skip(k as int),
            recs@.len() == k,
            forall|t: int|
                0 <= t < k ==> (#[trigger] recs@[t]).data@ == all_texts[t]@
                    && recs@[t].embedding@ == all_vectors[t]@,
        decreases n - k,
    {
        let data = texts.remove(0);
        let embedding = vectors.remove(0);
        recs.push(StoredRecord { data, embedding });
        k = k + 1;
        proof {
            assert(all_texts.skip(k - 1).drop_first() =~= all_texts.skip(k as int));
            assert(all_vectors.skip(k - 1).drop_first() =~= all_vectors.skip(k as int));
            assert(all_texts.skip(k - 1)[0] == all_texts[k - 1]);
            assert(all_vectors.skip(k - 1)[0] == all_vectors[k - 1]);
        }
    }
    Ok(recs)
}

} // verus!
