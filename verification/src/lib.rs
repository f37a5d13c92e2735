//! Core of a retrieval-augmented search pipeline over tabular data.
//!
//! The library covers the decisions of the pipeline: flattening records to
//! text, batching texts into bounded chunks for a remote embedding service,
//! reassembling the returned vectors in order, pairing texts with vectors for
//! a bulk insert, threshold-filtering and ranking similarity matches, and
//! assembling the prompt for the generative completion service. The network
//! and database calls themselves stay outside; callers drive the state
//! machines here and hand the outcomes back in as plain values.

pub mod text;
pub mod normalize;
pub mod embedding;
pub mod store;
pub mod ranker;
pub mod retrieve;
pub mod synthesize;
