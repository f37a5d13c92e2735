//! Retrieval Ranker: takes the scored candidates of a similarity query,
//! keeps those at or above the relevance threshold, and orders them by
//! score descending, ties broken by the store-assigned identifier so that
//! the ranking is deterministic.
//!
//! A score is a cosine similarity mapped onto a fixed millionths scale:
//! `SCORE_SCALE` stands for similarity 1 (identical direction) and
//! `-SCORE_SCALE` for -1. The scale keeps the whole ranking in exact
//! integer arithmetic.

use vstd::prelude::*;
use vstd::seq_lib::lemma_multiset_commutative;
use vstd::multiset::Multiset;

verus! {

broadcast use vstd::seq_lib::group_to_multiset_ensures;

/// The score that stands for cosine similarity 1.0.
pub const SCORE_SCALE: i64 = 1000000;

/// One match of a similarity query: a stored record's identifier and text,
/// with its relevance score on the millionths scale.
#[derive(Debug)]
pub struct SimilarityMatch {
    pub id: i64,
    pub data: String,
    pub score: i64,
}

/// The ranking order: higher score first; equal scores ordered by
/// identifier ascending.
pub open spec fn ranked_before(a: SimilarityMatch, b: SimilarityMatch) -> bool {
    a.score > b.score || (a.score == b.score && a.id <= b.id)
}

/// A sequence is ranked when every pair stands in ranking order.
pub open spec fn spec_ranked(s: Seq<SimilarityMatch>) -> bool {
    forall|i: int, j: int| 0 <= i < j < s.len() ==> ranked_before(s[i], s[j])
}

/// The candidates at or above the threshold, in their original order.
pub open spec fn spec_above(s: Seq<SimilarityMatch>, threshold: int) -> Seq<SimilarityMatch>
    decreases s.len(),
{
    if s.len() == 0 {
        Seq::empty()
    } else if s[0].score >= threshold {
        seq![s[0]] + spec_above(s.drop_first(), threshold)
    } else {
        spec_above(s.drop_first(), threshold)
    }
}

/// The ranking order is total: of any two matches, one comes first.
proof fn lemma_ranked_total(a: SimilarityMatch, b: SimilarityMatch)
    ensures
        ranked_before(a, b) || ranked_before(b, a),
{
}

proof fn lemma_insert_sorted(s: Seq<SimilarityMatch>, m: SimilarityMatch, pos: int)
    requires
        spec_ranked(s),
        0 <= pos <= s.len(),
        forall|i: int| 0 <= i < pos ==> ranked_before(#[trigger] s[i], m),
        pos < s.len() ==> ranked_before(m, s[pos]),
    ensures
        spec_ranked(s.insert(pos, m)),
{
    let t = s.insert(pos, m);
    assert forall|i: int, j: int| 0 <= i < j < t.len() implies ranked_before(t[i], t[j]) by {
        if i < pos {
            assert(t[i] == s[i]);
        } else if i == pos {
            assert(t[i] == m);
        } else {
            assert(t[i] == s[i - 1]);
        }
        if j < pos {
            assert(t[j] == s[j]);
        } else if j == pos {
            assert(t[j] == m);
        } else {
            assert(t[j] == s[j - 1]);
        }
        if j < pos {
            assert(ranked_before(s[i], s[j]));
        } else if j == pos {
            assert(ranked_before(s[i], m));
        } else {
            if i < pos {
                assert(ranked_before(s[i], s[j - 1]));
            } else if i == pos {
                assert(ranked_before(m, s[pos as int]));
                if j - 1 > pos {
                    assert(ranked_before(s[pos as int], s[j - 1]));
                }
            } else {
                assert(ranked_before(s[i - 1], s[j - 1]));
            }
        }
    }
}

proof fn lemma_insert_multiset(s: Seq<SimilarityMatch>, m: SimilarityMatch, pos: int)
    requires
        0 <= pos <= s.len(),
    ensures
        s.insert(pos, m).to_multiset() =~= s.to_multiset().insert(m),
{
    let left = s.take(pos);
    let right = s.skip(pos);
    assert(s.insert(pos, m) =~= left + (seq![m] + right));
    assert(s =~= left + right);
    lemma_multiset_commutative(left, seq![m] + right);
    lemma_multiset_commutative(seq![m], right);
    lemma_multiset_commutative(left, right);
    assert(seq![m].to_multiset() =~= Multiset::<SimilarityMatch>::empty().insert(m)) by {
        assert(seq![m] =~= Seq::<SimilarityMatch>::empty().push(m));
    }
}

fn ranked_before_exec(a: &SimilarityMatch, b: &SimilarityMatch) -> (r: bool)
    ensures
        r == ranked_before(*a, *b),
{
    a.score > b.score || (a.score == b.score && a.id <= b.id)
}

/// Ranks the candidates of a similarity query: exactly those with
/// `score >= threshold` survive, as often as they came in, ordered by score
/// descending with ties broken by identifier ascending.
pub fn rank_matches(candidates: Vec<SimilarityMatch>, threshold: i64) -> (r: Vec<SimilarityMatch>)
    ensures
        spec_ranked(r@),
        forall|i: int| 0 <= i < r@.len() ==> (#[trigger] r@[i]).score >= threshold,
        r@.to_multiset() == spec_above(candidates@, threshold as int).to_multiset(),
{
    let ghost all = candidates@;
    let mut rest = candidates;
    let mut kept: Vec<SimilarityMatch> = Vec::new();
    while rest.len() > 0
        invariant
            kept@ + spec_above(rest@, threshold as int) =~= spec_above(all, threshold as int),
            forall|i: int| 0 <= i < kept@.len() ==> (#[trigger] kept@[i]).score >= threshold,
        decreases rest@.len(),
    {
        let ghost before = rest@;
        let m = rest.remove(0);
        if m.score >= threshold {
            kept.push(m);
        }
        proof {
            assert(before.drop_first() =~= rest@);
            assert(before[0] == m);
        }
    }
    proof {
        assert(spec_above(rest@, threshold as int) =~= Seq::<SimilarityMatch>::empty());
        assert(kept@ =~= spec_above(all, threshold as int));
    }
    let ghost target = spec_above(all, threshold as int).to_multiset();
    let mut sorted: Vec<SimilarityMatch> = Vec::new();
    while kept.len() > 0
        invariant
            spec_ranked(sorted@),
            forall|i: int| 0 <= i < sorted@.len() ==> (#[trigger] sorted@[i]).score >= threshold,
            forall|i: int| 0 <= i < kept@.len() ==> (#[trigger] kept@[i]).score >= threshold,
            sorted@.to_multiset().add(kept@.to_multiset()) =~= target,
        decreases kept@.len(),
    {
        let ghost before = kept@;
        let m = kept.pop().unwrap();
        proof {
            assert(before =~= kept@.push(m));
        }
        let mut pos: usize = 0;
        while pos < sorted.len() && ranked_before_exec(&sorted[pos], &m)
            invariant
                pos <= sorted@.len(),
                forall|i: int| 0 <= i < pos ==> ranked_before(#[trigger] sorted@[i], m),
            decreases sorted@.len() - pos,
        {
            pos = pos + 1;
        }
        proof {
            if pos < sorted@.len() {
                lemma_ranked_total(sorted@[pos as int], m);
            }
            lemma_insert_sorted(sorted@, m, pos as int);
            lemma_insert_multiset(sorted@, m, pos as int);
        }
        sorted.insert(pos, m);
    }
    proof {
        assert(kept@.to_multiset() =~= Multiset::<SimilarityMatch>::empty());
        assert(sorted@.to_multiset() =~= target);
    }
    sorted
}

} // verus!
