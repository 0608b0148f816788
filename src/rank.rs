//! Ordering the backend's scored entries by descending relevance.

use vstd::prelude::*;
use crate::model::{BackendScore, RankedResult, ranked_all, ranked_from};
use crate::score::{is_nan, order_key, ranks_above, score_ranks_above};

verus! {

broadcast use vstd::seq_lib::group_to_multiset_ensures;

/// No entry is numerically greater than the entry just before it. Entries
/// whose scores have no numeric order (a NaN) may stand anywhere among
/// their neighbours.
pub open spec fn adjacent_ordered(out: Seq<RankedResult>) -> bool {
    forall|k: int|
        0 <= k < out.len() - 1 ==> !#[trigger] ranks_above(
            out[k + 1].relevance_score_bits,
            out[k].relevance_score_bits,
        )
}

/// `out` holds exactly the backend's entries, each once per occurrence, and
/// no entry is ranked below one that it numerically exceeds.
pub open spec fn is_ranking(out: Seq<RankedResult>, scores: Seq<BackendScore>) -> bool {
    &&& out.to_multiset() == ranked_all(scores).to_multiset()
    &&& adjacent_ordered(out)
}

/// No backend entry carries a NaN score.
pub open spec fn scores_are_numbers(scores: Seq<BackendScore>) -> bool {
    forall|i: int| 0 <= i < scores.len() ==> !#[trigger] is_nan(scores[i].score_bits)
}

/// Every later entry has a score no greater than every earlier one.
pub open spec fn non_increasing(out: Seq<RankedResult>) -> bool {
    forall|i: int, j: int|
        0 <= i < j < out.len() ==> !is_nan(out[j].relevance_score_bits) && order_key(
            out[j].relevance_score_bits,
        ) <= order_key(out[i].relevance_score_bits)
}

/// Orders the backend's entries by descending score.
///
/// An entry is moved ahead of another only when its score is numerically
/// greater, so entries involved with a NaN end up in an unspecified place
/// among their neighbours. Nothing is dropped, merged or truncated.
pub fn rank(scores: &Vec<BackendScore>) -> (out: Vec<RankedResult>)
    ensures
        is_ranking(out@, scores@),
        out@.len() == scores@.len(),
{
    let mut out: Vec<RankedResult> = Vec::new();
    let mut i: usize = 0;
    while i < scores.len()
        invariant
            i <= scores@.len(),
            out@.to_multiset() == ranked_all(scores@.subrange(0, i as int)).to_multiset(),
            adjacent_ordered(out@),
        decreases scores@.len() - i,
    {
        let item = RankedResult { index: scores[i].index, relevance_score_bits: scores[i].score_bits };
        let mut p: usize = out.len();
        while p > 0 && score_ranks_above(item.relevance_score_bits, out[p - 1].relevance_score_bits)
            invariant
                p <= out@.len(),
                forall|q: int|
                    p <= q < out@.len() ==> #[trigger] ranks_above(
                        item.relevance_score_bits,
                        out@[q].relevance_score_bits,
                    ),
            decreases p,
        {
            p = p - 1;
        }
        let ghost before = out@;
        out.insert(p, item);
        proof {
            let after = out@;
            assert(after == before.insert(p as int, item));
            assert forall|k: int| 0 <= k < after.len() - 1 implies !#[trigger] ranks_above(
                after[k + 1].relevance_score_bits,
                after[k].relevance_score_bits,
            ) by {
                if k + 1 < p {
                    assert(ranks_above(before[k + 1].relevance_score_bits, before[k].relevance_score_bits) == false);
                } else if k + 1 == p {
                } else if k == p {
                    assert(ranks_above(item.relevance_score_bits, before[p as int].relevance_score_bits));
                } else {
                    let m = k - 1;
                    assert(!ranks_above(before[m + 1].relevance_score_bits, before[m].relevance_score_bits));
                }
            }
            let prefix = scores@.subrange(0, i as int);
            let next = scores@.subrange(0, i as int + 1);
            assert(next == prefix.push(scores@[i as int]));
            assert(ranked_all(next) == ranked_all(prefix).push(ranked_from(scores@[i as int])));
            assert(item == ranked_from(scores@[i as int]));
        }
        i = i + 1;
    }
    proof {
        assert(scores@.subrange(0, scores@.len() as int) == scores@);
        assert(out@.to_multiset().len() == ranked_all(scores@).to_multiset().len());
    }
    out
}

/// Every entry of a ranking is one of the backend's entries, so a ranking of
/// entries without NaN holds no NaN either.
proof fn lemma_ranking_has_no_nan(out: Seq<RankedResult>, scores: Seq<BackendScore>, k: int)
    requires
        is_ranking(out, scores),
        scores_are_numbers(scores),
        0 <= k < out.len(),
    ensures
        !is_nan(out[k].relevance_score_bits),
{
    let all = ranked_all(scores);
    assert(out.contains(out[k]));
    assert(out.to_multiset().count(out[k]) > 0);
    assert(all.contains(out[k]));
    let j = choose|j: int| 0 <= j < all.len() && all[j] == out[k];
    assert(!is_nan(scores[j].score_bits));
}

/// Between two positions of an adjacently ordered ranking free of NaN, the
/// later score is no greater than the earlier one.
proof fn lemma_adjacent_to_pairwise(out: Seq<RankedResult>, i: int, j: int)
    requires
        adjacent_ordered(out),
        forall|k: int| 0 <= k < out.len() ==> !#[trigger] is_nan(out[k].relevance_score_bits),
        0 <= i <= j < out.len(),
    ensures
        order_key(out[j].relevance_score_bits) <= order_key(out[i].relevance_score_bits),
    decreases j - i,
{
    if i < j {
        lemma_adjacent_to_pairwise(out, i, j - 1);
        let m = j - 1;
        assert(!ranks_above(out[m + 1].relevance_score_bits, out[m].relevance_score_bits));
        assert(!is_nan(out[m].relevance_score_bits));
        assert(!is_nan(out[j].relevance_score_bits));
    }
}

/// For a backend reply of N entries none of which is a NaN, a ranking of it
/// has exactly N entries, ordered by non-increasing relevance score.
pub proof fn lemma_ranking_complete_and_ordered(scores: Seq<BackendScore>, out: Seq<RankedResult>)
    requires
        scores_are_numbers(scores),
        is_ranking(out, scores),
    ensures
        out.len() == scores.len(),
        non_increasing(out),
{
    assert(out.to_multiset().len() == ranked_all(scores).to_multiset().len());
    assert forall|k: int| 0 <= k < out.len() implies !#[trigger] is_nan(
        out[k].relevance_score_bits,
    ) by {
        lemma_ranking_has_no_nan(out, scores, k);
    }
    assert forall|i: int, j: int| 0 <= i < j < out.len() implies !is_nan(
        out[j].relevance_score_bits,
    ) && order_key(out[j].relevance_score_bits) <= order_key(out[i].relevance_score_bits) by {
        lemma_adjacent_to_pairwise(out, i, j);
    }
}

} // verus!
