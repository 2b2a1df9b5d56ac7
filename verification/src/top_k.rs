//! Top-K extraction from a class-probability vector.
//!
//! The K highest-probability predictions, in non-increasing probability
//! order, with ties broken in favour of the earlier class index (a stable
//! selection). The selection is pinned down exactly: the result equals
//! [`top_k_spec`], the sequence obtained by repeatedly removing the first
//! highest-probability entry.

use vstd::prelude::*;

use crate::errors::PipelineError;
use crate::probs::Prediction;

verus! {

/// Position `i` holds the first maximum of `s`: nothing is larger, and
/// everything before `i` is strictly smaller.
pub open spec fn is_first_max(s: Seq<Prediction>, i: int) -> bool {
    &&& 0 <= i < s.len()
    &&& forall|j: int| 0 <= j < s.len() ==> s[j].prob_ppm <= s[i].prob_ppm
    &&& forall|j: int| 0 <= j < i ==> s[j].prob_ppm < s[i].prob_ppm
}

/// The position of the first maximum of a non-empty sequence.
pub open spec fn first_max_index(s: Seq<Prediction>) -> int {
    choose|i: int| is_first_max(s, i)
}

/// The first `k` entries of the stable descending ordering of `s`: take the
/// first maximum, then recurse on the rest.
pub open spec fn top_k_spec(s: Seq<Prediction>, k: nat) -> Seq<Prediction>
    decreases k,
{
    if k == 0 || s.len() == 0 {
        Seq::empty()
    } else {
        let i = first_max_index(s);
        seq![s[i]] + top_k_spec(s.remove(i), (k - 1) as nat)
    }
}

/// Probabilities never increase along the sequence.
pub open spec fn sorted_desc(s: Seq<Prediction>) -> bool {
    forall|i: int, j: int| 0 <= i < j < s.len() ==> s[i].prob_ppm >= s[j].prob_ppm
}

/// `p` is one of the entries of `s`.
pub open spec fn appears_in(p: Prediction, s: Seq<Prediction>) -> bool {
    exists|l: int| 0 <= l < s.len() && p == s[l]
}

/// Every non-empty sequence has a first maximum.
pub proof fn lemma_first_max_exists(s: Seq<Prediction>)
    requires
        s.len() > 0,
    ensures
        is_first_max(s, first_max_index(s)),
    decreases s.len(),
{
    if s.len() == 1 {
        assert(is_first_max(s, 0));
    } else {
        let t = s.drop_last();
        lemma_first_max_exists(t);
        let j = first_max_index(t);
        assert forall|l: int| 0 <= l < s.len() - 1 implies s[l].prob_ppm <= s[j].prob_ppm by {
            assert(t[l] == s[l]);
            assert(t[l].prob_ppm <= t[j].prob_ppm);
        }
        assert forall|l: int| 0 <= l < j implies s[l].prob_ppm < s[j].prob_ppm by {
            assert(t[l] == s[l]);
            assert(t[l].prob_ppm < t[j].prob_ppm);
        }
        if s.last().prob_ppm > s[j].prob_ppm {
            assert(is_first_max(s, s.len() - 1));
        } else {
            assert(is_first_max(s, j));
        }
    }
    let w = choose|i: int| is_first_max(s, i);
    assert(is_first_max(s, w));
}

/// The first maximum is unique.
pub proof fn lemma_first_max_unique(s: Seq<Prediction>, i1: int, i2: int)
    requires
        is_first_max(s, i1),
        is_first_max(s, i2),
    ensures
        i1 == i2,
{
    if i1 < i2 {
        assert(s[i1].prob_ppm < s[i2].prob_ppm);
        assert(s[i2].prob_ppm <= s[i1].prob_ppm);
    } else if i2 < i1 {
        assert(s[i2].prob_ppm < s[i1].prob_ppm);
        assert(s[i1].prob_ppm <= s[i2].prob_ppm);
    }
}

/// The shape of [`top_k_spec`]: it has `min(k, s.len())` entries, its
/// probabilities are non-increasing, and each entry is an entry of `s`.
pub proof fn lemma_top_k_shape(s: Seq<Prediction>, k: nat)
    ensures
        top_k_spec(s, k).len() == if k <= s.len() {
            k as int
        } else {
            s.len() as int
        },
        sorted_desc(top_k_spec(s, k)),
        forall|j: int|
            0 <= j < top_k_spec(s, k).len() ==> appears_in(#[trigger] top_k_spec(s, k)[j], s),
    decreases k,
{
    if k == 0 || s.len() == 0 {
    } else {
        lemma_first_max_exists(s);
        let i = first_max_index(s);
        let rest = s.remove(i);
        let tail = top_k_spec(rest, (k - 1) as nat);
        lemma_top_k_shape(rest, (k - 1) as nat);
        let whole = top_k_spec(s, k);
        assert(whole == seq![s[i]] + tail);
        assert forall|j: int| 0 <= j < whole.len() implies appears_in(
            #[trigger] whole[j],
            s,
        ) by {
            if j == 0 {
                assert(whole[0] == s[i]);
            } else {
                assert(appears_in(tail[j - 1], rest));
                let l0 = choose|l: int| 0 <= l < rest.len() && tail[j - 1] == rest[l];
                if l0 < i {
                    assert(rest[l0] == s[l0]);
                } else {
                    assert(rest[l0] == s[l0 + 1]);
                }
            }
        }
        assert forall|a: int, b: int| 0 <= a < b < whole.len() implies whole[a].prob_ppm
            >= whole[b].prob_ppm by {
            if a == 0 {
                assert(appears_in(tail[b - 1], rest));
                let l0 = choose|l: int| 0 <= l < rest.len() && tail[b - 1] == rest[l];
                if l0 < i {
                    assert(rest[l0] == s[l0]);
                } else {
                    assert(rest[l0] == s[l0 + 1]);
                }
                assert(whole[b].prob_ppm <= s[i].prob_ppm);
            } else {
                assert(tail[a - 1].prob_ppm >= tail[b - 1].prob_ppm);
            }
        }
    }
}

/// Extracts the `k` highest-probability predictions, descending, ties broken
/// by the earlier position. Fails with `InvalidKError` unless
/// `1 <= k <= probs.len()`.
pub fn extract_top_k(probs: &Vec<Prediction>, k: usize) -> (r: Result<
    Vec<Prediction>,
    PipelineError,
>)
    ensures
        match r {
            Ok(top) => {
                &&& 1 <= k <= probs@.len()
                &&& top@ == top_k_spec(probs@, k as nat)
                &&& top@.len() == k
                &&& sorted_desc(top@)
            },
            Err(e) => {
                &&& e == PipelineError::InvalidKError
                &&& !(1 <= k <= probs@.len())
            },
        },
{
    if k < 1 || k > probs.len() {
        return Err(PipelineError::InvalidKError);
    }
    let mut rem: Vec<Prediction> = Vec::new();
    let mut i: usize = 0;
    while i < probs.len()
        invariant
            0 <= i <= probs@.len(),
            rem@ =~= probs@.subrange(0, i as int),
        decreases probs@.len() - i,
    {
        rem.push(probs[i].clone());
        i = i + 1;
    }
    proof {
        assert(rem@ =~= probs@);
    }
    let mut out: Vec<Prediction> = Vec::new();
    while out.len() < k
        invariant
            k <= probs@.len(),
            out@.len() <= k,
            rem@.len() == probs@.len() - out@.len(),
            out@ + top_k_spec(rem@, (k - out@.len()) as nat) == top_k_spec(probs@, k as nat),
        decreases k - out.len(),
    {
        let mut best: usize = 0;
        let mut j: usize = 1;
        while j < rem.len()
            invariant
                rem@.len() >= 1,
                0 <= best < j,
                j <= rem@.len(),
                forall|l: int| 0 <= l < j ==> rem@[l].prob_ppm <= rem@[best as int].prob_ppm,
                forall|l: int| 0 <= l < best ==> rem@[l].prob_ppm < rem@[best as int].prob_ppm,
            decreases rem@.len() - j,
        {
            if rem[j].prob_ppm > rem[best].prob_ppm {
                best = j;
            }
            j = j + 1;
        }
        proof {
            assert(is_first_max(rem@, best as int));
            lemma_first_max_exists(rem@);
            lemma_first_max_unique(rem@, best as int, first_max_index(rem@));
        }
        let ghost old_rem = rem@;
        let ghost old_out = out@;
        let picked = rem.remove(best);
        out.push(picked);
        proof {
            let kk = (k - old_out.len()) as nat;
            assert(top_k_spec(old_rem, kk) == seq![old_rem[best as int]] + top_k_spec(
                old_rem.remove(best as int),
                (kk - 1) as nat,
            ));
            assert(out@ + top_k_spec(rem@, (k - out@.len()) as nat) =~= old_out + top_k_spec(
                old_rem,
                kk,
            ));
        }
    }
    proof {
        assert(top_k_spec(rem@, 0) =~= Seq::<Prediction>::empty());
        assert(out@ + top_k_spec(rem@, (k - out@.len()) as nat) =~= out@);
        lemma_top_k_shape(probs@, k as nat);
    }
    Ok(out)
}

} // verus!
