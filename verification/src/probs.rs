//! The fixed-point probability model.
//!
//! The classifier's softmax output is a vector of real probabilities in
//! `[0, 1]` that sums to 1. This crate carries each probability as an integer
//! number of parts per million, so a whole distribution is a sequence of
//! `u32` values, each at most [`PPM_ONE`]. Quantizing to the nearest part per
//! million perturbs each entry by at most half a unit, so a faithful
//! distribution sums to [`PPM_ONE`] up to one unit per entry; that is the
//! tolerance [`valid_distribution`] admits.

use vstd::prelude::*;

verus! {

/// One whole, in parts per million: the fixed-point rendering of probability 1.
pub const PPM_ONE: u32 = 1000000;

/// The number of classes in the label table of the pretrained classifier.
pub const CLASS_COUNT: usize = 1000;

/// How many of the highest-ranked predictions the service reports.
pub const TOP_K: usize = 5;

/// A class name paired with the probability (in parts per million) that the
/// classifier assigned to it.
pub struct Prediction {
    /// The class name, from the model's label table.
    pub name: String,
    /// The probability of this class, in parts per million.
    pub prob_ppm: u32,
}

impl Clone for Prediction {
    fn clone(&self) -> (r: Self)
        ensures
            r == *self,
    {
        Prediction { name: self.name.clone(), prob_ppm: self.prob_ppm }
    }
}

/// The sum of a sequence of parts-per-million probabilities.
pub open spec fn sum_ppm(s: Seq<u32>) -> int
    decreases s.len(),
{
    if s.len() == 0 {
        0
    } else {
        sum_ppm(s.drop_last()) + s.last()
    }
}

/// What it means for a raw vector of parts-per-million values to be a
/// (quantized) probability distribution: every entry is at most one whole,
/// and the total differs from one whole by at most one part per million per
/// entry (the worst case of rounding each real entry to the nearest unit).
pub open spec fn valid_distribution(s: Seq<u32>) -> bool {
    &&& forall|i: int| 0 <= i < s.len() ==> s[i] <= PPM_ONE
    &&& PPM_ONE - s.len() <= sum_ppm(s) <= PPM_ONE + s.len()
}

/// The probabilities of a prediction sequence, in order.
pub open spec fn probs_of(s: Seq<Prediction>) -> Seq<u32> {
    s.map_values(|p: Prediction| p.prob_ppm)
}

/// The whole-percent rendering of a parts-per-million probability, rounded to
/// the nearest percent.
pub open spec fn spec_percent_of_ppm(ppm: u32) -> int {
    (ppm + 5000) / 10000
}

/// Rounds a probability to the nearest whole percent, as the presentation
/// layer displays it.
pub fn percent_of_ppm(ppm: u32) -> (p: u32)
    requires
        ppm <= PPM_ONE,
    ensures
        p == spec_percent_of_ppm(ppm),
        p <= 100,
{
    (ppm + 5000) / 10000
}

/// Decides [`valid_distribution`] for a raw probability vector.
pub fn check_distribution(probs_ppm: &Vec<u32>) -> (b: bool)
    ensures
        b == valid_distribution(probs_ppm@),
{
    let n = probs_ppm.len();
    let mut i: usize = 0;
    let mut total: u128 = 0;
    while i < n
        invariant
            0 <= i <= n,
            n == probs_ppm@.len(),
            forall|j: int| 0 <= j < i ==> probs_ppm@[j] <= PPM_ONE,
            total == sum_ppm(probs_ppm@.subrange(0, i as int)),
            total <= (i as int) * (PPM_ONE as int),
        decreases n - i,
    {
        let entry: u32 = probs_ppm[i];
        if entry > PPM_ONE {
            proof {
                assert(!valid_distribution(probs_ppm@));
            }
            return false;
        }
        proof {
            assert((i as int) * (PPM_ONE as int) + PPM_ONE == ((i as int) + 1) * (PPM_ONE as int))
                by (nonlinear_arith);
            assert(((i as int) + 1) * (PPM_ONE as int) <= ((usize::MAX as int) + 1) * (
            PPM_ONE as int)) by (nonlinear_arith)
                requires
                    0 <= i < usize::MAX,
            ;
            assert(probs_ppm@.subrange(0, (i as int) + 1).drop_last() =~= probs_ppm@.subrange(
                0,
                i as int,
            ));
        }
        total = total + entry as u128;
        i = i + 1;
    }
    proof {
        assert(probs_ppm@.subrange(0, n as int) =~= probs_ppm@);
    }
    let lo_ok: bool = total + (n as u128) >= PPM_ONE as u128;
    let hi_ok: bool = total <= PPM_ONE as u128 + n as u128;
    lo_ok && hi_ok
}

/// The probability column of a prediction list, for handing to
/// [`check_distribution`].
pub fn prediction_probs(preds: &Vec<Prediction>) -> (r: Vec<u32>)
    ensures
        r@ == probs_of(preds@),
{
    let mut out: Vec<u32> = Vec::new();
    let mut i: usize = 0;
    while i < preds.len()
        invariant
            0 <= i <= preds@.len(),
            out@ =~= probs_of(preds@).subrange(0, i as int),
        decreases preds@.len() - i,
    {
        out.push(preds[i].prob_ppm);
        i = i + 1;
    }
    proof {
        assert(out@ =~= probs_of(preds@));
    }
    out
}

} // verus!
