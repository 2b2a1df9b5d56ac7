//! Deciding whether any top-ranked prediction names the target concept.
//!
//! A prediction matches when its class name contains one of the configured
//! target terms. The reported `object` is always the single highest-ranked
//! prediction, even when the match that decided the positive answer came from a
//! lower-ranked entry; the surrounding service displays the top guess either
//! way, and this module keeps that behaviour.

use vstd::prelude::*;
use vstd::string::StringExecFns;

use crate::probs::{Prediction, PPM_ONE, spec_percent_of_ppm, percent_of_ppm};
use crate::text::{name_matches, matches_any};

verus! {

/// The top guess shown to the user: a class name and its probability rounded
/// to a whole percent.
pub struct IdentifiedObject {
    /// The class name of the highest-ranked prediction.
    pub name: String,
    /// Its probability, rounded to the nearest whole percent.
    pub probability_percent: u32,
}

/// The record handed to the presentation layer.
pub struct WasItAFoxResult {
    /// Whether any top-ranked prediction named the target concept.
    pub success: bool,
    /// The highest-ranked prediction, if there was any prediction at all.
    pub object: Option<IdentifiedObject>,
}

impl Default for WasItAFoxResult {
    /// The match flag before any prediction has been seen: no match, no guess.
    fn default() -> (r: Self)
        ensures
            !r.success,
            r.object is None,
    {
        WasItAFoxResult { success: false, object: None }
    }
}

/// Some prediction's class name contains some target term.
pub open spec fn any_prediction_matches(preds: Seq<Prediction>, terms: Seq<String>) -> bool {
    exists|i: int| 0 <= i < preds.len() && name_matches(preds[i].name@, terms)
}

/// All probabilities of a prediction list are at most one whole.
pub open spec fn probs_in_range(preds: Seq<Prediction>) -> bool {
    forall|i: int| 0 <= i < preds.len() ==> preds[i].prob_ppm <= PPM_ONE
}

/// The record the presentation layer receives for a given prediction list and
/// match flag: the match flag, and the first (highest-ranked) prediction with
/// its probability rounded to a whole percent.
pub open spec fn result_reflects(
    r: WasItAFoxResult,
    preds: Seq<Prediction>,
    success: bool,
) -> bool {
    &&& r.success == success
    &&& if preds.len() == 0 {
        r.object is None
    } else {
        r.object matches Some(o) && o.name == preds[0].name && o.probability_percent
            == spec_percent_of_ppm(preds[0].prob_ppm)
    }
}

/// Builds the presentation record from the accumulated predictions and the
/// match flag, as the request handler does once all upload fields are processed.
pub fn summarize(results: &Vec<Prediction>, found_match: bool) -> (r: WasItAFoxResult)
    requires
        probs_in_range(results@),
    ensures
        result_reflects(r, results@, found_match),
{
    let mut r = WasItAFoxResult::default();
    r.success = found_match;
    if results.len() > 0 {
        let first = &results[0];
        r.object = Some(
            IdentifiedObject {
                name: first.name.clone(),
                probability_percent: percent_of_ppm(first.prob_ppm),
            },
        );
    }
    r
}

/// Decides whether any of the given predictions names the target concept, and
/// reports the highest-ranked prediction either way.
pub fn matches_target(predictions: &Vec<Prediction>, target_terms: &Vec<String>) -> (r:
    WasItAFoxResult)
    requires
        probs_in_range(predictions@),
    ensures
        result_reflects(r, predictions@, any_prediction_matches(predictions@, target_terms@)),
{
    let mut found: bool = false;
    let mut i: usize = 0;
    while i < predictions.len()
        invariant
            0 <= i <= predictions@.len(),
            found == exists|j: int| 0 <= j < i && name_matches(predictions@[j].name@, target_terms@),
        decreases predictions@.len() - i,
    {
        if matches_any(predictions[i].name.as_str(), target_terms) {
            found = true;
        }
        i = i + 1;
    }
    summarize(predictions, found)
}

/// Folds one upload field's top predictions into the running state of the
/// request: the predictions are appended to the accumulated list, and the
/// match flag is raised if any of them matches a target term.
pub fn accumulate_field(
    results: &mut Vec<Prediction>,
    found: &mut bool,
    top: &Vec<Prediction>,
    target_terms: &Vec<String>,
)
    ensures
        final(results)@ == old(results)@ + top@,
        *final(found) == (*old(found) || any_prediction_matches(top@, target_terms@)),
{
    let mut i: usize = 0;
    while i < top.len()
        invariant
            0 <= i <= top@.len(),
            results@ =~= old(results)@ + top@.subrange(0, i as int),
            *found == (*old(found) || exists|j: int|
                0 <= j < i && name_matches(top@[j].name@, target_terms@)),
        decreases top@.len() - i,
    {
        if matches_any(top[i].name.as_str(), target_terms) {
            *found = true;
        }
        results.push(top[i].clone());
        i = i + 1;
    }
    proof {
        assert(results@ =~= old(results)@ + top@);
    }
}

/// Raising the match flag can only come from a match: with more target terms
/// available, a prediction list that matched keeps matching. Adding terms to
/// the target set never turns a positive answer negative.
pub proof fn lemma_matches_monotonic(preds: Seq<Prediction>, terms: Seq<String>, more: Seq<String>)
    requires
        forall|t: int|
            0 <= t < terms.len() ==> exists|u: int| 0 <= u < more.len() && #[trigger] terms[t]@ == more[u]@,
        any_prediction_matches(preds, terms),
    ensures
        any_prediction_matches(preds, more),
{
    let i = choose|i: int| 0 <= i < preds.len() && name_matches(preds[i].name@, terms);
    let t = choose|t: int| 0 <= t < terms.len() && crate::text::contains_term(
        preds[i].name@,
        terms[t]@,
    );
    let u = choose|u: int| 0 <= u < more.len() && terms[t]@ == more[u]@;
    assert(crate::text::contains_term(preds[i].name@, more[u]@));
    assert(name_matches(preds[i].name@, more));
}

/// The target terms the shipped service looks for: the common name and the
/// genus fragment of the scientific names of foxes.
pub fn default_target_terms() -> (r: Vec<String>)
    ensures
        r@.len() == 2,
        r@[0]@ == "fox"@,
        r@[1]@ == "vulpes"@,
{
    let mut terms: Vec<String> = Vec::new();
    terms.push(String::from_str("fox"));
    terms.push(String::from_str("vulpes"));
    terms
}

} // verus!
