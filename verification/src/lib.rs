//! Core of an image-classification service that answers whether an uploaded
//! picture shows a particular target concept (a fox, in the shipped
//! configuration).
//!
//! The pipeline is: decode and normalize the upload into a fixed-size tensor,
//! run a pretrained classifier to obtain a probability distribution over the
//! class table, extract the top-K predictions, and match their class names
//! against a set of target substrings.
//!
//! The numeric work of the decoder and of the network itself is done by an
//! image/tensor runtime outside this crate; this library owns everything that
//! can be stated over plain values: probabilities are carried as fixed-point
//! parts-per-million integers, and the distribution invariant, the top-K
//! selection, the substring matching and the final match flag are verified here.

use vstd::prelude::*;

mod errors;
mod probs;
mod text;
mod top_k;
mod matching;
mod runtime;

pub use errors::PipelineError;
pub use probs::{Prediction, PPM_ONE, CLASS_COUNT, TOP_K};
pub use probs::{percent_of_ppm, check_distribution, prediction_probs};
pub use probs::{sum_ppm, valid_distribution, probs_of, spec_percent_of_ppm};
pub use text::{str_contains_term, matches_any};
pub use text::{match_at, contains_term, name_matches};
pub use top_k::{extract_top_k, lemma_top_k_shape};
pub use top_k::{is_first_max, first_max_index, top_k_spec, sorted_desc, appears_in};
pub use matching::{WasItAFoxResult, IdentifiedObject};
pub use matching::{matches_target, summarize, accumulate_field, default_target_terms};
pub use matching::{any_prediction_matches, probs_in_range, result_reflects};
pub use matching::lemma_matches_monotonic;
pub use runtime::{ClassifierRuntime, spec_class_probs, lemma_classify_deterministic};

verus! {

/// The ranked predictions that one classification reports: the top
/// [`TOP_K`] entries of the class-probability vector that pairs the
/// runtime's label table with the given softmax output.
pub open spec fn spec_field_top(runtime: ClassifierRuntime, probs_ppm: Seq<u32>) -> Seq<
    probs::Prediction,
> {
    top_k::top_k_spec(
        runtime::spec_class_probs(runtime.spec_labels(), probs_ppm),
        TOP_K as nat,
    )
}

/// Folds one upload field's classifier output into the running state of a
/// request: the field's top predictions are appended to `results`, and
/// `found` is raised if any of them names a target term. Fails with
/// `NotLoadedError`, leaving the state untouched, when no model is loaded.
pub fn process_field(
    runtime: &ClassifierRuntime,
    probs_ppm: &Vec<u32>,
    target_terms: &Vec<String>,
    results: &mut Vec<probs::Prediction>,
    found: &mut bool,
) -> (r: Result<(), PipelineError>)
    requires
        runtime.wf(),
        runtime.spec_loaded() ==> probs_ppm@.len() == CLASS_COUNT && probs::valid_distribution(
            probs_ppm@,
        ),
    ensures
        match r {
            Ok(u) => {
                &&& runtime.spec_loaded()
                &&& final(results)@ == old(results)@ + spec_field_top(*runtime, probs_ppm@)
                &&& *final(found) == (*old(found) || matching::any_prediction_matches(
                    spec_field_top(*runtime, probs_ppm@),
                    target_terms@,
                ))
            },
            Err(e) => {
                &&& e == PipelineError::NotLoadedError
                &&& !runtime.spec_loaded()
                &&& final(results)@ == old(results)@
                &&& *final(found) == *old(found)
            },
        },
{
    let named = match runtime.classify_output(probs_ppm) {
        Ok(cp) => cp,
        Err(e) => {
            return Err(e);
        },
    };
    let top = match extract_top_k(&named, TOP_K) {
        Ok(t) => t,
        Err(_) => {
            proof {
                assert(false);
            }
            return Err(PipelineError::NotLoadedError);
        },
    };
    accumulate_field(results, found, &top, target_terms);
    Ok(())
}

/// A screening check applied to an upload before it is handed to the image
/// codec: an empty byte sequence can never be a valid encoded image.
pub fn decode_precheck(byte_len: usize) -> (r: Result<(), PipelineError>)
    ensures
        r is Err <==> byte_len == 0,
        r is Err ==> r == Result::<(), PipelineError>::Err(PipelineError::DecodeError),
{
    if byte_len == 0 {
        Err(PipelineError::DecodeError)
    } else {
        Ok(())
    }
}

} // verus!
