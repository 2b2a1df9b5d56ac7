//! The classifier runtime's verified half.
//!
//! The forward pass of the pretrained network runs in the tensor runtime
//! outside this crate; what is owned here is the state around it: the
//! load-once class-name table, the not-loaded failure mode, and the pairing
//! of the network's output vector with the class names. The surrounding
//! service performs the weight-file and tensor work and hands this module
//! plain values: the label table after a successful load, and the softmax
//! output (quantized to parts per million) for each classification.

use vstd::prelude::*;

use crate::errors::PipelineError;
use crate::probs::{Prediction, CLASS_COUNT, valid_distribution, probs_of};

verus! {

/// The class-probability vector that pairing a label table with a raw
/// probability vector produces, index by index.
pub open spec fn spec_class_probs(labels: Seq<String>, probs: Seq<u32>) -> Seq<Prediction> {
    Seq::new(probs.len(), |i: int| Prediction { name: labels[i], prob_ppm: probs[i] })
}

/// The load-once state shared by all classification requests: whether a
/// model has been loaded, and the class-name table that arrived with it.
pub struct ClassifierRuntime {
    labels: Vec<String>,
    loaded: bool,
}

impl ClassifierRuntime {
    /// Whether a model has been loaded.
    pub closed spec fn spec_loaded(&self) -> bool {
        self.loaded
    }

    /// The class-name table, one name per output index.
    pub closed spec fn spec_labels(&self) -> Seq<String> {
        self.labels@
    }

    /// A loaded runtime carries exactly one label per class.
    pub open spec fn wf(&self) -> bool {
        self.spec_loaded() ==> self.spec_labels().len() == CLASS_COUNT
    }

    /// A runtime with no model: every classification fails until a load
    /// completes.
    pub fn new() -> (r: Self)
        ensures
            !r.spec_loaded(),
            r.wf(),
    {
        ClassifierRuntime { labels: Vec::new(), loaded: false }
    }

    /// Whether classification is currently possible.
    pub fn is_loaded(&self) -> (b: bool)
        ensures
            b == self.spec_loaded(),
    {
        self.loaded
    }

    /// Completes a load with the class-name table that arrived with the
    /// weights. A table whose size does not fit the architecture's output
    /// layer is the load failure of an incompatible model.
    pub fn load_labels(&mut self, labels: Vec<String>) -> (r: Result<(), PipelineError>)
        requires
            old(self).wf(),
        ensures
            labels@.len() == CLASS_COUNT ==> (r is Ok && final(self).spec_loaded()
                && final(self).spec_labels() == labels@),
            labels@.len() != CLASS_COUNT ==> (r == Result::<(), PipelineError>::Err(
                PipelineError::ModelLoadError,
            ) && *final(self) == *old(self)),
            final(self).wf(),
    {
        if labels.len() == CLASS_COUNT {
            self.labels = labels;
            self.loaded = true;
            Ok(())
        } else {
            Err(PipelineError::ModelLoadError)
        }
    }

    /// Pairs the network's softmax output with the class-name table, giving
    /// the class-probability vector of a classification. Fails with
    /// `NotLoadedError` when no model has been loaded; a loaded runtime is
    /// handed one quantized probability per class, as the softmax of the
    /// forward pass produces.
    pub fn classify_output(&self, probs_ppm: &Vec<u32>) -> (r: Result<
        Vec<Prediction>,
        PipelineError,
    >)
        requires
            self.wf(),
            self.spec_loaded() ==> probs_ppm@.len() == CLASS_COUNT && valid_distribution(
                probs_ppm@,
            ),
        ensures
            match r {
                Ok(cp) => {
                    &&& self.spec_loaded()
                    &&& cp@.len() == CLASS_COUNT
                    &&& cp@ == spec_class_probs(self.spec_labels(), probs_ppm@)
                    &&& valid_distribution(probs_of(cp@))
                },
                Err(e) => {
                    &&& e == PipelineError::NotLoadedError
                    &&& !self.spec_loaded()
                },
            },
    {
        if !self.loaded {
            return Err(PipelineError::NotLoadedError);
        }
        let mut cp: Vec<Prediction> = Vec::new();
        let mut i: usize = 0;
        while i < CLASS_COUNT
            invariant
                0 <= i <= CLASS_COUNT,
                self.labels@.len() == CLASS_COUNT,
                probs_ppm@.len() == CLASS_COUNT,
                cp@.len() == i,
                forall|j: int|
                    0 <= j < i ==> (#[trigger] cp@[j]).name == self.labels@[j] && cp@[j].prob_ppm
                        == probs_ppm@[j],
            decreases CLASS_COUNT - i,
        {
            cp.push(
                Prediction { name: self.labels[i].clone(), prob_ppm: probs_ppm[i] },
            );
            i = i + 1;
        }
        proof {
            assert(probs_of(cp@) =~= probs_ppm@);
            assert(cp@ =~= spec_class_probs(self.labels@, probs_ppm@));
        }
        Ok(cp)
    }
}

/// Classification is deterministic in its verified half: two successful
/// classifications against the same runtime and the identical quantized
/// softmax vector produce equal class-probability vectors, because
/// [`ClassifierRuntime::classify_output`] pins its result to
/// [`spec_class_probs`] of the label table and the input alone. (The forward
/// pass that produces the softmax vector runs in the native tensor runtime
/// and is outside this statement.)
pub proof fn lemma_classify_deterministic(
    runtime: ClassifierRuntime,
    probs_ppm: Seq<u32>,
    cp1: Seq<Prediction>,
    cp2: Seq<Prediction>,
)
    requires
        cp1 == spec_class_probs(runtime.spec_labels(), probs_ppm),
        cp2 == spec_class_probs(runtime.spec_labels(), probs_ppm),
    ensures
        cp1 == cp2,
{
}

} // verus!
