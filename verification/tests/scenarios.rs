//! End-to-end scenarios over the verified pipeline stages: match flags, the
//! classifier runtime's load states, and whole-field processing.

use foxcheck::{
    accumulate_field, default_target_terms, matches_target, process_field, summarize,
    ClassifierRuntime, PipelineError, Prediction, WasItAFoxResult, CLASS_COUNT, PPM_ONE, TOP_K,
};

fn pred(name: &str, prob_ppm: u32) -> Prediction {
    Prediction {
        name: name.to_string(),
        prob_ppm,
    }
}

fn label_table() -> Vec<String> {
    let mut labels = Vec::new();
    for i in 0..CLASS_COUNT {
        labels.push(format!("class {}", i));
    }
    labels[0] = "red fox, Vulpes vulpes".to_string();
    labels[1] = "bicycle".to_string();
    labels[2] = "grey fox".to_string();
    labels
}

/// A distribution that puts `main_ppm` on `main_class` and spreads the rest
/// over plainly named classes (from index 10 up, clear of the special
/// labels).
fn distribution(main_class: usize, main_ppm: u32) -> Vec<u32> {
    let mut probs = vec![0u32; CLASS_COUNT];
    probs[main_class] = main_ppm;
    let mut rest = PPM_ONE - main_ppm;
    let mut i = 10;
    while rest > 0 {
        if i != main_class {
            let chunk = rest.min(10000);
            probs[i] = chunk;
            rest -= chunk;
        }
        i += 1;
    }
    probs
}

#[test]
fn default_result_is_empty() {
    let r = WasItAFoxResult::default();
    assert!(!r.success);
    assert!(r.object.is_none());
}

#[test]
fn fox_photo_matches_and_reports_the_top_guess() {
    let preds = vec![
        pred("red fox, Vulpes vulpes", 920000),
        pred("kit fox", 40000),
        pred("grey fox", 20000),
        pred("dingo", 15000),
        pred("dhole", 5000),
    ];
    let r = matches_target(&preds, &default_target_terms());
    assert!(r.success);
    let object = r.object.unwrap();
    assert_eq!(object.name, "red fox, Vulpes vulpes");
    assert_eq!(object.probability_percent, 92);
}

#[test]
fn unrelated_photo_still_reports_the_top_guess() {
    let preds = vec![
        pred("bicycle", 810000),
        pred("unicycle", 90000),
        pred("tricycle", 50000),
        pred("moped", 30000),
        pred("scooter", 20000),
    ];
    let r = matches_target(&preds, &default_target_terms());
    assert!(!r.success);
    let object = r.object.unwrap();
    assert_eq!(object.name, "bicycle");
    assert_eq!(object.probability_percent, 81);
}

#[test]
fn match_from_a_lower_rank_still_shows_the_top_guess() {
    let preds = vec![pred("bicycle", 600000), pred("red fox", 300000)];
    let r = matches_target(&preds, &default_target_terms());
    assert!(r.success);
    let object = r.object.unwrap();
    assert_eq!(object.name, "bicycle");
    assert_eq!(object.probability_percent, 60);
}

#[test]
fn no_predictions_mean_no_guess_and_no_match() {
    let preds: Vec<Prediction> = Vec::new();
    let r = matches_target(&preds, &default_target_terms());
    assert!(!r.success);
    assert!(r.object.is_none());
    let s = summarize(&preds, false);
    assert!(!s.success);
    assert!(s.object.is_none());
}

#[test]
fn adding_target_terms_keeps_a_positive_result() {
    let preds = vec![pred("red fox", 700000), pred("lynx", 300000)];
    let narrow = vec!["fox".to_string()];
    let wide = vec!["fox".to_string(), "vulpes".to_string(), "lynx".to_string()];
    assert!(matches_target(&preds, &narrow).success);
    assert!(matches_target(&preds, &wide).success);
}

#[test]
fn accumulate_appends_and_raises_the_flag() {
    let mut results: Vec<Prediction> = Vec::new();
    let mut found = false;
    let terms = default_target_terms();

    let first_field = vec![pred("bicycle", 900000), pred("moped", 100000)];
    accumulate_field(&mut results, &mut found, &first_field, &terms);
    assert!(!found);
    assert_eq!(results.len(), 2);

    let second_field = vec![pred("red fox", 800000), pred("dingo", 200000)];
    accumulate_field(&mut results, &mut found, &second_field, &terms);
    assert!(found);
    assert_eq!(results.len(), 4);
    assert_eq!(results[0].name, "bicycle");
    assert_eq!(results[2].name, "red fox");

    let third_field = vec![pred("lynx", PPM_ONE)];
    accumulate_field(&mut results, &mut found, &third_field, &terms);
    assert!(found, "a raised match flag must stay raised");
}

#[test]
fn runtime_starts_unloaded() {
    let runtime = ClassifierRuntime::new();
    assert!(!runtime.is_loaded());
}

#[test]
fn classify_before_load_is_refused() {
    let runtime = ClassifierRuntime::new();
    let probs = distribution(0, 900000);
    assert!(matches!(
        runtime.classify_output(&probs),
        Err(PipelineError::NotLoadedError)
    ));
}

#[test]
fn a_wrongly_sized_label_table_is_a_load_error() {
    let mut runtime = ClassifierRuntime::new();
    let labels = vec!["only one".to_string()];
    assert_eq!(
        runtime.load_labels(labels),
        Err(PipelineError::ModelLoadError)
    );
    assert!(!runtime.is_loaded());
}

#[test]
fn classify_pairs_labels_with_probabilities() {
    let mut runtime = ClassifierRuntime::new();
    runtime.load_labels(label_table()).unwrap();
    assert!(runtime.is_loaded());
    let probs = distribution(0, 920000);
    let cp = runtime.classify_output(&probs).unwrap();
    assert_eq!(cp.len(), CLASS_COUNT);
    assert_eq!(cp[0].name, "red fox, Vulpes vulpes");
    assert_eq!(cp[0].prob_ppm, 920000);
    assert_eq!(cp[1].name, "bicycle");
}

#[test]
fn classify_output_is_a_distribution() {
    let mut runtime = ClassifierRuntime::new();
    runtime.load_labels(label_table()).unwrap();
    let probs = distribution(0, 700000);
    let cp = runtime.classify_output(&probs).unwrap();
    assert!(foxcheck::check_distribution(&foxcheck::prediction_probs(&cp)));
}

#[test]
fn classify_twice_gives_identical_vectors() {
    let mut runtime = ClassifierRuntime::new();
    runtime.load_labels(label_table()).unwrap();
    let probs = distribution(2, 850000);
    let first = runtime.classify_output(&probs).unwrap();
    let second = runtime.classify_output(&probs).unwrap();
    assert_eq!(first.len(), second.len());
    for (a, b) in first.iter().zip(second.iter()) {
        assert_eq!(a.name, b.name);
        assert_eq!(a.prob_ppm, b.prob_ppm);
    }
}

#[test]
fn a_fox_field_raises_the_flag_through_the_whole_pipeline() {
    let mut runtime = ClassifierRuntime::new();
    runtime.load_labels(label_table()).unwrap();
    let mut results: Vec<Prediction> = Vec::new();
    let mut found = false;
    let probs = distribution(0, 920000);
    process_field(
        &runtime,
        &probs,
        &default_target_terms(),
        &mut results,
        &mut found,
    )
    .unwrap();
    assert!(found);
    assert_eq!(results.len(), TOP_K);
    assert_eq!(results[0].name, "red fox, Vulpes vulpes");
    assert_eq!(results[0].prob_ppm, 920000);
}

#[test]
fn an_unrelated_field_leaves_the_flag_down() {
    let mut runtime = ClassifierRuntime::new();
    runtime.load_labels(label_table()).unwrap();
    let mut results: Vec<Prediction> = Vec::new();
    let mut found = false;
    let probs = distribution(1, 810000);
    process_field(
        &runtime,
        &probs,
        &default_target_terms(),
        &mut results,
        &mut found,
    )
    .unwrap();
    assert!(!found);
    assert_eq!(results.len(), TOP_K);
    assert_eq!(results[0].name, "bicycle");
}

#[test]
fn process_field_without_a_model_changes_nothing() {
    let runtime = ClassifierRuntime::new();
    let mut results: Vec<Prediction> = Vec::new();
    let mut found = false;
    let probs = distribution(0, 900000);
    let r = process_field(
        &runtime,
        &probs,
        &default_target_terms(),
        &mut results,
        &mut found,
    );
    assert_eq!(r, Err(PipelineError::NotLoadedError));
    assert!(!found);
    assert!(results.is_empty());
}
