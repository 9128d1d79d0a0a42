use std::cell::Cell;

use nllb::cascade::{
    primary_prediction, secondary_prediction, Candidate, Detector, LanguageConfidence, Prediction,
    Stage, PRIMARY_TOP_K,
};
use nllb::confidence::Confidence;
use nllb::error::DetectError;
use nllb::taxonomy::Taxonomy;

fn score(x: f64) -> Confidence {
    Confidence::from_bits(x.to_bits()).unwrap()
}

fn candidate(x: f64, label: &str) -> Candidate {
    Candidate { score: score(x), label: label.to_string() }
}

fn value(language: usize, x: f64) -> LanguageConfidence {
    LanguageConfidence { language, confidence: score(x) }
}

fn prediction(language: &str, x: f64) -> Prediction {
    Prediction { language: language.to_string(), confidence: score(x) }
}

#[test]
fn bonjour_fast_path_without_secondary() {
    let detector = Detector::new();
    let query = detector.primary_query("Bonjour le monde");
    assert_eq!(query.text, "Bonjour le monde");
    let candidates = vec![candidate(0.92, "__label__fra_Latn")];
    let calls = Cell::new(0u32);
    let result = detector.detect(&candidates, score(0.5), score(0.5), || {
        calls.set(calls.get() + 1);
        vec![value(17, 0.99)]
    });
    assert_eq!(result, Ok(prediction("fra_Latn", 0.92)));
    assert_eq!(result.unwrap().confidence.bits(), 0.92f64.to_bits());
    assert_eq!(calls.get(), 0);
}

#[test]
fn primary_query_asks_for_top_candidates_in_strict_mode() {
    let detector = Detector::new();
    let query = detector.primary_query("hello");
    assert_eq!(query.top_k, 24);
    assert_eq!(query.top_k, PRIMARY_TOP_K);
    assert_eq!(query.score_floor.bits(), 0.0f64.to_bits());
    assert_eq!(query.mode, "strict");
}

#[test]
fn redundant_top_candidate_is_skipped() {
    let candidates = vec![
        candidate(0.8, "__label__ton_Latn"),
        candidate(0.1, "__label__eng_Latn"),
    ];
    assert_eq!(primary_prediction(&Taxonomy::new(), &candidates), Ok(prediction("eng_Latn", 0.1)));
    let detector = Detector::new();
    let result = detector.detect(&candidates, score(0.05), score(0.5), || vec![value(21, 0.9)]);
    assert_eq!(result, Ok(prediction("eng_Latn", 0.1)));
}

#[test]
fn fast_path_stage_accepts_and_secondary_is_not_called() {
    let detector = Detector::new();
    let candidates = vec![candidate(0.7, "__label__deu_Latn")];
    assert_eq!(
        detector.start(&candidates, score(0.7)),
        Ok(Stage::Accepted(prediction("deu_Latn", 0.7)))
    );
    let calls = Cell::new(0u32);
    let result = detector.detect(&candidates, score(0.6), score(0.0), || {
        calls.set(calls.get() + 1);
        vec![value(0, 1.0)]
    });
    assert_eq!(result, Ok(prediction("deu_Latn", 0.7)));
    assert_eq!(calls.get(), 0);
}

#[test]
fn slow_path_calls_secondary_once() {
    let detector = Detector::new();
    let candidates = vec![candidate(0.3, "__label__deu_Latn")];
    assert_eq!(
        detector.start(&candidates, score(0.5)),
        Ok(Stage::NeedsSecondary(prediction("deu_Latn", 0.3)))
    );
    let calls = Cell::new(0u32);
    let result = detector.detect(&candidates, score(0.5), score(0.5), || {
        calls.set(calls.get() + 1);
        vec![value(24, 0.9), value(21, 0.1)]
    });
    assert_eq!(result, Ok(prediction("deu_Latn", 0.9)));
    assert_eq!(calls.get(), 1);
}

#[test]
fn low_confidence_both_keeps_primary() {
    let detector = Detector::new();
    let candidates = vec![candidate(0.4, "__label__por_Latn")];
    let result = detector.detect(&candidates, score(0.5), score(0.6), || vec![value(57, 0.55)]);
    assert_eq!(result, Ok(prediction("por_Latn", 0.4)));
}

#[test]
fn confident_secondary_is_accepted() {
    let detector = Detector::new();
    let candidates = vec![candidate(0.4, "__label__por_Latn")];
    let result = detector.detect(&candidates, score(0.5), score(0.6), || vec![value(57, 0.75)]);
    assert_eq!(result, Ok(prediction("spa_Latn", 0.75)));
}

#[test]
fn secondary_exactly_at_slow_threshold_keeps_primary() {
    let detector = Detector::new();
    let candidates = vec![candidate(0.2, "__label__ita_Latn")];
    let result = detector.detect(&candidates, score(0.5), score(0.6), || vec![value(21, 0.6)]);
    assert_eq!(result, Ok(prediction("ita_Latn", 0.2)));
}

#[test]
fn primary_exactly_at_fast_threshold_is_accepted() {
    let detector = Detector::new();
    let candidates = vec![candidate(0.5, "__label__ita_Latn")];
    let result = detector.detect(&candidates, score(0.5), score(0.0), || vec![value(21, 0.9)]);
    assert_eq!(result, Ok(prediction("ita_Latn", 0.5)));
}

#[test]
fn only_redundant_candidates_fail() {
    let candidates = vec![
        candidate(0.5, "__label__ton_Latn"),
        candidate(0.3, "__label__kal_Latn"),
        candidate(0.2, "__label__pcm_Latn"),
    ];
    assert_eq!(primary_prediction(&Taxonomy::new(), &candidates), Err(DetectError::NoPredictionFound));
    let detector = Detector::new();
    let calls = Cell::new(0u32);
    let result = detector.detect(&candidates, score(0.9), score(0.1), || {
        calls.set(calls.get() + 1);
        vec![value(17, 0.99)]
    });
    assert_eq!(result, Err(DetectError::NoPredictionFound));
    assert_eq!(calls.get(), 0);
}

#[test]
fn empty_candidates_fail() {
    assert_eq!(primary_prediction(&Taxonomy::new(), &Vec::new()), Err(DetectError::NoPredictionFound));
}

#[test]
fn label_without_marker_is_unknown() {
    let candidates = vec![candidate(0.9, "fra_Latn")];
    assert_eq!(primary_prediction(&Taxonomy::new(), &candidates), Err(DetectError::UnknownLabel));
    let detector = Detector::new();
    assert_eq!(detector.start(&candidates, score(0.1)), Err(DetectError::UnknownLabel));
}

#[test]
fn empty_secondary_ranking_fails() {
    let detector = Detector::new();
    let candidates = vec![candidate(0.2, "__label__fra_Latn")];
    let result = detector.detect(&candidates, score(0.5), score(0.5), Vec::new);
    assert_eq!(result, Err(DetectError::DetectionFailed));
}

#[test]
fn secondary_language_out_of_table_fails() {
    let primary = prediction("fra_Latn", 0.2);
    assert_eq!(
        secondary_prediction(primary.clone(), &vec![value(74, 0.9)], score(0.5)),
        Err(DetectError::UnsupportedLanguage)
    );
    assert_eq!(
        secondary_prediction(primary.clone(), &vec![value(74, 0.4)], score(0.5)),
        Ok(primary)
    );
}

#[test]
fn only_first_secondary_entry_counts() {
    let primary = prediction("fra_Latn", 0.2);
    assert_eq!(
        secondary_prediction(primary, &vec![value(73, 0.8), value(0, 0.95)], score(0.5)),
        Ok(prediction("zul_Latn", 0.8))
    );
}

#[test]
fn finish_matches_secondary_prediction() {
    let detector = Detector::new();
    let primary = prediction("nld_Latn", 0.1);
    assert_eq!(
        detector.finish(primary, &vec![value(16, 0.7)], score(0.5)),
        Ok(prediction("nld_Latn", 0.7))
    );
}

#[test]
fn repeated_detection_is_identical() {
    let detector = Detector::new();
    let candidates = vec![
        candidate(0.45, "__label__oss_Cyrl"),
        candidate(0.35, "__label__rus_Cyrl"),
    ];
    let run = || detector.detect(&candidates, score(0.5), score(0.3), || vec![value(50, 0.31)]);
    let first = run();
    let second = run();
    assert_eq!(first, Ok(prediction("rus_Cyrl", 0.31)));
    assert_eq!(first, second);
    assert_eq!(
        first.unwrap().confidence.bits(),
        second.unwrap().confidence.bits()
    );
}

#[test]
fn error_messages() {
    assert_eq!(DetectError::NoPredictionFound.message(), "No prediction found!");
    assert_eq!(DetectError::UnknownLabel.message(), "Unknown language label!");
    assert_eq!(DetectError::DetectionFailed.message(), "Failed to predict a language!");
    assert_eq!(DetectError::UnsupportedLanguage.message(), "Unsupported language!");
}
