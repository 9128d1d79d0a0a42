use nllb::error::DetectError;
use nllb::taxonomy::{
    label_marker, normalize_label, supported_language, Taxonomy, REDUNDANT_COUNT, SUPPORTED_COUNT,
};

#[test]
fn redundant_labels_are_recognised() {
    let taxonomy = Taxonomy::new();
    for label in [
        "__label__ton_Latn",
        "__label__oss_Cyrl",
        "__label__che_Cyrl",
        "__label__ady_Cyrl",
        "__label__tah_Latn",
        "__label__diq_Latn",
        "__label__nia_Latn",
        "__label__nav_Latn",
        "__label__abk_Cyrl",
        "__label__bxr_Cyrl",
        "__label__wes_Latn",
        "__label__gom_Deva",
        "__label__udm_Cyrl",
        "__label__roh_Latn",
        "__label__alt_Cyrl",
        "__label__arn_Latn",
        "__label__ewo_Latn",
        "__label__xmf_Geor",
        "__label__pcm_Latn",
        "__label__bis_Latn",
        "__label__krc_Cyrl",
        "__label__chv_Cyrl",
        "__label__kal_Latn",
    ] {
        assert!(taxonomy.is_redundant_label(label), "{label}");
    }
    assert_eq!(REDUNDANT_COUNT, 23);
}

#[test]
fn ordinary_labels_are_not_redundant() {
    let taxonomy = Taxonomy::new();
    assert!(!taxonomy.is_redundant_label("__label__eng_Latn"));
    assert!(!taxonomy.is_redundant_label("__label__fra_Latn"));
    assert!(!taxonomy.is_redundant_label("ton_Latn"));
    assert!(!taxonomy.is_redundant_label("__label__ton_Latn_x"));
    assert!(!taxonomy.is_redundant_label(""));
}

#[test]
fn redundant_tags_without_marker() {
    let taxonomy = Taxonomy::new();
    assert!(taxonomy.is_redundant_tag("che_Cyrl"));
    assert!(!taxonomy.is_redundant_tag("rus_Cyrl"));
    assert!(!taxonomy.is_redundant_tag("__label__che_Cyrl"));
}

#[test]
fn normalize_strips_marker() {
    assert_eq!(label_marker(), "__label__");
    assert_eq!(normalize_label("__label__fra_Latn"), Ok("fra_Latn".to_string()));
    assert_eq!(normalize_label("__label__"), Ok(String::new()));
    assert_eq!(normalize_label("fra_Latn"), Err(DetectError::UnknownLabel));
    assert_eq!(normalize_label("label__fra_Latn"), Err(DetectError::UnknownLabel));
}

#[test]
fn supported_languages_by_position() {
    assert_eq!(SUPPORTED_COUNT, 74);
    assert_eq!(supported_language(0), Some("afr_Latn"));
    assert_eq!(supported_language(17), Some("eng_Latn"));
    assert_eq!(supported_language(21), Some("fra_Latn"));
    assert_eq!(supported_language(73), Some("zul_Latn"));
    assert_eq!(supported_language(74), None);
    assert_eq!(supported_language(usize::MAX), None);
}

#[test]
fn no_supported_language_is_redundant() {
    let taxonomy = Taxonomy::new();
    for index in 0..SUPPORTED_COUNT {
        let tag = supported_language(index).unwrap();
        assert!(!taxonomy.is_redundant_tag(tag), "{tag}");
    }
}
