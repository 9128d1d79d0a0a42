//! What holds of every run of the cascade, proved over the spec functions
//! that the cascade's executable functions are held to.
use vstd::prelude::*;

use crate::cascade::{
    cascade_outcome, first_usable, first_usable_from, primary_outcome, stage_outcome, Candidate,
    LanguageConfidence,
};
use crate::error::DetectError;
use crate::taxonomy::{
    is_redundant_label_spec, is_redundant_tag, lemma_supported_tag_not_redundant, supported_tag,
    SUPPORTED_COUNT,
};

verus! {

/// The search for a usable candidate from `start` on finds the first
/// candidate whose label is not redundant, or finds none when all are.
pub proof fn lemma_first_usable_from(candidates: Seq<Candidate>, start: int)
    requires
        0 <= start,
    ensures
        match first_usable_from(candidates, start) {
            Some(i) => start <= i < candidates.len()
                && !is_redundant_label_spec(candidates[i].label@)
                && forall|j: int| start <= j < i ==> is_redundant_label_spec(#[trigger] candidates[j].label@),
            None => forall|j: int| start <= j < candidates.len() ==> is_redundant_label_spec(#[trigger] candidates[j].label@),
        },
    decreases candidates.len() - start,
{
    if start < candidates.len() && is_redundant_label_spec(candidates[start].label@) {
        lemma_first_usable_from(candidates, start + 1);
    }
}

/// Whether two rankings of the primary classifier hold the same labels with
/// the same scores, in the same order.
pub open spec fn same_candidates(a: Seq<Candidate>, b: Seq<Candidate>) -> bool {
    &&& a.len() == b.len()
    &&& forall|i: int| 0 <= i < a.len() ==> (#[trigger] a[i]).label@ == b[i].label@ && a[i].score@ == b[i].score@
}

/// Whether two rankings of the secondary classifier hold the same languages
/// with the same confidences, in the same order.
pub open spec fn same_values(a: Seq<LanguageConfidence>, b: Seq<LanguageConfidence>) -> bool {
    &&& a.len() == b.len()
    &&& forall|i: int| 0 <= i < a.len() ==> (#[trigger] a[i]).language == b[i].language && a[i].confidence@ == b[i].confidence@
}

proof fn lemma_first_usable_same(a: Seq<Candidate>, b: Seq<Candidate>, start: int)
    requires
        0 <= start,
        same_candidates(a, b),
    ensures
        first_usable_from(a, start) == first_usable_from(b, start),
    decreases a.len() - start,
{
    if start < a.len() {
        assert(a[start].label@ == b[start].label@);
        lemma_first_usable_same(a, b, start + 1);
    }
}

/// The answer is never a redundant tag: the primary classifier's redundant
/// labels are skipped, and no language of the secondary classifier carries
/// one.
pub proof fn lemma_never_redundant(
    candidates: Seq<Candidate>,
    values: Seq<LanguageConfidence>,
    fast: u64,
    slow: u64,
)
    ensures
        cascade_outcome(candidates, values, fast, slow) matches Ok(p) ==> !is_redundant_tag(p.0),
        primary_outcome(candidates) matches Ok(p) ==> !is_redundant_tag(p.0),
{
    lemma_first_usable_from(candidates, 0);
    if values.len() > 0 && values[0].language < SUPPORTED_COUNT {
        lemma_supported_tag_not_redundant(values[0].language as int);
    }
}

/// A primary prediction that meets the fast threshold is the answer: the
/// first stage accepts it, so the secondary classifier is not consulted,
/// and no ranking of the secondary classifier changes the result.
pub proof fn lemma_fast_path(
    candidates: Seq<Candidate>,
    values: Seq<LanguageConfidence>,
    fast: u64,
    slow: u64,
)
    requires
        primary_outcome(candidates) is Ok,
        primary_outcome(candidates)->Ok_0.1 >= fast,
    ensures
        stage_outcome(candidates, fast) == Ok::<(bool, (Seq<char>, u64)), DetectError>((false, primary_outcome(candidates)->Ok_0)),
        cascade_outcome(candidates, values, fast, slow) == primary_outcome(candidates),
{
}

/// When neither classifier is confident, the answer is the primary
/// prediction, with its own language and confidence.
pub proof fn lemma_low_confidence_keeps_primary(
    candidates: Seq<Candidate>,
    values: Seq<LanguageConfidence>,
    fast: u64,
    slow: u64,
)
    requires
        primary_outcome(candidates) is Ok,
        primary_outcome(candidates)->Ok_0.1 < fast,
        values.len() > 0,
        values[0].confidence@ <= slow,
    ensures
        cascade_outcome(candidates, values, fast, slow) == primary_outcome(candidates),
{
}

/// When the primary prediction falls short of the fast threshold and the
/// secondary classifier's best language is confident beyond the slow
/// threshold, the answer is that language with the secondary confidence.
pub proof fn lemma_secondary_accepted(
    candidates: Seq<Candidate>,
    values: Seq<LanguageConfidence>,
    fast: u64,
    slow: u64,
)
    requires
        primary_outcome(candidates) is Ok,
        primary_outcome(candidates)->Ok_0.1 < fast,
        values.len() > 0,
        values[0].confidence@ > slow,
        values[0].language < SUPPORTED_COUNT,
    ensures
        cascade_outcome(candidates, values, fast, slow) == Ok::<(Seq<char>, u64), DetectError>(
            (supported_tag(values[0].language as int), values[0].confidence@),
        ),
{
}

/// A secondary confidence exactly at the slow threshold is not confident
/// enough: the primary prediction stays the answer.
pub proof fn lemma_slow_threshold_rejects(
    candidates: Seq<Candidate>,
    values: Seq<LanguageConfidence>,
    fast: u64,
)
    requires
        primary_outcome(candidates) is Ok,
        primary_outcome(candidates)->Ok_0.1 < fast,
        values.len() > 0,
    ensures
        cascade_outcome(candidates, values, fast, values[0].confidence@) == primary_outcome(candidates),
{
}

/// A ranking whose labels are all redundant, or that is empty, yields
/// `NoPredictionFound`, whatever the thresholds and the secondary ranking.
pub proof fn lemma_all_redundant_fails(
    candidates: Seq<Candidate>,
    values: Seq<LanguageConfidence>,
    fast: u64,
    slow: u64,
)
    requires
        forall|i: int| 0 <= i < candidates.len() ==> is_redundant_label_spec(#[trigger] candidates[i].label@),
    ensures
        primary_outcome(candidates) == Err::<(Seq<char>, u64), DetectError>(DetectError::NoPredictionFound),
        cascade_outcome(candidates, values, fast, slow) == Err::<(Seq<char>, u64), DetectError>(DetectError::NoPredictionFound),
{
    lemma_first_usable_from(candidates, 0);
}

/// The cascade is a function of what the classifiers answered and of the
/// thresholds: equal answers and thresholds give equal results.
pub proof fn lemma_deterministic(
    candidates1: Seq<Candidate>,
    candidates2: Seq<Candidate>,
    values1: Seq<LanguageConfidence>,
    values2: Seq<LanguageConfidence>,
    fast: u64,
    slow: u64,
)
    requires
        same_candidates(candidates1, candidates2),
        same_values(values1, values2),
    ensures
        cascade_outcome(candidates1, values1, fast, slow) == cascade_outcome(candidates2, values2, fast, slow),
{
    lemma_first_usable_same(candidates1, candidates2, 0);
    if values1.len() > 0 {
        assert(values1[0].language == values2[0].language);
    }
    match first_usable(candidates1) {
        Some(i) => {
            lemma_first_usable_from(candidates1, 0);
            assert(candidates1[i].label@ == candidates2[i].label@);
        },
        None => {},
    }
}

} // verus!
