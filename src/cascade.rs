//! The cascade: a fast primary classifier answers when it is confident, and
//! a slower secondary classifier is consulted only when it is not.
use vstd::prelude::*;

use crate::confidence::Confidence;
use crate::error::DetectError;
use crate::taxonomy::{
    has_label_prefix, is_redundant_label_spec, label_tag, normalize_label, supported_language,
    supported_tag, Taxonomy, SUPPORTED_COUNT,
};

verus! {

/// How many ranked candidates the primary classifier is asked for.
pub const PRIMARY_TOP_K: u8 = 24;

/// One ranked answer of the primary classifier: a score and a raw label.
#[derive(Clone, Debug, PartialEq)]
pub struct Candidate {
    pub score: Confidence,
    pub label: String,
}

/// One ranked answer of the secondary classifier: the position of a
/// language in its fixed enumeration, and a confidence.
#[derive(Clone, Copy, Debug, PartialEq, Eq)]
pub struct LanguageConfidence {
    pub language: usize,
    pub confidence: Confidence,
}

/// The result of a detection: a language tag and its confidence.
#[derive(Clone, Debug, PartialEq)]
pub struct Prediction {
    pub language: String,
    pub confidence: Confidence,
}

impl View for Prediction {
    type V = (Seq<char>, u64);

    open spec fn view(&self) -> (Seq<char>, u64) {
        (self.language@, self.confidence@)
    }
}

/// A prediction or an error, with the prediction seen through its view.
pub open spec fn outcome_view(r: Result<Prediction, DetectError>) -> Result<(Seq<char>, u64), DetectError> {
    match r {
        Ok(p) => Ok(p@),
        Err(e) => Err(e),
    }
}

/// The position of the first candidate at or after `start` whose label is
/// not redundant.
pub open spec fn first_usable_from(candidates: Seq<Candidate>, start: int) -> Option<int>
    decreases candidates.len() - start,
{
    if start < 0 || start >= candidates.len() {
        None
    } else if !is_redundant_label_spec(candidates[start].label@) {
        Some(start)
    } else {
        first_usable_from(candidates, start + 1)
    }
}

/// The position of the first candidate whose label is not redundant.
pub open spec fn first_usable(candidates: Seq<Candidate>) -> Option<int> {
    first_usable_from(candidates, 0)
}

/// What the primary stage yields for the ranked candidates: the first
/// candidate with a label that is not redundant, its label normalized.
pub open spec fn primary_outcome(candidates: Seq<Candidate>) -> Result<(Seq<char>, u64), DetectError> {
    match first_usable(candidates) {
        None => Err(DetectError::NoPredictionFound),
        Some(i) => if has_label_prefix(candidates[i].label@) {
            Ok((label_tag(candidates[i].label@), candidates[i].score@))
        } else {
            Err(DetectError::UnknownLabel)
        },
    }
}

/// What the cascade yields once the primary prediction `primary` fell short
/// of the fast threshold and the secondary classifier ranked `values`.
pub open spec fn secondary_outcome(
    primary: (Seq<char>, u64),
    values: Seq<LanguageConfidence>,
    slow: u64,
) -> Result<(Seq<char>, u64), DetectError> {
    if values.len() == 0 {
        Err(DetectError::DetectionFailed)
    } else if values[0].confidence@ <= slow {
        Ok(primary)
    } else if values[0].language < SUPPORTED_COUNT {
        Ok((supported_tag(values[0].language as int), values[0].confidence@))
    } else {
        Err(DetectError::UnsupportedLanguage)
    }
}

/// What the whole cascade yields for the primary candidates, the secondary
/// classifier's ranking and the two thresholds.
pub open spec fn cascade_outcome(
    candidates: Seq<Candidate>,
    values: Seq<LanguageConfidence>,
    fast: u64,
    slow: u64,
) -> Result<(Seq<char>, u64), DetectError> {
    match primary_outcome(candidates) {
        Err(e) => Err(e),
        Ok(p) => if p.1 >= fast {
            Ok(p)
        } else {
            secondary_outcome(p, values, slow)
        },
    }
}

/// The prediction of the primary classifier, from its ranked candidates:
/// the first one whose label is not redundant, with its label normalized.
pub fn primary_prediction(taxonomy: &Taxonomy, candidates: &Vec<Candidate>) -> (r: Result<Prediction, DetectError>)
    ensures
        outcome_view(r) == primary_outcome(candidates@),
{
    let mut i: usize = 0;
    while i < candidates.len()
        invariant
            i <= candidates.len(),
            first_usable(candidates@) == first_usable_from(candidates@, i as int),
        decreases candidates.len() - i,
    {
        let candidate = &candidates[i];
        if !taxonomy.is_redundant_label(candidate.label.as_str()) {
            let language = normalize_label(candidate.label.as_str())?;
            return Ok(Prediction { language, confidence: candidate.score });
        }
        i = i + 1;
    }
    Err(DetectError::NoPredictionFound)
}

/// The second half of the cascade: given the primary prediction, which fell
/// short of the fast threshold, and the secondary classifier's ranking,
/// keep the primary prediction unless the secondary's best language is
/// confident beyond `slow`.
pub fn secondary_prediction(
    primary: Prediction,
    values: &Vec<LanguageConfidence>,
    slow: Confidence,
) -> (r: Result<Prediction, DetectError>)
    ensures
        outcome_view(r) == secondary_outcome(primary@, values@, slow@),
{
    if values.len() == 0 {
        return Err(DetectError::DetectionFailed);
    }
    let best = values[0];
    if best.confidence.at_most(&slow) {
        return Ok(primary);
    }
    match supported_language(best.language) {
        Some(tag) => Ok(Prediction { language: tag.to_owned(), confidence: best.confidence }),
        None => Err(DetectError::UnsupportedLanguage),
    }
}

/// What the primary classifier is asked: the text, how many ranked
/// candidates to return, the score below which it may drop candidates, and
/// its matching mode, which it interprets on its own.
#[derive(Clone, Copy, Debug)]
pub struct PrimaryQuery<'a> {
    pub text: &'a str,
    pub top_k: u8,
    pub score_floor: Confidence,
    pub mode: &'static str,
}

/// Where the cascade stands after the primary classifier has answered.
#[derive(Clone, Debug, PartialEq)]
pub enum Stage {
    /// The primary prediction met the fast threshold: it is the answer, and
    /// the secondary classifier is not consulted.
    Accepted(Prediction),
    /// The primary prediction fell short of the fast threshold: the
    /// secondary classifier decides.
    NeedsSecondary(Prediction),
}

/// What the primary stage yields: whether the secondary classifier is
/// needed, and the primary prediction.
pub open spec fn stage_outcome(candidates: Seq<Candidate>, fast: u64) -> Result<(bool, (Seq<char>, u64)), DetectError> {
    match primary_outcome(candidates) {
        Err(e) => Err(e),
        Ok(p) => Ok((p.1 < fast, p)),
    }
}

/// A stage seen as whether the secondary classifier is needed, and the
/// primary prediction.
pub open spec fn stage_view(r: Result<Stage, DetectError>) -> Result<(bool, (Seq<char>, u64)), DetectError> {
    match r {
        Ok(Stage::Accepted(p)) => Ok((false, p@)),
        Ok(Stage::NeedsSecondary(p)) => Ok((true, p@)),
        Err(e) => Err(e),
    }
}

/// The language-identification cascade.
pub struct Detector {
    top_k: u8,
    taxonomy: Taxonomy,
}

impl Detector {
    /// How many candidates this detector asks the primary classifier for.
    pub closed spec fn top_k_spec(&self) -> u8 {
        self.top_k
    }

    /// A detector that asks the primary classifier for its top
    /// `PRIMARY_TOP_K` candidates, with its taxonomy built.
    pub fn new() -> (r: Detector)
        ensures
            r.top_k_spec() == PRIMARY_TOP_K,
    {
        Detector { top_k: PRIMARY_TOP_K, taxonomy: Taxonomy::new() }
    }

    /// The query that the primary classifier answers for `text`: the top
    /// candidates, none dropped for a low score, in strict mode.
    pub fn primary_query<'a>(&self, text: &'a str) -> (r: PrimaryQuery<'a>)
        ensures
            r.text@ == text@,
            r.top_k == self.top_k_spec(),
            r.score_floor == Confidence::zero_spec(),
            r.mode@ == "strict"@,
    {
        PrimaryQuery { text, top_k: self.top_k, score_floor: Confidence::zero(), mode: "strict" }
    }

    /// The first stage of the cascade: the primary prediction, and whether it
    /// meets the fast threshold.
    pub fn start(&self, candidates: &Vec<Candidate>, fast: Confidence) -> (r: Result<Stage, DetectError>)
        ensures
            stage_view(r) == stage_outcome(candidates@, fast@),
    {
        let primary = primary_prediction(&self.taxonomy, candidates)?;
        if primary.confidence.at_least(&fast) {
            Ok(Stage::Accepted(primary))
        } else {
            Ok(Stage::NeedsSecondary(primary))
        }
    }

    /// The second stage of the cascade, for a primary prediction that fell
    /// short of the fast threshold.
    pub fn finish(&self, primary: Prediction, values: &Vec<LanguageConfidence>, slow: Confidence) -> (r: Result<Prediction, DetectError>)
        ensures
            outcome_view(r) == secondary_outcome(primary@, values@, slow@),
    {
        secondary_prediction(primary, values, slow)
    }

    /// The whole cascade. `secondary` runs the secondary classifier on the
    /// same text; it is called only when the primary prediction falls short
    /// of `fast`, and then the prediction is what the cascade yields for
    /// the ranking that it returned.
    pub fn detect<F>(&self, candidates: &Vec<Candidate>, fast: Confidence, slow: Confidence, secondary: F) -> (r: Result<Prediction, DetectError>)
        where
            F: FnOnce() -> Vec<LanguageConfidence>,
        requires
            secondary.requires(()),
        ensures
            match primary_outcome(candidates@) {
                Err(e) => r == Err::<Prediction, DetectError>(e),
                Ok(p) => if p.1 >= fast@ {
                    outcome_view(r) == Ok::<(Seq<char>, u64), DetectError>(p)
                } else {
                    exists|values: Vec<LanguageConfidence>|
                        secondary.ensures((), values) && outcome_view(r) == cascade_outcome(candidates@, values@, fast@, slow@)
                },
            },
    {
        match self.start(candidates, fast)? {
            Stage::Accepted(primary) => Ok(primary),
            Stage::NeedsSecondary(primary) => {
                let values = secondary();
                self.finish(primary, &values, slow)
            },
        }
    }
}

} // verus!
