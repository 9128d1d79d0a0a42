//! The ways in which a detection fails.
use vstd::prelude::*;

verus! {

/// Why the cascade produced no prediction.
#[derive(Clone, Copy, Debug, PartialEq, Eq)]
pub enum DetectError {
    /// The primary classifier returned no candidate whose label is not
    /// redundant.
    NoPredictionFound,
    /// The chosen raw label does not carry the label marker.
    UnknownLabel,
    /// The secondary classifier returned no confidence value.
    DetectionFailed,
    /// The secondary classifier's best language has no place in the table
    /// of supported languages.
    UnsupportedLanguage,
}

impl DetectError {
    /// A short description of the failure.
    pub fn message(&self) -> (r: &'static str) {
        match self {
            DetectError::NoPredictionFound => "No prediction found!",
            DetectError::UnknownLabel => "Unknown language label!",
            DetectError::DetectionFailed => "Failed to predict a language!",
            DetectError::UnsupportedLanguage => "Unsupported language!",
        }
    }
}

} // verus!
