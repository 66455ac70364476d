//! The language of a document. The index knows two: English and
//! Japanese. A text in which Japanese is detected is Japanese; every
//! other text is English.

use vstd::prelude::*;

verus! {

/// A language that the index analyses.
#[derive(Clone, Copy, Debug, PartialEq, Eq, Hash, Structural)]
pub enum Language {
    English,
    Japanese,
}

/// A language that detection can find in a text.
#[derive(Clone, Copy, Debug, PartialEq, Eq, Structural)]
pub enum DetectedLanguage {
    Japanese,
}

/// What `lingua::LanguageDetector::detect_language_of` finds in a text,
/// with a detector built for every language that is compiled in.
pub uninterp spec fn detected_language_of(text: Seq<char>) -> Option<DetectedLanguage>;

/// Builds a detector with `lingua::LanguageDetectorBuilder::from_all_languages`
/// and asks it for the language of `text` with `detect_language_of`. The
/// contract only gives the answer its name.
#[verifier::external_body]
fn detect(text: &str) -> (r: Option<DetectedLanguage>)
    ensures
        r == detected_language_of(text@),
{
    lingua::LanguageDetectorBuilder::from_all_languages().build().detect_language_of(text).map(
        |language| match language {
            lingua::Language::Japanese => DetectedLanguage::Japanese,
        },
    )
}

/// The number under which the index stores `language`.
pub open spec fn language_code(language: Language) -> u64 {
    match language {
        Language::English => 1,
        Language::Japanese => 2,
    }
}

/// The language of a text in which `detected` was found.
pub open spec fn language_for(detected: Option<DetectedLanguage>) -> Language {
    match detected {
        Some(DetectedLanguage::Japanese) => Language::Japanese,
        None => Language::English,
    }
}

impl Language {
    /// The number under which the index stores the language.
    pub fn code(&self) -> (r: u64)
        ensures
            r == language_code(*self),
    {
        match self {
            Language::English => 1,
            Language::Japanese => 2,
        }
    }

    /// The language that the index stores under `code`, which must be one
    /// of the two numbers it stores.
    pub fn from_code(code: u64) -> (r: Language)
        requires
            code == 1 || code == 2,
        ensures
            language_code(r) == code,
    {
        if code == 1 {
            Language::English
        } else {
            Language::Japanese
        }
    }

    /// The language of a text in which `detected` was found: English
    /// where nothing was.
    pub fn from_detected(detected: Option<DetectedLanguage>) -> (r: Language)
        ensures
            r == language_for(detected),
    {
        match detected {
            Some(DetectedLanguage::Japanese) => Language::Japanese,
            None => Language::English,
        }
    }

    /// The language of `text`.
    pub fn of(text: &str) -> (r: Language)
        ensures
            r == language_for(detected_language_of(text@)),
    {
        Language::from_detected(detect(text))
    }
}

} // verus!
