//! Paths as keys: every path that is stored or looked up is first brought
//! into Unicode Normalization Form C, so that a file system that hands out
//! decomposed names and one that hands out composed names agree on the key.

use crate::text::string_of;
use vstd::prelude::*;

verus! {

/// The Normalization Form C of a text: what
/// `unicode_normalization::UnicodeNormalization::nfc` yields for it.
pub uninterp spec fn nfc_of(s: Seq<char>) -> Seq<char>;

/// A text that normalization leaves as it is.
pub open spec fn is_normalized(s: Seq<char>) -> bool {
    nfc_of(s) == s
}

/// Calls `unicode_normalization::UnicodeNormalization::nfc` on `s` and
/// collects the characters it yields. The contract gives that result its
/// name, and says of it what the function's documentation says: it is
/// the text in Normalization Form C, so that normalizing it again gives
/// it back.
#[verifier::external_body]
fn nfc(s: &str) -> (r: String)
    ensures
        r@ == nfc_of(s@),
        nfc_of(r@) == r@,
{
    unicode_normalization::UnicodeNormalization::nfc(s).collect()
}

/// The text `s` in Normalization Form C. The result is in that form, so
/// that normalizing it again changes nothing; and a text that is in that
/// form already comes back unchanged.
pub fn normalize_string(s: &str) -> (r: String)
    ensures
        r@ == nfc_of(s@),
        is_normalized(r@),
        is_normalized(s@) ==> r@ == s@,
{
    nfc(s)
}

/// A value that names a path and can give its key.
pub trait PathStringNormalizationExt {
    /// The path as text.
    spec fn path_text(&self) -> Seq<char>;

    /// The key under which the path is stored and looked up.
    fn to_normalized_path_string(&self) -> (r: String)
        ensures
            r@ == nfc_of(self.path_text()),
    ;
}

impl PathStringNormalizationExt for &str {
    open spec fn path_text(&self) -> Seq<char> {
        self@
    }

    fn to_normalized_path_string(&self) -> (r: String) {
        normalize_string(self)
    }
}

impl PathStringNormalizationExt for String {
    open spec fn path_text(&self) -> Seq<char> {
        self@
    }

    fn to_normalized_path_string(&self) -> (r: String) {
        normalize_string(self.as_str())
    }
}

impl PathStringNormalizationExt for Vec<char> {
    open spec fn path_text(&self) -> Seq<char> {
        self@
    }

    fn to_normalized_path_string(&self) -> (r: String) {
        let text = string_of(self);
        normalize_string(text.as_str())
    }
}

} // verus!
