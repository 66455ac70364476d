//! The normalisation of Japanese tokens: full-width Latin letters, digits
//! and signs become narrow, half-width kana become full-width, and
//! katakana become hiragana, so that a word is found however it was
//! typed.

use vstd::prelude::*;

verus! {

/// The character `c`, narrow where it is a full-width form of a
/// character of ASCII.
pub open spec fn narrow(c: char) -> char {
    if 0xff00 < c as u32 && (c as u32) < 0xff5f {
        ((c as u32 - 0xfee0) as u32) as char
    } else {
        c
    }
}

/// The character `c`, as hiragana where it is katakana.
pub open spec fn hiragana(c: char) -> char {
    if 0x30a1 <= c as u32 && c as u32 <= 0x30f6 {
        ((c as u32 - 0x60) as u32) as char
    } else {
        c
    }
}

/// `s` with every full-width form of a character of ASCII made narrow.
pub open spec fn narrowed(s: Seq<char>) -> Seq<char> {
    Seq::new(s.len(), |i: int| narrow(s[i]))
}

/// `s` with every katakana made hiragana.
pub open spec fn as_hiragana(s: Seq<char>) -> Seq<char> {
    Seq::new(s.len(), |i: int| hiragana(s[i]))
}

/// What `kana::half2kana` makes of a text: half-width kana become
/// full-width katakana, and a voicing mark joins the kana before it
/// where the two have a combined form.
pub uninterp spec fn half_to_kana_of(s: Seq<char>) -> Seq<char>;

/// `kana::wide2ascii`: every character between U+FF01 and U+FF5E is
/// moved down by 0xFEE0, and every other character stays.
#[verifier::external_body]
fn wide_to_ascii(s: &str) -> (r: String)
    ensures
        r@ == narrowed(s@),
{
    kana::wide2ascii(s)
}

/// `kana::half2kana`. The contract only gives the result its name.
#[verifier::external_body]
fn half_to_kana(s: &str) -> (r: String)
    ensures
        r@ == half_to_kana_of(s@),
{
    kana::half2kana(s)
}

/// `kana::kata2hira`: every character between U+30A1 and U+30F6 is moved
/// down by 0x60, and every other character stays.
#[verifier::external_body]
fn kata_to_hira(s: &str) -> (r: String)
    ensures
        r@ == as_hiragana(s@),
{
    kana::kata2hira(s)
}

/// The token filter that normalises Japanese character types.
#[derive(Clone, Copy, Debug)]
pub struct JapaneseCharacterTypeNormalizer;

impl JapaneseCharacterTypeNormalizer {
    /// The text of a token, normalised: made narrow first, then from
    /// half-width to full-width kana, then from katakana to hiragana.
    pub fn normalize(&self, text: &str) -> (r: String)
        ensures
            r@ == as_hiragana(half_to_kana_of(narrowed(text@))),
    {
        let narrow = wide_to_ascii(text);
        let full = half_to_kana(narrow.as_str());
        kata_to_hira(full.as_str())
    }
}

} // verus!
