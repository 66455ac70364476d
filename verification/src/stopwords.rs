//! Lists of stopwords: one word on each line, white space around a word
//! and empty lines left out.

use crate::assets::asset_named;
use crate::assets::stopwords_name;
use crate::assets::Assets;
use crate::text::chars_of;
use crate::text::string_of;
use crate::text::string_views;
use crate::text::trim_chars;
use crate::text::trimmed;
use vstd::prelude::*;
use vstd::utf8::decode_utf8;
use vstd::utf8::valid_utf8;

verus! {

/// The pieces of `s` between its line ends, empty pieces included.
pub open spec fn split_lines(s: Seq<char>) -> Seq<Seq<char>>
    decreases s.len(),
{
    if s.len() == 0 {
        seq![Seq::<char>::empty()]
    } else {
        let init = split_lines(s.drop_last());
        if s.last() == '\n' {
            init.push(Seq::<char>::empty())
        } else {
            init.drop_last().push(init.last().push(s.last()))
        }
    }
}

/// Each line of `lines` without the white space around it, lines that
/// are empty then left out.
pub open spec fn words_of(lines: Seq<Seq<char>>) -> Seq<Seq<char>>
    decreases lines.len(),
{
    if lines.len() == 0 {
        lines
    } else if trimmed(lines.last()).len() > 0 {
        words_of(lines.drop_last()).push(trimmed(lines.last()))
    } else {
        words_of(lines.drop_last())
    }
}

/// Why a list of stopwords could not be read.
#[derive(Clone, Copy, Debug, PartialEq, Eq, Structural)]
pub enum StopwordsError {
    /// The list is not UTF-8.
    InvalidUtf8,
}

/// `String::from_utf8`: the text that `bytes` encode, where they are
/// UTF-8, and none where they are not.
#[verifier::external_body]
fn decode(bytes: Vec<u8>) -> (r: Option<String>)
    ensures
        valid_utf8(bytes@) ==> r is Some && r->0@ == decode_utf8(bytes@),
        !valid_utf8(bytes@) ==> r is None,
{
    String::from_utf8(bytes).ok()
}

/// The words of `text`, one from each line that holds one.
pub fn read_lines(text: &str) -> (r: Vec<String>)
    ensures
        string_views(r@) == words_of(split_lines(text@)),
{
    let chars = chars_of(text);
    let mut lines: Vec<String> = Vec::new();
    let mut cur: Vec<char> = Vec::new();
    let mut i: usize = 0;
    while i < chars.len()
        invariant
            i <= chars.len(),
            split_lines(chars@.take(i as int)).len() >= 1,
            cur@ == split_lines(chars@.take(i as int)).last(),
            string_views(lines@) == words_of(split_lines(chars@.take(i as int)).drop_last()),
        decreases chars.len() - i,
    {
        let c = chars[i];
        let ghost before = chars@.take(i as int);
        let ghost after = chars@.take(i + 1);
        let ghost segs = split_lines(before);
        assert(after.drop_last() =~= before);
        if c == '\n' {
            assert(split_lines(after).drop_last() =~= segs);
            let word = trim_chars(&cur);
            if word.len() > 0 {
                let line = string_of(&word);
                lines.push(line);
            }
            cur = Vec::new();
        } else {
            assert(split_lines(after).drop_last() =~= segs.drop_last());
            cur.push(c);
        }
        i = i + 1;
    }
    assert(chars@.take(chars.len() as int) =~= chars@);
    let word = trim_chars(&cur);
    if word.len() > 0 {
        let line = string_of(&word);
        lines.push(line);
    }
    lines
}

/// The stopwords that `data` encode, where `data` is UTF-8.
pub fn read_stopwords(data: Vec<u8>) -> (r: Result<Vec<String>, StopwordsError>)
    ensures
        valid_utf8(data@) ==> r is Ok && string_views(r->Ok_0@) == words_of(
            split_lines(decode_utf8(data@)),
        ),
        !valid_utf8(data@) ==> r == Err::<Vec<String>, StopwordsError>(
            StopwordsError::InvalidUtf8,
        ),
{
    match decode(data) {
        Some(text) => Ok(read_lines(text.as_str())),
        None => Err(StopwordsError::InvalidUtf8),
    }
}

/// The stopwords of the language `lang`, whose list must be among the
/// files of `assets`.
pub fn load_stopwords_for_lang(assets: &Assets, lang: &str) -> (r: Result<
    Vec<String>,
    StopwordsError,
>)
    requires
        asset_named(assets.files@, stopwords_name(lang@)) is Some,
    ensures
        ({
            let data = asset_named(assets.files@, stopwords_name(lang@))->0;
            &&& valid_utf8(data) ==> r is Ok && string_views(r->Ok_0@) == words_of(
                split_lines(decode_utf8(data)),
            )
            &&& !valid_utf8(data) ==> r == Err::<Vec<String>, StopwordsError>(
                StopwordsError::InvalidUtf8,
            )
        }),
{
    match assets.get_stopwords_for_lang(lang) {
        Some(data) => read_stopwords(data),
        None => Ok(Vec::new()),
    }
}

} // verus!
