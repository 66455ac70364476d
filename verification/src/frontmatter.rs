//! The block of metadata at the head of a Markdown file.
//!
//! A file may open with a line `---` (YAML follows) or `+++` (TOML
//! follows). The block runs to the next line that holds the same mark
//! alone, and the body is what follows that line. This module finds the
//! block; reading the YAML or TOML inside it is left to the caller.

use crate::text::absent_from;
use crate::text::begins_with;
use crate::text::chars_of;
use crate::text::find_from;
use crate::text::first_from;
use crate::text::is_prefix_of;
use vstd::prelude::*;
use vstd::string::StrSliceExecFns;

verus! {

/// The mark that opens and closes a block.
#[derive(Clone, Copy, Debug, PartialEq, Eq, Structural)]
pub enum Separator {
    /// `---`: the block holds YAML.
    Hyphen,
    /// `+++`: the block holds TOML.
    Plus,
}

impl Separator {
    /// The mark as text.
    pub open spec fn text(self) -> Seq<char> {
        match self {
            Separator::Hyphen => "---"@,
            Separator::Plus => "+++"@,
        }
    }

    /// The line that opens a block.
    pub open spec fn opening(self) -> Seq<char> {
        self.text().push('\n')
    }

    /// The line that closes a block, with the line end before it.
    pub open spec fn closing(self) -> Seq<char> {
        seq!['\n'] + self.text().push('\n')
    }

    /// The mark as text.
    pub fn as_str(&self) -> (r: &'static str)
        ensures
            r@ == self.text(),
    {
        match self {
            Separator::Hyphen => "---",
            Separator::Plus => "+++",
        }
    }
}

/// What the metadata block of a file says, once it has been read.
#[derive(Debug, PartialEq, Eq)]
pub struct Frontmatter {
    pub title: Option<String>,
    pub tags: Option<Vec<String>>,
}

/// A metadata block as it stands in the file.
#[derive(Debug, PartialEq, Eq)]
pub struct RawFrontmatter<'a> {
    /// The mark that encloses the block, and so the format of `text`.
    pub separator: Separator,
    /// The lines between the opening and the closing line.
    pub text: &'a str,
}

/// A file parted into its metadata block and its body.
#[derive(Debug, PartialEq, Eq)]
pub struct ParseResult<'a> {
    pub frontmatter: Option<RawFrontmatter<'a>>,
    pub body: &'a str,
}

/// Why a file could not be parted.
#[derive(Clone, Copy, Debug, PartialEq, Eq, Structural)]
pub enum ParseError {
    /// The file opens a block and never closes it.
    MissingEnd,
}

/// The mark with which `s` opens a block, if it opens one.
pub open spec fn opens_with(s: Seq<char>) -> Option<Separator> {
    if is_prefix_of(Separator::Hyphen.opening(), s) {
        Some(Separator::Hyphen)
    } else if is_prefix_of(Separator::Plus.opening(), s) {
        Some(Separator::Plus)
    } else {
        None
    }
}

fn mark_chars(separator: Separator, before: bool) -> (r: Vec<char>)
    ensures
        r@ == if before {
            separator.closing()
        } else {
            separator.opening()
        },
{
    let mut out: Vec<char> = Vec::new();
    if before {
        out.push('\n');
    }
    let ghost start = out@;
    let mark = chars_of(separator.as_str());
    let mut i: usize = 0;
    while i < mark.len()
        invariant
            i <= mark.len(),
            out@ == start + mark@.take(i as int),
        decreases mark.len() - i,
    {
        out.push(mark[i]);
        i = i + 1;
    }
    out.push('\n');
    out
}

/// Where the metadata of `s` starts, and the mark that opened it: index 4,
/// where `s` opens with a mark on a line of its own.
pub fn find_start_of_frontmatter(s: &Vec<char>) -> (r: Option<(usize, Separator)>)
    ensures
        match r {
            Some((start, separator)) => start == 4 && opens_with(s@) == Some(separator),
            None => opens_with(s@) is None,
        },
{
    let hyphen = mark_chars(Separator::Hyphen, false);
    if begins_with(s, &hyphen) {
        return Some((4, Separator::Hyphen));
    }
    let plus = mark_chars(Separator::Plus, false);
    if begins_with(s, &plus) {
        return Some((4, Separator::Plus));
    }
    None
}

/// The index in `s`, at or after `from + 1`, at which the closing mark
/// starts: one past the first line end at or after `from` that the mark
/// and another line end follow.
pub fn find_end_of_frontmatter(s: &Vec<char>, from: usize, separator: Separator) -> (r: Option<
    usize,
>)
    ensures
        match r {
            Some(end) => first_from(s@, separator.closing(), from as int, end - 1),
            None => absent_from(s@, separator.closing(), from as int),
        },
{
    let closing = mark_chars(separator, true);
    proof {
        reveal_strlit("---");
        reveal_strlit("+++");
    }
    match find_from(s, &closing, from) {
        Some(at) => {
            assert(at + 5 <= s.len());
            Some(at + 1)
        },
        None => None,
    }
}

/// Parts `s` into its metadata block and its body.
///
/// Without an opening line the whole of `s` is the body. With one, the
/// block runs to the first closing line; the line end before the closing
/// mark belongs to the block, and the body starts after the closing line.
/// A block that is never closed is an error.
pub fn parse<'a>(s: &'a str) -> (r: Result<ParseResult<'a>, ParseError>)
    ensures
        opens_with(s@) is None ==> r is Ok && r->Ok_0.frontmatter is None && r->Ok_0.body@ == s@,
        opens_with(s@) is Some && absent_from(s@, opens_with(s@)->0.closing(), 3) ==> r
            == Err::<ParseResult<'a>, ParseError>(ParseError::MissingEnd),
        forall|at: int|
            opens_with(s@) is Some && first_from(s@, opens_with(s@)->0.closing(), 3, at) ==> r is Ok
                && r->Ok_0.frontmatter is Some && r->Ok_0.frontmatter->0.separator == opens_with(
                s@,
            )->0 && r->Ok_0.frontmatter->0.text@ == s@.subrange(4, at + 1) && r->Ok_0.body@
                == s@.subrange(at + 5, s@.len() as int),
{
    let chars = chars_of(s);
    let (start, separator) = match find_start_of_frontmatter(&chars) {
        None => {
            return Ok(ParseResult { frontmatter: None, body: s });
        },
        Some((start, separator)) => (start, separator),
    };
    proof {
        reveal_strlit("---");
        reveal_strlit("+++");
    }
    let end = match find_end_of_frontmatter(&chars, start - 1, separator) {
        None => {
            return Err(ParseError::MissingEnd);
        },
        Some(end) => end,
    };
    assert forall|at: int| first_from(s@, separator.closing(), 3, at) implies at == end - 1 by {
    }
    assert(end + 4 <= chars.len());
    let text = s.substring_char(start, end);
    let body = s.substring_char(end + 4, chars.len());
    Ok(ParseResult { frontmatter: Some(RawFrontmatter { separator, text }), body })
}

} // verus!
