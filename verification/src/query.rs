//! The texts that are handed to the stores as queries and patterns.

use crate::path_string_normalization::nfc_of;
use crate::path_string_normalization::normalize_string;
use crate::text::chars_of;
use crate::text::join_strings;
use crate::text::joined_with;
use crate::text::string_of;
use crate::text::string_views;
use crate::text::trim_chars;
use crate::text::trimmed;
use vstd::prelude::*;
use vstd::string::StringExecFns;

verus! {

/// `s` with every `from` replaced by `to`.
pub open spec fn replaced(s: Seq<char>, from: char, to: Seq<char>) -> Seq<char>
    decreases s.len(),
{
    if s.len() == 0 {
        s
    } else if s.last() == from {
        replaced(s.drop_last(), from, to) + to
    } else {
        replaced(s.drop_last(), from, to).push(s.last())
    }
}

/// The characters of `v` with every `from` replaced by the two characters
/// `first` and `second`.
fn replace_char(v: &Vec<char>, from: char, first: char, second: char) -> (r: Vec<char>)
    ensures
        r@ == replaced(v@, from, seq![first, second]),
{
    let mut out: Vec<char> = Vec::new();
    let mut i: usize = 0;
    while i < v.len()
        invariant
            i <= v.len(),
            out@ == replaced(v@.take(i as int), from, seq![first, second]),
        decreases v.len() - i,
    {
        assert(v@.take(i + 1).drop_last() =~= v@.take(i as int));
        if v[i] == from {
            out.push(first);
            out.push(second);
        } else {
            out.push(v[i]);
        }
        i = i + 1;
    }
    assert(v@.take(v.len() as int) =~= v@);
    out
}

/// `s` as it is written into a `LIKE` pattern: `%` becomes `\%`, then `_`
/// becomes `\_`, then every `\` becomes `\\`, those just written
/// included.
pub open spec fn like_escaped(s: Seq<char>) -> Seq<char> {
    replaced(
        replaced(replaced(s, '%', seq!['\\', '%']), '_', seq!['\\', '_']),
        '\\',
        seq!['\\', '\\'],
    )
}

/// `s` as it is written into a `LIKE` pattern.
pub fn escape_like_pattern(s: &str) -> (r: String)
    ensures
        r@ == like_escaped(s@),
{
    let chars = chars_of(s);
    let a = replace_char(&chars, '%', '\\', '%');
    let b = replace_char(&a, '_', '\\', '_');
    let c = replace_char(&b, '\\', '\\', '\\');
    string_of(&c)
}

/// A character that the query language reads as an operator.
pub open spec fn is_query_operator(c: char) -> bool {
    c == '+' || c == '^' || c == '`' || c == ':' || c == '{' || c == '}' || c == '"' || c == '['
        || c == ']' || c == '(' || c == ')' || c == '~' || c == '!' || c == '\\' || c == '*'
}

/// `s` with a `\` before every operator of the query language.
pub open spec fn operators_escaped(s: Seq<char>) -> Seq<char>
    decreases s.len(),
{
    if s.len() == 0 {
        s
    } else if is_query_operator(s.last()) {
        operators_escaped(s.drop_last()).push('\\').push(s.last())
    } else {
        operators_escaped(s.drop_last()).push(s.last())
    }
}

/// The query without the white space around it, and with a `\` before
/// every operator of the query language.
pub fn escape_query(query: &str) -> (r: String)
    ensures
        r@ == operators_escaped(trimmed(query@)),
{
    let chars = chars_of(query);
    let v = trim_chars(&chars);
    let mut out: Vec<char> = Vec::new();
    let mut i: usize = 0;
    while i < v.len()
        invariant
            i <= v.len(),
            out@ == operators_escaped(v@.take(i as int)),
        decreases v.len() - i,
    {
        let c = v[i];
        assert(v@.take(i + 1).drop_last() =~= v@.take(i as int));
        if c == '+' || c == '^' || c == '`' || c == ':' || c == '{' || c == '}' || c == '"' || c
            == '[' || c == ']' || c == '(' || c == ')' || c == '~' || c == '!' || c == '\\' || c
            == '*' {
            out.push('\\');
        }
        out.push(c);
        i = i + 1;
    }
    assert(v@.take(v.len() as int) =~= v@);
    string_of(&out)
}

/// The clause that asks for the tag `tag` in any of the tag fields.
pub open spec fn tag_clause(tag: Seq<char>) -> Seq<char> {
    "(tag_en:\""@ + tag + "\" OR tag_ja:\""@ + tag + "\" OR tag_ngram:\""@ + tag + "\")"@
}

/// The clause of each tag of `tags`.
pub open spec fn tag_clauses(tags: Seq<String>) -> Seq<Seq<char>> {
    Seq::new(tags.len(), |i: int| tag_clause(tags[i]@))
}

/// The query that asks for every tag of `tags`.
pub open spec fn tag_query(tags: Seq<String>) -> Seq<char> {
    joined_with(tag_clauses(tags), " AND "@)
}

/// The query that asks for every tag of `tags`: one clause for each tag,
/// joined by `AND`; a clause names the tag in each tag field, joined by
/// `OR`.
pub fn make_tag_query(tags: &Vec<String>) -> (r: String)
    ensures
        r@ == tag_query(tags@),
{
    let mut clauses: Vec<String> = Vec::new();
    let mut i: usize = 0;
    while i < tags.len()
        invariant
            i <= tags.len(),
            clauses.len() == i,
            forall|j: int| 0 <= j < i ==> clauses@[j]@ == tag_clause(tags@[j]@),
        decreases tags.len() - i,
    {
        let tag = tags[i].as_str();
        let mut clause = String::new();
        clause.append("(tag_en:\"");
        clause.append(tag);
        clause.append("\" OR tag_ja:\"");
        clause.append(tag);
        clause.append("\" OR tag_ngram:\"");
        clause.append(tag);
        clause.append("\")");
        clauses.push(clause);
        i = i + 1;
    }
    assert(string_views(clauses@) =~= tag_clauses(tags@));
    join_strings(&clauses, " AND ")
}

/// The query that is handed to the index for the user's `query` and
/// `tags`. Without tags it is the query as the user wrote it. With tags
/// it is the query without the white space around it, followed by `AND`
/// and the tag query; a query that is empty then is left out.
pub open spec fn full_query(query: Seq<char>, tags: Seq<String>) -> Seq<char> {
    if tags.len() == 0 {
        query
    } else if trimmed(query).len() == 0 {
        tag_query(tags)
    } else {
        trimmed(query) + " AND "@ + tag_query(tags)
    }
}

/// The query that is handed to the index for the user's `query` and
/// `tags`.
pub fn search_query(query: &str, tags: &Vec<String>) -> (r: String)
    ensures
        r@ == full_query(query@, tags@),
{
    if tags.len() == 0 {
        return String::from_str(query);
    }
    let chars = chars_of(query);
    let inner = trim_chars(&chars);
    let tag_part = make_tag_query(tags);
    if inner.len() == 0 {
        return tag_part;
    }
    let mut out = string_of(&inner);
    out.append(" AND ");
    out.append(tag_part.as_str());
    out
}

/// The pattern that matches the key of every path below `path`: the key
/// of `path`, then `/.*`.
pub fn under_path_pattern(path: &str) -> (r: String)
    ensures
        r@ == nfc_of(path@) + "/.*"@,
{
    let mut out = normalize_string(path);
    out.append("/.*");
    out
}

} // verus!
