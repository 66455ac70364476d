//! What a search gives back.

use crate::language::Language;
use crate::schema::Field;
use crate::search_document::entry_views;
use crate::search_document::FieldEntry;
use crate::search_document::FieldValue;
use crate::search_document::ValueView;
use vstd::prelude::*;

verus! {

/// The order of the hits.
#[derive(Clone, Copy, Debug, PartialEq, Eq, Structural)]
pub enum Sort {
    /// The best match first.
    Relevance,
    /// The most recently modified first.
    Date,
}

/// One hit.
#[derive(Debug, PartialEq, Eq)]
pub struct SearchResultDocument {
    pub path: String,
    pub title: Option<String>,
    pub tags: Vec<String>,
    pub watch_id: i64,
    pub highlight: Option<String>,
    /// Seconds since the start of 1970.
    pub created_at: i64,
    /// Seconds since the start of 1970.
    pub modified_at: i64,
}

/// The hits of one page, and the number of all hits.
#[derive(Debug, PartialEq, Eq)]
pub struct SearchResults {
    pub count: usize,
    pub documents: Vec<SearchResultDocument>,
}

/// Why a hit could not be read.
#[derive(Clone, Copy, Debug, PartialEq, Eq, Structural)]
pub enum PopulateError {
    /// A stored time lies outside the range of the calendar.
    TimestampOutOfRange,
}

/// The first second of the calendar: midnight before the first of
/// January of the year 262144 BCE, counted from the start of 1970.
pub const CALENDAR_FIRST: i64 = -8_334_601_228_800;

/// The last second of the calendar: the last of the 31st of December of
/// the year 262142 CE, counted from the start of 1970.
pub const CALENDAR_LAST: i64 = 8_210_266_876_799;

/// Whether the calendar holds the second `secs`.
pub open spec fn calendar_holds(secs: i64) -> bool {
    CALENDAR_FIRST <= secs <= CALENDAR_LAST
}

/// Asks `chrono::DateTime::from_timestamp` for the point in time at
/// `secs` seconds and tells whether it gave one. It gives one for the
/// seconds of the days from its earliest date to its latest, and none
/// outside them; the contract states those bounds in seconds.
#[verifier::external_body]
fn in_calendar(secs: i64) -> (r: bool)
    ensures
        r == calendar_holds(secs),
{
    chrono::DateTime::from_timestamp(secs, 0).is_some()
}

/// The first value of `field` among `entries`.
pub open spec fn first_of(entries: Seq<(Field, ValueView)>, field: Field) -> Option<ValueView>
    decreases entries.len(),
{
    if entries.len() == 0 {
        None
    } else if entries[0].0 == field {
        Some(entries[0].1)
    } else {
        first_of(entries.drop_first(), field)
    }
}

/// The texts of `field` among `entries`, in order.
pub open spec fn texts_of(entries: Seq<(Field, ValueView)>, field: Field) -> Seq<Seq<char>>
    decreases entries.len(),
{
    if entries.len() == 0 {
        Seq::<Seq<char>>::empty()
    } else if entries.last().0 == field && entries.last().1 is Text {
        texts_of(entries.drop_last(), field).push(entries.last().1->Text_0)
    } else {
        texts_of(entries.drop_last(), field)
    }
}

/// Every value of `field` among `entries` is a text.
pub open spec fn all_text(entries: Seq<(Field, ValueView)>, field: Field) -> bool {
    forall|i: int| 0 <= i < entries.len() && entries[i].0 == field ==> (#[trigger] entries[i]).1 is Text
}

/// The record holds what a hit cannot be without: a path, a watch and
/// two times; and its titles and tags are texts.
pub open spec fn readable(entries: Seq<(Field, ValueView)>) -> bool {
    &&& first_of(entries, Field::Path) is Some
    &&& first_of(entries, Field::Path)->0 is Text
    &&& first_of(entries, Field::WatchId) is Some
    &&& first_of(entries, Field::WatchId)->0 is I64
    &&& first_of(entries, Field::CreatedAt) is Some
    &&& first_of(entries, Field::CreatedAt)->0 is Date
    &&& first_of(entries, Field::ModifiedAt) is Some
    &&& first_of(entries, Field::ModifiedAt)->0 is Date
    &&& all_text(entries, Field::TitleNgram)
    &&& all_text(entries, Field::TagNgram)
}

/// The language that the record stores, if it stores one, is one of the
/// two that the index knows.
pub open spec fn language_known(entries: Seq<(Field, ValueView)>) -> bool {
    first_of(entries, Field::Language) matches Some(value) ==> value == ValueView::U64(1) || value
        == ValueView::U64(2)
}

/// The first value of `field` among `entries`.
pub fn first_value(entries: &Vec<FieldEntry>, field: Field) -> (r: Option<&FieldValue>)
    ensures
        match r {
            Some(value) => first_of(entry_views(entries@), field) == Some(value@),
            None => first_of(entry_views(entries@), field) is None,
        },
{
    let mut i: usize = 0;
    assert(entry_views(entries@).skip(0) =~= entry_views(entries@));
    while i < entries.len()
        invariant
            i <= entries.len(),
            first_of(entry_views(entries@), field) == first_of(
                entry_views(entries@).skip(i as int),
                field,
            ),
        decreases entries.len() - i,
    {
        let ghost rest = entry_views(entries@).skip(i as int);
        assert(rest.drop_first() =~= entry_views(entries@).skip(i + 1));
        if entries[i].field == field {
            return Some(&entries[i].value);
        }
        i = i + 1;
    }
    None
}

/// The texts of `field` among `entries`, in order.
pub fn text_values(entries: &Vec<FieldEntry>, field: Field) -> (r: Vec<String>)
    ensures
        crate::text::string_views(r@) == texts_of(entry_views(entries@), field),
{
    let mut out: Vec<String> = Vec::new();
    let mut i: usize = 0;
    while i < entries.len()
        invariant
            i <= entries.len(),
            crate::text::string_views(out@) == texts_of(
                entry_views(entries@).take(i as int),
                field,
            ),
        decreases entries.len() - i,
    {
        let ghost next = entry_views(entries@).take(i + 1);
        assert(next.drop_last() =~= entry_views(entries@).take(i as int));
        if entries[i].field == field {
            match &entries[i].value {
                FieldValue::Text(text) => {
                    let ghost before = out@;
                    out.push(text.clone());
                    assert(crate::text::string_views(out@) =~= crate::text::string_views(
                        before,
                    ).push(text@));
                },
                _ => {},
            }
        }
        i = i + 1;
    }
    assert(entry_views(entries@).take(entries.len() as int) =~= entry_views(entries@));
    out
}

/// The language under which the record `entries` was analysed: the one
/// stored in it, which must be one of the two numbers that are stored,
/// and English where none is stored.
pub fn stored_language(entries: &Vec<FieldEntry>) -> (r: Language)
    requires
        language_known(entry_views(entries@)),
    ensures
        r == match first_of(entry_views(entries@), Field::Language) {
            Some(ValueView::U64(code)) => if code == 1 {
                Language::English
            } else {
                Language::Japanese
            },
            _ => Language::English,
        },
{
    match first_value(entries, Field::Language) {
        Some(FieldValue::U64(code)) => Language::from_code(*code),
        _ => Language::English,
    }
}

/// Whether the language that the record stores, if it stores one, is one
/// of the two that the index knows.
pub fn has_known_language(entries: &Vec<FieldEntry>) -> (r: bool)
    ensures
        r == language_known(entry_views(entries@)),
{
    match first_value(entries, Field::Language) {
        Some(FieldValue::U64(code)) => *code == 1 || *code == 2,
        Some(_) => false,
        None => true,
    }
}

fn all_texts(entries: &Vec<FieldEntry>, field: Field) -> (r: bool)
    ensures
        r == all_text(entry_views(entries@), field),
{
    let mut i: usize = 0;
    while i < entries.len()
        invariant
            i <= entries.len(),
            forall|j: int|
                0 <= j < i && entry_views(entries@)[j].0 == field ==> (#[trigger] entry_views(
                    entries@,
                )[j]).1 is Text,
        decreases entries.len() - i,
    {
        if entries[i].field == field {
            let is_text = match &entries[i].value {
                FieldValue::Text(_) => true,
                _ => false,
            };
            if !is_text {
                assert(entry_views(entries@)[i as int].0 == field);
                return false;
            }
        }
        i = i + 1;
    }
    true
}

/// Whether the record holds what a hit cannot be without.
pub fn is_readable(entries: &Vec<FieldEntry>) -> (r: bool)
    ensures
        r == readable(entry_views(entries@)),
{
    let path = match first_value(entries, Field::Path) {
        Some(FieldValue::Text(_)) => true,
        _ => false,
    };
    let watch = match first_value(entries, Field::WatchId) {
        Some(FieldValue::I64(_)) => true,
        _ => false,
    };
    let created = match first_value(entries, Field::CreatedAt) {
        Some(FieldValue::Date(_)) => true,
        _ => false,
    };
    let modified = match first_value(entries, Field::ModifiedAt) {
        Some(FieldValue::Date(_)) => true,
        _ => false,
    };
    path && watch && created && modified && all_texts(entries, Field::TitleNgram) && all_texts(
        entries,
        Field::TagNgram,
    )
}

/// Where the excerpt of a hit comes from.
#[derive(Clone, Copy, Debug, PartialEq, Eq, Structural)]
pub enum SnippetSource {
    /// The contents under the document's language.
    Language,
    /// The contents as bigrams.
    Ngram,
}

/// Where the excerpt of a hit comes from: from the contents under the
/// document's language, unless that excerpt is empty.
pub fn snippet_source(language_snippet_is_empty: bool) -> (r: SnippetSource)
    ensures
        r == if language_snippet_is_empty {
            SnippetSource::Ngram
        } else {
            SnippetSource::Language
        },
{
    if language_snippet_is_empty {
        SnippetSource::Ngram
    } else {
        SnippetSource::Language
    }
}

/// The hit that the stored record `entries` describes, with the excerpt
/// `highlight`. The title is the first bigram title, the tags are the
/// bigram tags. A time that the calendar cannot hold is an error, and
/// nothing else is.
pub fn populate_document(highlight: Option<String>, entries: &Vec<FieldEntry>) -> (r: Result<
    SearchResultDocument,
    PopulateError,
>)
    requires
        readable(entry_views(entries@)),
    ensures
        ({
            let stored = entry_views(entries@);
            let created = first_of(stored, Field::CreatedAt)->0->Date_0;
            let modified = first_of(stored, Field::ModifiedAt)->0->Date_0;
            if calendar_holds(created) && calendar_holds(modified) {
                &&& r is Ok
                &&& r->Ok_0.path@ == first_of(stored, Field::Path)->0->Text_0
                &&& r->Ok_0.watch_id == first_of(stored, Field::WatchId)->0->I64_0
                &&& match r->Ok_0.title {
                    Some(title) => first_of(stored, Field::TitleNgram) == Some(
                        ValueView::Text(title@),
                    ),
                    None => first_of(stored, Field::TitleNgram) is None,
                }
                &&& crate::text::string_views(r->Ok_0.tags@) == texts_of(stored, Field::TagNgram)
                &&& r->Ok_0.highlight == highlight
                &&& r->Ok_0.created_at == created
                &&& r->Ok_0.modified_at == modified
            } else {
                r == Err::<SearchResultDocument, PopulateError>(PopulateError::TimestampOutOfRange)
            }
        }),
{
    let path = match first_value(entries, Field::Path) {
        Some(FieldValue::Text(text)) => text.clone(),
        _ => String::new(),
    };
    let watch_id = match first_value(entries, Field::WatchId) {
        Some(FieldValue::I64(n)) => *n,
        _ => 0,
    };
    let found_title = first_value(entries, Field::TitleNgram);
    proof {
        lemma_first_is_entry(entry_views(entries@), Field::TitleNgram);
    }
    let title = match found_title {
        Some(FieldValue::Text(text)) => Some(text.clone()),
        _ => None,
    };
    let tags = text_values(entries, Field::TagNgram);
    let created_at = match first_value(entries, Field::CreatedAt) {
        Some(FieldValue::Date(n)) => *n,
        _ => 0,
    };
    if !in_calendar(created_at) {
        return Err(PopulateError::TimestampOutOfRange);
    }
    let modified_at = match first_value(entries, Field::ModifiedAt) {
        Some(FieldValue::Date(n)) => *n,
        _ => 0,
    };
    if !in_calendar(modified_at) {
        return Err(PopulateError::TimestampOutOfRange);
    }
    Ok(SearchResultDocument { path, title, tags, watch_id, highlight, created_at, modified_at })
}

/// The first value of a field is the value of an entry of that field.
proof fn lemma_first_is_entry(entries: Seq<(Field, ValueView)>, field: Field)
    ensures
        first_of(entries, field) matches Some(value) ==> exists|i: int|
            0 <= i < entries.len() && (#[trigger] entries[i]) == (field, value),
    decreases entries.len(),
{
    if entries.len() > 0 && entries[0].0 != field {
        lemma_first_is_entry(entries.drop_first(), field);
        if first_of(entries, field) is Some {
            let value = first_of(entries, field)->0;
            let i = choose|i: int|
                0 <= i < entries.drop_first().len() && (#[trigger] entries.drop_first()[i]) == (
                    field,
                    value,
                );
        }
    }
}

} // verus!
