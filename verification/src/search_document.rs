//! The record that the index holds of one document.
//!
//! The record is a list of field values. The path goes in as its key, as
//! its named components and as bigrams. The title and the body go in
//! twice each: under the document's language and as bigrams. So does
//! every tag. The title is the one that the metadata block gives; else
//! the first level-one heading of the body; else the file's name without
//! its extension.

use crate::frontmatter::Frontmatter;
use crate::language::detected_language_of;
use crate::language::language_code;
use crate::language::language_for;
use crate::language::Language;
use crate::markdown::infer_title;
use crate::markdown::markdown_events_of;
use crate::markdown::title_in;
use crate::path_string_normalization::nfc_of;
use crate::path_string_normalization::normalize_string;
use crate::paths::components;
use crate::paths::file_name_of;
use crate::paths::file_stem;
use crate::paths::is_special;
use crate::paths::is_special_component;
use crate::paths::split_components;
use crate::paths::stem_of;
use crate::paths::texts;
use crate::schema::contents_field;
use crate::schema::tag_field;
use crate::schema::title_field;
use crate::schema::AppSchema;
use crate::schema::Field;
use crate::text::string_of;
use crate::text::string_views;
use crate::watches::WatchId;
use vstd::prelude::*;
use vstd::string::StringExecFns;

verus! {

/// The value of a field.
#[derive(Debug, PartialEq, Eq)]
pub enum FieldValue {
    Text(String),
    U64(u64),
    I64(i64),
    /// A point in time, in seconds since the start of 1970.
    Date(i64),
}

/// The value of a field as contracts speak of it.
pub enum ValueView {
    Text(Seq<char>),
    U64(u64),
    I64(i64),
    Date(i64),
}

impl View for FieldValue {
    type V = ValueView;

    open spec fn view(&self) -> ValueView {
        match *self {
            FieldValue::Text(text) => ValueView::Text(text@),
            FieldValue::U64(n) => ValueView::U64(n),
            FieldValue::I64(n) => ValueView::I64(n),
            FieldValue::Date(n) => ValueView::Date(n),
        }
    }
}

/// One value of one field.
#[derive(Debug, PartialEq, Eq)]
pub struct FieldEntry {
    pub field: Field,
    pub value: FieldValue,
}

impl View for FieldEntry {
    type V = (Field, ValueView);

    open spec fn view(&self) -> (Field, ValueView) {
        (self.field, self.value@)
    }
}

/// The entries as contracts speak of them.
pub open spec fn entry_views(entries: Seq<FieldEntry>) -> Seq<(Field, ValueView)> {
    Seq::new(entries.len(), |i: int| entries[i]@)
}

/// The key of every component of `comps` that is a name.
pub open spec fn component_keys(comps: Seq<Seq<char>>) -> Seq<Seq<char>>
    decreases comps.len(),
{
    if comps.len() == 0 {
        comps
    } else if is_special(comps.last()) {
        component_keys(comps.drop_last())
    } else {
        component_keys(comps.drop_last()).push(nfc_of(comps.last()))
    }
}

/// One entry of `field` for each text of `values`.
pub open spec fn text_entries(field: Field, values: Seq<Seq<char>>) -> Seq<(Field, ValueView)> {
    Seq::new(values.len(), |i: int| (field, ValueView::Text(values[i])))
}

/// Two entries for each tag of `tags`: one under the language, one as
/// bigrams.
pub open spec fn tag_entries(language: Language, tags: Seq<Seq<char>>) -> Seq<(Field, ValueView)>
    decreases tags.len(),
{
    if tags.len() == 0 {
        Seq::<(Field, ValueView)>::empty()
    } else {
        tag_entries(language, tags.drop_last()).push(
            (tag_field(language), ValueView::Text(tags.last())),
        ).push((Field::TagNgram, ValueView::Text(tags.last())))
    }
}

/// The entries between the path components and the tags.
pub open spec fn core_entries(
    key: Seq<char>,
    language: Language,
    title: Seq<char>,
    body: Seq<char>,
    created_at: i64,
    modified_at: i64,
    watch_id: i64,
) -> Seq<(Field, ValueView)> {
    seq![
        (Field::PathNgram, ValueView::Text(key)),
        (Field::Language, ValueView::U64(language_code(language))),
        (Field::TitleNgram, ValueView::Text(title)),
        (title_field(language), ValueView::Text(title)),
        (Field::ContentsNgram, ValueView::Text(body)),
        (contents_field(language), ValueView::Text(body)),
        (Field::CreatedAt, ValueView::Date(created_at)),
        (Field::ModifiedAt, ValueView::Date(modified_at)),
        (Field::WatchId, ValueView::I64(watch_id)),
    ]
}

/// The record of a document.
pub open spec fn document_fields(
    key: Seq<char>,
    component_keys: Seq<Seq<char>>,
    language: Language,
    title: Seq<char>,
    body: Seq<char>,
    created_at: i64,
    modified_at: i64,
    watch_id: i64,
    tags: Seq<Seq<char>>,
) -> Seq<(Field, ValueView)> {
    seq![(Field::Path, ValueView::Text(key))] + text_entries(Field::PathComponents, component_keys)
        + core_entries(key, language, title, body, created_at, modified_at, watch_id)
        + tag_entries(language, tags)
}

/// The title of a document: the title of its metadata block; else the
/// title that its body gives itself; else the key of its file's name
/// without the extension.
pub open spec fn title_of(
    frontmatter_title: Option<Seq<char>>,
    heading: Option<Seq<char>>,
    comps: Seq<Seq<char>>,
) -> Seq<char> {
    match frontmatter_title {
        Some(title) => title,
        None => match heading {
            Some(title) => title,
            None => nfc_of(stem_of(file_name_of(comps)->0)),
        },
    }
}

/// The title that the metadata block gives.
pub open spec fn frontmatter_title(frontmatter: Option<Frontmatter>) -> Option<Seq<char>> {
    match frontmatter {
        Some(f) => match f.title {
            Some(title) => Some(title@),
            None => None,
        },
        None => None,
    }
}

/// The tags that the metadata block gives.
pub open spec fn frontmatter_tags(frontmatter: Option<Frontmatter>) -> Seq<Seq<char>> {
    match frontmatter {
        Some(f) => match f.tags {
            Some(tags) => string_views(tags@),
            None => Seq::<Seq<char>>::empty(),
        },
        None => Seq::<Seq<char>>::empty(),
    }
}

proof fn lemma_views_push(entries: Seq<FieldEntry>, entry: FieldEntry)
    ensures
        entry_views(entries.push(entry)) == entry_views(entries).push(entry@),
{
}

/// The key of every component of `path` that is a name.
pub fn path_component_strings(path: &str) -> (r: Vec<String>)
    ensures
        string_views(r@) == component_keys(components(path@)),
{
    let parts = split_components(path);
    let mut results: Vec<String> = Vec::new();
    let mut i: usize = 0;
    while i < parts.len()
        invariant
            i <= parts.len(),
            string_views(results@) == component_keys(texts(parts@).take(i as int)),
        decreases parts.len() - i,
    {
        let ghost next = texts(parts@).take(i + 1);
        assert(next.drop_last() =~= texts(parts@).take(i as int));
        if !is_special_component(&parts[i]) {
            let text = string_of(&parts[i]);
            let key = normalize_string(text.as_str());
            results.push(key);
        }
        i = i + 1;
    }
    assert(texts(parts@).take(parts.len() as int) =~= texts(parts@));
    results
}

/// The first of the three titles that is there.
pub fn choose_title(frontmatter_title: Option<&String>, heading: Option<String>, stem_key: String) -> (r:
    String)
    ensures
        r@ == match frontmatter_title {
            Some(title) => title@,
            None => match heading {
                Some(title) => title@,
                None => stem_key@,
            },
        },
{
    match frontmatter_title {
        Some(title) => title.clone(),
        None => match heading {
            Some(title) => title,
            None => stem_key,
        },
    }
}

/// The title of the document at `path` with the metadata block
/// `frontmatter` and the body `body`. The path must end in a name.
pub fn get_title(frontmatter: &Option<Frontmatter>, body: &str, path: &str) -> (r: String)
    requires
        file_name_of(components(path@)) is Some,
    ensures
        r@ == title_of(
            frontmatter_title(*frontmatter),
            title_in(markdown_events_of(body@)),
            components(path@),
        ),
{
    let from_frontmatter = match frontmatter {
        Some(f) => match &f.title {
            Some(title) => Some(title),
            None => None,
        },
        None => None,
    };
    let heading = match from_frontmatter {
        Some(_) => None,
        None => infer_title(body),
    };
    let stem_key = match (from_frontmatter, &heading) {
        (None, None) => match file_stem(path) {
            Some(stem) => normalize_string(stem.as_str()),
            None => String::new(),
        },
        _ => String::new(),
    };
    choose_title(from_frontmatter, heading, stem_key)
}

/// The record of a document, from its parts.
pub fn document_entries(
    key: &str,
    component_keys: &Vec<String>,
    language: Language,
    title: &str,
    body: &str,
    created_at: i64,
    modified_at: i64,
    watch_id: WatchId,
    tags: &Vec<String>,
) -> (r: Vec<FieldEntry>)
    ensures
        entry_views(r@) == document_fields(
            key@,
            string_views(component_keys@),
            language,
            title@,
            body@,
            created_at,
            modified_at,
            watch_id.0,
            string_views(tags@),
        ),
{
    let schema = AppSchema::new();
    let mut out: Vec<FieldEntry> = Vec::new();
    out.push(FieldEntry { field: schema.path(), value: FieldValue::Text(String::from_str(key)) });
    let ghost head = seq![(Field::Path, ValueView::Text(key@))];
    let mut i: usize = 0;
    while i < component_keys.len()
        invariant
            i <= component_keys.len(),
            head == seq![(Field::Path, ValueView::Text(key@))],
            entry_views(out@) == head + text_entries(
                Field::PathComponents,
                string_views(component_keys@).take(i as int),
            ),
        decreases component_keys.len() - i,
    {
        let entry = FieldEntry {
            field: schema.path_components(),
            value: FieldValue::Text(component_keys[i].clone()),
        };
        proof {
            lemma_views_push(out@, entry);
            assert(head + text_entries(
                Field::PathComponents,
                string_views(component_keys@).take(i + 1),
            ) =~= (head + text_entries(
                Field::PathComponents,
                string_views(component_keys@).take(i as int),
            )).push(entry@));
        }
        out.push(entry);
        i = i + 1;
    }
    assert(string_views(component_keys@).take(component_keys.len() as int) =~= string_views(
        component_keys@,
    ));
    let ghost core = core_entries(
        key@,
        language,
        title@,
        body@,
        created_at,
        modified_at,
        watch_id.0,
    );
    let e1 = FieldEntry { field: schema.path_ngram(), value: FieldValue::Text(String::from_str(key)) };
    let e2 = FieldEntry { field: schema.language(), value: FieldValue::U64(language.code()) };
    let e3 = FieldEntry { field: schema.title_ngram(), value: FieldValue::Text(String::from_str(title)) };
    let e4 = FieldEntry {
        field: schema.title_for_language(language),
        value: FieldValue::Text(String::from_str(title)),
    };
    let e5 = FieldEntry {
        field: schema.contents_ngram(),
        value: FieldValue::Text(String::from_str(body)),
    };
    let e6 = FieldEntry {
        field: schema.contents_for_language(language),
        value: FieldValue::Text(String::from_str(body)),
    };
    let e7 = FieldEntry { field: schema.created_at(), value: FieldValue::Date(created_at) };
    let e8 = FieldEntry { field: schema.modified_at(), value: FieldValue::Date(modified_at) };
    let e9 = FieldEntry { field: schema.watch_id(), value: FieldValue::I64(watch_id.0) };
    proof { lemma_views_push(out@, e1); }
    out.push(e1);
    proof { lemma_views_push(out@, e2); }
    out.push(e2);
    proof { lemma_views_push(out@, e3); }
    out.push(e3);
    proof { lemma_views_push(out@, e4); }
    out.push(e4);
    proof { lemma_views_push(out@, e5); }
    out.push(e5);
    proof { lemma_views_push(out@, e6); }
    out.push(e6);
    proof { lemma_views_push(out@, e7); }
    out.push(e7);
    proof { lemma_views_push(out@, e8); }
    out.push(e8);
    proof { lemma_views_push(out@, e9); }
    out.push(e9);
    let ghost with_core = entry_views(out@);
    let mut j: usize = 0;
    while j < tags.len()
        invariant
            j <= tags.len(),
            entry_views(out@) == with_core + tag_entries(
                language,
                string_views(tags@).take(j as int),
            ),
        decreases tags.len() - j,
    {
        let ghost before = string_views(tags@).take(j as int);
        let ghost after = string_views(tags@).take(j + 1);
        assert(after.drop_last() =~= before);
        let t1 = FieldEntry {
            field: schema.tag_for_language(language),
            value: FieldValue::Text(tags[j].clone()),
        };
        let t2 = FieldEntry { field: schema.tag_ngram(), value: FieldValue::Text(tags[j].clone()) };
        proof {
            lemma_views_push(out@, t1);
            lemma_views_push(out@.push(t1), t2);
            assert(with_core + tag_entries(language, after) =~= (with_core + tag_entries(
                language,
                before,
            )).push(t1@).push(t2@));
        }
        out.push(t1);
        out.push(t2);
        j = j + 1;
    }
    assert(string_views(tags@).take(tags.len() as int) =~= string_views(tags@));
    out
}

/// The record of the document at `path`, which belongs to the watch
/// `watch_id`, has the metadata block `frontmatter` and the body `body`,
/// and was created and last modified at the given seconds. The path must
/// end in a name.
pub fn make_document(
    path: &str,
    watch_id: WatchId,
    frontmatter: &Option<Frontmatter>,
    body: &str,
    created_at: i64,
    modified_at: i64,
) -> (r: Vec<FieldEntry>)
    requires
        file_name_of(components(path@)) is Some,
    ensures
        entry_views(r@) == document_fields(
            nfc_of(path@),
            component_keys(components(path@)),
            language_for(detected_language_of(body@)),
            title_of(
                frontmatter_title(*frontmatter),
                title_in(markdown_events_of(body@)),
                components(path@),
            ),
            body@,
            created_at,
            modified_at,
            watch_id.0,
            frontmatter_tags(*frontmatter),
        ),
{
    let title = get_title(frontmatter, body, path);
    let language = Language::of(body);
    let key = normalize_string(path);
    let component_keys = path_component_strings(path);
    let no_tags: Vec<String> = Vec::new();
    let tags = match frontmatter {
        Some(f) => match &f.tags {
            Some(tags) => tags,
            None => &no_tags,
        },
        None => &no_tags,
    };
    document_entries(
        key.as_str(),
        &component_keys,
        language,
        title.as_str(),
        body,
        created_at,
        modified_at,
        watch_id,
        tags,
    )
}

} // verus!
