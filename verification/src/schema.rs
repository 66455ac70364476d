//! The fields of the search index.
//!
//! Every text is indexed three ways: by the analysis of its language,
//! English or Japanese, and as character bigrams, so that fragments of
//! words are found in either language. The path is indexed as it is.

use crate::language::Language;
use vstd::prelude::*;

verus! {

/// A field of the index.
#[derive(Clone, Copy, Debug, PartialEq, Eq, Structural)]
pub enum Field {
    Language,
    Path,
    PathComponents,
    PathNgram,
    ContentsEn,
    ContentsJa,
    ContentsNgram,
    TitleEn,
    TitleJa,
    TitleNgram,
    TagEn,
    TagJa,
    TagNgram,
    CreatedAt,
    ModifiedAt,
    WatchId,
}

/// How the text of a field is cut into terms.
#[derive(Clone, Copy, Debug, PartialEq, Eq, Structural)]
pub enum Tokenizer {
    /// The whole text is one term.
    Raw,
    /// English words, stemmed.
    LangEn,
    /// Japanese words.
    LangJa,
    /// Every two characters in a row.
    Ngram,
}

/// What a field holds.
#[derive(Clone, Copy, Debug, PartialEq, Eq, Structural)]
pub enum FieldKind {
    U64,
    I64,
    Date,
    Text(Tokenizer),
}

/// A field with its kind and the ways in which it is kept.
#[derive(Clone, Copy, Debug, PartialEq, Eq, Structural)]
pub struct FieldDefinition {
    pub field: Field,
    pub kind: FieldKind,
    /// The value can be read back from a hit.
    pub stored: bool,
    /// The value is kept in a column, for sorting.
    pub fast: bool,
    /// The value can be searched for.
    pub indexed: bool,
}

/// The name of `field` in the index.
pub open spec fn field_name(field: Field) -> Seq<char> {
    match field {
        Field::Language => "language"@,
        Field::Path => "path"@,
        Field::PathComponents => "path_components"@,
        Field::PathNgram => "path_ngram"@,
        Field::ContentsEn => "contents_en"@,
        Field::ContentsJa => "contents_ja"@,
        Field::ContentsNgram => "contents_ngram"@,
        Field::TitleEn => "title_en"@,
        Field::TitleJa => "title_ja"@,
        Field::TitleNgram => "title_ngram"@,
        Field::TagEn => "tag_en"@,
        Field::TagJa => "tag_ja"@,
        Field::TagNgram => "tag_ngram"@,
        Field::CreatedAt => "created_at"@,
        Field::ModifiedAt => "modified_at"@,
        Field::WatchId => "watch_id"@,
    }
}

impl Field {
    /// The name of the field in the index.
    pub fn name(&self) -> (r: &'static str)
        ensures
            r@ == field_name(*self),
    {
        match self {
            Field::Language => "language",
            Field::Path => "path",
            Field::PathComponents => "path_components",
            Field::PathNgram => "path_ngram",
            Field::ContentsEn => "contents_en",
            Field::ContentsJa => "contents_ja",
            Field::ContentsNgram => "contents_ngram",
            Field::TitleEn => "title_en",
            Field::TitleJa => "title_ja",
            Field::TitleNgram => "title_ngram",
            Field::TagEn => "tag_en",
            Field::TagJa => "tag_ja",
            Field::TagNgram => "tag_ngram",
            Field::CreatedAt => "created_at",
            Field::ModifiedAt => "modified_at",
            Field::WatchId => "watch_id",
        }
    }
}

/// A stored text field with the tokenizer `tokenizer`.
pub open spec fn text_field(field: Field, tokenizer: Tokenizer) -> FieldDefinition {
    FieldDefinition {
        field,
        kind: FieldKind::Text(tokenizer),
        stored: true,
        fast: false,
        indexed: true,
    }
}

/// The fields of the index, in the order in which they are declared.
pub open spec fn schema_fields() -> Seq<FieldDefinition> {
    seq![
        FieldDefinition {
            field: Field::Language,
            kind: FieldKind::U64,
            stored: true,
            fast: true,
            indexed: false,
        },
        text_field(Field::Path, Tokenizer::Raw),
        text_field(Field::PathComponents, Tokenizer::Raw),
        text_field(Field::PathNgram, Tokenizer::Ngram),
        text_field(Field::ContentsEn, Tokenizer::LangEn),
        text_field(Field::ContentsJa, Tokenizer::LangJa),
        text_field(Field::ContentsNgram, Tokenizer::Ngram),
        text_field(Field::TitleEn, Tokenizer::LangEn),
        text_field(Field::TitleJa, Tokenizer::LangJa),
        text_field(Field::TitleNgram, Tokenizer::Ngram),
        text_field(Field::TagEn, Tokenizer::LangEn),
        text_field(Field::TagJa, Tokenizer::LangJa),
        text_field(Field::TagNgram, Tokenizer::Ngram),
        FieldDefinition {
            field: Field::CreatedAt,
            kind: FieldKind::Date,
            stored: true,
            fast: true,
            indexed: false,
        },
        FieldDefinition {
            field: Field::ModifiedAt,
            kind: FieldKind::Date,
            stored: true,
            fast: true,
            indexed: false,
        },
        FieldDefinition {
            field: Field::WatchId,
            kind: FieldKind::I64,
            stored: true,
            fast: false,
            indexed: true,
        },
    ]
}

fn text(field: Field, tokenizer: Tokenizer) -> (r: FieldDefinition)
    ensures
        r == text_field(field, tokenizer),
{
    FieldDefinition { field, kind: FieldKind::Text(tokenizer), stored: true, fast: false, indexed: true }
}

/// The fields of the index, in the order in which they are declared.
pub fn define_schema() -> (r: Vec<FieldDefinition>)
    ensures
        r@ == schema_fields(),
{
    let mut fields: Vec<FieldDefinition> = Vec::new();
    fields.push(
        FieldDefinition {
            field: Field::Language,
            kind: FieldKind::U64,
            stored: true,
            fast: true,
            indexed: false,
        },
    );
    fields.push(text(Field::Path, Tokenizer::Raw));
    fields.push(text(Field::PathComponents, Tokenizer::Raw));
    fields.push(text(Field::PathNgram, Tokenizer::Ngram));
    fields.push(text(Field::ContentsEn, Tokenizer::LangEn));
    fields.push(text(Field::ContentsJa, Tokenizer::LangJa));
    fields.push(text(Field::ContentsNgram, Tokenizer::Ngram));
    fields.push(text(Field::TitleEn, Tokenizer::LangEn));
    fields.push(text(Field::TitleJa, Tokenizer::LangJa));
    fields.push(text(Field::TitleNgram, Tokenizer::Ngram));
    fields.push(text(Field::TagEn, Tokenizer::LangEn));
    fields.push(text(Field::TagJa, Tokenizer::LangJa));
    fields.push(text(Field::TagNgram, Tokenizer::Ngram));
    fields.push(
        FieldDefinition {
            field: Field::CreatedAt,
            kind: FieldKind::Date,
            stored: true,
            fast: true,
            indexed: false,
        },
    );
    fields.push(
        FieldDefinition {
            field: Field::ModifiedAt,
            kind: FieldKind::Date,
            stored: true,
            fast: true,
            indexed: false,
        },
    );
    fields.push(
        FieldDefinition {
            field: Field::WatchId,
            kind: FieldKind::I64,
            stored: true,
            fast: false,
            indexed: true,
        },
    );
    fields
}

/// The field that holds the contents of a document in `language`.
pub open spec fn contents_field(language: Language) -> Field {
    match language {
        Language::English => Field::ContentsEn,
        Language::Japanese => Field::ContentsJa,
    }
}

/// The field that holds the title of a document in `language`.
pub open spec fn title_field(language: Language) -> Field {
    match language {
        Language::English => Field::TitleEn,
        Language::Japanese => Field::TitleJa,
    }
}

/// The field that holds the tags of a document in `language`.
pub open spec fn tag_field(language: Language) -> Field {
    match language {
        Language::English => Field::TagEn,
        Language::Japanese => Field::TagJa,
    }
}

/// The factor by which a hit in `field` counts, in tenths; none for a
/// field that is not searched by default.
pub open spec fn boost_tenths(field: Field) -> Option<u32> {
    match field {
        Field::Path => Some(100u32),
        Field::PathComponents => Some(100u32),
        Field::PathNgram => Some(5u32),
        Field::TitleEn => Some(100u32),
        Field::TitleJa => Some(100u32),
        Field::TitleNgram => Some(50u32),
        Field::ContentsEn => Some(10u32),
        Field::ContentsJa => Some(10u32),
        Field::ContentsNgram => Some(5u32),
        Field::TagEn => Some(80u32),
        Field::TagJa => Some(80u32),
        Field::TagNgram => Some(50u32),
        _ => None,
    }
}

/// The schema of the index, by the roles that its fields play.
#[derive(Clone, Copy, Debug)]
pub struct AppSchema;

impl AppSchema {
    pub fn new() -> (r: Self) {
        AppSchema
    }

    pub fn path(&self) -> (r: Field)
        ensures
            r == Field::Path,
    {
        Field::Path
    }

    pub fn path_components(&self) -> (r: Field)
        ensures
            r == Field::PathComponents,
    {
        Field::PathComponents
    }

    pub fn path_ngram(&self) -> (r: Field)
        ensures
            r == Field::PathNgram,
    {
        Field::PathNgram
    }

    pub fn language(&self) -> (r: Field)
        ensures
            r == Field::Language,
    {
        Field::Language
    }

    /// The contents fields of the languages.
    pub fn contents_all_languages(&self) -> (r: Vec<Field>)
        ensures
            r@ == seq![Field::ContentsEn, Field::ContentsJa],
    {
        let mut fields: Vec<Field> = Vec::new();
        fields.push(Field::ContentsEn);
        fields.push(Field::ContentsJa);
        fields
    }

    /// Every contents field.
    pub fn contents_all(&self) -> (r: Vec<Field>)
        ensures
            r@ == seq![Field::ContentsEn, Field::ContentsJa, Field::ContentsNgram],
    {
        let mut fields = self.contents_all_languages();
        fields.push(self.contents_ngram());
        fields
    }

    pub fn contents_ngram(&self) -> (r: Field)
        ensures
            r == Field::ContentsNgram,
    {
        Field::ContentsNgram
    }

    pub fn contents_for_language(&self, language: Language) -> (r: Field)
        ensures
            r == contents_field(language),
    {
        match language {
            Language::English => Field::ContentsEn,
            Language::Japanese => Field::ContentsJa,
        }
    }

    /// The title fields of the languages.
    pub fn title_all_languages(&self) -> (r: Vec<Field>)
        ensures
            r@ == seq![Field::TitleEn, Field::TitleJa],
    {
        let mut fields: Vec<Field> = Vec::new();
        fields.push(Field::TitleEn);
        fields.push(Field::TitleJa);
        fields
    }

    /// Every title field.
    pub fn title_all(&self) -> (r: Vec<Field>)
        ensures
            r@ == seq![Field::TitleEn, Field::TitleJa, Field::TitleNgram],
    {
        let mut fields = self.title_all_languages();
        fields.push(self.title_ngram());
        fields
    }

    pub fn title_ngram(&self) -> (r: Field)
        ensures
            r == Field::TitleNgram,
    {
        Field::TitleNgram
    }

    pub fn title_for_language(&self, language: Language) -> (r: Field)
        ensures
            r == title_field(language),
    {
        match language {
            Language::English => Field::TitleEn,
            Language::Japanese => Field::TitleJa,
        }
    }

    /// The tag fields of the languages.
    pub fn tag_all_languages(&self) -> (r: Vec<Field>)
        ensures
            r@ == seq![Field::TagEn, Field::TagJa],
    {
        let mut fields: Vec<Field> = Vec::new();
        fields.push(Field::TagEn);
        fields.push(Field::TagJa);
        fields
    }

    /// Every tag field.
    pub fn tag_all(&self) -> (r: Vec<Field>)
        ensures
            r@ == seq![Field::TagEn, Field::TagJa, Field::TagNgram],
    {
        let mut fields = self.tag_all_languages();
        fields.push(self.tag_ngram());
        fields
    }

    pub fn tag_ngram(&self) -> (r: Field)
        ensures
            r == Field::TagNgram,
    {
        Field::TagNgram
    }

    pub fn tag_for_language(&self, language: Language) -> (r: Field)
        ensures
            r == tag_field(language),
    {
        match language {
            Language::English => Field::TagEn,
            Language::Japanese => Field::TagJa,
        }
    }

    /// The names of the tag fields.
    pub fn all_tag_field_names(&self) -> (r: Vec<&'static str>)
        ensures
            r.len() == 3,
            r@[0]@ == field_name(Field::TagEn),
            r@[1]@ == field_name(Field::TagJa),
            r@[2]@ == field_name(Field::TagNgram),
    {
        let mut names: Vec<&'static str> = Vec::new();
        names.push(Field::TagEn.name());
        names.push(Field::TagJa.name());
        names.push(Field::TagNgram.name());
        names
    }

    pub fn created_at(&self) -> (r: Field)
        ensures
            r == Field::CreatedAt,
    {
        Field::CreatedAt
    }

    pub fn modified_at(&self) -> (r: Field)
        ensures
            r == Field::ModifiedAt,
    {
        Field::ModifiedAt
    }

    pub fn watch_id(&self) -> (r: Field)
        ensures
            r == Field::WatchId,
    {
        Field::WatchId
    }

    /// The fields that a query searches where it names none, in the order
    /// in which they are handed to the query parser.
    pub fn default_fields(&self) -> (r: Vec<Field>)
        ensures
            r@ == seq![
                Field::Path,
                Field::PathComponents,
                Field::PathNgram,
                Field::ContentsEn,
                Field::ContentsJa,
                Field::ContentsNgram,
                Field::TitleEn,
                Field::TitleJa,
                Field::TitleNgram,
                Field::TagEn,
                Field::TagJa,
                Field::TagNgram,
            ],
    {
        let mut fields: Vec<Field> = Vec::new();
        fields.push(self.path());
        fields.push(self.path_components());
        fields.push(self.path_ngram());
        fields.push(Field::ContentsEn);
        fields.push(Field::ContentsJa);
        fields.push(Field::ContentsNgram);
        fields.push(Field::TitleEn);
        fields.push(Field::TitleJa);
        fields.push(Field::TitleNgram);
        fields.push(Field::TagEn);
        fields.push(Field::TagJa);
        fields.push(Field::TagNgram);
        fields
    }

    /// The factor by which a hit in `field` counts, in tenths.
    pub fn field_boost(&self, field: Field) -> (r: Option<u32>)
        ensures
            r == boost_tenths(field),
    {
        match field {
            Field::Path => Some(100),
            Field::PathComponents => Some(100),
            Field::PathNgram => Some(5),
            Field::TitleEn => Some(100),
            Field::TitleJa => Some(100),
            Field::TitleNgram => Some(50),
            Field::ContentsEn => Some(10),
            Field::ContentsJa => Some(10),
            Field::ContentsNgram => Some(5),
            Field::TagEn => Some(80),
            Field::TagJa => Some(80),
            Field::TagNgram => Some(50),
            _ => None,
        }
    }
}

} // verus!
