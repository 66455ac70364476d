use jomai::frontmatter::Frontmatter;
use jomai::language::DetectedLanguage;
use jomai::language::Language;
use jomai::schema::AppSchema;
use jomai::schema::Field;
use jomai::schema::FieldKind;
use jomai::schema::Tokenizer;
use jomai::schema::define_schema;
use jomai::search_document::choose_title;
use jomai::search_document::document_entries;
use jomai::search_document::get_title;
use jomai::search_document::make_document;
use jomai::search_document::path_component_strings;
use jomai::search_document::FieldEntry;
use jomai::search_document::FieldValue;
use jomai::watches::WatchId;

fn text(field: Field, value: &str) -> FieldEntry {
    FieldEntry { field, value: FieldValue::Text(value.to_string()) }
}

fn values<'a>(entries: &'a [FieldEntry], field: Field) -> Vec<&'a FieldValue> {
    entries.iter().filter(|e| e.field == field).map(|e| &e.value).collect()
}

#[test]
fn title_from_the_first_heading() {
    let entries = make_document("/w/a.md", WatchId(1), &None, "# Hello\n\nbody", 10, 20);
    assert_eq!(values(&entries, Field::Path), vec![&FieldValue::Text("/w/a.md".to_string())]);
    assert_eq!(values(&entries, Field::TitleNgram), vec![&FieldValue::Text("Hello".to_string())]);
    assert_eq!(values(&entries, Field::TitleEn), vec![&FieldValue::Text("Hello".to_string())]);
    assert!(values(&entries, Field::TitleJa).is_empty());
}

#[test]
fn frontmatter_wins() {
    let frontmatter = Some(Frontmatter {
        title: Some("T".to_string()),
        tags: Some(vec!["x".to_string(), "y".to_string()]),
    });
    let entries = make_document("/w/b.md", WatchId(1), &frontmatter, "# H\n", 10, 20);
    assert_eq!(values(&entries, Field::TitleNgram), vec![&FieldValue::Text("T".to_string())]);
    assert_eq!(
        values(&entries, Field::TagNgram),
        vec![&FieldValue::Text("x".to_string()), &FieldValue::Text("y".to_string())]
    );
    assert_eq!(
        values(&entries, Field::TagEn),
        vec![&FieldValue::Text("x".to_string()), &FieldValue::Text("y".to_string())]
    );
}

#[test]
fn title_falls_back_to_the_file_stem() {
    assert_eq!(get_title(&None, "no heading here", "/w/my note.md"), "my note");
    assert_eq!(get_title(&None, "## only h2", "/w/cafe\u{301}.v2.md"), "caf\u{e9}.v2");
    let untitled = Some(Frontmatter { title: None, tags: None });
    assert_eq!(get_title(&untitled, "# Heading", "/w/a.md"), "Heading");
    assert_eq!(get_title(&untitled, "text", "/w/a.md"), "a");
    let titled = Some(Frontmatter { title: Some("Front".to_string()), tags: None });
    assert_eq!(get_title(&titled, "# Heading", "/w/a.md"), "Front");
}

#[test]
fn the_first_title_that_is_there_is_chosen() {
    let front = "front".to_string();
    assert_eq!(choose_title(Some(&front), Some("h".to_string()), "s".to_string()), "front");
    assert_eq!(choose_title(None, Some("h".to_string()), "s".to_string()), "h");
    assert_eq!(choose_title(None, None, "s".to_string()), "s");
}

#[test]
fn record_of_an_english_document() {
    let entries = make_document("/w/dir/a.md", WatchId(7), &None, "# Hello\n\nsome words", 10, 20);
    assert_eq!(
        entries,
        vec![
            text(Field::Path, "/w/dir/a.md"),
            text(Field::PathComponents, "w"),
            text(Field::PathComponents, "dir"),
            text(Field::PathComponents, "a.md"),
            text(Field::PathNgram, "/w/dir/a.md"),
            FieldEntry { field: Field::Language, value: FieldValue::U64(1) },
            text(Field::TitleNgram, "Hello"),
            text(Field::TitleEn, "Hello"),
            text(Field::ContentsNgram, "# Hello\n\nsome words"),
            text(Field::ContentsEn, "# Hello\n\nsome words"),
            FieldEntry { field: Field::CreatedAt, value: FieldValue::Date(10) },
            FieldEntry { field: Field::ModifiedAt, value: FieldValue::Date(20) },
            FieldEntry { field: Field::WatchId, value: FieldValue::I64(7) },
        ]
    );
}

#[test]
fn record_of_a_japanese_document() {
    let body = "これは日本語の文章です。検索エンジンのテストをしています。";
    let frontmatter = Some(Frontmatter { title: None, tags: Some(vec!["メモ".to_string()]) });
    let entries = make_document("/w/メモ.md", WatchId(2), &frontmatter, body, 1, 2);
    assert_eq!(values(&entries, Field::Language), vec![&FieldValue::U64(2)]);
    assert_eq!(values(&entries, Field::TitleJa), vec![&FieldValue::Text("メモ".to_string())]);
    assert_eq!(values(&entries, Field::ContentsJa), vec![&FieldValue::Text(body.to_string())]);
    assert_eq!(values(&entries, Field::TagJa), vec![&FieldValue::Text("メモ".to_string())]);
    assert_eq!(values(&entries, Field::TagNgram), vec![&FieldValue::Text("メモ".to_string())]);
    assert!(values(&entries, Field::ContentsEn).is_empty());
    assert!(values(&entries, Field::TagEn).is_empty());
}

#[test]
fn record_from_its_parts() {
    let entries = document_entries(
        "/k",
        &vec!["k".to_string()],
        Language::Japanese,
        "t",
        "b",
        -5,
        6,
        WatchId(3),
        &vec!["x".to_string()],
    );
    assert_eq!(
        entries,
        vec![
            text(Field::Path, "/k"),
            text(Field::PathComponents, "k"),
            text(Field::PathNgram, "/k"),
            FieldEntry { field: Field::Language, value: FieldValue::U64(2) },
            text(Field::TitleNgram, "t"),
            text(Field::TitleJa, "t"),
            text(Field::ContentsNgram, "b"),
            text(Field::ContentsJa, "b"),
            FieldEntry { field: Field::CreatedAt, value: FieldValue::Date(-5) },
            FieldEntry { field: Field::ModifiedAt, value: FieldValue::Date(6) },
            FieldEntry { field: Field::WatchId, value: FieldValue::I64(3) },
            text(Field::TagJa, "x"),
            text(Field::TagNgram, "x"),
        ]
    );
}

#[test]
fn path_is_stored_under_its_key() {
    let entries = make_document("/w/cafe\u{301}/a.md", WatchId(1), &None, "x", 0, 0);
    assert_eq!(
        values(&entries, Field::Path),
        vec![&FieldValue::Text("/w/caf\u{e9}/a.md".to_string())]
    );
    assert_eq!(
        values(&entries, Field::PathComponents),
        vec![
            &FieldValue::Text("w".to_string()),
            &FieldValue::Text("caf\u{e9}".to_string()),
            &FieldValue::Text("a.md".to_string())
        ]
    );
}

#[test]
fn only_names_are_path_components() {
    assert_eq!(path_component_strings("/a/b/c.md"), vec!["a", "b", "c.md"]);
    assert_eq!(path_component_strings("./a/../b"), vec!["a", "b"]);
    assert_eq!(path_component_strings("/"), Vec::<String>::new());
    assert_eq!(path_component_strings("/cafe\u{301}"), vec!["caf\u{e9}"]);
}

#[test]
fn languages_and_their_codes() {
    assert_eq!(Language::English.code(), 1);
    assert_eq!(Language::Japanese.code(), 2);
    assert_eq!(Language::from_code(1), Language::English);
    assert_eq!(Language::from_code(2), Language::Japanese);
    assert_eq!(Language::from_detected(None), Language::English);
    assert_eq!(Language::from_detected(Some(DetectedLanguage::Japanese)), Language::Japanese);
}

#[test]
fn language_is_detected_in_the_text() {
    assert_eq!(Language::of("これは日本語の文章です。今日は天気がいいですね。"), Language::Japanese);
    assert_eq!(Language::of("This is a plain English sentence about the weather."), Language::English);
    assert_eq!(Language::of(""), Language::English);
}

#[test]
fn schema_declares_every_field_once() {
    let fields = define_schema();
    assert_eq!(fields.len(), 16);
    let names: Vec<&str> = fields.iter().map(|f| f.field.name()).collect();
    assert_eq!(
        names,
        vec![
            "language",
            "path",
            "path_components",
            "path_ngram",
            "contents_en",
            "contents_ja",
            "contents_ngram",
            "title_en",
            "title_ja",
            "title_ngram",
            "tag_en",
            "tag_ja",
            "tag_ngram",
            "created_at",
            "modified_at",
            "watch_id",
        ]
    );
    assert!(fields.iter().all(|f| f.stored));
    assert_eq!(fields[0].kind, FieldKind::U64);
    assert!(fields[0].fast);
    assert_eq!(fields[1].kind, FieldKind::Text(Tokenizer::Raw));
    assert_eq!(fields[3].kind, FieldKind::Text(Tokenizer::Ngram));
    assert_eq!(fields[4].kind, FieldKind::Text(Tokenizer::LangEn));
    assert_eq!(fields[5].kind, FieldKind::Text(Tokenizer::LangJa));
    assert_eq!(fields[13].kind, FieldKind::Date);
    assert!(fields[14].fast);
    assert_eq!(fields[15].kind, FieldKind::I64);
    assert!(fields[15].indexed && !fields[15].fast);
}

#[test]
fn schema_by_roles() {
    let schema = AppSchema::new();
    assert_eq!(schema.path(), Field::Path);
    assert_eq!(schema.path_components(), Field::PathComponents);
    assert_eq!(schema.path_ngram(), Field::PathNgram);
    assert_eq!(schema.language(), Field::Language);
    assert_eq!(schema.created_at(), Field::CreatedAt);
    assert_eq!(schema.modified_at(), Field::ModifiedAt);
    assert_eq!(schema.watch_id(), Field::WatchId);
    assert_eq!(schema.contents_all_languages(), vec![Field::ContentsEn, Field::ContentsJa]);
    assert_eq!(
        schema.contents_all(),
        vec![Field::ContentsEn, Field::ContentsJa, Field::ContentsNgram]
    );
    assert_eq!(schema.contents_ngram(), Field::ContentsNgram);
    assert_eq!(schema.contents_for_language(Language::English), Field::ContentsEn);
    assert_eq!(schema.contents_for_language(Language::Japanese), Field::ContentsJa);
    assert_eq!(schema.title_all_languages(), vec![Field::TitleEn, Field::TitleJa]);
    assert_eq!(schema.title_all(), vec![Field::TitleEn, Field::TitleJa, Field::TitleNgram]);
    assert_eq!(schema.title_ngram(), Field::TitleNgram);
    assert_eq!(schema.title_for_language(Language::English), Field::TitleEn);
    assert_eq!(schema.title_for_language(Language::Japanese), Field::TitleJa);
    assert_eq!(schema.tag_all_languages(), vec![Field::TagEn, Field::TagJa]);
    assert_eq!(schema.tag_all(), vec![Field::TagEn, Field::TagJa, Field::TagNgram]);
    assert_eq!(schema.tag_ngram(), Field::TagNgram);
    assert_eq!(schema.tag_for_language(Language::English), Field::TagEn);
    assert_eq!(schema.tag_for_language(Language::Japanese), Field::TagJa);
    assert_eq!(schema.all_tag_field_names(), vec!["tag_en", "tag_ja", "tag_ngram"]);
    assert_eq!(schema.default_fields().len(), 12);
    assert_eq!(schema.default_fields()[0], Field::Path);
}

#[test]
fn boosts_in_tenths() {
    let schema = AppSchema::new();
    assert_eq!(schema.field_boost(Field::Path), Some(100));
    assert_eq!(schema.field_boost(Field::PathComponents), Some(100));
    assert_eq!(schema.field_boost(Field::PathNgram), Some(5));
    assert_eq!(schema.field_boost(Field::TitleEn), Some(100));
    assert_eq!(schema.field_boost(Field::TitleJa), Some(100));
    assert_eq!(schema.field_boost(Field::TitleNgram), Some(50));
    assert_eq!(schema.field_boost(Field::TagEn), Some(80));
    assert_eq!(schema.field_boost(Field::TagJa), Some(80));
    assert_eq!(schema.field_boost(Field::TagNgram), Some(50));
    assert_eq!(schema.field_boost(Field::ContentsEn), Some(10));
    assert_eq!(schema.field_boost(Field::ContentsJa), Some(10));
    assert_eq!(schema.field_boost(Field::ContentsNgram), Some(5));
    assert_eq!(schema.field_boost(Field::WatchId), None);
    assert_eq!(schema.field_boost(Field::Language), None);
}
