use jomai::assets::Asset;
use jomai::assets::Assets;
use jomai::document_db_command_processor::classify_insert_failure;
use jomai::document_db_command_processor::first_statement;
use jomai::document_db_command_processor::second_statement;
use jomai::document_db_command_processor::Command;
use jomai::document_db_command_processor::InsertFailure;
use jomai::document_db_command_processor::Statement;
use jomai::document_service::RepositoryError;
use jomai::index_writer::operation_for;
use jomai::index_writer::IndexOperation;
use jomai::index_writer::IndexWriterCommand;
use jomai::japanese_character_normalizer::JapaneseCharacterTypeNormalizer;
use jomai::language::Language;
use jomai::path_recommendation::get_path_recommendations;
use jomai::path_recommendation::get_path_recommendations_with;
use jomai::path_recommendation::home_path;
use jomai::path_recommendation::PathRecommendation;
use jomai::schema::Field;
use jomai::search_document::FieldEntry;
use jomai::search_document::FieldValue;
use jomai::search_results::first_value;
use jomai::search_results::has_known_language;
use jomai::search_results::is_readable;
use jomai::search_results::populate_document;
use jomai::search_results::snippet_source;
use jomai::search_results::stored_language;
use jomai::search_results::text_values;
use jomai::search_results::PopulateError;
use jomai::search_results::CALENDAR_FIRST;
use jomai::search_results::CALENDAR_LAST;
use jomai::search_results::SearchResultDocument;
use jomai::search_results::SnippetSource;
use jomai::stopwords::load_stopwords_for_lang;
use jomai::stopwords::read_lines;
use jomai::stopwords::read_stopwords;
use jomai::stopwords::StopwordsError;
use jomai::time::Timestamp;
use jomai::watches::WatchId;

fn make_dir(parent: &std::path::Path, name: &str) -> std::path::PathBuf {
    tempfile::Builder::new().prefix(name).rand_bytes(0).tempdir_in(parent).unwrap().keep()
}

fn text(field: Field, value: &str) -> FieldEntry {
    FieldEntry { field, value: FieldValue::Text(value.to_string()) }
}

fn stored(created: i64, modified: i64) -> Vec<FieldEntry> {
    vec![
        text(Field::Path, "/w/a.md"),
        text(Field::PathComponents, "w"),
        FieldEntry { field: Field::Language, value: FieldValue::U64(2) },
        text(Field::TitleNgram, "Title"),
        text(Field::TitleJa, "Title"),
        FieldEntry { field: Field::CreatedAt, value: FieldValue::Date(created) },
        FieldEntry { field: Field::ModifiedAt, value: FieldValue::Date(modified) },
        FieldEntry { field: Field::WatchId, value: FieldValue::I64(4) },
        text(Field::TagJa, "x"),
        text(Field::TagNgram, "x"),
        text(Field::TagJa, "y"),
        text(Field::TagNgram, "y"),
    ]
}

#[test]
fn a_hit_is_read_from_its_record() {
    let hit = populate_document(Some("<b>hi</b>".to_string()), &stored(100, 200));
    assert_eq!(
        hit,
        Ok(SearchResultDocument {
            path: "/w/a.md".to_string(),
            title: Some("Title".to_string()),
            tags: vec!["x".to_string(), "y".to_string()],
            watch_id: 4,
            highlight: Some("<b>hi</b>".to_string()),
            created_at: 100,
            modified_at: 200,
        })
    );
}

#[test]
fn a_hit_without_title_and_tags() {
    let record = vec![
        FieldEntry { field: Field::WatchId, value: FieldValue::I64(1) },
        FieldEntry { field: Field::ModifiedAt, value: FieldValue::Date(2) },
        FieldEntry { field: Field::CreatedAt, value: FieldValue::Date(1) },
        text(Field::Path, "/p"),
    ];
    let hit = populate_document(None, &record).unwrap();
    assert_eq!(hit.title, None);
    assert!(hit.tags.is_empty());
    assert_eq!(hit.highlight, None);
    assert_eq!(hit.path, "/p");
    assert_eq!(stored_language(&record), Language::English);
}

#[test]
fn a_time_outside_the_calendar_is_an_error() {
    assert_eq!(
        populate_document(None, &stored(i64::MAX, 0)),
        Err(PopulateError::TimestampOutOfRange)
    );
    assert_eq!(
        populate_document(None, &stored(0, i64::MIN)),
        Err(PopulateError::TimestampOutOfRange)
    );
    assert!(populate_document(None, &stored(-1, 4_102_444_800)).is_ok());
}

#[test]
fn values_of_a_record() {
    let record = stored(1, 2);
    assert_eq!(first_value(&record, Field::WatchId), Some(&FieldValue::I64(4)));
    assert_eq!(first_value(&record, Field::TagNgram), Some(&FieldValue::Text("x".to_string())));
    assert_eq!(first_value(&record, Field::ContentsEn), None);
    assert_eq!(text_values(&record, Field::TagJa), vec!["x", "y"]);
    assert_eq!(text_values(&record, Field::WatchId), Vec::<String>::new());
    assert_eq!(stored_language(&record), Language::Japanese);
}

#[test]
fn excerpt_falls_back_to_bigrams() {
    assert_eq!(snippet_source(false), SnippetSource::Language);
    assert_eq!(snippet_source(true), SnippetSource::Ngram);
}

#[test]
fn stopwords_one_on_each_line() {
    assert_eq!(read_lines("a\nthe\n\n  of  \r\nand"), vec!["a", "the", "of", "and"]);
    assert_eq!(read_lines(""), Vec::<String>::new());
    assert_eq!(read_lines("\n \n\t\n"), Vec::<String>::new());
    assert_eq!(read_lines("これ\nそれ\n"), vec!["これ", "それ"]);
    assert_eq!(read_lines("two words\n"), vec!["two words"]);
}

#[test]
fn stopwords_must_be_utf8() {
    assert_eq!(read_stopwords(b"a\nb\n".to_vec()), Ok(vec!["a".to_string(), "b".to_string()]));
    assert_eq!(read_stopwords(vec![b'a', 0xff, b'\n']), Err(StopwordsError::InvalidUtf8));
    assert_eq!(read_stopwords(Vec::new()), Ok(Vec::new()));
}

#[test]
fn assets_by_name() {
    let assets = Assets {
        files: vec![
            Asset { name: "system.dic".to_string(), data: vec![1, 2, 3] },
            Asset { name: "stopwords/stopwords-en.txt".to_string(), data: b"a\nthe\n".to_vec() },
            Asset { name: "stopwords/stopwords-ja.txt".to_string(), data: vec![0xff] },
            Asset { name: "system.dic".to_string(), data: vec![9] },
        ],
    };
    assert_eq!(assets.get_vibrato_dict_data(), vec![1, 2, 3]);
    assert_eq!(assets.get_stopwords_for_lang("en"), Some(b"a\nthe\n".to_vec()));
    assert_eq!(assets.get_stopwords_for_lang("fr"), None);
    assert_eq!(assets.get("missing"), None);
    assert_eq!(
        load_stopwords_for_lang(&assets, "en"),
        Ok(vec!["a".to_string(), "the".to_string()])
    );
    assert_eq!(load_stopwords_for_lang(&assets, "ja"), Err(StopwordsError::InvalidUtf8));
}

#[test]
fn a_violated_unique_constraint_is_told_apart() {
    let unique = InsertFailure::Database {
        code: Some("2067".to_string()),
        message: "UNIQUE constraint failed".to_string(),
    };
    assert_eq!(classify_insert_failure(unique), RepositoryError::UniqueConstraintViolation);
    let foreign = InsertFailure::Database { code: Some("787".to_string()), message: "fk".to_string() };
    assert_eq!(classify_insert_failure(foreign), RepositoryError::Database("fk".to_string()));
    let uncoded = InsertFailure::Database { code: None, message: "x".to_string() };
    assert_eq!(classify_insert_failure(uncoded), RepositoryError::Database("x".to_string()));
    let other = InsertFailure::Other { message: "pool closed".to_string() };
    assert_eq!(classify_insert_failure(other), RepositoryError::Sqlx("pool closed".to_string()));
}

#[test]
fn statements_name_paths_by_their_keys() {
    let at = Timestamp { secs: 1, nanos: 2 };
    let path = "/w/cafe\u{301}.md".to_string();
    let key = "/w/caf\u{e9}.md".to_string();
    let insert = Command::Insert { watch_id: WatchId(1), path: path.clone(), indexed_at: None };
    assert_eq!(
        first_statement(&insert),
        Statement::InsertRow { key: key.clone(), watch_id: WatchId(1), indexed_at: None }
    );
    assert_eq!(second_statement(&insert, false), Some(Statement::SelectRow { key: key.clone() }));
    let update = Command::UpdateByPath { path: path.clone(), indexed_at: at };
    assert_eq!(
        first_statement(&update),
        Statement::UpdateIndexedAt { key: key.clone(), indexed_at: at }
    );
    assert_eq!(second_statement(&update, true), Some(Statement::SelectRow { key: key.clone() }));
    let delete = Command::DeleteByPath { path: path.clone() };
    assert_eq!(first_statement(&delete), Statement::SelectRow { key: key.clone() });
    assert_eq!(second_statement(&delete, true), Some(Statement::DeleteRow { key: key.clone() }));
    assert_eq!(second_statement(&delete, false), None);
    let by_watch = Command::DeleteByWatchId { watch_id: WatchId(3) };
    assert_eq!(first_statement(&by_watch), Statement::DeleteRowsOfWatch { watch_id: WatchId(3) });
    assert_eq!(second_statement(&by_watch, true), None);
    let find = Command::FindByPath { path };
    assert_eq!(first_statement(&find), Statement::SelectRow { key });
    assert_eq!(second_statement(&find, true), None);
}

#[test]
fn index_is_deleted_by_term() {
    assert_eq!(
        operation_for(IndexWriterCommand::DeleteByPath { path: "/w/cafe\u{301}.md".to_string() }),
        IndexOperation::DeleteTerm {
            field: Field::Path,
            value: FieldValue::Text("/w/caf\u{e9}.md".to_string())
        }
    );
    assert_eq!(
        operation_for(IndexWriterCommand::DeleteByWatchId { watch_id: WatchId(5) }),
        IndexOperation::DeleteTerm { field: Field::WatchId, value: FieldValue::I64(5) }
    );
    assert_eq!(operation_for(IndexWriterCommand::Commit), IndexOperation::Commit);
    let document = vec![text(Field::Path, "/p")];
    assert_eq!(
        operation_for(IndexWriterCommand::Index { document: vec![text(Field::Path, "/p")] }),
        IndexOperation::AddDocument { document }
    );
}

#[test]
fn japanese_tokens_are_normalised() {
    let n = JapaneseCharacterTypeNormalizer;
    assert_eq!(n.normalize("メモ"), "めも");
    assert_eq!(n.normalize("ﾒﾓ"), "めも");
    assert_eq!(n.normalize("ﾊﾞｼｮｳ"), "ばしょう");
    assert_eq!(n.normalize("Ｒｕｓｔ１．６"), "Rust1.6");
    assert_eq!(n.normalize("イロハァィゥヴヵヶ"), "いろはぁぃぅゔゕゖ");
    assert_eq!(n.normalize("plain ひらがな 漢字"), "plain ひらがな 漢字");
    assert_eq!(n.normalize(""), "");
}

#[test]
fn recommendations_for_a_home() {
    assert_eq!(home_path("/home/u", "Documents"), "/home/u/Documents");
    assert_eq!(home_path("/", "Documents"), "/Documents");
    assert_eq!(home_path("/home/u/", "obsidian-vault"), "/home/u/obsidian-vault");
    assert_eq!(
        get_path_recommendations_with(Some("/home/u"), true, true),
        vec![
            PathRecommendation::Documents("/home/u/Documents".to_string()),
            PathRecommendation::Obsidian("/home/u/obsidian-vault".to_string()),
        ]
    );
    assert_eq!(
        get_path_recommendations_with(Some("/home/u"), false, true),
        vec![PathRecommendation::Obsidian("/home/u/obsidian-vault".to_string())]
    );
    assert_eq!(get_path_recommendations_with(Some("/home/u"), false, false), Vec::new());
    assert_eq!(get_path_recommendations_with(None, true, true), Vec::new());
}

#[test]
fn recommendations_ask_the_disk() {
    let dir = tempfile::tempdir().unwrap();
    let home = dir.path().to_str().unwrap().to_string();
    assert_eq!(get_path_recommendations(Some(&home)), Vec::new());
    make_dir(dir.path(), "obsidian-vault");
    assert_eq!(
        get_path_recommendations(Some(&home)),
        vec![PathRecommendation::Obsidian(format!("{}/obsidian-vault", home))]
    );
    assert_eq!(get_path_recommendations(None), Vec::new());
}

#[test]
fn a_record_is_readable_when_nothing_is_missing() {
    assert!(is_readable(&stored(1, 2)));
    let mut without_path = stored(1, 2);
    without_path.remove(0);
    assert!(!is_readable(&without_path));
    let mut odd_tag = stored(1, 2);
    odd_tag.push(FieldEntry { field: Field::TagNgram, value: FieldValue::U64(1) });
    assert!(!is_readable(&odd_tag));
    let mut odd_time = stored(1, 2);
    odd_time[5] = FieldEntry { field: Field::CreatedAt, value: FieldValue::I64(1) };
    assert!(!is_readable(&odd_time));
    assert!(!is_readable(&Vec::new()));
    assert!(has_known_language(&stored(1, 2)));
    assert!(has_known_language(&Vec::new()));
    assert!(!has_known_language(&vec![FieldEntry {
        field: Field::Language,
        value: FieldValue::U64(3)
    }]));
    assert!(!has_known_language(&vec![text(Field::Language, "ja")]));
}

#[test]
fn the_calendar_ends_where_its_bounds_say() {
    assert_eq!(CALENDAR_FIRST, -8_334_601_228_800);
    assert_eq!(CALENDAR_LAST, 8_210_266_876_799);
    let first = populate_document(None, &stored(CALENDAR_FIRST, CALENDAR_LAST)).unwrap();
    assert_eq!(first.created_at, CALENDAR_FIRST);
    assert_eq!(first.modified_at, CALENDAR_LAST);
    assert!(populate_document(None, &stored(CALENDAR_LAST, CALENDAR_FIRST)).is_ok());
    assert_eq!(
        populate_document(None, &stored(CALENDAR_FIRST - 1, 0)),
        Err(PopulateError::TimestampOutOfRange)
    );
    assert_eq!(
        populate_document(None, &stored(0, CALENDAR_FIRST - 1)),
        Err(PopulateError::TimestampOutOfRange)
    );
    assert_eq!(
        populate_document(None, &stored(CALENDAR_LAST + 1, 0)),
        Err(PopulateError::TimestampOutOfRange)
    );
    assert_eq!(
        populate_document(None, &stored(0, CALENDAR_LAST + 1)),
        Err(PopulateError::TimestampOutOfRange)
    );
}
