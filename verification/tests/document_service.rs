use jomai::document_db_command_processor::Command;
use jomai::document_events::DocumentEvent;
use jomai::document_service::add_document_after_compensation;
use jomai::document_service::add_document_after_emit;
use jomai::document_service::add_document_after_index;
use jomai::document_service::add_document_after_indexed_at;
use jomai::document_service::add_document_start;
use jomai::document_service::delete_by_watch_from_index;
use jomai::document_service::delete_document_start;
use jomai::document_service::delete_documents_by_watch_id_start;
use jomai::document_service::delete_from_index;
use jomai::document_service::set_indexed_at;
use jomai::document_service::update_document_start;
use jomai::document_service::add_document_after_insert;
use jomai::document_service::after_watch_lookup;
use jomai::document_service::delete_by_watch_after_rows;
use jomai::document_service::delete_document_after_emit;
use jomai::document_service::delete_document_after_index;
use jomai::document_service::delete_document_after_row;
use jomai::document_service::update_document_after_emit;
use jomai::document_service::update_document_after_index;
use jomai::document_service::update_document_after_index_delete;
use jomai::document_service::update_document_after_row;
use jomai::document_service::AddDocumentError;
use jomai::document_service::AddDocumentStep;
use jomai::document_service::DeleteByWatchStep;
use jomai::document_service::DeleteDocumentError;
use jomai::document_service::DeleteDocumentStep;
use jomai::document_service::RepositoryError;
use jomai::document_service::UpdateDocumentError;
use jomai::document_service::UpdateDocumentStep;
use jomai::document_service::WatchLookupStep;
use jomai::documents::Document;
use jomai::documents::DocumentId;
use jomai::index_writer::IndexWriterCommand;
use jomai::time::Timestamp;
use jomai::watches::WatchId;

fn document() -> Document {
    Document::from_row(1, "/w/a.md".to_string(), 2, Timestamp { secs: 3, nanos: 4 }, None)
}

fn indexed() -> Document {
    Document::from_row(
        1,
        "/w/a.md".to_string(),
        2,
        Timestamp { secs: 3, nanos: 4 },
        Some(Timestamp { secs: 9, nanos: 0 }),
    )
}

fn failed(text: &str) -> Result<(), String> {
    Err(text.to_string())
}

#[test]
fn add_goes_through_both_stores() {
    let step = add_document_after_insert(Ok(document()));
    assert_eq!(step, AddDocumentStep::IndexDocument { document: document() });
    let step = add_document_after_index(document(), Ok(()));
    assert_eq!(step, AddDocumentStep::SetIndexedAt { document: document() });
    let step = add_document_after_indexed_at(Ok(Some(indexed())));
    assert_eq!(step, AddDocumentStep::Emit { event: DocumentEvent::DocumentAdded(indexed()) });
    assert_eq!(add_document_after_emit(Ok(())), AddDocumentStep::Done(Ok(())));
    assert_eq!(
        add_document_after_emit(failed("closed")),
        AddDocumentStep::Done(Err(AddDocumentError::Other("closed".to_string())))
    );
}

#[test]
fn add_of_a_known_path_already_exists() {
    assert_eq!(
        add_document_after_insert(Err(RepositoryError::UniqueConstraintViolation)),
        AddDocumentStep::Done(Err(AddDocumentError::AlreadyExists))
    );
    assert_eq!(
        add_document_after_insert(Err(RepositoryError::Database("locked".to_string()))),
        AddDocumentStep::Done(Err(AddDocumentError::Other("locked".to_string())))
    );
    assert_eq!(
        add_document_after_insert(Err(RepositoryError::Sqlx("pool".to_string()))),
        AddDocumentStep::Done(Err(AddDocumentError::Other("pool".to_string())))
    );
    assert_eq!(
        add_document_after_insert(Err(RepositoryError::Other("gone".to_string()))),
        AddDocumentStep::Done(Err(AddDocumentError::Other("gone".to_string())))
    );
}

#[test]
fn failed_index_write_takes_the_row_out_again() {
    let step = add_document_after_index(document(), failed("disk full"));
    assert_eq!(step, AddDocumentStep::DeleteRow { index_error: "disk full".to_string() });
    assert_eq!(
        add_document_after_compensation("disk full".to_string(), Ok(())),
        AddDocumentStep::Done(Err(AddDocumentError::Other("disk full".to_string())))
    );
    assert_eq!(
        add_document_after_compensation("disk full".to_string(), failed("locked")),
        AddDocumentStep::Done(Err(AddDocumentError::Other("locked".to_string())))
    );
}

#[test]
fn update_writes_the_index_before_the_row() {
    assert_eq!(update_document_after_index_delete(Ok(())), UpdateDocumentStep::IndexDocument);
    assert_eq!(update_document_after_index(Ok(())), UpdateDocumentStep::UpdateRow);
    assert_eq!(
        update_document_after_row(Ok(Some(document()))),
        UpdateDocumentStep::Emit { event: DocumentEvent::DocumentUpdated(document()) }
    );
    assert_eq!(update_document_after_emit(Ok(())), UpdateDocumentStep::Done(Ok(())));
}

#[test]
fn update_stops_at_the_first_failure() {
    assert_eq!(
        update_document_after_index_delete(failed("a")),
        UpdateDocumentStep::Done(Err(UpdateDocumentError::Other("a".to_string())))
    );
    assert_eq!(
        update_document_after_index(failed("b")),
        UpdateDocumentStep::Done(Err(UpdateDocumentError::Other("b".to_string())))
    );
    assert_eq!(
        update_document_after_row(Ok(None)),
        UpdateDocumentStep::Done(Err(UpdateDocumentError::NotExists))
    );
    assert_eq!(
        update_document_after_row(Err("c".to_string())),
        UpdateDocumentStep::Done(Err(UpdateDocumentError::Other("c".to_string())))
    );
    assert_eq!(
        update_document_after_emit(failed("d")),
        UpdateDocumentStep::Done(Err(UpdateDocumentError::Other("d".to_string())))
    );
}

#[test]
fn delete_takes_the_row_first() {
    assert_eq!(
        delete_document_after_row(Ok(Some(document()))),
        DeleteDocumentStep::DeleteFromIndex { document: document() }
    );
    assert_eq!(
        delete_document_after_index(document(), Ok(())),
        DeleteDocumentStep::Emit { event: DocumentEvent::DocumentDeleted(document()) }
    );
    assert_eq!(delete_document_after_emit(Ok(())), DeleteDocumentStep::Done(Ok(())));
}

#[test]
fn delete_of_an_unknown_path_does_not_exist() {
    assert_eq!(
        delete_document_after_row(Ok(None)),
        DeleteDocumentStep::Done(Err(DeleteDocumentError::NotExists))
    );
    assert_eq!(
        delete_document_after_row(Err("a".to_string())),
        DeleteDocumentStep::Done(Err(DeleteDocumentError::Other("a".to_string())))
    );
    assert_eq!(
        delete_document_after_index(document(), failed("b")),
        DeleteDocumentStep::Done(Err(DeleteDocumentError::Other("b".to_string())))
    );
    assert_eq!(
        delete_document_after_emit(failed("c")),
        DeleteDocumentStep::Done(Err(DeleteDocumentError::Other("c".to_string())))
    );
}

#[test]
fn documents_of_a_watch_go_from_the_table_first() {
    assert_eq!(delete_by_watch_after_rows(Ok(())), DeleteByWatchStep::DeleteFromIndex);
    assert_eq!(delete_by_watch_after_rows(failed("a")), DeleteByWatchStep::Done(failed("a")));
}

#[test]
fn a_path_outside_every_watch_has_no_watch() {
    assert_eq!(after_watch_lookup(None), WatchLookupStep::NoWatchFound);
    assert_eq!(
        after_watch_lookup(Some(WatchId(3))),
        WatchLookupStep::Proceed { watch_id: WatchId(3) }
    );
}

#[test]
fn document_from_row() {
    let d = document();
    assert_eq!(d.id, DocumentId(1));
    assert_eq!(d.path, "/w/a.md");
    assert_eq!(d.watch_id, WatchId(2));
    assert_eq!(d.created_at, Timestamp { secs: 3, nanos: 4 });
    assert_eq!(d.indexed_at, None);
    assert_eq!(d.clone(), d);
}

#[test]
fn an_added_document_gets_its_time_of_indexing() {
    assert_eq!(
        add_document_start("/w/a.md", WatchId(2)),
        Command::Insert { watch_id: WatchId(2), path: "/w/a.md".to_string(), indexed_at: None }
    );
    assert_eq!(
        set_indexed_at("/w/a.md", Timestamp { secs: 9, nanos: 0 }),
        Command::UpdateByPath {
            path: "/w/a.md".to_string(),
            indexed_at: Timestamp { secs: 9, nanos: 0 }
        }
    );
    match add_document_after_indexed_at(Ok(Some(indexed()))) {
        AddDocumentStep::Emit { event: DocumentEvent::DocumentAdded(d) } => {
            assert_eq!(d.indexed_at, Some(Timestamp { secs: 9, nanos: 0 }));
        }
        other => panic!("{:?}", other),
    }
}

#[test]
fn an_add_whose_time_cannot_be_set_fails() {
    assert_eq!(
        add_document_after_indexed_at(Ok(None)),
        AddDocumentStep::Done(Err(AddDocumentError::Other(
            "the document does not exist".to_string()
        )))
    );
    assert_eq!(
        add_document_after_indexed_at(Err("locked".to_string())),
        AddDocumentStep::Done(Err(AddDocumentError::Other("locked".to_string())))
    );
}

#[test]
fn each_change_starts_with_its_own_command() {
    assert_eq!(
        update_document_start("/w/a.md"),
        IndexWriterCommand::DeleteByPath { path: "/w/a.md".to_string() }
    );
    assert_eq!(
        delete_document_start("/w/a.md"),
        Command::DeleteByPath { path: "/w/a.md".to_string() }
    );
    assert_eq!(
        delete_from_index("/w/a.md"),
        IndexWriterCommand::DeleteByPath { path: "/w/a.md".to_string() }
    );
    assert_eq!(
        delete_documents_by_watch_id_start(WatchId(7)),
        Command::DeleteByWatchId { watch_id: WatchId(7) }
    );
    assert_eq!(
        delete_by_watch_from_index(WatchId(7)),
        IndexWriterCommand::DeleteByWatchId { watch_id: WatchId(7) }
    );
}
