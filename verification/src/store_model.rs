//! The two stores as the library reasons about them.
//!
//! The table of documents holds at most one row for each key: that is
//! the table's own rule, and an insert that would break it is refused.
//! The search index has no such rule: it holds whatever was written to
//! it, and a deletion takes away every entry of a key or of a watch. That
//! the index nevertheless holds no key twice follows from the order in
//! which the document service touches the two stores. This module states
//! the stores as mathematical values, each operation of the service as a
//! function on them, and the properties that the operations keep.
//!
//! An operation is described for every way in which its steps can end.
//! A step that fails leaves its store as it was.

use crate::document_db_command_processor::first_of_command;
use crate::document_db_command_processor::Command;
use crate::document_db_command_processor::StatementView;
use crate::document_service::add_after_index;
use crate::document_service::add_after_insert;
use crate::document_service::delete_after_row;
use crate::document_service::update_after_index;
use crate::document_service::update_after_index_delete;
use crate::document_service::AddDocumentStep;
use crate::document_service::DeleteDocumentStep;
use crate::document_service::RepositoryError;
use crate::document_service::StepResult;
use crate::document_service::UpdateDocumentStep;
use crate::documents::Document;
use crate::path_string_normalization::nfc_of;
use crate::paths::components;
use crate::text::is_prefix_of;
use crate::time::Timestamp;
use crate::watches::WatchId;
use vstd::prelude::*;

verus! {

/// A row of the table of documents, but for its key.
pub struct RowModel {
    pub watch: i64,
    pub indexed_at: Option<Timestamp>,
}

/// An entry of the search index: a key and the watch it was written for.
pub type EntryModel = (Seq<char>, i64);

/// The two stores.
pub struct Stores {
    /// The table of documents, by key.
    pub rows: Map<Seq<char>, RowModel>,
    /// The entries of the search index, in the order in which they were
    /// written.
    pub index: Seq<EntryModel>,
}

/// The number of entries of `index` with the key `key`.
pub open spec fn count_key(index: Seq<EntryModel>, key: Seq<char>) -> nat
    decreases index.len(),
{
    if index.len() == 0 {
        0
    } else {
        count_key(index.drop_last(), key) + if index.last().0 == key {
            1nat
        } else {
            0nat
        }
    }
}

/// `index` without the entries of the key `key`.
pub open spec fn drop_key(index: Seq<EntryModel>, key: Seq<char>) -> Seq<EntryModel>
    decreases index.len(),
{
    if index.len() == 0 {
        index
    } else if index.last().0 == key {
        drop_key(index.drop_last(), key)
    } else {
        drop_key(index.drop_last(), key).push(index.last())
    }
}

/// `index` without the entries of the watch `watch`.
pub open spec fn drop_watch(index: Seq<EntryModel>, watch: i64) -> Seq<EntryModel>
    decreases index.len(),
{
    if index.len() == 0 {
        index
    } else if index.last().1 == watch {
        drop_watch(index.drop_last(), watch)
    } else {
        drop_watch(index.drop_last(), watch).push(index.last())
    }
}

/// The rows of `rows` that do not belong to the watch `watch`.
pub open spec fn rows_without_watch(rows: Map<Seq<char>, RowModel>, watch: i64) -> Map<
    Seq<char>,
    RowModel,
> {
    Map::new(|k: Seq<char>| rows.contains_key(k) && rows[k].watch != watch, |k: Seq<char>| rows[k])
}

/// Every entry of the index has a row, and the row belongs to the watch
/// that the entry was written for.
pub open spec fn owned(s: Stores) -> bool {
    forall|i: int|
        0 <= i < s.index.len() ==> s.rows.contains_key((#[trigger] s.index[i]).0)
            && s.rows[s.index[i].0].watch == s.index[i].1
}

/// The index holds no key twice.
pub open spec fn no_duplicates(s: Stores) -> bool {
    forall|key: Seq<char>| #[trigger] count_key(s.index, key) <= 1
}

/// The stores agree: the index holds no key twice, and nothing without a
/// row.
pub open spec fn sound(s: Stores) -> bool {
    no_duplicates(s) && owned(s)
}

/// Writing an entry adds one to the count of its key and to no other.
pub proof fn lemma_count_push(index: Seq<EntryModel>, entry: EntryModel, key: Seq<char>)
    ensures
        count_key(index.push(entry), key) == count_key(index, key) + if entry.0 == key {
            1nat
        } else {
            0nat
        },
{
    assert(index.push(entry).drop_last() =~= index);
}

/// A key is counted exactly when an entry has it.
pub proof fn lemma_count_member(index: Seq<EntryModel>, key: Seq<char>)
    ensures
        count_key(index, key) > 0 <==> exists|i: int|
            0 <= i < index.len() && (#[trigger] index[i]).0 == key,
    decreases index.len(),
{
    if index.len() > 0 {
        let init = index.drop_last();
        lemma_count_member(init, key);
        if count_key(index, key) > 0 {
            if index.last().0 == key {
            } else {
                let i = choose|i: int| 0 <= i < init.len() && (#[trigger] init[i]).0 == key;
            }
        }
        if exists|i: int| 0 <= i < index.len() && (#[trigger] index[i]).0 == key {
            let i = choose|i: int| 0 <= i < index.len() && (#[trigger] index[i]).0 == key;
            if i < init.len() {
                assert(init[i].0 == key);
            }
        }
    }
}

/// Deleting a key leaves none of its entries and every other entry:
/// what stays stood in the index before, and the counts of the other
/// keys are what they were.
pub proof fn lemma_drop_key(index: Seq<EntryModel>, dropped: Seq<char>)
    ensures
        count_key(drop_key(index, dropped), dropped) == 0,
        forall|key: Seq<char>|
            key != dropped ==> #[trigger] count_key(drop_key(index, dropped), key) == count_key(
                index,
                key,
            ),
        forall|i: int|
            0 <= i < drop_key(index, dropped).len() ==> (#[trigger] drop_key(index, dropped)[i]).0
                != dropped && index.contains(drop_key(index, dropped)[i]),
    decreases index.len(),
{
    if index.len() > 0 {
        let init = index.drop_last();
        let r = drop_key(index, dropped);
        let t = drop_key(init, dropped);
        lemma_drop_key(init, dropped);
        assert forall|key: Seq<char>| key != dropped implies #[trigger] count_key(r, key)
            == count_key(index, key) by {
            if index.last().0 != dropped {
                lemma_count_push(t, index.last(), key);
            }
        }
        if index.last().0 != dropped {
            lemma_count_push(t, index.last(), dropped);
        }
        assert forall|i: int| 0 <= i < r.len() implies (#[trigger] r[i]).0 != dropped
            && index.contains(r[i]) by {
            if i < t.len() {
                let m = choose|m: int| 0 <= m < init.len() && init[m] == t[i];
            }
        }
    }
}

/// Deleting a watch leaves none of its entries and every other entry:
/// what stays stood in the index before, and no count has grown.
pub proof fn lemma_drop_watch(index: Seq<EntryModel>, watch: i64)
    ensures
        forall|key: Seq<char>| #[trigger]
            count_key(drop_watch(index, watch), key) <= count_key(index, key),
        forall|i: int|
            0 <= i < drop_watch(index, watch).len() ==> (#[trigger] drop_watch(index, watch)[i]).1
                != watch && index.contains(drop_watch(index, watch)[i]),
    decreases index.len(),
{
    if index.len() > 0 {
        let init = index.drop_last();
        let r = drop_watch(index, watch);
        let t = drop_watch(init, watch);
        lemma_drop_watch(init, watch);
        assert forall|key: Seq<char>| #[trigger] count_key(r, key) <= count_key(index, key) by {
            if index.last().1 != watch {
                lemma_count_push(t, index.last(), key);
            }
        }
        assert forall|i: int| 0 <= i < r.len() implies (#[trigger] r[i]).1 != watch
            && index.contains(r[i]) by {
            if i < t.len() {
                let m = choose|m: int| 0 <= m < init.len() && init[m] == t[i];
            }
        }
    }
}

/// The row that an add inserts: it belongs to the watch and has no time
/// of indexing yet.
pub open spec fn fresh_row(watch: i64) -> RowModel {
    RowModel { watch, indexed_at: None }
}

/// The stores after an add of `document` under the key `key` at the time
/// `now`.
///
/// The table refuses the insert where it holds the key. Else the row goes
/// in and the index is written to, which ends with `index_result`. After
/// a write that succeeded the row's time of indexing is set to `now`,
/// where the table obeys. After a failed write the row is deleted again,
/// which ends with `cleanup_result`.
pub open spec fn after_add(
    s: Stores,
    key: Seq<char>,
    document: Document,
    now: Timestamp,
    index_result: StepResult,
    mark_ok: bool,
    cleanup_result: StepResult,
) -> Stores {
    let insert_result = if s.rows.contains_key(key) {
        Err(RepositoryError::UniqueConstraintViolation)
    } else {
        Ok(document)
    };
    match add_after_insert(insert_result) {
        AddDocumentStep::IndexDocument { document } => {
            let rows = s.rows.insert(key, fresh_row(document.watch_id.0));
            let index = if index_result is Ok {
                s.index.push((key, document.watch_id.0))
            } else {
                s.index
            };
            match add_after_index(document, index_result) {
                AddDocumentStep::SetIndexedAt { document } => if mark_ok {
                    Stores {
                        rows: rows.insert(
                            key,
                            RowModel { watch: document.watch_id.0, indexed_at: Some(now) },
                        ),
                        index,
                    }
                } else {
                    Stores { rows, index }
                },
                AddDocumentStep::DeleteRow { index_error } => if cleanup_result is Ok {
                    Stores { rows: rows.remove(key), index }
                } else {
                    Stores { rows, index }
                },
                _ => Stores { rows, index },
            }
        },
        _ => s,
    }
}

/// The stores after a refresh of the key `key` for the watch `watch` at
/// the time `now`.
///
/// The key's entries are deleted from the index, which ends with
/// `delete_result`; then the index is written to, which ends with
/// `index_result`; then the row's time of indexing is set, where the
/// table obeys and holds the key. The refresh stops at the first step
/// that fails.
pub open spec fn after_update(
    s: Stores,
    key: Seq<char>,
    watch: i64,
    now: Timestamp,
    delete_result: StepResult,
    index_result: StepResult,
    row_ok: bool,
) -> Stores {
    let index = if delete_result is Ok {
        drop_key(s.index, key)
    } else {
        s.index
    };
    match update_after_index_delete(delete_result) {
        UpdateDocumentStep::IndexDocument => {
            let index = if index_result is Ok {
                index.push((key, watch))
            } else {
                index
            };
            match update_after_index(index_result) {
                UpdateDocumentStep::UpdateRow => if row_ok && s.rows.contains_key(key) {
                    Stores {
                        rows: s.rows.insert(
                            key,
                            RowModel { watch: s.rows[key].watch, indexed_at: Some(now) },
                        ),
                        index,
                    }
                } else {
                    Stores { rows: s.rows, index }
                },
                _ => Stores { rows: s.rows, index },
            }
        },
        _ => Stores { rows: s.rows, index },
    }
}

/// The stores after a deletion of the key `key`.
///
/// The row is deleted, where the table obeys. Where there was a row,
/// which `document` stands for, the key's entries are deleted from the
/// index, which ends with `index_result`.
pub open spec fn after_delete(
    s: Stores,
    key: Seq<char>,
    document: Document,
    row_ok: bool,
    index_result: StepResult,
) -> Stores {
    let row_result = if !row_ok {
        Err(arbitrary())
    } else if s.rows.contains_key(key) {
        Ok(Some(document))
    } else {
        Ok(None)
    };
    match delete_after_row(row_result) {
        DeleteDocumentStep::DeleteFromIndex { document } => Stores {
            rows: s.rows.remove(key),
            index: if index_result is Ok {
                drop_key(s.index, key)
            } else {
                s.index
            },
        },
        _ => s,
    }
}

/// The stores after the deletion of every document of the watch `watch`:
/// the rows go where the table obeys, and then the entries where the
/// index obeys.
pub open spec fn after_delete_by_watch(s: Stores, watch: i64, rows_ok: bool, index_ok: bool) -> Stores {
    if !rows_ok {
        s
    } else {
        Stores {
            rows: rows_without_watch(s.rows, watch),
            index: if index_ok {
                drop_watch(s.index, watch)
            } else {
                s.index
            },
        }
    }
}

/// However an add ends, stores that agree still agree after it.
pub proof fn lemma_add_sound(
    s: Stores,
    key: Seq<char>,
    document: Document,
    now: Timestamp,
    index_result: StepResult,
    mark_ok: bool,
    cleanup_result: StepResult,
)
    requires
        sound(s),
    ensures
        sound(after_add(s, key, document, now, index_result, mark_ok, cleanup_result)),
{
    let r = after_add(s, key, document, now, index_result, mark_ok, cleanup_result);
    if !s.rows.contains_key(key) {
        lemma_count_member(s.index, key);
        assert(count_key(s.index, key) == 0) by {
            if count_key(s.index, key) > 0 {
                let i = choose|i: int| 0 <= i < s.index.len() && (#[trigger] s.index[i]).0 == key;
                assert(s.rows.contains_key(s.index[i].0));
            }
        }
        assert forall|k: Seq<char>| #[trigger] count_key(r.index, k) <= 1 by {
            assert(count_key(s.index, k) <= 1);
            lemma_count_push(s.index, (key, document.watch_id.0), k);
        }
        assert forall|i: int| 0 <= i < r.index.len() implies r.rows.contains_key(
            (#[trigger] r.index[i]).0,
        ) && r.rows[r.index[i].0].watch == r.index[i].1 by {
            if i < s.index.len() {
                assert(r.index[i] == s.index[i]);
                assert(s.rows.contains_key(s.index[i].0));
            }
        }
    }
}

/// An add of a path that has no row, all of whose steps succeed, leaves
/// the path with one row, which belongs to the watch and carries the
/// time of the add as its time of indexing, and with one entry in the
/// index.
pub proof fn lemma_add_succeeds(s: Stores, key: Seq<char>, document: Document, now: Timestamp)
    requires
        sound(s),
        !s.rows.contains_key(key),
    ensures
        after_add(s, key, document, now, Ok(()), true, Ok(())).rows.contains_key(key),
        after_add(s, key, document, now, Ok(()), true, Ok(())).rows[key] == (RowModel {
            watch: document.watch_id.0,
            indexed_at: Some(now),
        }),
        count_key(after_add(s, key, document, now, Ok(()), true, Ok(())).index, key) == 1,
{
    lemma_count_member(s.index, key);
    if count_key(s.index, key) > 0 {
        let i = choose|i: int| 0 <= i < s.index.len() && (#[trigger] s.index[i]).0 == key;
        assert(s.rows.contains_key(s.index[i].0));
    }
    lemma_count_push(s.index, (key, document.watch_id.0), key);
}

/// Where the index refuses the file of an add and the table then obeys,
/// the row that the add inserted is gone again, and the index is as it
/// was.
pub proof fn lemma_add_compensates(
    s: Stores,
    key: Seq<char>,
    document: Document,
    now: Timestamp,
    index_result: StepResult,
    mark_ok: bool,
    cleanup_result: StepResult,
)
    requires
        !s.rows.contains_key(key),
        index_result is Err,
        cleanup_result is Ok,
    ensures
        !after_add(s, key, document, now, index_result, mark_ok, cleanup_result).rows.contains_key(
            key,
        ),
        after_add(s, key, document, now, index_result, mark_ok, cleanup_result).rows == s.rows,
        after_add(s, key, document, now, index_result, mark_ok, cleanup_result).index == s.index,
{
    assert(s.rows.insert(key, fresh_row(document.watch_id.0)).remove(key) =~= s.rows);
}

/// However the refresh of a stored document ends, stores that agree
/// still agree after it. The refresh is made for the watch of the
/// document's row.
pub proof fn lemma_update_sound(
    s: Stores,
    key: Seq<char>,
    watch: i64,
    now: Timestamp,
    delete_result: StepResult,
    index_result: StepResult,
    row_ok: bool,
)
    requires
        sound(s),
        s.rows.contains_key(key),
        s.rows[key].watch == watch,
    ensures
        sound(after_update(s, key, watch, now, delete_result, index_result, row_ok)),
{
    let r = after_update(s, key, watch, now, delete_result, index_result, row_ok);
    lemma_drop_key(s.index, key);
    let dropped = drop_key(s.index, key);
    assert forall|k: Seq<char>| #[trigger] count_key(r.index, k) <= 1 by {
        if delete_result is Ok {
            lemma_count_push(dropped, (key, watch), k);
        }
    }
    assert forall|i: int| 0 <= i < r.index.len() implies r.rows.contains_key(
        (#[trigger] r.index[i]).0,
    ) && r.rows[r.index[i].0].watch == r.index[i].1 by {
        if delete_result is Ok {
            if i < dropped.len() {
                let m = choose|m: int| 0 <= m < s.index.len() && s.index[m] == dropped[i];
            }
        }
    }
}

/// Stores that agree still agree after a deletion, provided that the
/// index obeys where the row went.
pub proof fn lemma_delete_sound(
    s: Stores,
    key: Seq<char>,
    document: Document,
    row_ok: bool,
    index_result: StepResult,
)
    requires
        sound(s),
        index_result is Ok || !row_ok || !s.rows.contains_key(key),
    ensures
        sound(after_delete(s, key, document, row_ok, index_result)),
        !row_ok ==> after_delete(s, key, document, row_ok, index_result) == s,
        row_ok ==> !after_delete(s, key, document, row_ok, index_result).rows.contains_key(key),
{
    let r = after_delete(s, key, document, row_ok, index_result);
    if row_ok && s.rows.contains_key(key) {
        lemma_drop_key(s.index, key);
        let dropped = drop_key(s.index, key);
        assert forall|k: Seq<char>| #[trigger] count_key(r.index, k) <= 1 by {
        }
        assert forall|i: int| 0 <= i < r.index.len() implies r.rows.contains_key(
            (#[trigger] r.index[i]).0,
        ) && r.rows[r.index[i].0].watch == r.index[i].1 by {
            let m = choose|m: int| 0 <= m < s.index.len() && s.index[m] == dropped[i];
        }
    }
}

/// Stores that agree still agree after the deletion of every document of
/// a watch, provided that the index obeys where the rows went.
pub proof fn lemma_delete_by_watch_sound(s: Stores, watch: i64, rows_ok: bool, index_ok: bool)
    requires
        sound(s),
        rows_ok ==> index_ok,
    ensures
        sound(after_delete_by_watch(s, watch, rows_ok, index_ok)),
        rows_ok ==> forall|key: Seq<char>|
            after_delete_by_watch(s, watch, rows_ok, index_ok).rows.contains_key(key) ==> #[trigger] after_delete_by_watch(
                s,
                watch,
                rows_ok,
                index_ok,
            ).rows[key].watch != watch,
{
    let r = after_delete_by_watch(s, watch, rows_ok, index_ok);
    if rows_ok {
        lemma_drop_watch(s.index, watch);
        let dropped = drop_watch(s.index, watch);
        assert forall|k: Seq<char>| #[trigger] count_key(r.index, k) <= 1 by {
        }
        assert forall|i: int| 0 <= i < r.index.len() implies r.rows.contains_key(
            (#[trigger] r.index[i]).0,
        ) && r.rows[r.index[i].0].watch == r.index[i].1 by {
            let m = choose|m: int| 0 <= m < s.index.len() && s.index[m] == dropped[i];
        }
    }
}

/// One operation of the document service, with the way each of its steps
/// ended.
#[allow(inconsistent_fields)]
pub enum StoreOperation {
    Add {
        key: Seq<char>,
        document: Document,
        now: Timestamp,
        index_result: StepResult,
        mark_ok: bool,
        cleanup_result: StepResult,
    },
    Update {
        key: Seq<char>,
        watch: i64,
        now: Timestamp,
        delete_result: StepResult,
        index_result: StepResult,
        row_ok: bool,
    },
    Delete { key: Seq<char>, document: Document, row_ok: bool, index_result: StepResult },
    DeleteByWatch { watch: i64, rows_ok: bool, index_ok: bool },
}

/// The stores after `operation`.
pub open spec fn applied(s: Stores, operation: StoreOperation) -> Stores {
    match operation {
        StoreOperation::Add {
            key,
            document,
            now,
            index_result,
            mark_ok,
            cleanup_result,
        } => after_add(s, key, document, now, index_result, mark_ok, cleanup_result),
        StoreOperation::Update {
            key,
            watch,
            now,
            delete_result,
            index_result,
            row_ok,
        } => after_update(s, key, watch, now, delete_result, index_result, row_ok),
        StoreOperation::Delete { key, document, row_ok, index_result } => after_delete(
            s,
            key,
            document,
            row_ok,
            index_result,
        ),
        StoreOperation::DeleteByWatch { watch, rows_ok, index_ok } => after_delete_by_watch(
            s,
            watch,
            rows_ok,
            index_ok,
        ),
    }
}

/// The operation is one that keeps stores in agreement: a refresh is made
/// of a stored document and for the watch of its row, and a deletion
/// whose row went does not fail at the index.
pub open spec fn orderly(s: Stores, operation: StoreOperation) -> bool {
    match operation {
        StoreOperation::Add { .. } => true,
        StoreOperation::Update { key, watch, now, delete_result, index_result, row_ok } => {
            s.rows.contains_key(key) && s.rows[key].watch == watch
        },
        StoreOperation::Delete { key, document, row_ok, index_result } => index_result is Ok
            || !row_ok || !s.rows.contains_key(key),
        StoreOperation::DeleteByWatch { watch, rows_ok, index_ok } => rows_ok ==> index_ok,
    }
}

/// The stores after the operations of `operations`, one after another.
pub open spec fn after_all(s: Stores, operations: Seq<StoreOperation>) -> Stores
    decreases operations.len(),
{
    if operations.len() == 0 {
        s
    } else {
        applied(after_all(s, operations.drop_last()), operations.last())
    }
}

/// Every operation of `operations` is orderly when its turn comes.
pub open spec fn all_orderly(s: Stores, operations: Seq<StoreOperation>) -> bool
    decreases operations.len(),
{
    operations.len() > 0 ==> all_orderly(s, operations.drop_last()) && orderly(
        after_all(s, operations.drop_last()),
        operations.last(),
    )
}

/// After any sequence of orderly operations on stores that agree, the
/// index holds at most one entry for every key, and none without a row.
/// The table holds at most one row for every key by its own rule.
pub proof fn lemma_no_duplicate_entries(s: Stores, operations: Seq<StoreOperation>)
    requires
        sound(s),
        all_orderly(s, operations),
    ensures
        sound(after_all(s, operations)),
        forall|key: Seq<char>| #[trigger] count_key(after_all(s, operations).index, key) <= 1,
        forall|key: Seq<char>|
            #[trigger] count_key(after_all(s, operations).index, key) > 0 ==> after_all(
                s,
                operations,
            ).rows.contains_key(key),
    decreases operations.len(),
{
    let r = after_all(s, operations);
    if operations.len() > 0 {
        let before = after_all(s, operations.drop_last());
        lemma_no_duplicate_entries(s, operations.drop_last());
        match operations.last() {
            StoreOperation::Add {
                key,
                document,
                now,
                index_result,
                mark_ok,
                cleanup_result,
            } => {
                lemma_add_sound(before, key, document, now, index_result, mark_ok, cleanup_result);
            },
            StoreOperation::Update { key, watch, now, delete_result, index_result, row_ok } => {
                lemma_update_sound(before, key, watch, now, delete_result, index_result, row_ok);
            },
            StoreOperation::Delete { key, document, row_ok, index_result } => {
                lemma_delete_sound(before, key, document, row_ok, index_result);
            },
            StoreOperation::DeleteByWatch { watch, rows_ok, index_ok } => {
                lemma_delete_by_watch_sound(before, watch, rows_ok, index_ok);
            },
        }
    }
    assert forall|key: Seq<char>| #[trigger] count_key(r.index, key) > 0 implies r.rows.contains_key(
        key,
    ) by {
        lemma_count_member(r.index, key);
        let i = choose|i: int| 0 <= i < r.index.len() && (#[trigger] r.index[i]).0 == key;
    }
}

/// Every row lies in its watch: the watch of the row is known, and the
/// components of its path begin those of the row's key.
pub open spec fn contained(s: Stores, watches: Map<i64, Seq<char>>) -> bool {
    forall|key: Seq<char>| #[trigger]
        s.rows.contains_key(key) ==> watches.contains_key(s.rows[key].watch) && is_prefix_of(
            components(watches[s.rows[key].watch]),
            components(key),
        )
}

/// The operation puts no row outside its watch: what it adds lies in the
/// watch it is added for.
pub open spec fn within_watch(operation: StoreOperation, watches: Map<i64, Seq<char>>) -> bool {
    match operation {
        StoreOperation::Add { key, document, .. } => {
            watches.contains_key(document.watch_id.0) && is_prefix_of(
                components(watches[document.watch_id.0]),
                components(key),
            )
        },
        _ => true,
    }
}

/// Where every row lies in its watch, every row still does after an
/// operation that adds nothing outside its watch.
pub proof fn lemma_rows_stay_in_watch(
    s: Stores,
    operation: StoreOperation,
    watches: Map<i64, Seq<char>>,
)
    requires
        contained(s, watches),
        within_watch(operation, watches),
    ensures
        contained(applied(s, operation), watches),
{
    let r = applied(s, operation);
    assert forall|key: Seq<char>| #[trigger] r.rows.contains_key(key) implies watches.contains_key(
        r.rows[key].watch,
    ) && is_prefix_of(components(watches[r.rows[key].watch]), components(key)) by {
        if s.rows.contains_key(key) {
            assert(r.rows[key].watch == s.rows[key].watch);
        }
    }
}

/// Once the documents of a watch are gone from the table, the watch can
/// go too: every row that is left lies in a watch that is left.
pub proof fn lemma_watch_can_go(s: Stores, watch: i64, index_ok: bool, watches: Map<i64, Seq<char>>)
    requires
        contained(s, watches),
    ensures
        contained(after_delete_by_watch(s, watch, true, index_ok), watches.remove(watch)),
{
    let r = after_delete_by_watch(s, watch, true, index_ok);
    assert forall|key: Seq<char>| #[trigger] r.rows.contains_key(key) implies watches.remove(
        watch,
    ).contains_key(r.rows[key].watch) && is_prefix_of(
        components(watches.remove(watch)[r.rows[key].watch]),
        components(key),
    ) by {
        assert(s.rows.contains_key(key));
    }
}

/// Whether the table refuses `statement`: it holds one row for each key,
/// and so refuses the insert of a key that it holds. It takes every
/// other statement.
pub open spec fn refuses(rows: Map<Seq<char>, RowModel>, statement: StatementView) -> bool {
    statement matches StatementView::InsertRow { key, .. } && rows.contains_key(key)
}

/// The table after `statement`. A refused insert changes nothing; an
/// update of a key that the table does not hold changes nothing either.
pub open spec fn table_after(rows: Map<Seq<char>, RowModel>, statement: StatementView) -> Map<
    Seq<char>,
    RowModel,
> {
    match statement {
        StatementView::InsertRow { key, watch_id, indexed_at } => if rows.contains_key(key) {
            rows
        } else {
            rows.insert(key, RowModel { watch: watch_id.0, indexed_at })
        },
        StatementView::UpdateIndexedAt { key, indexed_at } => if rows.contains_key(key) {
            rows.insert(key, RowModel { watch: rows[key].watch, indexed_at: Some(indexed_at) })
        } else {
            rows
        },
        StatementView::DeleteRow { key } => rows.remove(key),
        StatementView::DeleteRowsOfWatch { watch_id } => rows_without_watch(rows, watch_id.0),
        StatementView::SelectRow { key } => rows,
    }
}

/// The command to insert a row for `path` is refused if and only if the
/// table holds a row under the key of the path, and then the table stays
/// as it is. Else the table afterwards holds one row more: the row under
/// the key of the path, with the watch and the time of indexing of the
/// command.
pub proof fn lemma_insert_takes_each_key_once(
    rows: Map<Seq<char>, RowModel>,
    path: String,
    watch_id: WatchId,
    indexed_at: Option<Timestamp>,
)
    ensures
        ({
            let key = nfc_of(path@);
            let statement = first_of_command(Command::Insert { watch_id, path, indexed_at });
            let after = table_after(rows, statement);
            &&& statement == (StatementView::InsertRow { key, watch_id, indexed_at })
            &&& refuses(rows, statement) <==> rows.contains_key(key)
            &&& refuses(rows, statement) ==> after == rows
            &&& !refuses(rows, statement) ==> after == rows.insert(
                key,
                RowModel { watch: watch_id.0, indexed_at },
            )
            &&& after.contains_key(key)
            &&& forall|other: Seq<char>|
                other != key ==> (after.contains_key(other) <==> rows.contains_key(other)) && (
                rows.contains_key(other) ==> after[other] == rows[other])
        }),
{
}

/// The command that sets the time of indexing of `path` touches the row
/// under the key of the path and no other: afterwards that row, where
/// the table holds it, has the time of the command and its old watch.
pub proof fn lemma_update_touches_one_row(
    rows: Map<Seq<char>, RowModel>,
    path: String,
    indexed_at: Timestamp,
)
    ensures
        ({
            let key = nfc_of(path@);
            let statement = first_of_command(Command::UpdateByPath { path, indexed_at });
            let after = table_after(rows, statement);
            &&& statement == (StatementView::UpdateIndexedAt { key, indexed_at })
            &&& !refuses(rows, statement)
            &&& after.dom() == rows.dom()
            &&& rows.contains_key(key) ==> after[key] == (RowModel {
                watch: rows[key].watch,
                indexed_at: Some(indexed_at),
            })
            &&& forall|other: Seq<char>|
                other != key && rows.contains_key(other) ==> after[other] == rows[other]
        }),
{
    let key = nfc_of(path@);
    let after = table_after(
        rows,
        first_of_command(Command::UpdateByPath { path, indexed_at }),
    );
    assert(after.dom() =~= rows.dom());
}

/// The row that a lookup of `path` finds: the row under the path's key.
pub open spec fn row_of(s: Stores, path: Seq<char>) -> Option<RowModel> {
    if s.rows.contains_key(nfc_of(path)) {
        Some(s.rows[nfc_of(path)])
    } else {
        None
    }
}

/// Two spellings of a path that have the same Normalization Form C, as
/// its composed and its decomposed spelling have, find the same row.
pub proof fn lemma_lookup_by_either_form(s: Stores, a: Seq<char>, b: Seq<char>)
    requires
        nfc_of(a) == nfc_of(b),
    ensures
        row_of(s, a) == row_of(s, b),
{
}

} // verus!
