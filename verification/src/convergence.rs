//! What a synchronisation reaches.
//!
//! A synchronisation works through the stored documents of its watch and
//! then through the files that the walk of the directory finds. Here the
//! disk is taken to stand still and every step to succeed. Then, whatever
//! the stores held before, as long as they agreed, they hold afterwards
//! exactly the eligible files of the watch: each has its row, and one
//! entry in the index.

use crate::documents::Document;
use crate::documents::DocumentId;
use crate::store_model::after_add;
use crate::store_model::after_all;
use crate::store_model::applied;
use crate::store_model::StoreOperation;
use crate::store_model::after_delete;
use crate::store_model::after_update;
use crate::store_model::count_key;
use crate::store_model::drop_key;
use crate::store_model::lemma_add_sound;
use crate::store_model::lemma_count_member;
use crate::store_model::lemma_count_push;
use crate::store_model::lemma_delete_sound;
use crate::store_model::lemma_drop_key;
use crate::store_model::lemma_update_sound;
use crate::store_model::sound;
use crate::store_model::RowModel;
use crate::store_model::Stores;
use crate::tasks::stale;
use crate::time::Timestamp;
use crate::watches::WatchId;
use vstd::prelude::*;

verus! {

/// What a synchronisation works on.
pub struct SyncRun {
    /// The watch that is synchronised.
    pub watch: i64,
    /// The eligible files below the directory of the watch, by key, each
    /// with the time at which it was last modified.
    pub disk: Map<Seq<char>, Timestamp>,
    /// The rows of the table as they were read when the job started.
    pub snapshot: Map<Seq<char>, RowModel>,
    /// The time at which documents are refreshed.
    pub now: Timestamp,
}

/// A document of the watch `watch`, as the steps of an operation carry
/// it along.
pub open spec fn document_for(watch: i64) -> Document {
    Document {
        id: DocumentId(0),
        path: arbitrary(),
        watch_id: WatchId(watch),
        created_at: arbitrary(),
        indexed_at: None,
    }
}

/// The two stores hold the same of the key `k`.
pub open spec fn same_at(a: Stores, b: Stores, k: Seq<char>) -> bool {
    &&& a.rows.contains_key(k) == b.rows.contains_key(k)
    &&& a.rows.contains_key(k) ==> a.rows[k] == b.rows[k]
    &&& count_key(a.index, k) == count_key(b.index, k)
}

/// The key `k` has its row, in the watch `watch`, and one entry in the
/// index.
pub open spec fn held_once(s: Stores, watch: i64, k: Seq<char>) -> bool {
    s.rows.contains_key(k) && s.rows[k].watch == watch && count_key(s.index, k) == 1
}

/// The key `k` has no row and no entry.
pub open spec fn gone(s: Stores, k: Seq<char>) -> bool {
    !s.rows.contains_key(k) && count_key(s.index, k) == 0
}

/// What the updating stage does with the stored document of the key
/// `key`: it deletes a document whose file is not eligible any more,
/// refreshes one whose index entry is stale, and keeps every other.
pub open spec fn update_stage_step(t: Stores, run: SyncRun, key: Seq<char>) -> Stores {
    if !run.disk.contains_key(key) {
        after_delete(t, key, document_for(run.watch), true, Ok(()))
    } else if stale(run.snapshot[key].indexed_at, run.disk[key]) {
        after_update(t, key, run.watch, run.now, Ok(()), Ok(()), true)
    } else {
        t
    }
}

/// The stores after the updating stage has worked through `stored`.
pub open spec fn after_update_stage(s: Stores, run: SyncRun, stored: Seq<Seq<char>>) -> Stores
    decreases stored.len(),
{
    if stored.len() == 0 {
        s
    } else {
        update_stage_step(after_update_stage(s, run, stored.drop_last()), run, stored.last())
    }
}

/// The stores after the adding stage has worked through `found`.
pub open spec fn after_add_stage(t: Stores, run: SyncRun, found: Seq<Seq<char>>) -> Stores
    decreases found.len(),
{
    if found.len() == 0 {
        t
    } else {
        after_add(
            after_add_stage(t, run, found.drop_last()),
            found.last(),
            document_for(run.watch),
            run.now,
            Ok(()),
            true,
            Ok(()),
        )
    }
}

/// The stores after a synchronisation that read the stored documents
/// `stored` and found the files `found`.
pub open spec fn after_sync(
    s: Stores,
    run: SyncRun,
    stored: Seq<Seq<char>>,
    found: Seq<Seq<char>>,
) -> Stores {
    after_add_stage(after_update_stage(s, run, stored), run, found)
}

/// Every document of the watch whose file is eligible and whose index
/// entry is not stale has one entry in the index.
pub open spec fn settled(s: Stores, run: SyncRun) -> bool {
    forall|k: Seq<char>|
        #![trigger s.rows.contains_key(k)]
        s.rows.contains_key(k) && s.rows[k].watch == run.watch && run.disk.contains_key(k)
            && !stale(s.rows[k].indexed_at, run.disk[k]) ==> count_key(s.index, k) == 1
}

/// A key without a row has no entry, where the stores agree.
pub proof fn lemma_no_row_no_entry(s: Stores, key: Seq<char>)
    requires
        sound(s),
        !s.rows.contains_key(key),
    ensures
        count_key(s.index, key) == 0,
{
    lemma_count_member(s.index, key);
    if count_key(s.index, key) > 0 {
        let i = choose|i: int| 0 <= i < s.index.len() && (#[trigger] s.index[i]).0 == key;
    }
}

/// A refresh that succeeds leaves its key with its row and one entry,
/// and every other key as it was.
pub proof fn lemma_update_effect(s: Stores, key: Seq<char>, watch: i64, now: Timestamp)
    requires
        sound(s),
        s.rows.contains_key(key),
        s.rows[key].watch == watch,
    ensures
        sound(after_update(s, key, watch, now, Ok(()), Ok(()), true)),
        held_once(after_update(s, key, watch, now, Ok(()), Ok(()), true), watch, key),
        forall|k: Seq<char>|
            k != key ==> #[trigger] same_at(
                after_update(s, key, watch, now, Ok(()), Ok(()), true),
                s,
                k,
            ),
{
    let r = after_update(s, key, watch, now, Ok(()), Ok(()), true);
    lemma_update_sound(s, key, watch, now, Ok(()), Ok(()), true);
    lemma_drop_key(s.index, key);
    lemma_count_push(drop_key(s.index, key), (key, watch), key);
    assert forall|k: Seq<char>| k != key implies #[trigger] same_at(r, s, k) by {
        lemma_count_push(drop_key(s.index, key), (key, watch), k);
    }
}

/// A deletion that succeeds leaves its key without row and entry, and
/// every other key as it was.
pub proof fn lemma_delete_effect(s: Stores, key: Seq<char>, document: Document)
    requires
        sound(s),
    ensures
        sound(after_delete(s, key, document, true, Ok(()))),
        gone(after_delete(s, key, document, true, Ok(())), key),
        forall|k: Seq<char>|
            k != key ==> #[trigger] same_at(after_delete(s, key, document, true, Ok(())), s, k),
{
    let r = after_delete(s, key, document, true, Ok(()));
    lemma_delete_sound(s, key, document, true, Ok(()));
    lemma_drop_key(s.index, key);
    if !s.rows.contains_key(key) {
        lemma_no_row_no_entry(s, key);
    }
    assert forall|k: Seq<char>| k != key implies #[trigger] same_at(r, s, k) by {
    }
}

/// An add that succeeds leaves its key with a row and one entry, where
/// the key had no row; it changes nothing where the key had one; and it
/// leaves every other key as it was.
pub proof fn lemma_add_effect(s: Stores, key: Seq<char>, watch: i64, now: Timestamp)
    requires
        sound(s),
    ensures
        sound(after_add(s, key, document_for(watch), now, Ok(()), true, Ok(()))),
        s.rows.contains_key(key) ==> after_add(
            s,
            key,
            document_for(watch),
            now,
            Ok(()),
            true,
            Ok(()),
        ) == s,
        !s.rows.contains_key(key) ==> held_once(
            after_add(s, key, document_for(watch), now, Ok(()), true, Ok(())),
            watch,
            key,
        ),
        forall|k: Seq<char>|
            k != key ==> #[trigger] same_at(
                after_add(s, key, document_for(watch), now, Ok(()), true, Ok(())),
                s,
                k,
            ),
{
    let r = after_add(s, key, document_for(watch), now, Ok(()), true, Ok(()));
    lemma_add_sound(s, key, document_for(watch), now, Ok(()), true, Ok(()));
    if !s.rows.contains_key(key) {
        lemma_no_row_no_entry(s, key);
        lemma_count_push(s.index, (key, watch), key);
        assert forall|k: Seq<char>| k != key implies #[trigger] same_at(r, s, k) by {
            lemma_count_push(s.index, (key, watch), k);
        }
    }
}

/// What the updating stage reaches: every stored document whose file is
/// eligible has its row and one entry, every other stored document is
/// gone, and what was not handed to the stage is as it was.
pub proof fn lemma_update_stage(s: Stores, run: SyncRun, stored: Seq<Seq<char>>)
    requires
        sound(s),
        settled(s, run),
        run.snapshot == s.rows,
        stored.no_duplicates(),
        forall|i: int|
            0 <= i < stored.len() ==> s.rows.contains_key(#[trigger] stored[i])
                && s.rows[stored[i]].watch == run.watch,
    ensures
        sound(after_update_stage(s, run, stored)),
        forall|k: Seq<char>|
            !stored.contains(k) ==> #[trigger] same_at(after_update_stage(s, run, stored), s, k),
        forall|k: Seq<char>|
            stored.contains(k) && run.disk.contains_key(k) ==> #[trigger] held_once(
                after_update_stage(s, run, stored),
                run.watch,
                k,
            ),
        forall|k: Seq<char>|
            stored.contains(k) && !run.disk.contains_key(k) ==> #[trigger] gone(
                after_update_stage(s, run, stored),
                k,
            ),
    decreases stored.len(),
{
    let r = after_update_stage(s, run, stored);
    if stored.len() == 0 {
        assert forall|k: Seq<char>| !stored.contains(k) implies #[trigger] same_at(r, s, k) by {}
    } else {
        let init = stored.drop_last();
        let key = stored.last();
        let t = after_update_stage(s, run, init);
        assert forall|i: int| 0 <= i < init.len() implies s.rows.contains_key(#[trigger] init[i])
            && s.rows[init[i]].watch == run.watch by {
        }
        lemma_update_stage(s, run, init);
        assert(!init.contains(key)) by {
            if init.contains(key) {
                let m = choose|m: int| 0 <= m < init.len() && init[m] == key;
            }
        }
        assert(same_at(t, s, key));
        assert forall|k: Seq<char>| stored.contains(k) <==> (init.contains(k) || k == key) by {
            if stored.contains(k) {
                let m = choose|m: int| 0 <= m < stored.len() && stored[m] == k;
                if m < init.len() {
                    assert(init[m] == k);
                }
            }
            if init.contains(k) {
                let m = choose|m: int| 0 <= m < init.len() && init[m] == k;
            }
        }
        if !run.disk.contains_key(key) {
            lemma_delete_effect(t, key, document_for(run.watch));
        } else if stale(run.snapshot[key].indexed_at, run.disk[key]) {
            lemma_update_effect(t, key, run.watch, run.now);
        }
        assert forall|k: Seq<char>| !stored.contains(k) implies #[trigger] same_at(r, s, k) by {
            assert(same_at(t, s, k));
            assert(same_at(r, t, k));
        }
        assert forall|k: Seq<char>|
            stored.contains(k) && run.disk.contains_key(k) implies #[trigger] held_once(
            r,
            run.watch,
            k,
        ) by {
            if k != key {
                assert(held_once(t, run.watch, k));
                assert(same_at(r, t, k));
            }
        }
        assert forall|k: Seq<char>|
            stored.contains(k) && !run.disk.contains_key(k) implies #[trigger] gone(r, k) by {
            if k != key {
                assert(gone(t, k));
                assert(same_at(r, t, k));
            }
        }
    }
}

/// What the adding stage reaches: every file handed to it has its row
/// and one entry, and what was not handed to it is as it was. It starts
/// from stores in which every eligible file that has a row has it in this
/// watch, with one entry.
pub proof fn lemma_add_stage(t: Stores, run: SyncRun, found: Seq<Seq<char>>)
    requires
        sound(t),
        forall|k: Seq<char>|
            run.disk.contains_key(k) && t.rows.contains_key(k) ==> #[trigger] held_once(
                t,
                run.watch,
                k,
            ),
        forall|i: int| 0 <= i < found.len() ==> run.disk.contains_key(#[trigger] found[i]),
    ensures
        sound(after_add_stage(t, run, found)),
        forall|k: Seq<char>|
            !found.contains(k) ==> #[trigger] same_at(after_add_stage(t, run, found), t, k),
        forall|k: Seq<char>|
            found.contains(k) ==> #[trigger] held_once(
                after_add_stage(t, run, found),
                run.watch,
                k,
            ),
    decreases found.len(),
{
    let r = after_add_stage(t, run, found);
    if found.len() == 0 {
        assert forall|k: Seq<char>| !found.contains(k) implies #[trigger] same_at(r, t, k) by {}
    } else {
        let init = found.drop_last();
        let key = found.last();
        let u = after_add_stage(t, run, init);
        assert forall|i: int| 0 <= i < init.len() implies run.disk.contains_key(
            #[trigger] init[i],
        ) by {
        }
        lemma_add_stage(t, run, init);
        lemma_add_effect(u, key, run.watch, run.now);
        assert forall|k: Seq<char>| found.contains(k) <==> (init.contains(k) || k == key) by {
            if found.contains(k) {
                let m = choose|m: int| 0 <= m < found.len() && found[m] == k;
                if m < init.len() {
                    assert(init[m] == k);
                }
            }
            if init.contains(k) {
                let m = choose|m: int| 0 <= m < init.len() && init[m] == k;
            }
        }
        assert(held_once(r, run.watch, key)) by {
            if u.rows.contains_key(key) {
                if init.contains(key) {
                } else {
                    assert(same_at(u, t, key));
                    assert(held_once(t, run.watch, key));
                }
            }
        }
        assert forall|k: Seq<char>| !found.contains(k) implies #[trigger] same_at(r, t, k) by {
            assert(same_at(u, t, k));
            assert(same_at(r, u, k));
        }
        assert forall|k: Seq<char>| found.contains(k) implies #[trigger] held_once(
            r,
            run.watch,
            k,
        ) by {
            if k != key {
                assert(held_once(u, run.watch, k));
                assert(same_at(r, u, k));
            }
        }
    }
}

/// The job read exactly the documents of its watch, each once, and the
/// walk found exactly the eligible files.
pub open spec fn faithful(s: Stores, run: SyncRun, stored: Seq<Seq<char>>, found: Seq<Seq<char>>) -> bool {
    &&& run.snapshot == s.rows
    &&& stored.no_duplicates()
    &&& forall|k: Seq<char>| #[trigger]
        stored.contains(k) <==> s.rows.contains_key(k) && s.rows[k].watch == run.watch
    &&& forall|k: Seq<char>| #[trigger] found.contains(k) <==> run.disk.contains_key(k)
}

/// No eligible file of the watch has its row in another watch.
pub open spec fn unshared(s: Stores, run: SyncRun) -> bool {
    forall|k: Seq<char>|
        #![trigger s.rows.contains_key(k)]
        run.disk.contains_key(k) && s.rows.contains_key(k) ==> s.rows[k].watch == run.watch
}

/// The stores hold of the watch exactly the eligible files: each has its
/// row and one entry, and the watch has no other row.
pub open spec fn converged(r: Stores, run: SyncRun) -> bool {
    &&& forall|k: Seq<char>| run.disk.contains_key(k) ==> #[trigger] held_once(r, run.watch, k)
    &&& forall|k: Seq<char>|
        #![trigger r.rows.contains_key(k)]
        r.rows.contains_key(k) && r.rows[k].watch == run.watch ==> run.disk.contains_key(k)
    &&& forall|i: int|
        0 <= i < r.index.len() && (#[trigger] r.index[i]).1 == run.watch ==> run.disk.contains_key(
            r.index[i].0,
        )
}

/// A synchronisation on a disk that stands still, with every step
/// succeeding, leaves the stores holding exactly the eligible files of
/// the watch, and the documents of other watches as they were.
pub proof fn lemma_sync_converges(
    s: Stores,
    run: SyncRun,
    stored: Seq<Seq<char>>,
    found: Seq<Seq<char>>,
)
    requires
        sound(s),
        settled(s, run),
        unshared(s, run),
        faithful(s, run, stored, found),
    ensures
        sound(after_sync(s, run, stored, found)),
        converged(after_sync(s, run, stored, found), run),
        forall|k: Seq<char>|
            #![trigger s.rows.contains_key(k)]
            s.rows.contains_key(k) && s.rows[k].watch != run.watch ==> same_at(
                after_sync(s, run, stored, found),
                s,
                k,
            ),
        forall|k: Seq<char>|
            #![trigger run.disk.contains_key(k)]
            !run.disk.contains_key(k) && !(s.rows.contains_key(k) && s.rows[k].watch != run.watch)
                ==> gone(after_sync(s, run, stored, found), k),
{
    let t = after_update_stage(s, run, stored);
    let r = after_sync(s, run, stored, found);
    assert forall|i: int| 0 <= i < stored.len() implies s.rows.contains_key(#[trigger] stored[i])
        && s.rows[stored[i]].watch == run.watch by {
        assert(stored.contains(stored[i]));
    }
    lemma_update_stage(s, run, stored);
    assert forall|k: Seq<char>| run.disk.contains_key(k) && t.rows.contains_key(k) implies #[trigger] held_once(
        t,
        run.watch,
        k,
    ) by {
        if !stored.contains(k) {
            assert(same_at(t, s, k));
        }
    }
    assert forall|i: int| 0 <= i < found.len() implies run.disk.contains_key(#[trigger] found[i]) by {
        assert(found.contains(found[i]));
    }
    lemma_add_stage(t, run, found);
    assert forall|k: Seq<char>| run.disk.contains_key(k) implies #[trigger] held_once(
        r,
        run.watch,
        k,
    ) by {
    }
    assert forall|k: Seq<char>|
        #![trigger r.rows.contains_key(k)]
        r.rows.contains_key(k) && r.rows[k].watch == run.watch implies run.disk.contains_key(
        k,
    ) by {
        if !run.disk.contains_key(k) {
            assert(same_at(r, t, k));
            if stored.contains(k) {
                assert(gone(t, k));
            } else {
                assert(same_at(t, s, k));
            }
        }
    }
    assert forall|i: int|
        0 <= i < r.index.len() && (#[trigger] r.index[i]).1 == run.watch implies run.disk.contains_key(
        r.index[i].0,
    ) by {
    }
    assert forall|k: Seq<char>|
        #![trigger s.rows.contains_key(k)]
        s.rows.contains_key(k) && s.rows[k].watch != run.watch implies same_at(r, s, k) by {
        assert(same_at(t, s, k));
        assert(same_at(r, t, k));
    }
    assert forall|k: Seq<char>|
        #![trigger run.disk.contains_key(k)]
        !run.disk.contains_key(k) && !(s.rows.contains_key(k) && s.rows[k].watch != run.watch)
        implies gone(r, k) by {
        assert(same_at(r, t, k));
        if stored.contains(k) {
            assert(gone(t, k));
        } else {
            assert(same_at(t, s, k));
            lemma_no_row_no_entry(s, k);
        }
    }
}

/// The operation is one that a scan or a synchronisation of the watch
/// makes: it adds an eligible file for the watch; or it refreshes a
/// document of the watch whose file is eligible and whose index entry is
/// stale; or it deletes a document of the watch, and the index obeys
/// where the row went.
pub open spec fn of_job(s: Stores, operation: StoreOperation, run: SyncRun) -> bool {
    match operation {
        StoreOperation::Add { key, document, .. } => {
            document.watch_id.0 == run.watch && run.disk.contains_key(key)
        },
        StoreOperation::Update { key, watch, now, delete_result, index_result, row_ok } => {
            &&& watch == run.watch
            &&& s.rows.contains_key(key)
            &&& s.rows[key].watch == watch
            &&& run.disk.contains_key(key)
            &&& stale(s.rows[key].indexed_at, run.disk[key])
        },
        StoreOperation::Delete { key, document, row_ok, index_result } => index_result is Ok
            || !row_ok || !s.rows.contains_key(key),
        StoreOperation::DeleteByWatch { watch, rows_ok, index_ok } => false,
    }
}

/// Every operation of `operations` is one of the job when its turn comes.
pub open spec fn all_of_job(s: Stores, operations: Seq<StoreOperation>, run: SyncRun) -> bool
    decreases operations.len(),
{
    operations.len() > 0 ==> all_of_job(s, operations.drop_last(), run) && of_job(
        after_all(s, operations.drop_last()),
        operations.last(),
        run,
    )
}

/// The stores are ready for a synchronisation of the watch: they agree,
/// every document that counts as up to date has its entry, and no
/// eligible file has its row in another watch.
pub open spec fn ready(s: Stores, run: SyncRun) -> bool {
    sound(s) && settled(s, run) && unshared(s, run)
}

/// However an operation of the job ends, stores that are ready for a
/// synchronisation are still ready after it.
pub proof fn lemma_job_keeps_ready(s: Stores, operation: StoreOperation, run: SyncRun)
    requires
        ready(s, run),
        of_job(s, operation, run),
    ensures
        ready(applied(s, operation), run),
{
    let r = applied(s, operation);
    match operation {
        StoreOperation::Add { key, document, now, index_result, mark_ok, cleanup_result } => {
            lemma_add_sound(s, key, document, now, index_result, mark_ok, cleanup_result);
            if !s.rows.contains_key(key) {
                lemma_no_row_no_entry(s, key);
            }
            assert forall|k: Seq<char>|
                #![trigger r.rows.contains_key(k)]
                r.rows.contains_key(k) && r.rows[k].watch == run.watch && run.disk.contains_key(k)
                    && !stale(r.rows[k].indexed_at, run.disk[k]) implies count_key(r.index, k)
                == 1 by {
                if s.rows.contains_key(key) {
                    assert(r == s);
                    assert(s.rows.contains_key(k));
                } else {
                    lemma_count_push(s.index, (key, document.watch_id.0), k);
                    if k != key {
                        assert(s.rows.contains_key(k));
                    }
                }
            }
            assert forall|k: Seq<char>|
                #![trigger r.rows.contains_key(k)]
                run.disk.contains_key(k) && r.rows.contains_key(k) implies r.rows[k].watch
                == run.watch by {
                if s.rows.contains_key(key) {
                    assert(s.rows.contains_key(k));
                } else if k != key {
                    assert(s.rows.contains_key(k));
                }
            }
        },
        StoreOperation::Update { key, watch, now, delete_result, index_result, row_ok } => {
            lemma_update_sound(s, key, watch, now, delete_result, index_result, row_ok);
            lemma_drop_key(s.index, key);
            let dropped = drop_key(s.index, key);
            assert forall|k: Seq<char>|
                #![trigger r.rows.contains_key(k)]
                r.rows.contains_key(k) && r.rows[k].watch == run.watch && run.disk.contains_key(k)
                    && !stale(r.rows[k].indexed_at, run.disk[k]) implies count_key(r.index, k)
                == 1 by {
                if k != key {
                    lemma_count_push(dropped, (key, watch), k);
                } else {
                    lemma_count_push(dropped, (key, watch), key);
                }
            }
            assert forall|k: Seq<char>|
                #![trigger r.rows.contains_key(k)]
                run.disk.contains_key(k) && r.rows.contains_key(k) implies r.rows[k].watch
                == run.watch by {
            }
        },
        StoreOperation::Delete { key, document, row_ok, index_result } => {
            lemma_delete_sound(s, key, document, row_ok, index_result);
            lemma_drop_key(s.index, key);
            assert forall|k: Seq<char>|
                #![trigger r.rows.contains_key(k)]
                r.rows.contains_key(k) && r.rows[k].watch == run.watch && run.disk.contains_key(k)
                    && !stale(r.rows[k].indexed_at, run.disk[k]) implies count_key(r.index, k)
                == 1 by {
            }
            assert forall|k: Seq<char>|
                #![trigger r.rows.contains_key(k)]
                run.disk.contains_key(k) && r.rows.contains_key(k) implies r.rows[k].watch
                == run.watch by {
            }
        },
        StoreOperation::DeleteByWatch { watch, rows_ok, index_ok } => {},
    }
}

/// A job that is stopped after any number of its operations, however
/// each of them ended, leaves stores that are ready for a
/// synchronisation.
pub proof fn lemma_stopped_job_leaves_ready(s: Stores, operations: Seq<StoreOperation>, run: SyncRun)
    requires
        ready(s, run),
        all_of_job(s, operations, run),
    ensures
        ready(after_all(s, operations), run),
    decreases operations.len(),
{
    if operations.len() > 0 {
        lemma_stopped_job_leaves_ready(s, operations.drop_last(), run);
        lemma_job_keeps_ready(after_all(s, operations.drop_last()), operations.last(), run);
    }
}

/// A synchronisation after a stopped job reaches what a synchronisation
/// alone reaches: either way the stores hold of the watch exactly the
/// eligible files, each with its row and one entry. `first` is the
/// synchronisation alone, `second` the one that follows the stopped job;
/// both work on the same watch and the same disk.
pub proof fn lemma_sync_after_stopped_job(
    s: Stores,
    operations: Seq<StoreOperation>,
    first: SyncRun,
    first_stored: Seq<Seq<char>>,
    first_found: Seq<Seq<char>>,
    second: SyncRun,
    second_stored: Seq<Seq<char>>,
    second_found: Seq<Seq<char>>,
)
    requires
        ready(s, first),
        all_of_job(s, operations, first),
        second.watch == first.watch,
        second.disk == first.disk,
        faithful(s, first, first_stored, first_found),
        faithful(after_all(s, operations), second, second_stored, second_found),
    ensures
        converged(after_sync(s, first, first_stored, first_found), first),
        converged(
            after_sync(after_all(s, operations), second, second_stored, second_found),
            first,
        ),
        forall|k: Seq<char>|
            #![trigger first.disk.contains_key(k)]
            held_once(after_sync(s, first, first_stored, first_found), first.watch, k)
                == held_once(
                after_sync(after_all(s, operations), second, second_stored, second_found),
                first.watch,
                k,
            ),
{
    let alone = after_sync(s, first, first_stored, first_found);
    let stopped = after_all(s, operations);
    let after = after_sync(stopped, second, second_stored, second_found);
    lemma_sync_converges(s, first, first_stored, first_found);
    lemma_stopped_job_leaves_ready(s, operations, first);
    assert(settled(stopped, second)) by {
        assert forall|k: Seq<char>|
            #![trigger stopped.rows.contains_key(k)]
            stopped.rows.contains_key(k) && stopped.rows[k].watch == second.watch
                && second.disk.contains_key(k) && !stale(
                stopped.rows[k].indexed_at,
                second.disk[k],
            ) implies count_key(stopped.index, k) == 1 by {
        }
    }
    assert(unshared(stopped, second)) by {
        assert forall|k: Seq<char>|
            #![trigger stopped.rows.contains_key(k)]
            second.disk.contains_key(k) && stopped.rows.contains_key(k) implies stopped.rows[k].watch
            == second.watch by {
        }
    }
    lemma_sync_converges(stopped, second, second_stored, second_found);
    assert forall|k: Seq<char>|
        #![trigger first.disk.contains_key(k)]
        held_once(alone, first.watch, k) == held_once(after, first.watch, k) by {
    }
}

} // verus!
