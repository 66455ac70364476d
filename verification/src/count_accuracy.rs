//! What the counters of a synchronisation say.
//!
//! The reporter of a synchronisation counts a stored document as done
//! when it was kept or refreshed, and an added file as done. When the job
//! ends, the count of done documents becomes the published number of
//! documents of the watch: it is the number of documents that the stores
//! then hold of the watch, in whatever order the events of the stages
//! reached the reporter.

use crate::convergence::after_add_stage;
use crate::convergence::after_sync;
use crate::convergence::after_update_stage;
use crate::convergence::faithful;
use crate::convergence::held_once;
use crate::convergence::lemma_add_stage;
use crate::convergence::lemma_sync_converges;
use crate::convergence::lemma_update_stage;
use crate::convergence::ready;
use crate::convergence::same_at;
use crate::convergence::SyncRun;
use crate::scan_watch_job::ReporterResult;
use crate::store_model::Stores;
use crate::sync_watch_job::lemma_sync_tally_of_any_order;
use crate::sync_watch_job::sync_counted;
use crate::sync_watch_job::sync_tally;
use crate::sync_watch_job::SyncReportEvent;
use crate::tasks::stale;
use crate::tasks::AddDocumentsEvent;
use crate::tasks::GetDocumentsEvent;
use crate::tasks::ScanDirectoryEvent;
use crate::tasks::UpdateDocumentsEvent;
use vstd::prelude::*;

verus! {

/// The number of elements of `a` that `b` holds.
pub open spec fn count_listed(a: Seq<Seq<char>>, b: Seq<Seq<char>>) -> nat
    decreases a.len(),
{
    if a.len() == 0 {
        0
    } else {
        count_listed(a.drop_last(), b) + if b.contains(a.last()) {
            1nat
        } else {
            0nat
        }
    }
}

/// `b` without the value `v`.
pub open spec fn without(b: Seq<Seq<char>>, v: Seq<char>) -> Seq<Seq<char>>
    decreases b.len(),
{
    if b.len() == 0 {
        b
    } else if b.last() == v {
        without(b.drop_last(), v)
    } else {
        without(b.drop_last(), v).push(b.last())
    }
}

/// Taking a value out of a list that holds nothing twice gives a list
/// that holds nothing twice, holds every other value, and is shorter by
/// one where the value was in it.
pub proof fn lemma_without(b: Seq<Seq<char>>, v: Seq<char>)
    requires
        b.no_duplicates(),
    ensures
        without(b, v).no_duplicates(),
        forall|k: Seq<char>| #[trigger] without(b, v).contains(k) <==> b.contains(k) && k != v,
        without(b, v).len() == b.len() - if b.contains(v) {
            1int
        } else {
            0int
        },
    decreases b.len(),
{
    let r = without(b, v);
    if b.len() > 0 {
        let init = b.drop_last();
        let t = without(init, v);
        lemma_without(init, v);
        assert forall|k: Seq<char>| b.contains(k) <==> (init.contains(k) || k == b.last()) by {
            if b.contains(k) {
                let m = choose|m: int| 0 <= m < b.len() && b[m] == k;
                if m < init.len() {
                    assert(init[m] == k);
                }
            }
            if init.contains(k) {
                let m = choose|m: int| 0 <= m < init.len() && init[m] == k;
            }
        }
        assert(!init.contains(b.last())) by {
            if init.contains(b.last()) {
                let m = choose|m: int| 0 <= m < init.len() && init[m] == b.last();
            }
        }
        if b.last() != v {
            assert forall|k: Seq<char>| #[trigger] r.contains(k) <==> b.contains(k) && k != v by {
                if r.contains(k) {
                    let m = choose|m: int| 0 <= m < r.len() && r[m] == k;
                    if m < t.len() {
                        assert(t.contains(k));
                    }
                }
                if b.contains(k) && k != v {
                    if k == b.last() {
                        assert(r[r.len() - 1] == k);
                    } else {
                        assert(t.contains(k));
                        let m = choose|m: int| 0 <= m < t.len() && t[m] == k;
                        assert(r[m] == k);
                    }
                }
            }
            assert forall|i: int, j: int| 0 <= i < r.len() && 0 <= j < r.len() && i != j implies r[i]
                != r[j] by {
                if i < t.len() && j < t.len() {
                } else if i < t.len() {
                    assert(t.contains(t[i]));
                } else {
                    assert(t.contains(t[j]));
                }
            }
        }
    }
}

/// The count depends only on which elements of `a` the other list holds.
pub proof fn lemma_count_listed_same(a: Seq<Seq<char>>, b: Seq<Seq<char>>, c: Seq<Seq<char>>)
    requires
        forall|i: int| 0 <= i < a.len() ==> b.contains(#[trigger] a[i]) == c.contains(a[i]),
    ensures
        count_listed(a, b) == count_listed(a, c),
    decreases a.len(),
{
    if a.len() > 0 {
        assert forall|i: int| 0 <= i < a.drop_last().len() implies b.contains(
            #[trigger] a.drop_last()[i],
        ) == c.contains(a.drop_last()[i]) by {
        }
        lemma_count_listed_same(a.drop_last(), b, c);
    }
}

/// A list that holds nothing twice and lies within another such list is
/// counted in full.
pub proof fn lemma_count_listed(a: Seq<Seq<char>>, b: Seq<Seq<char>>)
    requires
        a.no_duplicates(),
        b.no_duplicates(),
        forall|k: Seq<char>| b.contains(k) ==> a.contains(k),
    ensures
        count_listed(a, b) == b.len(),
    decreases a.len(),
{
    if a.len() == 0 {
        if b.len() > 0 {
            assert(b.contains(b[0]));
        }
    } else {
        let init = a.drop_last();
        let last = a.last();
        assert(!init.contains(last)) by {
            if init.contains(last) {
                let m = choose|m: int| 0 <= m < init.len() && init[m] == last;
            }
        }
        let rest = without(b, last);
        lemma_without(b, last);
        assert forall|k: Seq<char>| rest.contains(k) implies init.contains(k) by {
            let m = choose|m: int| 0 <= m < a.len() && a[m] == k;
            assert(init[m] == k);
        }
        lemma_count_listed(init, rest);
        assert forall|i: int| 0 <= i < init.len() implies b.contains(#[trigger] init[i])
            == rest.contains(init[i]) by {
        }
        lemma_count_listed_same(init, b, rest);
    }
}

/// What `event` adds to the counters of a synchronisation.
pub open spec fn counted(event: SyncReportEvent) -> (int, int, int) {
    sync_counted(ReporterResult { done: 0, failed: 0, total: 0 }, event)
}

/// The counters of a synchronisation add up: after an event they stand
/// at what they stood at before plus what the event adds.
pub proof fn lemma_counters_add_up(c: ReporterResult, event: SyncReportEvent)
    ensures
        sync_counted(c, event) == (
            c.done + counted(event).0,
            c.failed + counted(event).1,
            c.total + counted(event).2,
        ),
{
}

/// What the updating stage tells of the stored document of the key
/// `key`, where every step succeeds.
pub open spec fn update_event_for(run: SyncRun, key: Seq<char>) -> UpdateDocumentsEvent {
    if !run.disk.contains_key(key) {
        UpdateDocumentsEvent::DocumentDeleted
    } else if stale(run.snapshot[key].indexed_at, run.disk[key]) {
        UpdateDocumentsEvent::DocumentUpdated
    } else {
        UpdateDocumentsEvent::UpToDate
    }
}

/// What the adding stage tells of the file of the key `key` when the
/// stores are `u`, where every step succeeds.
pub open spec fn add_event_for(u: Stores, key: Seq<char>) -> AddDocumentsEvent {
    if u.rows.contains_key(key) {
        AddDocumentsEvent::AlreadyExists
    } else {
        AddDocumentsEvent::DocumentAdded
    }
}

/// The documents that are done after the reading and the updating stage
/// have told of every stored document.
pub open spec fn done_by_updates(run: SyncRun, stored: Seq<Seq<char>>) -> int
    decreases stored.len(),
{
    if stored.len() == 0 {
        0
    } else {
        done_by_updates(run, stored.drop_last()) + counted(
            SyncReportEvent::GetDocuments(GetDocumentsEvent::DocumentFound),
        ).0 + counted(SyncReportEvent::UpdateDocuments(update_event_for(run, stored.last()))).0
    }
}

/// The documents that are done after the walk and the adding stage have
/// told of every file that was found. The adding stage starts from the
/// stores `t`.
pub open spec fn done_by_adds(t: Stores, run: SyncRun, found: Seq<Seq<char>>) -> int
    decreases found.len(),
{
    if found.len() == 0 {
        0
    } else {
        done_by_adds(t, run, found.drop_last()) + counted(
            SyncReportEvent::ScanDirectory(ScanDirectoryEvent::FileDetected),
        ).0 + counted(
            SyncReportEvent::AddDocuments(
                add_event_for(after_add_stage(t, run, found.drop_last()), found.last()),
            ),
        ).0
    }
}

/// The count of done documents when a synchronisation ends.
pub open spec fn done_by_sync(
    s: Stores,
    run: SyncRun,
    stored: Seq<Seq<char>>,
    found: Seq<Seq<char>>,
) -> int {
    done_by_updates(run, stored) + done_by_adds(after_update_stage(s, run, stored), run, found)
}

/// The keys of `t` that have a row.
pub open spec fn with_row(t: Stores, keys: Seq<Seq<char>>) -> nat
    decreases keys.len(),
{
    if keys.len() == 0 {
        0
    } else {
        with_row(t, keys.drop_last()) + if t.rows.contains_key(keys.last()) {
            1nat
        } else {
            0nat
        }
    }
}

/// Of the stored documents, those are done by the updating stage whose
/// file is still eligible: the ones that the walk finds too.
pub proof fn lemma_done_by_updates(run: SyncRun, stored: Seq<Seq<char>>, found: Seq<Seq<char>>)
    requires
        forall|k: Seq<char>| #[trigger] found.contains(k) <==> run.disk.contains_key(k),
    ensures
        done_by_updates(run, stored) == count_listed(stored, found),
    decreases stored.len(),
{
    if stored.len() > 0 {
        lemma_done_by_updates(run, stored.drop_last(), found);
        assert(found.contains(stored.last()) == run.disk.contains_key(stored.last()));
    }
}

/// One more element to look for, which was not looked for before, is
/// found once in a list that holds it and holds nothing twice.
pub proof fn lemma_count_listed_push(b: Seq<Seq<char>>, init: Seq<Seq<char>>, last: Seq<char>)
    requires
        b.no_duplicates(),
        !init.contains(last),
    ensures
        count_listed(b, init.push(last)) == count_listed(b, init) + if b.contains(last) {
            1int
        } else {
            0int
        },
    decreases b.len(),
{
    let all = init.push(last);
    if b.len() > 0 {
        let rest = b.drop_last();
        let x = b.last();
        assert(rest.no_duplicates());
        lemma_count_listed_push(rest, init, last);
        assert(all.contains(x) == (init.contains(x) || x == last)) by {
            if all.contains(x) {
                let m = choose|m: int| 0 <= m < all.len() && all[m] == x;
                if m < init.len() {
                    assert(init[m] == x);
                }
            }
            if init.contains(x) {
                let m = choose|m: int| 0 <= m < init.len() && init[m] == x;
                assert(all[m] == x);
            }
            if x == last {
                assert(all[all.len() - 1] == x);
            }
        }
        assert(b.contains(last) == (rest.contains(last) || x == last)) by {
            if b.contains(last) {
                let m = choose|m: int| 0 <= m < b.len() && b[m] == last;
                if m < rest.len() {
                    assert(rest[m] == last);
                }
            }
            if rest.contains(last) {
                let m = choose|m: int| 0 <= m < rest.len() && rest[m] == last;
                assert(b[m] == last);
            }
            if x == last {
                assert(b[b.len() - 1] == last);
            }
        }
        if x == last {
            assert(!rest.contains(last)) by {
                if rest.contains(last) {
                    let m = choose|m: int| 0 <= m < rest.len() && rest[m] == last;
                    assert(b[m] == b[b.len() - 1]);
                }
            }
        }
    } else {
        assert(!b.contains(last));
    }
}

/// Two lists that hold nothing twice hold as many elements of each other:
/// either count is the number of elements that both hold.
pub proof fn lemma_count_listed_both_ways(a: Seq<Seq<char>>, b: Seq<Seq<char>>)
    requires
        a.no_duplicates(),
        b.no_duplicates(),
    ensures
        count_listed(a, b) == count_listed(b, a),
    decreases a.len(),
{
    if a.len() == 0 {
        lemma_count_listed_none(b, a);
    } else {
        let init = a.drop_last();
        let last = a.last();
        assert(init.no_duplicates());
        assert(!init.contains(last)) by {
            if init.contains(last) {
                let m = choose|m: int| 0 <= m < init.len() && init[m] == last;
                assert(a[m] == a[a.len() - 1]);
            }
        }
        lemma_count_listed_both_ways(init, b);
        lemma_count_listed_push(b, init, last);
        assert(init.push(last) =~= a);
    }
}

/// Nothing is found in an empty list.
pub proof fn lemma_count_listed_none(b: Seq<Seq<char>>, empty: Seq<Seq<char>>)
    requires
        empty.len() == 0,
    ensures
        count_listed(b, empty) == 0,
    decreases b.len(),
{
    if b.len() > 0 {
        lemma_count_listed_none(b.drop_last(), empty);
        assert(!empty.contains(b.last()));
    }
}

/// Of the files that were found, those are done by the adding stage that
/// had no row when the stage started.
pub proof fn lemma_done_by_adds(t: Stores, run: SyncRun, found: Seq<Seq<char>>)
    requires
        crate::store_model::sound(t),
        found.no_duplicates(),
        forall|k: Seq<char>|
            run.disk.contains_key(k) && t.rows.contains_key(k) ==> #[trigger] held_once(
                t,
                run.watch,
                k,
            ),
        forall|i: int| 0 <= i < found.len() ==> run.disk.contains_key(#[trigger] found[i]),
    ensures
        done_by_adds(t, run, found) + with_row(t, found) == found.len(),
    decreases found.len(),
{
    if found.len() > 0 {
        let init = found.drop_last();
        let last = found.last();
        assert forall|i: int| 0 <= i < init.len() implies run.disk.contains_key(
            #[trigger] init[i],
        ) by {
        }
        lemma_done_by_adds(t, run, init);
        lemma_add_stage(t, run, init);
        assert(!init.contains(last)) by {
            if init.contains(last) {
                let m = choose|m: int| 0 <= m < init.len() && init[m] == last;
            }
        }
        assert(same_at(after_add_stage(t, run, init), t, last));
    }
}

/// The keys with a row are counted as the keys that `listed` holds,
/// where the two agree on every key of `keys`.
pub proof fn lemma_with_row(t: Stores, keys: Seq<Seq<char>>, listed: Seq<Seq<char>>)
    requires
        forall|i: int|
            0 <= i < keys.len() ==> t.rows.contains_key(#[trigger] keys[i]) == listed.contains(
                keys[i],
            ),
    ensures
        with_row(t, keys) == count_listed(keys, listed),
    decreases keys.len(),
{
    if keys.len() > 0 {
        assert forall|i: int| 0 <= i < keys.drop_last().len() implies t.rows.contains_key(
            #[trigger] keys.drop_last()[i],
        ) == listed.contains(keys.drop_last()[i]) by {
        }
        lemma_with_row(t, keys.drop_last(), listed);
    }
}

/// `listing` lists the documents that the stores hold of the watch, each
/// once.
pub open spec fn lists_documents(r: Stores, watch: i64, listing: Seq<Seq<char>>) -> bool {
    listing.no_duplicates() && forall|k: Seq<char>| #[trigger]
        listing.contains(k) <==> r.rows.contains_key(k) && r.rows[k].watch == watch
}

/// After a synchronisation on a disk that stands still, with every step
/// succeeding, the count of done documents is the number of documents
/// that the stores hold of the watch. The walk is taken to find every
/// file once.
pub proof fn lemma_count_is_accurate(
    s: Stores,
    run: SyncRun,
    stored: Seq<Seq<char>>,
    found: Seq<Seq<char>>,
    listing: Seq<Seq<char>>,
)
    requires
        ready(s, run),
        faithful(s, run, stored, found),
        found.no_duplicates(),
        lists_documents(after_sync(s, run, stored, found), run.watch, listing),
    ensures
        done_by_sync(s, run, stored, found) == listing.len(),
{
    let t = after_update_stage(s, run, stored);
    let r = after_sync(s, run, stored, found);
    lemma_sync_converges(s, run, stored, found);
    assert forall|i: int| 0 <= i < stored.len() implies s.rows.contains_key(#[trigger] stored[i])
        && s.rows[stored[i]].watch == run.watch by {
        assert(stored.contains(stored[i]));
    }
    lemma_update_stage(s, run, stored);
    lemma_done_by_updates(run, stored, found);
    assert forall|k: Seq<char>| run.disk.contains_key(k) && t.rows.contains_key(k) implies #[trigger] held_once(
        t,
        run.watch,
        k,
    ) by {
        if !stored.contains(k) {
            assert(same_at(t, s, k));
            assert(s.rows.contains_key(k));
        }
    }
    assert forall|i: int| 0 <= i < found.len() implies run.disk.contains_key(#[trigger] found[i]) by {
        assert(found.contains(found[i]));
    }
    lemma_done_by_adds(t, run, found);
    assert forall|i: int| 0 <= i < found.len() implies t.rows.contains_key(#[trigger] found[i])
        == stored.contains(found[i]) by {
        let k = found[i];
        assert(found.contains(k));
        if stored.contains(k) {
            assert(held_once(t, run.watch, k));
        } else {
            assert(same_at(t, s, k));
            if s.rows.contains_key(k) {
                assert(s.rows[k].watch == run.watch);
            }
        }
    }
    lemma_with_row(t, found, stored);
    lemma_count_listed_both_ways(stored, found);
    assert(done_by_sync(s, run, stored, found) == found.len());
    assert forall|k: Seq<char>| listing.contains(k) implies found.contains(k) by {
        assert(r.rows.contains_key(k));
        assert(run.disk.contains_key(k));
    }
    assert forall|k: Seq<char>| found.contains(k) implies listing.contains(k) by {
        assert(run.disk.contains_key(k));
        assert(held_once(r, run.watch, k));
    }
    lemma_count_listed(found, listing);
    lemma_count_listed(found, found);
    assert forall|i: int| 0 <= i < found.len() implies listing.contains(#[trigger] found[i])
        == found.contains(found[i]) by {
        assert(found.contains(found[i]));
    }
    lemma_count_listed_same(found, listing, found);
}

/// What the reading and the updating stage tell the reporter of the
/// stored documents, one document after another, where every step
/// succeeds.
pub open spec fn told_by_updates(run: SyncRun, stored: Seq<Seq<char>>) -> Seq<SyncReportEvent>
    decreases stored.len(),
{
    if stored.len() == 0 {
        Seq::empty()
    } else {
        told_by_updates(run, stored.drop_last()).push(
            SyncReportEvent::GetDocuments(GetDocumentsEvent::DocumentFound),
        ).push(SyncReportEvent::UpdateDocuments(update_event_for(run, stored.last())))
    }
}

/// What the walk and the adding stage tell the reporter of the files
/// that were found, one file after another, where every step succeeds.
/// The adding stage starts from the stores `t`.
pub open spec fn told_by_adds(t: Stores, run: SyncRun, found: Seq<Seq<char>>) -> Seq<
    SyncReportEvent,
>
    decreases found.len(),
{
    if found.len() == 0 {
        Seq::empty()
    } else {
        told_by_adds(t, run, found.drop_last()).push(
            SyncReportEvent::ScanDirectory(ScanDirectoryEvent::FileDetected),
        ).push(
            SyncReportEvent::AddDocuments(
                add_event_for(after_add_stage(t, run, found.drop_last()), found.last()),
            ),
        )
    }
}

/// What the stages of a synchronisation tell the reporter, stage by
/// stage.
pub open spec fn told_by_sync(
    s: Stores,
    run: SyncRun,
    stored: Seq<Seq<char>>,
    found: Seq<Seq<char>>,
) -> Seq<SyncReportEvent> {
    told_by_updates(run, stored) + told_by_adds(after_update_stage(s, run, stored), run, found)
}

/// The counters after one more event.
pub proof fn lemma_tally_push(events: Seq<SyncReportEvent>, event: SyncReportEvent)
    ensures
        sync_tally(events.push(event)) == (
            sync_tally(events).0 + counted(event).0,
            sync_tally(events).1 + counted(event).1,
            sync_tally(events).2 + counted(event).2,
        ),
{
    assert(events.push(event).drop_last() =~= events);
}

/// The counters after two runs of events, one after the other.
pub proof fn lemma_tally_add(a: Seq<SyncReportEvent>, b: Seq<SyncReportEvent>)
    ensures
        sync_tally(a + b) == (
            sync_tally(a).0 + sync_tally(b).0,
            sync_tally(a).1 + sync_tally(b).1,
            sync_tally(a).2 + sync_tally(b).2,
        ),
    decreases b.len(),
{
    if b.len() == 0 {
        assert(a + b =~= a);
    } else {
        lemma_tally_add(a, b.drop_last());
        assert((a + b).drop_last() =~= a + b.drop_last());
    }
}

/// The counters after the updating stage: the done ones are those that
/// the model counts, and none has failed.
pub proof fn lemma_told_by_updates(run: SyncRun, stored: Seq<Seq<char>>)
    ensures
        sync_tally(told_by_updates(run, stored)).0 == done_by_updates(run, stored),
        sync_tally(told_by_updates(run, stored)).1 == 0,
    decreases stored.len(),
{
    if stored.len() > 0 {
        let before = told_by_updates(run, stored.drop_last());
        let found = SyncReportEvent::GetDocuments(GetDocumentsEvent::DocumentFound);
        lemma_told_by_updates(run, stored.drop_last());
        lemma_tally_push(before, found);
        lemma_tally_push(
            before.push(found),
            SyncReportEvent::UpdateDocuments(update_event_for(run, stored.last())),
        );
    }
}

/// The counters after the adding stage: the done ones are those that the
/// model counts, and none has failed.
pub proof fn lemma_told_by_adds(t: Stores, run: SyncRun, found: Seq<Seq<char>>)
    ensures
        sync_tally(told_by_adds(t, run, found)).0 == done_by_adds(t, run, found),
        sync_tally(told_by_adds(t, run, found)).1 == 0,
    decreases found.len(),
{
    if found.len() > 0 {
        let before = told_by_adds(t, run, found.drop_last());
        let detected = SyncReportEvent::ScanDirectory(ScanDirectoryEvent::FileDetected);
        lemma_told_by_adds(t, run, found.drop_last());
        lemma_tally_push(before, detected);
        lemma_tally_push(
            before.push(detected),
            SyncReportEvent::AddDocuments(
                add_event_for(after_add_stage(t, run, found.drop_last()), found.last()),
            ),
        );
    }
}

/// After a synchronisation on a disk that stands still, with every step
/// succeeding, the reporter's count of done documents is the number of
/// documents that the stores hold of the watch, and its count of failed
/// ones is zero, in whatever order the events of the stages reached it.
/// The walk is taken to find every file once.
pub proof fn lemma_report_is_accurate(
    s: Stores,
    run: SyncRun,
    stored: Seq<Seq<char>>,
    found: Seq<Seq<char>>,
    listing: Seq<Seq<char>>,
    events: Seq<SyncReportEvent>,
)
    requires
        ready(s, run),
        faithful(s, run, stored, found),
        found.no_duplicates(),
        lists_documents(after_sync(s, run, stored, found), run.watch, listing),
        events.to_multiset() == told_by_sync(s, run, stored, found).to_multiset(),
    ensures
        sync_tally(events).0 == listing.len(),
        sync_tally(events).1 == 0,
{
    let t = after_update_stage(s, run, stored);
    lemma_sync_tally_of_any_order(events, told_by_sync(s, run, stored, found));
    lemma_tally_add(told_by_updates(run, stored), told_by_adds(t, run, found));
    lemma_told_by_updates(run, stored);
    lemma_told_by_adds(t, run, found);
    lemma_count_is_accurate(s, run, stored, found, listing);
}

} // verus!
