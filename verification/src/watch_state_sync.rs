//! The published picture of all watches.
//!
//! The aggregator folds two streams into three maps keyed by watch: the
//! watches themselves, the number of documents of each, and the report of
//! the job that runs on each. After every event it publishes a snapshot:
//! the watches with their counts, oldest first, and the live reports.

use crate::document_events::DocumentEvent;
use crate::by_time::ascending;
use crate::by_time::lemma_oldest_first;
use crate::by_time::oldest_first;
use crate::jobs::JobReport;
use crate::time::Timestamp;
use crate::watches::Watch;
use crate::watches::WatchFull;
use std::cmp::Ordering;
use std::collections::HashMap;
use vstd::prelude::*;
use vstd::std_specs::hash::spec_hash_map_iter;
use vstd::std_specs::iter::IteratorSpec;

verus! {

broadcast use vstd::std_specs::hash::group_hash_axioms;

/// The shortest time between two snapshots that are handed to the user
/// interface, in milliseconds.
pub const PUBLISH_INTERVAL_MILLIS: u64 = 150;

/// What happens to a watch and to the job that runs on it.
#[derive(Debug, PartialEq, Eq)]
pub enum WatchEvent {
    AddWatchQueued { watch: Watch },
    AddWatchStarted { watch: Watch },
    AddWatchProgressed { report: JobReport },
    AddWatchFinished { watch: Watch, report: JobReport },
    DeleteWatchQueued { watch: Watch },
    DeleteWatchStarted { watch: Watch },
    DeleteWatchProgressed { report: JobReport },
    DeleteWatchFinished { watch: Watch },
    SyncWatchQueued { watch: Watch },
    SyncWatchStarted { watch: Watch },
    SyncWatchProgressed { report: JobReport },
    SyncWatchFinished { watch: Watch, report: JobReport },
}

/// A snapshot: every watch with the number of its documents, and the
/// report of every job that is under way.
#[derive(Debug, PartialEq, Eq)]
pub struct WatchState {
    pub watches: Vec<WatchFull>,
    pub job_reports: Vec<JobReport>,
}

impl Clone for WatchState {
    fn clone(&self) -> (r: Self)
        ensures
            r.watches@.len() == self.watches@.len(),
            r.job_reports@.len() == self.job_reports@.len(),
            forall|i: int| 0 <= i < self.watches@.len() ==> r.watches@[i] == self.watches@[i],
            forall|i: int|
                0 <= i < self.job_reports@.len() ==> r.job_reports@[i] == self.job_reports@[i],
    {
        let mut watches: Vec<WatchFull> = Vec::new();
        let mut i: usize = 0;
        while i < self.watches.len()
            invariant
                i <= self.watches.len(),
                watches.len() == i,
                forall|j: int| 0 <= j < i ==> watches@[j] == self.watches@[j],
            decreases self.watches.len() - i,
        {
            watches.push(self.watches[i].clone());
            i = i + 1;
        }
        let mut job_reports: Vec<JobReport> = Vec::new();
        let mut k: usize = 0;
        while k < self.job_reports.len()
            invariant
                k <= self.job_reports.len(),
                job_reports.len() == k,
                forall|j: int| 0 <= j < k ==> job_reports@[j] == self.job_reports@[j],
            decreases self.job_reports.len() - k,
        {
            job_reports.push(self.job_reports[k].clone());
            k = k + 1;
        }
        WatchState { watches, job_reports }
    }
}

/// The watches after `event`.
pub open spec fn watches_after(watches: Map<i64, Watch>, event: WatchEvent) -> Map<i64, Watch> {
    match event {
        WatchEvent::AddWatchQueued { watch } => watches.insert(watch.id.0, watch),
        WatchEvent::AddWatchStarted { watch } => watches.insert(watch.id.0, watch),
        WatchEvent::AddWatchProgressed { report } => watches,
        WatchEvent::AddWatchFinished { watch, report } => watches.insert(watch.id.0, watch),
        WatchEvent::DeleteWatchQueued { watch } => watches.insert(watch.id.0, watch),
        WatchEvent::DeleteWatchStarted { watch } => watches.insert(watch.id.0, watch),
        WatchEvent::DeleteWatchProgressed { report } => watches,
        WatchEvent::DeleteWatchFinished { watch } => watches.remove(watch.id.0),
        WatchEvent::SyncWatchQueued { watch } => watches.insert(watch.id.0, watch),
        WatchEvent::SyncWatchStarted { watch } => watches.insert(watch.id.0, watch),
        WatchEvent::SyncWatchProgressed { report } => watches,
        WatchEvent::SyncWatchFinished { watch, report } => watches.insert(watch.id.0, watch),
    }
}

/// The live reports after `event`: progress puts a report under its
/// watch, and the end of a job takes the report of its watch away.
pub open spec fn reports_after(reports: Map<i64, JobReport>, event: WatchEvent) -> Map<
    i64,
    JobReport,
> {
    match event {
        WatchEvent::AddWatchProgressed { report } => reports.insert(report.watch.id.0, report),
        WatchEvent::DeleteWatchProgressed { report } => reports.insert(report.watch.id.0, report),
        WatchEvent::SyncWatchProgressed { report } => reports.insert(report.watch.id.0, report),
        WatchEvent::AddWatchFinished { watch, report } => reports.remove(watch.id.0),
        WatchEvent::DeleteWatchFinished { watch } => reports.remove(watch.id.0),
        WatchEvent::SyncWatchFinished { watch, report } => reports.remove(watch.id.0),
        _ => reports,
    }
}

/// The document counts after `event`: the end of a scan or of a
/// synchronisation sets the count of its watch to what the job has done.
pub open spec fn counts_after(counts: Map<i64, u32>, event: WatchEvent) -> Map<i64, u32> {
    match event {
        WatchEvent::AddWatchFinished { watch, report } => counts.insert(
            watch.id.0,
            report.progress.done,
        ),
        WatchEvent::SyncWatchFinished { watch, report } => counts.insert(
            watch.id.0,
            report.progress.done,
        ),
        _ => counts,
    }
}

/// The document counts after a change to one document: one more for an
/// added document, one less, but never below zero, for a deleted one.
/// Only a watch that has a count is counted for.
pub open spec fn counts_after_document(counts: Map<i64, u32>, event: DocumentEvent) -> Map<
    i64,
    u32,
> {
    match event {
        DocumentEvent::DocumentAdded(document) => if counts.contains_key(document.watch_id.0) {
            counts.insert(
                document.watch_id.0,
                (counts[document.watch_id.0] + 1) as u32,
            )
        } else {
            counts
        },
        DocumentEvent::DocumentUpdated(document) => counts,
        DocumentEvent::DocumentDeleted(document) => if counts.contains_key(document.watch_id.0)
            && counts[document.watch_id.0] > 0 {
            counts.insert(
                document.watch_id.0,
                (counts[document.watch_id.0] - 1) as u32,
            )
        } else {
            counts
        },
    }
}

/// Every watch stands under its own identifier.
pub open spec fn keyed_by_id(watches: Map<i64, Watch>) -> bool {
    forall|k: i64| #[trigger] watches.contains_key(k) ==> watches[k].id.0 == k
}

/// Every report stands under the identifier of its watch.
pub open spec fn keyed_by_watch(reports: Map<i64, JobReport>) -> bool {
    forall|k: i64| #[trigger] reports.contains_key(k) ==> reports[k].watch.id.0 == k
}

/// `walk` goes through `m`: it holds every entry of the map once. The
/// order in which a hash map hands out its entries is not told, so a
/// snapshot is stated for whichever walk the map gave.
pub open spec fn walk_of<V>(walk: Seq<(i64, V)>, m: Map<i64, V>) -> bool {
    &&& walk.len() == m.dom().len()
    &&& forall|i: int|
        0 <= i < walk.len() ==> m.contains_key((#[trigger] walk[i]).0) && m[walk[i].0] == walk[i].1
    &&& forall|i: int, j: int|
        0 <= i < j < walk.len() ==> (#[trigger] walk[i]).0 != (#[trigger] walk[j]).0
    &&& forall|k: i64| #[trigger]
        m.contains_key(k) ==> exists|i: int| 0 <= i < walk.len() && (#[trigger] walk[i]).0 == k
}

/// The count of `watch` in `counts`, zero where it has none.
pub open spec fn count_of(counts: Map<i64, u32>, watch: Watch) -> u32 {
    if counts.contains_key(watch.id.0) {
        counts[watch.id.0]
    } else {
        0
    }
}

/// `watch` with the count `count`.
pub open spec fn full(watch: Watch, count: u32) -> WatchFull {
    WatchFull {
        id: watch.id,
        path: watch.path,
        status: watch.status,
        created_at: watch.created_at,
        document_count: count,
    }
}

/// The watches of `entries`, each with its count from `counts`.
pub open spec fn counted(entries: Seq<(i64, Watch)>, counts: Map<i64, u32>) -> Seq<WatchFull> {
    Seq::new(entries.len(), |i: int| full(entries[i].1, count_of(counts, entries[i].1)))
}

/// The reports of `entries`.
pub open spec fn reports_of(entries: Seq<(i64, JobReport)>) -> Seq<JobReport> {
    Seq::new(entries.len(), |i: int| entries[i].1)
}

/// What a snapshot holds of the watches `watches` with the counts
/// `counts`: every watch once, each as the map has it and with its
/// count, the older before the younger.
pub open spec fn shows_watches(
    shown: Seq<WatchFull>,
    watches: Map<i64, Watch>,
    counts: Map<i64, u32>,
) -> bool {
    &&& ascending(shown, created())
    &&& shown.len() == watches.dom().len()
    &&& forall|i: int|
        0 <= i < shown.len() ==> watches.contains_key((#[trigger] shown[i]).id.0) && shown[i]
            == full(watches[shown[i].id.0], count_of(counts, watches[shown[i].id.0]))
    &&& forall|i: int, j: int|
        0 <= i < j < shown.len() ==> (#[trigger] shown[i]).id != (#[trigger] shown[j]).id
}

/// What a snapshot holds of the live reports `reports`: the report of
/// every watch that has one, once.
pub open spec fn shows_reports(shown: Seq<JobReport>, reports: Map<i64, JobReport>) -> bool {
    &&& shown.len() == reports.dom().len()
    &&& forall|i: int|
        0 <= i < shown.len() ==> reports.contains_key((#[trigger] shown[i]).watch.id.0)
            && shown[i] == reports[shown[i].watch.id.0]
    &&& forall|i: int, j: int|
        0 <= i < j < shown.len() ==> (#[trigger] shown[i]).watch.id != (
        #[trigger] shown[j]).watch.id
}

/// The time by which the watches of a snapshot are ordered.
pub open spec fn created() -> spec_fn(WatchFull) -> Timestamp {
    |w: WatchFull| w.created_at
}

/// How two watches stand to each other by creation time.
pub fn compare_created_at(a: &WatchFull, b: &WatchFull) -> (o: Ordering)
    ensures
        (o == Ordering::Less) == a.created_at.before(b.created_at),
        (o == Ordering::Greater) == b.created_at.before(a.created_at),
{
    if a.created_at.is_before(&b.created_at) {
        Ordering::Less
    } else if b.created_at.is_before(&a.created_at) {
        Ordering::Greater
    } else {
        Ordering::Equal
    }
}

/// `itertools::Itertools::sorted_by` with `compare_created_at` as the
/// order. It sorts with the stable sort of slices: the result holds the
/// same watches in ascending order, equal ones in their old order.
#[verifier::external_body]
fn sorted_by_created_at(watches: Vec<WatchFull>) -> (r: Vec<WatchFull>)
    ensures
        r@ == oldest_first(watches@, created()),
{
    itertools::Itertools::sorted_by(watches.into_iter(), |a, b| compare_created_at(a, b)).collect()
}

/// The aggregator's memory.
pub struct WatchStateSync {
    watches: HashMap<i64, Watch>,
    document_counts: HashMap<i64, u32>,
    reports: HashMap<i64, JobReport>,
}

impl WatchStateSync {
    #[verifier::type_invariant]
    spec fn inv(&self) -> bool {
        keyed_by_id(self.watches@) && keyed_by_watch(self.reports@)
    }

    /// The known watches, by identifier.
    pub closed spec fn watches(&self) -> Map<i64, Watch> {
        self.watches@
    }

    /// The number of documents of each watch that has one.
    pub closed spec fn document_counts(&self) -> Map<i64, u32> {
        self.document_counts@
    }

    /// The report of the job under way on each watch.
    pub closed spec fn reports(&self) -> Map<i64, JobReport> {
        self.reports@
    }

    /// An aggregator that knows nothing yet.
    pub fn new() -> (r: Self)
        ensures
            r.watches() == Map::<i64, Watch>::empty(),
            r.document_counts() == Map::<i64, u32>::empty(),
            r.reports() == Map::<i64, JobReport>::empty(),
    {
        WatchStateSync {
            watches: HashMap::new(),
            document_counts: HashMap::new(),
            reports: HashMap::new(),
        }
    }

    /// Takes in a watch found in the store at startup, with the number of
    /// documents that the index holds under its path.
    pub fn load_watch(self, watch: Watch, document_count: u32) -> (r: Self)
        ensures
            r.watches() == self.watches().insert(watch.id.0, watch),
            r.document_counts() == self.document_counts().insert(watch.id.0, document_count),
            r.reports() == self.reports(),
    {
        proof {
            use_type_invariant(&self);
        }
        let WatchStateSync { mut watches, mut document_counts, reports } = self;
        let id = watch.id.0;
        watches.insert(id, watch);
        document_counts.insert(id, document_count);
        WatchStateSync { watches, document_counts, reports }
    }

    /// The number of documents counted for `watch_id`, if it has a count.
    pub fn document_count(&self, watch_id: i64) -> (r: Option<u32>)
        ensures
            match r {
                Some(n) => self.document_counts().contains_key(watch_id)
                    && self.document_counts()[watch_id] == n,
                None => !self.document_counts().contains_key(watch_id),
            },
    {
        match self.document_counts.get(&watch_id) {
            Some(n) => Some(*n),
            None => None,
        }
    }

    /// Takes in what happened to a watch or to its job.
    pub fn on_watch_event(self, event: WatchEvent) -> (r: Self)
        ensures
            r.watches() == watches_after(self.watches(), event),
            r.reports() == reports_after(self.reports(), event),
            r.document_counts() == counts_after(self.document_counts(), event),
    {
        proof {
            use_type_invariant(&self);
        }
        let WatchStateSync { mut watches, mut document_counts, mut reports } = self;
        match event {
            WatchEvent::AddWatchQueued { watch }
            | WatchEvent::AddWatchStarted { watch }
            | WatchEvent::DeleteWatchQueued { watch }
            | WatchEvent::DeleteWatchStarted { watch }
            | WatchEvent::SyncWatchQueued { watch }
            | WatchEvent::SyncWatchStarted { watch } => {
                let id = watch.id.0;
                watches.insert(id, watch);
            },
            WatchEvent::AddWatchProgressed { report }
            | WatchEvent::DeleteWatchProgressed { report }
            | WatchEvent::SyncWatchProgressed { report } => {
                let id = report.watch.id.0;
                reports.insert(id, report);
            },
            WatchEvent::AddWatchFinished { watch, report }
            | WatchEvent::SyncWatchFinished { watch, report } => {
                let id = watch.id.0;
                watches.insert(id, watch);
                document_counts.insert(id, report.progress.done);
                reports.remove(&id);
            },
            WatchEvent::DeleteWatchFinished { watch } => {
                let id = watch.id.0;
                watches.remove(&id);
                reports.remove(&id);
            },
        }
        WatchStateSync { watches, document_counts, reports }
    }

    /// Takes in a change to one document. A count that stands at the
    /// largest number a count can hold cannot take one more document.
    pub fn on_document_event(self, event: &DocumentEvent) -> (r: Self)
        requires
            event matches DocumentEvent::DocumentAdded(document) ==> (
            self.document_counts().contains_key(document.watch_id.0)
                ==> self.document_counts()[document.watch_id.0] < u32::MAX),
        ensures
            r.watches() == self.watches(),
            r.reports() == self.reports(),
            r.document_counts() == counts_after_document(self.document_counts(), *event),
    {
        proof {
            use_type_invariant(&self);
        }
        let WatchStateSync { watches, mut document_counts, reports } = self;
        match event {
            DocumentEvent::DocumentAdded(document) => {
                let id = document.watch_id.0;
                let found = match document_counts.get(&id) {
                    Some(n) => Some(*n),
                    None => None,
                };
                match found {
                    Some(n) => {
                        document_counts.insert(id, n + 1);
                    },
                    None => {},
                }
            },
            DocumentEvent::DocumentUpdated(_) => {},
            DocumentEvent::DocumentDeleted(document) => {
                let id = document.watch_id.0;
                let found = match document_counts.get(&id) {
                    Some(n) => Some(*n),
                    None => None,
                };
                match found {
                    Some(n) => if n > 0 {
                        document_counts.insert(id, n - 1);
                    },
                    None => {},
                }
            },
        }
        WatchStateSync { watches, document_counts, reports }
    }

    /// Every known watch with its count, as the map hands them out.
    fn full_watches(&self) -> (r: Vec<WatchFull>)
        ensures
            exists|walk: Seq<(i64, Watch)>|
                walk_of(walk, self.watches()) && r@ == counted(walk, self.document_counts()),
    {
        let mut out: Vec<WatchFull> = Vec::new();
        for pair in iter: self.watches.iter()
            invariant
                out@.len() == iter.index(),
                iter.seq() == spec_hash_map_iter(&self.watches).remaining(),
                forall|i: int|
                    0 <= i < out@.len() ==> out@[i] == full(
                        *iter.seq()[i].1,
                        count_of(self.document_counts@, *iter.seq()[i].1),
                    ),
        {
            let watch = pair.1.clone();
            let count = match self.document_counts.get(&watch.id.0) {
                Some(n) => *n,
                None => 0,
            };
            out.push(WatchFull::from_watch(watch, count));
        }
        proof {
            let v = spec_hash_map_iter(&self.watches).remaining();
            let walk = Seq::new(v.len(), |i: int| (*v[i].0, *v[i].1));
            lemma_walk(v, walk, self.watches@);
            assert(out@ =~= counted(walk, self.document_counts()));
        }
        out
    }

    /// The live reports, as the map hands them out.
    fn live_reports(&self) -> (r: Vec<JobReport>)
        ensures
            exists|walk: Seq<(i64, JobReport)>|
                walk_of(walk, self.reports()) && r@ == reports_of(walk),
    {
        let mut out: Vec<JobReport> = Vec::new();
        for pair in iter: self.reports.iter()
            invariant
                out@.len() == iter.index(),
                iter.seq() == spec_hash_map_iter(&self.reports).remaining(),
                forall|i: int| 0 <= i < out@.len() ==> out@[i] == *iter.seq()[i].1,
        {
            out.push(pair.1.clone());
        }
        proof {
            let v = spec_hash_map_iter(&self.reports).remaining();
            let walk = Seq::new(v.len(), |i: int| (*v[i].0, *v[i].1));
            lemma_walk(v, walk, self.reports@);
            assert(out@ =~= reports_of(walk));
        }
        out
    }

    /// The snapshot to publish: every known watch once, with its count,
    /// oldest first; and the live reports, one for each watch that has
    /// one. Watches of one age, and the reports, come in the order in
    /// which the maps hand them out.
    pub fn state(&self) -> (r: WatchState)
        ensures
            shows_watches(r.watches@, self.watches(), self.document_counts()),
            shows_reports(r.job_reports@, self.reports()),
            exists|walk: Seq<(i64, Watch)>|
                walk_of(walk, self.watches()) && r.watches@ == oldest_first(
                    counted(walk, self.document_counts()),
                    created(),
                ),
            exists|walk: Seq<(i64, JobReport)>|
                walk_of(walk, self.reports()) && r.job_reports@ == reports_of(walk),
            keyed_by_id(self.watches()),
            keyed_by_watch(self.reports()),
    {
        proof {
            use_type_invariant(self);
        }
        let unsorted = self.full_watches();
        let watches = sorted_by_created_at(unsorted);
        let job_reports = self.live_reports();
        proof {
            let walk = choose|walk: Seq<(i64, Watch)>|
                walk_of(walk, self.watches()) && unsorted@ == counted(
                    walk,
                    self.document_counts(),
                );
            lemma_oldest_first(unsorted@, created());
            lemma_shown_once(watches@, walk, self.watches(), self.document_counts());
            let told = choose|told: Seq<(i64, JobReport)>|
                walk_of(told, self.reports()) && job_reports@ == reports_of(told);
            assert(shows_reports(job_reports@, self.reports())) by {
                assert forall|i: int| 0 <= i < job_reports@.len() implies self.reports().contains_key(
                    (#[trigger] job_reports@[i]).watch.id.0,
                ) && job_reports@[i] == self.reports()[job_reports@[i].watch.id.0] by {
                    assert(self.reports().contains_key(told[i].0));
                }
                assert forall|i: int, j: int| 0 <= i < j < job_reports@.len() implies (
                #[trigger] job_reports@[i]).watch.id != (#[trigger] job_reports@[j]).watch.id by {
                    assert(self.reports().contains_key(told[i].0));
                    assert(self.reports().contains_key(told[j].0));
                    assert(told[i].0 != told[j].0);
                }
            }
        }
        WatchState { watches, job_reports }
    }

    /// The first snapshot, published once the watches and their counts
    /// have been loaded and before any event: like every snapshot it
    /// holds every known watch once, with its count, oldest first.
    pub fn initial_state(&self) -> (r: WatchState)
        ensures
            shows_watches(r.watches@, self.watches(), self.document_counts()),
            shows_reports(r.job_reports@, self.reports()),
            exists|walk: Seq<(i64, Watch)>|
                walk_of(walk, self.watches()) && r.watches@ == oldest_first(
                    counted(walk, self.document_counts()),
                    created(),
                ),
            exists|walk: Seq<(i64, JobReport)>|
                walk_of(walk, self.reports()) && r.job_reports@ == reports_of(walk),
    {
        self.state()
    }
}

/// A sequence that holds the same watches as a walk of the map, each as
/// often, and is in ascending order shows the watches of the map.
proof fn lemma_shown_once(
    shown: Seq<WatchFull>,
    walk: Seq<(i64, Watch)>,
    watches: Map<i64, Watch>,
    counts: Map<i64, u32>,
)
    requires
        walk_of(walk, watches),
        keyed_by_id(watches),
        ascending(shown, created()),
        shown.to_multiset() == counted(walk, counts).to_multiset(),
    ensures
        shows_watches(shown, watches, counts),
{
    let unsorted = counted(walk, counts);
    shown.to_multiset_ensures();
    unsorted.to_multiset_ensures();
    assert forall|a: int, b: int| 0 <= a < unsorted.len() && 0 <= b < unsorted.len() && a
        != b implies unsorted[a].id != unsorted[b].id by {
        assert(watches.contains_key(walk[a].0));
        assert(watches.contains_key(walk[b].0));
        if a < b {
            assert(walk[a].0 != walk[b].0);
        } else {
            assert(walk[b].0 != walk[a].0);
        }
    }
    assert(unsorted.no_duplicates());
    unsorted.lemma_multiset_has_no_duplicates();
    shown.lemma_multiset_has_no_duplicates_conv();
    assert forall|i: int| 0 <= i < shown.len() implies watches.contains_key(
        (#[trigger] shown[i]).id.0,
    ) && shown[i] == full(watches[shown[i].id.0], count_of(counts, watches[shown[i].id.0])) by {
        assert(shown.to_multiset().count(shown[i]) > 0);
        assert(unsorted.contains(shown[i]));
        let j = choose|j: int| 0 <= j < unsorted.len() && unsorted[j] == shown[i];
        assert(watches.contains_key(walk[j].0));
    }
    assert forall|i: int, j: int| 0 <= i < j < shown.len() implies (#[trigger] shown[i]).id != (
    #[trigger] shown[j]).id by {
        assert(shown.to_multiset().count(shown[i]) > 0);
        assert(shown.to_multiset().count(shown[j]) > 0);
        assert(unsorted.contains(shown[i]));
        assert(unsorted.contains(shown[j]));
        let a = choose|a: int| 0 <= a < unsorted.len() && unsorted[a] == shown[i];
        let b = choose|b: int| 0 <= b < unsorted.len() && unsorted[b] == shown[j];
        assert(shown[i] != shown[j]);
    }
}

/// What a hash map hands out when it is walked goes through the map.
proof fn lemma_walk<V>(v: Seq<(&i64, &V)>, walk: Seq<(i64, V)>, m: Map<i64, V>)
    requires
        v.no_duplicates(),
        v.len() == m.dom().len(),
        forall|i: int|
            #![trigger m.contains_key(*v[i].0)]
            #![trigger m[*v[i].0]]
            0 <= i < v.len() ==> m.contains_key(*v[i].0) && m[*v[i].0] == *v[i].1,
        forall|k: i64| #[trigger] m.contains_key(k) ==> v.contains((&k, &m[k])),
        walk == Seq::new(v.len(), |i: int| (*v[i].0, *v[i].1)),
    ensures
        walk_of(walk, m),
{
    assert forall|i: int| 0 <= i < walk.len() implies m.contains_key((#[trigger] walk[i]).0)
        && m[walk[i].0] == walk[i].1 by {
        assert(m.contains_key(*v[i].0));
    }
    assert forall|i: int, j: int| 0 <= i < j < walk.len() implies (#[trigger] walk[i]).0 != (
    #[trigger] walk[j]).0 by {
        if walk[i].0 == walk[j].0 {
            assert(m[*v[i].0] == *v[i].1);
            assert(m[*v[j].0] == *v[j].1);
            assert(v[i] == v[j]);
        }
    }
    assert forall|k: i64| #[trigger] m.contains_key(k) implies exists|i: int|
        0 <= i < walk.len() && (#[trigger] walk[i]).0 == k by {
        assert(v.contains((&k, &m[k])));
        let i = choose|i: int| 0 <= i < v.len() && v[i] == (&k, &m[k]);
        assert(walk[i].0 == k);
    }
}

} // verus!
