use jomai::time::Timestamp;
use jomai::watch_repository::find_by_id;
use jomai::watch_repository::find_by_path;
use jomai::watch_repository::find_containing_path;
use jomai::watch_service::add_watch_steps;
use jomai::watch_service::check_new_watch;
use jomai::watch_service::delete_watch_steps;
use jomai::watch_service::new_watch_row;
use jomai::watch_service::AddWatchError;
use jomai::watch_service::WatchServiceStep;
use jomai::watch_state_sync::WatchEvent;
use jomai::watches::Watch;
use jomai::watches::WatchId;
use jomai::watches::WatchStatus;

fn watch(id: i64, path: &str) -> Watch {
    Watch {
        id: WatchId(id),
        path: path.to_string(),
        status: WatchStatus::Active,
        created_at: Timestamp { secs: id, nanos: 0 },
    }
}

#[test]
fn parent_and_child_are_refused() {
    let watches = vec![watch(1, "/w")];
    assert_eq!(check_new_watch("/w/sub", &watches), Err(AddWatchError::ParentChildRelationship));
    assert_eq!(check_new_watch("/", &watches), Err(AddWatchError::ParentChildRelationship));
}

#[test]
fn an_existing_watch_is_refused() {
    let watches = vec![watch(1, "/w"), watch(2, "/v/x")];
    assert_eq!(check_new_watch("/w", &watches), Err(AddWatchError::WatchAlreadyExists));
    assert_eq!(check_new_watch("/w/", &watches), Err(AddWatchError::WatchAlreadyExists));
    assert_eq!(check_new_watch("/v/./x", &watches), Err(AddWatchError::WatchAlreadyExists));
}

#[test]
fn existing_goes_before_related() {
    let watches = vec![watch(1, "/w/sub"), watch(2, "/w")];
    assert_eq!(check_new_watch("/w", &watches), Err(AddWatchError::WatchAlreadyExists));
}

#[test]
fn a_watch_beside_the_others_is_accepted() {
    let watches = vec![watch(1, "/w"), watch(2, "/v/x")];
    assert_eq!(check_new_watch("/w2", &watches), Ok(()));
    assert_eq!(check_new_watch("/v/y", &watches), Ok(()));
    assert_eq!(check_new_watch("/anything", &Vec::new()), Ok(()));
}

#[test]
fn steps_of_adding_a_watch() {
    let w = watch(7, "/w");
    assert_eq!(
        add_watch_steps(&w),
        vec![
            WatchServiceStep::WatchDirectory,
            WatchServiceStep::EnqueueScan(WatchId(7)),
            WatchServiceStep::Emit(WatchEvent::AddWatchQueued { watch: w.clone() }),
        ]
    );
}

#[test]
fn steps_of_deleting_a_watch() {
    let w = watch(7, "/w");
    assert_eq!(delete_watch_steps(None), Vec::new());
    assert_eq!(
        delete_watch_steps(Some(&w)),
        vec![
            WatchServiceStep::UpdateStatus(WatchId(7), WatchStatus::Deleting),
            WatchServiceStep::UnwatchDirectory,
            WatchServiceStep::EnqueueDelete(WatchId(7)),
            WatchServiceStep::Emit(WatchEvent::DeleteWatchQueued { watch: w.deleting() }),
        ]
    );
    assert_eq!(w.deleting().status, WatchStatus::Deleting);
    assert_eq!(w.active().status, WatchStatus::Active);
    assert_eq!(w.deleting().path, "/w");
}

#[test]
fn the_first_watch_that_holds_a_path_is_found() {
    let watches = vec![watch(1, "/w"), watch(2, "/v"), watch(3, "/w/deep")];
    assert_eq!(find_containing_path(&watches, "/w/a.md").map(|w| w.id), Some(WatchId(1)));
    assert_eq!(find_containing_path(&watches, "/v/x/a.md").map(|w| w.id), Some(WatchId(2)));
    assert_eq!(find_containing_path(&watches, "/w/deep/a.md").map(|w| w.id), Some(WatchId(1)));
    assert_eq!(find_containing_path(&watches, "/u/a.md"), None);
    let accented = vec![watch(4, "/caf\u{e9}")];
    assert_eq!(
        find_containing_path(&accented, "/cafe\u{301}/a.md").map(|w| w.id),
        Some(WatchId(4))
    );
}

#[test]
fn a_watch_is_found_by_path_and_by_id() {
    let watches = vec![watch(1, "/w"), watch(2, "/caf\u{e9}")];
    assert_eq!(find_by_path(&watches, "/w").map(|w| w.id), Some(WatchId(1)));
    assert_eq!(find_by_path(&watches, "/cafe\u{301}").map(|w| w.id), Some(WatchId(2)));
    assert_eq!(find_by_path(&watches, "/w/a"), None);
    assert_eq!(find_by_id(&watches, WatchId(2)).map(|w| w.path.clone()), Some("/caf\u{e9}".to_string()));
    assert_eq!(find_by_id(&watches, WatchId(3)), None);
}

#[test]
fn statuses_are_read_from_their_names() {
    assert_eq!(WatchStatus::from_str("active"), Ok(WatchStatus::Active));
    assert_eq!(WatchStatus::from_str("adding"), Ok(WatchStatus::Adding));
    assert_eq!(WatchStatus::from_str("deleting"), Ok(WatchStatus::Deleting));
    assert_eq!(WatchStatus::from_str("Active"), Err(()));
    assert_eq!(WatchStatus::from_str(""), Err(()));
    assert_eq!(WatchStatus::Deleting.as_str(), "deleting");
    assert_eq!(WatchStatus::from_str(WatchStatus::Adding.as_str()), Ok(WatchStatus::Adding));
    let row = Watch::from_row(3, "/w".to_string(), "adding", Timestamp { secs: 5, nanos: 6 });
    assert_eq!(row.id, WatchId(3));
    assert_eq!(row.status, WatchStatus::Adding);
    assert_eq!(row.created_at, Timestamp { secs: 5, nanos: 6 });
}

#[test]
fn a_watch_holds_a_path_by_whole_components() {
    let watches = vec![watch(1, "/w"), watch(2, "/notes/2024")];
    assert_eq!(find_containing_path(&watches, "/w2/a.md"), None);
    assert_eq!(find_containing_path(&watches, "/wa.md"), None);
    assert_eq!(find_containing_path(&watches, "/notes/20245/a.md"), None);
    assert_eq!(find_containing_path(&watches, "/notes/2024/a.md").map(|w| w.id), Some(WatchId(2)));
    assert_eq!(find_containing_path(&watches, "/w").map(|w| w.id), Some(WatchId(1)));
    let later = vec![watch(1, "/w"), watch(5, "/w2")];
    assert_eq!(find_containing_path(&later, "/w2/a.md").map(|w| w.id), Some(WatchId(5)));
}

#[test]
fn a_new_watch_is_checked_under_its_stored_spelling() {
    let watches = vec![watch(1, "/caf\u{e9}"), watch(2, "/v/\u{30ac}")];
    assert_eq!(
        check_new_watch("/cafe\u{301}", &watches),
        Err(AddWatchError::WatchAlreadyExists)
    );
    assert_eq!(
        check_new_watch("/cafe\u{301}/sub", &watches),
        Err(AddWatchError::ParentChildRelationship)
    );
    assert_eq!(
        check_new_watch("/v/\u{30ab}\u{3099}", &watches),
        Err(AddWatchError::WatchAlreadyExists)
    );
    assert_eq!(
        check_new_watch("/v/\u{30ab}\u{3099}/deep/er", &watches),
        Err(AddWatchError::ParentChildRelationship)
    );
    assert_eq!(check_new_watch("/cafe", &watches), Ok(()));
}

#[test]
fn a_new_watch_is_stored_under_its_key_as_adding() {
    assert_eq!(new_watch_row("/cafe\u{301}"), ("/caf\u{e9}".to_string(), WatchStatus::Adding));
    assert_eq!(new_watch_row("/w"), ("/w".to_string(), WatchStatus::Adding));
    assert_eq!(new_watch_row("/w").1.as_str(), "adding");
}
