use launcher_updater::failure::{Failure, UpdateError};
use launcher_updater::pending::{
    enqueue_update_for_installation, remove_enqueued_update, PendingUpdateData,
};

#[test]
fn nothing_waits_at_first() {
    let pending: PendingUpdateData<u32> = PendingUpdateData::default();
    assert_eq!(pending.0, None);
}

#[test]
fn the_last_download_waits() {
    let mut pending = PendingUpdateData::default();
    assert_eq!(enqueue_update_for_installation(&mut pending, "1.0", Ok(vec![1])), Ok(()));
    assert_eq!(pending.0, Some(("1.0", vec![1])));
    assert_eq!(enqueue_update_for_installation(&mut pending, "2.0", Ok(vec![2, 2])), Ok(()));
    assert_eq!(pending.0, Some(("2.0", vec![2, 2])));
}

#[test]
fn a_failed_download_takes_nothing_away() {
    let mut pending = PendingUpdateData(Some(("1.0", vec![1])));
    let failed: Result<Vec<u8>, UpdateError> = Err(Failure::DebSha256Mismatch);
    assert_eq!(
        enqueue_update_for_installation(&mut pending, "2.0", failed),
        Err(Failure::DebSha256Mismatch)
    );
    assert_eq!(pending.0, Some(("1.0", vec![1])));
}

#[test]
fn a_removed_update_waits_no_more() {
    let mut pending = PendingUpdateData(Some(("1.0", vec![1])));
    remove_enqueued_update(&mut pending);
    assert_eq!(pending.0, None);
    remove_enqueued_update(&mut pending);
    assert_eq!(pending.0, None);
}
