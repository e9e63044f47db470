//! The update that waits for its installation.

use vstd::prelude::*;

use crate::failure::UpdateError;

verus! {

/// The update that is installed when the launcher exits, with its package; at most
/// one. `U` is the application's own handle of an update.
#[derive(Debug)]
pub struct PendingUpdateData<U>(pub Option<(U, Vec<u8>)>);

impl<U> Default for PendingUpdateData<U> {
    /// Nothing waits at first.
    fn default() -> (res: Self)
        ensures
            res.0 is None,
    {
        PendingUpdateData(None)
    }
}

/// What waits after a download for an update has ended.
pub open spec fn after_enqueue<U>(
    waiting: Option<(U, Vec<u8>)>,
    update: U,
    download: Result<Vec<u8>, UpdateError>,
) -> Option<(U, Vec<u8>)> {
    match download {
        Ok(data) => Some((update, data)),
        Err(_) => waiting,
    }
}

/// What is told of a download for an update that has ended.
pub open spec fn enqueue_result(download: Result<Vec<u8>, UpdateError>) -> Result<
    (),
    UpdateError,
> {
    match download {
        Ok(_) => Ok(()),
        Err(error) => Err(error),
    }
}

/// Lets an update wait for its installation, in place of any that waited before. A
/// failed download leaves what waits as it was.
pub fn enqueue_update_for_installation<U>(
    pending: &mut PendingUpdateData<U>,
    update: U,
    download: Result<Vec<u8>, UpdateError>,
) -> (res: Result<(), UpdateError>)
    ensures
        final(pending).0 == after_enqueue(old(pending).0, update, download),
        res == enqueue_result(download),
{
    match download {
        Ok(data) => {
            pending.0 = Some((update, data));
            Ok(())
        },
        Err(error) => Err(error),
    }
}

/// Lets no update wait any more.
pub fn remove_enqueued_update<U>(pending: &mut PendingUpdateData<U>)
    ensures
        final(pending).0 is None,
{
    pending.0 = None;
}

/// Of several updates only the one that was downloaded last waits; a download that
/// failed takes nothing away.
pub proof fn law_last_download_waits<U>(
    waiting: Option<(U, Vec<u8>)>,
    first: U,
    first_download: Result<Vec<u8>, UpdateError>,
    second: U,
    second_download: Result<Vec<u8>, UpdateError>,
)
    ensures
        ({
            let after = after_enqueue(
                after_enqueue(waiting, first, first_download),
                second,
                second_download,
            );
            match (first_download, second_download) {
                (_, Ok(data)) => after == Some((second, data)),
                (Ok(data), Err(_)) => after == Some((first, data)),
                (Err(_), Err(_)) => after == waiting,
            }
        }),
{
}

/// Letting an update wait fails exactly where its download failed, with the same
/// failure.
pub proof fn law_failed_download_is_told(data: Vec<u8>, error: UpdateError)
    ensures
        enqueue_result(Ok(data)) is Ok,
        enqueue_result(Err(error)) == Err::<(), UpdateError>(error),
{
}

} // verus!
