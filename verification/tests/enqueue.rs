use launcher_updater::catalog::{ArtifactEntry, VersionEntry, VersionsResponse};
use launcher_updater::download::Progress;
use launcher_updater::enqueue::{advance, start_download, EnqueueEvent, EnqueueStep};
use launcher_updater::failure::{Failure, UpdateError};
use launcher_updater::pending::{enqueue_update_for_installation, PendingUpdateData};

const ABC: &str = "ba7816bf8f01cfea414140de5dae2223b00361a396177a9cb410ff61f20015ad";

fn catalog(version: &str) -> EnqueueEvent {
    EnqueueEvent::Catalog(VersionsResponse {
        versions: vec![VersionEntry {
            version: version.to_string(),
            artifacts: vec![ArtifactEntry {
                kind: "installer".to_string(),
                variant: Some("deb".to_string()),
                platform: "linux".to_string(),
                architecture: "x86_64".to_string(),
                relative_path: "app.deb".to_string(),
                sha256: Some(ABC.to_string()),
                size: 3,
            }],
        }],
    })
}

fn run(apt_linux: bool, events: Vec<EnqueueEvent>) -> EnqueueStep {
    let mut step = start_download(apt_linux);
    for event in events {
        step = advance(step, event, "2.0", "x86_64");
    }
    step
}

fn response(code: u16) -> EnqueueEvent {
    EnqueueEvent::Response { code, content_length: None }
}

fn chunk(bytes: &[u8]) -> EnqueueEvent {
    EnqueueEvent::Chunk(bytes.to_vec())
}

fn stored(step: EnqueueStep) -> Option<Vec<u8>> {
    match step {
        EnqueueStep::Store(data) => Some(data),
        _ => None,
    }
}

fn failure(step: EnqueueStep) -> Option<UpdateError> {
    match step {
        EnqueueStep::Failed(error) => Some(error),
        _ => None,
    }
}

#[test]
fn a_smooth_catalog_download_is_stored() {
    let events =
        vec![catalog("2.0"), response(200), chunk(b"a"), chunk(b"bc"), EnqueueEvent::EndOfResponse];
    assert_eq!(stored(run(true, events)), Some(b"abc".to_vec()));
}

#[test]
fn tampered_bytes_are_never_stored() {
    let events =
        vec![catalog("2.0"), response(200), chunk(b"abx"), EnqueueEvent::EndOfResponse];
    assert_eq!(failure(run(true, events)), Some(Failure::DebSha256Mismatch));
    let events = vec![
        EnqueueEvent::SignedPackage(b"evil".to_vec()),
        catalog("2.0"),
        EnqueueEvent::SignedPackage(b"evil".to_vec()),
        response(200),
        EnqueueEvent::SignedPackage(b"evil".to_vec()),
        chunk(b"ab"),
        EnqueueEvent::EndOfResponse,
        EnqueueEvent::SignedPackage(b"evil".to_vec()),
    ];
    assert_eq!(
        failure(run(true, events)),
        Some(Failure::DebSizeMismatch { expected: 3, got: 2 })
    );
}

#[test]
fn the_package_is_requested_after_the_catalog() {
    match run(true, vec![catalog("2.0")]) {
        EnqueueStep::Request(asset) => {
            assert_eq!(asset.url, "https://update.axlmc.org/app.deb");
            assert_eq!(asset.sha256, ABC);
            assert_eq!(asset.size, 3);
        }
        _ => panic!(),
    }
}

#[test]
fn a_catalog_without_the_version_fails() {
    assert_eq!(
        failure(run(true, vec![catalog("1.9")])),
        Some(Failure::VersionNotInCatalog { version: "2.0".to_string() })
    );
}

#[test]
fn a_refused_package_request_fails() {
    assert_eq!(
        failure(run(true, vec![catalog("2.0"), response(502)])),
        Some(Failure::DownloadStatus { status: "502 Bad Gateway".to_string() })
    );
}

#[test]
fn received_bytes_are_kept_in_order() {
    match run(true, vec![catalog("2.0"), response(206), chunk(b"12"), chunk(b"3")]) {
        EnqueueStep::Receive(download) => {
            assert_eq!(download.received(), b"123");
            assert_eq!(download.progress(), Some(Progress { done: 3, total: 3 }));
        }
        _ => panic!(),
    }
}

#[test]
fn a_signed_package_is_stored_as_it_is() {
    let events = vec![chunk(b"x"), EnqueueEvent::SignedPackage(b"signed".to_vec())];
    assert_eq!(stored(run(false, events)), Some(b"signed".to_vec()));
}

#[test]
fn other_events_change_nothing() {
    assert!(matches!(run(true, vec![response(200)]), EnqueueStep::FetchCatalog));
    assert!(matches!(run(true, vec![catalog("2.0"), chunk(b"a")]), EnqueueStep::Request(_)));
    assert!(matches!(run(false, vec![catalog("2.0")]), EnqueueStep::SignedDownload));
}

#[test]
fn what_waits_after_a_run_is_what_it_stored() {
    let events = vec![catalog("2.0"), response(200), chunk(b"abc"), EnqueueEvent::EndOfResponse];
    let data = stored(run(true, events)).unwrap();
    let mut pending = PendingUpdateData(Some(("1.0", vec![1])));
    assert_eq!(enqueue_update_for_installation(&mut pending, "2.0", Ok(data)), Ok(()));
    assert_eq!(pending.0, Some(("2.0", b"abc".to_vec())));
}
