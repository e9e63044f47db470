use launcher_updater::failure::{Failure, FailureKind, UpdateError};

fn owned(text: &str) -> String {
    text.to_string()
}

#[test]
fn every_failure_has_its_message() {
    let cases: Vec<(UpdateError, &str)> = vec![
        (
            Failure::UnsupportedAptArchitecture { arch: owned("riscv64") },
            "Unsupported architecture for apt updates: riscv64",
        ),
        (
            Failure::CatalogStatus { status: owned("503 Service Unavailable") },
            "Failed to fetch update catalog: 503 Service Unavailable",
        ),
        (
            Failure::VersionNotInCatalog { version: owned("1.2.3") },
            "Update catalog has no entry for version 1.2.3",
        ),
        (
            Failure::NoDebArtifact { version: owned("1.2.3"), arch: owned("x86_64") },
            "Update catalog has no deb artifact for 1.2.3 on x86_64",
        ),
        (
            Failure::NoDebSha256 { version: owned("1.2.3") },
            "Update catalog has no sha256 for the deb artifact of 1.2.3",
        ),
        (Failure::InvalidUrl { error: owned("empty host") }, "empty host"),
        (
            Failure::UnknownChannel { channel: owned("nightly") },
            "Unknown update channel: nightly",
        ),
        (
            Failure::UnsupportedPlatform { os: owned("freebsd"), arch: owned("x86_64") },
            "Unsupported updater platform: freebsd-x86_64",
        ),
        (
            Failure::UnresolvedExecutable { error: owned("denied") },
            "Failed to resolve current executable: denied",
        ),
        (
            Failure::ExecutableWithoutParent,
            "Current executable has no parent directory",
        ),
        (
            Failure::DownloadStatus { status: owned("404 Not Found") },
            "Download request failed with status: 404 Not Found",
        ),
        (
            Failure::DebSizeMismatch { expected: 120, got: 7 },
            "Downloaded deb size mismatch: expected 120, got 7",
        ),
        (Failure::DebSha256Mismatch, "Downloaded deb sha256 mismatch"),
        (
            Failure::AptUnavailable,
            "apt updates are only supported on Debian-based Linux systems with pkexec",
        ),
        (
            Failure::DebNotWritten { error: owned("disk full") },
            "Failed to write the downloaded deb: disk full",
        ),
        (
            Failure::UpdaterNotRun { error: owned("cancelled") },
            "Failed to run the apt updater: cancelled",
        ),
        (
            Failure::PkexecNotStarted { error: owned("not found") },
            "Failed to start pkexec: not found",
        ),
        (
            Failure::AptInstallFailed { stderr: owned("E: broken") },
            "apt install failed: E: broken",
        ),
    ];
    for (failure, message) in cases {
        assert_eq!(failure.message(), message);
    }
}

#[test]
fn only_refused_requests_are_network_failures() {
    let catalog: UpdateError = Failure::CatalogStatus { status: owned("500") };
    let download: UpdateError = Failure::DownloadStatus { status: owned("500") };
    let other: UpdateError = Failure::DebSha256Mismatch;
    assert_eq!(catalog.kind(), FailureKind::Network);
    assert_eq!(download.kind(), FailureKind::Network);
    assert_eq!(other.kind(), FailureKind::Other);
}
