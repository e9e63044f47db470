//! What can go wrong, and how it is told to the user.

use vstd::prelude::*;

use crate::text::{decimal, decimal_text, joined};

verus! {

/// A refusal or an outside error, with the text `S` that its message quotes.
#[verifier::ext_equal]
#[derive(Debug, PartialEq, Eq)]
pub enum Failure<S> {
    /// The architecture has no Debian package.
    UnsupportedAptArchitecture { arch: S },
    /// The catalog request was answered with a status that is not a success.
    CatalogStatus { status: S },
    /// No catalog entry carries the version.
    VersionNotInCatalog { version: S },
    /// The catalog entry has no Debian installer for the architecture.
    NoDebArtifact { version: S, arch: S },
    /// The Debian installer has no digest to verify it with.
    NoDebSha256 { version: S },
    /// A URL did not parse.
    InvalidUrl { error: S },
    /// The update channel is neither `release` nor `beta`.
    UnknownChannel { channel: S },
    /// No update is published for the platform.
    UnsupportedPlatform { os: S, arch: S },
    /// The path of the running executable could not be had.
    UnresolvedExecutable { error: S },
    /// The running executable lies in no directory.
    ExecutableWithoutParent,
    /// The download request was answered with a status that is not a success.
    DownloadStatus { status: S },
    /// The downloaded package is not as long as the catalog says.
    DebSizeMismatch { expected: u64, got: u64 },
    /// The downloaded package does not have the digest of the catalog.
    DebSha256Mismatch,
    /// The system does not update through apt.
    AptUnavailable,
    /// The package could not be written to its temporary file.
    DebNotWritten { error: S },
    /// The task that runs the installer did not end.
    UpdaterNotRun { error: S },
    /// The privileged installer could not be started.
    PkexecNotStarted { error: S },
    /// The installer ran and reported a failure.
    AptInstallFailed { stderr: S },
}

/// A failure whose texts are owned strings.
pub type UpdateError = Failure<String>;

/// A failure as contracts speak of it.
pub type ErrorView = Failure<Seq<char>>;

/// Where a failure is reported: as trouble with the network, or as any other.
#[derive(Debug, Clone, Copy, PartialEq, Eq, Structural)]
pub enum FailureKind {
    Network,
    Other,
}

impl View for Failure<String> {
    type V = Failure<Seq<char>>;

    open spec fn view(&self) -> Failure<Seq<char>> {
        match self {
            Failure::UnsupportedAptArchitecture { arch } =>
                Failure::UnsupportedAptArchitecture { arch: arch@ },
            Failure::CatalogStatus { status } => Failure::CatalogStatus { status: status@ },
            Failure::VersionNotInCatalog { version } =>
                Failure::VersionNotInCatalog { version: version@ },
            Failure::NoDebArtifact { version, arch } =>
                Failure::NoDebArtifact { version: version@, arch: arch@ },
            Failure::NoDebSha256 { version } => Failure::NoDebSha256 { version: version@ },
            Failure::InvalidUrl { error } => Failure::InvalidUrl { error: error@ },
            Failure::UnknownChannel { channel } => Failure::UnknownChannel { channel: channel@ },
            Failure::UnsupportedPlatform { os, arch } =>
                Failure::UnsupportedPlatform { os: os@, arch: arch@ },
            Failure::UnresolvedExecutable { error } =>
                Failure::UnresolvedExecutable { error: error@ },
            Failure::ExecutableWithoutParent => Failure::ExecutableWithoutParent,
            Failure::DownloadStatus { status } => Failure::DownloadStatus { status: status@ },
            Failure::DebSizeMismatch { expected, got } =>
                Failure::DebSizeMismatch { expected: *expected, got: *got },
            Failure::DebSha256Mismatch => Failure::DebSha256Mismatch,
            Failure::AptUnavailable => Failure::AptUnavailable,
            Failure::DebNotWritten { error } => Failure::DebNotWritten { error: error@ },
            Failure::UpdaterNotRun { error } => Failure::UpdaterNotRun { error: error@ },
            Failure::PkexecNotStarted { error } => Failure::PkexecNotStarted { error: error@ },
            Failure::AptInstallFailed { stderr } => Failure::AptInstallFailed { stderr: stderr@ },
        }
    }
}

/// A result as contracts speak of it: the view of the value, or of the failure.
pub open spec fn outcome<T: View>(res: Result<T, UpdateError>) -> Result<T::V, ErrorView> {
    match res {
        Ok(value) => Ok(value@),
        Err(error) => Err(error@),
    }
}

/// The message that the user reads.
pub open spec fn message_text(failure: ErrorView) -> Seq<char> {
    match failure {
        Failure::UnsupportedAptArchitecture { arch } =>
            "Unsupported architecture for apt updates: "@ + arch,
        Failure::CatalogStatus { status } => "Failed to fetch update catalog: "@ + status,
        Failure::VersionNotInCatalog { version } =>
            "Update catalog has no entry for version "@ + version,
        Failure::NoDebArtifact { version, arch } =>
            "Update catalog has no deb artifact for "@ + version + " on "@ + arch,
        Failure::NoDebSha256 { version } =>
            "Update catalog has no sha256 for the deb artifact of "@ + version,
        Failure::InvalidUrl { error } => error,
        Failure::UnknownChannel { channel } => "Unknown update channel: "@ + channel,
        Failure::UnsupportedPlatform { os, arch } =>
            "Unsupported updater platform: "@ + os + "-"@ + arch,
        Failure::UnresolvedExecutable { error } =>
            "Failed to resolve current executable: "@ + error,
        Failure::ExecutableWithoutParent => "Current executable has no parent directory"@,
        Failure::DownloadStatus { status } => "Download request failed with status: "@ + status,
        Failure::DebSizeMismatch { expected, got } =>
            "Downloaded deb size mismatch: expected "@ + decimal(expected as nat) + ", got "@
                + decimal(got as nat),
        Failure::DebSha256Mismatch => "Downloaded deb sha256 mismatch"@,
        Failure::AptUnavailable =>
            "apt updates are only supported on Debian-based Linux systems with pkexec"@,
        Failure::DebNotWritten { error } => "Failed to write the downloaded deb: "@ + error,
        Failure::UpdaterNotRun { error } => "Failed to run the apt updater: "@ + error,
        Failure::PkexecNotStarted { error } => "Failed to start pkexec: "@ + error,
        Failure::AptInstallFailed { stderr } => "apt install failed: "@ + stderr,
    }
}

/// Only a refused HTTP request is trouble with the network.
pub open spec fn kind_of(failure: ErrorView) -> FailureKind {
    if failure is CatalogStatus || failure is DownloadStatus {
        FailureKind::Network
    } else {
        FailureKind::Other
    }
}

impl Failure<String> {
    /// The message that the user reads.
    pub fn message(&self) -> (res: String)
        ensures
            res@ == message_text(self@),
    {
        match self {
            Failure::UnsupportedAptArchitecture { arch } => joined(
                "Unsupported architecture for apt updates: ",
                arch.as_str(),
            ),
            Failure::CatalogStatus { status } => joined(
                "Failed to fetch update catalog: ",
                status.as_str(),
            ),
            Failure::VersionNotInCatalog { version } => joined(
                "Update catalog has no entry for version ",
                version.as_str(),
            ),
            Failure::NoDebArtifact { version, arch } => {
                let mut text = joined("Update catalog has no deb artifact for ", version.as_str());
                text.append(" on ");
                text.append(arch.as_str());
                text
            },
            Failure::NoDebSha256 { version } => joined(
                "Update catalog has no sha256 for the deb artifact of ",
                version.as_str(),
            ),
            Failure::InvalidUrl { error } => error.clone(),
            Failure::UnknownChannel { channel } => joined(
                "Unknown update channel: ",
                channel.as_str(),
            ),
            Failure::UnsupportedPlatform { os, arch } => {
                let mut text = joined("Unsupported updater platform: ", os.as_str());
                text.append("-");
                text.append(arch.as_str());
                text
            },
            Failure::UnresolvedExecutable { error } => joined(
                "Failed to resolve current executable: ",
                error.as_str(),
            ),
            Failure::ExecutableWithoutParent => "Current executable has no parent directory".to_owned(),
            Failure::DownloadStatus { status } => joined(
                "Download request failed with status: ",
                status.as_str(),
            ),
            Failure::DebSizeMismatch { expected, got } => {
                let mut text = joined(
                    "Downloaded deb size mismatch: expected ",
                    decimal_text(*expected).as_str(),
                );
                text.append(", got ");
                text.append(decimal_text(*got).as_str());
                text
            },
            Failure::DebSha256Mismatch => "Downloaded deb sha256 mismatch".to_owned(),
            Failure::AptUnavailable =>
                "apt updates are only supported on Debian-based Linux systems with pkexec".to_owned(),
            Failure::DebNotWritten { error } => joined(
                "Failed to write the downloaded deb: ",
                error.as_str(),
            ),
            Failure::UpdaterNotRun { error } => joined(
                "Failed to run the apt updater: ",
                error.as_str(),
            ),
            Failure::PkexecNotStarted { error } => joined(
                "Failed to start pkexec: ",
                error.as_str(),
            ),
            Failure::AptInstallFailed { stderr } => joined("apt install failed: ", stderr.as_str()),
        }
    }

    /// Where the failure is reported.
    pub fn kind(&self) -> (res: FailureKind)
        ensures
            res == kind_of(self@),
    {
        match self {
            Failure::CatalogStatus { .. } => FailureKind::Network,
            Failure::DownloadStatus { .. } => FailureKind::Network,
            _ => FailureKind::Other,
        }
    }
}

/// Each message is the text that follows it, behind one and the same lead.
pub open spec fn same_lead(
    first: Seq<char>,
    first_text: Seq<char>,
    second: Seq<char>,
    second_text: Seq<char>,
) -> bool {
    exists|lead: Seq<char>| first == #[trigger] (lead + first_text) && second == lead + second_text
}

/// Each message is its two texts, behind one and the same lead and with one and
/// the same text between them.
pub open spec fn same_frame(
    first: Seq<char>,
    first_texts: (Seq<char>, Seq<char>),
    second: Seq<char>,
    second_texts: (Seq<char>, Seq<char>),
) -> bool {
    exists|lead: Seq<char>, between: Seq<char>|
        first == #[trigger] (lead + first_texts.0 + between + first_texts.1) && second == lead
            + second_texts.0 + between + second_texts.1
}

/// A failure that quotes one text tells it whole at the end of its message, and the
/// lead before it is the same whatever the text. An invalid URL has no lead.
pub proof fn law_message_quotes_the_text(a: Seq<char>, b: Seq<char>)
    ensures
        same_lead(
            message_text(Failure::UnsupportedAptArchitecture { arch: a }),
            a,
            message_text(Failure::UnsupportedAptArchitecture { arch: b }),
            b,
        ),
        same_lead(
            message_text(Failure::CatalogStatus { status: a }),
            a,
            message_text(Failure::CatalogStatus { status: b }),
            b,
        ),
        same_lead(
            message_text(Failure::VersionNotInCatalog { version: a }),
            a,
            message_text(Failure::VersionNotInCatalog { version: b }),
            b,
        ),
        same_lead(
            message_text(Failure::NoDebSha256 { version: a }),
            a,
            message_text(Failure::NoDebSha256 { version: b }),
            b,
        ),
        message_text(Failure::InvalidUrl { error: a }) == a,
        same_lead(
            message_text(Failure::UnknownChannel { channel: a }),
            a,
            message_text(Failure::UnknownChannel { channel: b }),
            b,
        ),
        same_lead(
            message_text(Failure::UnresolvedExecutable { error: a }),
            a,
            message_text(Failure::UnresolvedExecutable { error: b }),
            b,
        ),
        same_lead(
            message_text(Failure::DownloadStatus { status: a }),
            a,
            message_text(Failure::DownloadStatus { status: b }),
            b,
        ),
        same_lead(
            message_text(Failure::DebNotWritten { error: a }),
            a,
            message_text(Failure::DebNotWritten { error: b }),
            b,
        ),
        same_lead(
            message_text(Failure::UpdaterNotRun { error: a }),
            a,
            message_text(Failure::UpdaterNotRun { error: b }),
            b,
        ),
        same_lead(
            message_text(Failure::PkexecNotStarted { error: a }),
            a,
            message_text(Failure::PkexecNotStarted { error: b }),
            b,
        ),
        same_lead(
            message_text(Failure::AptInstallFailed { stderr: a }),
            a,
            message_text(Failure::AptInstallFailed { stderr: b }),
            b,
        ),
{
}

/// A failure that quotes two texts tells both whole, in their order, the second at
/// the end of its message; what stands before and between them is the same whatever
/// the texts.
pub proof fn law_message_quotes_both_texts(
    a: (Seq<char>, Seq<char>),
    b: (Seq<char>, Seq<char>),
)
    ensures
        same_frame(
            message_text(Failure::NoDebArtifact { version: a.0, arch: a.1 }),
            a,
            message_text(Failure::NoDebArtifact { version: b.0, arch: b.1 }),
            b,
        ),
        same_frame(
            message_text(Failure::UnsupportedPlatform { os: a.0, arch: a.1 }),
            a,
            message_text(Failure::UnsupportedPlatform { os: b.0, arch: b.1 }),
            b,
        ),
{
}

/// A failed comparison of sizes tells both sizes as decimal numerals, the expected
/// one first; what stands before and between them is the same whatever the sizes.
pub proof fn law_message_tells_both_sizes(a: (u64, u64), b: (u64, u64))
    ensures
        same_frame(
            message_text(Failure::DebSizeMismatch { expected: a.0, got: a.1 }),
            (decimal(a.0 as nat), decimal(a.1 as nat)),
            message_text(Failure::DebSizeMismatch { expected: b.0, got: b.1 }),
            (decimal(b.0 as nat), decimal(b.1 as nat)),
        ),
{
    let lead = "Downloaded deb size mismatch: expected "@;
    let texts = (decimal(a.0 as nat), decimal(a.1 as nat));
    assert(message_text(Failure::DebSizeMismatch { expected: a.0, got: a.1 }) == lead + texts.0
        + ", got "@ + texts.1);
}

/// A failure is trouble with the network exactly where a request was answered with
/// a status that is not a success, of the catalog or of a package.
pub proof fn law_network_trouble(failure: ErrorView)
    ensures
        kind_of(failure) == FailureKind::Network ==> failure is CatalogStatus
            || failure is DownloadStatus,
        failure is CatalogStatus ==> kind_of(failure) == FailureKind::Network,
        failure is DownloadStatus ==> kind_of(failure) == FailureKind::Network,
{
}

} // verus!
