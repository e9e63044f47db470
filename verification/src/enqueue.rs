//! Downloading the package of an update, from the catalog or signed.

use vstd::prelude::*;

use crate::catalog::{
    deb_asset, fetch_apt_deb_asset, AptDebAsset, AptDebAssetView, VersionsResponse,
};
use crate::download::{
    after_chunk, after_chunks, law_chunks_are_concatenated, sha256, started, verdict, DebDownload,
    DebDownloadView, MAX_DIGESTED_LEN,
};
use crate::endpoint::on_server;
use crate::failure::{ErrorView, Failure, UpdateError};
use crate::pending::after_enqueue;
use crate::request::{check_download_status, download_granted, is_success, status_line};
use crate::text::hex;

verus! {

/// What the application has to do next.
#[derive(Debug)]
pub enum EnqueueStep {
    /// Fetch the catalog.
    FetchCatalog,
    /// Request the update's package; the catalog vouches for this one.
    Request(AptDebAsset),
    /// Receive more of the response.
    Receive(DebDownload),
    /// Let the updater download its signed package.
    SignedDownload,
    /// Let these bytes wait for their installation.
    Store(Vec<u8>),
    /// Report this failure.
    Failed(UpdateError),
}

/// A step as contracts speak of it.
#[verifier::ext_equal]
pub enum EnqueueStepView {
    FetchCatalog,
    Request(AptDebAssetView),
    Receive(DebDownloadView),
    SignedDownload,
    Store(Seq<u8>),
    Failed(ErrorView),
}

impl View for EnqueueStep {
    type V = EnqueueStepView;

    open spec fn view(&self) -> EnqueueStepView {
        match self {
            EnqueueStep::FetchCatalog => EnqueueStepView::FetchCatalog,
            EnqueueStep::Request(asset) => EnqueueStepView::Request(asset@),
            EnqueueStep::Receive(download) => EnqueueStepView::Receive(download@),
            EnqueueStep::SignedDownload => EnqueueStepView::SignedDownload,
            EnqueueStep::Store(data) => EnqueueStepView::Store(data@),
            EnqueueStep::Failed(error) => EnqueueStepView::Failed(error@),
        }
    }
}

/// What came of a step.
#[derive(Debug)]
pub enum EnqueueEvent {
    /// The catalog was fetched.
    Catalog(VersionsResponse),
    /// The package request was answered, with this status and told length.
    Response { code: u16, content_length: Option<u64> },
    /// Some bytes of the package came.
    Chunk(Vec<u8>),
    /// The response has no more bytes.
    EndOfResponse,
    /// The updater has downloaded its package and validated the signature.
    SignedPackage(Vec<u8>),
}

/// The first step: where apt is in charge, the package carries no signature and
/// has to be vouched for by the catalog.
pub open spec fn first_step(apt_linux: bool) -> EnqueueStepView {
    if apt_linux {
        EnqueueStepView::FetchCatalog
    } else {
        EnqueueStepView::SignedDownload
    }
}

/// The first step to download the package of an update.
pub fn start_download(apt_linux: bool) -> (res: EnqueueStep)
    ensures
        res@ == first_step(apt_linux),
{
    if apt_linux {
        EnqueueStep::FetchCatalog
    } else {
        EnqueueStep::SignedDownload
    }
}

/// The step after an event, for an update of this version on this architecture. An
/// event that answers another step changes nothing.
pub open spec fn next_step(
    step: EnqueueStepView,
    event: EnqueueEvent,
    version: Seq<char>,
    arch: Seq<char>,
) -> EnqueueStepView {
    match (step, event) {
        (EnqueueStepView::FetchCatalog, EnqueueEvent::Catalog(catalog)) => match deb_asset(
            catalog.versions@,
            version,
            arch,
        ) {
            Ok(asset) => EnqueueStepView::Request(asset),
            Err(error) => EnqueueStepView::Failed(error),
        },
        (
            EnqueueStepView::Request(asset),
            EnqueueEvent::Response { code, content_length },
        ) => match download_granted(code) {
            Ok(_) => EnqueueStepView::Receive(started(asset, content_length)),
            Err(error) => EnqueueStepView::Failed(error),
        },
        (EnqueueStepView::Receive(download), EnqueueEvent::Chunk(chunk)) =>
            EnqueueStepView::Receive(after_chunk(download, chunk@)),
        (EnqueueStepView::Receive(download), EnqueueEvent::EndOfResponse) => match verdict(
            download.received,
            sha256(download.received),
            download.asset,
        ) {
            Ok(data) => EnqueueStepView::Store(data),
            Err(error) => EnqueueStepView::Failed(error),
        },
        (EnqueueStepView::SignedDownload, EnqueueEvent::SignedPackage(data)) =>
            EnqueueStepView::Store(data@),
        _ => step,
    }
}

/// The event is one that the outside world can report at the step: a status code
/// has three digits, and a digest can be computed of what was received.
pub open spec fn reportable(step: EnqueueStepView, event: EnqueueEvent) -> bool {
    &&& event matches EnqueueEvent::Response { code, .. } ==> 100 <= code <= 999
    &&& step matches EnqueueStepView::Receive(download) ==> (event is EndOfResponse
        ==> download.received.len() <= MAX_DIGESTED_LEN)
}

/// The step after an event, for an update of this version on this architecture.
pub fn advance(step: EnqueueStep, event: EnqueueEvent, version: &str, arch: &str) -> (res:
    EnqueueStep)
    requires
        reportable(step@, event),
    ensures
        res@ == next_step(step@, event, version@, arch@),
        step@ matches EnqueueStepView::Receive(download) ==> (event is EndOfResponse
            && download.received.len() == download.asset.size ==> sha256(download.received).len()
            == 32),
        step@ is FetchCatalog ==> (res@ matches EnqueueStepView::Request(asset) ==> on_server(
            asset.url,
        )),
{
    match step {
        EnqueueStep::FetchCatalog => match event {
            EnqueueEvent::Catalog(catalog) => match fetch_apt_deb_asset(&catalog, version, arch) {
                Ok(asset) => EnqueueStep::Request(asset),
                Err(error) => EnqueueStep::Failed(error),
            },
            _ => EnqueueStep::FetchCatalog,
        },
        EnqueueStep::Request(asset) => match event {
            EnqueueEvent::Response { code, content_length } => match check_download_status(code) {
                Ok(_) => EnqueueStep::Receive(DebDownload::start(asset, content_length)),
                Err(error) => EnqueueStep::Failed(error),
            },
            _ => EnqueueStep::Request(asset),
        },
        EnqueueStep::Receive(download) => match event {
            EnqueueEvent::Chunk(chunk) => {
                let mut download = download;
                download.receive(chunk.as_slice());
                EnqueueStep::Receive(download)
            },
            EnqueueEvent::EndOfResponse => match download.finish() {
                Ok(data) => EnqueueStep::Store(data),
                Err(error) => EnqueueStep::Failed(error),
            },
            _ => EnqueueStep::Receive(download),
        },
        EnqueueStep::SignedDownload => match event {
            EnqueueEvent::SignedPackage(data) => EnqueueStep::Store(data),
            _ => EnqueueStep::SignedDownload,
        },
        EnqueueStep::Store(data) => EnqueueStep::Store(data),
        EnqueueStep::Failed(error) => EnqueueStep::Failed(error),
    }
}

/// The step after several events.
pub open spec fn after_events(
    step: EnqueueStepView,
    events: Seq<EnqueueEvent>,
    version: Seq<char>,
    arch: Seq<char>,
) -> EnqueueStepView
    decreases events.len(),
{
    if events.len() == 0 {
        step
    } else {
        next_step(after_events(step, events.drop_last(), version, arch), events.last(), version, arch)
    }
}

/// The event is a catalog that names this package for the version.
pub open spec fn names_package(
    event: EnqueueEvent,
    asset: AptDebAssetView,
    version: Seq<char>,
    arch: Seq<char>,
) -> bool {
    event matches EnqueueEvent::Catalog(catalog) && deb_asset(catalog.versions@, version, arch)
        == Ok::<_, ErrorView>(asset)
}

/// The event is a catalog that vouches for these bytes: it names a package for the
/// version that has their size and digest.
pub open spec fn vouches_for(
    event: EnqueueEvent,
    data: Seq<u8>,
    version: Seq<char>,
    arch: Seq<char>,
) -> bool {
    event matches EnqueueEvent::Catalog(catalog) && deb_asset(catalog.versions@, version, arch)
        matches Ok(asset) && verdict(data, sha256(data), asset) == Ok::<_, ErrorView>(data)
}

/// Where apt is in charge, no bytes are ever stored but those that a fetched
/// catalog vouches for, whatever else happens on the way.
pub proof fn law_stored_bytes_are_vouched_for(
    events: Seq<EnqueueEvent>,
    version: Seq<char>,
    arch: Seq<char>,
)
    ensures
        after_events(first_step(true), events, version, arch) matches EnqueueStepView::Store(data)
            ==> exists|k: int|
            0 <= k < events.len() && vouches_for(#[trigger] events[k], data, version, arch),
{
    lemma_catalog_stands_behind_step(events, version, arch);
}

/// Where apt is in charge, what waits for its installation after a run that stored
/// its bytes is those bytes, and a fetched catalog vouches for them.
pub proof fn law_waiting_bytes_are_vouched_for<U>(
    waiting: Option<(U, Vec<u8>)>,
    update: U,
    data: Vec<u8>,
    events: Seq<EnqueueEvent>,
    version: Seq<char>,
    arch: Seq<char>,
)
    requires
        after_events(first_step(true), events, version, arch) == EnqueueStepView::Store(data@),
    ensures
        after_enqueue(waiting, update, Ok(data)) == Some((update, data)),
        exists|k: int|
            0 <= k < events.len() && vouches_for(#[trigger] events[k], data@, version, arch),
{
    law_stored_bytes_are_vouched_for(events, version, arch);
}

/// The package that a step is about.
spec fn package_of(step: EnqueueStepView) -> Option<AptDebAssetView> {
    match step {
        EnqueueStepView::Request(asset) => Some(asset),
        EnqueueStepView::Receive(download) => Some(download.asset),
        _ => None,
    }
}

proof fn lemma_catalog_stands_behind_step(
    events: Seq<EnqueueEvent>,
    version: Seq<char>,
    arch: Seq<char>,
)
    ensures
        ({
            let step = after_events(EnqueueStepView::FetchCatalog, events, version, arch);
            &&& step !is SignedDownload
            &&& package_of(step) matches Some(asset) ==> exists|k: int|
                0 <= k < events.len() && names_package(#[trigger] events[k], asset, version, arch)
            &&& step matches EnqueueStepView::Store(data) ==> exists|k: int|
                0 <= k < events.len() && vouches_for(#[trigger] events[k], data, version, arch)
        }),
    decreases events.len(),
{
    if events.len() > 0 {
        let before = events.drop_last();
        let last = events.last();
        lemma_catalog_stands_behind_step(before, version, arch);
        let old_step = after_events(EnqueueStepView::FetchCatalog, before, version, arch);
        let step = next_step(old_step, last, version, arch);
        if let Some(asset) = package_of(old_step) {
            let k = choose|k: int|
                0 <= k < before.len() && names_package(#[trigger] before[k], asset, version, arch);
            assert(events[k] == before[k]);
            assert(names_package(events[k], asset, version, arch));
            if let EnqueueStepView::Store(data) = step {
                assert(vouches_for(events[k], data, version, arch));
            }
        }
        if let EnqueueStepView::Store(data) = old_step {
            let k = choose|k: int|
                0 <= k < before.len() && vouches_for(#[trigger] before[k], data, version, arch);
            assert(events[k] == before[k]);
            assert(vouches_for(events[k], data, version, arch));
        }
        if old_step is FetchCatalog {
            assert(events[events.len() - 1] == last);
            if let Some(asset) = package_of(step) {
                assert(names_package(events[events.len() - 1], asset, version, arch));
            }
        }
    }
}

/// The events of a download from the catalog in which nothing goes wrong.
pub open spec fn smooth_run(
    catalog: VersionsResponse,
    code: u16,
    content_length: Option<u64>,
    chunks: Seq<Vec<u8>>,
) -> Seq<EnqueueEvent> {
    chunk_events(catalog, code, content_length, chunks).push(EnqueueEvent::EndOfResponse)
}

/// The events of such a download up to its last chunk.
pub open spec fn chunk_events(
    catalog: VersionsResponse,
    code: u16,
    content_length: Option<u64>,
    chunks: Seq<Vec<u8>>,
) -> Seq<EnqueueEvent> {
    seq![EnqueueEvent::Catalog(catalog), EnqueueEvent::Response { code, content_length }]
        + chunks.map_values(|chunk: Vec<u8>| EnqueueEvent::Chunk(chunk))
}

/// The bytes of all chunks, one after the other.
pub open spec fn all_bytes(chunks: Seq<Vec<u8>>) -> Seq<u8> {
    chunks.map_values(|chunk: Vec<u8>| chunk@).flatten()
}

/// A download in which nothing goes wrong ends with the verdict on all the bytes
/// that came, in the order in which they came: they are stored exactly where the
/// catalog's package has their size and digest.
pub proof fn law_smooth_run_is_judged_by_its_bytes(
    catalog: VersionsResponse,
    code: u16,
    content_length: Option<u64>,
    chunks: Seq<Vec<u8>>,
    version: Seq<char>,
    arch: Seq<char>,
)
    requires
        deb_asset(catalog.versions@, version, arch) is Ok,
        is_success(code),
    ensures
        ({
            let asset = deb_asset(catalog.versions@, version, arch)->Ok_0;
            let data = all_bytes(chunks);
            let events = smooth_run(catalog, code, content_length, chunks);
            after_events(first_step(true), events, version, arch) == (match verdict(
                data,
                sha256(data),
                asset,
            ) {
                Ok(_) => EnqueueStepView::Store(data),
                Err(error) => EnqueueStepView::Failed(error),
            })
        }),
{
    let asset = deb_asset(catalog.versions@, version, arch)->Ok_0;
    let events = smooth_run(catalog, code, content_length, chunks);
    let views = chunks.map_values(|chunk: Vec<u8>| chunk@);
    assert(events.drop_last() =~= chunk_events(catalog, code, content_length, chunks));
    lemma_chunks_are_received(catalog, code, content_length, chunks, version, arch);
    law_chunks_are_concatenated(started(asset, content_length), views);
    assert(after_chunks(started(asset, content_length), views).received =~= all_bytes(chunks));
}

proof fn lemma_chunks_are_received(
    catalog: VersionsResponse,
    code: u16,
    content_length: Option<u64>,
    chunks: Seq<Vec<u8>>,
    version: Seq<char>,
    arch: Seq<char>,
)
    requires
        deb_asset(catalog.versions@, version, arch) is Ok,
        is_success(code),
    ensures
        after_events(
            EnqueueStepView::FetchCatalog,
            chunk_events(catalog, code, content_length, chunks),
            version,
            arch,
        ) == EnqueueStepView::Receive(
            after_chunks(
                started(deb_asset(catalog.versions@, version, arch)->Ok_0, content_length),
                chunks.map_values(|chunk: Vec<u8>| chunk@),
            ),
        ),
    decreases chunks.len(),
{
    let events = chunk_events(catalog, code, content_length, chunks);
    let views = chunks.map_values(|chunk: Vec<u8>| chunk@);
    if chunks.len() == 0 {
        assert(events.drop_last() =~= seq![EnqueueEvent::Catalog(catalog)]);
        assert(events.drop_last().drop_last() =~= seq![]);
        reveal_with_fuel(after_events, 3);
    } else {
        lemma_chunks_are_received(
            catalog,
            code,
            content_length,
            chunks.drop_last(),
            version,
            arch,
        );
        assert(events.drop_last() =~= chunk_events(
            catalog,
            code,
            content_length,
            chunks.drop_last(),
        ));
        assert(views.drop_last() =~= chunks.drop_last().map_values(|chunk: Vec<u8>| chunk@));
    }
}

/// The download begins with the catalog exactly where apt is in charge, and with the
/// signed package elsewhere.
pub proof fn law_download_begins(apt_linux: bool)
    ensures
        first_step(apt_linux) is FetchCatalog <==> apt_linux,
        first_step(apt_linux) is SignedDownload <==> !apt_linux,
{
}

/// An event that answers another step, or that comes after the end, changes nothing.
pub proof fn law_other_events_change_nothing(
    step: EnqueueStepView,
    event: EnqueueEvent,
    version: Seq<char>,
    arch: Seq<char>,
)
    requires
        step is FetchCatalog ==> event !is Catalog,
        step is Request ==> event !is Response,
        step is Receive ==> event !is Chunk && event !is EndOfResponse,
        step is SignedDownload ==> event !is SignedPackage,
    ensures
        next_step(step, event, version, arch) == step,
{
}

/// Stored bytes and a reported failure are final: no event changes them.
pub proof fn law_end_is_final(
    step: EnqueueStepView,
    events: Seq<EnqueueEvent>,
    version: Seq<char>,
    arch: Seq<char>,
)
    requires
        step is Store || step is Failed,
    ensures
        after_events(step, events, version, arch) == step,
    decreases events.len(),
{
    if events.len() > 0 {
        law_end_is_final(step, events.drop_last(), version, arch);
    }
}

/// Where apt is not in charge, what is stored is the first signed package that comes,
/// byte for byte; until one comes, it is waited for, and nothing fails.
pub proof fn law_first_signed_package_is_stored(
    events: Seq<EnqueueEvent>,
    version: Seq<char>,
    arch: Seq<char>,
    data: Vec<u8>,
    later: Seq<EnqueueEvent>,
)
    requires
        forall|i: int| 0 <= i < events.len() ==> #[trigger] events[i] !is SignedPackage,
    ensures
        after_events(first_step(false), events, version, arch) is SignedDownload,
        after_events(
            first_step(false),
            events.push(EnqueueEvent::SignedPackage(data)) + later,
            version,
            arch,
        ) == EnqueueStepView::Store(data@),
    decreases later.len(), events.len(),
{
    let stored = events.push(EnqueueEvent::SignedPackage(data));
    if later.len() > 0 {
        law_first_signed_package_is_stored(events, version, arch, data, later.drop_last());
        assert((stored + later).drop_last() =~= stored + later.drop_last());
    } else {
        if events.len() > 0 {
            let before = events.drop_last();
            assert forall|i: int| 0 <= i < before.len() implies #[trigger] before[i]
                !is SignedPackage by {
                assert(before[i] == events[i]);
            }
            law_first_signed_package_is_stored(before, version, arch, data, later);
            assert(events[events.len() - 1] !is SignedPackage);
        }
        assert(stored + later =~= stored);
        assert(stored.drop_last() =~= events);
    }
}

/// A package that the catalog does not give is not requested: the failure of the
/// lookup is reported. One that it gives is requested as the catalog gives it.
pub proof fn law_lookup_decides_on_the_request(
    catalog: VersionsResponse,
    version: Seq<char>,
    arch: Seq<char>,
)
    ensures
        ({
            let step = next_step(
                first_step(true),
                EnqueueEvent::Catalog(catalog),
                version,
                arch,
            );
            &&& deb_asset(catalog.versions@, version, arch) matches Ok(asset) ==> step
                == EnqueueStepView::Request(asset)
            &&& deb_asset(catalog.versions@, version, arch) matches Err(error) ==> step
                == EnqueueStepView::Failed(error)
        }),
{
}

/// A requested package is received exactly where the response is a success, from an
/// empty beginning, and progress is measured against the length that the response
/// tells, else against the catalog's size. Any other status is reported.
pub proof fn law_status_decides_on_the_download(
    asset: AptDebAssetView,
    code: u16,
    content_length: Option<u64>,
    version: Seq<char>,
    arch: Seq<char>,
)
    ensures
        ({
            let step = next_step(
                EnqueueStepView::Request(asset),
                EnqueueEvent::Response { code, content_length },
                version,
                arch,
            );
            &&& code / 100 == 2 ==> {
                &&& step matches EnqueueStepView::Receive(download)
                &&& download.asset == asset
                &&& download.received.len() == 0
                &&& content_length matches Some(length) ==> download.total == length
                &&& content_length is None ==> download.total == asset.size
            }
            &&& code / 100 != 2 ==> step == EnqueueStepView::Failed(
                Failure::DownloadStatus { status: status_line(code) },
            )
        }),
{
}

/// Bytes that come are appended to those that came before, and change nothing else of
/// a package being received. The end of the response then stores them all exactly
/// where they have the size and the digest that the catalog gives; a size that
/// differs is reported first.
pub proof fn law_end_of_response_decides(
    download: DebDownloadView,
    chunk: Vec<u8>,
    version: Seq<char>,
    arch: Seq<char>,
)
    requires
        download.received.len() + chunk@.len() <= u64::MAX,
    ensures
        ({
            let more = next_step(
                EnqueueStepView::Receive(download),
                EnqueueEvent::Chunk(chunk),
                version,
                arch,
            );
            let end = next_step(more, EnqueueEvent::EndOfResponse, version, arch);
            let data = download.received + chunk@;
            let right_size = data.len() == download.asset.size;
            let right_digest = hex(sha256(data)) == download.asset.sha256;
            &&& more == EnqueueStepView::Receive(
                DebDownloadView {
                    asset: download.asset,
                    total: download.total,
                    received: data,
                },
            )
            &&& right_size && right_digest ==> end == EnqueueStepView::Store(data)
            &&& right_size && !right_digest ==> end == EnqueueStepView::Failed(
                Failure::DebSha256Mismatch,
            )
            &&& !right_size ==> (end matches EnqueueStepView::Failed(
                Failure::DebSizeMismatch { expected, got },
            ) && expected == download.asset.size && got == data.len())
        }),
{
}

} // verus!
