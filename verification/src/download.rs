//! Receiving a Debian package and verifying it against the catalog.

use vstd::prelude::*;

use crate::catalog::{AptDebAsset, AptDebAssetView};
use crate::failure::{outcome, ErrorView, Failure, UpdateError};
use crate::text::{
    digit_value, hex, hex_text, is_hex_char, law_hex_injective, law_hex_reads_back, law_hex_shape,
};

verus! {

/// The most bytes that a digest is computed of: SHA-256 counts bits in 64 bits.
pub const MAX_DIGESTED_LEN: u64 = 0x1fff_ffff_ffff_ffff;

/// The SHA-256 digest of the bytes.
pub uninterp spec fn sha256(data: Seq<u8>) -> Seq<u8>;

/// `Sha256::digest` of the crate `sha2`: the 32 bytes of the SHA-256 digest.
#[verifier::external_body]
pub(crate) fn sha256_digest(data: &[u8]) -> (res: Vec<u8>)
    requires
        data@.len() <= MAX_DIGESTED_LEN,
    ensures
        res@ == sha256(data@),
        res@.len() == 32,
{
    <sha2::Sha256 as sha2::Digest>::digest(data).to_vec()
}

/// What is reported of a download: a part of its total length.
#[derive(Debug, Clone, Copy, PartialEq, Eq)]
pub struct Progress {
    /// The bytes that the report counts.
    pub done: u64,
    /// The length that they are measured against.
    pub total: u64,
}

/// What is reported of a chunk of the updater's own signed download.
pub open spec fn signed_progress(chunk_len: usize, total: Option<u64>) -> Option<Progress> {
    match total {
        Some(total) => Some(Progress { done: chunk_len as u64, total }),
        None => None,
    }
}

/// What is reported of a chunk of the updater's own signed download: the length of
/// that chunk alone, against the total, where the total is known.
pub fn signed_download_progress(chunk_len: usize, total: Option<u64>) -> (res: Option<Progress>)
    ensures
        res == signed_progress(chunk_len, total),
{
    match total {
        Some(total) => Some(Progress { done: chunk_len as u64, total }),
        None => None,
    }
}

/// A Debian package being received.
#[derive(Debug)]
pub struct DebDownload {
    /// The package that is expected.
    asset: AptDebAsset,
    /// The length that progress is measured against.
    total: u64,
    /// The bytes that have come so far.
    buffer: Vec<u8>,
}

/// A package being received, as contracts speak of it.
#[verifier::ext_equal]
pub struct DebDownloadView {
    pub asset: AptDebAssetView,
    pub total: u64,
    pub received: Seq<u8>,
}

impl View for DebDownload {
    type V = DebDownloadView;

    closed spec fn view(&self) -> DebDownloadView {
        DebDownloadView { asset: self.asset@, total: self.total, received: self.buffer@ }
    }
}

/// A download of which nothing has come: progress is measured against the length
/// that the response tells, else against the catalog's size.
pub open spec fn started(asset: AptDebAssetView, content_length: Option<u64>) -> DebDownloadView {
    DebDownloadView {
        asset,
        total: match content_length {
            Some(length) => length,
            None => asset.size,
        },
        received: seq![],
    }
}

/// A download after one more chunk.
pub open spec fn after_chunk(download: DebDownloadView, chunk: Seq<u8>) -> DebDownloadView {
    DebDownloadView { received: download.received + chunk, ..download }
}

/// A download after several chunks.
pub open spec fn after_chunks(download: DebDownloadView, chunks: Seq<Seq<u8>>) -> DebDownloadView
    decreases chunks.len(),
{
    if chunks.len() == 0 {
        download
    } else {
        after_chunk(after_chunks(download, chunks.drop_last()), chunks.last())
    }
}

/// How far a download is; a total of zero measures nothing.
pub open spec fn progress_of(download: DebDownloadView) -> Option<Progress> {
    if download.total > 0 {
        Some(Progress { done: download.received.len() as u64, total: download.total })
    } else {
        None
    }
}

/// What is made of the received bytes, given their digest: they are kept unchanged
/// where they have the catalog's size and digest. The size is compared first.
pub open spec fn verdict(data: Seq<u8>, digest: Seq<u8>, asset: AptDebAssetView) -> Result<
    Seq<u8>,
    ErrorView,
> {
    if data.len() != asset.size {
        Err(Failure::DebSizeMismatch { expected: asset.size, got: data.len() as u64 })
    } else if hex(digest) != asset.sha256 {
        Err(Failure::DebSha256Mismatch)
    } else {
        Ok(data)
    }
}

/// Whether the received bytes are as long as the catalog says.
pub open spec fn size_verdict(data: Seq<u8>, asset: AptDebAssetView) -> Result<(), ErrorView> {
    if data.len() == asset.size {
        Ok(())
    } else {
        Err(Failure::DebSizeMismatch { expected: asset.size, got: data.len() as u64 })
    }
}

/// Whether the received bytes are as long as the catalog says.
pub fn check_deb_size(data: &Vec<u8>, asset: &AptDebAsset) -> (res: Result<(), UpdateError>)
    ensures
        outcome(res) == size_verdict(data@, asset@),
{
    let got: u64 = data.len() as u64;
    if got != asset.size {
        Err(Failure::DebSizeMismatch { expected: asset.size, got })
    } else {
        Ok(())
    }
}

/// What is made of the received bytes, given their digest.
pub fn accept_deb(data: Vec<u8>, digest: &[u8], asset: &AptDebAsset) -> (res: Result<
    Vec<u8>,
    UpdateError,
>)
    ensures
        outcome(res) == verdict(data@, digest@, asset@),
{
    match check_deb_size(&data, asset) {
        Ok(_) => {},
        Err(error) => return Err(error),
    }
    let digest_hex = hex_text(digest);
    if *digest_hex.as_str() == *asset.sha256.as_str() {
        Ok(data)
    } else {
        Err(Failure::DebSha256Mismatch)
    }
}

/// The received bytes, where they have the catalog's size and SHA-256 digest. No
/// digest is computed of bytes of another size.
pub fn verify_deb(data: Vec<u8>, asset: &AptDebAsset) -> (res: Result<Vec<u8>, UpdateError>)
    requires
        data@.len() <= MAX_DIGESTED_LEN,
    ensures
        outcome(res) == verdict(data@, sha256(data@), asset@),
        data@.len() == asset@.size ==> sha256(data@).len() == 32,
{
    match check_deb_size(&data, asset) {
        Ok(_) => {},
        Err(error) => return Err(error),
    }
    let digest = sha256_digest(data.as_slice());
    accept_deb(data, digest.as_slice(), asset)
}

impl DebDownload {
    /// A download of which nothing has come yet.
    pub fn start(asset: AptDebAsset, content_length: Option<u64>) -> (res: DebDownload)
        ensures
            res@ == started(asset@, content_length),
    {
        let total: u64 = match content_length {
            Some(length) => length,
            None => asset.size,
        };
        DebDownload { asset, total, buffer: Vec::new() }
    }

    /// Takes one more chunk.
    pub fn receive(&mut self, chunk: &[u8])
        ensures
            final(self)@ == after_chunk(old(self)@, chunk@),
    {
        self.buffer.extend_from_slice(chunk);
        assert(self.buffer@ =~= old(self).buffer@ + chunk@);
    }

    /// The bytes that have come so far.
    pub fn received(&self) -> (res: &[u8])
        ensures
            res@ == self@.received,
    {
        self.buffer.as_slice()
    }

    /// How far the download is.
    pub fn progress(&self) -> (res: Option<Progress>)
        ensures
            res == progress_of(self@),
    {
        if self.total > 0 {
            Some(Progress { done: self.buffer.len() as u64, total: self.total })
        } else {
            None
        }
    }

    /// The received bytes, where they are the package that was expected.
    pub fn finish(self) -> (res: Result<Vec<u8>, UpdateError>)
        requires
            self@.received.len() <= MAX_DIGESTED_LEN,
        ensures
            outcome(res) == verdict(self@.received, sha256(self@.received), self@.asset),
            self@.received.len() == self@.asset.size ==> sha256(self@.received).len() == 32,
    {
        verify_deb(self.buffer, &self.asset)
    }
}

/// Bytes are kept exactly where they have the size and the digest of the catalog,
/// and then unchanged.
pub proof fn law_only_verified_bytes_are_kept(data: Seq<u8>, asset: AptDebAssetView)
    ensures
        verdict(data, sha256(data), asset) is Ok <==> data.len() == asset.size && hex(sha256(data))
            == asset.sha256,
        verdict(data, sha256(data), asset) is Ok ==> verdict(data, sha256(data), asset)->Ok_0
            == data,
{
}

/// Whatever is kept for one package has one length and one SHA-256 digest.
pub proof fn law_one_digest_for_each_package(a: Seq<u8>, b: Seq<u8>, asset: AptDebAssetView)
    requires
        verdict(a, sha256(a), asset) is Ok,
        verdict(b, sha256(b), asset) is Ok,
    ensures
        a.len() == b.len(),
        sha256(a) == sha256(b),
{
    law_hex_injective(sha256(a), sha256(b));
}

/// A catalog digest that is not 64 lower-case hexadecimal digits accepts no bytes
/// at all.
pub proof fn law_malformed_digest_accepts_nothing(
    data: Seq<u8>,
    digest: Seq<u8>,
    asset: AptDebAssetView,
)
    requires
        digest.len() == 32,
        asset.sha256.len() != 64 || exists|i: int|
            0 <= i < asset.sha256.len() && !is_hex_char(#[trigger] asset.sha256[i]),
    ensures
        verdict(data, digest, asset) is Err,
{
    law_hex_shape(digest);
}

/// A download holds its chunks one after the other; neither what is expected nor
/// the total changes on the way.
pub proof fn law_chunks_are_concatenated(download: DebDownloadView, chunks: Seq<Seq<u8>>)
    ensures
        after_chunks(download, chunks) == (DebDownloadView {
            received: download.received + chunks.flatten(),
            ..download
        }),
    decreases chunks.len(),
{
    if chunks.len() == 0 {
        assert(download.received + chunks.flatten() =~= download.received);
    } else {
        law_chunks_are_concatenated(download, chunks.drop_last());
        chunks.lemma_flatten_and_flatten_alt_are_equivalent();
        chunks.drop_last().lemma_flatten_and_flatten_alt_are_equivalent();
        assert(after_chunks(download, chunks).received =~= download.received + chunks.flatten());
    }
}

/// How the bytes are cut into chunks makes no difference to what is kept.
pub proof fn law_chunking_makes_no_difference(
    download: DebDownloadView,
    first: Seq<Seq<u8>>,
    second: Seq<Seq<u8>>,
)
    requires
        first.flatten() == second.flatten(),
    ensures
        after_chunks(download, first) == after_chunks(download, second),
{
    law_chunks_are_concatenated(download, first);
    law_chunks_are_concatenated(download, second);
}

/// The reported progress never falls, and a kept package that is measured against
/// the catalog's size ends at the whole.
pub proof fn law_progress(download: DebDownloadView, chunk: Seq<u8>)
    requires
        download.received.len() + chunk.len() <= u64::MAX,
    ensures
        progress_of(download) matches Some(before) ==> progress_of(
            after_chunk(download, chunk),
        ) matches Some(after) && before.done <= after.done && before.total == after.total,
        download.total == download.asset.size && verdict(
            download.received,
            sha256(download.received),
            download.asset,
        ) is Ok ==> (progress_of(download) matches Some(progress) ==> progress.done
            == progress.total),
{
}

/// Of a signed download each chunk is reported by its own length, against the total
/// as it is told; without a total nothing is reported.
pub proof fn law_signed_progress(chunk_len: usize, total: u64)
    ensures
        signed_progress(chunk_len, None) is None,
        signed_progress(chunk_len, Some(total)) matches Some(progress) && progress.done == chunk_len
            && progress.total == total,
{
}

/// A download starts empty, expects the given package, and is measured against the
/// length that the response tells, or against the catalog's size where it tells none.
pub proof fn law_download_starts_empty(asset: AptDebAssetView, length: u64)
    ensures
        started(asset, Some(length)).total == length,
        started(asset, None).total == asset.size,
        forall|told: Option<u64>|
            (#[trigger] started(asset, told)).asset == asset && started(asset, told).received.len()
                == 0,
{
}

/// What is reported of a download is the number of bytes that have come, against its
/// total; nothing is reported exactly where the total is zero.
pub proof fn law_progress_counts_the_bytes(download: DebDownloadView)
    requires
        download.received.len() <= u64::MAX,
    ensures
        progress_of(download) is None <==> download.total == 0,
        progress_of(download) matches Some(progress) ==> progress.done == download.received.len()
            && progress.total == download.total,
{
}

/// Bytes of another size are refused for their size, whatever their digest, and the
/// refusal tells the catalog's size and their own; bytes of the right size are
/// refused exactly for another digest.
pub proof fn law_refusal_of_bytes(data: Seq<u8>, digest: Seq<u8>, asset: AptDebAssetView)
    requires
        data.len() <= u64::MAX,
    ensures
        size_verdict(data, asset) is Ok <==> data.len() == asset.size,
        data.len() != asset.size ==> {
            &&& size_verdict(data, asset) matches Err(Failure::DebSizeMismatch { expected, got })
                && expected == asset.size && got == data.len()
            &&& verdict(data, digest, asset) matches Err(Failure::DebSizeMismatch { expected, got })
                && expected == asset.size && got == data.len()
        },
        data.len() == asset.size && hex(digest) != asset.sha256 ==> verdict(data, digest, asset)
            == Err::<Seq<u8>, ErrorView>(Failure::DebSha256Mismatch),
        data.len() == asset.size && hex(digest) == asset.sha256 ==> verdict(data, digest, asset)
            == Ok::<_, ErrorView>(data),
{
}

/// Bytes are kept only where the catalog's digest, read as hexadecimal digits, is
/// their own, byte for byte.
pub proof fn law_kept_bytes_have_the_catalogs_digest(
    data: Seq<u8>,
    digest: Seq<u8>,
    asset: AptDebAssetView,
)
    requires
        verdict(data, digest, asset) is Ok,
    ensures
        asset.sha256.len() == 2 * digest.len(),
        forall|i: int|
            0 <= i < digest.len() ==> digit_value(asset.sha256[2 * i]) * 16 + digit_value(
                asset.sha256[2 * i + 1],
            ) == #[trigger] digest[i],
{
    law_hex_reads_back(digest);
}

} // verus!
