//! The catalog of published versions, and the Debian package to take from it.

use vstd::prelude::*;

use crate::endpoint::{
    law_appended_path_is_on_server, on_server, parse_url, parsed_url, text_result, url_or_failure,
    valid_url, UPDATE_SERVER_BASE,
};
use crate::failure::{outcome, ErrorView, Failure, UpdateError};
use crate::text::joined;

verus! {

/// The catalog: all published versions.
#[derive(Debug)]
pub struct VersionsResponse {
    pub versions: Vec<VersionEntry>,
}

/// A published version.
#[derive(Debug)]
pub struct VersionEntry {
    pub version: String,
    pub artifacts: Vec<ArtifactEntry>,
}

/// A file of a published version.
#[derive(Debug)]
pub struct ArtifactEntry {
    pub kind: String,
    pub variant: Option<String>,
    pub platform: String,
    pub architecture: String,
    pub relative_path: String,
    pub sha256: Option<String>,
    pub size: u64,
}

/// The Debian package of an update that apt installs. It carries no signature, so
/// its integrity is verified with the catalog's digest and size.
#[derive(Debug, PartialEq, Eq)]
pub struct AptDebAsset {
    pub url: String,
    pub sha256: String,
    pub size: u64,
}

/// A Debian package as contracts speak of it.
#[verifier::ext_equal]
pub struct AptDebAssetView {
    pub url: Seq<char>,
    pub sha256: Seq<char>,
    pub size: u64,
}

impl View for AptDebAsset {
    type V = AptDebAssetView;

    open spec fn view(&self) -> AptDebAssetView {
        AptDebAssetView { url: self.url@, sha256: self.sha256@, size: self.size }
    }
}

/// What the catalog says of the Debian package, its location still unparsed.
#[derive(Debug, PartialEq, Eq)]
pub struct DebSource {
    pub location: String,
    pub sha256: String,
    pub size: u64,
}

/// A catalog's word on a package, as contracts speak of it.
#[verifier::ext_equal]
pub struct DebSourceView {
    pub location: Seq<char>,
    pub sha256: Seq<char>,
    pub size: u64,
}

impl View for DebSource {
    type V = DebSourceView;

    open spec fn view(&self) -> DebSourceView {
        DebSourceView { location: self.location@, sha256: self.sha256@, size: self.size }
    }
}

/// The first entry that carries the version.
pub open spec fn first_release(versions: Seq<VersionEntry>, version: Seq<char>) -> Option<
    VersionEntry,
>
    decreases versions.len(),
{
    if versions.len() == 0 {
        None
    } else if versions[0].version@ == version {
        Some(versions[0])
    } else {
        first_release(versions.drop_first(), version)
    }
}

/// The file is a Debian installer for Linux on the architecture.
pub open spec fn is_deb_for(artifact: ArtifactEntry, arch: Seq<char>) -> bool {
    &&& artifact.kind@ == "installer"@
    &&& artifact.variant matches Some(variant) && variant@ == "deb"@
    &&& artifact.platform@ == "linux"@
    &&& artifact.architecture@ == arch
}

/// The first Debian installer for the architecture.
pub open spec fn first_deb(artifacts: Seq<ArtifactEntry>, arch: Seq<char>) -> Option<ArtifactEntry>
    decreases artifacts.len(),
{
    if artifacts.len() == 0 {
        None
    } else if is_deb_for(artifacts[0], arch) {
        Some(artifacts[0])
    } else {
        first_deb(artifacts.drop_first(), arch)
    }
}

/// The catalog's word on the Debian package of a version: the first entry with
/// the version decides, and in it the first Debian installer.
pub open spec fn deb_source(
    versions: Seq<VersionEntry>,
    version: Seq<char>,
    arch: Seq<char>,
) -> Result<DebSourceView, ErrorView> {
    match first_release(versions, version) {
        None => Err(Failure::VersionNotInCatalog { version }),
        Some(release) => match first_deb(release.artifacts@, arch) {
            None => Err(Failure::NoDebArtifact { version, arch }),
            Some(artifact) => match artifact.sha256 {
                None => Err(Failure::NoDebSha256 { version }),
                Some(sha256) => Ok(
                    DebSourceView {
                        location: UPDATE_SERVER_BASE@ + artifact.relative_path@,
                        sha256: sha256@,
                        size: artifact.size,
                    },
                ),
            },
        },
    }
}

/// The package at a location that was parsed.
pub open spec fn located(
    source: DebSourceView,
    parsed: Result<Seq<char>, Seq<char>>,
) -> Result<AptDebAssetView, ErrorView> {
    match url_or_failure(parsed) {
        Ok(url) => Ok(AptDebAssetView { url, sha256: source.sha256, size: source.size }),
        Err(error) => Err(error),
    }
}

/// The Debian package of a version on an architecture.
pub open spec fn deb_asset(
    versions: Seq<VersionEntry>,
    version: Seq<char>,
    arch: Seq<char>,
) -> Result<AptDebAssetView, ErrorView> {
    match deb_source(versions, version, arch) {
        Ok(source) => located(source, parsed_url(source.location)),
        Err(error) => Err(error),
    }
}

fn find_release<'a>(versions: &'a Vec<VersionEntry>, version: &str) -> (res: Option<
    &'a VersionEntry,
>)
    ensures
        match res {
            Some(release) => first_release(versions@, version@) == Some(*release),
            None => first_release(versions@, version@) is None,
        },
{
    let mut i: usize = 0;
    assert(versions@.skip(0) =~= versions@);
    while i < versions.len()
        invariant
            i <= versions.len(),
            first_release(versions@, version@) == first_release(versions@.skip(i as int), version@),
        decreases versions.len() - i,
    {
        if *versions[i].version.as_str() == *version {
            return Some(&versions[i]);
        }
        assert(versions@.skip(i as int).drop_first() =~= versions@.skip(i + 1));
        i = i + 1;
    }
    None
}

fn deb_matches(artifact: &ArtifactEntry, arch: &str) -> (res: bool)
    ensures
        res == is_deb_for(*artifact, arch@),
{
    let deb_variant = match &artifact.variant {
        Some(variant) => *variant.as_str() == *"deb",
        None => false,
    };
    *artifact.kind.as_str() == *"installer" && deb_variant && *artifact.platform.as_str()
        == *"linux" && *artifact.architecture.as_str() == *arch
}

fn find_deb<'a>(artifacts: &'a Vec<ArtifactEntry>, arch: &str) -> (res: Option<&'a ArtifactEntry>)
    ensures
        match res {
            Some(artifact) => first_deb(artifacts@, arch@) == Some(*artifact),
            None => first_deb(artifacts@, arch@) is None,
        },
{
    let mut i: usize = 0;
    assert(artifacts@.skip(0) =~= artifacts@);
    while i < artifacts.len()
        invariant
            i <= artifacts.len(),
            first_deb(artifacts@, arch@) == first_deb(artifacts@.skip(i as int), arch@),
        decreases artifacts.len() - i,
    {
        if deb_matches(&artifacts[i], arch) {
            return Some(&artifacts[i]);
        }
        assert(artifacts@.skip(i as int).drop_first() =~= artifacts@.skip(i + 1));
        i = i + 1;
    }
    None
}

/// Looks the Debian package of a version up in the catalog.
pub fn select_deb(catalog: &VersionsResponse, version: &str, arch: &str) -> (res: Result<
    DebSource,
    UpdateError,
>)
    ensures
        outcome(res) == deb_source(catalog.versions@, version@, arch@),
        res matches Ok(source) ==> on_server(source.location@),
{
    let release = match find_release(&catalog.versions, version) {
        Some(release) => release,
        None => return Err(Failure::VersionNotInCatalog { version: version.to_owned() }),
    };
    let artifact = match find_deb(&release.artifacts, arch) {
        Some(artifact) => artifact,
        None => return Err(
            Failure::NoDebArtifact { version: version.to_owned(), arch: arch.to_owned() },
        ),
    };
    proof {
        law_appended_path_is_on_server(artifact.relative_path@);
    }
    match &artifact.sha256 {
        Some(sha256) => Ok(
            DebSource {
                location: joined(UPDATE_SERVER_BASE, artifact.relative_path.as_str()),
                sha256: sha256.clone(),
                size: artifact.size,
            },
        ),
        None => Err(Failure::NoDebSha256 { version: version.to_owned() }),
    }
}

/// The package at a location that was parsed.
pub fn locate_deb(source: DebSource, parsed: Result<String, String>) -> (res: Result<
    AptDebAsset,
    UpdateError,
>)
    ensures
        outcome(res) == located(source@, text_result(parsed)),
{
    match valid_url(parsed) {
        Ok(url) => Ok(AptDebAsset { url, sha256: source.sha256, size: source.size }),
        Err(error) => Err(error),
    }
}

/// The Debian package of a version on an architecture, from a catalog that was
/// fetched. Whatever path the catalog gives, the package lies on the update server.
pub fn fetch_apt_deb_asset(catalog: &VersionsResponse, version: &str, arch: &str) -> (res: Result<
    AptDebAsset,
    UpdateError,
>)
    ensures
        outcome(res) == deb_asset(catalog.versions@, version@, arch@),
        res matches Ok(asset) ==> on_server(asset.url@),
{
    match select_deb(catalog, version, arch) {
        Ok(source) => {
            let parsed = parse_url(source.location.as_str());
            locate_deb(source, parsed)
        },
        Err(error) => Err(error),
    }
}

/// The first entry with the version stands in the catalog, and no entry before it
/// has that version.
pub proof fn law_release_is_listed(versions: Seq<VersionEntry>, version: Seq<char>) -> (i: int)
    requires
        first_release(versions, version) is Some,
    ensures
        0 <= i < versions.len(),
        first_release(versions, version) == Some(versions[i]),
        versions[i].version@ == version,
        forall|k: int| 0 <= k < i ==> (#[trigger] versions[k]).version@ != version,
    decreases versions.len(),
{
    if versions[0].version@ == version {
        0
    } else {
        let rest = versions.drop_first();
        let i = law_release_is_listed(rest, version) + 1;
        assert forall|k: int| 0 <= k < i implies (#[trigger] versions[k]).version@ != version by {
            if k > 0 {
                assert(rest[k - 1] == versions[k]);
            }
        }
        i
    }
}

/// A version is refused as unlisted exactly where no entry carries it.
pub proof fn law_unlisted_version(versions: Seq<VersionEntry>, version: Seq<char>)
    ensures
        first_release(versions, version) is None <==> forall|k: int|
            0 <= k < versions.len() ==> (#[trigger] versions[k]).version@ != version,
    decreases versions.len(),
{
    if versions.len() > 0 && versions[0].version@ != version {
        let rest = versions.drop_first();
        law_unlisted_version(rest, version);
        if first_release(versions, version) is None {
            assert forall|k: int| 0 <= k < versions.len() implies (
            #[trigger] versions[k]).version@ != version by {
                if k > 0 {
                    assert(rest[k - 1] == versions[k]);
                }
            }
        } else {
            let i = law_release_is_listed(rest, version);
            assert(rest[i] == versions[i + 1]);
        }
    }
}

/// The first Debian installer stands among the files, and none before it is one.
pub proof fn law_deb_is_listed(artifacts: Seq<ArtifactEntry>, arch: Seq<char>) -> (j: int)
    requires
        first_deb(artifacts, arch) is Some,
    ensures
        0 <= j < artifacts.len(),
        first_deb(artifacts, arch) == Some(artifacts[j]),
        is_deb_for(artifacts[j], arch),
        forall|k: int| 0 <= k < j ==> !is_deb_for(#[trigger] artifacts[k], arch),
    decreases artifacts.len(),
{
    if is_deb_for(artifacts[0], arch) {
        0
    } else {
        let rest = artifacts.drop_first();
        let j = law_deb_is_listed(rest, arch) + 1;
        assert forall|k: int| 0 <= k < j implies !is_deb_for(#[trigger] artifacts[k], arch) by {
            if k > 0 {
                assert(rest[k - 1] == artifacts[k]);
            }
        }
        j
    }
}

/// An entry has no Debian installer exactly where none of its files is one.
pub proof fn law_no_deb(artifacts: Seq<ArtifactEntry>, arch: Seq<char>)
    ensures
        first_deb(artifacts, arch) is None <==> forall|k: int|
            0 <= k < artifacts.len() ==> !is_deb_for(#[trigger] artifacts[k], arch),
    decreases artifacts.len(),
{
    if artifacts.len() > 0 && !is_deb_for(artifacts[0], arch) {
        let rest = artifacts.drop_first();
        law_no_deb(rest, arch);
        if first_deb(artifacts, arch) is None {
            assert forall|k: int| 0 <= k < artifacts.len() implies !is_deb_for(
                #[trigger] artifacts[k],
                arch,
            ) by {
                if k > 0 {
                    assert(rest[k - 1] == artifacts[k]);
                }
            }
        } else {
            let j = law_deb_is_listed(rest, arch);
            assert(rest[j] == artifacts[j + 1]);
        }
    }
}

/// A package that is handed out is a file of the catalog: a Debian installer for
/// the architecture, of an entry with the version, with that file's own digest and
/// size, at that file's path below the update server.
pub proof fn law_asset_comes_from_catalog(
    versions: Seq<VersionEntry>,
    version: Seq<char>,
    arch: Seq<char>,
) -> (at: (int, int))
    requires
        deb_asset(versions, version, arch) is Ok,
    ensures
        ({
            let (i, j) = at;
            let asset = deb_asset(versions, version, arch)->Ok_0;
            let artifact = versions[i].artifacts@[j];
            &&& 0 <= i < versions.len()
            &&& 0 <= j < versions[i].artifacts@.len()
            &&& versions[i].version@ == version
            &&& is_deb_for(artifact, arch)
            &&& artifact.sha256 matches Some(sha256) && sha256@ == asset.sha256
            &&& artifact.size == asset.size
            &&& parsed_url(UPDATE_SERVER_BASE@ + artifact.relative_path@) == Ok::<_, Seq<char>>(
                asset.url,
            )
        }),
{
    let i = law_release_is_listed(versions, version);
    let j = law_deb_is_listed(versions[i].artifacts@, arch);
    (i, j)
}

/// Once the catalog lists a version, entries appended to it change nothing for
/// that version.
pub proof fn law_first_entry_decides(
    versions: Seq<VersionEntry>,
    more: Seq<VersionEntry>,
    version: Seq<char>,
    arch: Seq<char>,
)
    requires
        first_release(versions, version) is Some,
    ensures
        deb_asset(versions + more, version, arch) == deb_asset(versions, version, arch),
{
    lemma_first_release_of_extension(versions, more, version);
}

/// The entry carries the version.
pub open spec fn has_version(version: Seq<char>) -> spec_fn(VersionEntry) -> bool {
    |entry: VersionEntry| entry.version@ == version
}

/// The file is a Debian installer for Linux on the architecture.
pub open spec fn is_deb(arch: Seq<char>) -> spec_fn(ArtifactEntry) -> bool {
    |artifact: ArtifactEntry| is_deb_for(artifact, arch)
}

/// What matters of a catalog: for each entry with the version, in order, its Debian
/// installers for the architecture, in order.
pub open spec fn relevant_debs(
    versions: Seq<VersionEntry>,
    version: Seq<char>,
    arch: Seq<char>,
) -> Seq<Seq<ArtifactEntry>> {
    versions.filter(has_version(version)).map_values(
        |entry: VersionEntry| entry.artifacts@.filter(is_deb(arch)),
    )
}

/// Entries of other versions, and files that are no Debian installer for the
/// architecture, make no difference wherever they stand: catalogs that agree on the
/// rest give the same package or the same failure.
pub proof fn law_only_matching_entries_count(
    first: Seq<VersionEntry>,
    second: Seq<VersionEntry>,
    version: Seq<char>,
    arch: Seq<char>,
)
    requires
        relevant_debs(first, version, arch) == relevant_debs(second, version, arch),
    ensures
        deb_asset(first, version, arch) == deb_asset(second, version, arch),
{
    lemma_first_release_is_first_match(first, version);
    lemma_first_release_is_first_match(second, version);
    let (ours, theirs) = (
        first.filter(has_version(version)),
        second.filter(has_version(version)),
    );
    assert(ours.len() == relevant_debs(first, version, arch).len());
    assert(theirs.len() == relevant_debs(second, version, arch).len());
    if ours.len() > 0 {
        lemma_first_deb_is_first_match(ours[0].artifacts@, arch);
        lemma_first_deb_is_first_match(theirs[0].artifacts@, arch);
        assert(relevant_debs(first, version, arch)[0] == ours[0].artifacts@.filter(is_deb(arch)));
        assert(relevant_debs(second, version, arch)[0] == theirs[0].artifacts@.filter(
            is_deb(arch),
        ));
    }
}

proof fn lemma_filter_from_the_front<A>(s: Seq<A>, keep: spec_fn(A) -> bool)
    requires
        s.len() > 0,
    ensures
        s.filter(keep) == (if keep(s[0]) {
            seq![s[0]] + s.drop_first().filter(keep)
        } else {
            s.drop_first().filter(keep)
        }),
{
    let head = seq![s[0]];
    assert(s =~= head + s.drop_first());
    Seq::filter_distributes_over_add(head, s.drop_first(), keep);
    reveal_with_fuel(Seq::filter, 2);
    assert(head.drop_last() =~= seq![]);
    assert(head.filter(keep) =~= if keep(s[0]) {
        head
    } else {
        seq![]
    });
}

proof fn lemma_first_release_is_first_match(versions: Seq<VersionEntry>, version: Seq<char>)
    ensures
        ({
            let matching = versions.filter(has_version(version));
            first_release(versions, version) == (if matching.len() > 0 {
                Some(matching[0])
            } else {
                None
            })
        }),
    decreases versions.len(),
{
    if versions.len() > 0 {
        lemma_filter_from_the_front(versions, has_version(version));
        lemma_first_release_is_first_match(versions.drop_first(), version);
    } else {
        reveal(Seq::filter);
    }
}

proof fn lemma_first_deb_is_first_match(artifacts: Seq<ArtifactEntry>, arch: Seq<char>)
    ensures
        ({
            let matching = artifacts.filter(is_deb(arch));
            first_deb(artifacts, arch) == (if matching.len() > 0 {
                Some(matching[0])
            } else {
                None
            })
        }),
    decreases artifacts.len(),
{
    if artifacts.len() > 0 {
        lemma_filter_from_the_front(artifacts, is_deb(arch));
        lemma_first_deb_is_first_match(artifacts.drop_first(), arch);
    } else {
        reveal(Seq::filter);
    }
}

proof fn lemma_first_release_of_extension(
    versions: Seq<VersionEntry>,
    more: Seq<VersionEntry>,
    version: Seq<char>,
)
    requires
        first_release(versions, version) is Some,
    ensures
        first_release(versions + more, version) == first_release(versions, version),
    decreases versions.len(),
{
    if versions[0].version@ != version {
        lemma_first_release_of_extension(versions.drop_first(), more, version);
        assert((versions + more).drop_first() =~= versions.drop_first() + more);
    }
}

/// A file is the Debian installer for an architecture exactly where the catalog
/// calls it an installer, of the variant `deb`, for `linux`, on that architecture;
/// nothing else about it counts.
pub proof fn law_deb_marks(artifact: ArtifactEntry, arch: Seq<char>)
    ensures
        is_deb_for(artifact, arch) <==> {
            &&& artifact.kind@ == "installer"@
            &&& artifact.variant is Some
            &&& artifact.variant->0@ == "deb"@
            &&& artifact.platform@ == "linux"@
            &&& artifact.architecture@ == arch
        },
{
}

/// The entry at this place carries the version, and none before it does.
pub open spec fn first_listed(versions: Seq<VersionEntry>, version: Seq<char>, i: int) -> bool {
    &&& 0 <= i < versions.len()
    &&& versions[i].version@ == version
    &&& forall|k: int| 0 <= k < i ==> (#[trigger] versions[k]).version@ != version
}

/// The file at this place is a Debian installer for Linux on the architecture, and
/// none before it is one.
pub open spec fn first_installer(artifacts: Seq<ArtifactEntry>, arch: Seq<char>, j: int) -> bool {
    &&& 0 <= j < artifacts.len()
    &&& is_deb_for(artifacts[j], arch)
    &&& forall|k: int| 0 <= k < j ==> !is_deb_for(#[trigger] artifacts[k], arch)
}

/// The package of a version is found wherever the catalog lists it: where the first
/// entry with the version has a Debian installer for the architecture, the first
/// such installer has a digest, and the URL made of the server's address and its
/// path parses, the package is that URL with that installer's digest and size. It is
/// missing for the lack of a digest or of a URL alone.
pub proof fn law_listed_package_is_found(
    versions: Seq<VersionEntry>,
    version: Seq<char>,
    arch: Seq<char>,
    i: int,
    j: int,
)
    requires
        first_listed(versions, version, i),
        first_installer(versions[i].artifacts@, arch, j),
    ensures
        ({
            let artifact = versions[i].artifacts@[j];
            let location = "https://update.axlmc.org/"@ + artifact.relative_path@;
            let source = deb_source(versions, version, arch);
            let asset = deb_asset(versions, version, arch);
            match artifact.sha256 {
                Some(sha256) => {
                    &&& source == Ok::<_, ErrorView>(
                        DebSourceView { location, sha256: sha256@, size: artifact.size },
                    )
                    &&& parsed_url(location) matches Ok(url) ==> asset == Ok::<_, ErrorView>(
                        AptDebAssetView { url, sha256: sha256@, size: artifact.size },
                    )
                    &&& parsed_url(location) matches Err(error) ==> asset == Err::<
                        AptDebAssetView,
                        _,
                    >(Failure::InvalidUrl { error })
                },
                None => {
                    &&& source == Err::<DebSourceView, _>(Failure::NoDebSha256 { version })
                    &&& asset == Err::<AptDebAssetView, _>(Failure::NoDebSha256 { version })
                },
            }
        }),
{
    let artifacts = versions[i].artifacts@;
    law_unlisted_version(versions, version);
    let first = law_release_is_listed(versions, version);
    assert(first == i);
    law_no_deb(artifacts, arch);
    let place = law_deb_is_listed(artifacts, arch);
    assert(place == j);
}

/// The lookup tells that a version is not listed exactly where no entry carries it.
pub proof fn law_lookup_of_an_unlisted_version(
    versions: Seq<VersionEntry>,
    version: Seq<char>,
    arch: Seq<char>,
)
    ensures
        (forall|i: int| 0 <= i < versions.len() ==> (#[trigger] versions[i]).version@ != version)
            <==> deb_source(versions, version, arch) == Err::<DebSourceView, _>(
            Failure::VersionNotInCatalog { version },
        ),
        (forall|i: int| 0 <= i < versions.len() ==> (#[trigger] versions[i]).version@ != version)
            <==> deb_asset(versions, version, arch) == Err::<AptDebAssetView, _>(
            Failure::VersionNotInCatalog { version },
        ),
{
    law_unlisted_version(versions, version);
}

/// The lookup of a listed version tells that it has no Debian installer exactly where
/// the first entry with the version has none.
pub proof fn law_lookup_without_an_installer(
    versions: Seq<VersionEntry>,
    version: Seq<char>,
    arch: Seq<char>,
    i: int,
)
    requires
        first_listed(versions, version, i),
    ensures
        (forall|j: int|
            0 <= j < versions[i].artifacts@.len() ==> !is_deb_for(
                #[trigger] versions[i].artifacts@[j],
                arch,
            ))
            <==> deb_source(versions, version, arch) == Err::<DebSourceView, _>(
            Failure::NoDebArtifact { version, arch },
        ),
        (forall|j: int|
            0 <= j < versions[i].artifacts@.len() ==> !is_deb_for(
                #[trigger] versions[i].artifacts@[j],
                arch,
            ))
            <==> deb_asset(versions, version, arch) == Err::<AptDebAssetView, _>(
            Failure::NoDebArtifact { version, arch },
        ),
{
    let artifacts = versions[i].artifacts@;
    law_unlisted_version(versions, version);
    let first = law_release_is_listed(versions, version);
    assert(first == i);
    law_no_deb(artifacts, arch);
}

/// A package keeps the catalog's digest and size at the URL that its location parsed
/// to; the parser's message is the only failure.
pub proof fn law_located_package(source: DebSourceView, text: Seq<char>)
    ensures
        located(source, Ok(text)) == Ok::<_, ErrorView>(
            AptDebAssetView { url: text, sha256: source.sha256, size: source.size },
        ),
        located(source, Err(text)) == Err::<AptDebAssetView, _>(Failure::InvalidUrl { error: text }),
{
}

} // verus!
