use launcher_updater::catalog::{
    fetch_apt_deb_asset, locate_deb, select_deb, AptDebAsset, ArtifactEntry, DebSource,
    VersionEntry, VersionsResponse,
};
use launcher_updater::failure::Failure;

fn deb(arch: &str, path: &str, sha256: Option<&str>, size: u64) -> ArtifactEntry {
    ArtifactEntry {
        kind: "installer".to_string(),
        variant: Some("deb".to_string()),
        platform: "linux".to_string(),
        architecture: arch.to_string(),
        relative_path: path.to_string(),
        sha256: sha256.map(str::to_string),
        size,
    }
}

fn entry(version: &str, artifacts: Vec<ArtifactEntry>) -> VersionEntry {
    VersionEntry { version: version.to_string(), artifacts }
}

fn catalog(versions: Vec<VersionEntry>) -> VersionsResponse {
    VersionsResponse { versions }
}

#[test]
fn the_package_of_a_version_is_found() {
    let mut appimage = deb("x86_64", "a.AppImage", Some("00"), 1);
    appimage.variant = Some("appimage".to_string());
    let mut bare = deb("x86_64", "bare", Some("01"), 2);
    bare.variant = None;
    let mut updater = deb("x86_64", "updater", Some("02"), 3);
    updater.kind = "updater".to_string();
    let mut windows = deb("x86_64", "setup.exe", Some("03"), 4);
    windows.platform = "windows".to_string();
    let catalog = catalog(vec![
        entry("1.0.0", vec![deb("x86_64", "old.deb", Some("aa"), 5)]),
        entry(
            "1.1.0",
            vec![
                appimage,
                bare,
                updater,
                windows,
                deb("aarch64", "arm.deb", Some("bb"), 6),
                deb("x86_64", "new.deb", Some("cc"), 7),
            ],
        ),
    ]);
    assert_eq!(
        fetch_apt_deb_asset(&catalog, "1.1.0", "x86_64"),
        Ok(AptDebAsset {
            url: "https://update.axlmc.org/new.deb".to_string(),
            sha256: "cc".to_string(),
            size: 7,
        })
    );
    assert_eq!(
        fetch_apt_deb_asset(&catalog, "1.1.0", "aarch64").unwrap().url,
        "https://update.axlmc.org/arm.deb"
    );
}

#[test]
fn the_location_is_normalised() {
    let catalog =
        catalog(vec![entry("1", vec![deb("x86_64", "old/../v 1/é.deb", Some("cc"), 7)])]);
    assert_eq!(
        select_deb(&catalog, "1", "x86_64").unwrap().location,
        "https://update.axlmc.org/old/../v 1/é.deb"
    );
    assert_eq!(
        fetch_apt_deb_asset(&catalog, "1", "x86_64").unwrap().url,
        "https://update.axlmc.org/v%201/%C3%A9.deb"
    );
}

#[test]
fn an_unlisted_version_is_refused() {
    let refused =
        Err(Failure::VersionNotInCatalog { version: "2.0.0".to_string() });
    assert_eq!(fetch_apt_deb_asset(&catalog(vec![]), "2.0.0", "x86_64"), refused);
    let catalog = catalog(vec![entry("2.0", vec![deb("x86_64", "a", Some("b"), 1)])]);
    assert_eq!(fetch_apt_deb_asset(&catalog, "2.0.0", "x86_64"), refused);
}

#[test]
fn a_version_without_a_package_is_refused() {
    let catalog = catalog(vec![entry("1", vec![deb("x86_64", "a", Some("b"), 1)])]);
    assert_eq!(
        fetch_apt_deb_asset(&catalog, "1", "aarch64"),
        Err(Failure::NoDebArtifact { version: "1".to_string(), arch: "aarch64".to_string() })
    );
}

#[test]
fn a_package_without_a_digest_is_refused() {
    let catalog = catalog(vec![entry(
        "1",
        vec![deb("x86_64", "a", None, 1), deb("x86_64", "b", Some("b"), 1)],
    )]);
    assert_eq!(
        fetch_apt_deb_asset(&catalog, "1", "x86_64"),
        Err(Failure::NoDebSha256 { version: "1".to_string() })
    );
}

#[test]
fn the_first_entry_with_the_version_decides() {
    let twice = catalog(vec![
        entry("1", vec![]),
        entry("1", vec![deb("x86_64", "late.deb", Some("b"), 1)]),
    ]);
    assert_eq!(
        fetch_apt_deb_asset(&twice, "1", "x86_64"),
        Err(Failure::NoDebArtifact { version: "1".to_string(), arch: "x86_64".to_string() })
    );
    let extended = catalog(vec![
        entry("1", vec![deb("x86_64", "first.deb", Some("b"), 1)]),
        entry("1", vec![deb("x86_64", "late.deb", Some("c"), 2)]),
    ]);
    assert_eq!(
        fetch_apt_deb_asset(&extended, "1", "x86_64").unwrap().url,
        "https://update.axlmc.org/first.deb"
    );
}

#[test]
fn an_unparsable_location_is_refused() {
    let source = || DebSource {
        location: "https://".to_string(),
        sha256: "cc".to_string(),
        size: 7,
    };
    assert_eq!(
        locate_deb(source(), Err("empty host".to_string())),
        Err(Failure::InvalidUrl { error: "empty host".to_string() })
    );
    assert_eq!(
        locate_deb(source(), Ok("https://a/".to_string())),
        Ok(AptDebAsset { url: "https://a/".to_string(), sha256: "cc".to_string(), size: 7 })
    );
}

#[test]
fn no_path_leaves_the_update_server() {
    for path in [
        "//evil.org/a.deb",
        "@evil.org",
        "user:secret@evil.org/a",
        "https://evil.org/a",
        "../a",
        "../../../a",
        "..",
        "//..",
        "///../../..//../b",
        "%2e%2e/%2E./a",
        "\\\\evil.org\\a",
        "..\\..\\a",
        ":8080/a",
        "\t@evil.org",
        "\n\r//evil.org",
        "?q=//evil.org",
        "#@evil.org",
        "  ",
        "",
    ] {
        let catalog = catalog(vec![entry("1", vec![deb("x86_64", path, Some("cc"), 7)])]);
        let url = fetch_apt_deb_asset(&catalog, "1", "x86_64").unwrap().url;
        assert!(url.starts_with("https://update.axlmc.org/"), "{path:?}: {url}");
        let parsed = url::Url::parse(&url).unwrap();
        assert_eq!(parsed.scheme(), "https");
        assert_eq!(parsed.host_str(), Some("update.axlmc.org"));
        assert_eq!(parsed.port(), None);
        assert_eq!(parsed.username(), "");
    }
}

#[test]
fn only_matching_entries_count() {
    let mut windows = deb("x86_64", "setup.exe", Some("03"), 4);
    windows.platform = "windows".to_string();
    let crowded = catalog(vec![
        entry("0.9", vec![deb("x86_64", "old.deb", Some("aa"), 5)]),
        entry(
            "1",
            vec![
                deb("aarch64", "arm.deb", Some("bb"), 6),
                deb("x86_64", "new.deb", Some("cc"), 7),
                windows,
            ],
        ),
        entry("1.1", vec![deb("x86_64", "next.deb", Some("dd"), 8)]),
    ]);
    let bare = catalog(vec![entry("1", vec![deb("x86_64", "new.deb", Some("cc"), 7)])]);
    assert_eq!(
        fetch_apt_deb_asset(&crowded, "1", "x86_64"),
        fetch_apt_deb_asset(&bare, "1", "x86_64")
    );
    assert!(fetch_apt_deb_asset(&bare, "1", "x86_64").is_ok());
}
