use launcher_updater::catalog::{ArtifactEntry, VersionEntry, VersionsResponse};
use launcher_updater::check::{
    check_app_update, force_update, published_at, update_metadata, use_catalog_deb, CheckStep,
    RawField, UpdateInfo,
};
use launcher_updater::failure::Failure;
use serde_json::Value;

fn announced(json: &str) -> UpdateInfo {
    UpdateInfo {
        current_version: "1.0.0".to_string(),
        version: "1.1.0".to_string(),
        body: Some("notes".to_string()),
        raw_json: serde_json::from_str(json).unwrap(),
        download_url: "https://example.org/app.AppImage".to_string(),
        timeout_secs: None,
    }
}

fn catalog() -> VersionsResponse {
    VersionsResponse {
        versions: vec![VersionEntry {
            version: "1.1.0".to_string(),
            artifacts: vec![ArtifactEntry {
                kind: "installer".to_string(),
                variant: Some("deb".to_string()),
                platform: "linux".to_string(),
                architecture: "x86_64".to_string(),
                relative_path: "1.1.0/app.deb".to_string(),
                sha256: Some("cc".to_string()),
                size: 7,
            }],
        }],
    }
}

#[test]
fn without_an_announcement_the_launcher_is_up_to_date() {
    assert!(matches!(check_app_update(None, true), CheckStep::UpToDate));
    assert!(matches!(check_app_update(None, false), CheckStep::UpToDate));
}

#[test]
fn every_offered_download_is_bounded() {
    match check_app_update(Some(announced("{}")), false) {
        CheckStep::Offer(update) => {
            assert_eq!(update.timeout_secs, Some(900));
            assert_eq!(update.download_url, "https://example.org/app.AppImage");
        }
        _ => panic!(),
    }
    match check_app_update(Some(announced("{}")), true) {
        CheckStep::FetchCatalog(update) => {
            let update = use_catalog_deb(update, &catalog(), "x86_64").unwrap();
            assert_eq!(update.timeout_secs, Some(900));
        }
        _ => panic!(),
    }
}

#[test]
fn apt_updates_point_into_the_catalog() {
    let update = use_catalog_deb(announced("{\"a\": 1}"), &catalog(), "x86_64").unwrap();
    assert_eq!(update.download_url, "https://update.axlmc.org/1.1.0/app.deb");
    assert_eq!(update.version, "1.1.0");
    assert_eq!(update.current_version, "1.0.0");
    assert_eq!(update.body, Some("notes".to_string()));
    assert_eq!(update.raw_json, serde_json::from_str::<Value>("{\"a\": 1}").unwrap());
    assert_eq!(
        use_catalog_deb(announced("{}"), &catalog(), "aarch64").unwrap_err(),
        Failure::NoDebArtifact { version: "1.1.0".to_string(), arch: "aarch64".to_string() }
    );
}

#[test]
fn metadata_tells_of_the_update() {
    let json = "{\"published_at\": \"2026-01-02\", \"force_update\": true, \"x\": [1]}";
    let metadata = update_metadata(41, announced(json));
    assert_eq!(metadata.rid, 41);
    assert_eq!(metadata.current_version, "1.0.0");
    assert_eq!(metadata.version, "1.1.0");
    assert_eq!(metadata.date, None);
    assert_eq!(metadata.body, Some("notes".to_string()));
    assert_eq!(metadata.published_at, Some("2026-01-02".to_string()));
    assert!(metadata.force_update);
    assert_eq!(metadata.raw_json, serde_json::from_str::<Value>(json).unwrap());
}

#[test]
fn members_of_other_types_tell_nothing() {
    for json in [
        "{}",
        "null",
        "[\"published_at\", \"force_update\"]",
        "\"force_update\"",
        "{\"published_at\": 3, \"force_update\": \"true\"}",
        "{\"published_at\": null, \"force_update\": null}",
        "{\"published_at\": [\"d\"], \"force_update\": 1}",
        "{\"published_at\": {\"d\": \"d\"}, \"force_update\": {\"force_update\": true}}",
        "{\"published_at\": true, \"force_update\": false}",
        "{\"Published_At\": \"d\", \"FORCE_UPDATE\": true}",
    ] {
        let metadata = update_metadata(1, announced(json));
        assert_eq!(metadata.published_at, None, "{json}");
        assert!(!metadata.force_update, "{json}");
    }
}

#[test]
fn members_are_read_by_their_type() {
    assert_eq!(published_at(Some(RawField::Text("d".to_string()))), Some("d".to_string()));
    assert_eq!(published_at(Some(RawField::Bool(true))), None);
    assert_eq!(published_at(None), None);
    assert!(force_update(Some(RawField::Bool(true))));
    assert!(!force_update(Some(RawField::Bool(false))));
    assert!(!force_update(Some(RawField::Text("true".to_string()))));
    assert!(!force_update(None));
}
