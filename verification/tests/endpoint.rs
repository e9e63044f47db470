use launcher_updater::endpoint::{
    check_request_to, check_with_endpoints, update_endpoint, valid_url, windows_installer_arg,
    ExecutableDir, UPDATE_DOWNLOAD_TIMEOUT_SECS, UPDATE_SERVER_API,
};
use launcher_updater::failure::Failure;

#[test]
fn the_endpoint_parses() {
    assert_eq!(update_endpoint(), Ok("https://update.axlmc.org/latest".to_string()));
}

#[test]
fn addresses_and_bounds() {
    assert_eq!(UPDATE_SERVER_API, "https://update.axlmc.org/api/versions");
    assert_eq!(UPDATE_DOWNLOAD_TIMEOUT_SECS, 900);
}

#[test]
fn a_parse_error_is_told_as_it_is() {
    assert_eq!(valid_url(Ok("https://a/".to_string())), Ok("https://a/".to_string()));
    assert_eq!(
        valid_url(Err("empty host".to_string())),
        Err(Failure::InvalidUrl { error: "empty host".to_string() })
    );
}

#[test]
fn a_check_request_tells_who_asks() {
    let request = check_with_endpoints("beta", "linux", "aarch64", "1.4.0").unwrap();
    assert_eq!(request.endpoint, "https://update.axlmc.org/latest");
    let headers: Vec<(&str, &str)> = request
        .headers
        .iter()
        .map(|field| (field.name.as_str(), field.value.as_str()))
        .collect();
    assert_eq!(
        headers,
        vec![
            ("Accept", "application/json"),
            ("X-Axolotl-Channel", "beta"),
            ("X-Axolotl-Platform", "linux-aarch64"),
            ("X-Axolotl-Version", "1.4.0"),
        ]
    );
}

#[test]
fn a_check_request_is_refused_in_order() {
    let bad_url = || Err(Failure::InvalidUrl { error: "empty host".to_string() });
    assert_eq!(
        check_request_to("nightly", "plan9", "x86_64", "1.0.0", bad_url()),
        Err(Failure::UnknownChannel { channel: "nightly".to_string() })
    );
    assert_eq!(
        check_request_to("release", "plan9", "x86_64", "1.0.0", bad_url()),
        Err(Failure::UnsupportedPlatform {
            os: "plan9".to_string(),
            arch: "x86_64".to_string()
        })
    );
    assert_eq!(
        check_request_to("release", "linux", "x86_64", "1.0.0", bad_url()),
        Err(Failure::InvalidUrl { error: "empty host".to_string() })
    );
    assert!(check_request_to("release", "linux", "x86_64", "1.0.0", Ok("u".to_string())).is_ok());
}

#[test]
fn the_windows_installer_is_told_its_directory() {
    assert_eq!(
        windows_installer_arg(ExecutableDir::Found("C:\\Games\\Axolotl".to_string())),
        Ok("/INSTALL_DIR=\"C:\\Games\\Axolotl\"".to_string())
    );
    assert_eq!(
        windows_installer_arg(ExecutableDir::Unresolved("denied".to_string())),
        Err(Failure::UnresolvedExecutable { error: "denied".to_string() })
    );
    assert_eq!(
        windows_installer_arg(ExecutableDir::NoParent),
        Err(Failure::ExecutableWithoutParent)
    );
}
