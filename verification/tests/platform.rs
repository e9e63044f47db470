use launcher_updater::failure::Failure;
use launcher_updater::platform::{
    apt_deb_arch, is_apt_linux, update_channel, update_platform, SystemProbe,
};

const DEBIAN: SystemProbe = SystemProbe {
    linux: true,
    debian_version: true,
    apt_config: true,
    apt_get: true,
    usr_bin_pkexec: true,
    bin_pkexec: true,
};

#[test]
fn debian_with_pkexec_updates_through_apt() {
    assert!(is_apt_linux(&DEBIAN));
    let only_config = SystemProbe { debian_version: false, apt_get: false, ..DEBIAN };
    assert!(is_apt_linux(&only_config));
    let only_apt_get = SystemProbe { debian_version: false, apt_config: false, ..DEBIAN };
    assert!(is_apt_linux(&only_apt_get));
    let only_bin = SystemProbe { usr_bin_pkexec: false, ..DEBIAN };
    assert!(is_apt_linux(&only_bin));
    let only_usr_bin = SystemProbe { bin_pkexec: false, ..DEBIAN };
    assert!(is_apt_linux(&only_usr_bin));
}

#[test]
fn other_systems_do_not_update_through_apt() {
    let no_pkexec = SystemProbe { usr_bin_pkexec: false, bin_pkexec: false, ..DEBIAN };
    assert!(!is_apt_linux(&no_pkexec));
    let not_debian =
        SystemProbe { debian_version: false, apt_config: false, apt_get: false, ..DEBIAN };
    assert!(!is_apt_linux(&not_debian));
    let not_linux = SystemProbe { linux: false, ..DEBIAN };
    assert!(!is_apt_linux(&not_linux));
}

#[test]
fn debian_names_of_architectures() {
    assert_eq!(apt_deb_arch("x86_64"), Ok("amd64"));
    assert_eq!(apt_deb_arch("aarch64"), Ok("arm64"));
    assert_eq!(
        apt_deb_arch("arm"),
        Err(Failure::UnsupportedAptArchitecture { arch: "arm".to_string() })
    );
}

#[test]
fn release_and_beta_are_the_channels() {
    assert_eq!(update_channel("release"), Ok("release"));
    assert_eq!(update_channel("beta"), Ok("beta"));
    assert_eq!(
        update_channel("Release"),
        Err(Failure::UnknownChannel { channel: "Release".to_string() })
    );
    assert_eq!(update_channel(""), Err(Failure::UnknownChannel { channel: String::new() }));
}

#[test]
fn platforms_of_the_update_server() {
    assert_eq!(update_platform("windows", "x86_64"), Ok("windows-x86_64"));
    assert_eq!(update_platform("linux", "x86_64"), Ok("linux-x86_64"));
    assert_eq!(update_platform("linux", "aarch64"), Ok("linux-aarch64"));
    assert_eq!(update_platform("macos", "x86_64"), Ok("darwin-x86_64"));
    assert_eq!(update_platform("macos", "aarch64"), Ok("darwin-aarch64"));
    assert_eq!(
        update_platform("windows", "aarch64"),
        Err(Failure::UnsupportedPlatform {
            os: "windows".to_string(),
            arch: "aarch64".to_string()
        })
    );
}

#[test]
fn linux_platforms_have_debian_packages() {
    for arch in ["x86_64", "aarch64", "x86", "riscv64", ""] {
        assert_eq!(update_platform("linux", arch).is_ok(), apt_deb_arch(arch).is_ok());
    }
}

#[test]
fn platform_names_are_not_shared() {
    let mut names = Vec::new();
    for os in ["windows", "linux", "macos"] {
        for arch in ["x86_64", "aarch64"] {
            if let Ok(name) = update_platform(os, arch) {
                assert!(!names.contains(&name));
                names.push(name);
            }
        }
    }
    assert_eq!(names.len(), 5);
}
