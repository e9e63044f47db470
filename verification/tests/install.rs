use launcher_updater::failure::Failure;
use launcher_updater::install::{
    advance, install_apt_package, install_command, install_failure, install_result, InstallEvent,
    InstallStep,
};

fn name_of(step: &InstallStep<String>) -> &'static str {
    match step {
        InstallStep::Write { .. } => "write",
        InstallStep::Install => "install",
        InstallStep::Remove(Ok(())) => "remove",
        InstallStep::Remove(Err(_)) => "remove after a failure",
        InstallStep::Finished(Ok(())) => "success",
        InstallStep::Finished(Err(_)) => "failure",
    }
}

fn run(events: Vec<InstallEvent>) -> Vec<&'static str> {
    let mut step = install_apt_package(true, "x86_64", "1.2.3");
    let mut taken = vec![name_of(&step)];
    for event in events {
        step = advance(step, event);
        taken.push(name_of(&step));
    }
    taken
}

fn exited(success: bool, stderr: &[u8]) -> InstallEvent {
    InstallEvent::Exited { success, stderr: stderr.to_vec() }
}

#[test]
fn the_installer_is_run_with_privileges() {
    let command = install_command();
    assert_eq!(command.program, "pkexec");
    assert_eq!(command.args, vec!["apt", "install"]);
}

#[test]
fn the_package_is_written_under_its_name_first() {
    assert_eq!(
        install_apt_package(true, "x86_64", "1.2.3"),
        InstallStep::Write { file_name: "Axolotl.Launcher_1.2.3_amd64.deb".to_string() }
    );
    assert_eq!(
        install_apt_package(true, "aarch64", "2.0.0-beta.1"),
        InstallStep::Write { file_name: "Axolotl.Launcher_2.0.0-beta.1_arm64.deb".to_string() }
    );
}

#[test]
fn an_installation_is_refused_at_once() {
    assert_eq!(
        install_apt_package(false, "arm", "1"),
        InstallStep::Finished(Err(Failure::AptUnavailable))
    );
    assert_eq!(
        install_apt_package(true, "arm", "1"),
        InstallStep::Finished(Err(Failure::UnsupportedAptArchitecture {
            arch: "arm".to_string()
        }))
    );
}

#[test]
fn a_successful_installation_takes_every_step() {
    assert_eq!(
        run(vec![InstallEvent::Written, exited(true, b"noise"), InstallEvent::Removed]),
        vec!["write", "install", "remove", "success"]
    );
}

#[test]
fn the_file_is_removed_whatever_the_installer_did() {
    for event in [
        exited(false, b"E"),
        InstallEvent::NotStarted("no pkexec".to_string()),
        InstallEvent::NotJoined("cancelled".to_string()),
    ] {
        assert_eq!(
            run(vec![InstallEvent::Written, event, InstallEvent::Removed]),
            vec!["write", "install", "remove after a failure", "failure"]
        );
    }
}

#[test]
fn a_file_that_was_not_written_is_not_installed() {
    let step = install_apt_package(true, "x86_64", "1");
    assert_eq!(
        advance(step, InstallEvent::WriteFailed("disk full".to_string())),
        InstallStep::Finished(Err(Failure::DebNotWritten { error: "disk full".to_string() }))
    );
}

#[test]
fn a_run_that_failed_is_told() {
    assert_eq!(
        advance(InstallStep::Install, InstallEvent::NotJoined("cancelled".to_string())),
        InstallStep::Remove(Err(Failure::UpdaterNotRun { error: "cancelled".to_string() }))
    );
    assert_eq!(
        advance(InstallStep::Install, InstallEvent::NotStarted("missing".to_string())),
        InstallStep::Remove(Err(Failure::PkexecNotStarted { error: "missing".to_string() }))
    );
    assert_eq!(
        advance(InstallStep::Install, exited(false, b"E: broken\n")),
        InstallStep::Remove(Err(Failure::AptInstallFailed { stderr: "E: broken".to_string() }))
    );
}

#[test]
fn error_output_is_decoded_and_trimmed() {
    assert_eq!(install_result(true, b"ignored"), Ok(()));
    assert_eq!(
        install_result(false, " \t\u{3000}a \u{e9}\u{85}\u{2029}\r\n".as_bytes()),
        Err(Failure::AptInstallFailed { stderr: "a \u{e9}".to_string() })
    );
    assert_eq!(
        install_result(false, &[b'x', 0xff, b'y', b' ']),
        Err(Failure::AptInstallFailed { stderr: "x\u{fffd}y".to_string() })
    );
    assert_eq!(
        install_result(false, b" \n "),
        Err(Failure::AptInstallFailed { stderr: String::new() })
    );
}

#[test]
fn every_white_space_character_is_trimmed() {
    for code in 0..=0x10ffff {
        if let Some(c) = char::from_u32(code) {
            let listed = matches!(code, 0x09..=0x0d | 0x20 | 0x85 | 0xa0 | 0x1680
                | 0x2000..=0x200a | 0x2028 | 0x2029 | 0x202f | 0x205f | 0x3000);
            let told = if listed { String::new() } else { format!("{c}") };
            assert_eq!(
                install_result(false, format!("{c}").as_bytes()),
                Err(Failure::AptInstallFailed { stderr: told })
            );
        }
    }
}

#[test]
fn events_of_other_steps_change_nothing() {
    let file_name = || "f".to_string();
    assert_eq!(
        advance(InstallStep::Write { file_name: file_name() }, InstallEvent::Removed),
        InstallStep::Write { file_name: file_name() }
    );
    assert_eq!(advance(InstallStep::Install, InstallEvent::Written), InstallStep::Install);
    assert_eq!(
        advance(InstallStep::Remove(Ok(())), InstallEvent::Written),
        InstallStep::Remove(Ok(()))
    );
    assert_eq!(
        advance(InstallStep::Finished(Ok(())), InstallEvent::Removed),
        InstallStep::Finished(Ok(()))
    );
}

#[test]
fn decoded_error_output_is_trimmed() {
    assert_eq!(
        install_failure("\n E: held packages \n"),
        Failure::AptInstallFailed { stderr: "E: held packages".to_string() }
    );
}
