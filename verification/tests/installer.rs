use wc_server_resolver::installer::{InstallAction, Installer, StepOutcome};
use wc_server_resolver::platform::{select_asset, Arch, Os};
use wc_server_resolver::release::ReleaseAsset;
use wc_server_resolver::resolver::{conclude_install, Resolution};
use wc_server_resolver::store::VersionStore;

const SCRIPT: &str = "/ext/server/bin/wc-language-server.js";

fn asset() -> ReleaseAsset {
    ReleaseAsset {
        name: "server-linux-x64".to_string(),
        download_url: "https://releases.example/server-linux-x64".to_string(),
    }
}

fn begin() -> Installer {
    Installer::start(&asset(), &"2.3.0".to_string(), &SCRIPT.to_string())
}

#[test]
fn install_steps_run_in_order() {
    let mut store = VersionStore::absent();
    let mut inst = begin();

    match inst.next_action() {
        InstallAction::EnsureDirectory { path } => assert_eq!(path, "/ext/server/bin"),
        _ => panic!("the parent directory comes first"),
    }
    inst.report(StepOutcome::Succeeded, &mut store);

    match inst.next_action() {
        InstallAction::Download { url, target } => {
            assert_eq!(url, "https://releases.example/server-linux-x64");
            assert_eq!(target, SCRIPT);
        }
        _ => panic!("the download comes second"),
    }
    inst.report(StepOutcome::Succeeded, &mut store);

    match inst.next_action() {
        InstallAction::MarkExecutable { path } => assert_eq!(path, SCRIPT),
        _ => panic!("the executable bit comes third"),
    }
    assert_eq!(store.read(), None);
    inst.report(StepOutcome::Succeeded, &mut store);

    match inst.next_action() {
        InstallAction::RecordVersion { version } => assert_eq!(version, "2.3.0"),
        _ => panic!("the marker write comes last"),
    }
    inst.report(StepOutcome::Succeeded, &mut store);

    assert!(inst.is_complete());
    assert!(matches!(inst.next_action(), InstallAction::Finished));
    assert_eq!(store.read(), Some(&"2.3.0".to_string()));
}

#[test]
fn failed_download_never_touches_the_store() {
    let mut store = VersionStore::from_marker_text("2.2.0");
    let before = store.read().cloned();

    let mut inst = begin();
    inst.report(StepOutcome::Succeeded, &mut store);
    assert!(matches!(inst.next_action(), InstallAction::Download { .. }));
    inst.report(StepOutcome::Failed("connection reset".to_string()), &mut store);

    assert!(inst.is_aborted());
    assert_eq!(inst.failure_cause(), Some(&"connection reset".to_string()));
    assert_eq!(store.read().cloned(), before);
}

#[test]
fn failed_directory_creation_aborts_before_any_download() {
    let mut store = VersionStore::absent();
    let mut inst = begin();
    inst.report(StepOutcome::Failed("permission denied".to_string()), &mut store);
    assert!(inst.is_aborted());
    assert!(matches!(inst.next_action(), InstallAction::Finished));
    assert_eq!(store.read(), None);
}

#[test]
fn executable_bit_failure_is_ignorable() {
    let mut store = VersionStore::absent();
    let mut inst = begin();
    inst.report(StepOutcome::Succeeded, &mut store);
    inst.report(StepOutcome::Succeeded, &mut store);
    inst.report(StepOutcome::Failed("read-only metadata".to_string()), &mut store);
    assert!(matches!(inst.next_action(), InstallAction::RecordVersion { .. }));
    inst.report(StepOutcome::Succeeded, &mut store);
    assert!(inst.is_complete());
    assert_eq!(store.read(), Some(&"2.3.0".to_string()));
}

#[test]
fn failed_marker_write_aborts_and_records_nothing() {
    let mut store = VersionStore::absent();
    let mut inst = begin();
    inst.report(StepOutcome::Succeeded, &mut store);
    inst.report(StepOutcome::Succeeded, &mut store);
    inst.report(StepOutcome::Succeeded, &mut store);
    inst.report(StepOutcome::Failed("disk full".to_string()), &mut store);
    assert!(inst.is_aborted());
    assert_eq!(store.read(), None);
}

#[test]
fn completed_install_resolves_to_the_fresh_binary() {
    let mut store = VersionStore::absent();
    let mut inst = begin();
    for _ in 0..4 {
        inst.report(StepOutcome::Succeeded, &mut store);
    }
    let sel = select_asset(Os::Linux, Arch::X8664);
    let r = conclude_install(&inst, false, &sel, false, &SCRIPT.to_string());
    match r {
        Resolution::UseBinary { path, requires_host_runtime } => {
            assert_eq!(path, SCRIPT);
            assert!(!requires_host_runtime);
        }
        _ => panic!("a completed install must resolve to the target"),
    }
}

#[test]
fn failed_install_falls_back_to_the_prior_binary() {
    let mut store = VersionStore::from_marker_text("2.2.0");
    let mut inst = begin();
    inst.report(StepOutcome::Succeeded, &mut store);
    inst.report(StepOutcome::Failed("connection reset".to_string()), &mut store);
    let sel = select_asset(Os::Linux, Arch::X8664);
    let r = conclude_install(&inst, false, &sel, true, &SCRIPT.to_string());
    match r {
        Resolution::UseBinary { path, requires_host_runtime } => {
            assert_eq!(path, SCRIPT);
            assert!(!requires_host_runtime);
        }
        _ => panic!("a failed install must fall back to the prior binary"),
    }
}

#[test]
fn failed_install_with_empty_disk_is_fatal() {
    let mut store = VersionStore::absent();
    let mut inst = begin();
    inst.report(StepOutcome::Succeeded, &mut store);
    inst.report(StepOutcome::Failed("connection reset".to_string()), &mut store);
    let sel = select_asset(Os::Linux, Arch::X8664);
    let r = conclude_install(&inst, false, &sel, false, &SCRIPT.to_string());
    match r {
        Resolution::Fatal { error } => {
            let message = error.message();
            assert!(message.contains(SCRIPT));
            assert!(message.contains("connection reset"));
        }
        _ => panic!("a failed install with nothing cached must be fatal"),
    }
}
