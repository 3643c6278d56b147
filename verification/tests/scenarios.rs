//! End-to-end resolution walks, with the embedding layer's work simulated.

use wc_server_resolver::command::build_command;
use wc_server_resolver::installer::{InstallAction, Installer, StepOutcome};
use wc_server_resolver::paths::server_paths;
use wc_server_resolver::platform::{select_asset, Arch, Os};
use wc_server_resolver::release::{screen_release, FeedOptions, RawRelease, ReleaseAsset};
use wc_server_resolver::resolver::{conclude_install, decide, resolve_override, Resolution};
use wc_server_resolver::store::VersionStore;

#[test]
fn fresh_install_downloads_records_and_runs_directly() {
    // The feed's latest release is 2.3.0 with the platform-native asset; no
    // binary and no marker exist yet.
    let raw = RawRelease {
        version: "2.3.0".to_string(),
        prerelease: false,
        assets: vec![ReleaseAsset {
            name: "server-linux-x64".to_string(),
            download_url: "https://releases.example/server-linux-x64".to_string(),
        }],
    };
    let options = FeedOptions { require_assets: true, allow_prerelease: false };
    let release = screen_release(raw, &options).expect("the release is acceptable");

    assert!(resolve_override(&None).is_none());
    let sel = select_asset(Os::Linux, Arch::X8664);
    assert_eq!(sel.asset_name, "server-linux-x64");
    assert!(!sel.requires_host_runtime);

    let paths = server_paths(&"/ext".to_string());
    let mut store = VersionStore::absent();
    let binary_exists = false;

    let feed = Ok(release);
    let decision = decide(&sel, &feed, binary_exists, &store, &paths.script);
    let (asset_index, planned_mode) = match decision {
        Resolution::Install { asset_index, requires_host_runtime } => {
            (asset_index, requires_host_runtime)
        }
        _ => panic!("a fresh platform must install"),
    };
    let release = feed.as_ref().ok().unwrap();

    let mut downloads: usize = 0;
    let mut inst = Installer::start(
        &release.assets[asset_index],
        &release.version,
        &paths.script,
    );
    loop {
        match inst.next_action() {
            InstallAction::Finished => break,
            InstallAction::Download { .. } => {
                downloads += 1;
                inst.report(StepOutcome::Succeeded, &mut store);
            }
            _ => inst.report(StepOutcome::Succeeded, &mut store),
        }
    }
    assert!(inst.is_complete());
    assert_eq!(downloads, 1);
    // The marker ends up holding exactly the release's tag.
    assert_eq!(store.read(), Some(&"2.3.0".to_string()));

    let resolved = conclude_install(&inst, planned_mode, &sel, binary_exists, &paths.script);
    let (path, mode) = match resolved {
        Resolution::UseBinary { path, requires_host_runtime } => (path, requires_host_runtime),
        _ => panic!("the completed install must resolve"),
    };
    assert_eq!(path, "/ext/server/bin/wc-language-server.js");
    assert!(!mode);

    // The resolved command uses the downloaded path directly: no
    // host-runtime prefix.
    let command = build_command(&path, mode, &"/usr/bin/node".to_string());
    assert_eq!(command.program, path);
    assert_eq!(command.args, vec!["--stdio".to_string()]);
    assert!(command.env.is_empty());
}

#[test]
fn matching_marker_and_feed_version_download_nothing() {
    // The marker holds 2.3.0 and the feed reports 2.3.0: zero downloads, and
    // the resolved path is the pre-existing binary.
    let raw = RawRelease {
        version: "2.3.0".to_string(),
        prerelease: false,
        assets: vec![ReleaseAsset {
            name: "server-linux-x64".to_string(),
            download_url: "https://releases.example/server-linux-x64".to_string(),
        }],
    };
    let options = FeedOptions { require_assets: true, allow_prerelease: false };
    let release = screen_release(raw, &options).expect("the release is acceptable");

    let sel = select_asset(Os::Linux, Arch::X8664);
    let paths = server_paths(&"/ext".to_string());
    let store = VersionStore::from_marker_text("2.3.0");
    let binary_exists = true;

    let decision = decide(&sel, &Ok(release), binary_exists, &store, &paths.script);
    match decision {
        Resolution::UseBinary { path, requires_host_runtime } => {
            assert_eq!(path, paths.script);
            assert!(!requires_host_runtime);
        }
        Resolution::Install { .. } => panic!("an up-to-date cache must download nothing"),
        Resolution::Fatal { .. } => panic!("an up-to-date cache must not fail"),
    }
    // The marker is untouched.
    assert_eq!(store.read(), Some(&"2.3.0".to_string()));
}
