use wc_server_resolver::platform::{select_asset, fallback_asset_name, Arch, Os};

#[test]
fn selector_linux_x64_is_native() {
    let sel = select_asset(Os::Linux, Arch::X8664);
    assert_eq!(sel.asset_name, "server-linux-x64");
    assert!(!sel.requires_host_runtime);
}

#[test]
fn selector_linux_arm64_is_native() {
    let sel = select_asset(Os::Linux, Arch::Aarch64);
    assert_eq!(sel.asset_name, "server-linux-arm64");
    assert!(!sel.requires_host_runtime);
}

#[test]
fn selector_mac_x64_is_native() {
    let sel = select_asset(Os::Mac, Arch::X8664);
    assert_eq!(sel.asset_name, "server-mac-x64");
    assert!(!sel.requires_host_runtime);
}

#[test]
fn selector_mac_arm64_is_native() {
    let sel = select_asset(Os::Mac, Arch::Aarch64);
    assert_eq!(sel.asset_name, "server-mac-arm64");
    assert!(!sel.requires_host_runtime);
}

#[test]
fn selector_windows_x64_is_native() {
    let sel = select_asset(Os::Windows, Arch::X8664);
    assert_eq!(sel.asset_name, "server-win-x64");
    assert!(!sel.requires_host_runtime);
}

#[test]
fn selector_unrecognized_pairs_fall_back() {
    for (os, arch) in [
        (Os::Linux, Arch::X86),
        (Os::Mac, Arch::X86),
        (Os::Windows, Arch::X86),
        (Os::Windows, Arch::Aarch64),
    ] {
        let sel = select_asset(os, arch);
        assert_eq!(sel.asset_name, "wc-language-server.js");
        assert!(sel.requires_host_runtime);
    }
}

#[test]
fn selector_names_are_never_empty() {
    for os in [Os::Linux, Os::Mac, Os::Windows] {
        for arch in [Arch::Aarch64, Arch::X86, Arch::X8664] {
            assert!(!select_asset(os, arch).asset_name.is_empty());
        }
    }
}

#[test]
fn fallback_name_matches_selector_fallback() {
    assert_eq!(fallback_asset_name(), "wc-language-server.js");
    let sel = select_asset(Os::Windows, Arch::Aarch64);
    assert_eq!(sel.asset_name, fallback_asset_name());
}
