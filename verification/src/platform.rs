//! Selection of the release asset that fits the running platform.

use vstd::prelude::*;
use vstd::string::*;

verus! {

/// Operating systems the selector distinguishes.
#[derive(Clone, Copy, PartialEq, Eq, Structural, Debug)]
pub enum Os {
    Linux,
    Mac,
    Windows,
}

/// CPU architectures the selector distinguishes.
#[derive(Clone, Copy, PartialEq, Eq, Structural, Debug)]
pub enum Arch {
    Aarch64,
    X86,
    X8664,
}

/// The asset chosen for a platform: its name in the release, and whether the
/// artifact is interpreted and must be run through the host runtime rather
/// than executed directly.
pub struct AssetSelection {
    pub asset_name: String,
    pub requires_host_runtime: bool,
}

/// The platform pairs that have a native, directly executable asset.
pub open spec fn spec_known_pair(os: Os, arch: Arch) -> bool {
    match (os, arch) {
        (Os::Linux, Arch::X8664) => true,
        (Os::Linux, Arch::Aarch64) => true,
        (Os::Mac, Arch::X8664) => true,
        (Os::Mac, Arch::Aarch64) => true,
        (Os::Windows, Arch::X8664) => true,
        _ => false,
    }
}

/// Name of the universal interpreted asset, runnable anywhere through the
/// host runtime.
pub open spec fn spec_fallback_asset_name() -> Seq<char> {
    "wc-language-server.js"@
}

/// The asset name selected for a platform pair; unrecognized pairs narrow to
/// the universal fallback.
pub open spec fn spec_asset_name(os: Os, arch: Arch) -> Seq<char> {
    match (os, arch) {
        (Os::Linux, Arch::X8664) => "server-linux-x64"@,
        (Os::Linux, Arch::Aarch64) => "server-linux-arm64"@,
        (Os::Mac, Arch::X8664) => "server-mac-x64"@,
        (Os::Mac, Arch::Aarch64) => "server-mac-arm64"@,
        (Os::Windows, Arch::X8664) => "server-win-x64"@,
        _ => spec_fallback_asset_name(),
    }
}

/// Native assets run directly; only the fallback needs the host runtime.
pub open spec fn spec_requires_host_runtime(os: Os, arch: Arch) -> bool {
    !spec_known_pair(os, arch)
}

/// Maps a platform pair to its asset selection. Total: never fails, it only
/// narrows to the universal fallback.
pub fn select_asset(os: Os, arch: Arch) -> (sel: AssetSelection)
    ensures
        sel.asset_name@ == spec_asset_name(os, arch),
        sel.requires_host_runtime == spec_requires_host_runtime(os, arch),
{
    match (os, arch) {
        (Os::Linux, Arch::X8664) => AssetSelection {
            asset_name: String::from_str("server-linux-x64"),
            requires_host_runtime: false,
        },
        (Os::Linux, Arch::Aarch64) => AssetSelection {
            asset_name: String::from_str("server-linux-arm64"),
            requires_host_runtime: false,
        },
        (Os::Mac, Arch::X8664) => AssetSelection {
            asset_name: String::from_str("server-mac-x64"),
            requires_host_runtime: false,
        },
        (Os::Mac, Arch::Aarch64) => AssetSelection {
            asset_name: String::from_str("server-mac-arm64"),
            requires_host_runtime: false,
        },
        (Os::Windows, Arch::X8664) => AssetSelection {
            asset_name: String::from_str("server-win-x64"),
            requires_host_runtime: false,
        },
        _ => AssetSelection {
            asset_name: String::from_str("wc-language-server.js"),
            requires_host_runtime: true,
        },
    }
}

/// The universal interpreted asset name as a value.
pub fn fallback_asset_name() -> (r: String)
    ensures
        r@ == spec_fallback_asset_name(),
{
    String::from_str("wc-language-server.js")
}

/// Law: every platform pair gets a non-empty asset name and a deterministic
/// execution mode, and every unrecognized pair gets exactly the universal
/// fallback selection, which requires the host runtime.
pub proof fn lemma_selector_total(os: Os, arch: Arch)
    ensures
        spec_asset_name(os, arch).len() > 0,
        !spec_known_pair(os, arch) ==> spec_asset_name(os, arch) == spec_fallback_asset_name(),
        !spec_known_pair(os, arch) ==> spec_requires_host_runtime(os, arch),
        spec_known_pair(os, arch) ==> !spec_requires_host_runtime(os, arch),
{
    reveal_strlit("server-linux-x64");
    reveal_strlit("server-linux-arm64");
    reveal_strlit("server-mac-x64");
    reveal_strlit("server-mac-arm64");
    reveal_strlit("server-win-x64");
    reveal_strlit("wc-language-server.js");
}

} // verus!
