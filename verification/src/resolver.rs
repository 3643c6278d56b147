//! The binary resolver: decides, for one resolution request, what to run.
//!
//! The chain is: operator override, then cache validity against the feed's
//! latest release, then asset matching, then installation — degrading to the
//! binary already on disk when the feed or the release lets the request
//! down, and failing only when nothing is cached either.

use vstd::prelude::*;
use vstd::string::*;
use crate::errors::ResolutionError;
use crate::installer::Installer;
use crate::platform::AssetSelection;
use crate::platform::fallback_asset_name;
use crate::platform::spec_fallback_asset_name;
use crate::release::ReleaseDescriptor;
use crate::store::VersionStore;

verus! {

/// What one resolution step decided.
pub enum Resolution {
    /// Run the binary at `path`; through the host runtime when
    /// `requires_host_runtime`.
    UseBinary { path: String, requires_host_runtime: bool },
    /// Install the release's asset at `asset_index` first, then run the
    /// installed binary with the given mode.
    Install { asset_index: usize, requires_host_runtime: bool },
    /// Nothing can be run.
    Fatal { error: ResolutionError },
}

/// Name of the variable through which an operator supplies an explicit
/// server path.
pub fn override_variable_name() -> (r: String)
    ensures
        r@ == "WC_LANGUAGE_SERVER_BINARY"@,
{
    String::from_str("WC_LANGUAGE_SERVER_BINARY")
}

/// The override step: an operator-supplied path is used verbatim — never
/// version-checked, never updated — and runs through the host runtime as
/// every operator-supplied script does.
pub fn resolve_override(override_path: &Option<String>) -> (r: Option<Resolution>)
    ensures
        match override_path {
            Some(p) => (r matches Some(res) && res matches Resolution::UseBinary {
                path,
                requires_host_runtime,
            } && path@ == p@ && requires_host_runtime),
            None => r is None,
        },
{
    match override_path {
        Some(p) => Some(Resolution::UseBinary { path: p.clone(), requires_host_runtime: true }),
        None => None,
    }
}

/// The cache is valid when a binary is on disk and the store records
/// exactly the release's version.
pub open spec fn spec_up_to_date(
    release: &ReleaseDescriptor,
    store: &VersionStore,
    binary_exists: bool,
) -> bool {
    binary_exists && store.spec_recorded() == Some(release.version@)
}

/// Decides what to do once the feed has answered (or failed).
///
/// With a feed failure, availability beats freshness: the binary on disk is
/// used unchanged when one exists, and only an empty disk is fatal. With a
/// release, an up-to-date cache short-circuits any download; otherwise the
/// platform asset is preferred, the universal fallback is tried only when
/// the platform asset is missing from the release, and a release carrying
/// neither degrades to the cached binary or, failing that, is fatal.
pub fn decide(
    selection: &AssetSelection,
    feed: &Result<ReleaseDescriptor, String>,
    binary_exists: bool,
    store: &VersionStore,
    script_path: &String,
) -> (r: Resolution)
    ensures
        feed matches Err(cause) ==> (if binary_exists {
            r matches Resolution::UseBinary { path, requires_host_runtime } && path@
                == script_path@ && requires_host_runtime == selection.requires_host_runtime
        } else {
            r matches Resolution::Fatal { error } && error
                matches ResolutionError::FeedUnavailable { expected_path, cause: c }
                && expected_path@ == script_path@ && c@ == cause@
        }),
        feed matches Ok(release) ==> (spec_up_to_date(release, store, binary_exists) ==> (r
            matches Resolution::UseBinary { path, requires_host_runtime } && path@ == script_path@
            && requires_host_runtime == selection.requires_host_runtime)),
        feed matches Ok(release) ==> (!spec_up_to_date(release, store, binary_exists)
            && release.spec_has_asset(selection.asset_name@) ==> (r matches Resolution::Install {
            asset_index,
            requires_host_runtime,
        } && asset_index < release.assets@.len() && release.assets@[asset_index as int].name@
            == selection.asset_name@ && requires_host_runtime
            == selection.requires_host_runtime)),
        feed matches Ok(release) ==> (!spec_up_to_date(release, store, binary_exists)
            && !release.spec_has_asset(selection.asset_name@) && release.spec_has_asset(
            spec_fallback_asset_name(),
        ) ==> (r matches Resolution::Install { asset_index, requires_host_runtime } && asset_index
            < release.assets@.len() && release.assets@[asset_index as int].name@
            == spec_fallback_asset_name() && requires_host_runtime)),
        feed matches Ok(release) ==> (!spec_up_to_date(release, store, binary_exists)
            && !release.spec_has_asset(selection.asset_name@) && !release.spec_has_asset(
            spec_fallback_asset_name(),
        ) ==> (if binary_exists {
            r matches Resolution::UseBinary { path, requires_host_runtime } && path@
                == script_path@ && requires_host_runtime == selection.requires_host_runtime
        } else {
            r matches Resolution::Fatal { error } && error
                matches ResolutionError::AssetUnavailable { expected_path, version, asset_name }
                && expected_path@ == script_path@ && version@ == release.version@ && asset_name@
                == selection.asset_name@
        })),
{
    let release = match feed {
        Ok(release) => release,
        Err(cause) => {
            if binary_exists {
                return Resolution::UseBinary {
                    path: script_path.clone(),
                    requires_host_runtime: selection.requires_host_runtime,
                };
            }
            return Resolution::Fatal {
                error: ResolutionError::FeedUnavailable {
                    expected_path: script_path.clone(),
                    cause: cause.clone(),
                },
            };
        },
    };
    if binary_exists && store.matches_version(&release.version) {
        return Resolution::UseBinary {
            path: script_path.clone(),
            requires_host_runtime: selection.requires_host_runtime,
        };
    }
    if let Some(i) = release.find_asset(&selection.asset_name) {
        return Resolution::Install {
            asset_index: i,
            requires_host_runtime: selection.requires_host_runtime,
        };
    }
    if let Some(i) = release.find_asset(&fallback_asset_name()) {
        return Resolution::Install { asset_index: i, requires_host_runtime: true };
    }
    if binary_exists {
        return Resolution::UseBinary {
            path: script_path.clone(),
            requires_host_runtime: selection.requires_host_runtime,
        };
    }
    Resolution::Fatal {
        error: ResolutionError::AssetUnavailable {
            expected_path: script_path.clone(),
            version: release.version.clone(),
            asset_name: selection.asset_name.clone(),
        },
    }
}

/// Concludes a resolution whose decision was to install.
///
/// A completed install resolves to the freshly written binary in the mode
/// the matched asset asked for. A failed install falls back to the binary
/// that was on disk before the attempt — downloads that fail leave it
/// untouched — and is fatal only when there was none.
pub fn conclude_install(
    installer: &Installer,
    planned_requires_host_runtime: bool,
    selection: &AssetSelection,
    binary_existed: bool,
    script_path: &String,
) -> (r: Resolution)
    requires
        !installer.spec_in_progress(),
        installer.wf(),
    ensures
        installer.spec_stage() is Complete ==> (r matches Resolution::UseBinary {
            path,
            requires_host_runtime,
        } && path@ == script_path@ && requires_host_runtime == planned_requires_host_runtime),
        installer.spec_stage() is Aborted && binary_existed ==> (r
            matches Resolution::UseBinary { path, requires_host_runtime } && path@ == script_path@
            && requires_host_runtime == selection.requires_host_runtime),
        installer.spec_stage() is Aborted && !binary_existed ==> (r matches Resolution::Fatal {
            error,
        } && error matches ResolutionError::InstallFailed { expected_path, cause }
            && expected_path@ == script_path@ && installer.spec_failure() == Some(cause@)),
{
    if installer.is_complete() {
        return Resolution::UseBinary {
            path: script_path.clone(),
            requires_host_runtime: planned_requires_host_runtime,
        };
    }
    if binary_existed {
        return Resolution::UseBinary {
            path: script_path.clone(),
            requires_host_runtime: selection.requires_host_runtime,
        };
    }
    let cause = match installer.failure_cause() {
        Some(c) => c.clone(),
        None => String::new(),
    };
    Resolution::Fatal {
        error: ResolutionError::InstallFailed {
            expected_path: script_path.clone(),
            cause,
        },
    }
}

} // verus!
