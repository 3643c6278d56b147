//! The closed set of failure kinds a resolution can end in, each carrying
//! structured context, mapped to human-readable text only here at the
//! outermost boundary.

use vstd::prelude::*;
use vstd::string::*;

verus! {

/// A fatal resolution failure: nothing is on disk to run.
pub enum ResolutionError {
    /// The feed could not be queried and no binary was cached.
    FeedUnavailable { expected_path: String, cause: String },
    /// The latest release carries neither the platform asset nor the
    /// universal fallback, and no binary was cached.
    AssetUnavailable { expected_path: String, version: String, asset_name: String },
    /// Installing the matched asset failed and no binary was cached.
    InstallFailed { expected_path: String, cause: String },
}

impl ResolutionError {
    /// The binary path the resolver expected to find or fill.
    pub open spec fn spec_expected_path(&self) -> Seq<char> {
        match self {
            ResolutionError::FeedUnavailable { expected_path, .. } => expected_path@,
            ResolutionError::AssetUnavailable { expected_path, .. } => expected_path@,
            ResolutionError::InstallFailed { expected_path, .. } => expected_path@,
        }
    }

    /// The human-readable text of each failure kind.
    pub open spec fn spec_message(&self) -> Seq<char> {
        match self {
            ResolutionError::FeedUnavailable { expected_path, cause } => {
                "unable to resolve language server release ("@ + cause@
                    + "); no existing binary found at "@ + expected_path@
            },
            ResolutionError::AssetUnavailable { expected_path, version, asset_name } => {
                "latest release "@ + version@ + " is missing required asset "@ + asset_name@
                    + " and no cached server exists at "@ + expected_path@
            },
            ResolutionError::InstallFailed { expected_path, cause } => {
                "failed to install language server to "@ + expected_path@ + ": "@ + cause@
            },
        }
    }

    /// Renders the failure as text.
    pub fn message(&self) -> (m: String)
        ensures
            m@ == self.spec_message(),
    {
        match self {
            ResolutionError::FeedUnavailable { expected_path, cause } => {
                let mut m = String::from_str("unable to resolve language server release (");
                m.append(cause.as_str());
                m.append("); no existing binary found at ");
                m.append(expected_path.as_str());
                proof {
                    assert(m@ =~= self.spec_message());
                }
                m
            },
            ResolutionError::AssetUnavailable { expected_path, version, asset_name } => {
                let mut m = String::from_str("latest release ");
                m.append(version.as_str());
                m.append(" is missing required asset ");
                m.append(asset_name.as_str());
                m.append(" and no cached server exists at ");
                m.append(expected_path.as_str());
                proof {
                    assert(m@ =~= self.spec_message());
                }
                m
            },
            ResolutionError::InstallFailed { expected_path, cause } => {
                let mut m = String::from_str("failed to install language server to ");
                m.append(expected_path.as_str());
                m.append(": ");
                m.append(cause.as_str());
                proof {
                    assert(m@ =~= self.spec_message());
                }
                m
            },
        }
    }
}

/// Whether `needle` occurs contiguously inside `text`.
pub open spec fn spec_mentions(text: Seq<char>, needle: Seq<char>) -> bool {
    exists |i: int|
        0 <= i && i + needle.len() <= text.len() && #[trigger] text.subrange(
            i,
            i + needle.len() as int,
        ) == needle
}

/// Law: every failure message names the binary path the resolver expected,
/// verbatim.
pub proof fn lemma_message_names_expected_path(e: &ResolutionError)
    ensures
        spec_mentions(e.spec_message(), e.spec_expected_path()),
{
    match e {
        ResolutionError::FeedUnavailable { expected_path, .. } => {
            let m = e.spec_message();
            let i: int = m.len() as int - expected_path@.len() as int;
            assert(m.subrange(i, i + expected_path@.len() as int) =~= expected_path@);
            assert(spec_mentions(m, expected_path@));
        },
        ResolutionError::AssetUnavailable { expected_path, .. } => {
            let m = e.spec_message();
            let i: int = m.len() as int - expected_path@.len() as int;
            assert(m.subrange(i, i + expected_path@.len() as int) =~= expected_path@);
            assert(spec_mentions(m, expected_path@));
        },
        ResolutionError::InstallFailed { expected_path, .. } => {
            let m = e.spec_message();
            let pre = "failed to install language server to "@;
            let i: int = pre.len() as int;
            assert(m.subrange(i, i + expected_path@.len() as int) =~= expected_path@);
            assert(spec_mentions(m, expected_path@));
        },
    }
}

} // verus!
