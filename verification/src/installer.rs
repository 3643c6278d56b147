//! The installer: a step machine that sequences one install of a release
//! asset and guards the version store.
//!
//! The embedding layer performs each step's real work (directory creation,
//! download, executable bit, marker persistence) and reports its outcome;
//! this machine decides what comes next. The version store is written
//! exactly when the marker has been persisted after a successful download —
//! a failed download leaves the store, and so the prior install, untouched.

use vstd::prelude::*;
use crate::paths::spec_parent_dir;
use crate::paths::parent_dir;
use crate::release::ReleaseAsset;
use crate::store::VersionStore;

verus! {

/// How one install step ended.
pub enum StepOutcome {
    Succeeded,
    Failed(String),
}

/// Where an install stands.
#[derive(Clone, Copy, PartialEq, Eq, Structural, Debug)]
pub enum InstallStage {
    /// The target's parent directory must be created if absent.
    EnsureDirectory,
    /// The asset must be downloaded to the target path.
    Download,
    /// The target should be marked executable (best-effort).
    MarkExecutable,
    /// The release's version tag must be persisted to the marker.
    RecordVersion,
    /// Every required step succeeded.
    Complete,
    /// A required step failed; nothing further runs.
    Aborted,
}

/// The work the embedding layer must do next.
pub enum InstallAction {
    EnsureDirectory { path: String },
    Download { url: String, target: String },
    MarkExecutable { path: String },
    RecordVersion { version: String },
    Finished,
}

/// One install in progress: the asset's download source, the target path,
/// the version being installed, and the stage reached.
pub struct Installer {
    version: String,
    target_path: String,
    download_url: String,
    stage: InstallStage,
    failure: Option<String>,
}

impl Installer {
    /// The version tag this install will record on success.
    pub closed spec fn spec_version(&self) -> Seq<char> {
        self.version@
    }

    /// The path the asset is downloaded to.
    pub closed spec fn spec_target(&self) -> Seq<char> {
        self.target_path@
    }

    /// The asset's download source.
    pub closed spec fn spec_url(&self) -> Seq<char> {
        self.download_url@
    }

    /// The stage reached.
    pub closed spec fn spec_stage(&self) -> InstallStage {
        self.stage
    }

    /// Why the install aborted, when it did.
    pub closed spec fn spec_failure(&self) -> Option<Seq<char>> {
        match self.failure {
            Some(c) => Some(c@),
            None => None,
        }
    }

    /// An aborted install always carries its cause.
    pub open spec fn wf(&self) -> bool {
        self.spec_stage() is Aborted ==> self.spec_failure() is Some
    }

    /// Whether the install still has steps to run.
    pub open spec fn spec_in_progress(&self) -> bool {
        !(self.spec_stage() is Complete) && !(self.spec_stage() is Aborted)
    }

    /// Begins an install of `asset` (carrying `version`) to `target_path`.
    pub fn start(asset: &ReleaseAsset, version: &String, target_path: &String) -> (inst: Self)
        ensures
            inst.spec_stage() == InstallStage::EnsureDirectory,
            inst.spec_version() == version@,
            inst.spec_target() == target_path@,
            inst.spec_url() == asset.download_url@,
            inst.wf(),
    {
        Installer {
            version: version.clone(),
            target_path: target_path.clone(),
            download_url: asset.download_url.clone(),
            stage: InstallStage::EnsureDirectory,
            failure: None,
        }
    }

    /// The step the embedding layer must perform next.
    pub fn next_action(&self) -> (a: InstallAction)
        ensures
            self.spec_stage() is EnsureDirectory ==> (a matches InstallAction::EnsureDirectory {
                path,
            } && path@ == spec_parent_dir(self.spec_target())),
            self.spec_stage() is Download ==> (a matches InstallAction::Download { url, target }
                && url@ == self.spec_url() && target@ == self.spec_target()),
            self.spec_stage() is MarkExecutable ==> (a matches InstallAction::MarkExecutable {
                path,
            } && path@ == self.spec_target()),
            self.spec_stage() is RecordVersion ==> (a matches InstallAction::RecordVersion {
                version,
            } && version@ == self.spec_version()),
            !self.spec_in_progress() ==> a is Finished,
    {
        match self.stage {
            InstallStage::EnsureDirectory => InstallAction::EnsureDirectory {
                path: parent_dir(&self.target_path),
            },
            InstallStage::Download => InstallAction::Download {
                url: self.download_url.clone(),
                target: self.target_path.clone(),
            },
            InstallStage::MarkExecutable => InstallAction::MarkExecutable {
                path: self.target_path.clone(),
            },
            InstallStage::RecordVersion => InstallAction::RecordVersion {
                version: self.version.clone(),
            },
            InstallStage::Complete => InstallAction::Finished,
            InstallStage::Aborted => InstallAction::Finished,
        }
    }

    /// Feeds back the outcome of the step `next_action` asked for, advancing
    /// the install and updating the version store when, and only when, the
    /// marker was persisted after a successful download.
    ///
    /// Directory creation and download failures abort the install; a failure
    /// to set the executable bit is ignorable and never aborts; a failure to
    /// persist the marker aborts, so the install is never reported complete
    /// with an unrecorded version.
    pub fn report(&mut self, outcome: StepOutcome, store: &mut VersionStore)
        requires
            old(self).spec_in_progress(),
        ensures
            final(self).spec_version() == old(self).spec_version(),
            final(self).spec_target() == old(self).spec_target(),
            final(self).spec_url() == old(self).spec_url(),
            final(self).wf(),
            // The store changes exactly on a persisted marker write.
            final(store).spec_recorded() == (if old(self).spec_stage() is RecordVersion
                && outcome is Succeeded {
                Some(old(self).spec_version())
            } else {
                old(store).spec_recorded()
            }),
            old(self).spec_stage() is EnsureDirectory && outcome is Succeeded ==> final(self).spec_stage() is Download,
            old(self).spec_stage() is Download && outcome is Succeeded ==> final(self).spec_stage() is MarkExecutable,
            old(self).spec_stage() is MarkExecutable ==> final(self).spec_stage() is RecordVersion,
            old(self).spec_stage() is RecordVersion && outcome is Succeeded ==> final(self).spec_stage() is Complete,
            outcome matches StepOutcome::Failed(c) ==> (old(self).spec_stage() is MarkExecutable
                || (final(self).spec_stage() is Aborted && final(self).spec_failure() == Some(
                c@,
            ))),
    {
        match outcome {
            StepOutcome::Succeeded => {
                match self.stage {
                    InstallStage::EnsureDirectory => {
                        self.stage = InstallStage::Download;
                    },
                    InstallStage::Download => {
                        self.stage = InstallStage::MarkExecutable;
                    },
                    InstallStage::MarkExecutable => {
                        self.stage = InstallStage::RecordVersion;
                    },
                    InstallStage::RecordVersion => {
                        store.record(&self.version);
                        self.stage = InstallStage::Complete;
                    },
                    InstallStage::Complete => {
                    },
                    InstallStage::Aborted => {
                    },
                }
            },
            StepOutcome::Failed(cause) => {
                match self.stage {
                    InstallStage::MarkExecutable => {
                        // Best-effort step: execution may happen through the
                        // host runtime, so a missing executable bit is not a
                        // failed install.
                        self.stage = InstallStage::RecordVersion;
                    },
                    _ => {
                        self.stage = InstallStage::Aborted;
                        self.failure = Some(cause);
                    },
                }
            },
        }
    }

    /// The cause of an aborted install.
    pub fn failure_cause(&self) -> (r: Option<&String>)
        ensures
            match r {
                Some(c) => self.spec_failure() == Some(c@),
                None => self.spec_failure() is None,
            },
    {
        match &self.failure {
            Some(c) => Some(c),
            None => None,
        }
    }

    /// Whether every required step succeeded.
    pub fn is_complete(&self) -> (r: bool)
        ensures
            r == (self.spec_stage() is Complete),
    {
        matches!(self.stage, InstallStage::Complete)
    }

    /// Whether a required step failed.
    pub fn is_aborted(&self) -> (r: bool)
        ensures
            r == (self.spec_stage() is Aborted),
    {
        matches!(self.stage, InstallStage::Aborted)
    }
}
} // verus!
