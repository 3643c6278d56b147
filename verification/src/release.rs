//! Releases as the feed publishes them: a version tag and named downloadable
//! assets, plus the policy that screens what the feed hands back.

use vstd::prelude::*;

verus! {

/// One downloadable artifact attached to a release.
pub struct ReleaseAsset {
    pub name: String,
    pub download_url: String,
}

/// One published release: an opaque version tag, compared by equality, and
/// its ordered assets.
pub struct ReleaseDescriptor {
    pub version: String,
    pub assets: Vec<ReleaseAsset>,
}

impl ReleaseDescriptor {
    /// Whether some asset of the release carries `name`.
    pub open spec fn spec_has_asset(&self, name: Seq<char>) -> bool {
        exists |i: int| 0 <= i < self.assets@.len() && self.assets@[i].name@ == name
    }

    /// Finds the first asset named `name`, returning its index.
    pub fn find_asset(&self, name: &String) -> (r: Option<usize>)
        ensures
            match r {
                Some(i) => i < self.assets@.len() && self.assets@[i as int].name@ == name@
                    && (forall |j: int| 0 <= j < i ==> self.assets@[j].name@ != name@),
                None => !self.spec_has_asset(name@),
            },
    {
        let mut i: usize = 0;
        while i < self.assets.len()
            invariant
                i <= self.assets@.len(),
                forall |j: int| 0 <= j < i ==> self.assets@[j].name@ != name@,
            decreases self.assets@.len() - i,
        {
            let a = &self.assets[i];
            if a.name == *name {
                return Some(i);
            }
            i = i + 1;
        }
        None
    }
}

/// What the caller asks of the feed.
pub struct FeedOptions {
    pub require_assets: bool,
    pub allow_prerelease: bool,
}

/// A release as the remote feed reports it, before the feed policy has
/// screened it.
pub struct RawRelease {
    pub version: String,
    pub prerelease: bool,
    pub assets: Vec<ReleaseAsset>,
}

/// Why the feed policy refused a reported release.
#[derive(Clone, Copy, PartialEq, Eq, Structural, Debug)]
pub enum FeedRejection {
    /// The release is a prerelease and the options exclude prereleases.
    PrereleaseExcluded,
    /// The options require assets and the release carries none.
    NoAssets,
}

/// Screens a release the feed reported against the caller's options: a
/// prerelease is refused when prereleases are excluded, and a release with
/// zero assets is refused when assets are required, rather than returned.
pub fn screen_release(release: RawRelease, options: &FeedOptions) -> (r: Result<
    ReleaseDescriptor,
    FeedRejection,
>)
    ensures
        release.prerelease && !options.allow_prerelease ==> (r matches Err(e) && e
            == FeedRejection::PrereleaseExcluded),
        !(release.prerelease && !options.allow_prerelease) && options.require_assets
            && release.assets@.len() == 0 ==> (r matches Err(e) && e == FeedRejection::NoAssets),
        !(release.prerelease && !options.allow_prerelease) && !(options.require_assets
            && release.assets@.len() == 0) ==> (r matches Ok(d) && d.version == release.version
            && d.assets == release.assets),
{
    if release.prerelease && !options.allow_prerelease {
        return Err(FeedRejection::PrereleaseExcluded);
    }
    if options.require_assets && release.assets.len() == 0 {
        return Err(FeedRejection::NoAssets);
    }
    Ok(ReleaseDescriptor { version: release.version, assets: release.assets })
}

} // verus!
