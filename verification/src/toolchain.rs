//! The toolchain locator: an ordered fallback chain for the companion
//! toolchain directory the server type-checks with.
//!
//! Candidates are tried in a fixed order — operator override, a workspace
//! location, a bundle location — each validated by the presence of a marker
//! file beneath it; the first valid candidate wins and is memoized for the
//! locator's lifetime. When none validates, a hardcoded relative default is
//! returned unvalidated (and not memoized), since the server itself can
//! report a missing toolchain.

use vstd::prelude::*;
use vstd::string::*;
use crate::paths::join_path;
use crate::paths::normalize_for_os;
use crate::paths::spec_join;
use crate::paths::spec_normalize;
use crate::platform::Os;

verus! {

/// Index of the first valid candidate, if any.
pub open spec fn spec_first_valid(valid: Seq<bool>) -> Option<int>
    decreases valid.len(),
{
    if valid.len() == 0 {
        None
    } else if valid[0] {
        Some(0)
    } else {
        match spec_first_valid(valid.drop_first()) {
            Some(i) => Some(i + 1),
            None => None,
        }
    }
}

/// Law: the chain is strictly ordered — a valid candidate is chosen exactly
/// when every candidate before it is invalid. In particular, with both the
/// workspace and the bundle candidate valid and nothing valid before the
/// workspace one, the workspace one wins.
pub proof fn lemma_first_valid_is(valid: Seq<bool>, i: int)
    requires
        0 <= i < valid.len(),
        valid[i],
        forall |k: int| 0 <= k < i ==> !valid[k],
    ensures
        spec_first_valid(valid) == Some(i),
    decreases i,
{
    if i > 0 {
        lemma_first_valid_is(valid.drop_first(), i - 1);
    }
}

/// Law: when no candidate validates, the chain chooses none (and the caller
/// falls back to the default).
pub proof fn lemma_first_valid_none(valid: Seq<bool>)
    requires
        forall |k: int| 0 <= k < valid.len() ==> !valid[k],
    ensures
        spec_first_valid(valid) is None,
    decreases valid.len(),
{
    if valid.len() > 0 {
        lemma_first_valid_none(valid.drop_first());
    }
}

/// Law: with the full chain of an override, a workspace and a bundle
/// candidate, resolution order is strictly override, then workspace, then
/// bundle, then the default — in particular, with the workspace and the
/// bundle candidate both valid and no override, the workspace one wins.
pub proof fn lemma_resolution_order(valid: Seq<bool>)
    requires
        valid.len() == 3,
    ensures
        valid[0] ==> spec_first_valid(valid) == Some(0int),
        !valid[0] && valid[1] ==> spec_first_valid(valid) == Some(1int),
        !valid[0] && !valid[1] && valid[2] ==> spec_first_valid(valid) == Some(2int),
        !valid[0] && !valid[1] && !valid[2] ==> spec_first_valid(valid) is None,
{
    if valid[0] {
        lemma_first_valid_is(valid, 0);
    } else if valid[1] {
        lemma_first_valid_is(valid, 1);
    } else if valid[2] {
        lemma_first_valid_is(valid, 2);
    } else {
        lemma_first_valid_none(valid);
    }
}

/// Relative location of the toolchain beneath a root, and the default
/// returned when no candidate validates.
pub fn toolchain_relative_path() -> (r: String)
    ensures
        r@ == "node_modules/typescript/lib"@,
{
    String::from_str("node_modules/typescript/lib")
}

/// The marker file that must exist beneath a candidate for it to validate.
pub fn toolchain_marker_path(candidate: &String) -> (m: String)
    ensures
        m@ == spec_join(candidate@, "typescript.js"@),
{
    join_path(candidate, "typescript.js")
}

/// Name of the variable through which an operator supplies an explicit
/// toolchain path.
pub fn toolchain_variable_name() -> (r: String)
    ensures
        r@ == "WC_TOOLCHAIN_PATH"@,
{
    String::from_str("WC_TOOLCHAIN_PATH")
}

/// The warning emitted when every candidate failed to validate and the
/// unvalidated default is handed out; it names the variable the operator
/// can set.
pub fn toolchain_fallback_warning() -> (w: String)
    ensures
        w@
            == "no toolchain candidate validated; falling back to the bundled default. Set WC_TOOLCHAIN_PATH to supply one."@,
{
    String::from_str(
        "no toolchain candidate validated; falling back to the bundled default. Set WC_TOOLCHAIN_PATH to supply one.",
    )
}

/// The ordered candidate roots: the operator override when present, then a
/// location beneath the workspace root, then one beneath the bundle root.
pub fn toolchain_candidates(
    override_path: &Option<String>,
    workspace_root: &String,
    bundle_root: &String,
) -> (c: Vec<String>)
    ensures
        match override_path {
            Some(p) => c@.len() == 3 && c@[0]@ == p@ && c@[1]@ == spec_join(
                workspace_root@,
                "node_modules/typescript/lib"@,
            ) && c@[2]@ == spec_join(bundle_root@, "node_modules/typescript/lib"@),
            None => c@.len() == 2 && c@[0]@ == spec_join(
                workspace_root@,
                "node_modules/typescript/lib"@,
            ) && c@[1]@ == spec_join(bundle_root@, "node_modules/typescript/lib"@),
        },
{
    let mut c: Vec<String> = Vec::new();
    if let Some(p) = override_path {
        c.push(p.clone());
    }
    c.push(join_path(workspace_root, "node_modules/typescript/lib"));
    c.push(join_path(bundle_root, "node_modules/typescript/lib"));
    c
}

/// What a resolution handed out: the toolchain path, and whether it came
/// from a validated candidate (rather than the unvalidated default).
pub struct ToolchainResolution {
    pub path: String,
    pub validated: bool,
}

/// The locator: owns the memoized path for one session. Construct once and
/// pass to every call site; a fresh resolution is never forced once a
/// validated candidate has been memoized, even if the files beneath it later
/// change.
pub struct ToolchainLocator {
    memo: Option<String>,
}

impl ToolchainLocator {
    /// The memoized path, if a resolution has succeeded this session.
    pub closed spec fn spec_memo(&self) -> Option<Seq<char>> {
        match self.memo {
            Some(p) => Some(p@),
            None => None,
        }
    }

    /// A locator with nothing memoized.
    pub fn new() -> (l: Self)
        ensures
            l.spec_memo() is None,
    {
        ToolchainLocator { memo: None }
    }

    /// Resolves the toolchain path from the ordered `candidates`, of which
    /// `valid[i]` says whether the marker exists beneath `candidates[i]`.
    ///
    /// The first valid candidate wins, normalized for `os`, and is memoized;
    /// a memoized path is returned as is. When nothing validates, the
    /// hardcoded relative default is returned unvalidated and the locator
    /// stays unmemoized, so a later resolution tries again.
    pub fn resolve(
        &mut self,
        candidates: &Vec<String>,
        valid: &Vec<bool>,
        os: Os,
    ) -> (r: ToolchainResolution)
        requires
            valid@.len() == candidates@.len(),
        ensures
            old(self).spec_memo() matches Some(m) ==> (r.path@ == m && r.validated && final(self).spec_memo() == Some(m)),
            old(self).spec_memo() is None ==> (match spec_first_valid(valid@) {
                Some(i) => r.path@ == spec_normalize(candidates@[i]@, os) && r.validated && final(self).spec_memo() == Some(r.path@),
                None => r.path@ == spec_normalize("node_modules/typescript/lib"@, os)
                    && !r.validated && final(self).spec_memo() is None,
            }),
    {
        if let Some(m) = &self.memo {
            return ToolchainResolution { path: m.clone(), validated: true };
        }
        let mut i: usize = 0;
        while i < valid.len()
            invariant
                i <= valid@.len(),
                valid@.len() == candidates@.len(),
                forall |k: int| 0 <= k < i ==> !valid@[k],
                self.spec_memo() is None,
                old(self).spec_memo() is None,
            decreases valid@.len() - i,
        {
            if valid[i] {
                proof {
                    lemma_first_valid_is(valid@, i as int);
                }
                let path = normalize_for_os(&candidates[i], os);
                self.memo = Some(path.clone());
                return ToolchainResolution { path, validated: true };
            }
            i = i + 1;
        }
        proof {
            lemma_first_valid_none(valid@);
        }
        let default = toolchain_relative_path();
        let path = normalize_for_os(&default, os);
        ToolchainResolution { path, validated: false }
    }
}

} // verus!
