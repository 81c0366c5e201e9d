//! Reference resolution planning: which single ref a selector is resolved
//! through, and the refspecs the minimal fetches use.
//!
//! Resolution itself talks to the remote; everything the remote session is
//! told — which ref to fetch, which ref to peel, how a default branch name
//! is normalized, and the one-commit refspec of the materializing fetch —
//! is computed and specified here.

use vstd::prelude::*;
use vstd::string::StrSliceExecFns;
use vstd::string::StringExecFns;
use crate::selector::heads_prefix;
use crate::selector::sel_ref_path;
use crate::selector::Selector;
use crate::strutil::str_starts_with;

verus! {

/// How a selector is turned into a commit id.
pub enum ResolutionPlan {
    /// The selector already names a commit: no network interaction. The hash
    /// is taken as authoritative; whether it exists is confirmed only later,
    /// at fetch time.
    AlreadyResolved { commit: String },
    /// No selector was supplied: a reference-listing handshake must first
    /// obtain the remote's advertised default branch name.
    ListDefaultBranch,
    /// Fetch exactly `refspec`, then peel `ref_path` to its commit.
    FetchRef { refspec: String, ref_path: String },
}

/// The plan for one selector: a commit hash is already resolved, a branch or
/// tag is fetched through exactly one ref (its refspec maps that ref to
/// itself), and the default branch first needs the remote's advertisement.
pub fn resolution_plan(sel: &Selector) -> (r: ResolutionPlan)
    ensures
        match sel {
            Selector::CommitHash(h) => r matches ResolutionPlan::AlreadyResolved { commit }
                && commit@ == h@,
            Selector::DefaultBranch => r is ListDefaultBranch,
            _ => r matches ResolutionPlan::FetchRef { refspec, ref_path } && Some(ref_path@)
                == sel_ref_path(*sel) && refspec@ == sel_ref_path(*sel).unwrap() + ":"@
                + sel_ref_path(*sel).unwrap(),
        },
{
    match sel {
        Selector::CommitHash(h) => ResolutionPlan::AlreadyResolved { commit: h.clone() },
        Selector::DefaultBranch => ResolutionPlan::ListDefaultBranch,
        Selector::Branch(b) => {
            let ref_path = String::from_str("refs/heads/").concat(b.as_str());
            let refspec = ref_path.clone().concat(":").concat(ref_path.as_str());
            ResolutionPlan::FetchRef { refspec, ref_path }
        },
        Selector::Tag(t) => {
            let ref_path = String::from_str("refs/tags/").concat(t.as_str());
            let refspec = ref_path.clone().concat(":").concat(ref_path.as_str());
            ResolutionPlan::FetchRef { refspec, ref_path }
        },
    }
}

/// An advertised default branch name with its leading branch namespace
/// removed; any other name is kept whole.
pub open spec fn strip_heads_spec(name: Seq<char>) -> Seq<char> {
    if heads_prefix().is_prefix_of(name) {
        name.subrange(heads_prefix().len() as int, name.len() as int)
    } else {
        name
    }
}

/// Normalizes a remote's advertised default branch: strips a leading
/// `refs/heads/`, so `refs/heads/main` becomes `main`.
pub fn strip_refs_heads(name: &str) -> (r: String)
    ensures
        r@ == strip_heads_spec(name@),
{
    let heads = "refs/heads/";
    if str_starts_with(name, heads) {
        let n = name.unicode_len();
        let p = heads.unicode_len();
        String::from_str(name.substring_char(p, n))
    } else {
        String::from_str(name)
    }
}

/// The refspec of the materializing fetch: it names the one commit to
/// retrieve and maps it onto a scratch branch of the ephemeral workspace.
pub fn commit_refspec(commit_sha: &str) -> (r: String)
    ensures
        r@ == "+"@ + commit_sha@ + ":refs/heads/temp"@,
{
    String::from_str("+").concat(commit_sha).concat(":refs/heads/temp")
}

} // verus!
