//! Selectors: the caller's choice of branch, tag, commit hash, or the
//! remote's default branch, and the validation that at most one is supplied.

use vstd::prelude::*;
use vstd::string::StringExecFns;

verus! {

/// Which point of the repository's history a request names. Exactly one
/// variant is active; `DefaultBranch` stands for "no selector supplied" and
/// is resolved to a branch once the remote advertises its default.
pub enum Selector {
    Branch(String),
    Tag(String),
    CommitHash(String),
    DefaultBranch,
}

/// Every way an invocation can fail, each surfaced immediately and none
/// retried. `Resolution` carries the selector whose lookup failed.
pub enum CoreError {
    /// More than one selector was supplied.
    Validation,
    /// A ref lookup failed: unreachable remote, authentication, unknown ref.
    Resolution(Selector),
    /// The commit's object transfer failed.
    Fetch,
    /// The requested path is absent from the resolved commit's tree.
    FileNotFound,
    /// A local filesystem read or write failed.
    Storage,
}

/// How many of the three explicit selectors were supplied.
pub open spec fn supplied_count(
    branch: Option<String>,
    tag: Option<String>,
    commit_hash: Option<String>,
) -> int {
    (if branch is Some {
        1int
    } else {
        0int
    }) + (if tag is Some {
        1int
    } else {
        0int
    }) + (if commit_hash is Some {
        1int
    } else {
        0int
    })
}

/// What validation returns: an error when selectors conflict, otherwise the
/// one supplied selector, or `DefaultBranch` when none was supplied. A
/// commit hash is taken as authoritative without contacting the remote;
/// its existence is only confirmed later, at fetch time.
pub open spec fn validate_spec(
    branch: Option<String>,
    tag: Option<String>,
    commit_hash: Option<String>,
) -> Result<Selector, CoreError> {
    if supplied_count(branch, tag, commit_hash) > 1 {
        Err(CoreError::Validation)
    } else if commit_hash is Some {
        Ok(Selector::CommitHash(commit_hash.unwrap()))
    } else if tag is Some {
        Ok(Selector::Tag(tag.unwrap()))
    } else if branch is Some {
        Ok(Selector::Branch(branch.unwrap()))
    } else {
        Ok(Selector::DefaultBranch)
    }
}

/// Validates that at most one selector was supplied, before any network
/// activity, and names the selector to resolve.
pub fn validate_selector(
    branch: Option<String>,
    tag: Option<String>,
    commit_hash: Option<String>,
) -> (r: Result<Selector, CoreError>)
    ensures
        r == validate_spec(branch, tag, commit_hash),
{
    let mut count: u32 = 0;
    if branch.is_some() {
        count = count + 1;
    }
    if tag.is_some() {
        count = count + 1;
    }
    if commit_hash.is_some() {
        count = count + 1;
    }
    if count > 1 {
        return Err(CoreError::Validation);
    }
    if let Some(h) = commit_hash {
        return Ok(Selector::CommitHash(h));
    }
    if let Some(t) = tag {
        return Ok(Selector::Tag(t));
    }
    if let Some(b) = branch {
        return Ok(Selector::Branch(b));
    }
    Ok(Selector::DefaultBranch)
}

/// Selector exclusivity: whenever two or more of branch, tag and commit hash
/// are supplied, validation fails, so no resolution is ever attempted for a
/// conflicting request.
pub proof fn lemma_selector_exclusivity(
    branch: Option<String>,
    tag: Option<String>,
    commit_hash: Option<String>,
)
    requires
        supplied_count(branch, tag, commit_hash) >= 2,
    ensures
        validate_spec(branch, tag, commit_hash) == Err::<Selector, CoreError>(
            CoreError::Validation,
        ),
{
}

/// The ref namespace of branches.
pub open spec fn heads_prefix() -> Seq<char> {
    "refs/heads/"@
}

/// The ref namespace of tags.
pub open spec fn tags_prefix() -> Seq<char> {
    "refs/tags/"@
}

/// The full ref path a selector's resolution peels to a commit, where one is
/// looked up at all: a commit hash needs no lookup, and `DefaultBranch` has
/// no ref path until the remote has advertised its default branch name.
pub open spec fn sel_ref_path(sel: Selector) -> Option<Seq<char>> {
    match sel {
        Selector::Branch(b) => Some(heads_prefix() + b@),
        Selector::Tag(t) => Some(tags_prefix() + t@),
        Selector::CommitHash(_) => None,
        Selector::DefaultBranch => None,
    }
}

/// Replaces `DefaultBranch` by the branch the remote advertised; every other
/// selector is returned unchanged.
pub fn effective_selector(sel: Selector, default_branch: &str) -> (r: Selector)
    ensures
        sel is DefaultBranch ==> (r matches Selector::Branch(n) && n@ == default_branch@),
        !(sel is DefaultBranch) ==> r == sel,
{
    match sel {
        Selector::DefaultBranch => Selector::Branch(String::from_str(default_branch)),
        other => other,
    }
}

/// The kind and value that key derivation digests for a resolved selector:
/// `branch`, `tag` or `commit`, with the literal name or hash. An
/// unresolved `DefaultBranch` has no kind yet — it first becomes a branch
/// through `effective_selector` — so it yields nothing.
pub fn selector_kind_value(sel: &Selector) -> (r: Option<(String, String)>)
    ensures
        match sel {
            Selector::Branch(b) => (r matches Some(kv) && kv.0@ == "branch"@ && kv.1@ == b@),
            Selector::Tag(t) => (r matches Some(kv) && kv.0@ == "tag"@ && kv.1@ == t@),
            Selector::CommitHash(h) => (r matches Some(kv) && kv.0@ == "commit"@ && kv.1@
                == h@),
            Selector::DefaultBranch => r is None,
        },
{
    match sel {
        Selector::Branch(b) => Some((String::from_str("branch"), b.clone())),
        Selector::Tag(t) => Some((String::from_str("tag"), t.clone())),
        Selector::CommitHash(h) => Some((String::from_str("commit"), h.clone())),
        Selector::DefaultBranch => None,
    }
}

/// Default-branch resolution: once the remote has advertised default branch
/// `d`, resolving "no selector" looks up exactly the ref path that an
/// explicit `Branch(d)` selector would, so both resolve to the same commit.
pub proof fn lemma_default_branch_resolution(r: Selector, d: String)
    requires
        r matches Selector::Branch(n) && n@ == d@,
    ensures
        sel_ref_path(r) == sel_ref_path(Selector::Branch(d)),
{
}

} // verus!
