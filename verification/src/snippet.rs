//! Cache-key derivation: from a request to a stable snippet name.
//!
//! The cache-key prefix combines the digests of the repository URL, the
//! selector (kind and value), and the file path, followed by the path's
//! final component so a human can tell entries apart. The full snippet name
//! appends the resolved commit id and a fixed extension; the commit id is
//! always the last hyphen-delimited fragment before the extension, which is
//! what the store's parser relies on.

use vstd::prelude::*;
use vstd::string::StrSliceExecFns;
use vstd::string::StringExecFns;
use crate::digest::digest8_of;
use crate::digest::hash_string;
use crate::strutil::find_last_char;
use crate::strutil::last_pos;
use crate::strutil::lemma_last_pos;

verus! {

/// The placeholder used when the path has no final component.
pub open spec fn unknown_name() -> Seq<char> {
    "unknown"@
}

/// The final slash-separated component of `path`, or the placeholder when
/// there is none (an empty path, or a path ending in a slash).
pub open spec fn file_name_spec(path: Seq<char>) -> Seq<char> {
    match last_pos(path, '/') {
        None => if path.len() == 0 {
            unknown_name()
        } else {
            path
        },
        Some(i) => if i + 1 == path.len() {
            unknown_name()
        } else {
            path.subrange(i + 1, path.len() as int)
        },
    }
}

/// The string that is digested for a selector: its kind, a hyphen, and its
/// value.
pub open spec fn option_input_spec(kind: Seq<char>, value: Seq<char>) -> Seq<char> {
    kind + "-"@ + value
}

/// The cache-key prefix: digests of the URL, the selector, and the path,
/// hyphen-joined, followed by the path's final component. It depends only on
/// the request, never on the resolved commit.
pub open spec fn prefix_spec(url: Seq<char>, kind: Seq<char>, value: Seq<char>, path: Seq<
    char,
>) -> Seq<char> {
    digest8_of(url) + "-"@ + digest8_of(option_input_spec(kind, value)) + "-"@ + digest8_of(path)
        + "-"@ + file_name_spec(path)
}

/// The full snippet file name: the prefix, the commit id, and the extension.
pub open spec fn full_name_spec(prefix: Seq<char>, commit: Seq<char>) -> Seq<char> {
    prefix + "-"@ + commit + ".rs"@
}

/// The digest of a repository URL.
pub fn hash_git_url(url: &str) -> (r: String)
    ensures
        r@ == digest8_of(url@),
{
    hash_string(url)
}

/// The digest of a selector, taken over its kind and value joined by a
/// hyphen.
pub fn hash_git_option(option_type: &str, value: &str) -> (r: String)
    ensures
        r@ == digest8_of(option_input_spec(option_type@, value@)),
{
    let joined = String::from_str(option_type).concat("-").concat(value);
    hash_string(joined.as_str())
}

/// The digest of a file path.
pub fn hash_path(path: &str) -> (r: String)
    ensures
        r@ == digest8_of(path@),
{
    hash_string(path)
}

/// The final slash-separated component of `path`, or `"unknown"` when there
/// is none.
pub fn file_name_of(path: &str) -> (r: String)
    ensures
        r@ == file_name_spec(path@),
{
    let n = path.unicode_len();
    match find_last_char(path, '/') {
        None => {
            if n == 0 {
                String::from_str("unknown")
            } else {
                String::from_str(path)
            }
        },
        Some(i) => {
            proof {
                lemma_last_pos(path@, '/');
            }
            if i + 1 == n {
                String::from_str("unknown")
            } else {
                String::from_str(path.substring_char(i + 1, n))
            }
        },
    }
}

/// One snippet's identity: the request-derived prefix, the commit the bytes
/// were read from, and the file name that carries both.
pub struct SnippetFile {
    pub prefix: String,
    pub commit_hash: String,
    pub full_name: String,
}

impl SnippetFile {
    /// Derives the cache key for a request and binds it to a resolved
    /// commit. The result is a pure function of the five inputs: calling it
    /// again on identical inputs names the identical record.
    pub fn new(
        git_url: &str,
        git_option_type: &str,
        git_option_value: &str,
        path: &str,
        commit_sha: &str,
    ) -> (r: Self)
        ensures
            r.prefix@ == prefix_spec(git_url@, git_option_type@, git_option_value@, path@),
            r.commit_hash@ == commit_sha@,
            r.full_name@ == full_name_spec(r.prefix@, commit_sha@),
    {
        let file_name = file_name_of(path);
        let url_hash = hash_git_url(git_url);
        let option_hash = hash_git_option(git_option_type, git_option_value);
        let path_hash = hash_path(path);
        let prefix = url_hash.concat("-").concat(option_hash.as_str()).concat("-").concat(
            path_hash.as_str(),
        ).concat("-").concat(file_name.as_str());
        let full_name = prefix.clone().concat("-").concat(commit_sha).concat(".rs");
        SnippetFile { prefix, commit_hash: String::from_str(commit_sha), full_name }
    }
}

/// Determinism of key derivation: any two records derived from identical
/// inputs carry the identical prefix, commit and file name.
pub proof fn lemma_derive_key_deterministic(
    a: SnippetFile,
    b: SnippetFile,
    url: Seq<char>,
    kind: Seq<char>,
    value: Seq<char>,
    path: Seq<char>,
    commit: Seq<char>,
)
    requires
        a.prefix@ == prefix_spec(url, kind, value, path),
        a.commit_hash@ == commit,
        a.full_name@ == full_name_spec(a.prefix@, commit),
        b.prefix@ == prefix_spec(url, kind, value, path),
        b.commit_hash@ == commit,
        b.full_name@ == full_name_spec(b.prefix@, commit),
    ensures
        a.prefix@ == b.prefix@,
        a.commit_hash@ == b.commit_hash@,
        a.full_name@ == b.full_name@,
{
}

} // verus!
