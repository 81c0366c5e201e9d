//! The orchestrator's terminal steps: what is written after the fetch, and
//! where the final artifact lives.
//!
//! One invocation runs: validate the selector, resolve it to a commit,
//! derive the key, check the cache, and — only when the cached record is
//! missing or stale — materialize the file and persist it. The surrounding
//! application performs the network and filesystem work; each decision
//! between those steps is a function of this library, and every failure is
//! terminal: nothing is retried, and no record is written on any failure.

use vstd::prelude::*;
use vstd::string::StringExecFns;
use crate::selector::CoreError;
use crate::snippet::SnippetFile;

verus! {

/// What materialization reported back: the requested file's bytes, or which
/// way it failed. A missing path is distinct from a failed transfer, so a
/// caller can tell "bad ref" from "bad path"; a local read failure is
/// distinct from both.
pub enum FetchOutcome {
    Content(Vec<u8>),
    FetchFailed,
    PathMissing,
    ReadFailed,
}

/// One pending write: the record's file name and the exact bytes to store
/// under it.
pub struct WriteCmd {
    pub name: String,
    pub content: Vec<u8>,
}

impl SnippetFile {
    /// Turns the materializer's outcome into the one write that persists the
    /// record, or into the terminal error. Content yields a write of exactly
    /// the fetched bytes under this record's name — the name that embeds the
    /// commit the bytes were read from. On every failure, a missing path
    /// included, no write is produced, so no record is ever left whose name
    /// disagrees with its content.
    pub fn persist_step(self, outcome: FetchOutcome) -> (r: Result<WriteCmd, CoreError>)
        ensures
            (outcome matches FetchOutcome::Content(c) ==> (r matches Ok(w) && w.name
                == self.full_name && w.content == c)),
            outcome is FetchFailed ==> r == Err::<WriteCmd, CoreError>(CoreError::Fetch),
            outcome is PathMissing ==> r == Err::<WriteCmd, CoreError>(CoreError::FileNotFound),
            outcome is ReadFailed ==> r == Err::<WriteCmd, CoreError>(CoreError::Storage),
    {
        match outcome {
            FetchOutcome::Content(c) => Ok(WriteCmd { name: self.full_name, content: c }),
            FetchOutcome::FetchFailed => Err(CoreError::Fetch),
            FetchOutcome::PathMissing => Err(CoreError::FileNotFound),
            FetchOutcome::ReadFailed => Err(CoreError::Storage),
        }
    }
}

/// The fixed name of the store's directory.
pub fn snippets_dir() -> (r: String)
    ensures
        r@ == ".snippets"@,
{
    String::from_str(".snippets")
}

/// The path of a record inside the store's directory.
pub fn snippet_path(name: &str) -> (r: String)
    ensures
        r@ == ".snippets/"@ + name@,
{
    String::from_str(".snippets/").concat(name)
}

impl CoreError {
    /// A short message naming the stage that failed.
    pub fn stage_message(&self) -> (r: String)
        ensures
            self is Validation ==> r@
                == "only one of --branch, --tag, or --commit-hash can be specified"@,
            self matches CoreError::Resolution(_) ==> r@ == "could not resolve the selector"@,
            self is Fetch ==> r@ == "could not fetch the commit"@,
            self is FileNotFound ==> r@ == "the path is absent from the commit's tree"@,
            self is Storage ==> r@ == "could not read or write the snippet store"@,
    {
        match self {
            CoreError::Validation => String::from_str(
                "only one of --branch, --tag, or --commit-hash can be specified",
            ),
            CoreError::Resolution(_) => String::from_str("could not resolve the selector"),
            CoreError::Fetch => String::from_str("could not fetch the commit"),
            CoreError::FileNotFound => String::from_str("the path is absent from the commit's tree"),
            CoreError::Storage => String::from_str("could not read or write the snippet store"),
        }
    }
}

} // verus!
