//! The snippet store: a directory of immutable, key-named files.
//!
//! The store itself is a directory; this module works on its listing. It
//! finds the record for a prefix, recovers the commit id embedded in a
//! record's name, decides whether a cached record is still fresh, and states
//! what an update — remove the stale record, write its replacement — leaves
//! behind. Freshness is the only validity criterion: a record is fresh iff
//! its embedded commit equals the freshly resolved commit.

use vstd::prelude::*;
use vstd::string::StrSliceExecFns;
use vstd::string::StringExecFns;
use crate::snippet::full_name_spec;
use crate::snippet::SnippetFile;
use crate::strutil::find_last_char;
use crate::strutil::last_pos;
use crate::strutil::lemma_last_pos;
use crate::strutil::lemma_last_pos_append_free;
use crate::strutil::str_ends_with;
use crate::strutil::str_eq;
use crate::strutil::str_starts_with;

verus! {

/// The fixed extension every record's name carries.
pub open spec fn rs_ext() -> Seq<char> {
    ".rs"@
}

/// The commit id embedded in a record's name: the last hyphen-delimited
/// fragment before the extension. A name without the extension carries no
/// commit and is not a record.
pub open spec fn parse_commit(name: Seq<char>) -> Option<Seq<char>> {
    if rs_ext().is_suffix_of(name) {
        let stem = name.subrange(0, name.len() - rs_ext().len());
        match last_pos(stem, '-') {
            None => Some(stem),
            Some(i) => Some(stem.subrange(i + 1, stem.len() as int)),
        }
    } else {
        None
    }
}

/// Whether a directory entry is the record for `prefix`: its name starts
/// with the prefix and embeds a commit id.
pub open spec fn entry_matches(name: Seq<char>, prefix: Seq<char>) -> bool {
    prefix.is_prefix_of(name) && parse_commit(name) is Some
}

/// The first record for `prefix` in the listing, with its embedded commit.
pub open spec fn find_spec(names: Seq<String>, prefix: Seq<char>) -> Option<(Seq<char>, Seq<char>)>
    decreases names.len(),
{
    if names.len() == 0 {
        None
    } else if entry_matches(names[0]@, prefix) {
        Some((names[0]@, parse_commit(names[0]@).unwrap()))
    } else {
        find_spec(names.drop_first(), prefix)
    }
}

impl SnippetFile {
    /// Scans a directory listing for the record whose name starts with
    /// `prefix` and recovers the commit id embedded in its name. When the
    /// store's directory does not exist, the caller passes an empty listing
    /// and the result is `None` rather than a failure.
    pub fn find_existing(names: &Vec<String>, prefix: &str) -> (r: Option<SnippetFile>)
        ensures
            match r {
                Some(rec) => {
                    &&& find_spec(names@, prefix@) == Some((rec.full_name@, rec.commit_hash@))
                    &&& rec.prefix@ == prefix@
                },
                None => find_spec(names@, prefix@) is None,
            },
    {
        let mut idx: usize = 0;
        proof {
            assert(names@.skip(0) =~= names@);
        }
        while idx < names.len()
            invariant
                idx <= names@.len(),
                find_spec(names@, prefix@) == find_spec(names@.skip(idx as int), prefix@),
            decreases names@.len() - idx,
        {
            let name: &String = &names[idx];
            proof {
                assert(names@.skip(idx as int)[0] == names@[idx as int]);
            }
            if str_starts_with(name.as_str(), prefix) && str_ends_with(name.as_str(), ".rs") {
                let n = name.as_str().unicode_len();
                proof {
                    reveal_strlit(".rs");
                }
                let stem = name.as_str().substring_char(0, n - 3);
                let commit = match find_last_char(stem, '-') {
                    None => String::from_str(stem),
                    Some(j) => {
                        proof {
                            lemma_last_pos(stem@, '-');
                        }
                        String::from_str(stem.substring_char(j + 1, stem.unicode_len()))
                    },
                };
                proof {
                    assert(parse_commit(name@) == Some(commit@));
                    assert(entry_matches(names@.skip(idx as int)[0]@, prefix@));
                }
                return Some(
                    SnippetFile {
                        prefix: String::from_str(prefix),
                        commit_hash: commit,
                        full_name: name.clone(),
                    },
                );
            }
            proof {
                assert(!entry_matches(names@.skip(idx as int)[0]@, prefix@));
                assert(names@.skip(idx as int).drop_first() =~= names@.skip(idx as int + 1));
            }
            idx = idx + 1;
        }
        proof {
            assert(names@.skip(idx as int).len() == 0);
        }
        None
    }
}

/// What the cache check decides: the cached record is fresh and is returned
/// unchanged, or it is stale and must be replaced, or no record exists.
pub enum CacheDecision {
    UpToDate { existing_name: String },
    Refresh { stale_name: String },
    Miss,
}

/// Checks the store listing for a record for `prefix` and compares its
/// embedded commit with the freshly resolved one. A fresh record is an
/// idempotent cache hit: the decision returns the existing record's name
/// unchanged and nothing further — in particular no fetch — is needed; a
/// record with any other commit is stale; no record means the content has
/// never been cached.
pub fn check_cache(names: &Vec<String>, prefix: &str, commit_sha: &str) -> (r: CacheDecision)
    ensures
        match find_spec(names@, prefix@) {
            Some((n, c)) => {
                &&& (c == commit_sha@ ==> (r matches CacheDecision::UpToDate { existing_name }
                    && existing_name@ == n))
                &&& (c != commit_sha@ ==> (r matches CacheDecision::Refresh { stale_name }
                    && stale_name@ == n))
            },
            None => r is Miss,
        },
{
    match SnippetFile::find_existing(names, prefix) {
        None => CacheDecision::Miss,
        Some(rec) => {
            if str_eq(rec.commit_hash.as_str(), commit_sha) {
                CacheDecision::UpToDate { existing_name: rec.full_name }
            } else {
                CacheDecision::Refresh { stale_name: rec.full_name }
            }
        },
    }
}

/// A freshly derived record name parses back to its own commit: the commit
/// id is the last hyphen-delimited fragment before the extension, provided
/// the commit id itself contains no hyphen.
pub proof fn lemma_parse_full_name(prefix: Seq<char>, commit: Seq<char>)
    requires
        forall|k: int| 0 <= k < commit.len() ==> commit[k] != '-',
    ensures
        parse_commit(full_name_spec(prefix, commit)) == Some(commit),
        entry_matches(full_name_spec(prefix, commit), prefix),
    decreases commit.len(),
{
    reveal_strlit("-");
    reveal_strlit(".rs");
    let name = full_name_spec(prefix, commit);
    assert(rs_ext().is_suffix_of(name)) by {
        assert(name.subrange(name.len() - 3, name.len() as int) =~= rs_ext());
    }
    let stem = name.subrange(0, name.len() - 3);
    assert(stem =~= (prefix + "-"@) + commit);
    lemma_last_pos_append_free(prefix + "-"@, commit, '-');
    assert(last_pos(prefix + "-"@, '-') == Some(prefix.len() as int));
    assert(stem.subrange(prefix.len() as int + 1, stem.len() as int) =~= commit);
    assert(prefix.is_prefix_of(name)) by {
        assert(name.subrange(0, prefix.len() as int) =~= prefix);
    }
}

/// Correct invalidation: when the store holds exactly one record for a
/// prefix, embedding commit `c1`, and the new resolution yields a different
/// commit `c2`, then after the stale record is removed and the new one
/// written, the store holds exactly one record for the prefix — the new
/// name, embedding `c2` — and no entry with the stale name remains.
pub proof fn lemma_correct_invalidation(
    names: Seq<Seq<char>>,
    prefix: Seq<char>,
    i: int,
    c1: Seq<char>,
    c2: Seq<char>,
)
    requires
        0 <= i < names.len(),
        entry_matches(names[i], prefix),
        parse_commit(names[i]) == Some(c1),
        forall|j: int| 0 <= j < names.len() && entry_matches(#[trigger] names[j], prefix) ==> j
            == i,
        c1 != c2,
        forall|k: int| 0 <= k < c2.len() ==> c2[k] != '-',
    ensures
        ({
            let old_name = names[i];
            let new_name = full_name_spec(prefix, c2);
            let after = names.remove(i).push(new_name);
            &&& parse_commit(new_name) == Some(c2)
            &&& entry_matches(new_name, prefix)
            &&& after[after.len() - 1] == new_name
            &&& forall|k: int|
                0 <= k < after.len() && entry_matches(#[trigger] after[k], prefix) ==> after[k]
                    == new_name
            &&& forall|k: int| 0 <= k < after.len() ==> #[trigger] after[k] != old_name
        }),
{
    let old_name = names[i];
    let new_name = full_name_spec(prefix, c2);
    let after = names.remove(i).push(new_name);
    lemma_parse_full_name(prefix, c2);
    assert(new_name != old_name);
    assert forall|k: int| 0 <= k < after.len() implies #[trigger] after[k] != old_name by {
        if k < after.len() - 1 {
            if k < i {
                assert(after[k] == names[k]);
            } else {
                assert(after[k] == names[k + 1]);
            }
        }
    }
    assert forall|k: int|
        0 <= k < after.len() && entry_matches(#[trigger] after[k], prefix) implies after[k]
        == new_name by {
        if k < after.len() - 1 {
            if k < i {
                assert(after[k] == names[k]);
            } else {
                assert(after[k] == names[k + 1]);
            }
        }
    }
}

} // verus!
