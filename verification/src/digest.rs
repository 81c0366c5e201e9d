//! The digest primitive: a short, deterministic fingerprint of a string.

use vstd::prelude::*;
use sha2::Digest;

verus! {

/// The short fingerprint of a character sequence: the first eight lowercase
/// hex characters of its SHA-256 digest. The digest depends on the input
/// alone, so naming it as a function is sound; its value is left abstract.
pub uninterp spec fn digest8_of(s: Seq<char>) -> Seq<char>;

/// Relies on `sha2::Sha256` (`Digest::new`/`update`/`finalize`): the 32-byte
/// digest is a pure function of the input bytes. Formatting its first four
/// bytes as two lowercase hex characters each yields exactly the first 8 hex
/// characters of the digest.
#[verifier::external_body]
pub(crate) fn hash_string(input: &str) -> (r: String)
    ensures
        r@ == digest8_of(input@),
        r@.len() == 8,
{
    let mut hasher = sha2::Sha256::new();
    hasher.update(input.as_bytes());
    let d = hasher.finalize();
    format!("{:02x}{:02x}{:02x}{:02x}", d[0], d[1], d[2], d[3])
}

} // verus!
