//! Digests that name things on disk: the repository sub-directory and the
//! cache file of a repository listing.

use crate::text::{concat_text3, decimal, decimal_string, hex_lower, hex_prefix};
use sha2::{Digest, Sha256};
use std::collections::hash_map::DefaultHasher;
use std::hash::{BuildHasher, BuildHasherDefault};
use vstd::prelude::*;

verus! {

/// SHA-256 digest of a byte string, as computed by the `sha2` crate.
pub uninterp spec fn sha256_digest(data: Seq<u8>) -> Seq<u8>;

/// The value of std's `DefaultHasher` (as created by `DefaultHasher::new`)
/// after hashing a string slice.
pub uninterp spec fn default_str_hash(s: Seq<char>) -> u64;

/// Calls `sha2::Sha256::digest`. Trusted to return the SHA-256 digest of
/// `data`, which the crate documents as a 32-byte output.
#[verifier::external_body]
fn sha256(data: &[u8]) -> (res: Vec<u8>)
    ensures
        res@ == sha256_digest(data@),
        res@.len() == 32,
{
    Sha256::digest(data).to_vec()
}

/// Calls `BuildHasher::hash_one` on a default-built `DefaultHasher`, which
/// std documents as equivalent to `DefaultHasher::new`, `Hash::hash` and
/// `Hasher::finish`. `DefaultHasher::new` uses fixed keys, so within one
/// build of std the result depends on `s` alone; std does not promise the
/// same value across releases, which this contract does not claim.
#[verifier::external_body]
fn default_hash(s: &str) -> (h: u64)
    ensures
        h == default_str_hash(s@),
{
    BuildHasherDefault::<DefaultHasher>::default().hash_one(s)
}

/// Name of the sub-directory that holds the mods downloaded from the
/// repository at `repo_url`: the first six characters of the lower-case
/// hexadecimal SHA-256 digest of the URL's UTF-8 bytes.
pub open spec fn repo_dir_name(repo_url: Seq<char>) -> Seq<char> {
    hex_lower(sha256_digest(vstd::utf8::encode_utf8(repo_url))).take(6)
}

proof fn lemma_hex_lower_prefix(b: Seq<u8>, k: int)
    requires
        0 <= k <= b.len(),
    ensures
        hex_lower(b).len() == 2 * b.len(),
        hex_lower(b).take(2 * k) == hex_lower(b.take(k)),
    decreases b.len(),
{
    if b.len() > 0 {
        if k == b.len() {
            lemma_hex_lower_prefix(b.drop_last(), k - 1);
            assert(b.take(k) == b);
            assert(hex_lower(b).take(2 * k) == hex_lower(b));
        } else {
            lemma_hex_lower_prefix(b.drop_last(), k);
            assert(b.drop_last().take(k) == b.take(k));
            assert(hex_lower(b).take(2 * k) == hex_lower(b.drop_last()).take(2 * k));
        }
    } else {
        assert(b.take(k) == b);
    }
}

/// The sub-directory name for a repository URL (see [`repo_dir_name`]).
pub fn repo_hash(repo_url: &str) -> (res: String)
    ensures
        res@ == repo_dir_name(repo_url@),
        res@.len() == 6,
{
    let digest = sha256(repo_url.as_bytes());
    let res = hex_prefix(&digest, 3);
    proof {
        lemma_hex_lower_prefix(digest@, 3);
        lemma_hex_lower_prefix(digest@.take(3), 3);
        assert(digest@.take(3).take(3) == digest@.take(3));
    }
    res
}

/// Name of the cache file for the repository listing at `url`:
/// `repo_<h>.xml`, where `<h>` is the decimal `DefaultHasher` value of the URL.
pub open spec fn cache_file_name(url: Seq<char>) -> Seq<char> {
    "repo_"@ + decimal(default_str_hash(url) as nat) + ".xml"@
}

/// The cache file name for a repository URL (see [`cache_file_name`]).
pub fn cache_filename_for(url: &str) -> (res: String)
    ensures
        res@ == cache_file_name(url@),
{
    let h = default_hash(url);
    let digits = decimal_string(h);
    concat_text3("repo_", digits.as_str(), ".xml")
}

} // verus!
