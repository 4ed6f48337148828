//! Where downloaded mods live: each repository has its own sub-directory
//! of the download directory, named after a digest of the repository URL,
//! and each mod a directory inside it.

use crate::hashing::{repo_dir_name, repo_hash};
use crate::paths::{join_path, path_join, path_with_extension, replace_extension};
use crate::text::{concat_text, strip_suffixes, trim_end_matches};
use vstd::prelude::*;

verus! {

/// The directory holding the mods downloaded from `repo_url` below `base`.
pub open spec fn repo_dir(base: Seq<char>, repo_url: Seq<char>) -> Seq<char> {
    path_join(base, repo_dir_name(repo_url))
}

/// The mod name a download file stands for: the file name without its
/// trailing `.zip` (every repetition of it).
pub open spec fn mod_name_of(filename: Seq<char>) -> Seq<char> {
    strip_suffixes(filename, ".zip"@)
}

/// The directory holding the mods downloaded from `repo_url` below `base`
/// (see [`repo_dir`]).
pub fn repo_download_dir(base: &str, repo_url: &str) -> (res: String)
    ensures
        res@ == repo_dir(base@, repo_url@),
{
    let hash = repo_hash(repo_url);
    join_path(base, hash.as_str())
}

/// The entry `name` inside `dir`.
pub fn entry_path(dir: &str, name: &str) -> (res: String)
    ensures
        res@ == path_join(dir@, name@),
{
    join_path(dir, name)
}

/// The version file of a mod directory.
pub fn version_file(mod_dir: &str) -> (res: String)
    ensures
        res@ == path_join(mod_dir@, "VERSION.txt"@),
{
    join_path(mod_dir, "VERSION.txt")
}

/// The read-me file of a mod directory.
pub fn readme_file(mod_dir: &str) -> (res: String)
    ensures
        res@ == path_join(mod_dir@, "README.txt"@),
{
    join_path(mod_dir, "README.txt")
}

/// The mod name a download file stands for (see [`mod_name_of`]).
pub fn mod_name_from_filename(filename: &str) -> (res: String)
    ensures
        res@ == mod_name_of(filename@),
{
    trim_end_matches(filename, ".zip")
}

/// Name of the temporary file a running download of `filename` writes:
/// the file name with its extension replaced by `tmp`.
pub fn temp_file_name(filename: &str) -> (res: String)
    ensures
        res@ == path_with_extension(filename@, "tmp"@),
{
    proof {
        reveal_strlit("tmp");
    }
    replace_extension(filename, "tmp")
}

/// The places a download of `filename` from `repo_url` uses.
#[derive(Debug, Clone)]
pub struct DownloadLayout {
    /// The repository's directory.
    pub xml_specific_path: String,
    /// Where the downloaded archive is kept until it is extracted.
    pub file_path: String,
    /// The mod's directory, where the archive is extracted.
    pub extract_dir: String,
    /// Where the archive is written while it downloads.
    pub temp_file_path: String,
}

/// Whether `l` is the layout of a download of `filename` from `repo_url`
/// into the download directory `base`.
pub open spec fn is_layout(
    l: DownloadLayout,
    base: Seq<char>,
    repo_url: Seq<char>,
    filename: Seq<char>,
) -> bool {
    let dir = repo_dir(base, repo_url);
    &&& l.xml_specific_path@ == dir
    &&& l.file_path@ == path_join(dir, filename)
    &&& l.extract_dir@ == path_join(dir, mod_name_of(filename))
    &&& l.temp_file_path@ == path_with_extension(path_join(dir, filename), "tmp"@)
}

impl DownloadLayout {
    /// The layout of a download of `filename` from `repo_url` into the
    /// download directory `base`.
    pub fn new(base: &str, repo_url: &str, filename: &str) -> (res: DownloadLayout)
        ensures
            is_layout(res, base@, repo_url@, filename@),
    {
        let dir = repo_download_dir(base, repo_url);
        let mod_name = mod_name_from_filename(filename);
        let file_path = join_path(dir.as_str(), filename);
        let extract_dir = join_path(dir.as_str(), mod_name.as_str());
        proof {
            reveal_strlit("tmp");
        }
        let temp_file_path = replace_extension(file_path.as_str(), "tmp");
        DownloadLayout { xml_specific_path: dir, file_path, extract_dir, temp_file_path }
    }
}

} // verus!
