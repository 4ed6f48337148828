//! Where repository listings are cached, and how settings remember them.

use crate::hashing::{cache_file_name, cache_filename_for};
use crate::paths::{join_path, path_join};
use crate::settings::{is_first_with_repo, same_except_profiles, Profile, Settings};
use crate::text::owned;
use vstd::prelude::*;

verus! {

/// Names and records cached repository listings.
pub struct XmlCache;

/// Whether `new` is `old` with entry `index` set to `path`, the list first
/// padded with empty entries up to `index`.
pub open spec fn cache_paths_recorded(
    old: Seq<String>,
    new: Seq<String>,
    index: int,
    path: Seq<char>,
) -> bool {
    &&& new.len() == if index < old.len() {
        old.len() as int
    } else {
        index + 1
    }
    &&& new[index]@ == path
    &&& forall|j: int| 0 <= j < old.len() && j != index ==> #[trigger] new[j] == old[j]
    &&& forall|j: int| old.len() <= j < index ==> (#[trigger] new[j])@ == Seq::<char>::empty()
}

/// Whether `new` is `old` with `path` recorded as the cached listing of the
/// first profile whose repository is `url`, and `matched` whether there is
/// such a profile (when there is none, nothing changes).
pub open spec fn cache_path_updated(
    old: Settings,
    new: Settings,
    url: Seq<char>,
    path: Seq<char>,
    matched: bool,
) -> bool {
    &&& new.profiles@ == old.profiles@
    &&& new.dark_mode == old.dark_mode
    &&& new.download_path == old.download_path
    &&& new.sideload_path == old.sideload_path
    &&& matched == exists|i: int| is_first_with_repo(old.profiles@, url, i)
    &&& forall|i: int|
        is_first_with_repo(old.profiles@, url, i) ==> cache_paths_recorded(
            old.cached_xml_paths@,
            new.cached_xml_paths@,
            i,
            path,
        )
    &&& !matched ==> new.cached_xml_paths@ == old.cached_xml_paths@
}

impl XmlCache {
    /// File name of the cached listing of the repository at `url`
    /// (see [`cache_file_name`]).
    pub fn generate_cache_filename(url: &str) -> (res: String)
        ensures
            res@ == cache_file_name(url@),
    {
        cache_filename_for(url)
    }

    /// Path of the cached listing of the repository at `url` inside the
    /// cache directory, or `None` when there is no cache directory.
    pub fn get_cache_path(cache_dir: Option<&str>, url: &str) -> (res: Option<String>)
        ensures
            cache_dir is None ==> res is None,
            cache_dir matches Some(d) ==> res matches Some(p) && p@ == path_join(
                d@,
                cache_file_name(url@),
            ),
    {
        match cache_dir {
            None => None,
            Some(dir) => {
                let filename = Self::generate_cache_filename(url);
                Some(join_path(dir, filename.as_str()))
            },
        }
    }
}

/// Records `cache_path` as the cached listing of the first profile whose
/// repository is `url`, padding the list of cached paths with empty entries
/// as needed. Returns whether a profile matched (and so whether the
/// settings changed and must be saved); when none matches nothing changes.
pub fn update_cache_path_in_settings(settings: &mut Settings, url: &str, cache_path: &str) -> (res:
    bool)
    ensures
        cache_path_updated(*old(settings), *final(settings), url@, cache_path@, res),
{
    let index = settings.profile_index_by_repo_url(url);
    match index {
        None => {
            proof {
                assert forall|i: int| !is_first_with_repo(old(settings).profiles@, url@, i) by {
                    if 0 <= i < old(settings).profiles@.len() {
                        assert(old(settings).profiles@[i].repo_url@ != url@);
                    }
                }
            }
            false
        },
        Some(i) => {
            record_cache_path(&mut settings.cached_xml_paths, i, cache_path);
            proof {
                let ps = old(settings).profiles@;
                assert forall|k: int| is_first_with_repo(ps, url@, k) implies k == i by {
                    if k < i {
                        assert(ps[k].repo_url@ != url@);
                    }
                    if i < k {
                        assert(ps[i as int].repo_url@ != url@);
                    }
                }
                assert(is_first_with_repo(ps, url@, i as int));
            }
            true
        },
    }
}

/// Sets entry `index` of `paths` to `path`, first padding the list with
/// empty entries up to `index`.
fn record_cache_path(paths: &mut Vec<String>, index: usize, path: &str)
    ensures
        cache_paths_recorded(old(paths)@, final(paths)@, index as int, path@),
{
    let ghost old_paths = paths@;
    while paths.len() <= index
        invariant
            old_paths.len() <= paths@.len() <= if index < old_paths.len() {
                old_paths.len() as int
            } else {
                index + 1
            },
            forall|j: int| 0 <= j < old_paths.len() ==> #[trigger] paths@[j] == old_paths[j],
            forall|j: int|
                old_paths.len() <= j < paths@.len() ==> (#[trigger] paths@[j])@ == Seq::<
                    char,
                >::empty(),
        decreases index + 1 - paths@.len(),
    {
        paths.push(String::new());
    }
    paths.set(index, owned(path));
}

} // verus!
