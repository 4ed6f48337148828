//! Mods found on disk rather than in a repository listing: mods a
//! repository no longer lists (deprecated) and mods the user placed in the
//! sideload directory. The caller lists directories and reads their
//! version and read-me files; this module decides what they describe.

use crate::text::{concat_text, owned, text_eq, trim, trim_ws};
use crate::types::Mod;
use vstd::prelude::*;

verus! {

/// Where a locally found mod comes from.
#[derive(Debug, Clone, Copy, PartialEq, Eq, Structural)]
pub enum LocalSource {
    Deprecated,
    Sideloaded,
}

/// The description a local mod gets when it has no read-me file.
pub open spec fn fallback_description(source: LocalSource, name: Seq<char>) -> Seq<char> {
    match source {
        LocalSource::Deprecated => "Deprecated mod: "@ + name,
        LocalSource::Sideloaded => "Sideloaded mod: "@ + name,
    }
}

/// Whether `m` describes the local mod directory `name` of the given
/// source, whose version file read `version_text` and read-me file read
/// `readme_text` (`None` where the file could not be read): the version is
/// the trimmed version text or "Unknown", the description the trimmed
/// read-me text or the trimmed fallback description.
pub open spec fn describes_local_mod(
    m: Mod,
    source: LocalSource,
    name: Seq<char>,
    version_text: Option<String>,
    readme_text: Option<String>,
) -> bool {
    &&& m.name@ == name
    &&& m.url is None
    &&& m.new_version is None
    &&& m.version@ == match version_text {
        Some(t) => trim_ws(t@),
        None => trim_ws("Unknown"@),
    }
    &&& m.description@ == match readme_text {
        Some(t) => trim_ws(t@),
        None => trim_ws(fallback_description(source, name)),
    }
}

impl Mod {
    /// The mod a local directory describes (see [`describes_local_mod`]).
    pub fn from_local_dir(
        source: LocalSource,
        name: String,
        version_text: Option<String>,
        readme_text: Option<String>,
    ) -> (res: Mod)
        ensures
            describes_local_mod(res, source, name@, version_text, readme_text),
    {
        let version = match &version_text {
            Some(t) => trim(t.as_str()),
            None => trim("Unknown"),
        };
        let description = match &readme_text {
            Some(t) => trim(t.as_str()),
            None => {
                let fallback = match source {
                    LocalSource::Deprecated => concat_text("Deprecated mod: ", name.as_str()),
                    LocalSource::Sideloaded => concat_text("Sideloaded mod: ", name.as_str()),
                };
                trim(fallback.as_str())
            },
        };
        match source {
            LocalSource::Deprecated => Mod::new_deprecated(name, version, description),
            LocalSource::Sideloaded => Mod::new_sideloaded(name, version, description),
        }
    }
}

/// Whether `names` holds `name`.
pub open spec fn holds_name(names: Seq<String>, name: Seq<char>) -> bool {
    exists|i: int| 0 <= i < names.len() && (#[trigger] names[i])@ == name
}

/// Whether `names` holds `name` (see [`holds_name`]).
pub fn contains_name(names: &Vec<String>, name: &str) -> (res: bool)
    ensures
        res == holds_name(names@, name@),
{
    let mut i: usize = 0;
    while i < names.len()
        invariant
            i <= names@.len(),
            forall|j: int| 0 <= j < i ==> (#[trigger] names@[j])@ != name@,
        decreases names.len() - i,
    {
        if text_eq(names[i].as_str(), name) {
            assert(names@[i as int]@ == name@);
            return true;
        }
        i = i + 1;
    }
    false
}

/// Keeps the names not held by `active`.
pub open spec fn not_active(active: Seq<String>) -> spec_fn(String) -> bool {
    |n: String| !holds_name(active, n@)
}

/// The mod directories of a repository's download directory that its
/// listing no longer names: those of `dir_names` not in `active`, in order.
pub fn select_deprecated(dir_names: &Vec<String>, active: &Vec<String>) -> (res: Vec<String>)
    ensures
        res@ == dir_names@.filter(not_active(active@)),
{
    let ghost pred = not_active(active@);
    let mut res: Vec<String> = Vec::new();
    let mut i: usize = 0;
    while i < dir_names.len()
        invariant
            i <= dir_names@.len(),
            pred == not_active(active@),
            res@ == dir_names@.take(i as int).filter(pred),
        decreases dir_names.len() - i,
    {
        proof {
            reveal_with_fuel(Seq::<_>::filter, 1);
            assert(dir_names@.take(i + 1).drop_last() == dir_names@.take(i as int));
            assert(dir_names@.take(i + 1).last() == dir_names@[i as int]);
        }
        if !contains_name(active, dir_names[i].as_str()) {
            res.push(dir_names[i].clone());
        }
        i = i + 1;
    }
    assert(dir_names@.take(dir_names@.len() as int) == dir_names@);
    res
}

/// Keeps the names not held by `active`: no name the listing still holds
/// is ever reported as deprecated.
pub proof fn lemma_deprecated_never_active(dir_names: Seq<String>, active: Seq<String>)
    ensures
        forall|i: int|
            0 <= i < dir_names.filter(not_active(active)).len() ==> !holds_name(
                active,
                (#[trigger] dir_names.filter(not_active(active))[i])@,
            ),
{
    broadcast use vstd::seq_lib::group_filter_ensures;

}

} // verus!
