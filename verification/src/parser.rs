//! Checking a repository listing against the versions installed locally.

use crate::types::{duplicate_opt, Category, Mod, ModError, ModsFile};
use crate::text::{trim, trim_ws};
use vstd::prelude::*;

verus! {

/// Reads repository listings and compares them with installed mods.
pub struct ModParser;

/// The installed version text read for mod `m` of category `c`, if one was read.
pub open spec fn local_version_at(local: Seq<Vec<Option<String>>>, c: int, m: int) -> Option<
    String,
> {
    if 0 <= c < local.len() && 0 <= m < local[c]@.len() {
        local[c]@[m]
    } else {
        None
    }
}

/// Whether `new` is listed mod `old` after comparing it with the installed
/// version text `local`: when an installed version was read and, trimmed,
/// differs from the listed one, the mod shows the installed version and
/// offers the listed one as its new version; otherwise it is unchanged.
pub open spec fn mod_checked(old: Mod, new: Mod, local: Option<String>) -> bool {
    &&& new.name == old.name
    &&& new.url == old.url
    &&& new.description == old.description
    &&& match local {
        Some(t) => if trim_ws(t@) != old.version@ {
            new.version@ == trim_ws(t@) && new.new_version == Some(old.version)
        } else {
            new.version == old.version && new.new_version == old.new_version
        },
        None => new.version == old.version && new.new_version == old.new_version,
    }
}

/// Whether category `new` is `old` with each of its mods checked against
/// the installed versions of category `c`.
pub open spec fn category_checked(
    old: Category,
    new: Category,
    local: Seq<Vec<Option<String>>>,
    c: int,
) -> bool {
    &&& new.name == old.name
    &&& new.sort_order == old.sort_order
    &&& new.mods@.len() == old.mods@.len()
    &&& forall|m: int|
        0 <= m < old.mods@.len() ==> mod_checked(
            old.mods@[m],
            #[trigger] new.mods@[m],
            local_version_at(local, c, m),
        )
}

/// Whether listing `new` is `old` with every mod checked against the
/// installed versions.
pub open spec fn listing_checked(old: ModsFile, new: ModsFile, local: Seq<Vec<Option<String>>>) -> bool {
    &&& new.categories@.len() == old.categories@.len()
    &&& forall|c: int|
        0 <= c < old.categories@.len() ==> category_checked(
            old.categories@[c],
            #[trigger] new.categories@[c],
            local,
            c,
        )
}

fn local_version(local: &Vec<Vec<Option<String>>>, c: usize, m: usize) -> (res: Option<String>)
    ensures
        res == local_version_at(local@, c as int, m as int),
{
    if c < local.len() && m < local[c].len() {
        duplicate_opt(&local[c][m])
    } else {
        None
    }
}

fn check_mod(m: &Mod, local: Option<String>) -> (res: Mod)
    ensures
        mod_checked(*m, res, local),
{
    let mut res = m.duplicate();
    match &local {
        Some(text) => {
            let installed = trim(text.as_str());
            if !(installed == m.version) {
                res.new_version = Some(m.version.clone());
                res.version = installed;
            }
        },
        None => {},
    }
    res
}

impl ModParser {
    /// Compares a repository listing with the installed mods. `local[c][m]`
    /// is the content of the version file of mod `m` of category `c` in the
    /// repository's download directory, when that mod is installed and its
    /// version file could be read (missing entries count as not installed).
    /// Every mod whose installed version, trimmed, differs from the listed
    /// one shows the installed version and offers the listed one as new.
    pub fn check_for_updates(xml_mods: &ModsFile, local: &Vec<Vec<Option<String>>>) -> (res: Result<
        ModsFile,
        ModError,
    >)
        ensures
            res matches Ok(updated) && listing_checked(*xml_mods, updated, local@),
    {
        let mut categories: Vec<Category> = Vec::new();
        let mut c: usize = 0;
        while c < xml_mods.categories.len()
            invariant
                c <= xml_mods.categories@.len(),
                categories@.len() == c,
                forall|k: int|
                    0 <= k < c ==> category_checked(
                        xml_mods.categories@[k],
                        #[trigger] categories@[k],
                        local@,
                        k,
                    ),
            decreases xml_mods.categories.len() - c,
        {
            let cat = &xml_mods.categories[c];
            let mut mods: Vec<Mod> = Vec::new();
            let mut m: usize = 0;
            while m < cat.mods.len()
                invariant
                    m <= cat.mods@.len(),
                    mods@.len() == m,
                    forall|k: int|
                        0 <= k < m ==> mod_checked(
                            cat.mods@[k],
                            #[trigger] mods@[k],
                            local_version_at(local@, c as int, k),
                        ),
                decreases cat.mods.len() - m,
            {
                let lv = local_version(local, c, m);
                mods.push(check_mod(&cat.mods[m], lv));
                m = m + 1;
            }
            categories.push(Category { name: cat.name.clone(), sort_order: cat.sort_order, mods });
            c = c + 1;
        }
        Ok(ModsFile { categories })
    }
}


/// Checking a listing a second time against the same installed versions
/// changes nothing more: every mod stays as the first check left it.
pub proof fn lemma_check_twice(
    listed: ModsFile,
    once: ModsFile,
    twice: ModsFile,
    local: Seq<Vec<Option<String>>>,
)
    requires
        listing_checked(listed, once, local),
        listing_checked(once, twice, local),
    ensures
        twice.categories@.len() == once.categories@.len(),
        forall|c: int, m: int|
            0 <= c < once.categories@.len() && 0 <= m < once.categories@[c].mods@.len()
                ==> #[trigger] twice.categories@[c].mods@[m] == once.categories@[c].mods@[m],
{
    assert forall|c: int, m: int|
        0 <= c < once.categories@.len() && 0 <= m < once.categories@[c].mods@.len()
            implies #[trigger] twice.categories@[c].mods@[m] == once.categories@[c].mods@[m] by {
        let a = listed.categories@[c].mods@[m];
        let b = once.categories@[c].mods@[m];
        let z = twice.categories@[c].mods@[m];
        assert(category_checked(listed.categories@[c], once.categories@[c], local, c));
        assert(category_checked(once.categories@[c], twice.categories@[c], local, c));
        assert(mod_checked(a, b, local_version_at(local, c, m)));
        assert(mod_checked(b, z, local_version_at(local, c, m)));
    }
}


/// Each listed mod is compared with the version read from its own
/// directory: for mod `m` of category `c`, the installed version used is
/// `local[c][m]` when there is one. When it was read and, trimmed, differs
/// from the listed version, the mod shows it and offers the listed version
/// as new; otherwise (also when nothing was read for that mod, or `local`
/// has no entry for it) the mod is unchanged.
pub proof fn lemma_check_uses_own_version(
    old: ModsFile,
    new: ModsFile,
    local: Seq<Vec<Option<String>>>,
    c: int,
    m: int,
)
    requires
        listing_checked(old, new, local),
        0 <= c < old.categories@.len(),
        0 <= m < old.categories@[c].mods@.len(),
    ensures
        ({
            let o = old.categories@[c].mods@[m];
            let n = new.categories@[c].mods@[m];
            &&& n.name == o.name
            &&& if c < local.len() && m < local[c]@.len() && local[c]@[m] is Some && trim_ws(
                local[c]@[m]->0@,
            ) != o.version@ {
                n.version@ == trim_ws(local[c]@[m]->0@) && n.new_version == Some(o.version)
            } else {
                n.version == o.version && n.new_version == o.new_version
            }
        }),
{
    assert(category_checked(old.categories@[c], new.categories@[c], local, c));
    assert(mod_checked(
        old.categories@[c].mods@[m],
        new.categories@[c].mods@[m],
        local_version_at(local, c, m),
    ));
}

} // verus!
