//! Assembling what the mod views show: the ordered categories of a
//! repository listing with the locally found mods, the list of downloaded
//! mods, and where a profile's enabled mods are looked for.

use crate::layout::{repo_dir, repo_download_dir};
use crate::local_mods::{contains_name, holds_name};
use crate::settings::{is_first_named, Settings};
use crate::text::{concat_text, concat_text3, contains_text, occurs_in, owned, strip_suffixes, trim_end_matches};
use crate::types::{Category, ModsResult};
use vstd::prelude::*;

verus! {

/// Keeps the categories placed at `order`.
pub open spec fn with_order(order: i32) -> spec_fn(Category) -> bool {
    |c: Category| c.sort_order == order
}

/// Whether categories are in ascending order of placement.
pub open spec fn sorted_by_order(cats: Seq<Category>) -> bool {
    forall|i: int, j: int| 0 <= i < j < cats.len() ==> (#[trigger] cats[i]).sort_order <= (
    #[trigger] cats[j]).sort_order
}

/// Whether `sorted` is `cats` stably sorted by placement: ascending, and
/// for every placement, the categories placed there in their original order.
pub open spec fn stably_sorted(cats: Seq<Category>, sorted: Seq<Category>) -> bool {
    &&& sorted_by_order(sorted)
    &&& forall|k: i32| #[trigger] sorted.filter(with_order(k)) == cats.filter(with_order(k))
}

proof fn lemma_filter_none<A>(s: Seq<A>, pred: spec_fn(A) -> bool)
    requires
        forall|i: int| 0 <= i < s.len() ==> !pred(#[trigger] s[i]),
    ensures
        s.filter(pred) == Seq::<A>::empty(),
    decreases s.len(),
{
    reveal_with_fuel(Seq::<_>::filter, 1);
    if s.len() > 0 {
        assert forall|i: int| 0 <= i < s.drop_last().len() implies !pred(#[trigger] s.drop_last()[i]) by {
            assert(s.drop_last()[i] == s[i]);
        }
        lemma_filter_none(s.drop_last(), pred);
    }
}

proof fn lemma_filter_single<A>(x: A, pred: spec_fn(A) -> bool)
    ensures
        seq![x].filter(pred) == if pred(x) {
            seq![x]
        } else {
            Seq::<A>::empty()
        },
{
    reveal_with_fuel(Seq::<_>::filter, 2);
    assert(seq![x].drop_last() == Seq::<A>::empty());
}

/// Categories stably sorted by placement, as std's stable `sort_by_key`
/// on the placement does.
pub fn sort_categories(cats: Vec<Category>) -> (res: Vec<Category>)
    ensures
        stably_sorted(cats@, res@),
{
    broadcast use vstd::seq_lib::group_seq_lib_default;

    let ghost orig = cats@;
    let total = cats.len();
    let mut rest = cats;
    let mut res: Vec<Category> = Vec::new();
    let mut i: usize = 0;
    while rest.len() > 0
        invariant
            i + rest@.len() == orig.len(),
            total == orig.len(),
            rest@ == orig.skip(i as int),
            sorted_by_order(res@),
            forall|k: i32| #[trigger] res@.filter(with_order(k)) == orig.take(i as int).filter(with_order(k)),
        decreases rest.len(),
    {
        let x = rest.remove(0);
        proof {
            assert(orig[i as int] == x);
            assert(rest@ == orig.skip(i + 1));
        }
        let mut p: usize = 0;
        while p < res.len() && res[p].sort_order <= x.sort_order
            invariant
                p <= res@.len(),
                forall|j: int| 0 <= j < p ==> (#[trigger] res@[j]).sort_order <= x.sort_order,
            decreases res.len() - p,
        {
            p = p + 1;
        }
        let ghost before = res@;
        res.insert(p, x);
        proof {
            let a = before.subrange(0, p as int);
            let b = before.subrange(p as int, before.len() as int);
            assert(forall|j: int| 0 <= j < b.len() ==> (#[trigger] b[j]).sort_order > x.sort_order) by {
                assert forall|j: int| 0 <= j < b.len() implies (#[trigger] b[j]).sort_order
                    > x.sort_order by {
                    assert(b[j] == before[p + j]);
                    assert(before[p as int].sort_order > x.sort_order);
                    if j > 0 {
                        assert(before[p as int].sort_order <= before[p + j].sort_order);
                    }
                }
            }
            assert(res@ == a.push(x) + b);
            assert(before == a + b);
            assert(a.push(x) == a + seq![x]);
            let ghost ti = orig.take(i as int);
            assert(orig.take(i + 1) == ti + seq![x]);
            assert(res@ == (a + seq![x]) + b);
            assert forall|k: i32| #[trigger] res@.filter(with_order(k)) == orig.take(i + 1).filter(
                with_order(k),
            ) by {
                let pk = with_order(k);
                lemma_filter_single(x, pk);
                assert(res@.filter(pk) == (a + seq![x]).filter(pk) + b.filter(pk));
                assert((a + seq![x]).filter(pk) == a.filter(pk) + seq![x].filter(pk));
                assert(before.filter(pk) == a.filter(pk) + b.filter(pk));
                assert(before.filter(pk) == ti.filter(pk));
                assert(orig.take(i + 1).filter(pk) == ti.filter(pk) + seq![x].filter(pk));
                if x.sort_order == k {
                    lemma_filter_none(b, pk);
                    assert(b.filter(pk) == Seq::<Category>::empty());
                    assert(a.filter(pk) + b.filter(pk) == a.filter(pk));
                    assert(res@.filter(pk) == a.filter(pk) + seq![x]);
                } else {
                    assert(seq![x].filter(pk) == Seq::<Category>::empty());
                    assert(a.filter(pk) + Seq::<Category>::empty() == a.filter(pk));
                    assert(ti.filter(pk) + Seq::<Category>::empty() == ti.filter(pk));
                }
            }
            assert forall|u: int, v: int| 0 <= u < v < res@.len() implies (#[trigger] res@[u]).sort_order
                <= (#[trigger] res@[v]).sort_order by {
                let r = res@;
                if v < p {
                    assert(r[u] == before[u] && r[v] == before[v]);
                } else if v == p {
                    assert(r[u] == before[u]);
                } else if u < p {
                    assert(r[u] == before[u] && r[v] == before[v - 1]);
                } else if u == p {
                    assert(r[v] == before[v - 1]);
                    assert(b[v - 1 - p] == before[v - 1]);
                } else {
                    assert(r[u] == before[u - 1] && r[v] == before[v - 1]);
                }
            }
        }
        i = i + 1;
    }
    proof {
        assert(orig.take(orig.len() as int) == orig);
    }
    res
}


/// The URL a profile's listing is fetched from: its repository URL without
/// trailing slashes.
pub open spec fn listing_url_of(repo_url: Seq<char>) -> Seq<char> {
    strip_suffixes(repo_url, "/"@)
}

/// The URL a profile's listing is fetched from (see [`listing_url_of`]).
pub fn listing_url(repo_url: &str) -> (res: String)
    ensures
        res@ == listing_url_of(repo_url@),
{
    trim_end_matches(repo_url, "/")
}

/// The listing URL of profile `profile_index`, or, when there is no such
/// profile, the empty listing the mod view shows with the message
/// "Profile index out of bounds".
pub fn profile_listing_url(settings: &Settings, profile_index: usize) -> (res: Result<String, ModsResult>)
    ensures
        profile_index < settings.profiles@.len() ==> (res matches Ok(u) && u@ == listing_url_of(
            settings.profiles@[profile_index as int].repo_url@,
        )),
        profile_index >= settings.profiles@.len() ==> (res matches Err(r) && r.categories@.len()
            == 0 && (r.error matches Some(m) && m@ == "Profile index out of bounds"@)),
{
    if profile_index >= settings.profiles.len() {
        return Err(
            ModsResult {
                categories: Vec::new(),
                error: Some(owned("Profile index out of bounds")),
            },
        );
    }
    Ok(listing_url(settings.profiles[profile_index].repo_url.as_str()))
}

/// The message shown when a listing could not be fetched.
pub open spec fn fetch_failed_msg(e: Seq<char>) -> Seq<char> {
    "Failed to load repository XML: "@ + e
}

/// The message shown when a listing could be neither fetched nor read from its cache.
pub open spec fn cache_unreadable_msg(e: Seq<char>) -> Seq<char> {
    "Failed to load repository XML and could not read cache: "@ + e
}

/// The message shown when a listing could not be fetched and has no cache.
pub open spec fn no_cache_msg(e: Seq<char>) -> Seq<char> {
    "Failed to load repository XML: "@ + e + ". No cached version available."@
}

/// The message shown when a listing could not be fetched (see [`fetch_failed_msg`]).
pub fn fetch_failed_message(e: &str) -> (res: String)
    ensures
        res@ == fetch_failed_msg(e@),
{
    concat_text("Failed to load repository XML: ", e)
}

/// See [`cache_unreadable_msg`].
pub fn cache_unreadable_message(e: &str) -> (res: String)
    ensures
        res@ == cache_unreadable_msg(e@),
{
    concat_text("Failed to load repository XML and could not read cache: ", e)
}

/// See [`no_cache_msg`].
pub fn no_cache_message(e: &str) -> (res: String)
    ensures
        res@ == no_cache_msg(e@),
{
    concat_text3("Failed to load repository XML: ", e, ". No cached version available.")
}

/// Where the cached listing of profile `profile_index` is looked for: the
/// path the settings record for it when there is a non-empty one, else
/// `default_path` (the cache path of its listing URL, if any).
pub fn cached_listing_path(settings: &Settings, profile_index: usize, default_path: Option<String>) -> (res:
    Option<String>)
    ensures
        profile_index < settings.cached_xml_paths@.len()
            && settings.cached_xml_paths@[profile_index as int]@.len() > 0 ==> res == Some(
            settings.cached_xml_paths@[profile_index as int],
        ),
        !(profile_index < settings.cached_xml_paths@.len()
            && settings.cached_xml_paths@[profile_index as int]@.len() > 0) ==> res
            == default_path,
{
    if profile_index < settings.cached_xml_paths.len() && !settings.cached_xml_paths[profile_index].as_str().is_empty() {
        Some(settings.cached_xml_paths[profile_index].clone())
    } else {
        default_path
    }
}

/// The note shown with a listing read from its cache: a note that does not
/// already mention the cache gets ". Using cached XML file." appended; with
/// no note, the reader is told that cached data is shown. A listing not
/// read from the cache keeps its note.
pub open spec fn listing_note_spec(error: Option<Seq<char>>, from_cache: bool) -> Option<Seq<char>> {
    if !from_cache {
        error
    } else {
        match error {
            Some(m) => if !occurs_in(m, "cached"@) && !occurs_in(m, "Cached"@) {
                Some(m + ". Using cached XML file."@)
            } else {
                Some(m)
            },
            None => Some("Using cached repository data. Could not connect to repository."@),
        }
    }
}

/// The note shown with a listing (see [`listing_note_spec`]).
pub fn listing_note(error: Option<String>, from_cache: bool) -> (res: Option<String>)
    ensures
        match res {
            Some(r) => listing_note_spec(
                match error {
                    Some(m) => Some(m@),
                    None => None,
                },
                from_cache,
            ) == Some(r@),
            None => listing_note_spec(
                match error {
                    Some(m) => Some(m@),
                    None => None,
                },
                from_cache,
            ) is None,
        },
{
    if !from_cache {
        return error;
    }
    match error {
        Some(m) => if !contains_text(m.as_str(), "cached") && !contains_text(m.as_str(), "Cached") {
            Some(concat_text(m.as_str(), ". Using cached XML file."))
        } else {
            Some(m)
        },
        None => Some(owned("Using cached repository data. Could not connect to repository.")),
    }
}

/// Whether `name` is the name of some mod of `cats`.
pub open spec fn names_some_mod(cats: Seq<Category>, name: Seq<char>) -> bool {
    exists|c: int, m: int|
        0 <= c < cats.len() && 0 <= m < cats[c].mods@.len() && (#[trigger] cats[c].mods@[m]).name@
            == name
}

/// The names of all mods of the listed categories.
pub fn active_mod_names(cats: &Vec<Category>) -> (res: Vec<String>)
    ensures
        forall|name: Seq<char>| #[trigger] holds_name(res@, name) == names_some_mod(cats@, name),
{
    let mut res: Vec<String> = Vec::new();
    let mut c: usize = 0;
    while c < cats.len()
        invariant
            c <= cats@.len(),
            forall|name: Seq<char>| #[trigger] holds_name(res@, name) == names_some_mod(cats@.take(c as int), name),
        decreases cats.len() - c,
    {
        let ghost res_c = res@;
        let mut m: usize = 0;
        while m < cats[c].mods.len()
            invariant
                c < cats@.len(),
                m <= cats@[c as int].mods@.len(),
                forall|name: Seq<char>| #[trigger] holds_name(res@, name) == (holds_name(res_c, name) || exists|k: int|
                    0 <= k < m && (#[trigger] cats@[c as int].mods@[k]).name@ == name),
            decreases cats@[c as int].mods@.len() - m,
        {
            let ghost prev = res@;
            res.push(cats[c].mods[m].name.clone());
            proof {
                assert forall|name: Seq<char>| #[trigger] holds_name(res@, name) == (holds_name(res_c, name)
                    || exists|k: int| 0 <= k < m + 1 && (#[trigger] cats@[c as int].mods@[k]).name@ == name) by {
                    assert(holds_name(prev, name) == (holds_name(res_c, name) || exists|k: int|
                        0 <= k < m && (#[trigger] cats@[c as int].mods@[k]).name@ == name));
                    if holds_name(res@, name) {
                        let i = choose|i: int| 0 <= i < res@.len() && (#[trigger] res@[i])@ == name;
                        if i < prev.len() {
                            assert(prev[i] == res@[i]);
                            assert(holds_name(prev, name));
                            if !holds_name(res_c, name) {
                                let k = choose|k: int| 0 <= k < m && (#[trigger] cats@[c as int].mods@[k]).name@ == name;
                                assert(0 <= k < m + 1);
                            }
                        } else {
                            assert(cats@[c as int].mods@[m as int].name@ == name);
                        }
                    }
                    if holds_name(prev, name) {
                        let i = choose|i: int| 0 <= i < prev.len() && (#[trigger] prev[i])@ == name;
                        assert(res@[i] == prev[i]);
                    }
                    if exists|k: int| 0 <= k < m + 1 && (#[trigger] cats@[c as int].mods@[k]).name@ == name {
                        let k = choose|k: int| 0 <= k < m + 1 && (#[trigger] cats@[c as int].mods@[k]).name@ == name;
                        if k == m {
                            assert(res@[prev.len() as int]@ == name);
                        } else {
                            assert(holds_name(prev, name));
                        }
                    }
                }
            }
            m = m + 1;
        }
        proof {
            assert forall|name: Seq<char>| #[trigger] holds_name(res@, name) == names_some_mod(cats@.take(c + 1), name) by {
                let t = cats@.take(c + 1);
                if names_some_mod(t, name) {
                    let (ci, mi) = choose|ci: int, mi: int|
                        0 <= ci < t.len() && 0 <= mi < t[ci].mods@.len() && (#[trigger] t[ci].mods@[mi]).name@ == name;
                    if ci < c {
                        assert(cats@.take(c as int)[ci] == t[ci]);
                        assert(names_some_mod(cats@.take(c as int), name));
                    } else {
                        assert(cats@[c as int].mods@[mi].name@ == name);
                    }
                }
                if holds_name(res_c, name) {
                    assert(names_some_mod(cats@.take(c as int), name));
                    let (ci, mi) = choose|ci: int, mi: int|
                        0 <= ci < cats@.take(c as int).len() && 0 <= mi < cats@.take(c as int)[ci].mods@.len()
                            && (#[trigger] cats@.take(c as int)[ci].mods@[mi]).name@ == name;
                    assert(t[ci] == cats@.take(c as int)[ci]);
                }
                if exists|k: int| 0 <= k < cats@[c as int].mods@.len() && (#[trigger] cats@[c as int].mods@[k]).name@ == name {
                    let k = choose|k: int| 0 <= k < cats@[c as int].mods@.len() && (#[trigger] cats@[c as int].mods@[k]).name@ == name;
                    assert(t[c as int] == cats@[c as int]);
                    assert(t[c as int].mods@[k].name@ == name);
                }
            }
        }
        c = c + 1;
    }
    proof {
        assert(cats@.take(cats@.len() as int) == cats@);
    }
    res
}


/// The categories after the deprecated mods were added: the deprecated
/// category is appended when it holds a mod.
pub open spec fn with_deprecated(cats: Seq<Category>, deprecated: Option<Category>) -> Seq<Category> {
    match deprecated {
        Some(d) => if d.mods@.len() > 0 {
            cats.push(d)
        } else {
            cats
        },
        None => cats,
    }
}

/// The placement a non-empty sideload category gets: one past the last
/// category's, or 0 when there is none.
pub open spec fn sideload_order(cats: Seq<Category>) -> int {
    if cats.len() > 0 {
        cats.last().sort_order + 1
    } else {
        0
    }
}

/// Appends the locally found mods to the listing: the deprecated category,
/// then the sideload category placed after the last category; each only
/// when it holds a mod.
pub fn append_local_categories(
    categories: &mut Vec<Category>,
    deprecated: Option<Category>,
    sideload: Option<Category>,
)
    requires
        sideload matches Some(s) && s.mods@.len() > 0 ==> sideload_order(
            with_deprecated(old(categories)@, deprecated),
        ) <= i32::MAX,
    ensures
        ({
            let with_dep = with_deprecated(old(categories)@, deprecated);
            match sideload {
                Some(s) => if s.mods@.len() > 0 {
                    final(categories)@ == with_dep.push(
                        Category { sort_order: sideload_order(with_dep) as i32, ..s },
                    )
                } else {
                    final(categories)@ == with_dep
                },
                None => final(categories)@ == with_dep,
            }
        }),
{
    match deprecated {
        Some(d) => if d.mods.len() > 0 {
            categories.push(d);
        },
        None => {},
    }
    match sideload {
        Some(mut side) => if side.mods.len() > 0 {
            let n = categories.len();
            side.sort_order = if n > 0 {
                categories[n - 1].sort_order + 1
            } else {
                0
            };
            categories.push(side);
        },
        None => {},
    }
}

/// Adds a downloaded mod's name to the list unless it is already there.
pub fn add_downloaded(names: &mut Vec<String>, name: &str)
    ensures
        holds_name(old(names)@, name@) ==> final(names)@ == old(names)@,
        !holds_name(old(names)@, name@) ==> final(names)@.len() == old(names)@.len() + 1
            && final(names)@.drop_last() == old(names)@ && final(names)@.last()@ == name@,
{
    if !contains_name(names, name) {
        names.push(owned(name));
        proof {
            assert(final(names)@.drop_last() == old(names)@) by {
                assert(names@.drop_last() =~= old(names)@);
            }
        }
    }
}

/// The texts of a list of names.
pub open spec fn names_of(v: Seq<String>) -> Seq<Seq<char>> {
    Seq::new(v.len(), |i: int| v[i]@)
}

/// The names a walk of the repository directories lists, given each mod
/// directory met (its name, and whether it counts as downloaded) in the
/// order of the walk: each downloaded one, a name once, where first met.
pub open spec fn downloaded_names(entries: Seq<(String, bool)>) -> Seq<Seq<char>>
    decreases entries.len(),
{
    if entries.len() == 0 {
        Seq::empty()
    } else {
        let prev = downloaded_names(entries.drop_last());
        let e = entries.last();
        if e.1 && !prev.contains(e.0@) {
            prev.push(e.0@)
        } else {
            prev
        }
    }
}

/// The downloaded mods: the names [`downloaded_names`] gives of the mod
/// directories of the repository directories `entries`, then every mod
/// directory of the sideload directory.
pub fn downloaded_mod_names(entries: &Vec<(String, bool)>, sideload: &Vec<String>) -> (res: Vec<String>)
    ensures
        names_of(res@) == downloaded_names(entries@) + names_of(sideload@),
{
    let mut res: Vec<String> = Vec::new();
    let mut i: usize = 0;
    while i < entries.len()
        invariant
            i <= entries@.len(),
            names_of(res@) == downloaded_names(entries@.take(i as int)),
        decreases entries.len() - i,
    {
        proof {
            assert(entries@.take(i + 1).drop_last() == entries@.take(i as int));
            assert(entries@.take(i + 1).last() == entries@[i as int]);
        }
        let ghost before = res@;
        let ghost name = entries@[i as int].0@;
        if entries[i].1 {
            add_downloaded(&mut res, entries[i].0.as_str());
            proof {
                if holds_name(before, name) {
                    let k = choose|k: int| 0 <= k < before.len() && (#[trigger] before[k])@ == name;
                    assert(names_of(before)[k] == name);
                } else {
                    assert(!names_of(before).contains(name)) by {
                        if names_of(before).contains(name) {
                            let k = choose|k: int| 0 <= k < names_of(before).len() && names_of(before)[k] == name;
                            assert(before[k]@ == name);
                        }
                    }
                    assert(names_of(res@) =~= names_of(before).push(name)) by {
                        assert(res@.drop_last() == before);
                    }
                }
            }
        }
        i = i + 1;
    }
    proof {
        assert(entries@.take(entries@.len() as int) == entries@);
    }
    let ghost walked = res@;
    let mut j: usize = 0;
    while j < sideload.len()
        invariant
            j <= sideload@.len(),
            names_of(walked) == downloaded_names(entries@),
            names_of(res@) == names_of(walked) + names_of(sideload@.take(j as int)),
        decreases sideload.len() - j,
    {
        let ghost prior = res@;
        res.push(sideload[j].clone());
        proof {
            assert(names_of(res@) =~= names_of(prior).push(sideload@[j as int]@));
            assert(names_of(sideload@.take(j + 1)) =~= names_of(sideload@.take(j as int)).push(
                sideload@[j as int]@,
            ));
            assert(names_of(res@) =~= names_of(walked) + names_of(sideload@.take(j + 1)));
        }
        j = j + 1;
    }
    proof {
        assert(sideload@.take(sideload@.len() as int) == sideload@);
    }
    res
}

/// Whether no name occurs twice in `names`.
pub open spec fn names_unique(names: Seq<String>) -> bool {
    forall|i: int, j: int| 0 <= i < j < names.len() ==> (#[trigger] names[i])@ != (#[trigger] names[j])@
}

/// Adding names with [`add_downloaded`] keeps a list free of repetitions:
/// a mod downloaded from several repositories is listed once.
pub proof fn lemma_add_downloaded_keeps_unique(before: Seq<String>, after: Seq<String>, name: Seq<char>)
    requires
        names_unique(before),
        holds_name(before, name) ==> after == before,
        !holds_name(before, name) ==> after.len() == before.len() + 1 && after.drop_last() == before
            && after.last()@ == name,
    ensures
        names_unique(after),
{
    if !holds_name(before, name) {
        assert forall|i: int, j: int| 0 <= i < j < after.len() implies (#[trigger] after[i])@ != (
        #[trigger] after[j])@ by {
            assert(after[i] == after.drop_last()[i] || i == after.len() - 1);
            if j == after.len() - 1 {
                assert(after[i] == before[i]);
                if before[i]@ == name {
                    assert(holds_name(before, name));
                }
            } else {
                assert(after[i] == before[i] && after[j] == before[j]);
            }
        }
    }
}

/// The directory in which the enabled mods of profile `profile_name` are
/// looked for: the download directory of the repository of the first
/// profile with that name. Without such a profile: "Profile '<name>' not found".
pub fn enabled_mods_dir(settings: &Settings, profile_name: &str) -> (res: Result<String, String>)
    ensures
        forall|i: int| is_first_named(settings.profiles@, profile_name@, i) ==> (res matches Ok(d)
            && d@ == repo_dir(settings.download_path@, settings.profiles@[i].repo_url@)),
        (forall|i: int| !is_first_named(settings.profiles@, profile_name@, i)) ==> (res matches Err(
            e,
        ) && e@ == "Profile '"@ + profile_name@ + "' not found"@),
{
    match settings.profile_index_by_name(profile_name) {
        Some(i) => {
            proof {
                assert forall|k: int| is_first_named(settings.profiles@, profile_name@, k) implies k
                    == i by {
                    if k < i {
                        assert(settings.profiles@[k].name@ != profile_name@);
                    }
                    if i < k {
                        assert(settings.profiles@[i as int].name@ != profile_name@);
                    }
                }
            }
            Ok(
                repo_download_dir(
                    settings.download_path.as_str(),
                    settings.profiles[i].repo_url.as_str(),
                ),
            )
        },
        None => {
            proof {
                assert forall|k: int| !is_first_named(settings.profiles@, profile_name@, k) by {
                    if 0 <= k < settings.profiles@.len() {
                        assert(settings.profiles@[k].name@ != profile_name@);
                    }
                }
            }
            Err(concat_text3("Profile '", profile_name, "' not found"))
        },
    }
}

} // verus!
