//! The mod catalogue: mods, their categories, a parsed repository listing,
//! and the errors of mod operations.

use vstd::prelude::*;

verus! {

/// An owned copy of an optional string.
pub fn duplicate_opt(s: &Option<String>) -> (res: Option<String>)
    ensures
        res == *s,
{
    match s {
        Some(v) => Some(v.clone()),
        None => None,
    }
}

/// One mod: as listed by a repository, or found on disk.
#[derive(Debug, Clone)]
pub struct Mod {
    pub name: String,
    pub version: String,
    pub url: Option<String>,
    /// The repository's version when it differs from the installed one.
    pub new_version: Option<String>,
    pub description: String,
}

impl Mod {
    /// An owned copy of this mod.
    pub fn duplicate(&self) -> (res: Mod)
        ensures
            res == *self,
    {
        Mod {
            name: self.name.clone(),
            version: self.version.clone(),
            url: duplicate_opt(&self.url),
            new_version: duplicate_opt(&self.new_version),
            description: self.description.clone(),
        }
    }

    /// A mod found locally that its repository no longer lists.
    pub fn new_deprecated(name: String, version: String, description: String) -> (res: Mod)
        ensures
            res == (Mod { name, version, url: None, new_version: None, description }),
    {
        Mod { name, version, url: None, new_version: None, description }
    }

    /// A mod placed by the user in the sideload directory.
    pub fn new_sideloaded(name: String, version: String, description: String) -> (res: Mod)
        ensures
            res == (Mod { name, version, url: None, new_version: None, description }),
    {
        Mod { name, version, url: None, new_version: None, description }
    }
}

/// A named group of mods with its place in the listing.
#[derive(Debug, Clone)]
pub struct Category {
    pub name: String,
    pub sort_order: i32,
    pub mods: Vec<Mod>,
}

/// An owned copy of a list of mods.
pub fn duplicate_mods(mods: &Vec<Mod>) -> (res: Vec<Mod>)
    ensures
        res@ == mods@,
{
    let mut res: Vec<Mod> = Vec::new();
    let mut i: usize = 0;
    while i < mods.len()
        invariant
            i <= mods@.len(),
            res@ == mods@.take(i as int),
        decreases mods.len() - i,
    {
        res.push(mods[i].duplicate());
        assert(mods@.take(i + 1) == mods@.take(i as int).push(mods@[i as int]));
        i = i + 1;
    }
    assert(mods@.take(mods@.len() as int) == mods@);
    res
}

impl Category {
    /// An owned copy of this category.
    pub fn duplicate(&self) -> (res: Category)
        ensures
            res.name == self.name,
            res.sort_order == self.sort_order,
            res.mods@ == self.mods@,
    {
        Category {
            name: self.name.clone(),
            sort_order: self.sort_order,
            mods: duplicate_mods(&self.mods),
        }
    }

    /// The category that gathers locally present mods no longer listed.
    pub fn new_deprecated(mods: Vec<Mod>) -> (res: Category)
        ensures
            res.name@ == "Deprecated"@,
            res.sort_order == 0,
            res.mods == mods,
    {
        Category { name: String::from_str("Deprecated"), sort_order: 0, mods }
    }

    /// The category that gathers sideloaded mods.
    pub fn new_sideloaded(mods: Vec<Mod>) -> (res: Category)
        ensures
            res.name@ == "Sideloaded"@,
            res.sort_order == 0,
            res.mods == mods,
    {
        Category { name: String::from_str("Sideloaded"), sort_order: 0, mods }
    }
}

/// A repository listing: its categories in listing order.
#[derive(Debug, Clone)]
pub struct ModsFile {
    pub categories: Vec<Category>,
}

/// What the catalogue view receives: the categories to show and an
/// optional message about where they came from.
#[derive(Debug, Clone)]
pub struct ModsResult {
    pub categories: Vec<Category>,
    pub error: Option<String>,
}

/// Errors of mod operations, each with its message.
#[derive(Debug, Clone)]
pub enum ModError {
    IoError(String),
    ParseError(String),
    SettingsError(String),
    DirectoryStructureError(String),
    EnablementError(String),
    DownloadError(String),
}

/// The message a [`ModError`] is shown with.
pub open spec fn mod_error_text(e: ModError) -> Seq<char> {
    match e {
        ModError::IoError(m) => "IO error: "@ + m@,
        ModError::ParseError(m) => "Parse error: "@ + m@,
        ModError::SettingsError(m) => "Settings error: "@ + m@,
        ModError::DirectoryStructureError(m) => "Directory structure error: "@ + m@,
        ModError::EnablementError(m) => "Enablement error: "@ + m@,
        ModError::DownloadError(m) => "Download error: "@ + m@,
    }
}

impl ModError {
    /// The message this error is shown with (see [`mod_error_text`]).
    pub fn message(&self) -> (res: String)
        ensures
            res@ == mod_error_text(*self),
    {
        match self {
            ModError::IoError(m) => crate::text::concat_text("IO error: ", m.as_str()),
            ModError::ParseError(m) => crate::text::concat_text("Parse error: ", m.as_str()),
            ModError::SettingsError(m) => crate::text::concat_text("Settings error: ", m.as_str()),
            ModError::DirectoryStructureError(m) => crate::text::concat_text(
                "Directory structure error: ",
                m.as_str(),
            ),
            ModError::EnablementError(m) => crate::text::concat_text("Enablement error: ", m.as_str()),
            ModError::DownloadError(m) => crate::text::concat_text("Download error: ", m.as_str()),
        }
    }
}

} // verus!
