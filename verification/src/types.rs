//! The records that describe mods and where their files live.
use vstd::prelude::*;
use vstd::string::*;
use crate::text::{copy_string, str_eq, strip_str_suffix, strip_suffix};

verus! {

/// How a mod's files are laid out on disk.
#[derive(Debug, Clone, Copy, PartialEq, Eq, Structural)]
pub enum ModEntryKind {
    Directory,
    ZipArchive,
    RarArchive,
    Other,
}

/// Where a mod stands in its life cycle: downloaded, copied to staging,
/// linked into the game, or changed in downloads since it was staged.
#[derive(Debug, Clone, Copy, PartialEq, Eq, Structural)]
pub enum ModStatus {
    Downloaded,
    Staged,
    Enabled,
    Modified,
}

/// Extra information about a mod; it holds nothing yet.
#[derive(Debug, Clone, Copy, PartialEq, Eq, Structural)]
pub struct ModMetadata {}

/// One mod as found in one folder: its name, its path and how it is stored.
#[derive(Clone, Debug)]
pub struct ModEntry {
    pub name: String,
    pub path: String,
    pub kind: ModEntryKind,
    pub metadata: Option<ModMetadata>,
}

/// The mathematical content of a `ModEntry`.
pub struct ModEntryView {
    pub name: Seq<char>,
    pub path: Seq<char>,
    pub kind: ModEntryKind,
    pub metadata: Option<ModMetadata>,
}

impl View for ModEntry {
    type V = ModEntryView;

    open spec fn view(&self) -> ModEntryView {
        ModEntryView { name: self.name@, path: self.path@, kind: self.kind, metadata: self.metadata }
    }
}

/// The view of an optional entry.
pub open spec fn entry_opt_view(o: Option<ModEntry>) -> Option<ModEntryView> {
    match o {
        Some(e) => Some(e@),
        None => None,
    }
}

impl ModEntry {
    /// Builds an entry without metadata.
    pub fn new(name: String, path: String, kind: ModEntryKind) -> (r: ModEntry)
        ensures
            r@ == (ModEntryView { name: name@, path: path@, kind, metadata: None }),
    {
        ModEntry { name, path, kind, metadata: None }
    }

    /// A copy of the entry with the same content.
    pub fn duplicate(&self) -> (r: ModEntry)
        ensures
            r@ == self@,
    {
        ModEntry {
            name: copy_string(&self.name),
            path: copy_string(&self.path),
            kind: self.kind,
            metadata: self.metadata,
        }
    }
}

/// A copy of an optional entry with the same content.
pub fn duplicate_opt(o: &Option<ModEntry>) -> (r: Option<ModEntry>)
    ensures
        entry_opt_view(r) == entry_opt_view(*o),
{
    match o {
        Some(e) => Some(e.duplicate()),
        None => None,
    }
}

/// A mod as seen across the downloads, staging and game folders, with the
/// status that those three places give it. `register_id` names the game.
#[derive(Clone, Debug)]
pub struct ReconciledMod {
    pub name: String,
    pub status: ModStatus,
    pub source_entry: Option<ModEntry>,
    pub staging_entry: Option<ModEntry>,
    pub game_entry: Option<ModEntry>,
    pub register_id: String,
}

/// The mathematical content of a `ReconciledMod`.
pub struct ReconciledModView {
    pub name: Seq<char>,
    pub status: ModStatus,
    pub source_entry: Option<ModEntryView>,
    pub staging_entry: Option<ModEntryView>,
    pub game_entry: Option<ModEntryView>,
    pub register_id: Seq<char>,
}

impl View for ReconciledMod {
    type V = ReconciledModView;

    open spec fn view(&self) -> ReconciledModView {
        ReconciledModView {
            name: self.name@,
            status: self.status,
            source_entry: entry_opt_view(self.source_entry),
            staging_entry: entry_opt_view(self.staging_entry),
            game_entry: entry_opt_view(self.game_entry),
            register_id: self.register_id@,
        }
    }
}

impl ReconciledMod {
    /// A copy of the record with the same content.
    pub fn duplicate(&self) -> (r: ReconciledMod)
        ensures
            r@ == self@,
    {
        ReconciledMod {
            name: copy_string(&self.name),
            status: self.status,
            source_entry: duplicate_opt(&self.source_entry),
            staging_entry: duplicate_opt(&self.staging_entry),
            game_entry: duplicate_opt(&self.game_entry),
            register_id: copy_string(&self.register_id),
        }
    }
}

/// The archive extensions that a download may have.
pub fn allowed_extensions() -> (r: Vec<&'static str>)
    ensures
        r@.len() == 2,
        r@[0]@ == "zip"@,
        r@[1]@ == "rar"@,
{
    vec!["zip", "rar"]
}

/// The kind that a file extension (without its dot) stands for.
pub open spec fn kind_of_ext(ext: Seq<char>) -> ModEntryKind {
    if ext == "zip"@ {
        ModEntryKind::ZipArchive
    } else if ext == "rar"@ {
        ModEntryKind::RarArchive
    } else {
        ModEntryKind::Other
    }
}

/// Maps a file extension to the kind of mod entry it denotes.
pub fn map_ext_to_kind(ext: &str) -> (r: ModEntryKind)
    ensures
        r == kind_of_ext(ext@),
{
    if str_eq(ext, "zip") {
        ModEntryKind::ZipArchive
    } else if str_eq(ext, "rar") {
        ModEntryKind::RarArchive
    } else {
        ModEntryKind::Other
    }
}

/// Strips the `.zip` extension from a file name, returning the base name.
pub fn strip_zip_ext(name: &str) -> (r: String)
    ensures
        r@ == strip_suffix(name@, ".zip"@),
{
    strip_str_suffix(name, ".zip")
}

/// Strips the `.rar` extension from a file name, returning the base name.
pub fn strip_rar_ext(name: &str) -> (r: String)
    ensures
        r@ == strip_suffix(name@, ".rar"@),
{
    strip_str_suffix(name, ".rar")
}

} // verus!
