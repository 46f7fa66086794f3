//! Plans for copying mods to staging and linking them into a game.
use vstd::prelude::*;
use vstd::string::*;
use crate::archive::{all_readable, listing_components, opt_string_view, wrap_result, zip_read, Installer, RarStager, ZipStager};
use crate::error::{IoErrorKind, ModManagerError};
use crate::text::{concat2, copy_string, join_path, path_join, strip_suffix};
use crate::types::{strip_rar_ext, strip_zip_ext, ModEntry, ModEntryKind, ModEntryView};

verus! {

/// Where a mod is installed from.
#[derive(Clone, Debug)]
pub enum ModSource {
    LocalZip(String),
    LocalDir(String),
}

/// How files are brought to their target.
#[derive(Debug, Clone, Copy, PartialEq, Eq, Structural)]
pub enum InstallMethod {
    CopyDir,
    ExtractZip,
    ExtractRar,
}

/// Copy or extract `source` into the directory `target`.
#[derive(Clone, Debug)]
pub struct InstallStep {
    pub method: InstallMethod,
    pub source: String,
    pub target: String,
}

/// Install as `install` says; the mod is then staged as `staged`.
#[derive(Clone, Debug)]
pub struct StageStep {
    pub install: InstallStep,
    pub staged: ModEntry,
}

/// The mathematical content of a `StageStep`.
pub struct StageStepView {
    pub method: InstallMethod,
    pub source: Seq<char>,
    pub target: Seq<char>,
    pub staged: ModEntryView,
}

impl View for StageStep {
    type V = StageStepView;

    open spec fn view(&self) -> StageStepView {
        StageStepView {
            method: self.install.method,
            source: self.install.source@,
            target: self.install.target@,
            staged: self.staged@,
        }
    }
}

/// The staged directory entry named `name` under `staging`.
pub open spec fn staged_dir(staging: Seq<char>, name: Seq<char>) -> ModEntryView {
    ModEntryView { name, path: path_join(staging, name), kind: ModEntryKind::Directory, metadata: None }
}

/// Staging a directory: it is copied to `staging/name` and staged there.
pub open spec fn dir_stage(e: ModEntryView, staging: Seq<char>) -> StageStepView {
    StageStepView {
        method: InstallMethod::CopyDir,
        source: e.path,
        target: path_join(staging, e.name),
        staged: staged_dir(staging, e.name),
    }
}

/// Staging an archive: when a directory `root` wraps its content, it is extracted into
/// `staging` and staged as `staging/root`; otherwise it is extracted into
/// `staging/name` for its name without `ext`, and staged there.
pub open spec fn archive_stage(
    e: ModEntryView,
    staging: Seq<char>,
    root: Option<Seq<char>>,
    ext: Seq<char>,
    method: InstallMethod,
) -> StageStepView {
    let name = match root {
        Some(d) => d,
        None => strip_suffix(e.name, ext),
    };
    StageStepView {
        method,
        source: e.path,
        target: match root {
            Some(_) => staging,
            None => path_join(staging, name),
        },
        staged: staged_dir(staging, name),
    }
}

/// How a mod entry is staged under `staging`, `root` being the directory that wraps an
/// archive's content when there is one; entries of other kinds are not staged.
pub open spec fn stage_plan(e: ModEntryView, staging: Seq<char>, root: Option<Seq<char>>) -> Option<StageStepView> {
    match e.kind {
        ModEntryKind::Directory => Some(dir_stage(e, staging)),
        ModEntryKind::ZipArchive => Some(archive_stage(e, staging, root, ".zip"@, InstallMethod::ExtractZip)),
        ModEntryKind::RarArchive => Some(archive_stage(e, staging, root, ".rar"@, InstallMethod::ExtractRar)),
        ModEntryKind::Other => None,
    }
}

/// The view of an optional string.
pub open spec fn opt_view(o: Option<String>) -> Option<Seq<char>> {
    match o {
        Some(s) => Some(s@),
        None => None,
    }
}

/// The view of an optional stage step.
pub open spec fn opt_stage_view(o: Option<StageStep>) -> Option<StageStepView> {
    match o {
        Some(s) => Some(s@),
        None => None,
    }
}

impl Installer {
    /// How `source` is installed into `target`.
    pub fn install(source: &ModSource, target: &str) -> (r: InstallStep)
        ensures
            r.target@ == target@,
            match source {
                ModSource::LocalZip(p) => r.method == InstallMethod::ExtractZip && r.source@ == p@,
                ModSource::LocalDir(p) => r.method == InstallMethod::CopyDir && r.source@ == p@,
            },
    {
        match source {
            ModSource::LocalZip(p) => InstallStep {
                method: InstallMethod::ExtractZip,
                source: copy_string(p),
                target: String::from_str(target),
            },
            ModSource::LocalDir(p) => InstallStep {
                method: InstallMethod::CopyDir,
                source: copy_string(p),
                target: String::from_str(target),
            },
        }
    }
}

fn staged_entry(staging_path: &str, name: String) -> (r: ModEntry)
    ensures
        r@ == staged_dir(staging_path@, name@),
{
    let path = join_path(staging_path, name.as_str());
    ModEntry::new(name, path, ModEntryKind::Directory)
}

/// The last component of a path, as `Path::file_name` gives it (`None` for a path
/// that ends in `..` or has no component).
pub uninterp spec fn path_file_name(path: Seq<char>) -> Option<Seq<char>>;

/// The file name of a path, from `Path::file_name`, converted to text.
#[verifier::external_body]
pub(crate) fn file_name_of(path: &str) -> (r: Option<String>)
    ensures
        opt_view(r) == path_file_name(path@),
{
    std::path::Path::new(path).file_name().map(|n| n.to_string_lossy().into_owned())
}

/// The message of a path without a file name.
pub open spec fn no_file_name_message(path: Seq<char>) -> Seq<char> {
    "Path has no file name: "@ + path
}

/// Staging of plain directories.
pub struct DirectCopyStager;

impl DirectCopyStager {
    /// The name of the directory mod at `path`: its file name.
    pub fn get_mod_name(path: &str) -> (r: Result<String, ModManagerError>)
        ensures
            match path_file_name(path@) {
                Some(n) => r matches Ok(s) && s@ == n,
                None => r matches Err(ModManagerError::InvalidMod(m)) && m@ == no_file_name_message(path@),
            },
    {
        match file_name_of(path) {
            Some(n) => Ok(n),
            None => {
                proof {
                    reveal_strlit("Path has no file name: ");
                }
                Err(ModManagerError::InvalidMod(concat2("Path has no file name: ", path)))
            },
        }
    }

    /// How a directory mod is staged under `staging_path`.
    pub fn stage(entry: &ModEntry, staging_path: &str) -> (r: StageStep)
        ensures
            r@ == dir_stage(entry@, staging_path@),
    {
        let target = join_path(staging_path, entry.name.as_str());
        StageStep {
            install: InstallStep { method: InstallMethod::CopyDir, source: copy_string(&entry.path), target },
            staged: staged_entry(staging_path, copy_string(&entry.name)),
        }
    }
}

impl ZipStager {
    /// How a zip archive is staged under `staging_path`, given the directory that wraps
    /// its content when `get_mod_name` found one.
    pub fn stage(entry: &ModEntry, staging_path: &str, root: Option<String>) -> (r: StageStep)
        ensures
            r@ == archive_stage(entry@, staging_path@, opt_view(root), ".zip"@, InstallMethod::ExtractZip),
    {
        let (name, target) = match root {
            Some(dir) => (dir, String::from_str(staging_path)),
            None => {
                let name = strip_zip_ext(entry.name.as_str());
                let target = join_path(staging_path, name.as_str());
                (name, target)
            },
        };
        StageStep {
            install: InstallStep { method: InstallMethod::ExtractZip, source: copy_string(&entry.path), target },
            staged: staged_entry(staging_path, name),
        }
    }
}

impl RarStager {
    /// How a rar archive is staged under `staging_path`, given the directory that wraps
    /// its content when `get_mod_name` found one.
    pub fn stage(entry: &ModEntry, staging_path: &str, root: Option<String>) -> (r: StageStep)
        ensures
            r@ == archive_stage(entry@, staging_path@, opt_view(root), ".rar"@, InstallMethod::ExtractRar),
    {
        let (name, target) = match root {
            Some(dir) => (dir, String::from_str(staging_path)),
            None => {
                let name = strip_rar_ext(entry.name.as_str());
                let target = join_path(staging_path, name.as_str());
                (name, target)
            },
        };
        StageStep {
            install: InstallStep { method: InstallMethod::ExtractRar, source: copy_string(&entry.path), target },
            staged: staged_entry(staging_path, name),
        }
    }
}

impl ModEntryKind {
    /// How an entry is staged under `staging_path` when it is taken to be of this kind;
    /// `root` is the directory that wraps an archive's content, if one does.
    pub fn stage(&self, entry: &ModEntry, staging_path: &str, root: Option<String>) -> (r: Option<StageStep>)
        ensures
            opt_stage_view(r) == stage_plan(ModEntryView { kind: *self, ..entry@ }, staging_path@, opt_view(root)),
    {
        match self {
            ModEntryKind::Directory => Some(DirectCopyStager::stage(entry, staging_path)),
            ModEntryKind::ZipArchive => Some(ZipStager::stage(entry, staging_path, root)),
            ModEntryKind::RarArchive => Some(RarStager::stage(entry, staging_path, root)),
            ModEntryKind::Other => None,
        }
    }
}

/// The parent of a path, as `Path::parent` gives it.
pub uninterp spec fn path_parent(path: Seq<char>) -> Option<Seq<char>>;

/// The parent of a path, from `Path::parent`, converted to text.
#[verifier::external_body]
pub(crate) fn parent_of(path: &str) -> (r: Option<String>)
    ensures
        opt_view(r) == path_parent(path@),
{
    std::path::Path::new(path).parent().map(|p| p.to_string_lossy().into_owned())
}

/// Link the mod at `source` into the game at `target`; the mod is then enabled as `enabled`.
#[derive(Clone, Debug)]
pub struct EnableStep {
    pub source: String,
    pub target: String,
    pub enabled: ModEntry,
}

/// What the file system says of the paths involved in making a link.
#[derive(Clone, Copy, Debug)]
pub struct LinkFacts {
    /// The mod's files exist.
    pub source_exists: bool,
    /// The target's parent directory exists.
    pub parent_exists: bool,
    /// The target is a symbolic link.
    pub target_is_symlink: bool,
    /// The target exists, following links.
    pub target_exists: bool,
}

/// A change to the file system made while linking a mod.
#[derive(Clone, Debug)]
pub enum LinkAction {
    CreateDir(String),
    RemoveLink(String),
    CreateLink { source: String, target: String },
}

/// The mathematical content of a `LinkAction`.
pub enum LinkActionView {
    CreateDir(Seq<char>),
    RemoveLink(Seq<char>),
    CreateLink { source: Seq<char>, target: Seq<char> },
}

impl View for LinkAction {
    type V = LinkActionView;

    open spec fn view(&self) -> LinkActionView {
        match self {
            LinkAction::CreateDir(p) => LinkActionView::CreateDir(p@),
            LinkAction::RemoveLink(p) => LinkActionView::RemoveLink(p@),
            LinkAction::CreateLink { source, target } => LinkActionView::CreateLink { source: source@, target: target@ },
        }
    }
}

/// The views of a sequence of link actions.
pub open spec fn action_views(s: Seq<LinkAction>) -> Seq<LinkActionView> {
    s.map_values(|a: LinkAction| a@)
}

/// The changes that activating a link makes before it decides, in order: the target's
/// parent directory is made if missing, and an old link at the target is removed.
pub open spec fn activation_prelude(target: Seq<char>, f: LinkFacts) -> Seq<LinkActionView> {
    let a = match path_parent(target) {
        Some(p) => if !f.parent_exists { seq![LinkActionView::CreateDir(p)] } else { Seq::empty() },
        None => Seq::empty(),
    };
    if f.target_is_symlink { a.push(LinkActionView::RemoveLink(target)) } else { a }
}

/// The changes that linking `source` at `target` makes, in order.
pub open spec fn activation_actions(source: Seq<char>, target: Seq<char>, f: LinkFacts) -> Seq<LinkActionView> {
    if !f.source_exists {
        Seq::empty()
    } else if !f.target_is_symlink && f.target_exists {
        activation_prelude(target, f)
    } else {
        activation_prelude(target, f).push(LinkActionView::CreateLink { source, target })
    }
}

/// The kind and message of the error that linking `source` at `target` ends in, if any.
pub open spec fn activation_error(source: Seq<char>, target: Seq<char>, f: LinkFacts) -> Option<(IoErrorKind, Seq<char>)> {
    if !f.source_exists {
        Some((IoErrorKind::NotFound, "Source path does not exist: "@ + source))
    } else if !f.target_is_symlink && f.target_exists {
        Some((IoErrorKind::AlreadyExists, "Target path already exists: "@ + target))
    } else {
        None
    }
}

/// The kind and message of the error that removing the link at `path` ends in, if any.
pub open spec fn deactivation_error(path: Seq<char>, is_symlink: bool, exists: bool) -> Option<(IoErrorKind, Seq<char>)> {
    if is_symlink {
        None
    } else if !exists {
        Some((IoErrorKind::NotFound, "Source path does not exist: "@ + path))
    } else {
        Some((IoErrorKind::InvalidInput, "Path is not a symlink: "@ + path))
    }
}

/// `r` succeeds when `err` is `None`, and fails with an I/O error of that kind and message otherwise.
pub open spec fn io_outcome<T>(r: Result<T, ModManagerError>, err: Option<(IoErrorKind, Seq<char>)>) -> bool {
    match err {
        Some(m) => r matches Err(ModManagerError::IoError(k, s)) && k == m.0 && s@ == m.1,
        None => r is Ok,
    }
}

/// Linking of mods into a game by symbolic links.
pub struct SymlinkEnabler;

impl SymlinkEnabler {
    /// How a staged mod is enabled in the game folder `target_dir`: linked at `target_dir/name`.
    pub fn enable(entry: &ModEntry, target_dir: &str) -> (r: EnableStep)
        ensures
            r.source@ == entry.path@,
            r.target@ == path_join(target_dir@, entry.name@),
            r.enabled@ == (ModEntryView {
                name: entry.name@,
                path: path_join(target_dir@, entry.name@),
                kind: ModEntryKind::Directory,
                metadata: None,
            }),
    {
        let target = join_path(target_dir, entry.name.as_str());
        let enabled = ModEntry::new(copy_string(&entry.name), copy_string(&target), ModEntryKind::Directory);
        EnableStep { source: copy_string(&entry.path), target, enabled }
    }

    /// The changes that linking `source` at `target` makes, in order, and how it ends.
    /// A missing source fails before any change; a target that exists and is not a
    /// link fails after the prelude; otherwise the link is made.
    pub fn activate(source: &str, target: &str, facts: LinkFacts) -> (r: (Vec<LinkAction>, Result<(), ModManagerError>))
        ensures
            action_views(r.0@) == activation_actions(source@, target@, facts),
            io_outcome(r.1, activation_error(source@, target@, facts)),
    {
        let mut actions: Vec<LinkAction> = Vec::new();
        if !facts.source_exists {
            assert(action_views(actions@) =~= Seq::<LinkActionView>::empty());
            return (actions, Err(ModManagerError::IoError(IoErrorKind::NotFound, concat2("Source path does not exist: ", source))));
        }
        match parent_of(target) {
            Some(p) => {
                if !facts.parent_exists {
                    actions.push(LinkAction::CreateDir(p));
                }
            },
            None => {},
        }
        if facts.target_is_symlink {
            actions.push(LinkAction::RemoveLink(String::from_str(target)));
        }
        assert(action_views(actions@) =~= activation_prelude(target@, facts));
        if !facts.target_is_symlink && facts.target_exists {
            return (actions, Err(ModManagerError::IoError(IoErrorKind::AlreadyExists, concat2("Target path already exists: ", target))));
        }
        let ghost before = actions@;
        actions.push(LinkAction::CreateLink { source: String::from_str(source), target: String::from_str(target) });
        assert(action_views(actions@) =~= action_views(before).push(actions@.last()@));
        (actions, Ok(()))
    }

    /// Whether removing the link at `path` goes ahead: `Ok(true)` when it is a link, else
    /// the error that names why not.
    pub fn deactivate(path: &str, is_symlink: bool, exists: bool) -> (r: Result<bool, ModManagerError>)
        ensures
            io_outcome(r, deactivation_error(path@, is_symlink, exists)),
            r is Ok ==> r == Ok::<bool, ModManagerError>(true),
    {
        if is_symlink {
            return Ok(true);
        }
        if !exists {
            return Err(ModManagerError::IoError(IoErrorKind::NotFound, concat2("Source path does not exist: ", path)));
        }
        Err(ModManagerError::IoError(IoErrorKind::InvalidInput, concat2("Path is not a symlink: ", path)))
    }
}

} // verus!

verus! {

/// Installation of plain directories.
pub struct DirectCopyInstaller;

impl DirectCopyInstaller {
    /// The name of the directory mod at `path`: its file name, if it has one.
    pub fn get_mod_name_from_installer(path: &str) -> (r: Result<Option<String>, ModManagerError>)
        ensures
            r matches Ok(o) && opt_view(o) == path_file_name(path@),
    {
        Ok(file_name_of(path))
    }
}

/// Installation of zip archives.
pub struct ZipInstaller;

impl ZipInstaller {
    /// The directory that wraps the content of a zip archive, given by its bytes,
    /// as `Installer::zip_wrap_directory` finds it.
    pub fn get_mod_name_from_installer(bytes: Vec<u8>) -> (r: Result<Option<String>, ModManagerError>)
        ensures
            match r {
                Ok(o) => zip_read(bytes@) matches Some(es) && all_readable(es)
                    && wrap_result(listing_components(es), opt_string_view(o)),
                Err(e) => (e matches ModManagerError::IoError(kind, _) && kind == IoErrorKind::InvalidData) && (zip_read(bytes@) matches Some(es) ==> !all_readable(es)),
            },
    {
        Installer::zip_wrap_directory(bytes)
    }
}

} // verus!
