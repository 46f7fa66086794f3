//! Listing the folders of a game's mods and reconciling them into one state.
use vstd::prelude::*;
use vstd::string::*;
use crate::archive::{all_readable, listing_components, wraps_in, zip_read, Installer};
use crate::config::Config;
use crate::mod_state::{distinct_names, lemma_records_map_distinct, record_views, records_map, ModState, RepoWriteView};
use crate::text::{copy_string, ends_with, join_path, path_join, str_ends_with, str_eq, strings_view, strip_suffix};
use crate::types::{strip_zip_ext, ModEntry, ModEntryKind, ModEntryView, ModStatus, ReconciledMod, ReconciledModView};

verus! {

/// One entry of a directory listing, as the file system reports it
/// (`is_dir` and `is_symlink` describe the entry itself, not what a link points to).
#[derive(Clone, Debug)]
pub struct DirEntryInfo {
    pub name: String,
    pub path: String,
    pub is_dir: bool,
    pub is_symlink: bool,
}

/// The mathematical content of a `DirEntryInfo`.
pub struct DirEntryView {
    pub name: Seq<char>,
    pub path: Seq<char>,
    pub is_dir: bool,
    pub is_symlink: bool,
}

impl View for DirEntryInfo {
    type V = DirEntryView;

    open spec fn view(&self) -> DirEntryView {
        DirEntryView { name: self.name@, path: self.path@, is_dir: self.is_dir, is_symlink: self.is_symlink }
    }
}

/// The views of a listing.
pub open spec fn dir_views(s: Seq<DirEntryInfo>) -> Seq<DirEntryView> {
    s.map_values(|e: DirEntryInfo| e@)
}

/// The views of a sequence of entries.
pub open spec fn entry_views(s: Seq<ModEntry>) -> Seq<ModEntryView> {
    s.map_values(|e: ModEntry| e@)
}

/// `Path::extension` of a file named `name` is `zip`: the name ends with `.zip`
/// and that dot is not its first character.
pub open spec fn has_zip_extension(name: Seq<char>) -> bool {
    ends_with(name, ".zip"@) && name.len() > 4
}

/// What a downloads or staging folder entry is as a mod: a zip archive, a directory, or nothing.
pub open spec fn folder_mod(e: DirEntryView) -> Option<ModEntryView> {
    if has_zip_extension(e.name) {
        Some(ModEntryView { name: e.name, path: e.path, kind: ModEntryKind::ZipArchive, metadata: None })
    } else if e.is_dir {
        Some(ModEntryView { name: e.name, path: e.path, kind: ModEntryKind::Directory, metadata: None })
    } else {
        None
    }
}

/// What a game mods folder entry is as an enabled mod: a link is one, anything else is not.
pub open spec fn game_folder_mod(e: DirEntryView) -> Option<ModEntryView> {
    if e.is_symlink {
        Some(ModEntryView { name: e.name, path: e.path, kind: ModEntryKind::Directory, metadata: None })
    } else {
        None
    }
}

/// The mods that a downloads or staging listing holds, in listing order.
pub open spec fn folder_mods(s: Seq<DirEntryView>) -> Seq<ModEntryView>
    decreases s.len(),
{
    if s.len() == 0 {
        Seq::empty()
    } else {
        let rest = folder_mods(s.drop_last());
        match folder_mod(s.last()) {
            Some(m) => rest.push(m),
            None => rest,
        }
    }
}

/// The enabled mods that a game mods folder listing holds, in listing order.
pub open spec fn game_folder_mods(s: Seq<DirEntryView>) -> Seq<ModEntryView>
    decreases s.len(),
{
    if s.len() == 0 {
        Seq::empty()
    } else {
        let rest = game_folder_mods(s.drop_last());
        match game_folder_mod(s.last()) {
            Some(m) => rest.push(m),
            None => rest,
        }
    }
}

/// A downloaded mod with the name it goes by and the time its file was last changed.
#[derive(Clone, Debug)]
pub struct SourceMod {
    pub entry: ModEntry,
    pub effective_name: String,
    pub modified: Option<i128>,
}

/// A staged mod with the time its copy was last changed.
#[derive(Clone, Debug)]
pub struct StagedMod {
    pub entry: ModEntry,
    pub modified: Option<i128>,
}

/// The mathematical content of a `SourceMod`.
pub struct SourceModView {
    pub entry: ModEntryView,
    pub effective_name: Seq<char>,
    pub modified: Option<i128>,
}

/// The mathematical content of a `StagedMod`.
pub struct StagedModView {
    pub entry: ModEntryView,
    pub modified: Option<i128>,
}

impl View for SourceMod {
    type V = SourceModView;

    open spec fn view(&self) -> SourceModView {
        SourceModView { entry: self.entry@, effective_name: self.effective_name@, modified: self.modified }
    }
}

impl View for StagedMod {
    type V = StagedModView;

    open spec fn view(&self) -> StagedModView {
        StagedModView { entry: self.entry@, modified: self.modified }
    }
}

/// The views of downloaded mods.
pub open spec fn source_views(s: Seq<SourceMod>) -> Seq<SourceModView> {
    s.map_values(|m: SourceMod| m@)
}

/// The views of staged mods.
pub open spec fn staged_views(s: Seq<StagedMod>) -> Seq<StagedModView> {
    s.map_values(|m: StagedMod| m@)
}

/// The last downloaded mod that goes by `k`.
pub open spec fn last_source(s: Seq<SourceModView>, k: Seq<char>) -> Option<SourceModView>
    decreases s.len(),
{
    if s.len() == 0 {
        None
    } else if s.last().effective_name == k {
        Some(s.last())
    } else {
        last_source(s.drop_last(), k)
    }
}

/// The last staged mod named `k`.
pub open spec fn last_staged(s: Seq<StagedModView>, k: Seq<char>) -> Option<StagedModView>
    decreases s.len(),
{
    if s.len() == 0 {
        None
    } else if s.last().entry.name == k {
        Some(s.last())
    } else {
        last_staged(s.drop_last(), k)
    }
}

/// The last enabled entry named `k`.
pub open spec fn last_entry(s: Seq<ModEntryView>, k: Seq<char>) -> Option<ModEntryView>
    decreases s.len(),
{
    if s.len() == 0 {
        None
    } else if s.last().name == k {
        Some(s.last())
    } else {
        last_entry(s.drop_last(), k)
    }
}

/// The download was changed after its staged copy: both times are known and the first is later.
pub open spec fn is_newer(a: Option<i128>, b: Option<i128>) -> bool {
    a is Some && b is Some && a->0 > b->0
}

/// The status that the three places give a mod: changed in downloads since staging,
/// else linked in the game, else staged, else only downloaded.
pub open spec fn reconciled_status(
    src: Option<SourceModView>,
    stg: Option<StagedModView>,
    ena: Option<ModEntryView>,
) -> ModStatus {
    if src is Some && stg is Some {
        if is_newer(src->0.modified, stg->0.modified) {
            ModStatus::Modified
        } else if ena is Some {
            ModStatus::Enabled
        } else {
            ModStatus::Staged
        }
    } else if ena is Some {
        ModStatus::Enabled
    } else if stg is Some {
        ModStatus::Staged
    } else {
        ModStatus::Downloaded
    }
}

/// The record of the mod `k` given what the three places hold of it.
pub open spec fn reconciled(
    k: Seq<char>,
    registry_id: Seq<char>,
    src: Option<SourceModView>,
    stg: Option<StagedModView>,
    ena: Option<ModEntryView>,
) -> ReconciledModView {
    ReconciledModView {
        name: k,
        status: reconciled_status(src, stg, ena),
        source_entry: match src {
            Some(s) => Some(s.entry),
            None => None,
        },
        staging_entry: match stg {
            Some(s) => Some(s.entry),
            None => None,
        },
        game_entry: ena,
        register_id: registry_id,
    }
}

/// The state that reconciling gives: one record for every name found in any of the
/// three places, built from the last entry of that name in each.
pub open spec fn reconcile_map(
    registry_id: Seq<char>,
    srcs: Seq<SourceModView>,
    stgs: Seq<StagedModView>,
    enas: Seq<ModEntryView>,
) -> Map<Seq<char>, ReconciledModView> {
    Map::new(
        |k: Seq<char>| last_source(srcs, k) is Some || last_staged(stgs, k) is Some || last_entry(enas, k) is Some,
        |k: Seq<char>| reconciled(k, registry_id, last_source(srcs, k), last_staged(stgs, k), last_entry(enas, k)),
    )
}

proof fn lemma_last_source_exists(s: Seq<SourceModView>, k: Seq<char>)
    ensures
        last_source(s, k) is Some <==> exists|j: int| 0 <= j < s.len() && (#[trigger] s[j]).effective_name == k,
    decreases s.len(),
{
    if s.len() > 0 {
        lemma_last_source_exists(s.drop_last(), k);
        if exists|j: int| 0 <= j < s.len() && (#[trigger] s[j]).effective_name == k {
            let j = choose|j: int| 0 <= j < s.len() && (#[trigger] s[j]).effective_name == k;
            if j < s.len() - 1 {
                assert(s.drop_last()[j] == s[j]);
            }
        }
        if exists|j: int| 0 <= j < s.len() - 1 && (#[trigger] s.drop_last()[j]).effective_name == k {
            let j = choose|j: int| 0 <= j < s.len() - 1 && (#[trigger] s.drop_last()[j]).effective_name == k;
            assert(s[j] == s.drop_last()[j]);
        }
    }
}

proof fn lemma_last_staged_exists(s: Seq<StagedModView>, k: Seq<char>)
    ensures
        last_staged(s, k) is Some <==> exists|j: int| 0 <= j < s.len() && (#[trigger] s[j]).entry.name == k,
    decreases s.len(),
{
    if s.len() > 0 {
        lemma_last_staged_exists(s.drop_last(), k);
        if exists|j: int| 0 <= j < s.len() && (#[trigger] s[j]).entry.name == k {
            let j = choose|j: int| 0 <= j < s.len() && (#[trigger] s[j]).entry.name == k;
            if j < s.len() - 1 {
                assert(s.drop_last()[j] == s[j]);
            }
        }
        if exists|j: int| 0 <= j < s.len() - 1 && (#[trigger] s.drop_last()[j]).entry.name == k {
            let j = choose|j: int| 0 <= j < s.len() - 1 && (#[trigger] s.drop_last()[j]).entry.name == k;
            assert(s[j] == s.drop_last()[j]);
        }
    }
}

proof fn lemma_last_entry_exists(s: Seq<ModEntryView>, k: Seq<char>)
    ensures
        last_entry(s, k) is Some <==> exists|j: int| 0 <= j < s.len() && (#[trigger] s[j]).name == k,
    decreases s.len(),
{
    if s.len() > 0 {
        lemma_last_entry_exists(s.drop_last(), k);
        if exists|j: int| 0 <= j < s.len() && (#[trigger] s[j]).name == k {
            let j = choose|j: int| 0 <= j < s.len() && (#[trigger] s[j]).name == k;
            if j < s.len() - 1 {
                assert(s.drop_last()[j] == s[j]);
            }
        }
        if exists|j: int| 0 <= j < s.len() - 1 && (#[trigger] s.drop_last()[j]).name == k {
            let j = choose|j: int| 0 <= j < s.len() - 1 && (#[trigger] s.drop_last()[j]).name == k;
            assert(s[j] == s.drop_last()[j]);
        }
    }
}

/// The last downloaded mod that goes by `k`, by position.
fn find_last_source(s: &Vec<SourceMod>, k: &str) -> (r: Option<usize>)
    ensures
        match r {
            Some(i) => i < s@.len() && last_source(source_views(s@), k@) == Some(s@[i as int]@),
            None => last_source(source_views(s@), k@) is None,
        },
{
    let mut found: Option<usize> = None;
    let mut i: usize = 0;
    while i < s.len()
        invariant
            i <= s@.len(),
            match found {
                Some(j) => j < i && last_source(source_views(s@.take(i as int)), k@) == Some(s@[j as int]@),
                None => last_source(source_views(s@.take(i as int)), k@) is None,
            },
        decreases s@.len() - i,
    {
        if str_eq(s[i].effective_name.as_str(), k) {
            found = Some(i);
        }
        proof {
            let t = source_views(s@.take(i + 1));
            assert(t.drop_last() =~= source_views(s@.take(i as int)));
            assert(t.last() == s@[i as int]@);
        }
        i = i + 1;
    }
    assert(s@.take(s@.len() as int) =~= s@);
    found
}

/// The last staged mod named `k`, by position.
fn find_last_staged(s: &Vec<StagedMod>, k: &str) -> (r: Option<usize>)
    ensures
        match r {
            Some(i) => i < s@.len() && last_staged(staged_views(s@), k@) == Some(s@[i as int]@),
            None => last_staged(staged_views(s@), k@) is None,
        },
{
    let mut found: Option<usize> = None;
    let mut i: usize = 0;
    while i < s.len()
        invariant
            i <= s@.len(),
            match found {
                Some(j) => j < i && last_staged(staged_views(s@.take(i as int)), k@) == Some(s@[j as int]@),
                None => last_staged(staged_views(s@.take(i as int)), k@) is None,
            },
        decreases s@.len() - i,
    {
        if str_eq(s[i].entry.name.as_str(), k) {
            found = Some(i);
        }
        proof {
            let t = staged_views(s@.take(i + 1));
            assert(t.drop_last() =~= staged_views(s@.take(i as int)));
            assert(t.last() == s@[i as int]@);
        }
        i = i + 1;
    }
    assert(s@.take(s@.len() as int) =~= s@);
    found
}

/// The last entry named `k`, by position.
fn find_last_entry(s: &Vec<ModEntry>, k: &str) -> (r: Option<usize>)
    ensures
        match r {
            Some(i) => i < s@.len() && last_entry(entry_views(s@), k@) == Some(s@[i as int]@),
            None => last_entry(entry_views(s@), k@) is None,
        },
{
    let mut found: Option<usize> = None;
    let mut i: usize = 0;
    while i < s.len()
        invariant
            i <= s@.len(),
            match found {
                Some(j) => j < i && last_entry(entry_views(s@.take(i as int)), k@) == Some(s@[j as int]@),
                None => last_entry(entry_views(s@.take(i as int)), k@) is None,
            },
        decreases s@.len() - i,
    {
        if str_eq(s[i].name.as_str(), k) {
            found = Some(i);
        }
        proof {
            let t = entry_views(s@.take(i + 1));
            assert(t.drop_last() =~= entry_views(s@.take(i as int)));
            assert(t.last() == s@[i as int]@);
        }
        i = i + 1;
    }
    assert(s@.take(s@.len() as int) =~= s@);
    found
}

/// Appends `s` to `names` unless it is there already.
fn push_unique(names: &mut Vec<String>, s: &String)
    ensures
        forall|k: Seq<char>| strings_view(final(names)@).contains(k) <==> (strings_view(old(names)@).contains(k) || k == s@),
        strings_view(old(names)@).no_duplicates() ==> strings_view(final(names)@).no_duplicates(),
{
    let mut i: usize = 0;
    while i < names.len()
        invariant
            i <= names@.len(),
            forall|j: int| 0 <= j < i ==> names@[j]@ != s@,
        decreases names@.len() - i,
    {
        if str_eq(names[i].as_str(), s.as_str()) {
            assert(strings_view(names@)[i as int] == s@);
            return;
        }
        i = i + 1;
    }
    let ghost before = names@;
    names.push(copy_string(s));
    proof {
        assert(strings_view(names@) =~= strings_view(before).push(s@));
        assert forall|k: Seq<char>| strings_view(names@).contains(k) <==> (strings_view(before).contains(k) || k == s@) by {
            if strings_view(names@).contains(k) {
                let j = choose|j: int| 0 <= j < strings_view(names@).len() && strings_view(names@)[j] == k;
                if j < before.len() {
                    assert(strings_view(before)[j] == k);
                }
            }
            if strings_view(before).contains(k) {
                let j = choose|j: int| 0 <= j < strings_view(before).len() && strings_view(before)[j] == k;
                assert(strings_view(names@)[j] == k);
            }
            if k == s@ {
                assert(strings_view(names@)[before.len() as int] == k);
            }
        }
        assert(!strings_view(before).contains(s@)) by {
            if strings_view(before).contains(s@) {
                let j = choose|j: int| 0 <= j < strings_view(before).len() && strings_view(before)[j] == s@;
                assert(before[j]@ == s@);
            }
        }
    }
}

/// The name a downloaded archive goes by, given its bytes when they could be read:
/// the directory that wraps its content, else its file name without `.zip`.
pub open spec fn zip_wrap_dir(bytes: Seq<u8>) -> Option<Seq<char>> {
    if zip_read(bytes) matches Some(es) && all_readable(es) && exists|n: Seq<char>| wraps_in(listing_components(es), n) {
        Some(choose|n: Seq<char>| wraps_in(listing_components(zip_read(bytes)->0), n))
    } else {
        None
    }
}

/// The name a downloaded mod goes by: for a zip archive, the directory that wraps its
/// content when its bytes could be read and there is one, else its name without `.zip`;
/// for anything else, its name.
pub open spec fn spec_effective_name(e: ModEntryView, zip_bytes: Option<Seq<u8>>) -> Seq<char> {
    if e.kind == ModEntryKind::ZipArchive {
        match zip_bytes {
            Some(b) => match zip_wrap_dir(b) {
                Some(d) => d,
                None => strip_suffix(e.name, ".zip"@),
            },
            None => strip_suffix(e.name, ".zip"@),
        }
    } else {
        e.name
    }
}

/// The optional bytes' view.
pub open spec fn opt_bytes_view(o: Option<Vec<u8>>) -> Option<Seq<u8>> {
    match o {
        Some(b) => Some(b@),
        None => None,
    }
}

/// The name a downloaded mod goes by; `zip_bytes` holds the archive's bytes when they could be read.
pub fn effective_name(entry: &ModEntry, zip_bytes: Option<Vec<u8>>) -> (r: String)
    ensures
        r@ == spec_effective_name(entry@, opt_bytes_view(zip_bytes)),
{
    if entry.kind == ModEntryKind::ZipArchive {
        match zip_bytes {
            Some(b) => {
                let ghost bv = b@;
                match Installer::zip_wrap_directory(b) {
                    Ok(Some(dir)) => {
                        proof {
                            let es = zip_read(bv)->0;
                            let n = choose|n: Seq<char>| wraps_in(listing_components(es), n);
                            crate::laws::law_wrapping_directory_unique(listing_components(es), n, dir@);
                        }
                        dir
                    },
                    Ok(None) => strip_zip_ext(entry.name.as_str()),
                    Err(_) => strip_zip_ext(entry.name.as_str()),
                }
            },
            None => strip_zip_ext(entry.name.as_str()),
        }
    } else {
        copy_string(&entry.name)
    }
}

/// The downloads, staging and game folders of one game, read together.
pub struct Catalog {
    config: Config,
    registry_id: String,
}

impl Catalog {
    /// The catalog of the game `registry_id` under the folders that `config` names.
    pub fn new(config: Config, registry_id: &str) -> (r: Catalog)
        ensures
            r.registry_id() == registry_id@,
            r.config() == config,
    {
        Catalog { config, registry_id: String::from_str(registry_id) }
    }

    /// The game whose mods the catalog reads.
    pub closed spec fn registry_id(&self) -> Seq<char> {
        self.registry_id@
    }

    /// The configuration the catalog was made with.
    pub closed spec fn config(&self) -> Config {
        self.config
    }

    /// The folder that holds the game's downloaded mods.
    pub fn mods_folder(&self) -> (r: String)
        ensures
            r@ == path_join(self.config().mods_root_path@, self.registry_id()),
    {
        join_path(self.config.mods_root_path.as_str(), self.registry_id.as_str())
    }

    /// The folder that holds the game's staged mods.
    pub fn staging_folder(&self) -> (r: String)
        ensures
            r@ == path_join(self.config().staging_root_path@, self.registry_id()),
    {
        join_path(self.config.staging_root_path.as_str(), self.registry_id.as_str())
    }

    /// The mods found in a listing of the downloads or staging folder: zip archives and directories.
    pub fn list_folder(listing: &Vec<DirEntryInfo>) -> (r: Vec<ModEntry>)
        ensures
            entry_views(r@) == folder_mods(dir_views(listing@)),
    {
        let mut out: Vec<ModEntry> = Vec::new();
        let mut i: usize = 0;
        while i < listing.len()
            invariant
                i <= listing@.len(),
                entry_views(out@) == folder_mods(dir_views(listing@.take(i as int))),
            decreases listing@.len() - i,
        {
            let e = &listing[i];
            let ghost before = out@;
            proof {
                reveal_strlit(".zip");
            }
            if str_ends_with(e.name.as_str(), ".zip") && e.name.unicode_len() > 4 {
                out.push(ModEntry::new(copy_string(&e.name), copy_string(&e.path), ModEntryKind::ZipArchive));
            } else if e.is_dir {
                out.push(ModEntry::new(copy_string(&e.name), copy_string(&e.path), ModEntryKind::Directory));
            }
            proof {
                let t = dir_views(listing@.take(i + 1));
                assert(t.drop_last() =~= dir_views(listing@.take(i as int)));
                assert(t.last() == listing@[i as int]@);
                if out@.len() > before.len() {
                    assert(entry_views(out@) =~= entry_views(before).push(out@.last()@));
                } else {
                    assert(out@ == before);
                }
            }
            i = i + 1;
        }
        assert(listing@.take(listing@.len() as int) =~= listing@);
        out
    }

    /// The enabled mods found in a listing of the game's mods folder: the links in it.
    pub fn list_game_mods_folder(listing: &Vec<DirEntryInfo>) -> (r: Vec<ModEntry>)
        ensures
            entry_views(r@) == game_folder_mods(dir_views(listing@)),
    {
        let mut out: Vec<ModEntry> = Vec::new();
        let mut i: usize = 0;
        while i < listing.len()
            invariant
                i <= listing@.len(),
                entry_views(out@) == game_folder_mods(dir_views(listing@.take(i as int))),
            decreases listing@.len() - i,
        {
            let e = &listing[i];
            let ghost before = out@;
            if e.is_symlink {
                out.push(ModEntry::new(copy_string(&e.name), copy_string(&e.path), ModEntryKind::Directory));
            }
            proof {
                let t = dir_views(listing@.take(i + 1));
                assert(t.drop_last() =~= dir_views(listing@.take(i as int)));
                assert(t.last() == listing@[i as int]@);
                if out@.len() > before.len() {
                    assert(entry_views(out@) =~= entry_views(before).push(out@.last()@));
                } else {
                    assert(out@ == before);
                }
            }
            i = i + 1;
        }
        assert(listing@.take(listing@.len() as int) =~= listing@);
        out
    }

    /// Reconciles what the downloads (`source`, each with the name it goes by), staging
    /// and game folders hold into one record per mod name.
    pub fn reconcile(&self, source: &Vec<SourceMod>, staged: &Vec<StagedMod>, enabled: &Vec<ModEntry>) -> (r: ModState)
        ensures
            r@ == reconcile_map(self.registry_id(), source_views(source@), staged_views(staged@), entry_views(enabled@)),
            r.pending_writes() == Seq::<RepoWriteView>::empty(),
    {
        let ghost srcs = source_views(source@);
        let ghost stgs = staged_views(staged@);
        let ghost enas = entry_views(enabled@);
        let ghost found = |k: Seq<char>| last_source(srcs, k) is Some || last_staged(stgs, k) is Some || last_entry(enas, k) is Some;

        let mut names: Vec<String> = Vec::new();
        let mut i: usize = 0;
        while i < source.len()
            invariant
                i <= source@.len(),
                strings_view(names@).no_duplicates(),
                forall|k: Seq<char>| strings_view(names@).contains(k) <==> exists|j: int| 0 <= j < i && (#[trigger] source@[j]).effective_name@ == k,
            decreases source@.len() - i,
        {
            push_unique(&mut names, &source[i].effective_name);
            proof {
                assert forall|k: Seq<char>| strings_view(names@).contains(k) <==> exists|j: int| 0 <= j < i + 1 && (#[trigger] source@[j]).effective_name@ == k by {
                    if k == source@[i as int].effective_name@ {
                        assert(source@[i as int].effective_name@ == k);
                    }
                }
            }
            i = i + 1;
        }
        let mut i: usize = 0;
        while i < staged.len()
            invariant
                i <= staged@.len(),
                strings_view(names@).no_duplicates(),
                forall|k: Seq<char>| strings_view(names@).contains(k) <==> ((exists|j: int| 0 <= j < source@.len() && (#[trigger] source@[j]).effective_name@ == k)
                    || (exists|j: int| 0 <= j < i && (#[trigger] staged@[j]).entry.name@ == k)),
            decreases staged@.len() - i,
        {
            push_unique(&mut names, &staged[i].entry.name);
            proof {
                assert forall|k: Seq<char>| strings_view(names@).contains(k) <==> ((exists|j: int| 0 <= j < source@.len() && (#[trigger] source@[j]).effective_name@ == k)
                    || (exists|j: int| 0 <= j < i + 1 && (#[trigger] staged@[j]).entry.name@ == k)) by {
                    if k == staged@[i as int].entry.name@ {
                        assert(staged@[i as int].entry.name@ == k);
                    }
                }
            }
            i = i + 1;
        }
        let mut i: usize = 0;
        while i < enabled.len()
            invariant
                i <= enabled@.len(),
                strings_view(names@).no_duplicates(),
                forall|k: Seq<char>| strings_view(names@).contains(k) <==> ((exists|j: int| 0 <= j < source@.len() && (#[trigger] source@[j]).effective_name@ == k)
                    || (exists|j: int| 0 <= j < staged@.len() && (#[trigger] staged@[j]).entry.name@ == k)
                    || (exists|j: int| 0 <= j < i && (#[trigger] enabled@[j]).name@ == k)),
            decreases enabled@.len() - i,
        {
            push_unique(&mut names, &enabled[i].name);
            proof {
                assert forall|k: Seq<char>| strings_view(names@).contains(k) <==> ((exists|j: int| 0 <= j < source@.len() && (#[trigger] source@[j]).effective_name@ == k)
                    || (exists|j: int| 0 <= j < staged@.len() && (#[trigger] staged@[j]).entry.name@ == k)
                    || (exists|j: int| 0 <= j < i + 1 && (#[trigger] enabled@[j]).name@ == k)) by {
                    if k == enabled@[i as int].name@ {
                        assert(enabled@[i as int].name@ == k);
                    }
                }
            }
            i = i + 1;
        }
        proof {
            assert forall|k: Seq<char>| strings_view(names@).contains(k) <==> found(k) by {
                lemma_last_source_exists(srcs, k);
                lemma_last_staged_exists(stgs, k);
                lemma_last_entry_exists(enas, k);
                if exists|j: int| 0 <= j < source@.len() && (#[trigger] source@[j]).effective_name@ == k {
                    let j = choose|j: int| 0 <= j < source@.len() && (#[trigger] source@[j]).effective_name@ == k;
                    assert(srcs[j].effective_name == k);
                }
                if exists|j: int| 0 <= j < srcs.len() && (#[trigger] srcs[j]).effective_name == k {
                    let j = choose|j: int| 0 <= j < srcs.len() && (#[trigger] srcs[j]).effective_name == k;
                    assert(source@[j].effective_name@ == k);
                }
                if exists|j: int| 0 <= j < staged@.len() && (#[trigger] staged@[j]).entry.name@ == k {
                    let j = choose|j: int| 0 <= j < staged@.len() && (#[trigger] staged@[j]).entry.name@ == k;
                    assert(stgs[j].entry.name == k);
                }
                if exists|j: int| 0 <= j < stgs.len() && (#[trigger] stgs[j]).entry.name == k {
                    let j = choose|j: int| 0 <= j < stgs.len() && (#[trigger] stgs[j]).entry.name == k;
                    assert(staged@[j].entry.name@ == k);
                }
                if exists|j: int| 0 <= j < enabled@.len() && (#[trigger] enabled@[j]).name@ == k {
                    let j = choose|j: int| 0 <= j < enabled@.len() && (#[trigger] enabled@[j]).name@ == k;
                    assert(enas[j].name == k);
                }
                if exists|j: int| 0 <= j < enas.len() && (#[trigger] enas[j]).name == k {
                    let j = choose|j: int| 0 <= j < enas.len() && (#[trigger] enas[j]).name == k;
                    assert(enabled@[j].name@ == k);
                }
            }
        }

        let mut records: Vec<ReconciledMod> = Vec::new();
        let mut i: usize = 0;
        while i < names.len()
            invariant
                i <= names@.len(),
                records@.len() == i,
                srcs == source_views(source@),
                stgs == staged_views(staged@),
                enas == entry_views(enabled@),
                forall|j: int| 0 <= j < i ==> (#[trigger] records@[j])@ == reconciled(names@[j]@, self.registry_id(),
                    last_source(srcs, names@[j]@), last_staged(stgs, names@[j]@), last_entry(enas, names@[j]@)),
            decreases names@.len() - i,
        {
            let name = names[i].as_str();
            let src = find_last_source(source, name);
            let stg = find_last_staged(staged, name);
            let ena = find_last_entry(enabled, name);
            let newer = match (src, stg) {
                (Some(a), Some(b)) => match (source[a].modified, staged[b].modified) {
                    (Some(x), Some(y)) => x > y,
                    _ => false,
                },
                _ => false,
            };
            let status = if src.is_some() && stg.is_some() {
                if newer {
                    ModStatus::Modified
                } else if ena.is_some() {
                    ModStatus::Enabled
                } else {
                    ModStatus::Staged
                }
            } else if ena.is_some() {
                ModStatus::Enabled
            } else if stg.is_some() {
                ModStatus::Staged
            } else {
                ModStatus::Downloaded
            };
            let source_entry = match src {
                Some(a) => Some(source[a].entry.duplicate()),
                None => None,
            };
            let staging_entry = match stg {
                Some(b) => Some(staged[b].entry.duplicate()),
                None => None,
            };
            let game_entry = match ena {
                Some(c) => Some(enabled[c].duplicate()),
                None => None,
            };
            let rec = ReconciledMod {
                name: copy_string(&names[i]),
                status,
                source_entry,
                staging_entry,
                game_entry,
                register_id: copy_string(&self.registry_id),
            };
            records.push(rec);
            i = i + 1;
        }
        let ghost views = record_views(records@);
        proof {
            assert forall|a: int, b: int| 0 <= a < b < views.len() implies (#[trigger] views[a]).name != (#[trigger] views[b]).name by {
                assert(strings_view(names@)[a] == names@[a]@);
                assert(strings_view(names@)[b] == names@[b]@);
            }
            assert(distinct_names(views));
            lemma_records_map_distinct(views);
        }
        let state = ModState::new(records);
        proof {
            let m = reconcile_map(self.registry_id(), srcs, stgs, enas);
            assert forall|k: Seq<char>| #[trigger] records_map(views).contains_key(k) <==> m.contains_key(k) by {
                if records_map(views).contains_key(k) {
                    let j = choose|j: int| 0 <= j < views.len() && views[j].name == k;
                    assert(views[j] == records@[j]@);
                    assert(views[j].name == names@[j]@);
                    assert(strings_view(names@)[j] == k);
                    assert(strings_view(names@).contains(k));
                    assert(found(k));
                }
                if m.contains_key(k) {
                    assert(found(k));
                    assert(strings_view(names@).contains(k));
                    let j = choose|j: int| 0 <= j < strings_view(names@).len() && strings_view(names@)[j] == k;
                    assert(views[j].name == k);
                }
            }
            assert forall|k: Seq<char>| #[trigger] records_map(views).contains_key(k) implies records_map(views)[k] == m[k] by {
                let j = choose|j: int| 0 <= j < views.len() && views[j].name == k;
                assert(records_map(views)[views[j].name] == views[j]);
            }
            assert(records_map(views) =~= m);
        }
        state
    }
}

} // verus!
