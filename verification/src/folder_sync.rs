//! Keeping a game's mods in sync by what its folders hold. Its bulk operations act on
//! every mod found in the downloads, staging or game folder, whatever the records say,
//! and after unstaging or disabling a mod it looks the mod up again in those folders.
use vstd::prelude::*;
use crate::catalog::{dir_views, entry_views, folder_mods, reconcile_map, source_views, staged_views, DirEntryInfo, DirEntryView, SourceMod, StagedMod};
use crate::config::Config;
use crate::games::{registry_id_of, Game};
use crate::mod_state::{
    apply_disabled, apply_downloaded, apply_remove, apply_staged, apply_unstaged, record_views, ModState,
    ModStateView, RepoWriteView,
};
use crate::registry::{find_named_mod, opt_listing, registry_game_mods, ModRegistry};
use crate::staging::{archive_stage, dir_stage, opt_stage_view, opt_view, EnableStep, InstallMethod, StageStep, StageStepView, SymlinkEnabler};
use crate::sync_manager::UnstageStep;
use crate::text::{copy_string, join_path, path_join};
use crate::types::{ModEntry, ModEntryKind, ModEntryView, ModStatus, ReconciledMod, ReconciledModView};

verus! {

/// How an entry is staged under `staging`: a directory is copied, a zip archive is
/// extracted; entries of any other kind are left alone.
pub open spec fn folder_stage_plan(e: ModEntryView, staging: Seq<char>, root: Option<Seq<char>>) -> Option<StageStepView> {
    match e.kind {
        ModEntryKind::Directory => Some(dir_stage(e, staging)),
        ModEntryKind::ZipArchive => Some(archive_stage(e, staging, root, ".zip"@, InstallMethod::ExtractZip)),
        _ => None,
    }
}

/// The mod named `name` in a listing of a folder, if the folder exists and holds one.
pub open spec fn found_in(listing: Option<Seq<DirEntryView>>, name: Seq<char>) -> Option<ModEntryView> {
    match listing {
        Some(s) => find_named_mod(s, name),
        None => None,
    }
}

/// What unstaging `name` leaves of a state, given the download found for it afterwards:
/// back to downloaded with that download, or forgotten when there is none.
pub open spec fn folder_after_unstage(s: ModStateView, name: Seq<char>, download: Option<ModEntryView>) -> ModStateView {
    let s1 = apply_unstaged(s, name);
    match download {
        Some(d) => apply_downloaded(s1, d),
        None => apply_remove(s1, name),
    }
}

/// What disabling `name` leaves of a state, given the staged copy and the download found
/// for it afterwards: staged with that copy, else downloaded with that download, else forgotten.
pub open spec fn folder_after_disable(
    s: ModStateView,
    name: Seq<char>,
    staged: Option<ModEntryView>,
    download: Option<ModEntryView>,
) -> ModStateView {
    let s1 = apply_disabled(s, name);
    match staged {
        Some(st) => apply_staged(s1, st),
        None => match download {
            Some(d) => apply_downloaded(s1, d),
            None => apply_remove(s1, name),
        },
    }
}

/// One step of a one-pass sync.
#[derive(Clone, Debug)]
pub enum PassStep {
    /// Stage this download.
    Stage(ModEntry),
    /// Enable this staged copy.
    Enable(ModEntry),
}

/// The mathematical content of a `PassStep`.
pub enum PassStepView {
    Stage(ModEntryView),
    Enable(ModEntryView),
}

impl View for PassStep {
    type V = PassStepView;

    open spec fn view(&self) -> PassStepView {
        match self {
            PassStep::Stage(e) => PassStepView::Stage(e@),
            PassStep::Enable(e) => PassStepView::Enable(e@),
        }
    }
}

/// The views of a sequence of steps.
pub open spec fn pass_views(s: Seq<PassStep>) -> Seq<PassStepView> {
    s.map_values(|p: PassStep| p@)
}

/// A one-pass sync can take the record: it is not modified, and it has its download when
/// it is downloaded and its staged copy when it is staged.
pub open spec fn pass_ready(m: ReconciledModView) -> bool {
    &&& m.status != ModStatus::Modified
    &&& m.status == ModStatus::Downloaded ==> m.source_entry is Some
    &&& m.status == ModStatus::Staged ==> m.staging_entry is Some
}

/// A one-pass sync can take every record.
pub open spec fn one_pass_ready(s: Seq<ReconciledModView>) -> bool {
    forall|i: int| 0 <= i < s.len() ==> #[trigger] pass_ready(s[i])
}

/// The step a one-pass sync takes for a record: stage what is downloaded, enable what is
/// staged, skip what is enabled.
pub open spec fn pass_step(m: ReconciledModView) -> Option<PassStepView> {
    match m.status {
        ModStatus::Downloaded => Some(PassStepView::Stage(m.source_entry->0)),
        ModStatus::Staged => Some(PassStepView::Enable(m.staging_entry->0)),
        _ => None,
    }
}

/// The steps of a one-pass sync over the records, in their order.
pub open spec fn one_pass_plan(s: Seq<ReconciledModView>) -> Seq<PassStepView>
    decreases s.len(),
{
    if s.len() == 0 {
        Seq::empty()
    } else {
        let rest = one_pass_plan(s.drop_last());
        match pass_step(s.last()) {
            Some(p) => rest.push(p),
            None => rest,
        }
    }
}

/// Whether a one-pass sync can take every record of `state`.
pub fn can_sync_in_one_pass(state: &ModState) -> (r: bool)
    ensures
        r == one_pass_ready(state.listing()),
{
    let mods = state.get_mods();
    let ghost s = record_views(mods@);
    let mut i: usize = 0;
    while i < mods.len()
        invariant
            i <= mods@.len(),
            s == record_views(mods@),
            s == state.listing(),
            one_pass_ready(s.take(i as int)),
        decreases mods@.len() - i,
    {
        let m = &mods[i];
        let ok = match m.status {
            ModStatus::Modified => false,
            ModStatus::Downloaded => m.source_entry.is_some(),
            ModStatus::Staged => m.staging_entry.is_some(),
            ModStatus::Enabled => true,
        };
        if !ok {
            assert(s[i as int] == m@);
            assert(!pass_ready(s[i as int]));
            return false;
        }
        proof {
            let t = s.take(i + 1);
            assert forall|j: int| 0 <= j < t.len() implies #[trigger] pass_ready(t[j]) by {
                if j < i {
                    assert(t[j] == s.take(i as int)[j]);
                } else {
                    assert(t[j] == m@);
                }
            }
        }
        i = i + 1;
    }
    assert(s.take(s.len() as int) =~= s);
    true
}

/// Keeps one game's mods in sync by what its folders hold: plans the copies and links
/// and updates the state from what the folders hold once they are done.
pub struct SyncManager<G: Game> {
    game: G,
    config: Config,
    mod_registry: ModRegistry<G>,
}

impl<G: Game> SyncManager<G> {
    #[verifier::type_invariant]
    spec fn inv(self) -> bool {
        self.mod_registry.registry_id() == registry_id_of(self.game.spec_kind())
    }

    /// The manager of `game` under the folders that `config` names.
    pub fn new(game: G, config: Config) -> (r: SyncManager<G>)
        ensures
            r.spec_game() == game,
            r.spec_config() == config,
    {
        let mod_registry = ModRegistry::new(config.clone(), &game);
        SyncManager { game, config, mod_registry }
    }

    /// The game the manager works on.
    pub closed spec fn spec_game(&self) -> G {
        self.game
    }

    /// The configuration the manager works with.
    pub closed spec fn spec_config(&self) -> Config {
        self.config
    }

    /// The folder where this game's mods are staged.
    pub open spec fn spec_staging_path(&self) -> Seq<char> {
        path_join(self.spec_config().staging_root_path@, registry_id_of(self.spec_game().spec_kind()))
    }

    /// The registry that finds this game's mods in its folders.
    pub fn registry(&self) -> (r: &ModRegistry<G>)
        ensures
            r.registry_id() == registry_id_of(self.spec_game().spec_kind()),
    {
        proof {
            use_type_invariant(self);
        }
        &self.mod_registry
    }

    /// The folder where this game's mods are staged.
    pub fn get_staging_path(&self) -> (r: String)
        ensures
            r@ == self.spec_staging_path(),
    {
        let descriptor = self.game.descriptor();
        join_path(self.config.staging_root_path.as_str(), descriptor.registry_id.as_str())
    }

    /// Reconciles what the downloads, staging and game folders hold into the state of the mods.
    pub fn reconcile(&self, source: &Vec<SourceMod>, staged: &Vec<StagedMod>, enabled: &Vec<ModEntry>) -> (r: ModState)
        ensures
            r@ == reconcile_map(registry_id_of(self.spec_game().spec_kind()), source_views(source@), staged_views(staged@), entry_views(enabled@)),
            r.pending_writes() == Seq::<RepoWriteView>::empty(),
    {
        proof {
            use_type_invariant(self);
        }
        self.mod_registry.reconcile(source, staged, enabled)
    }

    /// The mods that staging all stages, in order: every mod of a listing of the downloads folder.
    pub fn stage_mods(&self, downloads: &Vec<DirEntryInfo>) -> (r: Vec<ModEntry>)
        ensures
            entry_views(r@) == folder_mods(dir_views(downloads@)),
    {
        self.mod_registry.list_mods_folder(downloads)
    }

    /// How a mod is staged; `root` is the directory that wraps a zip archive's content, if
    /// one does. Once its install is done, `ModState::set_staged` records the staged entry.
    pub fn stage_one_mod(&self, mod_entry: &ModEntry, root: Option<String>) -> (r: Option<StageStep>)
        ensures
            opt_stage_view(r) == folder_stage_plan(mod_entry@, self.spec_staging_path(), opt_view(root)),
    {
        match mod_entry.kind {
            ModEntryKind::Directory | ModEntryKind::ZipArchive => {
                let staging_path = self.get_staging_path();
                assert(ModEntryView { kind: mod_entry.kind, ..mod_entry@ } == mod_entry@);
                mod_entry.kind.stage(mod_entry, staging_path.as_str(), root)
            },
            _ => None,
        }
    }

    /// The mods that unstaging all unstages, in order: every mod of a listing of the staging folder.
    pub fn unstage_mods(&self, staging: &Vec<DirEntryInfo>) -> (r: Vec<ModEntry>)
        ensures
            entry_views(r@) == folder_mods(dir_views(staging@)),
    {
        self.mod_registry.list_staging_folder(staging)
    }

    /// What unstaging a staged mod removes: its link in the game, whatever comes of
    /// that, and its staged copy when it exists.
    pub fn unstage_one_mod(&self, mod_entry: &ModEntry) -> (r: UnstageStep)
        ensures
            r.link@ == path_join(self.spec_game().spec_game_mod_path(), mod_entry.name@),
            r.staged_dir@ == mod_entry.path@,
    {
        let game_mod_path = self.game.game_mod_path();
        UnstageStep {
            link: join_path(game_mod_path.as_str(), mod_entry.name.as_str()),
            staged_dir: copy_string(&mod_entry.path),
        }
    }

    /// Records that the staged copy `mod_entry` is gone, given a listing of the downloads
    /// folder taken afterwards (`None` when it does not exist): the mod is downloaded
    /// again with the download found under its name, or forgotten.
    pub fn resolve_after_unstage(&self, mod_entry: &ModEntry, state: &mut ModState, downloads: &Option<Vec<DirEntryInfo>>)
        ensures
            final(state).state() == folder_after_unstage(
                old(state).state(),
                mod_entry.name@,
                found_in(opt_listing(*downloads), mod_entry.name@),
            ),
    {
        state.set_unstaged(mod_entry.name.as_str());
        match self.mod_registry.get_mod_by_name(downloads, mod_entry.name.as_str()) {
            Ok(src) => state.set_downloaded(&src),
            Err(_) => state.remove(mod_entry.name.as_str()),
        }
    }

    /// The mods that enabling all enables, in order: every mod of a listing of the staging folder.
    pub fn enable_mods(&self, staging: &Vec<DirEntryInfo>) -> (r: Vec<ModEntry>)
        ensures
            entry_views(r@) == folder_mods(dir_views(staging@)),
    {
        self.mod_registry.list_staging_folder(staging)
    }

    /// How a staged mod is enabled: linked into the game's mods folder.
    /// Once the link is made, `ModState::set_enabled` records the enabled entry.
    pub fn enable_one_mod(&self, mod_entry: &ModEntry) -> (r: EnableStep)
        ensures
            r.source@ == mod_entry.path@,
            r.target@ == path_join(self.spec_game().spec_game_mod_path(), mod_entry.name@),
            r.enabled@ == (ModEntryView {
                name: mod_entry.name@,
                path: path_join(self.spec_game().spec_game_mod_path(), mod_entry.name@),
                kind: ModEntryKind::Directory,
                metadata: None,
            }),
    {
        let game_mod_path = self.game.game_mod_path();
        SymlinkEnabler::enable(mod_entry, game_mod_path.as_str())
    }

    /// The mods that disabling all disables, in order: the directories and links of a
    /// listing of the game's mods folder.
    pub fn disable_mods(&self, game_mods: &Vec<DirEntryInfo>) -> (r: Vec<ModEntry>)
        ensures
            entry_views(r@) == registry_game_mods(dir_views(game_mods@)),
    {
        self.mod_registry.list_game_mods_folder(game_mods)
    }

    /// The link that disabling an enabled mod removes, when it exists.
    pub fn disable_one_mod(&self, mod_entry: &ModEntry) -> (r: String)
        ensures
            r@ == mod_entry.path@,
    {
        copy_string(&mod_entry.path)
    }

    /// Records that the link `mod_entry` is gone, given listings of the staging and
    /// downloads folders taken afterwards (`None` for a folder that does not exist): the
    /// mod is staged with the copy found under its name, else downloaded with the
    /// download found under its name, else forgotten.
    pub fn resolve_after_disable(
        &self,
        mod_entry: &ModEntry,
        state: &mut ModState,
        staging: &Option<Vec<DirEntryInfo>>,
        downloads: &Option<Vec<DirEntryInfo>>,
    )
        ensures
            final(state).state() == folder_after_disable(
                old(state).state(),
                mod_entry.name@,
                found_in(opt_listing(*staging), mod_entry.name@),
                found_in(opt_listing(*downloads), mod_entry.name@),
            ),
    {
        let name = mod_entry.name.as_str();
        state.set_disabled(name);
        match self.mod_registry.get_staged_mod_by_name(staging, name) {
            Ok(staged) => state.set_staged(&staged),
            Err(_) => match self.mod_registry.get_mod_by_name(downloads, name) {
                Ok(src) => state.set_downloaded(&src),
                Err(_) => state.remove(name),
            },
        }
    }

    /// The steps of a sync in one pass over the records as they stand, in order of name:
    /// each downloaded mod is staged, each staged mod enabled, and enabled mods are left;
    /// a mod staged by this pass is not enabled by it.
    pub fn sync_all(&self, state: &ModState) -> (r: Vec<PassStep>)
        requires
            one_pass_ready(state.listing()),
        ensures
            pass_views(r@) == one_pass_plan(state.listing()),
    {
        let mods = state.get_mods();
        let ghost s = record_views(mods@);
        let mut out: Vec<PassStep> = Vec::new();
        let mut i: usize = 0;
        while i < mods.len()
            invariant
                i <= mods@.len(),
                s == record_views(mods@),
                one_pass_ready(s),
                pass_views(out@) == one_pass_plan(s.take(i as int)),
            decreases mods@.len() - i,
        {
            let m = &mods[i];
            let ghost before = out@;
            assert(s[i as int] == m@);
            assert(pass_ready(s[i as int]));
            match m.status {
                ModStatus::Downloaded => match &m.source_entry {
                    Some(e) => out.push(PassStep::Stage(e.duplicate())),
                    None => {},
                },
                ModStatus::Staged => match &m.staging_entry {
                    Some(e) => out.push(PassStep::Enable(e.duplicate())),
                    None => {},
                },
                _ => {},
            }
            proof {
                let t = s.take(i + 1);
                assert(t.drop_last() =~= s.take(i as int));
                assert(t.last() == m@);
                if out@.len() > before.len() {
                    assert(pass_views(out@) =~= pass_views(before).push(out@.last()@));
                } else {
                    assert(out@ == before);
                }
            }
            i = i + 1;
        }
        assert(s.take(s.len() as int) =~= s);
        out
    }
}

} // verus!
