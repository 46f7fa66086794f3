//! The decisions of keeping a game's mods in sync across downloads, staging and the game.
use vstd::prelude::*;
use crate::catalog::{entry_views, reconcile_map, source_views, staged_views, Catalog, SourceMod, StagedMod};
use crate::config::Config;
use crate::games::{registry_id_of, Game};
use crate::mod_state::{
    apply_disabled, apply_downloaded, apply_remove, apply_unstaged, record_views, ModState, ModStateView,
    RepoWriteView,
};
use crate::staging::{opt_stage_view, opt_view, stage_plan, EnableStep, StageStep, SymlinkEnabler};
use crate::games::contains_string;
use crate::text::{copy_string, join_path, path_join, strings_view};
use crate::types::{ModEntry, ModEntryView, ModStatus, ReconciledModView};

verus! {

/// Which mods a bulk operation acts on.
#[derive(Debug, Clone, Copy, PartialEq, Eq, Structural)]
pub enum Selection {
    /// The downloads of mods that are only downloaded.
    ToStage,
    /// The staged copies of mods that are staged.
    ToEnable,
    /// The staged copies of mods that are staged or enabled.
    ToUnstage,
    /// The game links of mods that are enabled.
    ToDisable,
}

/// The entry that a bulk operation takes from a record, if it acts on it; a record in
/// the right status but without that entry is skipped.
pub open spec fn selected(sel: Selection, m: ReconciledModView) -> Option<ModEntryView> {
    match sel {
        Selection::ToStage => if m.status == ModStatus::Downloaded { m.source_entry } else { None },
        Selection::ToEnable => if m.status == ModStatus::Staged { m.staging_entry } else { None },
        Selection::ToUnstage => if m.status == ModStatus::Staged || m.status == ModStatus::Enabled {
            m.staging_entry
        } else {
            None
        },
        Selection::ToDisable => if m.status == ModStatus::Enabled { m.game_entry } else { None },
    }
}

/// The entries a bulk operation acts on, in the order of the records.
pub open spec fn selection(sel: Selection, s: Seq<ReconciledModView>) -> Seq<ModEntryView>
    decreases s.len(),
{
    if s.len() == 0 {
        Seq::empty()
    } else {
        let rest = selection(sel, s.drop_last());
        match selected(sel, s.last()) {
            Some(e) => rest.push(e),
            None => rest,
        }
    }
}

/// Where a bulk sync stands.
#[derive(Debug, Clone, Copy, PartialEq, Eq, Structural)]
pub enum SyncPhase {
    Start,
    Staged,
    Finished,
}

/// What a bulk sync does next.
#[derive(Clone, Debug)]
pub enum SyncStep {
    /// Stage each of these, in order.
    Stage(Vec<ModEntry>),
    /// Enable each of these, in order.
    Enable(Vec<ModEntry>),
    /// Nothing is left to do.
    Done,
}

/// Remove the link at `link`, then the staged copy at `staged_dir` if it still exists.
#[derive(Clone, Debug)]
pub struct UnstageStep {
    pub link: String,
    pub staged_dir: String,
}

/// What unstaging leaves of a state: the mod is back to downloaded when its record
/// still has a download, else it is forgotten.
pub open spec fn after_unstage(s: ModStateView, e: ModEntryView) -> ModStateView {
    let s1 = apply_unstaged(s, e.name);
    if s1.mods.contains_key(e.name) && s1.mods[e.name].source_entry is Some {
        apply_downloaded(s1, e)
    } else {
        apply_remove(s1, e.name)
    }
}

/// The path of an optional entry is among `existing`.
pub open spec fn entry_exists(e: Option<ModEntryView>, existing: Seq<Seq<char>>) -> bool {
    e is Some && existing.contains(e->0.path)
}

/// What disabling leaves of a state, given the paths found to exist: still staged when
/// its staged copy exists, else back to downloaded when its download exists, else forgotten.
pub open spec fn after_disable(s: ModStateView, name: Seq<char>, existing: Seq<Seq<char>>) -> ModStateView {
    if !s.mods.contains_key(name) {
        s
    } else if entry_exists(s.mods[name].staging_entry, existing) {
        apply_disabled(s, name)
    } else if entry_exists(s.mods[name].source_entry, existing) {
        apply_unstaged(s, name)
    } else {
        apply_remove(s, name)
    }
}

/// The entries a bulk operation acts on in `state`, in order of name.
pub fn select_entries(sel: Selection, state: &ModState) -> (r: Vec<ModEntry>)
    ensures
        entry_views(r@) == selection(sel, state.listing()),
{
    let mods = state.get_mods();
    let ghost s = record_views(mods@);
    let mut out: Vec<ModEntry> = Vec::new();
    let mut i: usize = 0;
    while i < mods.len()
        invariant
            i <= mods@.len(),
            s == record_views(mods@),
            entry_views(out@) == selection(sel, s.take(i as int)),
        decreases mods@.len() - i,
    {
        let m = &mods[i];
        let ghost before = out@;
        let picked: Option<&ModEntry> = match sel {
            Selection::ToStage => if m.status == ModStatus::Downloaded { m.source_entry.as_ref() } else { None },
            Selection::ToEnable => if m.status == ModStatus::Staged { m.staging_entry.as_ref() } else { None },
            Selection::ToUnstage => if m.status == ModStatus::Staged || m.status == ModStatus::Enabled {
                m.staging_entry.as_ref()
            } else {
                None
            },
            Selection::ToDisable => if m.status == ModStatus::Enabled { m.game_entry.as_ref() } else { None },
        };
        match picked {
            Some(e) => {
                out.push(e.duplicate());
            },
            None => {},
        }
        proof {
            let t = s.take(i + 1);
            assert(t.drop_last() =~= s.take(i as int));
            assert(t.last() == mods@[i as int]@);
            if out@.len() > before.len() {
                assert(entry_views(out@) =~= entry_views(before).push(out@.last()@));
            } else {
                assert(out@ == before);
            }
        }
        i = i + 1;
    }
    assert(s.take(s.len() as int) =~= s);
    out
}

/// Keeps one game's mods in sync: plans the copies and links that staging, enabling,
/// unstaging and disabling need, and updates the state once they are done.
pub struct SyncManager<G: Game> {
    game: G,
    config: Config,
    catalog: Catalog,
}

impl<G: Game> SyncManager<G> {
    #[verifier::type_invariant]
    spec fn inv(self) -> bool {
        self.catalog.registry_id() == registry_id_of(self.game.spec_kind())
    }

    /// The manager of `game` under the folders that `config` names.
    pub fn new(game: G, config: Config) -> (r: SyncManager<G>)
        ensures
            r.spec_game() == game,
            r.spec_config() == config,
    {
        let descriptor = game.descriptor();
        let catalog = Catalog::new(config.clone(), descriptor.registry_id.as_str());
        SyncManager { game, config, catalog }
    }

    /// The game the manager works on.
    pub closed spec fn spec_game(&self) -> G {
        self.game
    }

    /// The configuration the manager works with.
    pub closed spec fn spec_config(&self) -> Config {
        self.config
    }

    /// The game's registry id.
    pub open spec fn spec_registry_id(&self) -> Seq<char> {
        registry_id_of(self.spec_game().spec_kind())
    }

    /// The folder where this game's mods are staged.
    pub open spec fn spec_staging_path(&self) -> Seq<char> {
        path_join(self.spec_config().staging_root_path@, self.spec_registry_id())
    }

    /// The game the manager works on.
    pub fn game(&self) -> (r: &G)
        ensures
            *r == self.spec_game(),
    {
        &self.game
    }

    /// The catalog that lists this game's folders.
    pub fn catalog(&self) -> (r: &Catalog)
        ensures
            r.registry_id() == self.spec_registry_id(),
    {
        proof {
            use_type_invariant(self);
        }
        &self.catalog
    }

    /// The folder that holds this game's downloaded mods.
    pub open spec fn spec_mods_folder(&self) -> Seq<char> {
        path_join(self.spec_config().mods_root_path@, self.spec_registry_id())
    }

    /// The folder that holds this game's downloaded mods.
    pub fn mods_folder(&self) -> (r: String)
        ensures
            r@ == self.spec_mods_folder(),
    {
        let descriptor = self.game.descriptor();
        join_path(self.config.mods_root_path.as_str(), descriptor.registry_id.as_str())
    }

    /// The folder where this game's mods are staged.
    pub fn get_staging_path(&self) -> (r: String)
        ensures
            r@ == self.spec_staging_path(),
    {
        let descriptor = self.game.descriptor();
        join_path(self.config.staging_root_path.as_str(), descriptor.registry_id.as_str())
    }

    /// Where the game looks for its mods.
    pub fn game_mod_path(&self) -> (r: String)
        ensures
            r@ == self.spec_game().spec_game_mod_path(),
    {
        self.game.game_mod_path()
    }

    /// Where the game is installed.
    pub fn game_path(&self) -> (r: String)
        ensures
            r@ == self.spec_game().spec_game_path(),
    {
        self.game.game_path()
    }

    /// Reconciles what the downloads, staging and game folders hold into the state of the mods.
    pub fn reconcile(&self, source: &Vec<SourceMod>, staged: &Vec<StagedMod>, enabled: &Vec<ModEntry>) -> (r: ModState)
        ensures
            r@ == reconcile_map(self.spec_registry_id(), source_views(source@), staged_views(staged@), entry_views(enabled@)),
            r.pending_writes() == Seq::<RepoWriteView>::empty(),
    {
        proof {
            use_type_invariant(self);
        }
        self.catalog.reconcile(source, staged, enabled)
    }

    /// How a mod is staged; `root` is the directory that wraps an archive's content, if one does.
    /// Once its install is done, `ModState::set_staged` records the staged entry.
    pub fn stage_one_mod(&self, mod_entry: &ModEntry, root: Option<String>) -> (r: Option<StageStep>)
        ensures
            opt_stage_view(r) == stage_plan(mod_entry@, self.spec_staging_path(), opt_view(root)),
    {
        let staging_path = self.get_staging_path();
        assert(ModEntryView { kind: mod_entry.kind, ..mod_entry@ } == mod_entry@);
        mod_entry.kind.stage(mod_entry, staging_path.as_str(), root)
    }

    /// What unstaging a staged mod removes: its link in the game and its staged copy.
    pub fn unstage_one_mod(&self, mod_entry: &ModEntry) -> (r: UnstageStep)
        ensures
            r.link@ == path_join(self.spec_game().spec_game_mod_path(), mod_entry.name@),
            r.staged_dir@ == mod_entry.path@,
    {
        let game_mod_path = self.game.game_mod_path();
        UnstageStep {
            link: join_path(game_mod_path.as_str(), mod_entry.name.as_str()),
            staged_dir: copy_string(&mod_entry.path),
        }
    }

    /// Records that the staged copy `mod_entry` is gone.
    pub fn resolve_after_unstage(&self, mod_entry: &ModEntry, state: &mut ModState)
        ensures
            final(state).state() == after_unstage(old(state).state(), mod_entry@),
    {
        state.set_unstaged(mod_entry.name.as_str());
        let has_source = match state.get_mod(mod_entry.name.as_str()) {
            Some(m) => m.source_entry.is_some(),
            None => false,
        };
        if has_source {
            state.set_downloaded(mod_entry);
        } else {
            state.remove(mod_entry.name.as_str());
        }
    }

    /// How a staged mod is enabled: linked into the game's mods folder.
    /// Once the link is made, `ModState::set_enabled` records the enabled entry.
    pub fn enable_one_mod(&self, mod_entry: &ModEntry) -> (r: EnableStep)
        ensures
            r.source@ == mod_entry.path@,
            r.target@ == path_join(self.spec_game().spec_game_mod_path(), mod_entry.name@),
            r.enabled@ == (ModEntryView {
                name: mod_entry.name@,
                path: path_join(self.spec_game().spec_game_mod_path(), mod_entry.name@),
                kind: crate::types::ModEntryKind::Directory,
                metadata: None,
            }),
    {
        let game_mod_path = self.game.game_mod_path();
        SymlinkEnabler::enable(mod_entry, game_mod_path.as_str())
    }

    /// The link that disabling an enabled mod removes, when it exists.
    pub fn disable_one_mod(&self, mod_entry: &ModEntry) -> (r: String)
        ensures
            r@ == mod_entry.path@,
    {
        copy_string(&mod_entry.path)
    }

    /// Records that the link `mod_entry` is gone, given the paths found to exist.
    pub fn resolve_after_disable(&self, mod_entry: &ModEntry, state: &mut ModState, existing: &Vec<String>)
        ensures
            final(state).state() == after_disable(old(state).state(), mod_entry.name@, strings_view(existing@)),
    {
        let name = mod_entry.name.as_str();
        let (staging_exists, source_exists) = match state.get_mod(name) {
            None => {
                return;
            },
            Some(m) => {
                let a = match &m.staging_entry {
                    Some(e) => contains_string(existing, e.path.as_str()),
                    None => false,
                };
                let b = match &m.source_entry {
                    Some(e) => contains_string(existing, e.path.as_str()),
                    None => false,
                };
                (a, b)
            },
        };
        if staging_exists {
            state.set_disabled(name);
        } else if source_exists {
            state.set_unstaged(name);
        } else {
            state.remove(name);
        }
    }

    /// The downloads of the mods that are only downloaded, in order of name.
    pub fn stage_mods(&self, state: &ModState) -> (r: Vec<ModEntry>)
        ensures
            entry_views(r@) == selection(Selection::ToStage, state.listing()),
    {
        select_entries(Selection::ToStage, state)
    }

    /// The staged copies of the mods that are staged, in order of name.
    pub fn enable_mods(&self, state: &ModState) -> (r: Vec<ModEntry>)
        ensures
            entry_views(r@) == selection(Selection::ToEnable, state.listing()),
    {
        select_entries(Selection::ToEnable, state)
    }

    /// The staged copies of the mods that are staged or enabled, in order of name.
    pub fn unstage_mods(&self, state: &ModState) -> (r: Vec<ModEntry>)
        ensures
            entry_views(r@) == selection(Selection::ToUnstage, state.listing()),
    {
        select_entries(Selection::ToUnstage, state)
    }

    /// The game links of the mods that are enabled, in order of name.
    pub fn disable_mods(&self, state: &ModState) -> (r: Vec<ModEntry>)
        ensures
            entry_views(r@) == selection(Selection::ToDisable, state.listing()),
    {
        select_entries(Selection::ToDisable, state)
    }

    /// The next step of a bulk sync from `phase`: first stage what is only downloaded,
    /// then enable what is staged in the state as staging left it, then stop.
    pub fn sync_all(&self, phase: SyncPhase, state: &ModState) -> (r: (SyncStep, SyncPhase))
        ensures
            phase == SyncPhase::Start ==> r.1 == SyncPhase::Staged && (r.0 matches SyncStep::Stage(v)
                && entry_views(v@) == selection(Selection::ToStage, state.listing())),
            phase == SyncPhase::Staged ==> r.1 == SyncPhase::Finished && (r.0 matches SyncStep::Enable(v)
                && entry_views(v@) == selection(Selection::ToEnable, state.listing())),
            phase == SyncPhase::Finished ==> r.1 == SyncPhase::Finished && r.0 is Done,
    {
        match phase {
            SyncPhase::Start => (SyncStep::Stage(self.stage_mods(state)), SyncPhase::Staged),
            SyncPhase::Staged => (SyncStep::Enable(self.enable_mods(state)), SyncPhase::Finished),
            SyncPhase::Finished => (SyncStep::Done, SyncPhase::Finished),
        }
    }
}

} // verus!
