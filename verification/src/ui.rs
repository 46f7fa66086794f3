//! The application's state and how it answers the user's requests.
use vstd::prelude::*;
use vstd::string::*;
use crate::catalog::{entry_views, reconcile_map, source_views, staged_views, SourceMod, StagedMod};
use crate::config::Config;
use crate::error::{error_message, ModManagerError};
use crate::games::{first_existing, game_name_of, registry_id_of, Game, GameDescriptor, GameKind, MarvelRivals, StardewValley};
use crate::mod_state::{record_views, ModState, RepoWriteView};
use crate::staging::{opt_stage_view, opt_view, stage_plan, EnableStep, StageStep};
use crate::sync_manager::{after_disable, after_unstage, select_entries, selection, Selection, SyncManager, SyncPhase, SyncStep, UnstageStep};
use crate::nexus::{decimal, u64_to_decimal};
use crate::text::{concat2, concat3, copy_string, path_join, str_eq, strings_view};
use crate::types::{ModEntry, ModEntryView, ModStatus, ReconciledModView};

verus! {

/// The games whose mods the application can manage.
pub open spec fn manageable(kind: GameKind) -> bool {
    kind == GameKind::StardewValley || kind == GameKind::MarvelRivals
}

/// The game whose mods are being managed, with its manager and the state of its mods.
pub enum ActiveGame {
    StardewValley(SyncManager<StardewValley>, ModState),
    MarvelRivals(SyncManager<MarvelRivals>, ModState),
}

impl ActiveGame {
    /// Which game this is.
    pub open spec fn spec_kind(&self) -> GameKind {
        match self {
            ActiveGame::StardewValley(..) => GameKind::StardewValley,
            ActiveGame::MarvelRivals(..) => GameKind::MarvelRivals,
        }
    }

    /// The state of the game's mods.
    pub open spec fn spec_state(&self) -> ModState {
        match self {
            ActiveGame::StardewValley(_, s) => *s,
            ActiveGame::MarvelRivals(_, s) => *s,
        }
    }

    /// Where the game looks for its mods.
    pub open spec fn spec_game_mod_path(&self) -> Seq<char> {
        match self {
            ActiveGame::StardewValley(sm, _) => sm.spec_game().spec_game_mod_path(),
            ActiveGame::MarvelRivals(sm, _) => sm.spec_game().spec_game_mod_path(),
        }
    }

    /// Where the game's mods are staged.
    pub open spec fn spec_staging_path(&self) -> Seq<char> {
        match self {
            ActiveGame::StardewValley(sm, _) => sm.spec_staging_path(),
            ActiveGame::MarvelRivals(sm, _) => sm.spec_staging_path(),
        }
    }

    /// Where the game's mods are downloaded.
    pub open spec fn spec_mods_folder(&self) -> Seq<char> {
        match self {
            ActiveGame::StardewValley(sm, _) => sm.spec_mods_folder(),
            ActiveGame::MarvelRivals(sm, _) => sm.spec_mods_folder(),
        }
    }

    /// The game installed at `game_path`, managed under `config`, with no mods known yet.
    /// Only Stardew Valley and Marvel Rivals can be managed.
    pub fn create(kind: GameKind, game_path: String, config: Config) -> (r: ActiveGame)
        requires
            manageable(kind),
        ensures
            r.spec_kind() == kind,
            r.spec_state()@ == Map::<Seq<char>, crate::types::ReconciledModView>::empty(),
            r.spec_state().pending_writes() == Seq::<RepoWriteView>::empty(),
            r.spec_staging_path() == path_join(config.staging_root_path@, registry_id_of(kind)),
            r.spec_mods_folder() == path_join(config.mods_root_path@, registry_id_of(kind)),
            kind == GameKind::StardewValley ==> r.spec_game_mod_path() == path_join(game_path@, "Mods"@),
            kind == GameKind::MarvelRivals ==> r.spec_game_mod_path() == path_join(game_path@, "MarvelGame/Marvel/Content/Paks/~mods"@),
    {
        match kind {
            GameKind::StardewValley => ActiveGame::StardewValley(
                SyncManager::new(StardewValley::new(game_path), config),
                ModState::default(),
            ),
            _ => ActiveGame::MarvelRivals(
                SyncManager::new(MarvelRivals::new(game_path), config),
                ModState::default(),
            ),
        }
    }

    /// The registry id of the game.
    pub fn registry_id(&self) -> (r: String)
        ensures
            r@ == registry_id_of(self.spec_kind()),
    {
        let d = match self {
            ActiveGame::StardewValley(..) => GameDescriptor::stardew_valley(),
            ActiveGame::MarvelRivals(..) => GameDescriptor::marvel_rivals(),
        };
        d.registry_id
    }

    /// The display name of the game.
    pub fn game_name(&self) -> (r: String)
        ensures
            r@ == game_name_of(self.spec_kind()),
    {
        let d = match self {
            ActiveGame::StardewValley(..) => GameDescriptor::stardew_valley(),
            ActiveGame::MarvelRivals(..) => GameDescriptor::marvel_rivals(),
        };
        d.name
    }

    /// Where the game looks for its mods.
    pub fn game_mod_path(&self) -> (r: String)
        ensures
            r@ == self.spec_game_mod_path(),
    {
        match self {
            ActiveGame::StardewValley(sm, _) => sm.game_mod_path(),
            ActiveGame::MarvelRivals(sm, _) => sm.game_mod_path(),
        }
    }

    /// Where the game's mods are staged.
    pub fn staging_path(&self) -> (r: String)
        ensures
            r@ == self.spec_staging_path(),
    {
        match self {
            ActiveGame::StardewValley(sm, _) => sm.get_staging_path(),
            ActiveGame::MarvelRivals(sm, _) => sm.get_staging_path(),
        }
    }

    /// Where the game's mods are downloaded.
    pub fn mods_folder(&self) -> (r: String)
        ensures
            r@ == self.spec_mods_folder(),
    {
        match self {
            ActiveGame::StardewValley(sm, _) => sm.mods_folder(),
            ActiveGame::MarvelRivals(sm, _) => sm.mods_folder(),
        }
    }

    /// The state of the game's mods.
    pub fn state(&self) -> (r: &ModState)
        ensures
            *r == self.spec_state(),
    {
        match self {
            ActiveGame::StardewValley(_, s) => s,
            ActiveGame::MarvelRivals(_, s) => s,
        }
    }

    /// The state of the game's mods, to change.
    pub fn state_mut(&mut self) -> (r: &mut ModState)
        ensures
            *r == old(self).spec_state(),
            final(self).spec_state() == *final(r),
            final(self).spec_kind() == old(self).spec_kind(),
            final(self).spec_game_mod_path() == old(self).spec_game_mod_path(),
            final(self).spec_staging_path() == old(self).spec_staging_path(),
            final(self).spec_mods_folder() == old(self).spec_mods_folder(),
    {
        match self {
            ActiveGame::StardewValley(_, s) => s,
            ActiveGame::MarvelRivals(_, s) => s,
        }
    }

    /// Replaces the state by what the three folders hold.
    pub fn reconcile(&mut self, source: &Vec<SourceMod>, staged: &Vec<StagedMod>, enabled: &Vec<ModEntry>)
        ensures
            final(self).spec_state()@ == reconcile_map(registry_id_of(old(self).spec_kind()), source_views(source@),
                staged_views(staged@), entry_views(enabled@)),
            final(self).spec_state().pending_writes() == Seq::<RepoWriteView>::empty(),
            final(self).spec_kind() == old(self).spec_kind(),
            final(self).spec_game_mod_path() == old(self).spec_game_mod_path(),
            final(self).spec_staging_path() == old(self).spec_staging_path(),
            final(self).spec_mods_folder() == old(self).spec_mods_folder(),
    {
        match self {
            ActiveGame::StardewValley(sm, state) => {
                *state = sm.reconcile(source, staged, enabled);
            },
            ActiveGame::MarvelRivals(sm, state) => {
                *state = sm.reconcile(source, staged, enabled);
            },
        }
    }

    /// How a mod is staged; see `SyncManager::stage_one_mod`.
    pub fn stage_one_mod(&self, mod_entry: &ModEntry, root: Option<String>) -> (r: Option<StageStep>)
        ensures
            opt_stage_view(r) == stage_plan(mod_entry@, self.spec_staging_path(), opt_view(root)),
    {
        match self {
            ActiveGame::StardewValley(sm, _) => sm.stage_one_mod(mod_entry, root),
            ActiveGame::MarvelRivals(sm, _) => sm.stage_one_mod(mod_entry, root),
        }
    }

    /// What unstaging a mod removes; see `SyncManager::unstage_one_mod`.
    pub fn unstage_one_mod(&self, mod_entry: &ModEntry) -> (r: UnstageStep)
        ensures
            r.link@ == path_join(self.spec_game_mod_path(), mod_entry.name@),
            r.staged_dir@ == mod_entry.path@,
    {
        match self {
            ActiveGame::StardewValley(sm, _) => sm.unstage_one_mod(mod_entry),
            ActiveGame::MarvelRivals(sm, _) => sm.unstage_one_mod(mod_entry),
        }
    }

    /// How a mod is enabled; see `SyncManager::enable_one_mod`.
    pub fn enable_one_mod(&self, mod_entry: &ModEntry) -> (r: EnableStep)
        ensures
            r.source@ == mod_entry.path@,
            r.target@ == path_join(self.spec_game_mod_path(), mod_entry.name@),
            r.enabled@ == (ModEntryView {
                name: mod_entry.name@,
                path: path_join(self.spec_game_mod_path(), mod_entry.name@),
                kind: crate::types::ModEntryKind::Directory,
                metadata: None,
            }),
    {
        match self {
            ActiveGame::StardewValley(sm, _) => sm.enable_one_mod(mod_entry),
            ActiveGame::MarvelRivals(sm, _) => sm.enable_one_mod(mod_entry),
        }
    }

    /// The link that disabling a mod removes; see `SyncManager::disable_one_mod`.
    pub fn disable_one_mod(&self, mod_entry: &ModEntry) -> (r: String)
        ensures
            r@ == mod_entry.path@,
    {
        match self {
            ActiveGame::StardewValley(sm, _) => sm.disable_one_mod(mod_entry),
            ActiveGame::MarvelRivals(sm, _) => sm.disable_one_mod(mod_entry),
        }
    }

    /// The entries a bulk operation acts on, in order of name; see `select_entries`.
    pub fn select_entries(&self, sel: Selection) -> (r: Vec<ModEntry>)
        ensures
            entry_views(r@) == selection(sel, self.spec_state().listing()),
    {
        match self {
            ActiveGame::StardewValley(_, state) => select_entries(sel, state),
            ActiveGame::MarvelRivals(_, state) => select_entries(sel, state),
        }
    }

    /// The next step of a bulk sync; see `SyncManager::sync_all`.
    pub fn sync_all(&self, phase: SyncPhase) -> (r: (SyncStep, SyncPhase))
        ensures
            phase == SyncPhase::Start ==> r.1 == SyncPhase::Staged && (r.0 matches SyncStep::Stage(v)
                && entry_views(v@) == crate::sync_manager::selection(crate::sync_manager::Selection::ToStage, self.spec_state().listing())),
            phase == SyncPhase::Staged ==> r.1 == SyncPhase::Finished && (r.0 matches SyncStep::Enable(v)
                && entry_views(v@) == crate::sync_manager::selection(crate::sync_manager::Selection::ToEnable, self.spec_state().listing())),
            phase == SyncPhase::Finished ==> r.1 == SyncPhase::Finished && r.0 is Done,
    {
        match self {
            ActiveGame::StardewValley(sm, state) => sm.sync_all(phase, state),
            ActiveGame::MarvelRivals(sm, state) => sm.sync_all(phase, state),
        }
    }

    /// Records that a staged copy is gone; see `SyncManager::resolve_after_unstage`.
    pub fn resolve_after_unstage(&mut self, mod_entry: &ModEntry)
        ensures
            final(self).spec_state().state() == after_unstage(old(self).spec_state().state(), mod_entry@),
            final(self).spec_kind() == old(self).spec_kind(),
            final(self).spec_game_mod_path() == old(self).spec_game_mod_path(),
            final(self).spec_staging_path() == old(self).spec_staging_path(),
    {
        match self {
            ActiveGame::StardewValley(sm, state) => sm.resolve_after_unstage(mod_entry, state),
            ActiveGame::MarvelRivals(sm, state) => sm.resolve_after_unstage(mod_entry, state),
        }
    }

    /// Records that a link is gone; see `SyncManager::resolve_after_disable`.
    pub fn resolve_after_disable(&mut self, mod_entry: &ModEntry, existing: &Vec<String>)
        ensures
            final(self).spec_state().state() == after_disable(old(self).spec_state().state(), mod_entry.name@,
                strings_view(existing@)),
            final(self).spec_kind() == old(self).spec_kind(),
            final(self).spec_game_mod_path() == old(self).spec_game_mod_path(),
            final(self).spec_staging_path() == old(self).spec_staging_path(),
    {
        match self {
            ActiveGame::StardewValley(sm, state) => sm.resolve_after_disable(mod_entry, state, existing),
            ActiveGame::MarvelRivals(sm, state) => sm.resolve_after_disable(mod_entry, state, existing),
        }
    }
}

/// The pages of the application.
#[derive(Debug, Clone, Copy, PartialEq, Eq, Structural)]
pub enum Tab {
    GameSelect,
    Mods,
    Downloads,
}

/// The tabs of the mods page, one per status.
#[derive(Debug, Clone, Copy, PartialEq, Eq, Structural)]
pub enum ModsTab {
    Downloads,
    Staging,
    Enabled,
    Modified,
}

/// What a row of a tab offers to do with its mod.
#[derive(Debug, Clone, Copy, PartialEq, Eq, Structural)]
pub enum RowAction {
    Stage,
    Enable,
    Unstage,
    Disable,
    Restage,
}

/// The status of the mods a tab lists.
pub open spec fn tab_status(t: ModsTab) -> ModStatus {
    match t {
        ModsTab::Downloads => ModStatus::Downloaded,
        ModsTab::Staging => ModStatus::Staged,
        ModsTab::Enabled => ModStatus::Enabled,
        ModsTab::Modified => ModStatus::Modified,
    }
}

/// The label of a tab.
pub open spec fn tab_label(t: ModsTab) -> Seq<char> {
    match t {
        ModsTab::Downloads => "Downloads"@,
        ModsTab::Staging => "Staging"@,
        ModsTab::Enabled => "Enabled"@,
        ModsTab::Modified => "Modified"@,
    }
}

/// What each row of a tab offers, in order.
pub open spec fn tab_actions(t: ModsTab) -> Seq<RowAction> {
    match t {
        ModsTab::Downloads => seq![RowAction::Stage],
        ModsTab::Staging => seq![RowAction::Enable, RowAction::Unstage],
        ModsTab::Enabled => seq![RowAction::Disable],
        ModsTab::Modified => seq![RowAction::Restage, RowAction::Disable],
    }
}

/// The names of the records of status `st`, in the order of `s`.
pub open spec fn names_with_status(s: Seq<ReconciledModView>, st: ModStatus) -> Seq<Seq<char>>
    decreases s.len(),
{
    if s.len() == 0 {
        Seq::empty()
    } else {
        let rest = names_with_status(s.drop_last(), st);
        if s.last().status == st { rest.push(s.last().name) } else { rest }
    }
}

/// What a tab of the mods page shows: its title with the number of mods, the names of
/// its mods in order of name, and what each row offers.
#[derive(Debug, Clone)]
pub struct TabView {
    pub title: String,
    pub names: Vec<String>,
    pub actions: Vec<RowAction>,
}

/// What the tab `tab` shows of `state`.
pub fn tab_view(state: &ModState, tab: ModsTab) -> (r: TabView)
    ensures
        strings_view(r.names@) == names_with_status(state.listing(), tab_status(tab)),
        r.title@ == tab_label(tab) + " ("@ + decimal(r.names@.len() as nat) + ")"@,
        r.actions@ == tab_actions(tab),
{
    let mods = state.get_mods();
    let ghost s = record_views(mods@);
    let status = match tab {
        ModsTab::Downloads => ModStatus::Downloaded,
        ModsTab::Staging => ModStatus::Staged,
        ModsTab::Enabled => ModStatus::Enabled,
        ModsTab::Modified => ModStatus::Modified,
    };
    let mut names: Vec<String> = Vec::new();
    let mut i: usize = 0;
    while i < mods.len()
        invariant
            i <= mods@.len(),
            s == record_views(mods@),
            status == tab_status(tab),
            strings_view(names@) == names_with_status(s.take(i as int), status),
        decreases mods@.len() - i,
    {
        let ghost before = strings_view(names@);
        if mods[i].status == status {
            names.push(copy_string(&mods[i].name));
        }
        proof {
            let t = s.take(i + 1);
            assert(t.drop_last() =~= s.take(i as int));
            assert(t.last() == mods@[i as int]@);
            if mods@[i as int].status == status {
                assert(strings_view(names@) =~= before.push(mods@[i as int].name@));
            } else {
                assert(strings_view(names@) =~= before);
            }
        }
        i = i + 1;
    }
    assert(s.take(s.len() as int) =~= s);
    proof {
        reveal_strlit("Downloads");
        reveal_strlit("Staging");
        reveal_strlit("Enabled");
        reveal_strlit("Modified");
        reveal_strlit(" (");
        reveal_strlit(")");
    }
    let label = match tab {
        ModsTab::Downloads => "Downloads",
        ModsTab::Staging => "Staging",
        ModsTab::Enabled => "Enabled",
        ModsTab::Modified => "Modified",
    };
    let count = u64_to_decimal(names.len() as u64);
    let head = concat2(label, " (");
    let title = concat3(head.as_str(), count.as_str(), ")");
    let actions = match tab {
        ModsTab::Downloads => vec![RowAction::Stage],
        ModsTab::Staging => vec![RowAction::Enable, RowAction::Unstage],
        ModsTab::Enabled => vec![RowAction::Disable],
        ModsTab::Modified => vec![RowAction::Restage, RowAction::Disable],
    };
    assert(actions@ =~= tab_actions(tab));
    TabView { title, names, actions }
}

/// The request that a row's action makes for the mod `name`.
pub fn action_message(a: RowAction, name: String) -> (r: Message)
    ensures
        match a {
            RowAction::Stage => r matches Message::StageMod(n) && n == name,
            RowAction::Restage => r matches Message::StageMod(n) && n == name,
            RowAction::Enable => r matches Message::EnableMod(n) && n == name,
            RowAction::Unstage => r matches Message::UnstageMod(n) && n == name,
            RowAction::Disable => r matches Message::DisableMod(n) && n == name,
        },
{
    match a {
        RowAction::Stage => Message::StageMod(name),
        RowAction::Restage => Message::StageMod(name),
        RowAction::Enable => Message::EnableMod(name),
        RowAction::Unstage => Message::UnstageMod(name),
        RowAction::Disable => Message::DisableMod(name),
    }
}

/// What the user asks for.
#[derive(Debug, Clone)]
pub enum Message {
    TabSelected(Tab),
    ModsTabSelected(ModsTab),
    SelectGame(String),
    Reconcile,
    SyncAll,
    StageAll,
    EnableAll,
    UnstageAll,
    DisableAll,
    StageMod(String),
    UnstageMod(String),
    EnableMod(String),
    DisableMod(String),
}

/// The outside work that answering a request needs.
#[derive(Debug, Clone)]
pub enum Command {
    /// Nothing to do outside.
    Nothing,
    /// Read the configuration and find where the game is installed, then call `App::select_game`.
    LoadGame(GameKind),
    /// Read the three folders and reconcile the state.
    Reconcile,
    /// Run a bulk sync.
    SyncAll,
    /// Stage every mod that is only downloaded.
    StageAll,
    /// Enable every staged mod.
    EnableAll,
    /// Unstage every staged or enabled mod.
    UnstageAll,
    /// Disable every enabled mod.
    DisableAll,
    /// Stage the download `entry` of the mod `name`.
    Stage { name: String, entry: ModEntry },
    /// Unstage the staged copy `entry` of the mod `name`.
    Unstage { name: String, entry: ModEntry },
    /// Enable the staged copy `entry` of the mod `name`.
    Enable { name: String, entry: ModEntry },
    /// Disable the game link `entry` of the mod `name`.
    Disable { name: String, entry: ModEntry },
}

/// What the application shows and the game it works on.
pub struct App {
    pub current_tab: Tab,
    pub mods_tab: ModsTab,
    pub game_name: String,
    pub game_path: String,
    pub mods_path: String,
    pub staging_path: String,
    pub game_mod_path: String,
    pub active: Option<ActiveGame>,
    pub log: Vec<String>,
    /// Why no game is active: the reason that requests on a game report.
    pub init_error: String,
    /// Whether a request on the game that arrives with no game active is answered with
    /// an "Init failed" line (the single-game front end) or left without answer (the
    /// front end that starts on the game selection).
    pub reports_missing_game: bool,
}

/// The views of the log lines.
pub open spec fn log_view(v: Seq<String>) -> Seq<Seq<char>> {
    strings_view(v)
}

/// The log line of a request that found no entry for a mod.
pub open spec fn not_found_line(name: Seq<char>, place: Seq<char>) -> Seq<char> {
    name + (" not found in "@ + place)
}

/// The entry of the mod `name` that a request works on, when the game is active and has it.
pub open spec fn request_entry(app: App, m: Message) -> Option<ModEntryView> {
    match app.active {
        None => None,
        Some(g) => {
            let s = g.spec_state()@;
            match m {
                Message::StageMod(n) => if s.contains_key(n@) { s[n@].source_entry } else { None },
                Message::UnstageMod(n) => if s.contains_key(n@) { s[n@].staging_entry } else { None },
                Message::EnableMod(n) => if s.contains_key(n@) { s[n@].staging_entry } else { None },
                Message::DisableMod(n) => if s.contains_key(n@) { s[n@].game_entry } else { None },
                _ => None,
            }
        },
    }
}

/// The mod a per-mod request names.
pub open spec fn request_name(m: Message) -> Seq<char> {
    match m {
        Message::StageMod(n) => n@,
        Message::UnstageMod(n) => n@,
        Message::EnableMod(n) => n@,
        Message::DisableMod(n) => n@,
        _ => Seq::empty(),
    }
}

/// The folder a per-mod request looks in, as its log line names it.
pub open spec fn request_place(m: Message) -> Seq<char> {
    match m {
        Message::StageMod(_) => "downloads"@,
        Message::UnstageMod(_) => "staging"@,
        Message::EnableMod(_) => "staging"@,
        Message::DisableMod(_) => "game mods"@,
        _ => Seq::empty(),
    }
}

/// `c` is the command that answers the per-mod request `m` on the entry `e`.
pub open spec fn command_for(c: Command, m: Message, e: ModEntryView) -> bool {
    match (m, c) {
        (Message::StageMod(n), Command::Stage { name, entry }) => name@ == n@ && entry@ == e,
        (Message::UnstageMod(n), Command::Unstage { name, entry }) => name@ == n@ && entry@ == e,
        (Message::EnableMod(n), Command::Enable { name, entry }) => name@ == n@ && entry@ == e,
        (Message::DisableMod(n), Command::Disable { name, entry }) => name@ == n@ && entry@ == e,
        _ => false,
    }
}

/// The app shows the same game as `b`, whatever the reason it keeps for having none.
pub open spec fn same_game_shown(a: App, b: App) -> bool {
    &&& a.game_name == b.game_name
    &&& a.game_path == b.game_path
    &&& a.mods_path == b.mods_path
    &&& a.staging_path == b.staging_path
    &&& a.game_mod_path == b.game_mod_path
    &&& a.active == b.active
    &&& a.reports_missing_game == b.reports_missing_game
}

/// The app is the same but for its log and its tabs.
pub open spec fn same_game(a: App, b: App) -> bool {
    same_game_shown(a, b) && a.init_error == b.init_error
}

/// The log line of a request on the game when no game is active.
pub open spec fn init_failed_line(a: App) -> Seq<char> {
    "Init failed: "@ + a.init_error@
}

/// The app is the same but for its log and its page.
pub open spec fn same_but_log(a: App, b: App) -> bool {
    same_game(a, b) && a.mods_tab == b.mods_tab
}

/// `c` is the command that answers the whole-game request `m`.
pub open spec fn bulk_command(m: Message, c: Command) -> bool {
    match (m, c) {
        (Message::Reconcile, Command::Reconcile) => true,
        (Message::SyncAll, Command::SyncAll) => true,
        (Message::StageAll, Command::StageAll) => true,
        (Message::EnableAll, Command::EnableAll) => true,
        (Message::UnstageAll, Command::UnstageAll) => true,
        (Message::DisableAll, Command::DisableAll) => true,
        _ => false,
    }
}

/// A request that acts on the whole game.
pub open spec fn is_bulk(m: Message) -> bool {
    m is Reconcile || m is SyncAll || m is StageAll || m is EnableAll || m is UnstageAll || m is DisableAll
}

impl App {
    /// The application as it starts: on the game selection, with no game.
    pub fn new() -> (r: App)
        ensures
            r.current_tab == Tab::GameSelect,
            r.mods_tab == ModsTab::Downloads,
            r.active is None,
            r.log@.len() == 0,
            r.game_name@.len() == 0 && r.game_path@.len() == 0 && r.mods_path@.len() == 0,
            r.staging_path@.len() == 0 && r.game_mod_path@.len() == 0,
            r.init_error@ == "No game selected"@,
            !r.reports_missing_game,
    {
        proof {
            reveal_strlit("No game selected");
        }
        App {
            current_tab: Tab::GameSelect,
            mods_tab: ModsTab::Downloads,
            game_name: String::new(),
            game_path: String::new(),
            mods_path: String::new(),
            staging_path: String::new(),
            game_mod_path: String::new(),
            active: None,
            log: Vec::new(),
            init_error: String::from_str("No game selected"),
            reports_missing_game: false,
        }
    }

    /// The single-game front end as it starts, given the configuration when it could be
    /// read and the places found to exist: Stardew Valley at the first of its search
    /// paths that exists, with the log line that invites a reconcile.
    pub fn startup(config: Option<Config>, existing: &Vec<String>) -> (r: App)
        ensures
            log_view(r.log@) == seq!["App started. Click Reconcile to load mods."@],
            r.current_tab == Tab::Mods,
            r.mods_tab == ModsTab::Downloads,
            r.reports_missing_game,
            match config {
                None => r.game_path@ == "Config not loaded"@ && r.mods_path@.len() == 0
                    && r.staging_path@.len() == 0 && r.game_mod_path@.len() == 0 && r.active is None
                    && r.init_error@ == "Failed to load config"@,
                Some(c) => match c.spec_search_paths("stardew_valley"@) {
                    Some(ps) if first_existing(ps, strings_view(existing@)) is Some => {
                        let gp = first_existing(ps, strings_view(existing@))->0;
                        &&& r.game_path@ == gp
                        &&& r.game_name@ == "Stardew Valley"@
                        &&& r.mods_path@ == path_join(c.mods_root_path@, "stardew_valley"@)
                        &&& r.staging_path@ == path_join(c.staging_root_path@, "stardew_valley"@)
                        &&& r.game_mod_path@ == path_join(gp, "Mods"@)
                        &&& r.active matches Some(g) && g.spec_kind() == GameKind::StardewValley
                            && g.spec_game_mod_path() == path_join(gp, "Mods"@)
                    },
                    _ => r.game_path@ == "Not found"@ && r.mods_path@ == c.mods_root_path@
                        && r.staging_path@ == c.staging_root_path@ && r.game_mod_path@ == "N/A"@ && r.active is None
                        && r.init_error@ == "Stardew Valley not found"@,
                },
            },
    {
        proof {
            reveal_strlit("App started. Click Reconcile to load mods.");
            reveal_strlit("Config not loaded");
            reveal_strlit("Not found");
            reveal_strlit("N/A");
            reveal_strlit("Failed to load config");
            reveal_strlit("Stardew Valley not found");
            reveal_strlit("Mods");
        }
        let mut app = App::new();
        app.current_tab = Tab::Mods;
        app.reports_missing_game = true;
        app.push_log(String::from_str("App started. Click Reconcile to load mods."));
        let c = match config {
            Some(c) => c,
            None => {
                app.game_path = String::from_str("Config not loaded");
                app.init_error = String::from_str("Failed to load config");
                return app;
            },
        };
        let descriptor = GameDescriptor::stardew_valley();
        match descriptor.discover_path(&c, existing) {
            Some(gp) => {
                app.mods_path = crate::text::join_path(c.mods_root_path.as_str(), descriptor.registry_id.as_str());
                app.staging_path = crate::text::join_path(c.staging_root_path.as_str(), descriptor.registry_id.as_str());
                app.game_mod_path = crate::text::join_path(gp.as_str(), "Mods");
                app.game_name = copy_string(&descriptor.name);
                let active = ActiveGame::create(GameKind::StardewValley, copy_string(&gp), c);
                app.game_path = gp;
                app.active = Some(active);
            },
            None => {
                app.game_path = String::from_str("Not found");
                app.mods_path = copy_string(&c.mods_root_path);
                app.staging_path = copy_string(&c.staging_root_path);
                app.game_mod_path = String::from_str("N/A");
                app.init_error = String::from_str("Stardew Valley not found");
            },
        }
        app
    }

    /// Appends a line to the log.
    pub fn push_log(&mut self, msg: String)
        ensures
            log_view(final(self).log@) == log_view(old(self).log@).push(msg@),
            final(self).current_tab == old(self).current_tab,
            same_but_log(*final(self), *old(self)),
    {
        let ghost before = self.log@;
        self.log.push(msg);
        assert(log_view(self.log@) =~= log_view(before).push(msg@));
    }

    /// Takes the game chosen by the user, given the configuration when it could be read and
    /// the places found to exist: the game is found at the first of its search paths that exists.
    /// Only a game the application can manage is selected.
    pub fn select_game(&mut self, kind: GameKind, config: Option<Config>, existing: &Vec<String>)
        requires
            manageable(kind),
        ensures
            match config {
                None => log_view(final(self).log@) == log_view(old(self).log@).push("Failed to load config"@)
                    && final(self).current_tab == old(self).current_tab && same_game_shown(*final(self), *old(self))
                    && final(self).mods_tab == old(self).mods_tab && final(self).init_error@ == "Failed to load config"@,
                Some(c) => match c.spec_search_paths(registry_id_of(kind)) {
                    Some(ps) if first_existing(ps, strings_view(existing@)) is Some => {
                        let gp = first_existing(ps, strings_view(existing@))->0;
                        &&& final(self).active matches Some(g) && g.spec_kind() == kind
                            && g.spec_state()@ == Map::<Seq<char>, crate::types::ReconciledModView>::empty()
                        &&& final(self).game_name@ == game_name_of(kind)
                        &&& final(self).game_path@ == gp
                        &&& final(self).mods_path@ == path_join(c.mods_root_path@, registry_id_of(kind))
                        &&& final(self).staging_path@ == path_join(c.staging_root_path@, registry_id_of(kind))
                        &&& final(self).game_mod_path@ == final(self).active->0.spec_game_mod_path()
                        &&& final(self).current_tab == Tab::Mods
                        &&& log_view(final(self).log@) == log_view(old(self).log@).push("Selected game: "@ + game_name_of(kind))
                    },
                    _ => log_view(final(self).log@) == log_view(old(self).log@).push(game_name_of(kind) + " not found"@)
                        && final(self).current_tab == old(self).current_tab && same_game_shown(*final(self), *old(self))
                        && final(self).mods_tab == old(self).mods_tab
                        && final(self).init_error@ == game_name_of(kind) + " not found"@,
                },
            },
    {
        let config = match config {
            Some(c) => c,
            None => {
                self.init_error = String::from_str("Failed to load config");
                self.push_log(String::from_str("Failed to load config"));
                return;
            },
        };
        let descriptor = GameDescriptor::of(kind);
        let game_path = match descriptor.discover_path(&config, existing) {
            Some(p) => p,
            None => {
                self.init_error = concat2(descriptor.name.as_str(), " not found");
                self.push_log(concat2(descriptor.name.as_str(), " not found"));
                return;
            },
        };
        let mods = crate::text::join_path(config.mods_root_path.as_str(), descriptor.registry_id.as_str());
        let staging = crate::text::join_path(config.staging_root_path.as_str(), descriptor.registry_id.as_str());
        let active = ActiveGame::create(kind, copy_string(&game_path), config);
        self.game_name = copy_string(&descriptor.name);
        self.game_path = game_path;
        self.mods_path = mods;
        self.staging_path = staging;
        self.game_mod_path = active.game_mod_path();
        self.active = Some(active);
        self.current_tab = Tab::Mods;
        self.push_log(concat2("Selected game: ", descriptor.name.as_str()));
    }
}

impl App {
    /// Reports that a request on the game cannot be answered because no game is active.
    pub fn log_init_failure(&mut self)
        ensures
            log_view(final(self).log@) == log_view(old(self).log@).push(init_failed_line(*old(self))),
            final(self).current_tab == old(self).current_tab,
            same_but_log(*final(self), *old(self)),
    {
        let line = concat2("Init failed: ", self.init_error.as_str());
        proof {
            reveal_strlit("Init failed: ");
        }
        self.push_log(line);
    }

    /// Answers a request on the game that arrived with no game active: reports it when
    /// this front end does, else leaves the app as it is.
    pub fn answer_without_game(&mut self)
        ensures
            old(self).reports_missing_game ==> log_view(final(self).log@) == log_view(old(self).log@).push(
                init_failed_line(*old(self))) && final(self).current_tab == old(self).current_tab
                && same_but_log(*final(self), *old(self)),
            !old(self).reports_missing_game ==> *final(self) == *old(self),
    {
        if self.reports_missing_game {
            self.log_init_failure();
        }
    }
}

/// What a request on the game that arrived with no game active leaves of the app.
pub open spec fn answered_without_game(before: App, after: App) -> bool {
    if before.reports_missing_game {
        &&& log_view(after.log@) == log_view(before.log@).push(init_failed_line(before))
        &&& after.current_tab == before.current_tab
        &&& same_but_log(after, before)
    } else {
        after == before
    }
}

/// How the per-mod request `message` is answered: with no game, as `answered_without_game`
/// says; else with the command on the mod's entry, or a log line when it has none.
pub open spec fn per_mod_answer(before: App, after: App, message: Message, r: Command) -> bool {
    &&& before.active is None ==> r is Nothing && answered_without_game(before, after)
    &&& before.active is Some ==> after.current_tab == before.current_tab
        && same_but_log(after, before) && match request_entry(before, message) {
        Some(e) => log_view(after.log@) == log_view(before.log@) && command_for(r, message, e),
        None => r is Nothing && log_view(after.log@) == log_view(before.log@).push(
            not_found_line(request_name(message), request_place(message))),
    }
}

/// Answers a request: changes what it can change at once and names the outside work it needs.
pub fn update(app: &mut App, message: Message) -> (r: Command)
    ensures
        message matches Message::TabSelected(t) ==> final(app).current_tab == t && r is Nothing
            && log_view(final(app).log@) == log_view(old(app).log@) && same_but_log(*final(app), *old(app)),
        message matches Message::SelectGame(id) ==> final(app).current_tab == old(app).current_tab
            && log_view(final(app).log@) == log_view(old(app).log@) && same_but_log(*final(app), *old(app))
            && (if id@ == "stardew_valley"@ { r matches Command::LoadGame(k) && k == GameKind::StardewValley } else { r is Nothing }),
        message matches Message::ModsTabSelected(t) ==> final(app).mods_tab == t && r is Nothing
            && final(app).current_tab == old(app).current_tab
            && log_view(final(app).log@) == log_view(old(app).log@) && same_game(*final(app), *old(app)),
        is_bulk(message) ==> (if old(app).active is None {
                r is Nothing && answered_without_game(*old(app), *final(app))
            } else {
                bulk_command(message, r) && log_view(final(app).log@) == log_view(old(app).log@)
                    && final(app).current_tab == old(app).current_tab && same_but_log(*final(app), *old(app))
            }),
        (message is StageMod || message is UnstageMod || message is EnableMod || message is DisableMod)
            ==> per_mod_answer(*old(app), *final(app), message, r),
{
    proof {
        reveal_strlit(" not found in ");
        reveal_strlit("downloads");
        reveal_strlit("staging");
        reveal_strlit("game mods");
        reveal_strlit(" not found in downloads");
        reveal_strlit(" not found in staging");
        reveal_strlit(" not found in game mods");
        assert(" not found in downloads"@ =~= " not found in "@ + "downloads"@);
        assert(" not found in staging"@ =~= " not found in "@ + "staging"@);
        assert(" not found in game mods"@ =~= " not found in "@ + "game mods"@);
    }
    match message {
        Message::TabSelected(tab) => {
            app.current_tab = tab;
            Command::Nothing
        },
        Message::SelectGame(id) => {
            proof {
                reveal_strlit("stardew_valley");
            }
            if str_eq(id.as_str(), "stardew_valley") {
                Command::LoadGame(GameKind::StardewValley)
            } else {
                Command::Nothing
            }
        },
        Message::ModsTabSelected(tab) => {
            app.mods_tab = tab;
            Command::Nothing
        },
        Message::Reconcile => {
            if app.active.is_none() {
                app.answer_without_game();
                Command::Nothing
            } else {
                Command::Reconcile
            }
        },
        Message::StageAll => {
            if app.active.is_none() {
                app.answer_without_game();
                Command::Nothing
            } else {
                Command::StageAll
            }
        },
        Message::EnableAll => {
            if app.active.is_none() {
                app.answer_without_game();
                Command::Nothing
            } else {
                Command::EnableAll
            }
        },
        Message::UnstageAll => {
            if app.active.is_none() {
                app.answer_without_game();
                Command::Nothing
            } else {
                Command::UnstageAll
            }
        },
        Message::DisableAll => {
            if app.active.is_none() {
                app.answer_without_game();
                Command::Nothing
            } else {
                Command::DisableAll
            }
        },
        Message::SyncAll => {
            if app.active.is_none() {
                app.answer_without_game();
                Command::Nothing
            } else {
                Command::SyncAll
            }
        },
        Message::StageMod(name) => {
            let entry = match &app.active {
                None => {
                    app.answer_without_game();
                    return Command::Nothing;
                },
                Some(g) => match g.state().get_mod(name.as_str()) {
                    Some(m) => crate::types::duplicate_opt(&m.source_entry),
                    None => None,
                },
            };
            match entry {
                Some(e) => Command::Stage { name, entry: e },
                None => {
                    app.push_log(concat2(name.as_str(), " not found in downloads"));
                    Command::Nothing
                },
            }
        },
        Message::UnstageMod(name) => {
            let entry = match &app.active {
                None => {
                    app.answer_without_game();
                    return Command::Nothing;
                },
                Some(g) => match g.state().get_mod(name.as_str()) {
                    Some(m) => crate::types::duplicate_opt(&m.staging_entry),
                    None => None,
                },
            };
            match entry {
                Some(e) => Command::Unstage { name, entry: e },
                None => {
                    app.push_log(concat2(name.as_str(), " not found in staging"));
                    Command::Nothing
                },
            }
        },
        Message::EnableMod(name) => {
            let entry = match &app.active {
                None => {
                    app.answer_without_game();
                    return Command::Nothing;
                },
                Some(g) => match g.state().get_mod(name.as_str()) {
                    Some(m) => crate::types::duplicate_opt(&m.staging_entry),
                    None => None,
                },
            };
            match entry {
                Some(e) => Command::Enable { name, entry: e },
                None => {
                    app.push_log(concat2(name.as_str(), " not found in staging"));
                    Command::Nothing
                },
            }
        },
        Message::DisableMod(name) => {
            let entry = match &app.active {
                None => {
                    app.answer_without_game();
                    return Command::Nothing;
                },
                Some(g) => match g.state().get_mod(name.as_str()) {
                    Some(m) => crate::types::duplicate_opt(&m.game_entry),
                    None => None,
                },
            };
            match entry {
                Some(e) => Command::Disable { name, entry: e },
                None => {
                    app.push_log(concat2(name.as_str(), " not found in game mods"));
                    Command::Nothing
                },
            }
        },
    }
}

/// The log line that reports how a command ended, if it reports at all.
pub open spec fn outcome_line(c: Command, ok: bool, err: Seq<char>) -> Option<Seq<char>> {
    match c {
        Command::Reconcile => Some(if ok { "Reconciled mods"@ } else { "Reconcile failed: "@ + err }),
        Command::SyncAll => Some(if ok { "Sync completed"@ } else { "Sync failed: "@ + err }),
        Command::StageAll => Some(if ok { "All mods staged"@ } else { "Stage failed: "@ + err }),
        Command::EnableAll => Some(if ok { "All mods enabled"@ } else { "Enable failed: "@ + err }),
        Command::UnstageAll => Some(if ok { "All mods unstaged"@ } else { "Unstage failed: "@ + err }),
        Command::DisableAll => Some(if ok { "All mods disabled"@ } else { "Disable failed: "@ + err }),
        Command::Stage { name, .. } => Some(if ok { "Staged "@ + name@ } else { "Stage failed: "@ + err }),
        Command::Unstage { name, .. } => Some(if ok { "Unstaged "@ + name@ } else { "Unstage failed: "@ + err }),
        Command::Enable { name, .. } => Some(if ok { "Enabled "@ + name@ } else { "Enable failed: "@ + err }),
        Command::Disable { name, .. } => Some(if ok { "Disabled "@ + name@ } else { "Disable failed: "@ + err }),
        _ => None,
    }
}

/// The message of the error of an outcome, or nothing when it succeeded.
pub open spec fn outcome_error(r: Result<(), ModManagerError>) -> Seq<char> {
    match r {
        Ok(_) => Seq::empty(),
        Err(e) => error_message(e),
    }
}

impl App {
    /// Reports in the log how the outside work of a command ended.
    pub fn finish(&mut self, command: &Command, outcome: Result<(), ModManagerError>)
        ensures
            log_view(final(self).log@) == match outcome_line(*command, outcome is Ok, outcome_error(outcome)) {
                Some(line) => log_view(old(self).log@).push(line),
                None => log_view(old(self).log@),
            },
            final(self).current_tab == old(self).current_tab,
            same_but_log(*final(self), *old(self)),
    {
        let err = match &outcome {
            Ok(_) => String::new(),
            Err(e) => e.message(),
        };
        let ok = outcome.is_ok();
        let line = match command {
            Command::Reconcile => Some(if ok { String::from_str("Reconciled mods") } else { concat2("Reconcile failed: ", err.as_str()) }),
            Command::SyncAll => Some(if ok { String::from_str("Sync completed") } else { concat2("Sync failed: ", err.as_str()) }),
            Command::StageAll => Some(if ok { String::from_str("All mods staged") } else { concat2("Stage failed: ", err.as_str()) }),
            Command::EnableAll => Some(if ok { String::from_str("All mods enabled") } else { concat2("Enable failed: ", err.as_str()) }),
            Command::UnstageAll => Some(if ok { String::from_str("All mods unstaged") } else { concat2("Unstage failed: ", err.as_str()) }),
            Command::DisableAll => Some(if ok { String::from_str("All mods disabled") } else { concat2("Disable failed: ", err.as_str()) }),
            Command::Stage { name, .. } => Some(if ok { concat2("Staged ", name.as_str()) } else { concat2("Stage failed: ", err.as_str()) }),
            Command::Unstage { name, .. } => Some(if ok { concat2("Unstaged ", name.as_str()) } else { concat2("Unstage failed: ", err.as_str()) }),
            Command::Enable { name, .. } => Some(if ok { concat2("Enabled ", name.as_str()) } else { concat2("Enable failed: ", err.as_str()) }),
            Command::Disable { name, .. } => Some(if ok { concat2("Disabled ", name.as_str()) } else { concat2("Disable failed: ", err.as_str()) }),
            _ => None,
        };
        match line {
            Some(l) => self.push_log(l),
            None => {},
        }
    }
}

} // verus!
