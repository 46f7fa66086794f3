//! The windowed front end's state: which page is shown, the dialog that asks for a
//! game's path, the error on display, and the game being managed.
use vstd::prelude::*;
use vstd::string::*;
use crate::browser::DirBrowser;
use crate::config::Config;
use crate::error::{error_message, ModManagerError};
use crate::games::{first_existing, registry_id_of, GameDescriptor, GameKind};
use crate::staging::opt_view;
use crate::text::{concat2, strings_view};
use crate::games::ModMode;
use crate::mod_state::{record_views, ModState};
use crate::text::concat3;
use crate::types::{duplicate_opt, entry_opt_view, ModEntry, ModEntryKind, ModEntryView, ModStatus, ReconciledModView};
use crate::ui::ActiveGame;

verus! {

/// The pages of the windowed front end.
#[derive(Debug, Clone, Copy, PartialEq, Eq, Structural)]
pub enum Page {
    GameSelection,
    ModManager,
}

/// The tabs of the mod manager page.
#[derive(Debug, Clone, Copy, PartialEq, Eq, Structural)]
pub enum ManagerTab {
    Downloads,
    Staging,
}

/// The dialog that asks where a game that could not be found is installed.
pub struct PathDialogState {
    pub game: GameKind,
    pub path: String,
}

/// The state of the windowed front end.
pub struct ModaApp {
    pub config: Config,
    pub page: Page,
    pub error: Option<String>,
    pub path_dialog: Option<PathDialogState>,
    pub browser: DirBrowser,
    pub active_game: Option<ActiveGame>,
    pub active_tab: ManagerTab,
}

/// The configuration used when none could be read: mods under `home/Mods`, staged
/// copies under `home/Mods/.staging`.
pub open spec fn is_fallback_config(c: Config, home: Seq<char>) -> bool {
    &&& c.nexus_api_key@ == Seq::<char>::empty()
    &&& c.mods_root_path@ == home + "/Mods"@
    &&& c.staging_root_path@ == home + "/Mods/.staging"@
    &&& c.game_search_paths@.len() == 0
    &&& c.actual_config_path@ == crate::text::path_join(
        crate::text::path_join(crate::text::path_join(home, ".config"@), "moda"@),
        "config.toml"@,
    )
}

/// The message of a dialog path that is no directory.
pub open spec fn not_a_directory_message() -> Seq<char> {
    "Path does not exist or is not a directory"@
}

/// The front end is the same but for its page, game and error.
pub open spec fn same_dialog_and_tab(a: ModaApp, b: ModaApp) -> bool {
    &&& a.config == b.config
    &&& a.path_dialog == b.path_dialog
    &&& a.active_tab == b.active_tab
    &&& a.browser == b.browser
}

/// A row of the downloads tab: the mod, the kind of its download, and the download
/// that its Stage button stages.
pub struct DownloadRow {
    pub name: String,
    pub kind: ModEntryKind,
    pub stage: ModEntry,
}

/// The mathematical content of a `DownloadRow`.
pub struct DownloadRowView {
    pub name: Seq<char>,
    pub kind: ModEntryKind,
    pub stage: ModEntryView,
}

impl View for DownloadRow {
    type V = DownloadRowView;

    open spec fn view(&self) -> DownloadRowView {
        DownloadRowView { name: self.name@, kind: self.kind, stage: self.stage@ }
    }
}

/// A row of the staging tab: the mod, its status, and the entry that each of its
/// buttons acts on (`None` where the button is not shown).
pub struct StagingRow {
    pub name: String,
    pub status: ModStatus,
    pub enable: Option<ModEntry>,
    pub disable: Option<ModEntry>,
    pub unstage: Option<ModEntry>,
}

/// The mathematical content of a `StagingRow`.
pub struct StagingRowView {
    pub name: Seq<char>,
    pub status: ModStatus,
    pub enable: Option<ModEntryView>,
    pub disable: Option<ModEntryView>,
    pub unstage: Option<ModEntryView>,
}

impl View for StagingRow {
    type V = StagingRowView;

    open spec fn view(&self) -> StagingRowView {
        StagingRowView {
            name: self.name@,
            status: self.status,
            enable: entry_opt_view(self.enable),
            disable: entry_opt_view(self.disable),
            unstage: entry_opt_view(self.unstage),
        }
    }
}

/// The row that the downloads tab shows for a record, if any: a mod that is downloaded,
/// or modified, and has a download.
pub open spec fn download_row_of(m: ReconciledModView) -> Option<DownloadRowView> {
    if m.status == ModStatus::Downloaded || m.status == ModStatus::Modified {
        match m.source_entry {
            Some(e) => Some(DownloadRowView { name: m.name, kind: e.kind, stage: e }),
            None => None,
        }
    } else {
        None
    }
}

/// The row that the staging tab shows for a record, if any: a mod that is staged,
/// enabled or modified. Enable acts on the staged copy of a staged mod; Disable on the
/// game link of an enabled or modified mod; Unstage on the staged copy, else the link.
pub open spec fn staging_row_of(m: ReconciledModView) -> Option<StagingRowView> {
    if m.status == ModStatus::Staged || m.status == ModStatus::Enabled || m.status == ModStatus::Modified {
        Some(StagingRowView {
            name: m.name,
            status: m.status,
            enable: if m.status == ModStatus::Staged { m.staging_entry } else { None },
            disable: if m.status == ModStatus::Enabled || m.status == ModStatus::Modified { m.game_entry } else { None },
            unstage: if m.staging_entry is Some { m.staging_entry } else { m.game_entry },
        })
    } else {
        None
    }
}

/// The rows of the downloads tab for records `s`, in their order.
pub open spec fn download_rows_of(s: Seq<ReconciledModView>) -> Seq<DownloadRowView>
    decreases s.len(),
{
    if s.len() == 0 {
        Seq::empty()
    } else {
        let rest = download_rows_of(s.drop_last());
        match download_row_of(s.last()) {
            Some(r) => rest.push(r),
            None => rest,
        }
    }
}

/// The rows of the staging tab for records `s`, in their order.
pub open spec fn staging_rows_of(s: Seq<ReconciledModView>) -> Seq<StagingRowView>
    decreases s.len(),
{
    if s.len() == 0 {
        Seq::empty()
    } else {
        let rest = staging_rows_of(s.drop_last());
        match staging_row_of(s.last()) {
            Some(r) => rest.push(r),
            None => rest,
        }
    }
}

/// The rows of the downloads tab, in order of name.
pub fn downloads_rows(state: &ModState) -> (r: Vec<DownloadRow>)
    ensures
        r@.map_values(|x: DownloadRow| x@) == download_rows_of(state.listing()),
{
    let mods = state.get_mods();
    let ghost s = record_views(mods@);
    let mut out: Vec<DownloadRow> = Vec::new();
    let mut i: usize = 0;
    while i < mods.len()
        invariant
            i <= mods@.len(),
            s == record_views(mods@),
            out@.map_values(|x: DownloadRow| x@) == download_rows_of(s.take(i as int)),
        decreases mods@.len() - i,
    {
        let m = &mods[i];
        let ghost before = out@.map_values(|x: DownloadRow| x@);
        if m.status == ModStatus::Downloaded || m.status == ModStatus::Modified {
            match &m.source_entry {
                Some(e) => {
                    out.push(DownloadRow { name: crate::text::copy_string(&m.name), kind: e.kind, stage: e.duplicate() });
                },
                None => {},
            }
        }
        proof {
            let t = s.take(i + 1);
            assert(t.drop_last() =~= s.take(i as int));
            assert(t.last() == mods@[i as int]@);
            match download_row_of(mods@[i as int]@) {
                Some(x) => {
                    assert(out@.map_values(|x: DownloadRow| x@) =~= before.push(x));
                },
                None => {
                    assert(out@.map_values(|x: DownloadRow| x@) =~= before);
                },
            }
        }
        i = i + 1;
    }
    assert(s.take(s.len() as int) =~= s);
    out
}

/// The rows of the staging tab, in order of name.
pub fn staging_rows(state: &ModState) -> (r: Vec<StagingRow>)
    ensures
        r@.map_values(|x: StagingRow| x@) == staging_rows_of(state.listing()),
{
    let mods = state.get_mods();
    let ghost s = record_views(mods@);
    let mut out: Vec<StagingRow> = Vec::new();
    let mut i: usize = 0;
    while i < mods.len()
        invariant
            i <= mods@.len(),
            s == record_views(mods@),
            out@.map_values(|x: StagingRow| x@) == staging_rows_of(s.take(i as int)),
        decreases mods@.len() - i,
    {
        let m = &mods[i];
        let ghost before = out@.map_values(|x: StagingRow| x@);
        if m.status == ModStatus::Staged || m.status == ModStatus::Enabled || m.status == ModStatus::Modified {
            let enable = if m.status == ModStatus::Staged { duplicate_opt(&m.staging_entry) } else { None };
            let disable = if m.status == ModStatus::Enabled || m.status == ModStatus::Modified {
                duplicate_opt(&m.game_entry)
            } else {
                None
            };
            let unstage = if m.staging_entry.is_some() { duplicate_opt(&m.staging_entry) } else { duplicate_opt(&m.game_entry) };
            out.push(StagingRow { name: crate::text::copy_string(&m.name), status: m.status, enable, disable, unstage });
        }
        proof {
            let t = s.take(i + 1);
            assert(t.drop_last() =~= s.take(i as int));
            assert(t.last() == mods@[i as int]@);
            match staging_row_of(mods@[i as int]@) {
                Some(x) => {
                    assert(out@.map_values(|x: StagingRow| x@) =~= before.push(x));
                },
                None => {
                    assert(out@.map_values(|x: StagingRow| x@) =~= before);
                },
            }
        }
        i = i + 1;
    }
    assert(s.take(s.len() as int) =~= s);
    out
}

/// The label under which the staging tab shows how the game takes its mods.
pub fn mode_label(mode: ModMode) -> (r: &'static str)
    ensures
        r@ == match mode {
            ModMode::Symlink => "Symlink"@,
            ModMode::Pak => "Pak"@,
            ModMode::DirectCopy => "Direct Copy"@,
        },
{
    match mode {
        ModMode::Symlink => "Symlink",
        ModMode::Pak => "Pak",
        ModMode::DirectCopy => "Direct Copy",
    }
}

impl ModaApp {
    /// The front end as it starts: on the game selection, with the configuration that
    /// could be read (`loaded`) or else the fallback one under `home`, and `browser`.
    pub fn new(loaded: Option<Config>, home: &str, browser: DirBrowser) -> (r: ModaApp)
        ensures
            match loaded {
                Some(c) => r.config == c,
                None => is_fallback_config(r.config, home@),
            },
            r.page == Page::GameSelection,
            r.error is None,
            r.path_dialog is None,
            r.active_game is None,
            r.active_tab == ManagerTab::Downloads,
            r.browser == browser,
    {
        let config = match loaded {
            Some(c) => c,
            None => {
                proof {
                    reveal_strlit("/Mods");
                    reveal_strlit("/Mods/.staging");
                }
                Config {
                    nexus_api_key: String::new(),
                    mods_root_path: concat2(home, "/Mods"),
                    staging_root_path: concat2(home, "/Mods/.staging"),
                    game_search_paths: Vec::new(),
                    actual_config_path: Config::config_file_path(home),
                }
            },
        };
        ModaApp {
            config,
            page: Page::GameSelection,
            error: None,
            path_dialog: None,
            browser,
            active_game: None,
            active_tab: ManagerTab::Downloads,
        }
    }

    /// Goes back to the game selection, leaving the game.
    pub fn back(&mut self)
        ensures
            final(self).page == Page::GameSelection,
            final(self).active_game is None,
            final(self).active_tab == ManagerTab::Downloads,
            final(self).error == old(self).error,
            final(self).config == old(self).config,
            final(self).path_dialog == old(self).path_dialog,
            final(self).browser == old(self).browser,
    {
        self.page = Page::GameSelection;
        self.active_game = None;
        self.active_tab = ManagerTab::Downloads;
    }

    /// Shows a tab of the mod manager page.
    pub fn select_tab(&mut self, tab: ManagerTab)
        ensures
            final(self).active_tab == tab,
            final(self).page == old(self).page,
            final(self).error == old(self).error,
            final(self).active_game == old(self).active_game,
            final(self).config == old(self).config,
            final(self).path_dialog == old(self).path_dialog,
            final(self).browser == old(self).browser,
    {
        self.active_tab = tab;
    }

    /// The user picked a game: where it is found (the first of its search paths among
    /// `existing`), the path to build it at is given back; where it is not, the dialog
    /// asking for its path opens.
    pub fn choose_game(&mut self, kind: GameKind, existing: &Vec<String>) -> (r: Option<String>)
        ensures
            ({
                let found = match old(self).config.spec_search_paths(registry_id_of(kind)) {
                    Some(ps) => first_existing(ps, strings_view(existing@)),
                    None => None,
                };
                &&& opt_view(r) == found
                &&& found is Some ==> final(self).path_dialog == old(self).path_dialog
                &&& found is None ==> (final(self).path_dialog matches Some(d) && d.game == kind && d.path@.len() == 0)
            }),
            final(self).page == old(self).page,
            final(self).error == old(self).error,
            final(self).active_game == old(self).active_game,
            final(self).config == old(self).config,
            final(self).active_tab == old(self).active_tab,
            final(self).browser == old(self).browser,
    {
        let d = GameDescriptor::of(kind);
        match d.discover_path(&self.config, existing) {
            Some(p) => Some(p),
            None => {
                self.path_dialog = Some(PathDialogState { game: kind, path: String::new() });
                None
            },
        }
    }

    /// Takes the game built and reconciled at the path found for it: it becomes the
    /// game being managed, or its error is shown.
    pub fn finish_selection(&mut self, outcome: Result<ActiveGame, ModManagerError>)
        ensures
            match outcome {
                Ok(g) => final(self).active_game == Some(g) && final(self).page == Page::ModManager
                    && final(self).error == old(self).error,
                Err(e) => final(self).error matches Some(m) && m@ == "Reconcile failed: "@ + error_message(e)
                    && final(self).active_game == old(self).active_game && final(self).page == old(self).page,
            },
            same_dialog_and_tab(*final(self), *old(self)),
    {
        match outcome {
            Ok(g) => {
                self.active_game = Some(g);
                self.page = Page::ModManager;
            },
            Err(e) => {
                let m = e.message();
                self.error = Some(concat2("Reconcile failed: ", m.as_str()));
            },
        }
    }

    /// Takes the game built and reconciled at the path given in the dialog: it becomes
    /// the game being managed and the error is cleared, or its error is shown.
    pub fn create_game_and_switch(&mut self, outcome: Result<ActiveGame, ModManagerError>)
        ensures
            match outcome {
                Ok(g) => final(self).active_game == Some(g) && final(self).page == Page::ModManager
                    && final(self).error is None,
                Err(e) => final(self).error matches Some(m) && m@ == "Failed to initialize game: "@ + error_message(e)
                    && final(self).active_game == old(self).active_game && final(self).page == old(self).page,
            },
            same_dialog_and_tab(*final(self), *old(self)),
    {
        match outcome {
            Ok(g) => {
                self.active_game = Some(g);
                self.page = Page::ModManager;
                self.error = None;
            },
            Err(e) => {
                let m = e.message();
                self.error = Some(concat2("Failed to initialize game: ", m.as_str()));
            },
        }
    }

    /// Changes the path typed in the dialog, when it is open.
    pub fn edit_dialog_path(&mut self, path: String)
        ensures
            match old(self).path_dialog {
                Some(d) => final(self).path_dialog matches Some(n) && n.game == d.game && n.path == path,
                None => final(self).path_dialog is None,
            },
            final(self).page == old(self).page,
            final(self).error == old(self).error,
            final(self).active_game == old(self).active_game,
            final(self).config == old(self).config,
            final(self).active_tab == old(self).active_tab,
            final(self).browser == old(self).browser,
    {
        let game = match &self.path_dialog {
            Some(d) => d.game,
            None => {
                return;
            },
        };
        self.path_dialog = Some(PathDialogState { game, path });
    }

    /// The user confirmed the dialog: when its path is a directory the dialog closes and
    /// the game and path to build are given back; otherwise the error says so.
    pub fn confirm_dialog(&mut self, path_is_dir: bool) -> (r: Option<(GameKind, String)>)
        ensures
            match old(self).path_dialog {
                None => r is None && final(self).path_dialog is None && final(self).error == old(self).error,
                Some(d) => if path_is_dir {
                    r matches Some(x) && x.0 == d.game && x.1 == d.path && final(self).path_dialog is None
                        && final(self).error == old(self).error
                } else {
                    r is None && final(self).path_dialog == old(self).path_dialog
                        && (final(self).error matches Some(m) && m@ == not_a_directory_message())
                },
            },
            final(self).page == old(self).page,
            final(self).active_game == old(self).active_game,
            final(self).config == old(self).config,
            final(self).active_tab == old(self).active_tab,
            final(self).browser == old(self).browser,
    {
        if self.path_dialog.is_none() {
            return None;
        }
        if !path_is_dir {
            proof {
                reveal_strlit("Path does not exist or is not a directory");
            }
            self.error = Some("Path does not exist or is not a directory".to_string());
            return None;
        }
        let mut taken: Option<PathDialogState> = None;
        std::mem::swap(&mut taken, &mut self.path_dialog);
        match taken {
            Some(d) => Some((d.game, d.path)),
            None => None,
        }
    }

    /// The user cancelled the dialog: it closes.
    pub fn cancel_dialog(&mut self)
        ensures
            final(self).path_dialog is None,
            final(self).page == old(self).page,
            final(self).error == old(self).error,
            final(self).active_game == old(self).active_game,
            final(self).config == old(self).config,
            final(self).active_tab == old(self).active_tab,
            final(self).browser == old(self).browser,
    {
        self.path_dialog = None;
    }

    /// The user asked to browse for the path: the browser shows.
    pub fn browse(&mut self)
        ensures
            final(self).browser.spec_visible(),
            final(self).browser.spec_current_dir() == old(self).browser.spec_current_dir(),
            final(self).browser.spec_entries() == old(self).browser.spec_entries(),
            final(self).page == old(self).page,
            final(self).error == old(self).error,
            final(self).active_game == old(self).active_game,
            final(self).path_dialog == old(self).path_dialog,
    {
        self.browser.set_visible(true);
    }

    /// The browser chose a directory: it becomes the dialog's path, when the dialog is open.
    pub fn browser_selected(&mut self, path: String)
        ensures
            match old(self).path_dialog {
                Some(d) => final(self).path_dialog matches Some(n) && n.game == d.game && n.path == path,
                None => final(self).path_dialog is None,
            },
            final(self).page == old(self).page,
            final(self).error == old(self).error,
            final(self).active_game == old(self).active_game,
    {
        self.edit_dialog_path(path);
    }

    /// A mod operation named `verb` (`Stage`, `Enable`, `Disable` or `Unstage`) ended:
    /// its error is shown; says whether the state is to be reconciled again, which it
    /// is after a success.
    pub fn action_finished(&mut self, verb: &str, outcome: Result<(), ModManagerError>) -> (reconcile: bool)
        ensures
            reconcile == outcome is Ok,
            match outcome {
                Ok(_) => final(self).error == old(self).error,
                Err(e) => final(self).error matches Some(m) && m@ == verb@ + " failed: "@ + error_message(e),
            },
            final(self).page == old(self).page,
            final(self).active_game == old(self).active_game,
            final(self).path_dialog == old(self).path_dialog,
            final(self).active_tab == old(self).active_tab,
    {
        match outcome {
            Ok(_) => true,
            Err(e) => {
                let m = e.message();
                proof {
                    reveal_strlit(" failed: ");
                }
                self.error = Some(concat3(verb, " failed: ", m.as_str()));
                false
            },
        }
    }

    /// A sync of all mods ended: its error is shown. The state is reconciled again in
    /// any case.
    pub fn sync_finished(&mut self, outcome: Result<(), ModManagerError>)
        ensures
            match outcome {
                Ok(_) => final(self).error == old(self).error,
                Err(e) => final(self).error matches Some(m) && m@ == "Sync failed: "@ + error_message(e),
            },
            final(self).page == old(self).page,
            final(self).active_game == old(self).active_game,
            final(self).path_dialog == old(self).path_dialog,
            final(self).active_tab == old(self).active_tab,
    {
        match outcome {
            Ok(_) => {},
            Err(e) => {
                let m = e.message();
                self.error = Some(concat2("Sync failed: ", m.as_str()));
            },
        }
    }

    /// A reconcile ended: its error is shown, as a failed reconcile when the user asked
    /// for it, or as a failed re-reconcile when it followed another operation.
    pub fn reconcile_finished(&mut self, outcome: Result<(), ModManagerError>, after_operation: bool)
        ensures
            match outcome {
                Ok(_) => final(self).error == old(self).error,
                Err(e) => final(self).error matches Some(m) && m@ == (if after_operation {
                    "Re-reconcile failed: "@
                } else {
                    "Reconcile failed: "@
                }) + error_message(e),
            },
            final(self).page == old(self).page,
            final(self).active_game == old(self).active_game,
            final(self).path_dialog == old(self).path_dialog,
            final(self).active_tab == old(self).active_tab,
    {
        match outcome {
            Ok(_) => {},
            Err(e) => {
                let m = e.message();
                let head = if after_operation { "Re-reconcile failed: " } else { "Reconcile failed: " };
                self.error = Some(concat2(head, m.as_str()));
            },
        }
    }

    /// The user dismissed the error.
    pub fn dismiss_error(&mut self)
        ensures
            final(self).error is None,
            final(self).page == old(self).page,
            final(self).active_game == old(self).active_game,
            final(self).path_dialog == old(self).path_dialog,
    {
        self.error = None;
    }
}

} // verus!
