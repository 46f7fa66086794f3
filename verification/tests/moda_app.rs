use moda::browser::DirBrowser;
use moda::config::Config;
use moda::error::{IoErrorKind, ModManagerError};
use moda::games::GameKind;
use moda::games::ModMode;
use moda::mod_state::ModState;
use moda::moda_app::{downloads_rows, mode_label, staging_rows, ManagerTab, ModaApp, Page};
use moda::types::{ModEntry, ModEntryKind, ModStatus, ReconciledMod};
use moda::ui::ActiveGame;

fn app() -> ModaApp {
    ModaApp::new(None, "/home/u", DirBrowser::new(Some("/home/u".to_string())))
}

fn game() -> ActiveGame {
    ActiveGame::create(GameKind::StardewValley, "/games/SV".to_string(), Config::load_default_config("/home/u"))
}

#[test]
fn fallback_configuration() {
    let a = app();
    assert_eq!(a.config.mods_root_path, "/home/u/Mods");
    assert_eq!(a.config.staging_root_path, "/home/u/Mods/.staging");
    assert_eq!(a.page, Page::GameSelection);
    assert_eq!(a.active_tab, ManagerTab::Downloads);
    assert!(a.error.is_none() && a.path_dialog.is_none() && a.active_game.is_none());
    let mut c = Config::load_default_config("/x");
    c.nexus_api_key = "k".into();
    let b = ModaApp::new(Some(c), "/home/u", DirBrowser::new(None));
    assert_eq!(b.config.nexus_api_key, "k");
}

#[test]
fn choosing_a_game_that_is_found() {
    let mut a = app();
    a.config.add_game_path("stardew_valley", "/games/SV".to_string());
    assert_eq!(a.choose_game(GameKind::StardewValley, &vec!["/games/SV".to_string()]), Some("/games/SV".to_string()));
    assert!(a.path_dialog.is_none());
    a.finish_selection(Ok(game()));
    assert_eq!(a.page, Page::ModManager);
    assert!(a.active_game.is_some());
    a.select_tab(ManagerTab::Staging);
    a.back();
    assert_eq!(a.page, Page::GameSelection);
    assert!(a.active_game.is_none());
    assert_eq!(a.active_tab, ManagerTab::Downloads);
}

#[test]
fn failing_selection_shows_error() {
    let mut a = app();
    a.finish_selection(Err(ModManagerError::IoError(IoErrorKind::Other, "denied".into())));
    assert_eq!(a.error, Some("Reconcile failed: IO error: denied".to_string()));
    assert_eq!(a.page, Page::GameSelection);
    a.dismiss_error();
    assert!(a.error.is_none());
}

#[test]
fn dialog_for_a_game_that_is_not_found() {
    let mut a = app();
    assert_eq!(a.choose_game(GameKind::MarvelRivals, &Vec::new()), None);
    assert_eq!(a.path_dialog.as_ref().unwrap().game, GameKind::MarvelRivals);
    a.edit_dialog_path("/not/here".to_string());
    assert_eq!(a.confirm_dialog(false), None);
    assert_eq!(a.error, Some("Path does not exist or is not a directory".to_string()));
    assert!(a.path_dialog.is_some());
    a.browse();
    assert!(a.browser.is_visible());
    a.browser_selected("/games/MR".to_string());
    assert_eq!(a.confirm_dialog(true), Some((GameKind::MarvelRivals, "/games/MR".to_string())));
    assert!(a.path_dialog.is_none());
    a.create_game_and_switch(Ok(game()));
    assert_eq!(a.page, Page::ModManager);
    assert!(a.error.is_none());
}

#[test]
fn dialog_cancel_and_failed_creation() {
    let mut a = app();
    a.choose_game(GameKind::MadMax, &Vec::new());
    a.cancel_dialog();
    assert!(a.path_dialog.is_none());
    assert_eq!(a.confirm_dialog(true), None);
    a.create_game_and_switch(Err(ModManagerError::GameNotFound("x".into())));
    assert_eq!(a.error, Some("Failed to initialize game: Game not found: x".to_string()));
    assert_eq!(a.page, Page::GameSelection);
}

fn record(name: &str, status: ModStatus, src: bool, stg: bool, game: bool) -> ReconciledMod {
    let e = |p: &str| ModEntry::new(name.to_string(), format!("{}/{}", p, name), ModEntryKind::Directory);
    ReconciledMod {
        name: name.to_string(),
        status,
        source_entry: if src { Some(e("/mods")) } else { None },
        staging_entry: if stg { Some(e("/staging")) } else { None },
        game_entry: if game { Some(e("/game")) } else { None },
        register_id: "stardew_valley".to_string(),
    }
}

#[test]
fn downloads_and_staging_rows() {
    let s = ModState::new(vec![
        record("A", ModStatus::Downloaded, true, false, false),
        record("B", ModStatus::Downloaded, false, false, false),
        record("C", ModStatus::Modified, true, true, true),
        record("D", ModStatus::Staged, true, true, false),
        record("E", ModStatus::Enabled, true, false, true),
    ]);
    let d = downloads_rows(&s);
    assert_eq!(d.iter().map(|r| r.name.clone()).collect::<Vec<_>>(), vec!["A", "C"]);
    assert_eq!(d[0].stage.path, "/mods/A");
    let st = staging_rows(&s);
    assert_eq!(st.iter().map(|r| r.name.clone()).collect::<Vec<_>>(), vec!["C", "D", "E"]);
    assert!(st[0].enable.is_none());
    assert_eq!(st[0].disable.as_ref().unwrap().path, "/game/C");
    assert_eq!(st[0].unstage.as_ref().unwrap().path, "/staging/C");
    assert_eq!(st[1].enable.as_ref().unwrap().path, "/staging/D");
    assert!(st[1].disable.is_none());
    assert_eq!(st[2].unstage.as_ref().unwrap().path, "/game/E");
    assert_eq!(mode_label(ModMode::DirectCopy), "Direct Copy");
}

#[test]
fn operation_outcomes() {
    let mut a = app();
    assert!(a.action_finished("Stage", Ok(())));
    assert!(a.error.is_none());
    assert!(!a.action_finished("Enable", Err(ModManagerError::IoError(IoErrorKind::Other, "x".into()))));
    assert_eq!(a.error, Some("Enable failed: IO error: x".to_string()));
    a.sync_finished(Err(ModManagerError::InvalidMod("m".into())));
    assert_eq!(a.error, Some("Sync failed: Invalid mod: m".to_string()));
    a.reconcile_finished(Err(ModManagerError::IoError(IoErrorKind::Other, "y".into())), true);
    assert_eq!(a.error, Some("Re-reconcile failed: IO error: y".to_string()));
    a.reconcile_finished(Err(ModManagerError::IoError(IoErrorKind::Other, "z".into())), false);
    assert_eq!(a.error, Some("Reconcile failed: IO error: z".to_string()));
}
