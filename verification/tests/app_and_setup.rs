use std::io::{Cursor, Write};

use moda::archive::ExtractAction;
use moda::catalog::SourceMod;
use moda::config::Config;
use moda::error::{IoErrorKind, ModManagerError};
use moda::games::{GameKind, MarvelRivals, StardewValley};
use moda::nexus::{nexus_api_base, u64_to_decimal, NexusClient};
use moda::setup::{setup_download_error, setup_extraction, smapi_platform_candidates, smapi_platform_dir, SetupStart};
use moda::types::{ModEntry, ModEntryKind, ModStatus};
use moda::ui::{action_message, tab_view, update, App, Command, Message, ModsTab, RowAction, Tab};

fn config_with_stardew() -> Config {
    let mut c = Config::load_default_config("/h");
    c.add_game_path("stardew_valley", "/games/SV".to_string());
    c
}

fn app_with_game() -> App {
    let mut app = App::new();
    app.select_game(GameKind::StardewValley, Some(config_with_stardew()), &vec!["/games/SV".to_string()]);
    app
}

#[test]
fn new_app_starts_on_game_selection() {
    let app = App::new();
    assert_eq!(app.current_tab, Tab::GameSelect);
    assert!(app.active.is_none());
    assert!(app.log.is_empty());
}

#[test]
fn selecting_a_game() {
    let app = app_with_game();
    assert_eq!(app.current_tab, Tab::Mods);
    assert_eq!(app.game_name, "Stardew Valley");
    assert_eq!(app.game_path, "/games/SV");
    assert_eq!(app.mods_path, "/h/.moda/mods/stardew_valley");
    assert_eq!(app.staging_path, "/h/.moda/staging/stardew_valley");
    assert_eq!(app.game_mod_path, "/games/SV/Mods");
    assert_eq!(app.log, vec!["Selected game: Stardew Valley".to_string()]);
}

#[test]
fn selecting_a_game_that_cannot_be_found() {
    let mut app = App::new();
    app.select_game(GameKind::StardewValley, Some(config_with_stardew()), &Vec::new());
    assert!(app.active.is_none());
    assert_eq!(app.log, vec!["Stardew Valley not found".to_string()]);
    app.select_game(GameKind::MarvelRivals, None, &Vec::new());
    assert_eq!(app.log.last().unwrap(), "Failed to load config");
    assert_eq!(app.current_tab, Tab::GameSelect);
}

#[test]
fn requests_without_a_game_report_it() {
    let mut app = App::startup(None, &Vec::new());
    assert!(matches!(update(&mut app, Message::Reconcile), Command::Nothing));
    assert!(matches!(update(&mut app, Message::SyncAll), Command::Nothing));
    assert!(matches!(update(&mut app, Message::StageMod("A".into())), Command::Nothing));
    assert_eq!(app.log[1..].to_vec(), vec!["Init failed: Failed to load config".to_string(); 3]);
}

#[test]
fn requests_without_a_game_are_ignored_on_the_selection_front_end() {
    let mut app = App::new();
    assert!(matches!(update(&mut app, Message::Reconcile), Command::Nothing));
    assert!(matches!(update(&mut app, Message::SyncAll), Command::Nothing));
    assert!(matches!(update(&mut app, Message::StageMod("A".into())), Command::Nothing));
    assert!(matches!(update(&mut app, Message::DisableAll), Command::Nothing));
    assert!(app.log.is_empty());
    assert_eq!(app.current_tab, Tab::GameSelect);
    assert!(matches!(update(&mut app, Message::TabSelected(Tab::Downloads)), Command::Nothing));
    assert_eq!(app.current_tab, Tab::Downloads);
    assert!(matches!(update(&mut app, Message::SelectGame("stardew_valley".into())), Command::LoadGame(GameKind::StardewValley)));
    assert!(matches!(update(&mut app, Message::SelectGame("unknown".into())), Command::Nothing));
}

#[test]
fn per_mod_requests_name_their_entry() {
    let mut app = app_with_game();
    let src = SourceMod {
        entry: ModEntry::new("A".into(), "/h/.moda/mods/stardew_valley/A".into(), ModEntryKind::Directory),
        effective_name: "A".into(),
        modified: None,
    };
    app.active.as_mut().unwrap().reconcile(&vec![src], &Vec::new(), &Vec::new());
    assert_eq!(app.active.as_ref().unwrap().state().get_mod("A").unwrap().status, ModStatus::Downloaded);
    match update(&mut app, Message::StageMod("A".into())) {
        Command::Stage { name, entry } => {
            assert_eq!(name, "A");
            assert_eq!(entry.path, "/h/.moda/mods/stardew_valley/A");
        }
        _ => panic!("expected a stage command"),
    }
    assert!(matches!(update(&mut app, Message::EnableMod("A".into())), Command::Nothing));
    assert_eq!(app.log.last().unwrap(), "A not found in staging");
    assert!(matches!(update(&mut app, Message::DisableMod("Z".into())), Command::Nothing));
    assert_eq!(app.log.last().unwrap(), "Z not found in game mods");
    assert!(matches!(update(&mut app, Message::Reconcile), Command::Reconcile));
    assert!(matches!(update(&mut app, Message::SyncAll), Command::SyncAll));
}

#[test]
fn finishing_commands_logs_outcomes() {
    let mut app = app_with_game();
    app.finish(&Command::Reconcile, Ok(()));
    assert_eq!(app.log.last().unwrap(), "Reconciled mods");
    app.finish(&Command::SyncAll, Err(ModManagerError::IoError(IoErrorKind::Other, "disk".into())));
    assert_eq!(app.log.last().unwrap(), "Sync failed: IO error: disk");
    let e = ModEntry::new("A".into(), "/x".into(), ModEntryKind::Directory);
    app.finish(&Command::Stage { name: "A".into(), entry: e }, Ok(()));
    assert_eq!(app.log.last().unwrap(), "Staged A");
    let n = app.log.len();
    app.finish(&Command::Nothing, Ok(()));
    assert_eq!(app.log.len(), n);
}

#[test]
fn decimal_notation() {
    assert_eq!(u64_to_decimal(0), "0");
    assert_eq!(u64_to_decimal(7), "7");
    assert_eq!(u64_to_decimal(1234), "1234");
    assert_eq!(u64_to_decimal(u64::MAX), u64::MAX.to_string());
}

#[test]
fn nexus_requests() {
    assert_eq!(nexus_api_base(None), "https://api.nexusmods.com/v3");
    assert_eq!(nexus_api_base(Some("http://local".into())), "http://local");
    let c = NexusClient::new("KEY".into(), "https://api.nexusmods.com/v3".into());
    assert!(c.has_api_key());
    assert!(!NexusClient::new(String::new(), "b".into()).has_api_key());
    let r = c.get_mod_info("stardewvalley", 2400);
    assert_eq!(r.url, "https://api.nexusmods.com/v3/games/stardewvalley/mods/2400");
    assert_eq!(r.api_key, "KEY");
    let d = c.download_mod("stardewvalley", 2400, 9);
    assert_eq!(d.url, "https://api.nexusmods.com/v3/games/stardewvalley/mods/2400files/9");
    assert_eq!(
        c.search_mods("stardewvalley", "x").unwrap_err(),
        ModManagerError::NexusApiError("Search not yet implemented".into())
    );
    assert_eq!(
        c.get_mod_files("stardewvalley", 1).unwrap_err(),
        ModManagerError::NexusApiError("Get mod files not yet implemented".into())
    );
}

#[test]
fn smapi_setup_start() {
    let sv = StardewValley::new("/games/SV".to_string());
    assert_eq!(sv.smapi_marker(), "/games/SV/SMAPI.Installer.dll");
    assert!(matches!(sv.pre_setup_start(true, None, "/tmp"), SetupStart::AlreadyInstalled));
    match sv.pre_setup_start(false, None, "/tmp") {
        SetupStart::Download { url, temp_dir } => {
            assert_eq!(url, "https://github.com/Pathoschild/SMAPI/releases/download/4.5.2/SMAPI-4.5.2-installer.zip");
            assert_eq!(temp_dir, "/tmp/moda-smapi");
        }
        _ => panic!("expected a download"),
    }
    match sv.pre_setup_start(false, Some("http://mirror/smapi.zip".into()), "/var/tmp") {
        SetupStart::Download { url, temp_dir } => {
            assert_eq!(url, "http://mirror/smapi.zip");
            assert_eq!(temp_dir, "/var/tmp/moda-smapi");
        }
        _ => panic!("expected a download"),
    }
}

#[test]
fn utoc_setup_start() {
    let mr = MarvelRivals::new("/games/MR".to_string());
    assert_eq!(mr.utoc_target_dir(), "/games/MR/MarvelGame/Marvel/Binaries/Win64");
    assert_eq!(
        mr.utoc_marker(),
        "/games/MR/MarvelGame/Marvel/Binaries/Win64/plugins/MarvelRivalsUTOCSignatureBypass.asi"
    );
    match mr.pre_setup_start(false, None, "/tmp") {
        SetupStart::Download { url, temp_dir } => {
            assert_eq!(url, "https://github.com/DeathChaos25/MarvelRivalsUTOCSignatureBypass/releases/download/1.0.0/Marvel.Rivals.UTOC.Signature.Bypass.Patch.zip");
            assert_eq!(temp_dir, "/tmp/moda-marvel-rivals-utoc");
        }
        _ => panic!("expected a download"),
    }
}

#[test]
fn setup_errors_and_platforms() {
    assert_eq!(
        setup_download_error("SMAPI", "timeout"),
        ModManagerError::GameSetupFailed("Failed to download SMAPI: timeout".into())
    );
    let x = setup_extraction(b"garbage".to_vec(), "/tmp/s", "SMAPI");
    assert!(x.actions.is_empty());
    match x.failure {
        Some(ModManagerError::GameSetupFailed(m)) => assert!(m.starts_with("Failed to parse SMAPI archive: ")),
        _ => panic!("expected a setup failure"),
    }
    let c = smapi_platform_candidates("/tmp/s/SMAPI 4.5.2 installer");
    assert_eq!(c[0], "/tmp/s/SMAPI 4.5.2 installer/internal/Linux");
    assert_eq!(c[3], "/tmp/s/SMAPI 4.5.2 installer/internal/linux");
    assert_eq!(
        smapi_platform_dir(None, &Vec::new()),
        Err(ModManagerError::InvalidConfiguration("SMAPI archive missing 'internal' directory".into()))
    );
    let p = "/x".to_string();
    assert_eq!(
        smapi_platform_dir(Some(p.clone()), &vec!["/x/internal/Mono".into(), "/x/internal/linux".into()]),
        Ok("/x/internal/Mono".to_string())
    );
    assert_eq!(
        smapi_platform_dir(Some(p), &Vec::new()),
        Err(ModManagerError::InvalidConfiguration("SMAPI archive missing Linux/Unix/Mono platform directory".into()))
    );
}

#[test]
fn setup_extraction_of_a_real_archive() {
    let mut w = zip::ZipWriter::new(Cursor::new(Vec::new()));
    let opts = zip::write::SimpleFileOptions::default().compression_method(zip::CompressionMethod::Stored);
    w.start_file("SMAPI/internal/linux/install.dat", opts).unwrap();
    w.write_all(b"data").unwrap();
    let bytes = w.finish().unwrap().into_inner();
    let x = setup_extraction(bytes, "/tmp/s", "SMAPI");
    assert!(x.failure.is_none());
    assert!(matches!(&x.actions[1], ExtractAction::WriteFile { index: 0, path } if path == "/tmp/s/SMAPI/internal/linux/install.dat"));
}

#[test]
fn startup_finds_stardew() {
    let app = App::startup(Some(config_with_stardew()), &vec!["/games/SV".to_string()]);
    assert_eq!(app.log, vec!["App started. Click Reconcile to load mods.".to_string()]);
    assert_eq!(app.game_path, "/games/SV");
    assert_eq!(app.game_mod_path, "/games/SV/Mods");
    assert_eq!(app.mods_path, "/h/.moda/mods/stardew_valley");
    assert!(app.active.is_some());
    assert_eq!(app.current_tab, Tab::Mods);
}

#[test]
fn startup_without_game_or_config() {
    let app = App::startup(Some(config_with_stardew()), &Vec::new());
    assert_eq!(app.game_path, "Not found");
    assert_eq!(app.mods_path, "/h/.moda/mods");
    assert_eq!(app.staging_path, "/h/.moda/staging");
    assert_eq!(app.game_mod_path, "N/A");
    assert!(app.active.is_none());
    let none = App::startup(None, &Vec::new());
    assert_eq!(none.game_path, "Config not loaded");
    assert_eq!(none.mods_path, "");
}

#[test]
fn bulk_requests_and_their_outcomes() {
    let mut app = app_with_game();
    assert!(matches!(update(&mut app, Message::StageAll), Command::StageAll));
    assert!(matches!(update(&mut app, Message::EnableAll), Command::EnableAll));
    assert!(matches!(update(&mut app, Message::UnstageAll), Command::UnstageAll));
    assert!(matches!(update(&mut app, Message::DisableAll), Command::DisableAll));
    app.finish(&Command::StageAll, Ok(()));
    assert_eq!(app.log.last().unwrap(), "All mods staged");
    app.finish(&Command::DisableAll, Err(ModManagerError::PathNotFound("/x".into())));
    assert_eq!(app.log.last().unwrap(), "Disable failed: Path not found: /x");
    let mut empty = App::new();
    assert!(matches!(update(&mut empty, Message::UnstageAll), Command::Nothing));
    assert!(matches!(update(&mut empty, Message::ModsTabSelected(ModsTab::Modified)), Command::Nothing));
    assert_eq!(empty.mods_tab, ModsTab::Modified);
}

#[test]
fn tab_views_by_status() {
    let mut app = app_with_game();
    let srcs = vec![
        SourceMod { entry: ModEntry::new("B".into(), "/m/B".into(), ModEntryKind::Directory), effective_name: "B".into(), modified: None },
        SourceMod { entry: ModEntry::new("A".into(), "/m/A".into(), ModEntryKind::Directory), effective_name: "A".into(), modified: None },
    ];
    app.active.as_mut().unwrap().reconcile(&srcs, &Vec::new(), &Vec::new());
    let state = app.active.as_ref().unwrap().state();
    let t = tab_view(state, ModsTab::Downloads);
    assert_eq!(t.title, "Downloads (2)");
    assert_eq!(t.names, vec!["A".to_string(), "B".to_string()]);
    assert_eq!(t.actions, vec![RowAction::Stage]);
    let s = tab_view(state, ModsTab::Staging);
    assert_eq!(s.title, "Staging (0)");
    assert!(s.names.is_empty());
    assert_eq!(s.actions, vec![RowAction::Enable, RowAction::Unstage]);
    assert_eq!(tab_view(state, ModsTab::Modified).actions, vec![RowAction::Restage, RowAction::Disable]);
    assert!(matches!(action_message(RowAction::Restage, "A".into()), Message::StageMod(n) if n == "A"));
    assert!(matches!(action_message(RowAction::Unstage, "A".into()), Message::UnstageMod(n) if n == "A"));
}

#[test]
fn init_failure_reasons() {
    let mut app = App::startup(None, &Vec::new());
    update(&mut app, Message::Reconcile);
    assert_eq!(app.log.last().unwrap(), "Init failed: Failed to load config");
    let mut app = App::startup(Some(config_with_stardew()), &Vec::new());
    update(&mut app, Message::DisableAll);
    assert_eq!(app.log.last().unwrap(), "Init failed: Stardew Valley not found");
    let mut app = App::new();
    app.select_game(GameKind::MarvelRivals, Some(config_with_stardew()), &Vec::new());
    assert_eq!(app.init_error, "Marvel Rivals not found");
    update(&mut app, Message::EnableMod("A".into()));
    assert_eq!(app.log.last().unwrap(), "Marvel Rivals not found");
    app.select_game(GameKind::MarvelRivals, None, &Vec::new());
    assert_eq!(app.init_error, "Failed to load config");
}
