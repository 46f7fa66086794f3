use moda::catalog::{Catalog, DirEntryInfo, SourceMod, StagedMod};
use moda::config::{Config, GameSearchPaths};
use moda::error::ModManagerError;
use moda::games::{registered_games, Game, GameDescriptor, GameKind, MadMax, MarvelRivals, ModMode, StardewValley};
use moda::registry::ModRegistry;
use moda::types::{ModEntry, ModEntryKind, ModStatus};

fn config() -> Config {
    let mut c = Config::load_default_config("/home/u");
    c.add_game_path("stardew_valley", "/nope/Stardew".to_string());
    c.add_game_path("stardew_valley", "/games/Stardew".to_string());
    c
}

fn dir_entry(name: &str, is_dir: bool, is_symlink: bool) -> DirEntryInfo {
    DirEntryInfo { name: name.to_string(), path: format!("/d/{}", name), is_dir, is_symlink }
}

#[test]
fn default_config_under_home() {
    let c = Config::load_default_config("/home/u");
    assert_eq!(c.nexus_api_key, "");
    assert_eq!(c.mods_root_path, "/home/u/.moda/mods");
    assert_eq!(c.staging_root_path, "/home/u/.moda/staging");
    assert!(c.game_search_paths.is_empty());
    assert_eq!(c.actual_config_path, "/home/u/.config/moda/config.toml");
    assert_eq!(Config::config_file_path("/home/u"), "/home/u/.config/moda/config.toml");
}

#[test]
fn config_new_prefers_what_was_read() {
    let read = config();
    let c = Config::new("/home/u", Some(read));
    assert_eq!(c.game_search_paths.len(), 1);
    let d = Config::new("/root", None);
    assert_eq!(d.mods_root_path, "/root/.moda/mods");
}

#[test]
fn add_game_path_appends_per_game() {
    let mut c = config();
    assert_eq!(c.search_paths("stardew_valley"), Some(vec!["/nope/Stardew".to_string(), "/games/Stardew".to_string()]));
    assert_eq!(c.search_paths("mad_max"), None);
    c.add_game_path("mad_max", "/games/MadMax".to_string());
    assert_eq!(c.search_paths("mad_max"), Some(vec!["/games/MadMax".to_string()]));
    assert_eq!(c.search_paths("stardew_valley").unwrap().len(), 2);
    assert_eq!(c.mods_root_path, "/home/u/.moda/mods");
}

#[test]
fn config_with_duplicate_game_entries_uses_the_first() {
    let mut c = Config::load_default_config("/h");
    c.game_search_paths.push(GameSearchPaths { game: "g".into(), paths: vec!["/a".into()] });
    c.game_search_paths.push(GameSearchPaths { game: "g".into(), paths: vec!["/b".into()] });
    assert_eq!(c.search_paths("g"), Some(vec!["/a".to_string()]));
}

#[test]
fn descriptors_of_games() {
    let d = GameDescriptor::stardew_valley();
    assert_eq!(d.name, "Stardew Valley");
    assert_eq!(d.registry_id, "stardew_valley");
    assert_eq!(GameDescriptor::marvel_rivals().registry_id, "marvel_rivals");
    assert_eq!(GameDescriptor::mad_max().name, "Mad Max: Fury Road");
    assert_eq!(GameDescriptor::of(GameKind::MadMax).registry_id, "mad_max");
    let games = registered_games();
    assert_eq!(games.len(), 2);
    assert_eq!(games[0].registry_id, "stardew_valley");
    assert_eq!(games[1].registry_id, "mad_max");
}

#[test]
fn discover_path_takes_first_existing() {
    let c = config();
    let d = GameDescriptor::stardew_valley();
    assert_eq!(d.discover_path(&c, &vec!["/games/Stardew".to_string()]), Some("/games/Stardew".to_string()));
    assert_eq!(
        d.discover_path(&c, &vec!["/games/Stardew".to_string(), "/nope/Stardew".to_string()]),
        Some("/nope/Stardew".to_string())
    );
    assert_eq!(d.discover_path(&c, &Vec::new()), None);
    assert_eq!(GameDescriptor::mad_max().discover_path(&c, &vec!["/games/Stardew".to_string()]), None);
}

#[test]
fn game_mod_paths() {
    let sv = StardewValley::new("/games/Stardew".to_string());
    assert_eq!(sv.game_mod_path(), "/games/Stardew/Mods");
    assert!(matches!(sv.mod_mode(), ModMode::Symlink));
    let mr = MarvelRivals::new("/games/MR".to_string());
    assert_eq!(mr.game_mod_path(), "/games/MR/MarvelGame/Marvel/Content/Paks/~mods");
    let mut mm = MadMax::new("/games/MM".to_string());
    assert_eq!(mm.game_mod_path(), "/games/MM");
    mm.set_game_path("/other".to_string());
    assert_eq!(mm.game_path(), "/other");
    assert_eq!(mm.descriptor().registry_id, "mad_max");
}

#[test]
fn listing_folders() {
    let listing = vec![
        dir_entry("A.zip", false, false),
        dir_entry("B", true, false),
        dir_entry("readme.txt", false, false),
        dir_entry(".zip", false, false),
        dir_entry("L", false, true),
    ];
    let mods = Catalog::list_folder(&listing);
    let got: Vec<(String, ModEntryKind)> = mods.iter().map(|m| (m.name.clone(), m.kind)).collect();
    assert_eq!(got, vec![("A.zip".to_string(), ModEntryKind::ZipArchive), ("B".to_string(), ModEntryKind::Directory)]);
    let game = Catalog::list_game_mods_folder(&listing);
    assert_eq!(game.len(), 1);
    assert_eq!(game[0].name, "L");
}

fn src(name: &str, modified: Option<i128>) -> SourceMod {
    SourceMod {
        entry: ModEntry::new(name.into(), format!("/mods/{}", name), ModEntryKind::Directory),
        effective_name: name.to_string(),
        modified,
    }
}

fn stg(name: &str, modified: Option<i128>) -> StagedMod {
    StagedMod { entry: ModEntry::new(name.into(), format!("/staging/{}", name), ModEntryKind::Directory), modified }
}

#[test]
fn reconcile_classifies_each_mod() {
    let cat = Catalog::new(config(), "stardew_valley");
    assert_eq!(cat.mods_folder(), "/home/u/.moda/mods/stardew_valley");
    assert_eq!(cat.staging_folder(), "/home/u/.moda/staging/stardew_valley");
    let source = vec![src("Down", None), src("Mod", Some(20)), src("Same", Some(5)), src("On", Some(1))];
    let staged = vec![stg("Mod", Some(10)), stg("Same", Some(5)), stg("On", Some(2)), stg("Orphan", None)];
    let enabled = vec![ModEntry::new("On".into(), "/g/On".into(), ModEntryKind::Directory)];
    let state = cat.reconcile(&source, &staged, &enabled);
    let status = |n: &str| state.get_mod(n).unwrap().status;
    assert_eq!(status("Down"), ModStatus::Downloaded);
    assert_eq!(status("Mod"), ModStatus::Modified);
    assert_eq!(status("Same"), ModStatus::Staged);
    assert_eq!(status("On"), ModStatus::Enabled);
    assert_eq!(status("Orphan"), ModStatus::Staged);
    assert_eq!(state.get_mods().len(), 5);
    assert_eq!(state.get_mod("On").unwrap().register_id, "stardew_valley");
}

#[test]
fn registry_finds_mods_by_name() {
    let sv = StardewValley::new("/games/Stardew".to_string());
    let reg = ModRegistry::new(config(), &sv);
    assert_eq!(reg.get_mod_path(), "/home/u/.moda/mods/stardew_valley");
    assert_eq!(reg.get_staging_path(), "/home/u/.moda/staging/stardew_valley");
    let listing = Some(vec![dir_entry("notes.txt", false, false), dir_entry("A.zip", false, false), dir_entry("B", true, false)]);
    let a = reg.get_mod_by_name(&listing, "A.zip").unwrap();
    assert_eq!(a.kind, ModEntryKind::ZipArchive);
    assert_eq!(reg.get_staged_mod_by_name(&listing, "B").unwrap().path, "/d/B");
    assert!(matches!(reg.get_mod_by_name(&listing, "notes.txt"), Err(ModManagerError::ModNotFound(n)) if n == "notes.txt"));
    assert!(matches!(reg.get_mod_by_name(&None, "B"), Err(ModManagerError::ModNotFound(n)) if n == "B"));
    let game = reg.list_game_mods_folder(&vec![dir_entry("D", true, false), dir_entry("L", false, true), dir_entry("f", false, false)]);
    assert_eq!(game.len(), 2);
    assert_eq!(reg.list_mods_folder(&vec![dir_entry("B", true, false)]).len(), 1);
    assert_eq!(reg.list_staging_folder(&Vec::new()).len(), 0);
    let st = reg.reconcile(&vec![src("X", None)], &Vec::new(), &Vec::new());
    assert_eq!(st.get_mod("X").unwrap().status, ModStatus::Downloaded);
}
