use moda::catalog::DirEntryInfo;
use moda::config::Config;
use moda::folder_sync::{can_sync_in_one_pass, PassStep, SyncManager};
use moda::archive::{RarStager, ZipStager};
use moda::games::{MarvelRivals, StardewValley};
use moda::mod_state::ModState;
use moda::staging::InstallMethod;
use moda::types::{ModEntry, ModEntryKind, ModStatus, ReconciledMod};

fn manager() -> SyncManager<StardewValley> {
    SyncManager::new(StardewValley::new("/games/SV".to_string()), Config::load_default_config("/h"))
}

fn entry(name: &str, path: &str, kind: ModEntryKind) -> ModEntry {
    ModEntry::new(name.to_string(), path.to_string(), kind)
}

fn dir(name: &str, path: &str, is_dir: bool, is_symlink: bool) -> DirEntryInfo {
    DirEntryInfo { name: name.to_string(), path: path.to_string(), is_dir, is_symlink }
}

fn record(name: &str, status: ModStatus, src: bool, stg: bool, game: bool) -> ReconciledMod {
    ReconciledMod {
        name: name.to_string(),
        status,
        source_entry: if src { Some(entry(name, &format!("/h/.moda/mods/stardew_valley/{}", name), ModEntryKind::Directory)) } else { None },
        staging_entry: if stg { Some(entry(name, &format!("/h/.moda/staging/stardew_valley/{}", name), ModEntryKind::Directory)) } else { None },
        game_entry: if game { Some(entry(name, &format!("/games/SV/Mods/{}", name), ModEntryKind::Directory)) } else { None },
        register_id: "stardew_valley".to_string(),
    }
}

fn names(v: &[ModEntry]) -> Vec<String> {
    v.iter().map(|e| e.name.clone()).collect()
}

#[test]
fn bulk_operations_take_every_mod_of_the_folder() {
    let sm = manager();
    let downloads = vec![
        dir("A", "/d/A", true, false),
        dir("notes.txt", "/d/notes.txt", false, false),
        dir("B.zip", "/d/B.zip", false, false),
    ];
    let staged = sm.stage_mods(&downloads);
    assert_eq!(names(&staged), vec!["A", "B.zip"]);
    assert_eq!(staged[1].kind, ModEntryKind::ZipArchive);
    let staging = vec![dir("A", "/s/A", true, false)];
    assert_eq!(names(&sm.enable_mods(&staging)), vec!["A"]);
    assert_eq!(names(&sm.unstage_mods(&staging)), vec!["A"]);
    let game = vec![dir("A", "/g/A", false, true), dir("C", "/g/C", true, false), dir("x.dll", "/g/x.dll", false, false)];
    assert_eq!(names(&sm.disable_mods(&game)), vec!["A", "C"]);
}

#[test]
fn staging_one_mod_by_folder() {
    let sm = manager();
    let d = sm.stage_one_mod(&entry("A", "/d/A", ModEntryKind::Directory), None).unwrap();
    assert_eq!(d.install.method, InstallMethod::CopyDir);
    assert_eq!(d.install.target, "/h/.moda/staging/stardew_valley/A");
    let z = sm.stage_one_mod(&entry("B.zip", "/d/B.zip", ModEntryKind::ZipArchive), None).unwrap();
    assert_eq!(z.install.method, InstallMethod::ExtractZip);
    assert_eq!(z.staged.name, "B");
    assert!(sm.stage_one_mod(&entry("R.rar", "/d/R.rar", ModEntryKind::RarArchive), None).is_none());
    assert!(sm.stage_one_mod(&entry("x.7z", "/d/x.7z", ModEntryKind::Other), None).is_none());
    let u = sm.unstage_one_mod(&entry("A", "/s/A", ModEntryKind::Directory));
    assert_eq!((u.link.as_str(), u.staged_dir.as_str()), ("/games/SV/Mods/A", "/s/A"));
    let e = sm.enable_one_mod(&entry("A", "/s/A", ModEntryKind::Directory));
    assert_eq!((e.source.as_str(), e.target.as_str()), ("/s/A", "/games/SV/Mods/A"));
    assert_eq!(sm.disable_one_mod(&entry("A", "/games/SV/Mods/A", ModEntryKind::Directory)), "/games/SV/Mods/A");
}

#[test]
fn unstaging_looks_the_download_up_again() {
    let sm = manager();
    let mut state = ModState::new(vec![record("A", ModStatus::Staged, false, true, false), record("B", ModStatus::Staged, true, true, false)]);
    let downloads = Some(vec![dir("A", "/d/A", true, false)]);
    sm.resolve_after_unstage(&entry("A", "/s/A", ModEntryKind::Directory), &mut state, &downloads);
    let a = state.get_mod("A").unwrap();
    assert_eq!(a.status, ModStatus::Downloaded);
    assert_eq!(a.source_entry.as_ref().unwrap().path, "/d/A");
    assert!(a.staging_entry.is_none());
    sm.resolve_after_unstage(&entry("B", "/s/B", ModEntryKind::Directory), &mut state, &downloads);
    assert!(state.get_mod("B").is_none());
    sm.resolve_after_unstage(&entry("A", "/s/A", ModEntryKind::Directory), &mut state, &None);
    assert!(state.get_mod("A").is_none());
}

#[test]
fn disabling_looks_the_mod_up_again() {
    let sm = manager();
    let mut state = ModState::new(vec![
        record("A", ModStatus::Enabled, true, false, true),
        record("B", ModStatus::Enabled, true, true, true),
        record("C", ModStatus::Enabled, false, true, true),
    ]);
    let staging = Some(vec![dir("A", "/s/A", true, false)]);
    let downloads = Some(vec![dir("B", "/d/B", true, false)]);
    sm.resolve_after_disable(&entry("A", "/g/A", ModEntryKind::Directory), &mut state, &staging, &downloads);
    let a = state.get_mod("A").unwrap();
    assert_eq!(a.status, ModStatus::Staged);
    assert_eq!(a.staging_entry.as_ref().unwrap().path, "/s/A");
    assert!(a.game_entry.is_none());
    sm.resolve_after_disable(&entry("B", "/g/B", ModEntryKind::Directory), &mut state, &staging, &downloads);
    let b = state.get_mod("B").unwrap();
    assert_eq!(b.status, ModStatus::Downloaded);
    assert_eq!(b.source_entry.as_ref().unwrap().path, "/d/B");
    assert!(b.staging_entry.is_none());
    sm.resolve_after_disable(&entry("C", "/g/C", ModEntryKind::Directory), &mut state, &staging, &downloads);
    assert!(state.get_mod("C").is_none());
}

#[test]
fn one_pass_sync_does_not_enable_what_it_stages() {
    let sm = manager();
    let state = ModState::new(vec![
        record("A", ModStatus::Downloaded, true, false, false),
        record("B", ModStatus::Staged, true, true, false),
        record("C", ModStatus::Enabled, true, true, true),
    ]);
    assert!(can_sync_in_one_pass(&state));
    let plan = sm.sync_all(&state);
    assert_eq!(plan.len(), 2);
    assert!(matches!(&plan[0], PassStep::Stage(e) if e.name == "A" && e.path == "/h/.moda/mods/stardew_valley/A"));
    assert!(matches!(&plan[1], PassStep::Enable(e) if e.name == "B" && e.path == "/h/.moda/staging/stardew_valley/B"));
}

#[test]
fn one_pass_sync_cannot_take_modified_or_incomplete_records() {
    let modified = ModState::new(vec![record("A", ModStatus::Modified, true, true, false)]);
    assert!(!can_sync_in_one_pass(&modified));
    let no_download = ModState::new(vec![record("A", ModStatus::Downloaded, false, false, false)]);
    assert!(!can_sync_in_one_pass(&no_download));
    let no_copy = ModState::new(vec![record("A", ModStatus::Staged, true, false, false)]);
    assert!(!can_sync_in_one_pass(&no_copy));
}

#[test]
fn status_changes_keep_the_mods() {
    let mut state = ModState::new(vec![record("A", ModStatus::Downloaded, true, false, false), record("B", ModStatus::Enabled, true, true, true)]);
    state.set_staged(&entry("A", "/s/A", ModEntryKind::Directory));
    state.set_enabled(&entry("A", "/g/A", ModEntryKind::Directory));
    state.set_disabled("B");
    state.set_unstaged("B");
    state.set_staged(&entry("Z", "/s/Z", ModEntryKind::Directory));
    state.set_downloaded(&entry("B", "/d/B", ModEntryKind::Directory));
    state.set_disabled("Y");
    let names: Vec<String> = state.snapshot().into_iter().map(|m| m.name).collect();
    assert_eq!(names, vec!["A", "B"]);
    for m in state.snapshot() {
        assert_eq!(state.get_mod(&m.name).unwrap().name, m.name);
    }
}

#[test]
fn archive_stage_roots() {
    assert_eq!(ZipStager::stage_root("/d/a.zip", None), None);
    assert_eq!(ZipStager::stage_root("/d/a.zip", Some(b"not a zip".to_vec())), None);
    assert_eq!(RarStager::stage_root("/d/a.rar", Err("bad header".to_string())), None);
    assert_eq!(
        RarStager::stage_root("/d/a.rar", Ok(vec!["Inner/a.txt".to_string(), "Inner/b.txt".to_string()])),
        Some("Inner".to_string())
    );
    assert_eq!(RarStager::stage_root("/d/a.rar", Ok(vec!["a.txt".to_string()])), None);
}

#[test]
fn setup_names() {
    assert_eq!(StardewValley::new("/g".to_string()).setup_name(), "SMAPI");
    assert_eq!(MarvelRivals::new("/g".to_string()).setup_name(), "UTOC signature bypass");
}
