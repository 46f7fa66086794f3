use moda::config::Config;
use moda::error::{IoErrorKind, ModManagerError};
use moda::games::StardewValley;
use moda::mod_state::ModState;
use moda::staging::{DirectCopyInstaller, DirectCopyStager, InstallMethod, LinkAction, LinkFacts, ModSource, SymlinkEnabler};
use moda::archive::{Installer, RarStager, ZipStager};
use moda::sync_manager::{SyncManager, SyncPhase, SyncStep};
use moda::types::{ModEntry, ModEntryKind, ModStatus, ReconciledMod};

fn entry(name: &str, path: &str, kind: ModEntryKind) -> ModEntry {
    ModEntry::new(name.to_string(), path.to_string(), kind)
}

fn facts(source_exists: bool, parent_exists: bool, target_is_symlink: bool, target_exists: bool) -> LinkFacts {
    LinkFacts { source_exists, parent_exists, target_is_symlink, target_exists }
}

#[test]
fn installer_steps() {
    let s = Installer::install(&ModSource::LocalZip("/m/a.zip".into()), "/t");
    assert_eq!(s.method, InstallMethod::ExtractZip);
    assert_eq!((s.source.as_str(), s.target.as_str()), ("/m/a.zip", "/t"));
    let d = Installer::install(&ModSource::LocalDir("/m/a".into()), "/t");
    assert_eq!(d.method, InstallMethod::CopyDir);
}

#[test]
fn staging_plans_by_kind() {
    let d = DirectCopyStager::stage(&entry("B", "/mods/B", ModEntryKind::Directory), "/st");
    assert_eq!(d.install.method, InstallMethod::CopyDir);
    assert_eq!(d.install.target, "/st/B");
    assert_eq!(d.staged.path, "/st/B");
    let z = ZipStager::stage(&entry("A.zip", "/mods/A.zip", ModEntryKind::ZipArchive), "/st", Some("Inner".into()));
    assert_eq!(z.install.method, InstallMethod::ExtractZip);
    assert_eq!(z.install.target, "/st");
    assert_eq!(z.staged.name, "Inner");
    assert_eq!(z.staged.path, "/st/Inner");
    let z2 = ZipStager::stage(&entry("A.zip", "/mods/A.zip", ModEntryKind::ZipArchive), "/st", None);
    assert_eq!(z2.install.target, "/st/A");
    assert_eq!(z2.staged.name, "A");
    let r = RarStager::stage(&entry("R.rar", "/mods/R.rar", ModEntryKind::RarArchive), "/st", None);
    assert_eq!(r.install.method, InstallMethod::ExtractRar);
    assert_eq!(r.staged.path, "/st/R");
    let o = entry("x.7z", "/mods/x.7z", ModEntryKind::Other);
    assert!(ModEntryKind::Other.stage(&o, "/st", None).is_none());
}

#[test]
fn directory_mod_names() {
    assert_eq!(DirectCopyStager::get_mod_name("/mods/CoolMod"), Ok("CoolMod".to_string()));
    assert_eq!(
        DirectCopyStager::get_mod_name("/"),
        Err(ModManagerError::InvalidMod("Path has no file name: /".to_string()))
    );
    assert_eq!(DirectCopyInstaller::get_mod_name_from_installer("/a/b/"), Ok(Some("b".to_string())));
    assert_eq!(DirectCopyInstaller::get_mod_name_from_installer("/a/.."), Ok(None));
}

#[test]
fn linking_a_mod() {
    let e = SymlinkEnabler::enable(&entry("M", "/st/M", ModEntryKind::Directory), "/g/Mods");
    assert_eq!(e.source, "/st/M");
    assert_eq!(e.target, "/g/Mods/M");
    assert_eq!(e.enabled.path, "/g/Mods/M");

    let (acts, r) = SymlinkEnabler::activate("/st/M", "/g/Mods/M", facts(true, false, true, true));
    assert_eq!(r, Ok(()));
    let shown: Vec<String> = acts
        .iter()
        .map(|a| match a {
            LinkAction::CreateDir(p) => format!("mkdir {}", p),
            LinkAction::RemoveLink(p) => format!("unlink {}", p),
            LinkAction::CreateLink { source, target } => format!("link {} {}", source, target),
        })
        .collect();
    assert_eq!(shown, vec!["mkdir /g/Mods", "unlink /g/Mods/M", "link /st/M /g/Mods/M"]);
}

#[test]
fn linking_errors() {
    let (acts, r) = SymlinkEnabler::activate("/st/M", "/g/Mods/M", facts(false, true, false, false));
    assert!(acts.is_empty());
    assert_eq!(r, Err(ModManagerError::IoError(IoErrorKind::NotFound, "Source path does not exist: /st/M".to_string())));
    let (acts, r) = SymlinkEnabler::activate("/st/M", "/g/Mods/M", facts(true, true, false, true));
    assert!(acts.is_empty());
    assert_eq!(r, Err(ModManagerError::IoError(IoErrorKind::AlreadyExists, "Target path already exists: /g/Mods/M".to_string())));
}

#[test]
fn unlinking() {
    assert_eq!(SymlinkEnabler::deactivate("/g/M", true, true), Ok(true));
    assert_eq!(
        SymlinkEnabler::deactivate("/g/M", false, false),
        Err(ModManagerError::IoError(IoErrorKind::NotFound, "Source path does not exist: /g/M".to_string()))
    );
    assert_eq!(
        SymlinkEnabler::deactivate("/g/M", false, true),
        Err(ModManagerError::IoError(IoErrorKind::InvalidInput, "Path is not a symlink: /g/M".to_string()))
    );
}

fn manager() -> SyncManager<StardewValley> {
    SyncManager::new(StardewValley::new("/games/SV".to_string()), Config::load_default_config("/h"))
}

fn record(name: &str, status: ModStatus, src: bool, stg: bool, game: bool) -> ReconciledMod {
    ReconciledMod {
        name: name.to_string(),
        status,
        source_entry: if src { Some(entry(name, &format!("/h/.moda/mods/stardew_valley/{}", name), ModEntryKind::Directory)) } else { None },
        staging_entry: if stg { Some(entry(name, &format!("/h/.moda/staging/stardew_valley/{}", name), ModEntryKind::Directory)) } else { None },
        game_entry: if game { Some(entry(name, &format!("/games/SV/Mods/{}", name), ModEntryKind::Directory)) } else { None },
        register_id: "stardew_valley".to_string(),
    }
}

#[test]
fn manager_paths_and_plans() {
    let sm = manager();
    assert_eq!(sm.get_staging_path(), "/h/.moda/staging/stardew_valley");
    assert_eq!(sm.mods_folder(), "/h/.moda/mods/stardew_valley");
    assert_eq!(sm.game_mod_path(), "/games/SV/Mods");
    assert_eq!(sm.game_path(), "/games/SV");
    let step = sm.stage_one_mod(&entry("A", "/src/A", ModEntryKind::Directory), None).unwrap();
    assert_eq!(step.staged.path, "/h/.moda/staging/stardew_valley/A");
    let u = sm.unstage_one_mod(&entry("A", "/h/.moda/staging/stardew_valley/A", ModEntryKind::Directory));
    assert_eq!(u.link, "/games/SV/Mods/A");
    assert_eq!(u.staged_dir, "/h/.moda/staging/stardew_valley/A");
    let en = sm.enable_one_mod(&entry("A", "/h/.moda/staging/stardew_valley/A", ModEntryKind::Directory));
    assert_eq!(en.target, "/games/SV/Mods/A");
    assert_eq!(sm.disable_one_mod(&entry("A", "/games/SV/Mods/A", ModEntryKind::Directory)), "/games/SV/Mods/A");
}

#[test]
fn after_unstage_back_to_downloaded_or_forgotten() {
    let sm = manager();
    let mut s = ModState::new(vec![record("A", ModStatus::Staged, true, true, false), record("B", ModStatus::Staged, false, true, false)]);
    let a = entry("A", "/h/.moda/staging/stardew_valley/A", ModEntryKind::Directory);
    sm.resolve_after_unstage(&a, &mut s);
    let m = s.get_mod("A").unwrap();
    assert_eq!(m.status, ModStatus::Downloaded);
    assert!(m.staging_entry.is_none());
    let b = entry("B", "/h/.moda/staging/stardew_valley/B", ModEntryKind::Directory);
    sm.resolve_after_unstage(&b, &mut s);
    assert!(s.get_mod("B").is_none());
}

#[test]
fn after_disable_depends_on_what_exists() {
    let sm = manager();
    let mut s = ModState::new(vec![
        record("A", ModStatus::Enabled, true, true, true),
        record("B", ModStatus::Enabled, true, true, true),
        record("C", ModStatus::Enabled, true, true, true),
    ]);
    let existing = vec![
        "/h/.moda/staging/stardew_valley/A".to_string(),
        "/h/.moda/mods/stardew_valley/B".to_string(),
    ];
    for n in ["A", "B", "C"] {
        let e = entry(n, &format!("/games/SV/Mods/{}", n), ModEntryKind::Directory);
        sm.resolve_after_disable(&e, &mut s, &existing);
    }
    assert_eq!(s.get_mod("A").unwrap().status, ModStatus::Staged);
    assert!(s.get_mod("A").unwrap().game_entry.is_none());
    assert_eq!(s.get_mod("B").unwrap().status, ModStatus::Downloaded);
    assert!(s.get_mod("C").is_none());
}

#[test]
fn bulk_selections_and_sync_phases() {
    let sm = manager();
    let s = ModState::new(vec![
        record("D", ModStatus::Downloaded, true, false, false),
        record("S", ModStatus::Staged, true, true, false),
        record("E", ModStatus::Enabled, true, true, true),
    ]);
    assert_eq!(sm.stage_mods(&s).iter().map(|e| e.name.clone()).collect::<Vec<_>>(), vec!["D"]);
    assert_eq!(sm.enable_mods(&s).iter().map(|e| e.name.clone()).collect::<Vec<_>>(), vec!["S"]);
    assert_eq!(sm.unstage_mods(&s).iter().map(|e| e.name.clone()).collect::<Vec<_>>(), vec!["E", "S"]);
    assert_eq!(sm.disable_mods(&s).iter().map(|e| e.name.clone()).collect::<Vec<_>>(), vec!["E"]);
    let (step, phase) = sm.sync_all(SyncPhase::Start, &s);
    assert_eq!(phase, SyncPhase::Staged);
    assert!(matches!(step, SyncStep::Stage(v) if v.len() == 1));
    let (step, phase) = sm.sync_all(SyncPhase::Staged, &s);
    assert_eq!(phase, SyncPhase::Finished);
    assert!(matches!(step, SyncStep::Enable(v) if v.len() == 1));
    let (step, phase) = sm.sync_all(SyncPhase::Finished, &s);
    assert_eq!(phase, SyncPhase::Finished);
    assert!(matches!(step, SyncStep::Done));
}
