use moda::mod_state::{ModState, RepoWrite};
use moda::types::{ModEntry, ModEntryKind, ModStatus, ReconciledMod};

fn entry(name: &str, path: &str, kind: ModEntryKind) -> ModEntry {
    ModEntry::new(name.to_string(), path.to_string(), kind)
}

fn record(name: &str, status: ModStatus, src: bool, stg: bool, game: bool) -> ReconciledMod {
    ReconciledMod {
        name: name.to_string(),
        status,
        source_entry: if src { Some(entry(name, &format!("/mods/{}", name), ModEntryKind::Directory)) } else { None },
        staging_entry: if stg { Some(entry(name, &format!("/staging/{}", name), ModEntryKind::Directory)) } else { None },
        game_entry: if game { Some(entry(name, &format!("/game/Mods/{}", name), ModEntryKind::Directory)) } else { None },
        register_id: "stardew_valley".to_string(),
    }
}

#[test]
fn new_state_lists_records_in_name_order() {
    let s = ModState::new(vec![
        record("Zeta", ModStatus::Downloaded, true, false, false),
        record("Alpha", ModStatus::Staged, true, true, false),
        record("Mid", ModStatus::Enabled, true, true, true),
    ]);
    let names: Vec<String> = s.snapshot().iter().map(|m| m.name.clone()).collect();
    assert_eq!(names, vec!["Alpha", "Mid", "Zeta"]);
    assert_eq!(s.get_mods().len(), 3);
}

#[test]
fn later_record_of_same_name_wins() {
    let s = ModState::new(vec![
        record("A", ModStatus::Downloaded, true, false, false),
        record("A", ModStatus::Staged, true, true, false),
    ]);
    assert_eq!(s.get_mods().len(), 1);
    assert_eq!(s.get_mod("A").unwrap().status, ModStatus::Staged);
}

#[test]
fn get_mod_finds_and_misses() {
    let s = ModState::new(vec![record("A", ModStatus::Downloaded, true, false, false)]);
    assert!(s.get_mod("A").is_some());
    assert!(s.get_mod("B").is_none());
}

#[test]
fn set_staged_records_entry_and_queues_upsert() {
    let mut s = ModState::new(vec![record("A", ModStatus::Downloaded, true, false, false)]);
    s.set_staged(&entry("A", "/staging/A", ModEntryKind::Directory));
    let m = s.get_mod("A").unwrap();
    assert_eq!(m.status, ModStatus::Staged);
    assert_eq!(m.staging_entry.as_ref().unwrap().path, "/staging/A");
    assert!(m.game_entry.is_none());
    let w = s.take_pending();
    assert_eq!(w.len(), 1);
    match &w[0] {
        RepoWrite::Upsert(r) => {
            assert_eq!(r.name, "A");
            assert_eq!(r.status, ModStatus::Staged);
        }
        _ => panic!("expected an upsert"),
    }
    assert!(s.take_pending().is_empty());
    assert_eq!(s.get_mod("A").unwrap().status, ModStatus::Staged);
}

#[test]
fn change_of_unknown_mod_does_nothing() {
    let mut s = ModState::new(vec![record("A", ModStatus::Downloaded, true, false, false)]);
    s.set_enabled(&entry("B", "/game/Mods/B", ModEntryKind::Directory));
    s.set_disabled("B");
    s.set_unstaged("B");
    assert!(s.get_mod("B").is_none());
    assert!(s.take_pending().is_empty());
}

#[test]
fn set_downloaded_clears_staging_and_game() {
    let mut s = ModState::new(vec![record("A", ModStatus::Enabled, true, true, true)]);
    s.set_downloaded(&entry("A", "/mods/A2", ModEntryKind::ZipArchive));
    let m = s.get_mod("A").unwrap();
    assert_eq!(m.status, ModStatus::Downloaded);
    assert_eq!(m.source_entry.as_ref().unwrap().path, "/mods/A2");
    assert!(m.staging_entry.is_none());
    assert!(m.game_entry.is_none());
}

#[test]
fn remove_forgets_and_queues_deletion() {
    let mut s = ModState::new(vec![
        record("A", ModStatus::Downloaded, true, false, false),
        record("B", ModStatus::Downloaded, true, false, false),
    ]);
    s.remove("A");
    assert!(s.get_mod("A").is_none());
    assert!(s.get_mod("B").is_some());
    let w = s.take_pending();
    assert_eq!(w.len(), 1);
    match &w[0] {
        RepoWrite::Remove { registry_id, name } => {
            assert_eq!(registry_id, "stardew_valley");
            assert_eq!(name, "A");
        }
        _ => panic!("expected a removal"),
    }
}

#[test]
fn remove_of_unknown_mod_queues_deletion_without_game() {
    let mut s = ModState::default();
    s.remove("ghost");
    let w = s.take_pending();
    match &w[0] {
        RepoWrite::Remove { registry_id, name } => {
            assert_eq!(registry_id, "");
            assert_eq!(name, "ghost");
        }
        _ => panic!("expected a removal"),
    }
}

#[test]
fn law_disable_undoes_enable_on_values() {
    let mut s = ModState::new(vec![record("A", ModStatus::Staged, true, true, false)]);
    let before = s.get_mod("A").unwrap().clone();
    s.set_enabled(&entry("A", "/game/Mods/A", ModEntryKind::Directory));
    assert_eq!(s.get_mod("A").unwrap().status, ModStatus::Enabled);
    s.set_disabled("A");
    let after = s.get_mod("A").unwrap();
    assert_eq!(after.status, before.status);
    assert!(after.game_entry.is_none());
    assert_eq!(after.staging_entry.as_ref().unwrap().path, before.staging_entry.as_ref().unwrap().path);
    assert_eq!(after.source_entry.as_ref().unwrap().path, before.source_entry.as_ref().unwrap().path);
}

#[test]
fn law_unstage_undoes_stage_on_values() {
    let mut s = ModState::new(vec![record("A", ModStatus::Downloaded, true, false, false)]);
    s.set_staged(&entry("A", "/staging/A", ModEntryKind::Directory));
    s.set_unstaged("A");
    let m = s.get_mod("A").unwrap();
    assert_eq!(m.status, ModStatus::Downloaded);
    assert!(m.staging_entry.is_none());
    assert!(m.game_entry.is_none());
    assert_eq!(m.source_entry.as_ref().unwrap().path, "/mods/A");
}

#[test]
fn law_changes_are_local_on_values() {
    let mut s = ModState::new(vec![
        record("A", ModStatus::Staged, true, true, false),
        record("B", ModStatus::Staged, true, true, false),
    ]);
    s.set_enabled(&entry("A", "/game/Mods/A", ModEntryKind::Directory));
    s.set_unstaged("A");
    s.remove("A");
    let b = s.get_mod("B").unwrap();
    assert_eq!(b.status, ModStatus::Staged);
    assert!(b.game_entry.is_none());
    assert_eq!(s.take_pending().len(), 3);
}
