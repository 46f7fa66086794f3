use moda::error::ModManagerError;
use moda::repository::{
    entry_from_row, entry_values, kind_to_str, mod_from_row, mod_row, mods_from_rows, mods_rows, parse_kind,
    parse_status, row_text, status_to_str, DbValue,
};
use moda::types::{ModEntry, ModEntryKind, ModStatus, ReconciledMod};

fn text(s: &str) -> DbValue {
    DbValue::Text(s.to_string())
}

fn sample() -> ReconciledMod {
    ReconciledMod {
        name: "CoolMod".to_string(),
        status: ModStatus::Enabled,
        source_entry: Some(ModEntry::new("CoolMod".into(), "/mods/CoolMod.zip".into(), ModEntryKind::ZipArchive)),
        staging_entry: Some(ModEntry::new("CoolMod".into(), "/staging/CoolMod".into(), ModEntryKind::Directory)),
        game_entry: None,
        register_id: "stardew_valley".to_string(),
    }
}

#[test]
fn status_texts() {
    assert_eq!(status_to_str(ModStatus::Downloaded), "Downloaded");
    assert_eq!(status_to_str(ModStatus::Staged), "Staged");
    assert_eq!(status_to_str(ModStatus::Enabled), "Enabled");
    assert_eq!(status_to_str(ModStatus::Modified), "Modified");
    assert_eq!(parse_status("Staged"), ModStatus::Staged);
    assert_eq!(parse_status("garbage"), ModStatus::Downloaded);
    assert_eq!(parse_status(""), ModStatus::Downloaded);
}

#[test]
fn law_status_text_round_trip_on_values() {
    for s in [ModStatus::Downloaded, ModStatus::Staged, ModStatus::Enabled, ModStatus::Modified] {
        assert_eq!(parse_status(status_to_str(s)), s);
    }
}

#[test]
fn law_kind_text_round_trip_on_values() {
    for k in [ModEntryKind::Directory, ModEntryKind::ZipArchive, ModEntryKind::RarArchive] {
        assert_eq!(parse_kind(kind_to_str(k)), k);
    }
    assert_eq!(kind_to_str(ModEntryKind::Other), "Other");
    assert_eq!(parse_kind(kind_to_str(ModEntryKind::Other)), ModEntryKind::Directory);
    assert_eq!(parse_kind("PakArchive"), ModEntryKind::Directory);
}

#[test]
fn row_text_reads_null_as_empty_and_rejects_other_values() {
    assert_eq!(row_text(&text("x")), Ok("x".to_string()));
    assert_eq!(row_text(&DbValue::Null), Ok(String::new()));
    assert_eq!(
        row_text(&DbValue::Other),
        Err(ModManagerError::DatabaseError("Unexpected non-text value in database".to_string()))
    );
}

#[test]
fn entry_cells() {
    assert!(entry_from_row(&DbValue::Null, &text("Directory"), "A").is_none());
    assert!(entry_from_row(&text(""), &text("Directory"), "A").is_none());
    assert!(entry_from_row(&DbValue::Other, &text("Directory"), "A").is_none());
    let e = entry_from_row(&text("/p"), &DbValue::Null, "A").unwrap();
    assert_eq!(e.name, "A");
    assert_eq!(e.path, "/p");
    assert_eq!(e.kind, ModEntryKind::Directory);
    let z = entry_from_row(&text("/p.zip"), &text("ZipArchive"), "A").unwrap();
    assert_eq!(z.kind, ModEntryKind::ZipArchive);
    assert_eq!(entry_values(&None), (DbValue::Null, DbValue::Null));
    assert_eq!(
        entry_values(&Some(ModEntry::new("A".into(), "/r".into(), ModEntryKind::RarArchive))),
        (text("/r"), text("RarArchive"))
    );
}

#[test]
fn row_of_a_record() {
    let r = mod_row("stardew_valley", &sample());
    assert_eq!(r.game_registry_id, text("stardew_valley"));
    assert_eq!(r.name, text("CoolMod"));
    assert_eq!(r.status, text("Enabled"));
    assert_eq!(r.source_path, text("/mods/CoolMod.zip"));
    assert_eq!(r.source_kind, text("ZipArchive"));
    assert_eq!(r.staging_path, text("/staging/CoolMod"));
    assert_eq!(r.staging_kind, text("Directory"));
    assert_eq!(r.game_path, DbValue::Null);
    assert_eq!(r.game_kind, DbValue::Null);
    assert_eq!(r.enabler_type, text("symlink"));
}

#[test]
fn law_row_round_trip_exact_on_values() {
    let m = sample();
    let back = mod_from_row("stardew_valley", &mod_row("stardew_valley", &m)).unwrap();
    assert_eq!(back.name, m.name);
    assert_eq!(back.status, m.status);
    assert_eq!(back.register_id, m.register_id);
    let (a, b) = (back.source_entry.unwrap(), m.source_entry.unwrap());
    assert_eq!((a.name, a.path, a.kind), (b.name, b.path, b.kind));
    let (a, b) = (back.staging_entry.unwrap(), m.staging_entry.unwrap());
    assert_eq!((a.name, a.path, a.kind), (b.name, b.path, b.kind));
    assert!(back.game_entry.is_none());
}

#[test]
fn law_row_round_trip_keeps_stored_form() {
    let mut m = sample();
    m.game_entry = Some(ModEntry::new("other-name".into(), "".into(), ModEntryKind::Directory));
    m.staging_entry = Some(ModEntry::new("other-name".into(), "/s".into(), ModEntryKind::Other));
    let back = mod_from_row("g2", &mod_row("g2", &m)).unwrap();
    assert!(back.game_entry.is_none());
    let s = back.staging_entry.unwrap();
    assert_eq!(s.name, "CoolMod");
    assert_eq!(s.kind, ModEntryKind::Directory);
    assert_eq!(back.register_id, "g2");
}

#[test]
fn unreadable_row_is_a_database_error() {
    let mut r = mod_row("g", &sample());
    r.status = DbValue::Other;
    assert!(matches!(mod_from_row("g", &r), Err(ModManagerError::DatabaseError(_))));
    let rows = vec![mod_row("g", &sample()), r];
    assert!(matches!(mods_from_rows("g", &rows), Err(ModManagerError::DatabaseError(_))));
}

#[test]
fn rows_of_many_records() {
    let mods = vec![sample(), sample()];
    let rows = mods_rows("g", &mods);
    assert_eq!(rows.len(), 2);
    let back = mods_from_rows("g", &rows).unwrap();
    assert_eq!(back.len(), 2);
    assert_eq!(back[1].name, "CoolMod");
}
