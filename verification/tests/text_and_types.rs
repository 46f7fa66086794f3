use moda::error::{IoErrorKind, ModManagerError};
use moda::text::{concat2, concat3, join_path, str_ends_with, str_eq, str_lt, strip_str_suffix};
use moda::types::{allowed_extensions, map_ext_to_kind, strip_rar_ext, strip_zip_ext, ModEntry, ModEntryKind};

#[test]
fn join_path_inserts_one_separator() {
    assert_eq!(join_path("/home/u/.moda/mods", "stardew_valley"), "/home/u/.moda/mods/stardew_valley");
    assert_eq!(join_path("/home/u/", "Mods"), "/home/u/Mods");
    assert_eq!(join_path("", "Mods"), "Mods");
}

#[test]
fn join_path_absolute_name_replaces_base() {
    assert_eq!(join_path("/games/sv", "/elsewhere/x"), "/elsewhere/x");
}

#[test]
fn concatenation_and_comparison() {
    assert_eq!(concat2("ab", "cd"), "abcd");
    assert_eq!(concat3("a", "b", "c"), "abc");
    assert!(str_eq("same", "same"));
    assert!(!str_eq("same", "other"));
    assert!(str_ends_with("mod.zip", ".zip"));
    assert!(!str_ends_with("zip", ".zip"));
    assert!(str_lt("Alpha", "Beta"));
    assert!(str_lt("Ab", "Abc"));
    assert!(!str_lt("Abc", "Ab"));
    assert!(!str_lt("x", "x"));
}

#[test]
fn strip_suffix_only_when_present() {
    assert_eq!(strip_str_suffix("archive.tar", ".tar"), "archive");
    assert_eq!(strip_str_suffix("archive", ".tar"), "archive");
}

#[test]
fn extensions_map_to_kinds() {
    assert_eq!(map_ext_to_kind("zip"), ModEntryKind::ZipArchive);
    assert_eq!(map_ext_to_kind("rar"), ModEntryKind::RarArchive);
    assert_eq!(map_ext_to_kind("7z"), ModEntryKind::Other);
    assert_eq!(map_ext_to_kind(""), ModEntryKind::Other);
    assert_eq!(allowed_extensions(), vec!["zip", "rar"]);
}

#[test]
fn strip_archive_extensions() {
    assert_eq!(strip_zip_ext("CoolMod.zip"), "CoolMod");
    assert_eq!(strip_zip_ext("CoolMod"), "CoolMod");
    assert_eq!(strip_zip_ext("CoolMod.rar"), "CoolMod.rar");
    assert_eq!(strip_rar_ext("CoolMod.rar"), "CoolMod");
    assert_eq!(strip_rar_ext("CoolMod.zip"), "CoolMod.zip");
}

#[test]
fn law_strip_zip_ext_inverts_adding_it() {
    for n in ["a", "Mod Name", "x.zip", ""] {
        let with = format!("{}.zip", n);
        assert_eq!(strip_zip_ext(&with), n);
    }
}

#[test]
fn entry_duplicate_keeps_content() {
    let e = ModEntry::new("A".to_string(), "/p/A".to_string(), ModEntryKind::Directory);
    let d = e.duplicate();
    assert_eq!(d.name, "A");
    assert_eq!(d.path, "/p/A");
    assert_eq!(d.kind, ModEntryKind::Directory);
    assert!(d.metadata.is_none());
}

#[test]
fn every_error_has_its_message() {
    let cases = vec![
        (ModManagerError::GameNotFound("x".into()), "Game not found: x"),
        (ModManagerError::PathDiscoveryFailed("x".into()), "Path discovery failed: x"),
        (ModManagerError::InvalidConfiguration("x".into()), "Invalid configuration: x"),
        (ModManagerError::InvalidFilename("x".into()), "Invalid filename: x"),
        (ModManagerError::PathNotFound("x".into()), "Path not found: x"),
        (ModManagerError::ModNotFound("x".into()), "Mod not found: x"),
        (ModManagerError::InvalidMod("x".into()), "Invalid mod: x"),
        (ModManagerError::IoError(IoErrorKind::Other, "x".into()), "IO error: x"),
        (ModManagerError::NexusApiError("x".into()), "Nexus API error: x"),
        (ModManagerError::GameSetupFailed("x".into()), "Game setup failed: x"),
        (ModManagerError::DatabaseError("x".into()), "Database error: x"),
    ];
    for (e, m) in cases {
        assert_eq!(e.message(), m);
    }
}
