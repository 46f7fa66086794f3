use std::io::{Cursor, Write};

use moda::archive::{extract_zip, wrap_directory, ExtractAction, Installer, RarStager, ZipStager};
use moda::catalog::effective_name;
use moda::error::{IoErrorKind, ModManagerError};
use moda::staging::ZipInstaller;
use moda::types::{ModEntry, ModEntryKind};
use zip::write::SimpleFileOptions;
use zip::{CompressionMethod, ZipWriter};

enum Item<'a> {
    Dir(&'a str),
    File(&'a str, &'a [u8]),
}

fn zip_of(items: &[Item]) -> Vec<u8> {
    let mut w = ZipWriter::new(Cursor::new(Vec::new()));
    let opts = SimpleFileOptions::default().compression_method(CompressionMethod::Stored);
    for it in items {
        match it {
            Item::Dir(d) => w.add_directory(*d, opts).unwrap(),
            Item::File(f, data) => {
                w.start_file(*f, opts).unwrap();
                w.write_all(data).unwrap();
            }
        }
    }
    w.finish().unwrap().into_inner()
}

fn strings(v: &[&str]) -> Vec<String> {
    v.iter().map(|s| s.to_string()).collect()
}

#[test]
fn wrap_directory_on_components() {
    let wrapped = vec![strings(&["MyMod"]), strings(&["MyMod", "a.txt"])];
    assert_eq!(wrap_directory(&wrapped), Some("MyMod".to_string()));
    let flat = vec![strings(&["a.txt"]), strings(&["b.txt"])];
    assert_eq!(wrap_directory(&flat), None);
    let two = vec![strings(&["A", "x"]), strings(&["B", "y"])];
    assert_eq!(wrap_directory(&two), None);
    let top_only = vec![strings(&["A"])];
    assert_eq!(wrap_directory(&top_only), None);
    let with_unsafe = vec![Vec::new(), strings(&["A", "x"])];
    assert_eq!(wrap_directory(&with_unsafe), Some("A".to_string()));
    assert_eq!(wrap_directory(&Vec::new()), None);
}

#[test]
fn zip_wrapped_in_one_directory() {
    let bytes = zip_of(&[Item::Dir("MyMod/"), Item::File("MyMod/info.json", b"{}")]);
    assert_eq!(Installer::zip_wrap_directory(bytes.clone()), Ok(Some("MyMod".to_string())));
    assert_eq!(ZipInstaller::get_mod_name_from_installer(bytes.clone()), Ok(Some("MyMod".to_string())));
    assert_eq!(ZipStager::get_mod_name("/mods/x.zip", bytes), Ok("MyMod".to_string()));
}

#[test]
fn zip_with_files_at_root() {
    let bytes = zip_of(&[Item::File("a.txt", b"a"), Item::File("b.txt", b"b")]);
    assert_eq!(Installer::zip_wrap_directory(bytes.clone()), Ok(None));
    assert_eq!(
        ZipStager::get_mod_name("/mods/x.zip", bytes),
        Err(ModManagerError::InvalidMod("Zip /mods/x.zip does not have a single wrapping directory".to_string()))
    );
}

#[test]
fn bytes_that_are_no_zip() {
    let r = Installer::zip_wrap_directory(b"not a zip".to_vec());
    assert!(matches!(r, Err(ModManagerError::IoError(_, _))));
    assert!(extract_zip(b"not a zip".to_vec(), "/t").is_err());
    let x = Installer::install_from_zip(b"not a zip".to_vec(), "/t");
    assert!(x.actions.is_empty());
    assert!(matches!(x.failure, Some(ModManagerError::IoError(_, _))));
}

#[test]
fn rar_name_from_listing() {
    let ok = RarStager::get_mod_name("/m/a.rar", Ok(strings(&["Mod/", "Mod/file.txt"])));
    assert_eq!(ok, Ok("Mod".to_string()));
    let flat = RarStager::get_mod_name("/m/a.rar", Ok(strings(&["file.txt"])));
    assert_eq!(
        flat,
        Err(ModManagerError::InvalidMod("RAR /m/a.rar does not have a single wrapping directory".to_string()))
    );
    let failed = RarStager::get_mod_name("/m/a.rar", Err("bad header".to_string()));
    assert_eq!(failed, Err(ModManagerError::IoError(IoErrorKind::InvalidData, "bad header".to_string())));
}

#[test]
fn extraction_plan_of_an_archive() {
    let bytes = zip_of(&[Item::Dir("MyMod/"), Item::File("MyMod/data/x.txt", b"x"), Item::File("top.txt", b"t")]);
    let x = extract_zip(bytes, "/tmp/out").unwrap();
    assert!(x.failure.is_none());
    let got: Vec<String> = x
        .actions
        .iter()
        .map(|a| match a {
            ExtractAction::CreateDir(p) => format!("mkdir {}", p),
            ExtractAction::WriteFile { index, path } => format!("write {} {}", index, path),
        })
        .collect();
    assert_eq!(
        got,
        vec![
            "mkdir /tmp/out/MyMod",
            "mkdir /tmp/out/MyMod/data",
            "write 1 /tmp/out/MyMod/data/x.txt",
            "mkdir /tmp/out",
            "write 2 /tmp/out/top.txt",
        ]
    );
}

#[test]
fn effective_name_of_downloads() {
    let wrapped = zip_of(&[Item::Dir("Inner/"), Item::File("Inner/a", b"a")]);
    let zip_entry = ModEntry::new("Outer.zip".into(), "/mods/Outer.zip".into(), ModEntryKind::ZipArchive);
    assert_eq!(effective_name(&zip_entry, Some(wrapped)), "Inner");
    let flat = zip_of(&[Item::File("a", b"a")]);
    assert_eq!(effective_name(&zip_entry, Some(flat)), "Outer");
    assert_eq!(effective_name(&zip_entry, None), "Outer");
    let dir = ModEntry::new("Folder".into(), "/mods/Folder".into(), ModEntryKind::Directory);
    assert_eq!(effective_name(&dir, None), "Folder");
}

#[test]
fn extraction_stays_under_destination() {
    let bytes = zip_of(&[Item::File("../evil.txt", b"x"), Item::File("/abs/file.txt", b"y"), Item::File("ok.txt", b"z")]);
    let x = extract_zip(bytes, "/tmp/out").unwrap();
    assert!(x.failure.is_none());
    for a in &x.actions {
        if let ExtractAction::WriteFile { path, .. } = a {
            assert!(path.starts_with("/tmp/out"), "{}", path);
        }
    }
    assert!(x.actions.iter().any(|a| matches!(a, ExtractAction::WriteFile { path, .. } if path == "/tmp/out/ok.txt")));
    assert!(!x.actions.iter().any(|a| matches!(a, ExtractAction::WriteFile { path, .. } if path.contains("evil"))));
}

#[test]
fn zip_stage_root_is_the_wrapping_directory() {
    let wrapped = zip_of(&[Item::Dir("Inner/"), Item::File("Inner/a.txt", b"x")]);
    assert_eq!(ZipStager::stage_root("/d/a.zip", Some(wrapped)), Some("Inner".to_string()));
    let flat = zip_of(&[Item::File("a.txt", b"x"), Item::File("b.txt", b"y")]);
    assert_eq!(ZipStager::stage_root("/d/a.zip", Some(flat)), None);
}
