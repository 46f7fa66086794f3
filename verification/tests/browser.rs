use moda::browser::{sort_paths, DirBrowser};
use moda::catalog::DirEntryInfo;

fn dir(path: &str, is_dir: bool) -> DirEntryInfo {
    let name = path.rsplit('/').next().unwrap().to_string();
    DirEntryInfo { name, path: path.to_string(), is_dir, is_symlink: false }
}

fn strings(v: &[&str]) -> Vec<String> {
    v.iter().map(|s| s.to_string()).collect()
}

#[test]
fn sorting_paths() {
    assert_eq!(sort_paths(strings(&["/h/b", "/h/a", "/h/c", "/h/a"])), strings(&["/h/a", "/h/a", "/h/b", "/h/c"]));
    assert_eq!(sort_paths(Vec::new()), Vec::<String>::new());
    assert_eq!(sort_paths(strings(&["/h/Zed", "/h/alpha"])), strings(&["/h/Zed", "/h/alpha"]));
}

#[test]
fn new_browser_starts_home_or_root() {
    let b = DirBrowser::new(Some("/home/u".to_string()));
    assert_eq!(b.current_dir(), "/home/u");
    assert!(!b.is_visible());
    assert!(b.shown().is_empty());
    assert_eq!(DirBrowser::new(None).current_dir(), "/");
}

#[test]
fn refresh_lists_sorted_subdirectories_and_hides_dot_names() {
    let mut b = DirBrowser::new(Some("/h".to_string()));
    b.refresh(Ok(vec![dir("/h/zeta", true), dir("/h/file.txt", false), dir("/h/.cache", true), dir("/h/alpha", true)]));
    assert!(b.error().is_none());
    let shown: Vec<(String, String)> = b.shown();
    assert_eq!(
        shown,
        vec![("alpha".to_string(), "/h/alpha".to_string()), ("zeta".to_string(), "/h/zeta".to_string())]
    );
    b.refresh(Err("permission denied".to_string()));
    assert_eq!(b.error(), Some("Cannot read directory: permission denied".to_string()));
    assert_eq!(b.shown().len(), 2);
}

#[test]
fn navigation() {
    let mut b = DirBrowser::new(Some("/h/games".to_string()));
    assert!(b.navigate_up());
    assert_eq!(b.current_dir(), "/h");
    assert!(!b.navigate_to("/h/file.txt", false));
    assert_eq!(b.current_dir(), "/h");
    assert!(b.navigate_to("/h/games", true));
    assert_eq!(b.current_dir(), "/h/games");
    assert!(!b.set_path_text("", true));
    assert!(b.set_path_text("/opt", true));
    assert_eq!(b.current_dir(), "/opt");
    let mut root = DirBrowser::new(None);
    assert!(!root.navigate_up());
    assert_eq!(root.current_dir(), "/");
    b.set_visible(true);
    assert!(b.is_visible());
    assert_eq!(b.select(), "/opt");
    assert!(!b.is_visible());
}
