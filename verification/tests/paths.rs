use rust_notes::strings::file_stem;
use rust_notes::strings::join_rel;
use rust_notes::strings::normalize_base_url;
use rust_notes::util::iter_after;
use rust_notes::RelativeFrom;
use rust_notes::SitePath;

fn path(parts: &[&str]) -> SitePath {
    SitePath::new(parts.iter().map(|p| p.to_string()).collect())
}

fn comps(p: &SitePath) -> Vec<String> {
    p.components.clone()
}

#[test]
fn relative_from_roundtrip() {
    let p = path(&["home", "site", "notes", "sub", "a.md"]);
    let base = path(&["home", "site", "notes"]);
    let rel = p.my_relative_from(&base).expect("p lies under base");
    assert_eq!(comps(&rel), vec!["sub".to_string(), "a.md".to_string()]);
    let rejoined = base.append(&rel);
    assert_eq!(comps(&rejoined), comps(&p));
}

#[test]
fn relative_from_base_itself_is_empty() {
    let base = path(&["home", "site", "notes"]);
    let rel = base.my_relative_from(&base).expect("a path lies under itself");
    assert_eq!(comps(&rel), Vec::<String>::new());
}

#[test]
fn relative_from_outside_base_fails() {
    let p = path(&["home", "other", "a.md"]);
    let base = path(&["home", "site", "notes"]);
    assert!(p.my_relative_from(&base).is_none());
    let shallow = path(&["home"]);
    assert!(shallow.my_relative_from(&base).is_none());
}

#[test]
fn iter_after_strips_prefix() {
    let items = vec!["a".to_string(), "b".to_string(), "c".to_string()];
    let prefix = vec!["a".to_string(), "b".to_string()];
    assert_eq!(iter_after(&items, &prefix), Some(vec!["c".to_string()]));
    let wrong = vec!["a".to_string(), "x".to_string()];
    assert_eq!(iter_after(&items, &wrong), None);
    assert_eq!(iter_after(&items, &items), Some(Vec::new()));
}

#[test]
fn file_stem_cases() {
    assert_eq!(file_stem("a.md"), "a");
    assert_eq!(file_stem("archive.tar.gz"), "archive.tar");
    assert_eq!(file_stem(".bashrc"), ".bashrc");
    assert_eq!(file_stem("name"), "name");
    assert_eq!(file_stem("a."), "a");
    assert_eq!(file_stem(""), "");
}

#[test]
fn join_rel_cases() {
    assert_eq!(join_rel(&path(&[])), "");
    assert_eq!(join_rel(&path(&["a"])), "a");
    assert_eq!(join_rel(&path(&["a", "b", "c"])), "a/b/c");
}

#[test]
fn normalize_base_url_cases() {
    assert_eq!(normalize_base_url(None), "/");
    assert_eq!(normalize_base_url(Some(&"".to_string())), "/");
    assert_eq!(normalize_base_url(Some(&"blog".to_string())), "/blog/");
    assert_eq!(normalize_base_url(Some(&"/blog/".to_string())), "/blog/");
    assert_eq!(normalize_base_url(Some(&"a/b".to_string())), "/a/b/");
    assert_eq!(normalize_base_url(Some(&"///x///".to_string())), "/x/");
    assert_eq!(normalize_base_url(Some(&"/".to_string())), "//");
}
