use rust_notes::file_type::create_parent_links;
use rust_notes::SitePath;

fn path(parts: &[&str]) -> SitePath {
    SitePath::new(parts.iter().map(|p| p.to_string()).collect())
}

#[test]
fn root_dir_has_no_breadcrumbs() {
    let links = create_parent_links("/", &path(&[]), true);
    assert!(links.is_empty());
}

#[test]
fn top_level_file_gets_root_only() {
    let links = create_parent_links("/", &path(&["a.md"]), false);
    assert_eq!(links.len(), 1);
    assert_eq!(links[0].name, "root");
    assert_eq!(links[0].url, "/");
}

#[test]
fn nested_file_breadcrumbs_descend_from_root() {
    let links = create_parent_links("/", &path(&["sub", "deeper", "note.md"]), false);
    let got: Vec<(String, String)> =
        links.iter().map(|l| (l.name.clone(), l.url.clone())).collect();
    assert_eq!(
        got,
        vec![
            ("root".to_string(), "/".to_string()),
            ("sub".to_string(), "/sub".to_string()),
            ("deeper".to_string(), "/sub/deeper".to_string()),
        ]
    );
}

#[test]
fn dir_breadcrumbs_stop_at_parent() {
    let links = create_parent_links("/", &path(&["sub"]), true);
    assert_eq!(links.len(), 1);
    assert_eq!(links[0].name, "root");
    let links = create_parent_links("/", &path(&["sub", "deeper"]), true);
    let got: Vec<(String, String)> =
        links.iter().map(|l| (l.name.clone(), l.url.clone())).collect();
    assert_eq!(
        got,
        vec![
            ("root".to_string(), "/".to_string()),
            ("sub".to_string(), "/sub".to_string()),
        ]
    );
}

#[test]
fn breadcrumbs_carry_the_base_url() {
    let links = create_parent_links("/blog/", &path(&["sub", "note.md"]), false);
    let got: Vec<(String, String)> =
        links.iter().map(|l| (l.name.clone(), l.url.clone())).collect();
    assert_eq!(
        got,
        vec![
            ("root".to_string(), "/blog/".to_string()),
            ("sub".to_string(), "/blog/sub".to_string()),
        ]
    );
}
