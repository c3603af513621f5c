use rust_notes::file_type::ChildEntry;
use rust_notes::file_type::Dir;
use rust_notes::file_type::EntryMeta;
use rust_notes::file_type::FileTypeManager;
use rust_notes::AppContext;
use rust_notes::SitePath;

fn path(parts: &[&str]) -> SitePath {
    SitePath::new(parts.iter().map(|p| p.to_string()).collect())
}

fn context() -> AppContext {
    AppContext::new(path(&["site"]), path(&["out"]), None)
}

fn entry(name: &str, is_dir: bool) -> ChildEntry {
    ChildEntry {
        name: name.to_string(),
        meta: EntryMeta { is_dir, is_file: !is_dir },
    }
}

fn notes_dir() -> Dir {
    Dir { path: path(&["site", "notes"]), file_type_manager: FileTypeManager::new() }
}

#[test]
fn listing_sorts_dirs_first_then_names() {
    let ctx = context();
    let dir = notes_dir();
    let entries = vec![
        entry("b.md", false),
        entry("y", true),
        entry("a.md", false),
        entry("x", true),
    ];
    let children = dir.get_children(&ctx, &entries);
    let names: Vec<String> = children.iter().map(|c| c.name.clone()).collect();
    assert_eq!(names, vec!["x", "y", "a", "b"]);
    let types: Vec<String> = children.iter().map(|c| c.file_type.clone()).collect();
    assert_eq!(types, vec!["dir", "dir", "markdown", "markdown"]);
}

#[test]
fn listing_rows_carry_urls_and_kinds() {
    let ctx = context();
    let dir = notes_dir();
    let entries = vec![entry("b.md", false), entry("sub", true), entry("raw.txt", false)];
    let children = dir.get_children(&ctx, &entries);
    let rows: Vec<(String, String, String)> = children
        .iter()
        .map(|c| (c.name.clone(), c.url.clone(), c.file_type.clone()))
        .collect();
    assert_eq!(
        rows,
        vec![
            ("sub".to_string(), "/sub/".to_string(), "dir".to_string()),
            ("b".to_string(), "/b.html".to_string(), "markdown".to_string()),
            ("raw".to_string(), "/raw.txt".to_string(), "unknown".to_string()),
        ]
    );
}

#[test]
fn listing_keeps_all_directories() {
    // Every subdirectory is listed, whether or not it holds any note.
    let ctx = context();
    let dir = notes_dir();
    let entries = vec![entry("empty", true), entry("full", true)];
    let children = dir.get_children(&ctx, &entries);
    assert_eq!(children.len(), 2);
    assert_eq!(children[0].name, "empty");
    assert_eq!(children[1].name, "full");
}

#[test]
fn listing_of_no_entries_is_empty() {
    let ctx = context();
    let dir = notes_dir();
    let children = dir.get_children(&ctx, &Vec::new());
    assert!(children.is_empty());
}
