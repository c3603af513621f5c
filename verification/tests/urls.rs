use rust_notes::file_type::EntryMeta;
use rust_notes::file_type::FileTypeManager;
use rust_notes::AppContext;
use rust_notes::SitePath;

fn path(parts: &[&str]) -> SitePath {
    SitePath::new(parts.iter().map(|p| p.to_string()).collect())
}

fn context(base: Option<&str>) -> AppContext {
    let flag = base.map(|b| b.to_string());
    AppContext::new(path(&["site"]), path(&["out"]), flag.as_ref())
}

const FILE: EntryMeta = EntryMeta { is_dir: false, is_file: true };
const DIR: EntryMeta = EntryMeta { is_dir: true, is_file: false };

#[test]
fn markdown_url_top_level() {
    let ctx = context(None);
    let manager = FileTypeManager::new();
    let kind = manager.create_file_type(&path(&["site", "notes", "a.md"]), FILE);
    assert_eq!(kind.get_url(&ctx), "/a.html");
}

#[test]
fn markdown_url_nested() {
    let ctx = context(None);
    let manager = FileTypeManager::new();
    let kind = manager.create_file_type(&path(&["site", "notes", "sub", "b.md"]), FILE);
    assert_eq!(kind.get_url(&ctx), "/sub/b.html");
}

#[test]
fn markdown_url_with_base() {
    let ctx = context(Some("blog"));
    assert_eq!(ctx.base_url, "/blog/");
    let manager = FileTypeManager::new();
    let kind = manager.create_file_type(&path(&["site", "notes", "sub", "b.md"]), FILE);
    assert_eq!(kind.get_url(&ctx), "/blog/sub/b.html");
}

#[test]
fn dir_url_of_notes_root_is_base() {
    let ctx = context(None);
    let manager = FileTypeManager::new();
    let kind = manager.create_file_type(&path(&["site", "notes"]), DIR);
    assert_eq!(kind.get_url(&ctx), "/");
}

#[test]
fn dir_url_nested_has_trailing_slash() {
    let ctx = context(None);
    let manager = FileTypeManager::new();
    let kind = manager.create_file_type(&path(&["site", "notes", "sub", "deeper"]), DIR);
    assert_eq!(kind.get_url(&ctx), "/sub/deeper/");
}

#[test]
fn unknown_url_keeps_full_name() {
    let ctx = context(None);
    let manager = FileTypeManager::new();
    let kind = manager.create_file_type(&path(&["site", "notes", "pic.png"]), FILE);
    assert_eq!(kind.get_url(&ctx), "/pic.png");
    let kind = manager.create_file_type(&path(&["site", "notes", "sub", "pic.png"]), FILE);
    assert_eq!(kind.get_url(&ctx), "/sub/pic.png");
}
